use vstd::prelude::*;
use crate::text::push_dec;

verus! {

/// One log entry: a sender id and its message text.
pub struct LogMsg {
    pub sender: String,
    pub msg: String,
}

impl LogMsg {
    pub fn new(sender_id: String, msg: String) -> (r: LogMsg)
        ensures
            r.sender@ == sender_id@,
            r.msg@ == msg@,
    {
        LogMsg { sender: sender_id, msg }
    }

    /// The entry as one line: the sender in brackets, then the message.
    pub fn render(&self) -> (r: String)
        ensures
            r@ == seq!['['] + self.sender@ + seq![']', ' '] + self.msg@,
    {
        let mut out = String::new();
        crate::text::push_char(&mut out, '[');
        out.append(self.sender.as_str());
        out.append("] ");
        out.append(self.msg.as_str());
        proof {
            reveal_strlit("] ");
            assert(out@ =~= seq!['['] + self.sender@ + seq![']', ' '] + self.msg@);
        }
        out
    }
}

/// The default log filename for a run on the given date.
pub fn log_file_name(year: u32, month: u32, day: u32) -> (r: String)
    ensures
        r@ == "dcim-sort_"@ + crate::text::dec_digits(year as nat) + seq!['-']
            + crate::text::dec_digits(month as nat) + seq!['-'] + crate::text::dec_digits(
            day as nat,
        ) + ".log"@,
{
    let mut out = String::new();
    out.append("dcim-sort_");
    push_dec(&mut out, year);
    crate::text::push_char(&mut out, '-');
    push_dec(&mut out, month);
    crate::text::push_char(&mut out, '-');
    push_dec(&mut out, day);
    out.append(".log");
    proof {
        assert(out@ =~= "dcim-sort_"@ + crate::text::dec_digits(year as nat) + seq!['-']
            + crate::text::dec_digits(month as nat) + seq!['-'] + crate::text::dec_digits(
            day as nat,
        ) + ".log"@);
    }
    out
}

} // verus!
