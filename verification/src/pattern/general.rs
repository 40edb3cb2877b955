use vstd::prelude::*;
use crate::datetime::Timestamp;
use crate::media::ImgInfo;
use crate::paths::file_name_of;
use crate::pattern::PatternElement;
use crate::text::{bool_str, dec_padded, lower_ascii, push_char, push_dec_padded, str_eq, to_lower_ascii};

verus! {

/// Whether the regular expression `pattern`, compiled with the given case
/// sensitivity, matches somewhere in `text`. The regex language takes pages
/// to state; the result depends on the three arguments alone.
pub uninterp spec fn regex_accepts(
    pattern: Seq<char>,
    case_insensitive: bool,
    text: Seq<char>,
) -> bool;

/// Whether `pattern` compiles as a regular expression under the given case
/// sensitivity.
pub uninterp spec fn regex_compilable(pattern: Seq<char>, case_insensitive: bool) -> bool;

/// Relies on `regex::RegexBuilder` (`new`, `case_insensitive`, `build`):
/// whether the pattern is accepted as a regular expression.
#[verifier::external_body]
fn regex_compiles(pattern: &str, case_insensitive: bool) -> (r: bool)
    ensures
        r == regex_compilable(pattern@, case_insensitive),
{
    regex::RegexBuilder::new(pattern).case_insensitive(case_insensitive).build().is_ok()
}

/// Relies on `regex::RegexBuilder` and `regex::Regex::is_match`: whether the
/// pattern matches the text. A pattern that does not compile matches nothing.
#[verifier::external_body]
fn regex_matches(pattern: &str, case_insensitive: bool, text: &str) -> (r: bool)
    ensures
        r == (regex_compilable(pattern@, case_insensitive) && regex_accepts(
            pattern@,
            case_insensitive,
            text@,
        )),
{
    match regex::RegexBuilder::new(pattern).case_insensitive(case_insensitive).build() {
        Ok(re) => re.is_match(text),
        Err(_) => false,
    }
}

/// The decision that follows a filename match: a screenshot segment is
/// produced exactly when the metadata flag or the filename said so.
pub fn screenshot_choice(flagged: bool, name_matches: bool, segment_name: &String) -> (r: Option<
    String,
>)
    ensures
        r matches Some(s) ==> s@ == segment_name@,
        (r is Some) == (flagged || name_matches),
{
    if flagged || name_matches {
        Option::Some(segment_name.clone())
    } else {
        Option::None
    }
}

/// A segment produced only for screenshots: files flagged as such by their
/// metadata, or whose filename matches a configured pattern.
#[derive(Debug, Clone)]
pub struct ScreenshotPattern {
    pub segment_name: String,
    pub filename_pattern: Option<String>,
    pub case_insensitive: bool,
}

impl ScreenshotPattern {
    /// Whether the file's name matches the configured filename pattern.
    pub open spec fn name_matched(self, path: Seq<char>) -> bool {
        match self.filename_pattern {
            Option::Some(p) => regex_compilable(p@, self.case_insensitive) && regex_accepts(
                p@,
                self.case_insensitive,
                file_name_of(path),
            ),
            Option::None => false,
        }
    }

    /// The segment this pattern produces for a file, when it produces one.
    pub open spec fn translated(self, info: ImgInfo) -> Option<Seq<char>> {
        if info.meta.is_screenshot || self.name_matched(info.fp@) {
            Option::Some(self.segment_name@)
        } else {
            Option::None
        }
    }

    pub fn def_value() -> (r: String)
        ensures
            r@ == "screenshots"@,
    {
        "screenshots".to_owned()
    }

    /// A pattern that goes by the metadata flag alone.
    pub fn new(seg_name: String) -> (r: PatternElement)
        ensures
            r matches PatternElement::Screenshot(p) && p.segment_name@ == seg_name@
                && p.filename_pattern is None,
    {
        PatternElement::Screenshot(
            ScreenshotPattern {
                segment_name: seg_name,
                filename_pattern: Option::None,
                case_insensitive: false,
            },
        )
    }

    /// A pattern that also matches filenames against a regular expression;
    /// an empty or invalid expression is rejected.
    pub fn with_fname_matching(seg_name: String, filename_pattern: &str, case_insensitive: bool) -> (r:
        Result<PatternElement, String>)
        ensures
            r matches Ok(e) ==> e matches PatternElement::Screenshot(p) && p.segment_name@
                == seg_name@ && (p.filename_pattern matches Some(fp) && fp@ == filename_pattern@)
                && p.case_insensitive == case_insensitive,
            (r is Ok) == (filename_pattern@.len() != 0 && regex_compilable(
                filename_pattern@,
                case_insensitive,
            )),
    {
        if filename_pattern.unicode_len() == 0 {
            return Result::Err("the provided filename pattern is not a valid regex string".to_owned());
        }
        if !regex_compiles(filename_pattern, case_insensitive) {
            return Result::Err("the provided filename pattern is not a valid regex string".to_owned());
        }
        Result::Ok(
            PatternElement::Screenshot(
                ScreenshotPattern {
                    segment_name: seg_name,
                    filename_pattern: Option::Some(filename_pattern.to_owned()),
                    case_insensitive,
                },
            ),
        )
    }

    pub fn segment_name(&self) -> (r: &str)
        ensures
            r@ == self.segment_name@,
    {
        self.segment_name.as_str()
    }

    pub fn filename_pattern(&self) -> (r: Option<&String>)
        ensures
            r matches Some(p) ==> self.filename_pattern matches Some(q) && p@ == q@,
            (r is Some) == (self.filename_pattern is Some),
    {
        match &self.filename_pattern {
            Option::Some(p) => Option::Some(p),
            Option::None => Option::None,
        }
    }

    pub fn is_optional(&self) -> (r: bool)
        ensures
            r == true,
    {
        true
    }

    /// Produces the screenshot segment where the flag or the filename calls
    /// for one.
    pub fn translate(&self, info: &ImgInfo) -> (r: Option<String>)
        ensures
            r matches Some(s) ==> s@ == self.segment_name@,
            (r is Some) == (self.translated(*info) is Some),
    {
        let name_matches = match &self.filename_pattern {
            Option::None => false,
            Option::Some(p) => {
                let fname = crate::paths::file_name(info.path());
                regex_matches(p.as_str(), self.case_insensitive, fname.as_str())
            },
        };
        screenshot_choice(info.metadata().is_screenshot(), name_matches, &self.segment_name)
    }

    /// A description of the configuration, for diagnostics.
    pub fn display(&self) -> String {
        let mut out = String::new();
        out.append("name=\"");
        out.append(self.segment_name.as_str());
        out.append("\"");
        out
    }

    pub fn name(&self) -> (r: &str)
        ensures
            r@ == "ScreenshotPattern"@,
    {
        "ScreenshotPattern"
    }

    /// A copy of this pattern with the same configuration.
    pub fn clone_config(&self) -> (r: ScreenshotPattern)
        ensures
            r.segment_name@ == self.segment_name@,
            r.filename_pattern is Some ==> self.filename_pattern is Some
                && r.filename_pattern->0@ == self.filename_pattern->0@,
            (r.filename_pattern is Some) == (self.filename_pattern is Some),
            r.case_insensitive == self.case_insensitive,
    {
        ScreenshotPattern {
            segment_name: self.segment_name.clone(),
            filename_pattern: match &self.filename_pattern {
                Option::Some(p) => Option::Some(p.clone()),
                Option::None => Option::None,
            },
            case_insensitive: self.case_insensitive,
        }
    }
}

/// The parts a timestamp segment may be built from.
#[derive(Debug, Clone, Copy, PartialEq, Eq, Structural)]
pub enum DateTimePart {
    Year,
    Month,
    Day,
    Hour,
    Minute,
    Second,
}

/// The datetime part named by a keyword, ignoring its case.
pub open spec fn datetime_part_of(s: Seq<char>) -> Option<DateTimePart> {
    let l = lower_ascii(s);
    if l == "year"@ {
        Option::Some(DateTimePart::Year)
    } else if l == "month"@ {
        Option::Some(DateTimePart::Month)
    } else if l == "day"@ {
        Option::Some(DateTimePart::Day)
    } else if l == "hour"@ {
        Option::Some(DateTimePart::Hour)
    } else if l == "minute"@ {
        Option::Some(DateTimePart::Minute)
    } else if l == "second"@ {
        Option::Some(DateTimePart::Second)
    } else {
        Option::None
    }
}

impl DateTimePart {
    /// Reads a datetime part keyword, ignoring its case.
    pub fn parse(s: &str) -> (r: Option<DateTimePart>)
        ensures
            r == datetime_part_of(s@),
    {
        let lower = to_lower_ascii(s);
        let l = lower.as_str();
        if str_eq(l, "year") {
            Option::Some(DateTimePart::Year)
        } else if str_eq(l, "month") {
            Option::Some(DateTimePart::Month)
        } else if str_eq(l, "day") {
            Option::Some(DateTimePart::Day)
        } else if str_eq(l, "hour") {
            Option::Some(DateTimePart::Hour)
        } else if str_eq(l, "minute") {
            Option::Some(DateTimePart::Minute)
        } else if str_eq(l, "second") {
            Option::Some(DateTimePart::Second)
        } else {
            Option::None
        }
    }
}

/// The fixed-width text of one timestamp part: the year four digits wide,
/// everything else two.
pub open spec fn datetime_part_text(p: DateTimePart, ts: Timestamp) -> Seq<char> {
    match p {
        DateTimePart::Year => dec_padded(ts.year as nat, 4),
        DateTimePart::Month => dec_padded(ts.month as nat, 2),
        DateTimePart::Day => dec_padded(ts.day as nat, 2),
        DateTimePart::Hour => dec_padded(ts.hour as nat, 2),
        DateTimePart::Minute => dec_padded(ts.minute as nat, 2),
        DateTimePart::Second => dec_padded(ts.second as nat, 2),
    }
}

/// The part texts joined by the separator.
pub open spec fn datetime_joined(ps: Seq<DateTimePart>, sep: char, ts: Timestamp) -> Seq<char>
    decreases ps.len(),
{
    if ps.len() == 0 {
        Seq::empty()
    } else if ps.len() == 1 {
        datetime_part_text(ps[0], ts)
    } else {
        datetime_joined(ps.drop_last(), sep, ts) + seq![sep] + datetime_part_text(ps.last(), ts)
    }
}

/// A segment built from a timestamp associated with the file.
pub struct DateTimePattern {
    pub fs_timestamp_fallback: bool,
    pub separator: char,
    pub default: String,
    pub pattern: Vec<DateTimePart>,
}

impl DateTimePattern {
    /// The timestamp the pattern goes by: the capture time from metadata,
    /// else the filesystem time where that fallback is enabled.
    pub open spec fn chosen_timestamp(self, info: ImgInfo) -> Option<Timestamp> {
        match info.meta.created_at {
            Option::Some(ts) => Option::Some(ts),
            Option::None => if self.fs_timestamp_fallback {
                Option::Some(info.changed_at)
            } else {
                Option::None
            },
        }
    }

    /// The segment this pattern produces for a file.
    pub open spec fn translated(self, info: ImgInfo) -> Seq<char> {
        match self.chosen_timestamp(info) {
            Option::Some(ts) => datetime_joined(self.pattern@, self.separator, ts),
            Option::None => self.default@,
        }
    }

    pub fn def_fs_timestamp_fallback() -> (r: bool)
        ensures
            r == false,
    {
        false
    }

    pub fn def_separator() -> (r: char)
        ensures
            r == '-',
    {
        '-'
    }

    pub fn def_default() -> (r: String)
        ensures
            r@ == "unknown"@,
    {
        "unknown".to_owned()
    }

    /// A builder primed with the defaults.
    pub fn new() -> (r: DateTimePatternBuilder)
        ensures
            r.fs_timestamp_fallback == false,
            r.separator == '-',
            r.default@ == "unknown"@,
            r.pattern@.len() == 0,
    {
        DateTimePatternBuilder {
            fs_timestamp_fallback: Self::def_fs_timestamp_fallback(),
            separator: Self::def_separator(),
            default: Self::def_default(),
            pattern: Vec::new(),
        }
    }

    fn generate_result(&self, ts: &Timestamp) -> (r: String)
        ensures
            r@ == datetime_joined(self.pattern@, self.separator, *ts),
    {
        let mut result = String::new();
        let mut i: usize = 0;
        while i < self.pattern.len()
            invariant
                i <= self.pattern@.len(),
                result@ == datetime_joined(self.pattern@.subrange(0, i as int), self.separator, *ts),
            decreases self.pattern@.len() - i,
        {
            if i > 0 {
                push_char(&mut result, self.separator);
            }
            match self.pattern[i] {
                DateTimePart::Year => push_dec_padded(&mut result, ts.year as u32, 4),
                DateTimePart::Month => push_dec_padded(&mut result, ts.month as u32, 2),
                DateTimePart::Day => push_dec_padded(&mut result, ts.day as u32, 2),
                DateTimePart::Hour => push_dec_padded(&mut result, ts.hour as u32, 2),
                DateTimePart::Minute => push_dec_padded(&mut result, ts.minute as u32, 2),
                DateTimePart::Second => push_dec_padded(&mut result, ts.second as u32, 2),
            }
            proof {
                let sub1 = self.pattern@.subrange(0, i + 1);
                assert(sub1.drop_last() =~= self.pattern@.subrange(0, i as int));
                assert(result@ =~= datetime_joined(sub1, self.separator, *ts));
            }
            i += 1;
        }
        proof {
            assert(self.pattern@.subrange(0, self.pattern@.len() as int) =~= self.pattern@);
        }
        result
    }

    pub fn fs_timestamp_fallback(&self) -> (r: bool)
        ensures
            r == self.fs_timestamp_fallback,
    {
        self.fs_timestamp_fallback
    }

    pub fn separator(&self) -> (r: char)
        ensures
            r == self.separator,
    {
        self.separator
    }

    pub fn default(&self) -> (r: &str)
        ensures
            r@ == self.default@,
    {
        self.default.as_str()
    }

    pub fn pattern(&self) -> (r: &[DateTimePart])
        ensures
            r@ == self.pattern@,
    {
        self.pattern.as_slice()
    }

    pub fn is_optional(&self) -> (r: bool)
        ensures
            r == false,
    {
        false
    }

    /// Produces the timestamp segment; the default text stands in when no
    /// timestamp is available.
    pub fn translate(&self, info: &ImgInfo) -> (r: Option<String>)
        ensures
            r matches Some(s) && s@ == self.translated(*info),
    {
        let result = match info.metadata().created_at() {
            Option::Some(ts) => {
                let t = *ts;
                self.generate_result(&t)
            },
            Option::None => {
                if self.fs_timestamp_fallback {
                    self.generate_result(info.changed_at())
                } else {
                    self.default.clone()
                }
            },
        };
        Option::Some(result)
    }

    /// A description of the configuration, for diagnostics.
    pub fn display(&self) -> String {
        let mut s = String::new();
        let mut i: usize = 0;
        while i < self.pattern.len()
            decreases self.pattern@.len() - i,
        {
            if i > 0 {
                push_char(&mut s, self.separator);
            }
            let c = match self.pattern[i] {
                DateTimePart::Year => 'y',
                DateTimePart::Month => 'M',
                DateTimePart::Day => 'd',
                DateTimePart::Hour => 'h',
                DateTimePart::Minute => 'm',
                DateTimePart::Second => 's',
            };
            push_char(&mut s, c);
            i += 1;
        }
        let mut out = String::new();
        out.append("pattern=\"");
        out.append(s.as_str());
        out.append("\" default=\"");
        out.append(self.default.as_str());
        out.append("\" fs_ts_fallback=\"");
        out.append(bool_str(self.fs_timestamp_fallback));
        out.append("\"");
        out
    }

    pub fn name(&self) -> (r: &str)
        ensures
            r@ == "DateTimePattern"@,
    {
        "DateTimePattern"
    }

    /// A copy of this pattern with the same configuration.
    pub fn clone_config(&self) -> (r: DateTimePattern)
        ensures
            r.fs_timestamp_fallback == self.fs_timestamp_fallback,
            r.separator == self.separator,
            r.default@ == self.default@,
            r.pattern@ == self.pattern@,
    {
        let mut pattern: Vec<DateTimePart> = Vec::new();
        let mut i: usize = 0;
        while i < self.pattern.len()
            invariant
                i <= self.pattern@.len(),
                pattern@ == self.pattern@.subrange(0, i as int),
            decreases self.pattern@.len() - i,
        {
            pattern.push(self.pattern[i]);
            proof {
                assert(pattern@ =~= self.pattern@.subrange(0, i + 1));
            }
            i += 1;
        }
        proof {
            assert(self.pattern@.subrange(0, self.pattern@.len() as int) =~= self.pattern@);
        }
        DateTimePattern {
            fs_timestamp_fallback: self.fs_timestamp_fallback,
            separator: self.separator,
            default: self.default.clone(),
            pattern,
        }
    }
}

/// Builder for `DateTimePattern`.
pub struct DateTimePatternBuilder {
    pub fs_timestamp_fallback: bool,
    pub separator: char,
    pub default: String,
    pub pattern: Vec<DateTimePart>,
}

impl DateTimePatternBuilder {
    pub fn part(self, p: DateTimePart) -> (r: DateTimePatternBuilder)
        ensures
            r.pattern@ == self.pattern@.push(p),
            r.fs_timestamp_fallback == self.fs_timestamp_fallback,
            r.separator == self.separator,
            r.default@ == self.default@,
    {
        let mut b = self;
        b.pattern.push(p);
        b
    }

    pub fn separator(self, s: char) -> (r: DateTimePatternBuilder)
        ensures
            r.pattern@ == self.pattern@,
            r.fs_timestamp_fallback == self.fs_timestamp_fallback,
            r.separator == s,
            r.default@ == self.default@,
    {
        let mut b = self;
        b.separator = s;
        b
    }

    pub fn default(self, s: String) -> (r: DateTimePatternBuilder)
        ensures
            r.pattern@ == self.pattern@,
            r.fs_timestamp_fallback == self.fs_timestamp_fallback,
            r.separator == self.separator,
            r.default@ == s@,
    {
        let mut b = self;
        b.default = s;
        b
    }

    pub fn fs_timestamp_fallback(self, v: bool) -> (r: DateTimePatternBuilder)
        ensures
            r.pattern@ == self.pattern@,
            r.fs_timestamp_fallback == v,
            r.separator == self.separator,
            r.default@ == self.default@,
    {
        let mut b = self;
        b.fs_timestamp_fallback = v;
        b
    }

    pub fn push_part(&mut self, part: DateTimePart)
        ensures
            final(self).pattern@ == old(self).pattern@.push(part),
            final(self).fs_timestamp_fallback == old(self).fs_timestamp_fallback,
            final(self).separator == old(self).separator,
            final(self).default@ == old(self).default@,
    {
        self.pattern.push(part);
    }

    /// Finishes the pattern as a segment provider; an empty part list falls
    /// back to year-then-month.
    pub fn build(self) -> (r: PatternElement)
        ensures
            r matches PatternElement::DateTime(p) && p.pattern@ == (if self.pattern@.len() == 0 {
                seq![DateTimePart::Year, DateTimePart::Month]
            } else {
                self.pattern@
            }) && p.fs_timestamp_fallback == self.fs_timestamp_fallback && p.separator
                == self.separator && p.default@ == self.default@,
    {
        let mut b = self;
        if b.pattern.len() == 0 {
            b.pattern.push(DateTimePart::Year);
            b.pattern.push(DateTimePart::Month);
            proof {
                assert(b.pattern@ =~= seq![DateTimePart::Year, DateTimePart::Month]);
            }
        }
        PatternElement::DateTime(
            DateTimePattern {
                fs_timestamp_fallback: b.fs_timestamp_fallback,
                separator: b.separator,
                default: b.default,
                pattern: b.pattern,
            },
        )
    }
}

} // verus!
