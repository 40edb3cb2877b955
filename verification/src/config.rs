pub mod seg_config;
pub mod sorter_config;

use vstd::prelude::*;
use crate::config::sorter_config::SorterCfg;
use crate::sorting::SorterBuilder;
use crate::text::str_eq;

verus! {

/// One parsed configuration element: its name, attributes in document
/// order, gathered text, and child elements. The driver builds this tree
/// from the configuration file's markup.
pub struct XmlElement {
    pub name: String,
    pub attrs: Vec<(String, String)>,
    pub text: String,
    pub children: Vec<XmlElement>,
}

/// The value of the first attribute with the given name.
pub open spec fn attr_of(attrs: Seq<(String, String)>, name: Seq<char>) -> Option<Seq<char>>
    decreases attrs.len(),
{
    if attrs.len() == 0 {
        Option::None
    } else if attrs[0].0@ == name {
        Option::Some(attrs[0].1@)
    } else {
        attr_of(attrs.drop_first(), name)
    }
}

impl XmlElement {
    pub fn name(&self) -> (r: &str)
        ensures
            r@ == self.name@,
    {
        self.name.as_str()
    }

    pub fn text(&self) -> (r: &str)
        ensures
            r@ == self.text@,
    {
        self.text.as_str()
    }

    /// The value of the first attribute with the given name.
    pub fn attr(&self, name: &str) -> (r: Option<&String>)
        ensures
            r matches Some(v) ==> attr_of(self.attrs@, name@) matches Some(w) && v@ == w,
            (r is Some) == (attr_of(self.attrs@, name@) is Some),
    {
        proof {
            assert(self.attrs@.subrange(0, self.attrs@.len() as int) =~= self.attrs@);
        }
        let mut i: usize = 0;
        while i < self.attrs.len()
            invariant
                i <= self.attrs@.len(),
                attr_of(self.attrs@, name@) == attr_of(
                    self.attrs@.subrange(i as int, self.attrs@.len() as int),
                    name@,
                ),
            decreases self.attrs@.len() - i,
        {
            proof {
                let rest = self.attrs@.subrange(i as int, self.attrs@.len() as int);
                assert(rest.drop_first() =~= self.attrs@.subrange(
                    i + 1,
                    self.attrs@.len() as int,
                ));
            }
            if str_eq(self.attrs[i].0.as_str(), name) {
                return Option::Some(&self.attrs[i].1);
            }
            i += 1;
        }
        Option::None
    }
}

/// A configuration value that was rejected.
#[derive(Debug, Clone)]
pub struct CfgValueError {
    pub msg: String,
}

impl CfgValueError {
    pub fn new(msg: &str) -> (r: CfgValueError)
        ensures
            r.msg@ == msg@,
    {
        CfgValueError { msg: msg.to_owned() }
    }

    pub fn message(&self) -> (r: &str)
        ensures
            r@ == self.msg@,
    {
        self.msg.as_str()
    }
}

/// The ways reading a configuration can fail; markup and file-reading
/// failures are carried as the driver's message text.
#[derive(Debug, Clone)]
pub enum CfgError {
    XmlParseFailure(String),
    IllegalValue(CfgValueError),
    UnsupportedSegment(CfgValueError),
    IoError(String),
}

impl CfgError {
    pub fn val_err(msg: &str) -> (r: CfgError)
        ensures
            r matches CfgError::IllegalValue(e) && e.msg@ == msg@,
    {
        CfgError::IllegalValue(CfgValueError::new(msg))
    }

    pub fn unsupported_segment(msg: &str) -> (r: CfgError)
        ensures
            r matches CfgError::UnsupportedSegment(e) && e.msg@ == msg@,
    {
        CfgError::UnsupportedSegment(CfgValueError::new(msg))
    }
}

/// The root of a configuration document.
pub struct RootCfg {
    pub sorter: SorterCfg,
}

impl RootCfg {
    /// Reads the configuration root: a `sorter` child is required; the last
    /// one wins.
    pub fn from(el: &XmlElement) -> (r: Result<RootCfg, CfgError>)
        ensures
            (forall|i: int|
                0 <= i < el.children@.len() ==> (#[trigger] el.children@[i].name@)
                    != "sorter"@) ==> r is Err,
    {
        let mut sorter: Option<SorterCfg> = Option::None;
        let mut i: usize = 0;
        while i < el.children.len()
            invariant
                i <= el.children@.len(),
                sorter is Some ==> exists|j: int|
                    0 <= j < el.children@.len() && (#[trigger] el.children@[j].name@)
                        == "sorter"@,
            decreases el.children@.len() - i,
        {
            if str_eq(el.children[i].name.as_str(), "sorter") {
                match SorterCfg::from(&el.children[i]) {
                    Result::Ok(s) => {
                        sorter = Option::Some(s);
                    },
                    Result::Err(e) => {
                        return Result::Err(e);
                    },
                }
            }
            i += 1;
        }
        match sorter {
            Option::Some(s) => Result::Ok(RootCfg { sorter: s }),
            Option::None => Result::Err(
                CfgError::val_err("mandatory child element \"sorter\" not found"),
            ),
        }
    }

    pub fn get_sorter_cfg(&self) -> (r: &SorterCfg) {
        &self.sorter
    }

    /// A sorter builder configured as the document says.
    pub fn generate_sorter_builder(&self) -> (r: Result<SorterBuilder, CfgError>) {
        self.sorter.generate_builder()
    }
}

} // verus!
