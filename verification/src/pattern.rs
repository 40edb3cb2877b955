pub mod device;
pub mod fallback;
pub mod general;

use vstd::prelude::*;
use crate::media::ImgInfo;
use crate::pattern::device::MakeModelPattern;
use crate::pattern::fallback::{DummyPattern, SimpleFileTypePattern};
use crate::pattern::general::{DateTimePattern, ScreenshotPattern};

verus! {

/// One segment provider: a closed set of pattern kinds, each mapping a file
/// to an optional path component.
pub enum PatternElement {
    MakeModel(MakeModelPattern),
    Screenshot(ScreenshotPattern),
    DateTime(DateTimePattern),
    SimpleFileType(SimpleFileTypePattern),
    Dummy(DummyPattern),
}

/// The view of an optional string.
pub open spec fn opt_view(r: Option<String>) -> Option<Seq<char>> {
    match r {
        Option::Some(s) => Option::Some(s@),
        Option::None => Option::None,
    }
}

impl PatternElement {
    /// The component this provider yields for a file, when it yields one.
    pub open spec fn spec_translate(self, info: ImgInfo) -> Option<Seq<char>> {
        match self {
            PatternElement::MakeModel(p) => Option::Some(p.translated(info.meta)),
            PatternElement::Screenshot(p) => p.translated(info),
            PatternElement::DateTime(p) => Option::Some(p.translated(info)),
            PatternElement::SimpleFileType(p) => Option::Some(p.translated(info.fp@)),
            PatternElement::Dummy(p) => Option::Some(p.name@),
        }
    }

    /// Whether a missing component is an expected outcome for this provider.
    pub fn is_optional(&self) -> (r: bool)
        ensures
            r == (self matches PatternElement::Screenshot(_) || self
                matches PatternElement::SimpleFileType(_)),
    {
        match self {
            PatternElement::MakeModel(p) => p.is_optional(),
            PatternElement::Screenshot(p) => p.is_optional(),
            PatternElement::DateTime(p) => p.is_optional(),
            PatternElement::SimpleFileType(p) => p.is_optional(),
            PatternElement::Dummy(p) => p.is_optional(),
        }
    }

    /// Maps a file to an optional path component.
    pub fn translate(&self, info: &ImgInfo) -> (r: Option<String>)
        ensures
            opt_view(r) == self.spec_translate(*info),
    {
        match self {
            PatternElement::MakeModel(p) => p.translate(info),
            PatternElement::Screenshot(p) => p.translate(info),
            PatternElement::DateTime(p) => p.translate(info),
            PatternElement::SimpleFileType(p) => p.translate(info),
            PatternElement::Dummy(p) => p.translate(info),
        }
    }

    /// A description of the provider's configuration, for diagnostics.
    pub fn display(&self) -> String {
        match self {
            PatternElement::MakeModel(p) => p.display(),
            PatternElement::Screenshot(p) => p.display(),
            PatternElement::DateTime(p) => p.display(),
            PatternElement::SimpleFileType(p) => p.display(),
            PatternElement::Dummy(p) => p.display(),
        }
    }

    /// The provider's kind name.
    pub fn name(&self) -> (r: &str)
        ensures
            self matches PatternElement::MakeModel(_) ==> r@ == "MakeModelPattern"@,
            self matches PatternElement::Screenshot(_) ==> r@ == "ScreenshotPattern"@,
            self matches PatternElement::DateTime(_) ==> r@ == "DateTimePattern"@,
            self matches PatternElement::SimpleFileType(_) ==> r@ == "SimpleFileTypePattern"@,
            self matches PatternElement::Dummy(_) ==> r@ == "DummyPattern"@,
    {
        match self {
            PatternElement::MakeModel(p) => p.name(),
            PatternElement::Screenshot(p) => p.name(),
            PatternElement::DateTime(p) => p.name(),
            PatternElement::SimpleFileType(p) => p.name(),
            PatternElement::Dummy(_) => "DummyPattern",
        }
    }

    /// A copy of this provider with the same configuration, translating every
    /// file the same way as the one it was copied from.
    pub fn clone_config(&self) -> (r: PatternElement)
        ensures
            forall|info: ImgInfo| r.spec_translate(info) == self.spec_translate(info),
    {
        match self {
            PatternElement::MakeModel(p) => PatternElement::MakeModel(p.clone_config()),
            PatternElement::Screenshot(p) => PatternElement::Screenshot(p.clone_config()),
            PatternElement::DateTime(p) => PatternElement::DateTime(p.clone_config()),
            PatternElement::SimpleFileType(p) => PatternElement::SimpleFileType(p.clone_config()),
            PatternElement::Dummy(p) => PatternElement::Dummy(p.clone_config()),
        }
    }
}

/// Failure to initialise a pattern.
#[derive(Debug, Clone)]
pub struct PatternInitError {
    pub msg: String,
}

impl PatternInitError {
    pub fn new(reason: &str) -> (r: PatternInitError)
        ensures
            r.msg@ == reason@,
    {
        PatternInitError { msg: reason.to_owned() }
    }

    pub fn message(&self) -> (r: &str)
        ensures
            r@ == self.msg@,
    {
        self.msg.as_str()
    }
}

/// Failure while sorting a file.
#[derive(Debug, Clone)]
pub struct SortingError {
    pub msg: String,
}

impl SortingError {
    pub fn new(reason: &str) -> (r: SortingError)
        ensures
            r.msg@ == reason@,
    {
        SortingError { msg: reason.to_owned() }
    }

    pub fn message(&self) -> (r: &str)
        ensures
            r@ == self.msg@,
    {
        self.msg.as_str()
    }
}

} // verus!
