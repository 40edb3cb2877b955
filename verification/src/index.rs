use vstd::prelude::*;
use crate::media::FileType;

verus! {

/// A path as the scan found it: a directory or a plain file.
pub enum PathBox {
    Directory(String),
    File(String),
}

impl PathBox {
    /// Wraps a path the driver has classified.
    pub fn from(p: String, is_dir: bool) -> (r: PathBox)
        ensures
            is_dir ==> (r matches PathBox::Directory(d) && d@ == p@),
            !is_dir ==> (r matches PathBox::File(f) && f@ == p@),
    {
        if is_dir {
            PathBox::Directory(p)
        } else {
            PathBox::File(p)
        }
    }
}

/// The scan configuration: where to start, how deep to descend, and whether
/// unrecognised file types are dropped.
pub struct Scanner {
    pub entry_point: String,
    pub max_depth: u8,
    pub depth: u8,
    pub debug: bool,
    pub ignore_unknown_types: bool,
}

impl Scanner {
    /// A scanner rooted at a path the driver has found to exist.
    pub fn new(root_path: &str, root_exists: bool) -> (r: Result<Scanner, String>)
        ensures
            (r is Ok) == root_exists,
            r matches Ok(s) ==> s.entry_point@ == root_path@ && s.max_depth == 10 && s.depth == 0
                && !s.debug && !s.ignore_unknown_types,
    {
        if !root_exists {
            Result::Err("root must be a directory!".to_owned())
        } else {
            Result::Ok(
                Scanner {
                    entry_point: root_path.to_owned(),
                    max_depth: 10,
                    depth: 0,
                    debug: false,
                    ignore_unknown_types: false,
                },
            )
        }
    }

    pub fn debug(&mut self, b: bool)
        ensures
            final(self).debug == b,
            final(self).entry_point == old(self).entry_point,
            final(self).max_depth == old(self).max_depth,
            final(self).depth == old(self).depth,
            final(self).ignore_unknown_types == old(self).ignore_unknown_types,
    {
        self.debug = b;
    }

    pub fn ignore_unknown_types(&mut self, b: bool)
        ensures
            final(self).ignore_unknown_types == b,
            final(self).entry_point == old(self).entry_point,
            final(self).max_depth == old(self).max_depth,
            final(self).depth == old(self).depth,
            final(self).debug == old(self).debug,
    {
        self.ignore_unknown_types = b;
    }

    pub fn set_max_depth(&mut self, max: u8)
        ensures
            final(self).max_depth == max,
            final(self).entry_point == old(self).entry_point,
            final(self).depth == old(self).depth,
            final(self).debug == old(self).debug,
            final(self).ignore_unknown_types == old(self).ignore_unknown_types,
    {
        self.max_depth = max;
    }

    pub fn get_max_depth(&self) -> (r: u8)
        ensures
            r == self.max_depth,
    {
        self.max_depth
    }

    /// Whether a scanned file is kept: everything, unless unknown types are
    /// ignored and this one is unknown.
    pub fn keeps_file(&self, ft: &FileType) -> (r: bool)
        ensures
            r == (!self.ignore_unknown_types || !(*ft is Other)),
    {
        if self.ignore_unknown_types {
            !matches!(ft, FileType::Other)
        } else {
            true
        }
    }

    /// Whether the walk may descend into a directory found at the current
    /// depth.
    pub fn may_descend(&self) -> (r: bool)
        ensures
            r == (self.depth < self.max_depth),
    {
        self.depth < self.max_depth
    }
}

} // verus!
