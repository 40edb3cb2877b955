pub mod kadamak_exif;
pub mod metadata_processor;
pub mod rexiv_proc;

use vstd::prelude::*;
use crate::datetime::Timestamp;
use crate::paths::{extension_of, file_name_of};
use crate::text::{lower_ascii, str_eq, to_lower_ascii};

verus! {

/// File-type classification drawn from the filename extension.
#[derive(Debug, Clone, Copy, PartialEq, Eq, Structural)]
pub enum FileType {
    JPEG,
    PNG,
    HEIC,
    DNG,
    ARW,
    Other,
}

/// The metadata containers a file may carry.
#[derive(Debug, Clone, Copy, PartialEq, Eq, Structural)]
pub enum MetaType {
    Exif,
    XMP,
    NoMeta,
}

/// A pairing of file type and metadata container.
pub struct FileMetaType {
    pub file: FileType,
    pub meta: MetaType,
}

/// The file type denoted by a lower-cased extension.
pub open spec fn file_type_of_ext(ext: Seq<char>) -> FileType {
    let l = lower_ascii(ext);
    if l == "jpeg"@ || l == "jpg"@ {
        FileType::JPEG
    } else if l == "png"@ {
        FileType::PNG
    } else if l == "heic"@ {
        FileType::HEIC
    } else {
        FileType::Other
    }
}

/// The file type of a whole path: drawn from the extension of its filename,
/// `Other` when there is none.
pub open spec fn file_type_of_path(path: Seq<char>) -> FileType {
    match extension_of(file_name_of(path)) {
        Option::Some(ext) => file_type_of_ext(ext),
        Option::None => FileType::Other,
    }
}

impl FileType {
    /// Classifies a filename extension, ignoring its case.
    pub fn from(extension: &str) -> (r: FileType)
        ensures
            r == file_type_of_ext(extension@),
    {
        let lower = to_lower_ascii(extension);
        if str_eq(lower.as_str(), "jpeg") || str_eq(lower.as_str(), "jpg") {
            FileType::JPEG
        } else if str_eq(lower.as_str(), "png") {
            FileType::PNG
        } else if str_eq(lower.as_str(), "heic") {
            FileType::HEIC
        } else {
            FileType::Other
        }
    }
}

/// The metadata containers worth reading for a file type.
pub open spec fn meta_types_of(e: FileType) -> Seq<MetaType> {
    match e {
        FileType::HEIC => seq![MetaType::Exif, MetaType::XMP],
        FileType::JPEG => seq![MetaType::Exif, MetaType::XMP],
        FileType::PNG => seq![MetaType::Exif, MetaType::XMP],
        _ => seq![MetaType::NoMeta],
    }
}

impl MetaType {
    /// The metadata containers worth reading for a file type.
    pub fn from_filetype(e: &FileType) -> (r: Vec<MetaType>)
        ensures
            r@ == meta_types_of(*e),
    {
        match e {
            FileType::HEIC => vec![MetaType::Exif, MetaType::XMP],
            FileType::JPEG => vec![MetaType::Exif, MetaType::XMP],
            FileType::PNG => vec![MetaType::Exif, MetaType::XMP],
            _ => vec![MetaType::NoMeta],
        }
    }
}

/// Failure to read one metadata tag.
#[derive(Debug, Clone)]
pub struct TagParseError {
    pub msg: String,
}

impl TagParseError {
    pub fn new(msg: &str) -> (r: TagParseError)
        ensures
            r.msg@ == msg@,
    {
        TagParseError { msg: msg.to_owned() }
    }

    pub fn message(&self) -> (r: &str)
        ensures
            r@ == self.msg@,
    {
        self.msg.as_str()
    }
}

/// Metadata read from an image file: capture time, device identity, free
/// comment, and whether the file was recognised as a screenshot.
#[derive(Debug, Clone, PartialEq)]
pub struct ImgMeta {
    pub created_at: Option<Timestamp>,
    pub make: String,
    pub model: String,
    pub user_comment: String,
    pub is_screenshot: bool,
}

/// The mathematical content of a metadata record.
#[verifier::ext_equal]
pub ghost struct MetaView {
    pub created_at: Option<Timestamp>,
    pub make: Seq<char>,
    pub model: Seq<char>,
    pub user_comment: Seq<char>,
    pub is_screenshot: bool,
}

/// The content of a metadata record.
pub open spec fn meta_view(m: ImgMeta) -> MetaView {
    MetaView {
        created_at: m.created_at,
        make: m.make@,
        model: m.model@,
        user_comment: m.user_comment@,
        is_screenshot: m.is_screenshot,
    }
}

/// The empty metadata content.
pub open spec fn empty_meta_view() -> MetaView {
    MetaView {
        created_at: Option::None,
        make: Seq::empty(),
        model: Seq::empty(),
        user_comment: Seq::empty(),
        is_screenshot: false,
    }
}

/// The result of layering `other` over `base`: empty fields of `base` are
/// filled from `other`, populated fields are kept.
pub open spec fn merged_meta(base: MetaView, other: MetaView) -> MetaView {
    MetaView {
        created_at: if base.created_at is None {
            other.created_at
        } else {
            base.created_at
        },
        make: if base.make.len() == 0 {
            other.make
        } else {
            base.make
        },
        model: if base.model.len() == 0 {
            other.model
        } else {
            base.model
        },
        user_comment: if base.user_comment.len() == 0 {
            other.user_comment
        } else {
            base.user_comment
        },
        is_screenshot: base.is_screenshot || other.is_screenshot,
    }
}

impl ImgMeta {
    /// An empty metadata record.
    pub fn new() -> (r: ImgMeta)
        ensures
            r.created_at is None,
            r.make@.len() == 0,
            r.model@.len() == 0,
            r.user_comment@.len() == 0,
            !r.is_screenshot,
    {
        ImgMeta {
            created_at: Option::None,
            make: String::new(),
            model: String::new(),
            user_comment: String::new(),
            is_screenshot: false,
        }
    }

    pub fn created_at(&self) -> (r: Option<&Timestamp>)
        ensures
            r matches Some(t) ==> self.created_at matches Some(v) && *t == v,
            (r is Some) == (self.created_at is Some),
    {
        match &self.created_at {
            Option::Some(ts) => Option::Some(ts),
            Option::None => Option::None,
        }
    }

    pub fn make(&self) -> (r: &str)
        ensures
            r@ == self.make@,
    {
        self.make.as_str()
    }

    pub fn model(&self) -> (r: &str)
        ensures
            r@ == self.model@,
    {
        self.model.as_str()
    }

    pub fn user_comment(&self) -> (r: &str)
        ensures
            r@ == self.user_comment@,
    {
        self.user_comment.as_str()
    }

    pub fn is_screenshot(&self) -> (r: bool)
        ensures
            r == self.is_screenshot,
    {
        self.is_screenshot
    }

    /// Fills the empty fields of this record from `other`, keeping what is
    /// already populated.
    pub fn merge_in(&mut self, other: &ImgMeta)
        ensures
            meta_view(*final(self)) == merged_meta(meta_view(*old(self)), meta_view(*other)),
    {
        if self.created_at.is_none() {
            self.created_at = other.created_at;
        }
        if self.make.as_str().is_empty() && !other.make.as_str().is_empty() {
            self.make = other.make.clone();
        }
        if self.model.as_str().is_empty() && !other.model.as_str().is_empty() {
            self.model = other.model.clone();
        }
        if !self.is_screenshot && other.is_screenshot {
            self.is_screenshot = other.is_screenshot;
        }
        if self.user_comment.as_str().is_empty() && !other.user_comment.as_str().is_empty() {
            self.user_comment = other.user_comment.clone();
        }
        proof {
            if old(self).make@.len() == 0 && other.make@.len() == 0 {
                assert(self.make@ =~= other.make@);
            }
            if old(self).model@.len() == 0 && other.model@.len() == 0 {
                assert(self.model@ =~= other.model@);
            }
            if old(self).user_comment@.len() == 0 && other.user_comment@.len() == 0 {
                assert(self.user_comment@ =~= other.user_comment@);
            }
            assert(meta_view(*self) == merged_meta(meta_view(*old(self)), meta_view(*other)));
        }
    }

    /// The merge of two records as a fresh value.
    pub fn merge(m1: &ImgMeta, m2: &ImgMeta) -> (r: ImgMeta)
        ensures
            meta_view(r) == merged_meta(meta_view(*m1), meta_view(*m2)),
    {
        let mut target = ImgMeta {
            created_at: m1.created_at,
            make: m1.make.clone(),
            model: m1.model.clone(),
            user_comment: m1.user_comment.clone(),
            is_screenshot: m1.is_screenshot,
        };
        target.merge_in(m2);
        target
    }
}

/// One scanned file: its source path, classification, metadata, and the
/// filesystem modification time it was found with.
#[derive(Debug, Clone)]
pub struct ImgInfo {
    pub fp: String,
    pub size: usize,
    pub file_type: FileType,
    pub meta: ImgMeta,
    pub changed_at: Timestamp,
}

impl ImgInfo {
    pub open spec fn spec_path(self) -> Seq<char> {
        self.fp@
    }

    pub open spec fn spec_file_type(self) -> FileType {
        self.file_type
    }

    pub open spec fn spec_meta(self) -> ImgMeta {
        self.meta
    }

    pub open spec fn spec_changed_at(self) -> Timestamp {
        self.changed_at
    }

    /// Records a scanned file: the type classification is drawn from the
    /// path's extension, the metadata starts out empty.
    pub fn new(file: String, changed_at: Timestamp) -> (r: ImgInfo)
        ensures
            r.spec_path() == file@,
            r.spec_file_type() == file_type_of_path(file@),
            r.spec_meta().created_at is None,
            r.spec_meta().make@.len() == 0,
            r.spec_meta().model@.len() == 0,
            r.spec_meta().user_comment@.len() == 0,
            !r.spec_meta().is_screenshot,
            r.spec_changed_at() == changed_at,
    {
        let name = crate::paths::file_name(file.as_str());
        let file_type = match crate::paths::extension(name.as_str()) {
            Option::None => FileType::Other,
            Option::Some(s) => FileType::from(s.as_str()),
        };
        ImgInfo { fp: file, size: 0, file_type, meta: ImgMeta::new(), changed_at }
    }

    pub fn path(&self) -> (r: &str)
        ensures
            r@ == self.spec_path(),
    {
        self.fp.as_str()
    }

    pub fn size(&self) -> (r: &usize) {
        &self.size
    }

    pub fn file_type(&self) -> (r: &FileType)
        ensures
            *r == self.spec_file_type(),
    {
        &self.file_type
    }

    pub fn changed_at(&self) -> (r: &Timestamp)
        ensures
            *r == self.spec_changed_at(),
    {
        &self.changed_at
    }

    pub fn metadata(&self) -> (r: &ImgMeta)
        ensures
            *r == self.spec_meta(),
    {
        &self.meta
    }

    /// Replaces the metadata: the one enrichment step each file goes through.
    pub fn set_metadata(&mut self, m: ImgMeta)
        ensures
            final(self).meta == m,
            final(self).fp == old(self).fp,
            final(self).size == old(self).size,
            final(self).file_type == old(self).file_type,
            final(self).changed_at == old(self).changed_at,
    {
        self.meta = m;
    }
}

} // verus!
