use vstd::prelude::*;
use crate::datetime::{parsed_datetime, Timestamp};
use crate::media::{empty_meta_view, merged_meta, meta_view, FileType, ImgMeta, MetaType, MetaView};
use crate::text::{starts_with, str_eq, str_starts_with};

verus! {

/// The tag texts the sidecar-capable metadata backend reads from a file's
/// EXIF container, each missing when the tag is absent.
pub struct ExifTagValues {
    pub datetime_original_tiff: Option<String>,
    pub datetime_original_exif: Option<String>,
    pub datetime_tiff: Option<String>,
    pub make: Option<String>,
    pub model: Option<String>,
    pub user_comment: Option<String>,
    pub software: Option<String>,
}

/// The tag texts read from a file's XMP container.
pub struct XmpTagValues {
    pub create_date: Option<String>,
    pub user_comment: Option<String>,
}

/// The view of an optional tag text, the empty string when absent.
pub open spec fn tag_or_empty(t: Option<String>) -> Seq<char> {
    match t {
        Option::Some(s) => s@,
        Option::None => Seq::empty(),
    }
}

/// The capture time the EXIF tags denote: the first present tag is parsed,
/// in priority order, and only that one.
pub open spec fn exif_created_at(tags: ExifTagValues) -> Option<Timestamp> {
    match tags.datetime_original_tiff {
        Option::Some(s) => parsed_datetime(s@, ':', ' '),
        Option::None => match tags.datetime_original_exif {
            Option::Some(s) => parsed_datetime(s@, ':', ' '),
            Option::None => match tags.datetime_tiff {
                Option::Some(s) => parsed_datetime(s@, ':', ' '),
                Option::None => Option::None,
            },
        },
    }
}

/// Whether EXIF tags mark a screenshot: a literal comment, or vendor
/// software text that names a mobile build.
pub open spec fn exif_is_screenshot(tags: ExifTagValues) -> bool {
    tag_or_empty(tags.user_comment) == "Screenshot"@ || starts_with(
        tag_or_empty(tags.software),
        "Android "@,
    )
}

/// Whether XMP tags mark a screenshot.
pub open spec fn xmp_is_screenshot(tags: XmpTagValues) -> bool {
    tag_or_empty(tags.user_comment) == "lang=\"x-default\" Screenshot"@
}

/// The metadata backend backed by the external image-metadata library; the
/// library does the container reading, this type holds the decisions.
pub struct Rexiv2Processor {}

impl Rexiv2Processor {
    pub fn new() -> (r: Rexiv2Processor) {
        Rexiv2Processor {  }
    }

    /// Which pairings of container and file type this backend reads; the
    /// HEIF family is declined.
    pub fn supports(&self, mt: &MetaType, ft: &FileType) -> (r: bool)
        ensures
            r == ((*ft is JPEG || *ft is PNG || *ft is DNG || *ft is ARW) && (*mt is Exif || *mt
                is XMP)),
    {
        match ft {
            FileType::JPEG | FileType::PNG | FileType::DNG | FileType::ARW => match mt {
                MetaType::Exif | MetaType::XMP => true,
                _ => false,
            },
            _ => false,
        }
    }

    fn tag_string_or_empty(tag: &Option<String>) -> (r: String)
        ensures
            r@ == tag_or_empty(*tag),
    {
        match tag {
            Option::Some(s) => s.clone(),
            Option::None => String::new(),
        }
    }

    /// The metadata denoted by a file's EXIF tags.
    pub fn read_exif(tags: &ExifTagValues) -> (r: ImgMeta)
        ensures
            r.created_at == exif_created_at(*tags),
            r.make@ == tag_or_empty(tags.make),
            r.model@ == tag_or_empty(tags.model),
            r.user_comment@ == tag_or_empty(tags.user_comment),
            r.is_screenshot == exif_is_screenshot(*tags),
    {
        let created_at = Self::exif_read_datetime(tags);
        let make = Self::tag_string_or_empty(&tags.make);
        let model = Self::tag_string_or_empty(&tags.model);
        let user_comment = Self::tag_string_or_empty(&tags.user_comment);
        let software = Self::tag_string_or_empty(&tags.software);
        let is_screenshot = str_eq(user_comment.as_str(), "Screenshot") || str_starts_with(
            software.as_str(),
            "Android ",
        );
        ImgMeta { created_at, make, model, user_comment, is_screenshot }
    }

    fn exif_read_datetime(tags: &ExifTagValues) -> (r: Option<Timestamp>)
        ensures
            r == exif_created_at(*tags),
    {
        match &tags.datetime_original_tiff {
            Option::Some(tag) => Self::exif_parse_datetime(tag.as_str()),
            Option::None => match &tags.datetime_original_exif {
                Option::Some(tag) => Self::exif_parse_datetime(tag.as_str()),
                Option::None => match &tags.datetime_tiff {
                    Option::Some(tag) => Self::exif_parse_datetime(tag.as_str()),
                    Option::None => Option::None,
                },
            },
        }
    }

    fn exif_parse_datetime(inp: &str) -> (r: Option<Timestamp>)
        ensures
            r == parsed_datetime(inp@, ':', ' '),
    {
        crate::datetime::parse_exif_datetime(inp)
    }

    /// The metadata denoted by a file's XMP tags.
    pub fn read_xmp(tags: &XmpTagValues) -> (r: ImgMeta)
        ensures
            r.created_at == (match tags.create_date {
                Option::Some(s) => parsed_datetime(s@, '-', 'T'),
                Option::None => Option::None,
            }),
            r.make@.len() == 0,
            r.model@.len() == 0,
            r.user_comment@ == tag_or_empty(tags.user_comment),
            r.is_screenshot == xmp_is_screenshot(*tags),
    {
        let created_at = match &tags.create_date {
            Option::Some(ts) => crate::datetime::parse_xmp_datetime(ts.as_str()),
            Option::None => Option::None,
        };
        let user_comment = Self::tag_string_or_empty(&tags.user_comment);
        let is_screenshot = str_eq(user_comment.as_str(), "lang=\"x-default\" Screenshot");
        ImgMeta {
            created_at,
            make: String::new(),
            model: String::new(),
            user_comment,
            is_screenshot,
        }
    }

    /// The metadata denoted by whatever containers were present: the EXIF
    /// reading layered under the XMP reading, or nothing when neither
    /// container was there.
    pub fn read_metadata_from(exif_tags: &Option<ExifTagValues>, xmp_tags: &Option<XmpTagValues>)
        -> (r: Option<ImgMeta>)
        ensures
            (r is Some) == (exif_tags is Some || xmp_tags is Some),
            r matches Some(m) ==> meta_view(m) == (match (exif_tags, xmp_tags) {
                (Option::Some(e), Option::Some(x)) => merged_meta(
                    merged_meta(empty_meta_view(), exif_meta_of(*e)),
                    xmp_meta_of(*x),
                ),
                (Option::Some(e), Option::None) => merged_meta(empty_meta_view(), exif_meta_of(*e)),
                (Option::None, Option::Some(x)) => merged_meta(empty_meta_view(), xmp_meta_of(*x)),
                (Option::None, Option::None) => empty_meta_view(),
            }),
    {
        let mut meta = ImgMeta::new();
        let mut found_meta = false;
        proof {
            assert(meta_view(meta) =~~= empty_meta_view());
        }
        match exif_tags {
            Option::Some(e) => {
                let read = Self::read_exif(e);
                proof {
                    assert(meta_view(read) =~~= exif_meta_of(*e));
                }
                meta.merge_in(&read);
                found_meta = true;
            },
            Option::None => {},
        }
        match xmp_tags {
            Option::Some(x) => {
                let read = Self::read_xmp(x);
                proof {
                    assert(meta_view(read) =~~= xmp_meta_of(*x));
                }
                meta.merge_in(&read);
                found_meta = true;
            },
            Option::None => {},
        }
        if found_meta {
            Option::Some(meta)
        } else {
            Option::None
        }
    }
}

/// The metadata content an EXIF tag record denotes.
pub open spec fn exif_meta_of(tags: ExifTagValues) -> MetaView {
    MetaView {
        created_at: exif_created_at(tags),
        make: tag_or_empty(tags.make),
        model: tag_or_empty(tags.model),
        user_comment: tag_or_empty(tags.user_comment),
        is_screenshot: exif_is_screenshot(tags),
    }
}

/// The metadata content an XMP tag record denotes.
pub open spec fn xmp_meta_of(tags: XmpTagValues) -> MetaView {
    MetaView {
        created_at: match tags.create_date {
            Option::Some(s) => parsed_datetime(s@, '-', 'T'),
            Option::None => Option::None,
        },
        make: Seq::empty(),
        model: Seq::empty(),
        user_comment: tag_or_empty(tags.user_comment),
        is_screenshot: xmp_is_screenshot(tags),
    }
}

} // verus!
