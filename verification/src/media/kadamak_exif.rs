use vstd::prelude::*;
use crate::datetime::{parsed_datetime, Timestamp};
use crate::media::{FileType, ImgMeta, MetaType, TagParseError};
use crate::text::{push_char, str_eq};

verus! {

/// One EXIF tag value as the in-process reader hands it over: a list of
/// ASCII byte strings, a raw undefined payload, or a value kind this
/// backend does not read.
pub enum TagValue {
    Ascii(Vec<Vec<u8>>),
    Undefined(Vec<u8>),
    Unsupported,
}

/// The tag values the in-process EXIF backend reads from a file.
pub struct ExifFields {
    pub datetime: Option<TagValue>,
    pub datetime_original: Option<TagValue>,
    pub make: Option<TagValue>,
    pub model: Option<TagValue>,
    pub user_comment: Option<TagValue>,
}

/// Each byte read as the character with the same code.
pub open spec fn byte_chars(bytes: Seq<u8>) -> Seq<char> {
    bytes.map_values(|b: u8| b as char)
}

/// Builds the string of a byte sequence, one character per byte.
pub fn bytes_to_chars(bytes: &Vec<u8>) -> (r: String)
    ensures
        r@ == byte_chars(bytes@),
{
    let mut buf = String::new();
    let mut i: usize = 0;
    while i < bytes.len()
        invariant
            i <= bytes@.len(),
            buf@ == byte_chars(bytes@.subrange(0, i as int)),
        decreases bytes@.len() - i,
    {
        let b = bytes[i];
        push_char(&mut buf, b as char);
        proof {
            assert(bytes@.subrange(0, i + 1 as int).drop_last() =~= bytes@.subrange(0, i as int));
            assert(buf@ =~= byte_chars(bytes@.subrange(0, i + 1 as int)));
        }
        i += 1;
    }
    proof {
        assert(bytes@.subrange(0, bytes@.len() as int) =~= bytes@);
    }
    buf
}

/// Relies on `core::str::from_utf8`: accepts exactly the valid UTF-8 byte
/// strings and yields the character sequence they encode.
#[verifier::external_body]
fn utf8_to_string(bytes: &[u8]) -> (r: Option<String>)
    ensures
        r matches Some(s) ==> vstd::utf8::encode_utf8(s@) == bytes@,
        (r is Some) == exists|t: Seq<char>| #[trigger] vstd::utf8::encode_utf8(t) == bytes@,
{
    match core::str::from_utf8(bytes) {
        Ok(s) => Some(s.to_owned()),
        Err(_) => None,
    }
}

/// The text a plain tag value denotes: the first ASCII value read byte for
/// byte, nothing for anything else.
pub open spec fn tag_text(val: Option<TagValue>) -> Seq<char> {
    match val {
        Option::Some(TagValue::Ascii(values)) => if values@.len() > 0 {
            byte_chars(values@[0]@)
        } else {
            Seq::empty()
        },
        _ => Seq::empty(),
    }
}

/// The in-process EXIF metadata backend; the external reader parses the
/// container, this type holds the decisions over the tag values.
pub struct KadamakExifProcessor {}

impl KadamakExifProcessor {
    pub fn new() -> (r: KadamakExifProcessor) {
        KadamakExifProcessor {  }
    }

    /// Which pairings of container and file type this backend reads.
    pub fn supports(&self, mt: &MetaType, ft: &FileType) -> (r: bool)
        ensures
            r == ((*ft is JPEG || *ft is PNG || *ft is HEIC) && *mt is Exif),
    {
        match ft {
            FileType::JPEG | FileType::PNG | FileType::HEIC => match mt {
                MetaType::Exif => true,
                _ => false,
            },
            _ => false,
        }
    }

    /// The user-comment text inside an undefined tag payload: the bytes
    /// after the eight-byte encoding header, which must decode as UTF-8.
    pub fn extract_user_comment(bytes: &Vec<u8>) -> (r: Result<String, TagParseError>)
        ensures
            r matches Ok(s) ==> vstd::utf8::encode_utf8(s@) == bytes@.subrange(
                8,
                bytes@.len() as int,
            ),
            (r is Ok) == (bytes@.len() > 8 && exists|t: Seq<char>|
                #[trigger] vstd::utf8::encode_utf8(t) == bytes@.subrange(8, bytes@.len() as int)),
    {
        if bytes.len() <= 8 {
            return Result::Err(TagParseError::new("minimum size violated!"));
        }
        let mut trimmed: Vec<u8> = Vec::new();
        let mut i: usize = 8;
        while i < bytes.len()
            invariant
                8 <= i <= bytes@.len(),
                trimmed@ == bytes@.subrange(8, i as int),
            decreases bytes@.len() - i,
        {
            trimmed.push(bytes[i]);
            proof {
                assert(trimmed@ =~= bytes@.subrange(8, i + 1 as int));
            }
            i += 1;
        }
        match utf8_to_string(trimmed.as_slice()) {
            Option::Some(s) => Result::Ok(s),
            Option::None => Result::Err(TagParseError::new("UserComment is not UTF-8 encodable!")),
        }
    }

    /// The text of one tag value: ASCII values are read byte for byte,
    /// undefined payloads only for the user-comment tag.
    pub fn extract_as_string(val: &Option<TagValue>, is_user_comment: bool) -> (r: Option<String>)
        ensures
            val is None ==> r is None,
            val matches Some(v) ==> match v {
                TagValue::Ascii(values) => if values@.len() > 0 {
                    r matches Some(s) && s@ == byte_chars(values@[0]@)
                } else {
                    r is None
                },
                TagValue::Undefined(bytes) => if is_user_comment {
                    (r matches Some(s) ==> bytes@.len() > 8 && vstd::utf8::encode_utf8(s@)
                        == bytes@.subrange(8, bytes@.len() as int))
                } else {
                    r is None
                },
                TagValue::Unsupported => r is None,
            },
    {
        match val {
            Option::None => Option::None,
            Option::Some(v) => match v {
                TagValue::Ascii(values) => {
                    if values.len() > 0 {
                        Option::Some(bytes_to_chars(&values[0]))
                    } else {
                        Option::None
                    }
                },
                TagValue::Undefined(bytes) => {
                    if is_user_comment {
                        match Self::extract_user_comment(bytes) {
                            Result::Ok(s) => Option::Some(s),
                            Result::Err(_) => Option::None,
                        }
                    } else {
                        Option::None
                    }
                },
                TagValue::Unsupported => Option::None,
            },
        }
    }

    /// The timestamp inside an ASCII datetime tag value, if its first value
    /// is a well-formed datetime text.
    pub fn parse_datetime(val: &TagValue) -> (r: Option<Timestamp>)
        ensures
            r == (match val {
                TagValue::Ascii(values) => if values@.len() > 0 {
                    parsed_datetime(byte_chars(values@[0]@), ':', ' ')
                } else {
                    Option::<Timestamp>::None
                },
                _ => Option::<Timestamp>::None,
            }),
    {
        match val {
            TagValue::Ascii(values) => {
                if values.len() > 0 {
                    let text = bytes_to_chars(&values[0]);
                    crate::datetime::parse_exif_datetime(text.as_str())
                } else {
                    Option::None
                }
            },
            _ => Option::None,
        }
    }

    /// The metadata the tag values denote: the plain datetime tag is
    /// preferred over the original-datetime tag, the device and comment
    /// texts are extracted, and a literal comment marks a screenshot.
    pub fn read_meta_fields(fields: &ExifFields) -> (r: ImgMeta)
        ensures
            r.created_at == (match fields.datetime {
                Option::Some(v) => match v {
                    TagValue::Ascii(values) => if values@.len() > 0 {
                        parsed_datetime(byte_chars(values@[0]@), ':', ' ')
                    } else {
                        Option::<Timestamp>::None
                    },
                    _ => Option::<Timestamp>::None,
                },
                Option::None => match fields.datetime_original {
                    Option::Some(v) => match v {
                        TagValue::Ascii(values) => if values@.len() > 0 {
                            parsed_datetime(byte_chars(values@[0]@), ':', ' ')
                        } else {
                            Option::<Timestamp>::None
                        },
                        _ => Option::<Timestamp>::None,
                    },
                    Option::None => Option::<Timestamp>::None,
                },
            }),
            r.make@ == tag_text(fields.make),
            r.model@ == tag_text(fields.model),
            fields.user_comment is None ==> r.user_comment@.len() == 0,
            fields.user_comment matches Some(v) ==> (v is Unsupported ==> r.user_comment@.len()
                == 0),
            fields.user_comment matches Some(v) ==> (v matches TagValue::Ascii(values) ==> (if (
            values@.len() > 0) {
                r.user_comment@ == byte_chars(values@[0]@)
            } else {
                r.user_comment@.len() == 0
            })),
            fields.user_comment matches Some(v) ==> (v matches TagValue::Undefined(bytes) ==> (
            r.user_comment@.len() == 0 || (bytes@.len() > 8 && vstd::utf8::encode_utf8(
                r.user_comment@,
            ) == bytes@.subrange(8, bytes@.len() as int)))),
            r.is_screenshot == (r.user_comment@ == "Screenshot"@),
    {
        let timestamp = match &fields.datetime {
            Option::Some(v) => Self::parse_datetime(v),
            Option::None => match &fields.datetime_original {
                Option::Some(v) => Self::parse_datetime(v),
                Option::None => Option::None,
            },
        };
        let make = match Self::extract_as_string(&fields.make, false) {
            Option::Some(s) => s,
            Option::None => String::new(),
        };
        let model = match Self::extract_as_string(&fields.model, false) {
            Option::Some(s) => s,
            Option::None => String::new(),
        };
        let user_comment = match Self::extract_as_string(&fields.user_comment, true) {
            Option::Some(s) => s,
            Option::None => String::new(),
        };
        let is_screenshot = str_eq(user_comment.as_str(), "Screenshot");
        ImgMeta { created_at: timestamp, make, model, user_comment, is_screenshot }
    }
}

} // verus!
