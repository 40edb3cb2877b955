use vstd::prelude::*;
use crate::config::{CfgError, XmlElement};
use crate::pattern::device::{CaseNormalization, DevicePart, MakeModelPattern};
use crate::pattern::fallback::SimpleFileTypePattern;
use crate::pattern::general::{DateTimePart, DateTimePattern, ScreenshotPattern};
use crate::pattern::PatternElement;
use crate::text::{parse_index, str_eq, to_lower_ascii};

verus! {

/// One ordered value inside a segment configuration.
pub struct SegPart {
    pub index: i32,
    pub value: String,
}

/// Reads a single separator character; an empty text stands for "keep the
/// default", more than one character or a non-ASCII one is rejected.
pub fn parse_single_char(el: &XmlElement) -> (r: Result<Option<char>, CfgError>)
    ensures
        el.text@.len() == 0 ==> (r matches Ok(v) && v is None),
        r matches Ok(v) ==> (v matches Some(c) ==> el.text@.len() == 1 && c == el.text@[0]),
        (r matches Ok(v) && v is Some) == (el.text@.len() == 1 && el.text@[0] as u32 <= 127),
{
    let text = el.text();
    let len = text.unicode_len();
    if len == 0 {
        return Result::Ok(Option::None);
    }
    if len != 1 {
        return Result::Err(
            CfgError::val_err("value \"separator\" must be exactly one character"),
        );
    }
    let c = text.get_char(0);
    if (c as u32) > 127 {
        return Result::Err(CfgError::val_err("separator is not a single-byte character!"));
    }
    Result::Ok(Option::Some(c))
}

/// Reads an optional boolean: empty text stands for "keep the default".
pub fn parse_boolean(el: &XmlElement) -> (r: Result<Option<bool>, CfgError>)
    ensures
        el.text@.len() == 0 ==> (r matches Ok(v) && v is None),
        el.text@ == "true"@ ==> (r matches Ok(v) && v matches Some(b) && b),
        el.text@ == "false"@ ==> (r matches Ok(v) && v matches Some(b) && !b),
        el.text@.len() != 0 && el.text@ != "true"@ && el.text@ != "false"@ ==> r is Err,
{
    proof {
        reveal_strlit("true");
        reveal_strlit("false");
    }
    let text = el.text();
    if text.is_empty() {
        Result::Ok(Option::None)
    } else if str_eq(text, "true") {
        Result::Ok(Option::Some(true))
    } else if str_eq(text, "false") {
        Result::Ok(Option::Some(false))
    } else {
        Result::Err(CfgError::val_err("value could not be parsed as a boolean"))
    }
}

/// Reads an optional string: empty text stands for "keep the default".
pub fn parse_string(el: &XmlElement) -> (r: Option<String>)
    ensures
        (r is Some) == (el.text@.len() != 0),
        r matches Some(s) ==> s@ == el.text@,
{
    let text = el.text();
    if !text.is_empty() {
        Option::Some(text.to_owned())
    } else {
        Option::None
    }
}

impl SegPart {
    /// Reads one ordered part: a mandatory numeric `index` attribute and the
    /// element's text as its value.
    pub fn from(el: &XmlElement) -> (r: Result<SegPart, CfgError>)
        ensures
            r matches Ok(p) ==> p.value@ == el.text@,
    {
        let ind_str = match el.attr("index") {
            Option::None => {
                return Result::Err(CfgError::val_err("mandatory attribute \"index\" is missing"));
            },
            Option::Some(s) => s,
        };
        let index = match parse_index(ind_str.as_str()) {
            Option::None => {
                return Result::Err(CfgError::val_err("mandatory attribute \"index\" is missing"));
            },
            Option::Some(i) => i,
        };
        Result::Ok(SegPart { index, value: el.text().to_owned() })
    }

    /// Reads every `part` child, in document order.
    pub fn from_multi(el: &XmlElement) -> (r: Result<Vec<SegPart>, CfgError>) {
        let mut parts: Vec<SegPart> = Vec::new();
        let mut i: usize = 0;
        while i < el.children.len()
            decreases el.children@.len() - i,
        {
            if str_eq(el.children[i].name.as_str(), "part") {
                match Self::from(&el.children[i]) {
                    Result::Ok(p) => parts.push(p),
                    Result::Err(e) => {
                        return Result::Err(e);
                    },
                }
            }
            i += 1;
        }
        Result::Ok(parts)
    }
}

/// Configuration of a device make/model segment.
pub struct MakeModelPatternCfg {
    pub parts: Vec<SegPart>,
    pub replace_spaces: bool,
    pub default_make: String,
    pub default_model: String,
    pub separator: char,
    pub case_normalization: CaseNormalization,
    pub fallback: String,
}

impl MakeModelPatternCfg {
    /// Reads the segment settings from the element's children; anything
    /// absent keeps its default.
    pub fn from(el: &XmlElement) -> (r: Result<MakeModelPatternCfg, CfgError>) {
        let mut parts: Vec<SegPart> = Vec::new();
        let mut replace_spaces = MakeModelPattern::def_replace_spaces();
        let mut def_make = MakeModelPattern::def_default_make();
        let mut def_model = MakeModelPattern::def_default_model();
        let mut case_normalization = MakeModelPattern::def_case();
        let mut separator = MakeModelPattern::def_separator();
        let mut fallback = String::new();

        let mut i: usize = 0;
        while i < el.children.len()
            decreases el.children@.len() - i,
        {
            let child = &el.children[i];
            if str_eq(child.name.as_str(), "parts") {
                match SegPart::from_multi(child) {
                    Result::Ok(p) => {
                        parts = p;
                    },
                    Result::Err(e) => {
                        return Result::Err(e);
                    },
                }
            } else if str_eq(child.name.as_str(), "replaceSpaces") {
                match parse_boolean(child) {
                    Result::Ok(Option::Some(b)) => {
                        replace_spaces = b;
                    },
                    Result::Ok(Option::None) => {},
                    Result::Err(e) => {
                        return Result::Err(e);
                    },
                }
            } else if str_eq(child.name.as_str(), "defaultMake") {
                match parse_string(child) {
                    Option::Some(s) => {
                        def_make = s;
                    },
                    Option::None => {},
                }
            } else if str_eq(child.name.as_str(), "defaultModel") {
                match parse_string(child) {
                    Option::Some(s) => {
                        def_model = s;
                    },
                    Option::None => {},
                }
            } else if str_eq(child.name.as_str(), "separator") {
                match parse_single_char(child) {
                    Result::Ok(Option::Some(c)) => {
                        separator = c;
                    },
                    Result::Ok(Option::None) => {},
                    Result::Err(e) => {
                        return Result::Err(e);
                    },
                }
            } else if str_eq(child.name.as_str(), "caseNormalization") {
                let lower = to_lower_ascii(child.text.as_str());
                if str_eq(lower.as_str(), "lowercase") {
                    case_normalization = CaseNormalization::Lowercase;
                } else if str_eq(lower.as_str(), "uppercase") {
                    case_normalization = CaseNormalization::Uppercase;
                } else if str_eq(lower.as_str(), "none") {
                    case_normalization = CaseNormalization::Unchanged;
                } else {
                    return Result::Err(
                        CfgError::val_err(
                            "value \"caseNormalization\" must be one of [\"lowercase\", \"uppercase\", \"none\"]",
                        ),
                    );
                }
            } else if str_eq(child.name.as_str(), "fallback") {
                if !child.text.as_str().is_empty() {
                    fallback = child.text.clone();
                }
            }
            i += 1;
        }
        Result::Ok(
            MakeModelPatternCfg {
                parts,
                replace_spaces,
                default_make: def_make,
                default_model: def_model,
                separator,
                case_normalization,
                fallback,
            },
        )
    }

    /// Builds the configured segment provider; every part value must name a
    /// device part.
    pub fn generate(&self) -> (r: Result<PatternElement, CfgError>)
        ensures
            r matches Ok(e) ==> e is MakeModel,
    {
        let mut builder = MakeModelPattern::new().separator(self.separator).case_normalization(
            self.case_normalization,
        ).replace_spaces(self.replace_spaces).default_make(self.default_make.clone()).default_model(
            self.default_model.clone(),
        ).fallback(self.fallback.clone());
        let mut i: usize = 0;
        while i < self.parts.len()
            decreases self.parts@.len() - i,
        {
            match DevicePart::parse(self.parts[i].value.as_str()) {
                Option::Some(p) => {
                    builder.push_part(p);
                },
                Option::None => {
                    return Result::Err(CfgError::val_err("Illegal value for DevicePart"));
                },
            }
            i += 1;
        }
        Result::Ok(builder.build())
    }
}

/// Configuration of a screenshot segment.
pub struct ScreenshotPatternCfg {
    pub value: String,
    pub filename_pattern: Option<(String, bool)>,
}

impl ScreenshotPatternCfg {
    /// Reads the segment name and the optional filename pattern with its
    /// case flag.
    pub fn from(el: &XmlElement) -> (r: Result<ScreenshotPatternCfg, CfgError>) {
        let mut value = ScreenshotPattern::def_value();
        let mut filename_pattern: Option<String> = Option::None;
        let mut case_insensitive = false;
        let mut i: usize = 0;
        while i < el.children.len()
            decreases el.children@.len() - i,
        {
            let child = &el.children[i];
            if str_eq(child.name.as_str(), "value") {
                if !child.text.as_str().is_empty() {
                    value = child.text.clone();
                }
            } else if str_eq(child.name.as_str(), "filenamePattern") {
                if !child.text.as_str().is_empty() {
                    filename_pattern = Option::Some(child.text.clone());
                    match child.attr("caseInsensitive") {
                        Option::Some(case_str) => {
                            if str_eq(case_str.as_str(), "true") {
                                case_insensitive = true;
                            } else if str_eq(case_str.as_str(), "false") {
                                case_insensitive = false;
                            } else {
                                return Result::Err(
                                    CfgError::val_err(
                                        "invalid value for attribute \"caseInsensitive\": must be a boolean",
                                    ),
                                );
                            }
                        },
                        Option::None => {},
                    }
                }
            }
            i += 1;
        }
        match filename_pattern {
            Option::None => Result::Ok(ScreenshotPatternCfg { value, filename_pattern: Option::None }),
            Option::Some(p) => Result::Ok(
                ScreenshotPatternCfg { value, filename_pattern: Option::Some((p, case_insensitive)) },
            ),
        }
    }

    /// Builds the configured segment provider; a filename pattern that is
    /// not a valid regular expression is rejected.
    pub fn generate(&self) -> (r: Result<PatternElement, CfgError>)
        ensures
            r matches Ok(e) ==> e is Screenshot,
    {
        match &self.filename_pattern {
            Option::None => Result::Ok(ScreenshotPattern::new(self.value.clone())),
            Option::Some(p) => match ScreenshotPattern::with_fname_matching(
                self.value.clone(),
                p.0.as_str(),
                p.1,
            ) {
                Result::Ok(r) => Result::Ok(r),
                Result::Err(_) => Result::Err(
                    CfgError::val_err("failed to load screenshot file pattern"),
                ),
            },
        }
    }
}

/// Configuration of a timestamp segment.
pub struct DateTimePatternCfg {
    pub parts: Vec<SegPart>,
    pub separator: char,
    pub default_value: String,
    pub fallback_fs_timestamp: bool,
}

impl DateTimePatternCfg {
    /// Reads the segment settings from the element's children; anything
    /// absent keeps its default.
    pub fn from(el: &XmlElement) -> (r: Result<DateTimePatternCfg, CfgError>) {
        let mut parts: Vec<SegPart> = Vec::new();
        let mut separator = DateTimePattern::def_separator();
        let mut def_val = DateTimePattern::def_default();
        let mut fallback = DateTimePattern::def_fs_timestamp_fallback();
        let mut i: usize = 0;
        while i < el.children.len()
            decreases el.children@.len() - i,
        {
            let child = &el.children[i];
            if str_eq(child.name.as_str(), "parts") {
                match SegPart::from_multi(child) {
                    Result::Ok(p) => {
                        parts = p;
                    },
                    Result::Err(e) => {
                        return Result::Err(e);
                    },
                }
            } else if str_eq(child.name.as_str(), "separator") {
                match parse_single_char(child) {
                    Result::Ok(Option::Some(c)) => {
                        separator = c;
                    },
                    Result::Ok(Option::None) => {},
                    Result::Err(e) => {
                        return Result::Err(e);
                    },
                }
            } else if str_eq(child.name.as_str(), "defaultValue") {
                match parse_string(child) {
                    Option::Some(s) => {
                        def_val = s;
                    },
                    Option::None => {},
                }
            } else if str_eq(child.name.as_str(), "fallbackFsTimestamp") {
                match parse_boolean(child) {
                    Result::Ok(Option::Some(b)) => {
                        fallback = b;
                    },
                    Result::Ok(Option::None) => {},
                    Result::Err(e) => {
                        return Result::Err(e);
                    },
                }
            }
            i += 1;
        }
        Result::Ok(
            DateTimePatternCfg {
                parts,
                separator,
                default_value: def_val,
                fallback_fs_timestamp: fallback,
            },
        )
    }

    /// Builds the configured segment provider; every part value must name a
    /// datetime part.
    pub fn generate(&self) -> (r: Result<PatternElement, CfgError>)
        ensures
            r matches Ok(e) ==> e is DateTime,
    {
        let mut builder = DateTimePattern::new().separator(self.separator).default(
            self.default_value.clone(),
        ).fs_timestamp_fallback(self.fallback_fs_timestamp);
        let mut i: usize = 0;
        while i < self.parts.len()
            decreases self.parts@.len() - i,
        {
            match DateTimePart::parse(self.parts[i].value.as_str()) {
                Option::Some(p) => {
                    builder.push_part(p);
                },
                Option::None => {
                    return Result::Err(CfgError::val_err("Illegal value for DateTimePart"));
                },
            }
            i += 1;
        }
        Result::Ok(builder.build())
    }
}

/// Configuration of a coarse file-type segment.
pub struct SimpleFileTypePatternCfg {
    pub default_video: String,
    pub default_picture: String,
    pub default_audio: String,
    pub default_text: String,
    pub default_document: String,
    pub default_other: String,
}

impl SimpleFileTypePatternCfg {
    /// Reads the per-class segment names; anything absent keeps its default.
    pub fn from(el: &XmlElement) -> (r: Result<SimpleFileTypePatternCfg, CfgError>) {
        let mut video = SimpleFileTypePattern::def_video();
        let mut pic = SimpleFileTypePattern::def_picture();
        let mut audio = SimpleFileTypePattern::def_audio();
        let mut text = SimpleFileTypePattern::def_text();
        let mut doc = SimpleFileTypePattern::def_document();
        let mut other = SimpleFileTypePattern::def_other();
        let mut i: usize = 0;
        while i < el.children.len()
            decreases el.children@.len() - i,
        {
            let child = &el.children[i];
            if str_eq(child.name.as_str(), "defaultVideo") {
                match parse_string(child) {
                    Option::Some(s) => {
                        video = s;
                    },
                    Option::None => {},
                }
            } else if str_eq(child.name.as_str(), "defaultPicture") {
                match parse_string(child) {
                    Option::Some(s) => {
                        pic = s;
                    },
                    Option::None => {},
                }
            } else if str_eq(child.name.as_str(), "defaultAudio") {
                match parse_string(child) {
                    Option::Some(s) => {
                        audio = s;
                    },
                    Option::None => {},
                }
            } else if str_eq(child.name.as_str(), "defaultText") {
                match parse_string(child) {
                    Option::Some(s) => {
                        text = s;
                    },
                    Option::None => {},
                }
            } else if str_eq(child.name.as_str(), "defaultDocument") {
                match parse_string(child) {
                    Option::Some(s) => {
                        doc = s;
                    },
                    Option::None => {},
                }
            } else if str_eq(child.name.as_str(), "defaultOther") {
                match parse_string(child) {
                    Option::Some(s) => {
                        other = s;
                    },
                    Option::None => {},
                }
            }
            i += 1;
        }
        Result::Ok(
            SimpleFileTypePatternCfg {
                default_video: video,
                default_picture: pic,
                default_audio: audio,
                default_text: text,
                default_document: doc,
                default_other: other,
            },
        )
    }

    /// Builds the configured segment provider.
    pub fn generate(&self) -> (r: Result<PatternElement, CfgError>)
        ensures
            r matches Ok(e) ==> e matches PatternElement::SimpleFileType(p) && p.video@
                == self.default_video@ && p.picture@ == self.default_picture@ && p.audio@
                == self.default_audio@ && p.text@ == self.default_text@ && p.document@
                == self.default_document@ && p.other@ == self.default_other@,
    {
        Result::Ok(
            SimpleFileTypePattern::new().video(self.default_video.clone()).picture(
                self.default_picture.clone(),
            ).audio(self.default_audio.clone()).text(self.default_text.clone()).document(
                self.default_document.clone(),
            ).other(self.default_other.clone()).build(),
        )
    }
}

} // verus!
