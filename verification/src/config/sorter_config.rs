use vstd::prelude::*;
use crate::config::seg_config::{
    DateTimePatternCfg, MakeModelPatternCfg, ScreenshotPatternCfg, SimpleFileTypePatternCfg,
};
use crate::config::{CfgError, XmlElement};
use crate::pattern::PatternElement;
use crate::sorting::{Comparison, DuplicateResolution, Sorter, SorterBuilder};
use crate::text::str_eq;

verus! {

/// The configuration of one segment, as a closed set of segment kinds.
pub enum SegmentType {
    Unset,
    MakeModelPattern(MakeModelPatternCfg),
    ScreenshotPattern(ScreenshotPatternCfg),
    DateTimePattern(DateTimePatternCfg),
    SimpleFileTypePattern(SimpleFileTypePatternCfg),
}

impl SegmentType {
    /// Builds the configured segment provider.
    pub fn generate(&self) -> (r: Result<PatternElement, CfgError>) {
        match self {
            SegmentType::Unset => Result::Err(
                CfgError::unsupported_segment("unsupported segment type"),
            ),
            SegmentType::MakeModelPattern(c) => c.generate(),
            SegmentType::ScreenshotPattern(c) => c.generate(),
            SegmentType::DateTimePattern(c) => c.generate(),
            SegmentType::SimpleFileTypePattern(c) => c.generate(),
        }
    }
}

/// One segment entry of the configuration: its kind name, its position, and
/// its settings.
pub struct SegmentCfg {
    pub seg_type: String,
    pub index: i32,
    pub cfg: SegmentType,
}

impl SegmentCfg {
    /// Reads one segment entry: the `type` attribute picks the kind, the
    /// `index` attribute its position.
    pub fn from(el: &XmlElement) -> (r: Result<SegmentCfg, CfgError>)
        ensures
            crate::config::attr_of(el.attrs@, "type"@) is None ==> r is Err,
            crate::config::attr_of(el.attrs@, "index"@) is None ==> r is Err,
            r matches Ok(c) ==> (crate::config::attr_of(el.attrs@, "type"@) matches Some(t)
                && c.seg_type@ == t && (t == "MakeModelPattern"@ ==> c.cfg is MakeModelPattern) && (
            t == "ScreenshotPattern"@ ==> c.cfg is ScreenshotPattern) && (t == "DateTimePattern"@
                ==> c.cfg is DateTimePattern) && (t == "SimpleFileTypePattern"@ ==> c.cfg
                is SimpleFileTypePattern)),
            r matches Ok(c) ==> (crate::config::attr_of(el.attrs@, "index"@) matches Some(istr)
                && crate::text::parsed_index(istr) == Some(c.index)),
    {
        proof {
            reveal_strlit("MakeModelPattern");
            reveal_strlit("ScreenshotPattern");
            reveal_strlit("DateTimePattern");
            reveal_strlit("SimpleFileTypePattern");
            assert("MakeModelPattern"@.len() == 16);
            assert("ScreenshotPattern"@.len() == 17);
            assert("DateTimePattern"@.len() == 15);
            assert("SimpleFileTypePattern"@.len() == 21);
            assert("DateTimePattern"@[0] == 'D' && "MakeModelPattern"@[0] == 'M');
        }
        let cfg: SegmentType = match el.attr("type") {
            Option::Some(tp) => {
                if str_eq(tp.as_str(), "MakeModelPattern") {
                    match MakeModelPatternCfg::from(el) {
                        Result::Ok(c) => SegmentType::MakeModelPattern(c),
                        Result::Err(e) => {
                            return Result::Err(e);
                        },
                    }
                } else if str_eq(tp.as_str(), "ScreenshotPattern") {
                    match ScreenshotPatternCfg::from(el) {
                        Result::Ok(c) => SegmentType::ScreenshotPattern(c),
                        Result::Err(e) => {
                            return Result::Err(e);
                        },
                    }
                } else if str_eq(tp.as_str(), "DateTimePattern") {
                    match DateTimePatternCfg::from(el) {
                        Result::Ok(c) => SegmentType::DateTimePattern(c),
                        Result::Err(e) => {
                            return Result::Err(e);
                        },
                    }
                } else if str_eq(tp.as_str(), "SimpleFileTypePattern") {
                    match SimpleFileTypePatternCfg::from(el) {
                        Result::Ok(c) => SegmentType::SimpleFileTypePattern(c),
                        Result::Err(e) => {
                            return Result::Err(e);
                        },
                    }
                } else {
                    return Result::Err(
                        CfgError::unsupported_segment("unsupported segment type"),
                    );
                }
            },
            Option::None => {
                return Result::Err(CfgError::val_err("missing mandatory attribute \"type\""));
            },
        };
        let index: i32 = match el.attr("index") {
            Option::Some(i_str) => match crate::text::parse_index(i_str.as_str()) {
                Option::Some(ind) => ind,
                Option::None => {
                    return Result::Err(
                        CfgError::val_err("Could not read index attribute of segment"),
                    );
                },
            },
            Option::None => {
                return Result::Err(CfgError::val_err("missing mandatory attribute \"index\""));
            },
        };
        let seg_type = match el.attr("type") {
            Option::Some(tp) => tp.clone(),
            Option::None => String::new(),
        };
        Result::Ok(SegmentCfg { seg_type, index, cfg })
    }

    /// Reads every `segment` child and slots each by its index: negative
    /// indexes go to the front, indexes inside the list insert there, the
    /// rest append. A segment of an unsupported kind is skipped, any other
    /// failure aborts.
    pub fn from_multiple(el: &XmlElement) -> (r: Result<Vec<SegmentCfg>, CfgError>) {
        let mut segments: Vec<SegmentCfg> = Vec::new();
        let mut i: usize = 0;
        while i < el.children.len()
            decreases el.children@.len() - i,
        {
            if str_eq(el.children[i].name.as_str(), "segment") {
                let seg = match Self::from(&el.children[i]) {
                    Result::Ok(s) => Option::Some(s),
                    Result::Err(e) => match e {
                        CfgError::UnsupportedSegment(_) => Option::None,
                        _ => {
                            return Result::Err(e);
                        },
                    },
                };
                match seg {
                    Option::Some(s) => {
                        if s.index < 0 {
                            segments.insert(0, s);
                        } else if s.index < segments.len() as i32 {
                            let at = s.index as usize;
                            segments.insert(at, s);
                        } else {
                            segments.push(s);
                        }
                    },
                    Option::None => {},
                }
            }
            i += 1;
        }
        Result::Ok(segments)
    }
}

/// The whole sorter configuration: the two segment lists and the duplicate
/// policy.
pub struct SorterCfg {
    pub supported: Vec<SegmentCfg>,
    pub fallback: Vec<SegmentCfg>,
    pub dup_handling: DuplicateResolution,
}

impl SorterCfg {
    /// Reads the sorter configuration from its element's children; anything
    /// absent keeps its default, and the duplicate policy defaults to
    /// ignoring existing targets.
    pub fn from(el: &XmlElement) -> (r: Result<SorterCfg, CfgError>) {
        let mut fallback: Vec<SegmentCfg> = Vec::new();
        let mut supported: Vec<SegmentCfg> = Vec::new();
        let mut dup_handling = SorterBuilder::default_duplicate_handling();
        let mut i: usize = 0;
        while i < el.children.len()
            decreases el.children@.len() - i,
        {
            let child = &el.children[i];
            if str_eq(child.name.as_str(), "supported") {
                match Self::segments_of(child) {
                    Result::Ok(Option::Some(segs)) => {
                        supported = segs;
                    },
                    Result::Ok(Option::None) => {},
                    Result::Err(e) => {
                        return Result::Err(e);
                    },
                }
            } else if str_eq(child.name.as_str(), "fallback") {
                match Self::segments_of(child) {
                    Result::Ok(Option::Some(segs)) => {
                        fallback = segs;
                    },
                    Result::Ok(Option::None) => {},
                    Result::Err(e) => {
                        return Result::Err(e);
                    },
                }
            } else if str_eq(child.name.as_str(), "duplicateResolution") {
                match Self::parse_duplicate_resolution(child) {
                    Result::Ok(d) => {
                        dup_handling = d;
                    },
                    Result::Err(e) => {
                        return Result::Err(e);
                    },
                }
            }
            i += 1;
        }
        Result::Ok(SorterCfg { supported, fallback, dup_handling })
    }

    /// The segment list under a `segments` child, when there is one.
    fn segments_of(el: &XmlElement) -> (r: Result<Option<Vec<SegmentCfg>>, CfgError>) {
        let mut i: usize = 0;
        while i < el.children.len()
            decreases el.children@.len() - i,
        {
            if str_eq(el.children[i].name.as_str(), "segments") {
                match SegmentCfg::from_multiple(&el.children[i]) {
                    Result::Ok(segs) => {
                        return Result::Ok(Option::Some(segs));
                    },
                    Result::Err(e) => {
                        return Result::Err(e);
                    },
                }
            }
            i += 1;
        }
        Result::Ok(Option::None)
    }

    /// Reads the duplicate policy: the `strategy` attribute picks the rule,
    /// and under `compare` the element text picks the tie-break.
    pub fn parse_duplicate_resolution(el: &XmlElement) -> (r: Result<DuplicateResolution, CfgError>)
        ensures
            r matches Ok(d) ==> (crate::config::attr_of(el.attrs@, "strategy"@)
                matches Some(s) && (s == "ignore"@ ==> d is Ignore) && (s == "overwrite"@ ==> d
                is Overwrite) && (s == "compare"@ ==> (d
                matches DuplicateResolution::Compare(c) && (el.text@ == "rename"@ ==> c is Rename)
                && (el.text@ == "favor_target"@ ==> c is FavorTarget) && (el.text@
                == "favor_source"@ ==> c is FavorSource)))),
            crate::config::attr_of(el.attrs@, "strategy"@) is None ==> r is Err,
    {
        proof {
            reveal_strlit("ignore");
            reveal_strlit("overwrite");
            reveal_strlit("compare");
            reveal_strlit("rename");
            reveal_strlit("favor_target");
            reveal_strlit("favor_source");
            assert("ignore"@.len() == 6);
            assert("overwrite"@.len() == 9);
            assert("compare"@.len() == 7);
            assert("rename"@.len() == 6);
            assert("favor_target"@.len() == 12);
            assert("favor_source"@.len() == 12);
            assert("rename"@[0] == 'r' && "favor_target"@[0] == 'f');
            assert("favor_target"@[6] == 't' && "favor_source"@[6] == 's');
            assert("ignore"@[0] == 'i' && "rename"@[0] == 'r');
        }
        match el.attr("strategy") {
            Option::Some(s) => {
                if str_eq(s.as_str(), "ignore") {
                    Result::Ok(DuplicateResolution::Ignore)
                } else if str_eq(s.as_str(), "overwrite") {
                    Result::Ok(DuplicateResolution::Overwrite)
                } else if str_eq(s.as_str(), "compare") {
                    let text = el.text();
                    if str_eq(text, "rename") {
                        Result::Ok(DuplicateResolution::Compare(Comparison::Rename))
                    } else if str_eq(text, "favor_target") {
                        Result::Ok(DuplicateResolution::Compare(Comparison::FavorTarget))
                    } else if str_eq(text, "favor_source") {
                        Result::Ok(DuplicateResolution::Compare(Comparison::FavorSource))
                    } else {
                        Result::Err(
                            CfgError::val_err(
                                "Illegal value for duplicateResolution strategy=\"compare\"",
                            ),
                        )
                    }
                } else {
                    Result::Err(CfgError::val_err("Illegal value for duplicateResolution strategy"))
                }
            },
            Option::None => Result::Err(
                CfgError::val_err("missing attribute \"strategy\" on duplicateResolution"),
            ),
        }
    }

    /// A sorter builder configured as this says: the policy set, and one
    /// generated segment per configured entry, in order.
    pub fn generate_builder(&self) -> (r: Result<SorterBuilder, CfgError>)
        ensures
            r matches Ok(b) ==> b.dup_handling == self.dup_handling && b.segments@.len()
                == self.supported@.len() && b.fallback_segments@.len() == self.fallback@.len(),
    {
        let mut builder = Sorter::builder().duplicate_handling(self.dup_handling);
        let mut i: usize = 0;
        while i < self.supported.len()
            invariant
                i <= self.supported@.len(),
                builder.segments@.len() == i,
                builder.fallback_segments@.len() == 0,
                builder.dup_handling == self.dup_handling,
            decreases self.supported@.len() - i,
        {
            match self.supported[i].cfg.generate() {
                Result::Ok(p) => builder.push_segment_supported(p),
                Result::Err(e) => {
                    return Result::Err(e);
                },
            }
            i += 1;
        }
        let mut k: usize = 0;
        while k < self.fallback.len()
            invariant
                k <= self.fallback@.len(),
                builder.segments@.len() == self.supported@.len(),
                builder.fallback_segments@.len() == k,
                builder.dup_handling == self.dup_handling,
            decreases self.fallback@.len() - k,
        {
            match self.fallback[k].cfg.generate() {
                Result::Ok(p) => builder.push_segment_fallback(p),
                Result::Err(e) => {
                    return Result::Err(e);
                },
            }
            k += 1;
        }
        Result::Ok(builder)
    }
}

} // verus!
