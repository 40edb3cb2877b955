use vstd::prelude::*;
use crate::media::{ImgInfo, ImgMeta};
use crate::pattern::PatternElement;
use crate::text::{
    lowercase_of, push_char, replaced, str_eq, to_lower_ascii, to_lowercase, to_uppercase,
    uppercase_of, replace_char, bool_str,
};

verus! {

/// The two device identity parts a segment may be built from.
#[derive(Debug, Clone, Copy, PartialEq, Eq, Structural)]
pub enum DevicePart {
    Make,
    Model,
}

/// The device part named by a keyword, ignoring its case.
pub open spec fn device_part_of(s: Seq<char>) -> Option<DevicePart> {
    let l = crate::text::lower_ascii(s);
    if l == "make"@ {
        Option::Some(DevicePart::Make)
    } else if l == "model"@ {
        Option::Some(DevicePart::Model)
    } else {
        Option::None
    }
}

impl DevicePart {
    /// Reads a device part keyword, ignoring its case.
    pub fn parse(s: &str) -> (r: Option<DevicePart>)
        ensures
            r == device_part_of(s@),
    {
        let lower = to_lower_ascii(s);
        if str_eq(lower.as_str(), "make") {
            Option::Some(DevicePart::Make)
        } else if str_eq(lower.as_str(), "model") {
            Option::Some(DevicePart::Model)
        } else {
            Option::None
        }
    }
}

/// How the make and model strings are case-normalised before use.
#[derive(Debug, Clone, Copy, PartialEq, Eq, Structural)]
pub enum CaseNormalization {
    Lowercase,
    Uppercase,
    Unchanged,
}

/// A segment built from the device make and model read from metadata.
pub struct MakeModelPattern {
    pub pattern: Vec<DevicePart>,
    pub separator: char,
    pub case: CaseNormalization,
    pub replace_spaces: bool,
    pub fallback: String,
    pub default_make: String,
    pub default_model: String,
}

/// Case normalisation applied to one string.
pub open spec fn normalized_case(case: CaseNormalization, s: Seq<char>) -> Seq<char> {
    match case {
        CaseNormalization::Lowercase => lowercase_of(s),
        CaseNormalization::Uppercase => uppercase_of(s),
        CaseNormalization::Unchanged => s,
    }
}

/// The string a device part stands for.
pub open spec fn part_value(p: DevicePart, make: Seq<char>, model: Seq<char>) -> Seq<char> {
    match p {
        DevicePart::Make => make,
        DevicePart::Model => model,
    }
}

/// The part values joined by the separator.
pub open spec fn parts_joined(
    ps: Seq<DevicePart>,
    sep: char,
    make: Seq<char>,
    model: Seq<char>,
) -> Seq<char>
    decreases ps.len(),
{
    if ps.len() == 0 {
        Seq::empty()
    } else if ps.len() == 1 {
        part_value(ps[0], make, model)
    } else {
        parts_joined(ps.drop_last(), sep, make, model) + seq![sep] + part_value(
            ps.last(),
            make,
            model,
        )
    }
}

impl MakeModelPattern {
    /// The make string the pattern works with, before space replacement.
    pub open spec fn normalized_make(self, meta: ImgMeta) -> Seq<char> {
        normalized_case(
            self.case,
            if meta.make@.len() == 0 {
                self.default_make@
            } else {
                meta.make@
            },
        )
    }

    /// The model string the pattern works with, before space replacement.
    pub open spec fn normalized_model(self, meta: ImgMeta) -> Seq<char> {
        normalized_case(
            self.case,
            if meta.model@.len() == 0 {
                self.default_model@
            } else {
                meta.model@
            },
        )
    }

    /// The make actually used: spaces replaced by dashes, or the plain
    /// default when space replacement is off.
    pub open spec fn used_make(self, meta: ImgMeta) -> Seq<char> {
        if self.replace_spaces {
            replaced(self.normalized_make(meta), ' ', '-')
        } else {
            self.default_make@
        }
    }

    pub open spec fn used_model(self, meta: ImgMeta) -> Seq<char> {
        if self.replace_spaces {
            replaced(self.normalized_model(meta), ' ', '-')
        } else {
            self.default_model@
        }
    }

    /// The segment this pattern produces for a file: the fallback string when
    /// only defaults were available and a fallback is set, otherwise the
    /// configured parts joined by the separator.
    pub open spec fn translated(self, meta: ImgMeta) -> Seq<char> {
        let make = self.used_make(meta);
        let model = self.used_model(meta);
        if make == self.default_make@ && model == self.default_model@ && self.fallback@.len()
            != 0 {
            self.fallback@
        } else {
            parts_joined(self.pattern@, self.separator, make, model)
        }
    }

    pub fn def_replace_spaces() -> (r: bool)
        ensures
            r == true,
    {
        true
    }

    pub fn def_separator() -> (r: char)
        ensures
            r == '_',
    {
        '_'
    }

    pub fn def_case() -> (r: CaseNormalization)
        ensures
            r == CaseNormalization::Lowercase,
    {
        CaseNormalization::Lowercase
    }

    pub fn def_default_make() -> (r: String)
        ensures
            r@ == "unknown"@,
    {
        "unknown".to_owned()
    }

    pub fn def_default_model() -> (r: String)
        ensures
            r@ == "unknown"@,
    {
        "unknown".to_owned()
    }

    /// A builder primed with the defaults.
    pub fn new() -> (r: MakeModelPatternBuilder)
        ensures
            r.pattern@.len() == 0,
            r.separator == '_',
            r.case == CaseNormalization::Lowercase,
            r.replace_spaces == true,
            r.fallback@.len() == 0,
            r.default_make@ == "unknown"@,
            r.default_model@ == "unknown"@,
    {
        MakeModelPatternBuilder {
            pattern: Vec::new(),
            separator: Self::def_separator(),
            case: Self::def_case(),
            replace_spaces: Self::def_replace_spaces(),
            fallback: String::new(),
            default_make: Self::def_default_make(),
            default_model: Self::def_default_model(),
        }
    }

    fn normalize_case(&self, s: String) -> (r: String)
        ensures
            r@ == normalized_case(self.case, s@),
    {
        match self.case {
            CaseNormalization::Lowercase => to_lowercase(s.as_str()),
            CaseNormalization::Uppercase => to_uppercase(s.as_str()),
            CaseNormalization::Unchanged => s,
        }
    }

    pub fn pattern(&self) -> (r: &[DevicePart])
        ensures
            r@ == self.pattern@,
    {
        self.pattern.as_slice()
    }

    pub fn separator(&self) -> (r: char)
        ensures
            r == self.separator,
    {
        self.separator
    }

    pub fn case_normalization(&self) -> (r: &CaseNormalization)
        ensures
            *r == self.case,
    {
        &self.case
    }

    pub fn replace_spaces(&self) -> (r: bool)
        ensures
            r == self.replace_spaces,
    {
        self.replace_spaces
    }

    pub fn fallback_value(&self) -> (r: &str)
        ensures
            r@ == self.fallback@,
    {
        self.fallback.as_str()
    }

    pub fn default_make(&self) -> (r: &str)
        ensures
            r@ == self.default_make@,
    {
        self.default_make.as_str()
    }

    pub fn default_model(&self) -> (r: &str)
        ensures
            r@ == self.default_model@,
    {
        self.default_model.as_str()
    }

    pub fn is_optional(&self) -> (r: bool)
        ensures
            r == false,
    {
        false
    }

    /// Produces the device segment for a file; a segment is always produced.
    pub fn translate(&self, info: &ImgInfo) -> (r: Option<String>)
        ensures
            r matches Some(s) && s@ == self.translated(info.meta),
    {
        let meta = info.metadata();
        let make0 = if meta.make().is_empty() {
            self.default_make.clone()
        } else {
            meta.make().to_owned()
        };
        let model0 = if meta.model().is_empty() {
            self.default_model.clone()
        } else {
            meta.model().to_owned()
        };
        let mut make = self.normalize_case(make0);
        let mut model = self.normalize_case(model0);
        if self.replace_spaces {
            make = replace_char(make.as_str(), ' ', '-');
            model = replace_char(model.as_str(), ' ', '-');
        } else {
            make = self.default_make.clone();
            model = self.default_model.clone();
        }

        if str_eq(make.as_str(), self.default_make.as_str()) && str_eq(
            model.as_str(),
            self.default_model.as_str(),
        ) && !self.fallback.as_str().is_empty() {
            return Option::Some(self.fallback.clone());
        }
        let mut result = String::new();
        let mut i: usize = 0;
        while i < self.pattern.len()
            invariant
                i <= self.pattern@.len(),
                result@ == parts_joined(
                    self.pattern@.subrange(0, i as int),
                    self.separator,
                    make@,
                    model@,
                ),
        decreases self.pattern@.len() - i,
        {
            if i > 0 {
                push_char(&mut result, self.separator);
            }
            match self.pattern[i] {
                DevicePart::Model => result.append(model.as_str()),
                DevicePart::Make => result.append(make.as_str()),
            }
            proof {
                let sub1 = self.pattern@.subrange(0, i + 1);
                assert(sub1.drop_last() =~= self.pattern@.subrange(0, i as int));
                if i == 0 {
                    assert(result@ =~= parts_joined(sub1, self.separator, make@, model@));
                } else {
                    assert(result@ =~= parts_joined(sub1, self.separator, make@, model@));
                }
            }
            i += 1;
        }
        proof {
            assert(self.pattern@.subrange(0, self.pattern@.len() as int) =~= self.pattern@);
        }
        Option::Some(result)
    }

    /// A description of the configuration, for diagnostics.
    pub fn display(&self) -> String {
        let mut pattern = String::new();
        let mut i: usize = 0;
        while i < self.pattern.len()
            decreases self.pattern@.len() - i,
        {
            if i > 0 {
                push_char(&mut pattern, self.separator);
            }
            match self.pattern[i] {
                DevicePart::Make => pattern.append("[MAKE]"),
                DevicePart::Model => pattern.append("[MODEL]"),
            }
            i += 1;
        }
        let case = match self.case {
            CaseNormalization::Lowercase => "lower",
            CaseNormalization::Uppercase => "upper",
            CaseNormalization::Unchanged => "",
        };
        let mut out = String::new();
        out.append("replace_spaces=\"");
        out.append(bool_str(self.replace_spaces));
        out.append("\" case_norm=\"");
        out.append(case);
        out.append("\" pattern=\"");
        out.append(pattern.as_str());
        out.append("\" fallback=\"");
        out.append(self.fallback.as_str());
        out.append("\" def_make=\"");
        out.append(self.default_make.as_str());
        out.append(" def_model=\"");
        out.append(self.default_model.as_str());
        out.append("\"");
        out
    }

    pub fn name(&self) -> (r: &str)
        ensures
            r@ == "MakeModelPattern"@,
    {
        "MakeModelPattern"
    }

    /// A copy of this pattern with the same configuration.
    pub fn clone_config(&self) -> (r: MakeModelPattern)
        ensures
            r.pattern@ == self.pattern@,
            r.separator == self.separator,
            r.case == self.case,
            r.replace_spaces == self.replace_spaces,
            r.fallback@ == self.fallback@,
            r.default_make@ == self.default_make@,
            r.default_model@ == self.default_model@,
    {
        let mut pattern: Vec<DevicePart> = Vec::new();
        let mut i: usize = 0;
        while i < self.pattern.len()
            invariant
                i <= self.pattern@.len(),
                pattern@ == self.pattern@.subrange(0, i as int),
            decreases self.pattern@.len() - i,
        {
            pattern.push(self.pattern[i]);
            proof {
                assert(pattern@ =~= self.pattern@.subrange(0, i + 1));
            }
            i += 1;
        }
        proof {
            assert(self.pattern@.subrange(0, self.pattern@.len() as int) =~= self.pattern@);
        }
        MakeModelPattern {
            pattern,
            separator: self.separator,
            case: self.case,
            replace_spaces: self.replace_spaces,
            fallback: self.fallback.clone(),
            default_make: self.default_make.clone(),
            default_model: self.default_model.clone(),
        }
    }
}

/// Builder for `MakeModelPattern`.
pub struct MakeModelPatternBuilder {
    pub pattern: Vec<DevicePart>,
    pub separator: char,
    pub case: CaseNormalization,
    pub replace_spaces: bool,
    pub fallback: String,
    pub default_make: String,
    pub default_model: String,
}

impl MakeModelPatternBuilder {
    pub fn part(self, s: DevicePart) -> (r: MakeModelPatternBuilder)
        ensures
            r.pattern@ == self.pattern@.push(s),
            r.separator == self.separator,
            r.case == self.case,
            r.replace_spaces == self.replace_spaces,
            r.fallback@ == self.fallback@,
            r.default_make@ == self.default_make@,
            r.default_model@ == self.default_model@,
    {
        let mut b = self;
        b.pattern.push(s);
        b
    }

    pub fn case_normalization(self, c: CaseNormalization) -> (r: MakeModelPatternBuilder)
        ensures
            r.pattern@ == self.pattern@,
            r.separator == self.separator,
            r.case == c,
            r.replace_spaces == self.replace_spaces,
            r.fallback@ == self.fallback@,
            r.default_make@ == self.default_make@,
            r.default_model@ == self.default_model@,
    {
        let mut b = self;
        b.case = c;
        b
    }

    pub fn replace_spaces(self, v: bool) -> (r: MakeModelPatternBuilder)
        ensures
            r.pattern@ == self.pattern@,
            r.separator == self.separator,
            r.case == self.case,
            r.replace_spaces == v,
            r.fallback@ == self.fallback@,
            r.default_make@ == self.default_make@,
            r.default_model@ == self.default_model@,
    {
        let mut b = self;
        b.replace_spaces = v;
        b
    }

    pub fn default_make(self, name: String) -> (r: MakeModelPatternBuilder)
        ensures
            r.pattern@ == self.pattern@,
            r.separator == self.separator,
            r.case == self.case,
            r.replace_spaces == self.replace_spaces,
            r.fallback@ == self.fallback@,
            r.default_make@ == name@,
            r.default_model@ == self.default_model@,
    {
        let mut b = self;
        b.default_make = name;
        b
    }

    pub fn default_model(self, name: String) -> (r: MakeModelPatternBuilder)
        ensures
            r.pattern@ == self.pattern@,
            r.separator == self.separator,
            r.case == self.case,
            r.replace_spaces == self.replace_spaces,
            r.fallback@ == self.fallback@,
            r.default_make@ == self.default_make@,
            r.default_model@ == name@,
    {
        let mut b = self;
        b.default_model = name;
        b
    }

    pub fn separator(self, separator: char) -> (r: MakeModelPatternBuilder)
        ensures
            r.pattern@ == self.pattern@,
            r.separator == separator,
            r.case == self.case,
            r.replace_spaces == self.replace_spaces,
            r.fallback@ == self.fallback@,
            r.default_make@ == self.default_make@,
            r.default_model@ == self.default_model@,
    {
        let mut b = self;
        b.separator = separator;
        b
    }

    pub fn fallback(self, fallback: String) -> (r: MakeModelPatternBuilder)
        ensures
            r.pattern@ == self.pattern@,
            r.separator == self.separator,
            r.case == self.case,
            r.replace_spaces == self.replace_spaces,
            r.fallback@ == fallback@,
            r.default_make@ == self.default_make@,
            r.default_model@ == self.default_model@,
    {
        let mut b = self;
        b.fallback = fallback;
        b
    }

    pub fn push_part(&mut self, part: DevicePart)
        ensures
            final(self).pattern@ == old(self).pattern@.push(part),
            final(self).separator == old(self).separator,
            final(self).case == old(self).case,
            final(self).replace_spaces == old(self).replace_spaces,
            final(self).fallback@ == old(self).fallback@,
            final(self).default_make@ == old(self).default_make@,
            final(self).default_model@ == old(self).default_model@,
    {
        self.pattern.push(part);
    }

    /// Finishes the pattern as a segment provider.
    pub fn build(self) -> (r: PatternElement)
        ensures
            r matches PatternElement::MakeModel(p) && p.pattern@ == (if self.pattern@.len() == 0 {
                seq![DevicePart::Make, DevicePart::Model]
            } else {
                self.pattern@
            }) && p.separator == self.separator && p.case == self.case && p.replace_spaces
                == self.replace_spaces && p.fallback@ == self.fallback@ && p.default_make@
                == self.default_make@ && p.default_model@ == self.default_model@,
    {
        PatternElement::MakeModel(self.build_unboxed())
    }

    /// Finishes the pattern itself; an empty part list falls back to
    /// make-then-model.
    pub fn build_unboxed(self) -> (r: MakeModelPattern)
        ensures
            r.pattern@ == (if self.pattern@.len() == 0 {
                seq![DevicePart::Make, DevicePart::Model]
            } else {
                self.pattern@
            }),
            r.separator == self.separator,
            r.case == self.case,
            r.replace_spaces == self.replace_spaces,
            r.fallback@ == self.fallback@,
            r.default_make@ == self.default_make@,
            r.default_model@ == self.default_model@,
    {
        let mut b = self;
        if b.pattern.len() < 1 {
            b.pattern.push(DevicePart::Make);
            b.pattern.push(DevicePart::Model);
            proof {
                assert(b.pattern@ =~= seq![DevicePart::Make, DevicePart::Model]);
            }
        }
        MakeModelPattern {
            pattern: b.pattern,
            separator: b.separator,
            case: b.case,
            replace_spaces: b.replace_spaces,
            fallback: b.fallback,
            default_make: b.default_make,
            default_model: b.default_model,
        }
    }
}

} // verus!
