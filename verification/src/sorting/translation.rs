use vstd::prelude::*;
use crate::media::{FileType, ImgInfo};
use crate::paths::views_of;
use crate::pattern::PatternElement;

verus! {

/// The components a segment list yields for a file, in order; a provider
/// that yields nothing contributes nothing.
pub open spec fn translated_components(segs: Seq<PatternElement>, info: ImgInfo) -> Seq<Seq<char>>
    decreases segs.len(),
{
    if segs.len() == 0 {
        Seq::empty()
    } else {
        translated_components(segs.drop_last(), info) + (match segs.last().spec_translate(info) {
            Option::Some(s) => seq![s],
            Option::None => Seq::empty(),
        })
    }
}

/// Stateless composition of two ordered segment lists: the supported one for
/// recognised file types, the fallback one for everything else.
pub struct Translator {
    pub segments_supported: Vec<PatternElement>,
    pub segments_fallback: Vec<PatternElement>,
}

impl Translator {
    pub fn new(segs_sup: Vec<PatternElement>, segs_fb: Vec<PatternElement>) -> (r: Translator)
        ensures
            r.segments_supported@ == segs_sup@,
            r.segments_fallback@ == segs_fb@,
    {
        Translator { segments_supported: segs_sup, segments_fallback: segs_fb }
    }

    /// The number of segments as (supported, fallback).
    pub fn get_seg_count(&self) -> (r: (usize, usize))
        ensures
            r.0 == self.segments_supported@.len(),
            r.1 == self.segments_fallback@.len(),
    {
        (self.segments_supported.len(), self.segments_fallback.len())
    }

    /// The list a file is routed to: an unrecognised type always takes the
    /// fallback list, a recognised one always the supported list.
    pub open spec fn chosen_segments(self, ft: FileType) -> Seq<PatternElement> {
        if ft is Other {
            self.segments_fallback@
        } else {
            self.segments_supported@
        }
    }

    /// Fallback routing: a file whose type classification is unrecognised is
    /// always routed to the fallback segment list, whatever the supported
    /// list would have produced; every recognised type takes the supported
    /// list.
    pub proof fn lemma_fallback_routing(self, ft: FileType)
        ensures
            ft is Other ==> self.chosen_segments(ft) == self.segments_fallback@,
            !(ft is Other) ==> self.chosen_segments(ft) == self.segments_supported@,
    {
    }

    /// The directory a file belongs under: the target root followed by every
    /// component the routed segment list yields.
    pub fn translate(&self, file: &ImgInfo, target_root: &str) -> (r: Vec<String>)
        ensures
            views_of(r@) == seq![target_root@] + translated_components(
                self.chosen_segments(file.spec_file_type()),
                *file,
            ),
    {
        let mut destination: Vec<String> = Vec::new();
        destination.push(target_root.to_owned());
        let segments: &Vec<PatternElement> = match file.file_type() {
            FileType::Other => &self.segments_fallback,
            _ => &self.segments_supported,
        };
        proof {
            assert(segments@ == self.chosen_segments(file.spec_file_type()));
            crate::paths::lemma_views_index(destination@, 0);
            assert(views_of(destination@) =~= seq![target_root@] + translated_components(
                segments@.subrange(0, 0),
                *file,
            ));
        }
        let mut i: usize = 0;
        while i < segments.len()
            invariant
                i <= segments@.len(),
                views_of(destination@) == seq![target_root@] + translated_components(
                    segments@.subrange(0, i as int),
                    *file,
                ),
            decreases segments@.len() - i,
        {
            let ghost pre = destination@;
            match segments[i].translate(file) {
                Option::Some(s) => {
                    destination.push(s);
                    proof {
                        crate::paths::lemma_views_push(pre, destination@.last());
                        assert(destination@ =~= pre.push(destination@.last()));
                    }
                },
                Option::None => {},
            }
            proof {
                let sub1 = segments@.subrange(0, i + 1);
                assert(sub1.drop_last() =~= segments@.subrange(0, i as int));
                assert(views_of(destination@) =~= seq![target_root@] + translated_components(
                    sub1,
                    *file,
                ));
            }
            i += 1;
        }
        proof {
            assert(segments@.subrange(0, segments@.len() as int) =~= segments@);
        }
        destination
    }
}

} // verus!
