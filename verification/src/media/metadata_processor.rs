use vstd::prelude::*;
use crate::media::{meta_view, FileType, ImgInfo, ImgMeta, MetaType, MetaView, merged_meta};
use crate::media::kadamak_exif::KadamakExifProcessor;
use crate::media::rexiv_proc::Rexiv2Processor;

verus! {

/// One metadata extractor backend, as a closed set of kinds.
pub enum ProcessorKind {
    Rexiv2(Rexiv2Processor),
    KadamakExif(KadamakExifProcessor),
}

/// Which pairings of container and file type a backend reads.
pub open spec fn kind_supports(p: ProcessorKind, mt: MetaType, ft: FileType) -> bool {
    match p {
        ProcessorKind::Rexiv2(_) => (ft is JPEG || ft is PNG || ft is DNG || ft is ARW) && (mt
            is Exif || mt is XMP),
        ProcessorKind::KadamakExif(_) => (ft is JPEG || ft is PNG || ft is HEIC) && mt is Exif,
    }
}

impl ProcessorKind {
    pub fn supports(&self, mt: &MetaType, ft: &FileType) -> (r: bool)
        ensures
            r == kind_supports(*self, *mt, *ft),
    {
        match self {
            ProcessorKind::Rexiv2(p) => p.supports(mt, ft),
            ProcessorKind::KadamakExif(p) => p.supports(mt, ft),
        }
    }

    pub fn clone_kind(&self) -> (r: ProcessorKind)
        ensures
            r == *self,
    {
        match self {
            ProcessorKind::Rexiv2(_) => ProcessorKind::Rexiv2(Rexiv2Processor::new()),
            ProcessorKind::KadamakExif(_) => ProcessorKind::KadamakExif(KadamakExifProcessor::new()),
        }
    }
}

/// Where a backend is slotted in the priority order.
pub enum Priority {
    Highest,
    Lowest,
    Fixed(usize),
    Unranked,
}

/// The metadata the reads yield, folded left over a base record: each
/// successful read fills what is still empty.
pub open spec fn merged_reads(base: ImgMeta, reads: Seq<Option<ImgMeta>>) -> MetaView
    decreases reads.len(),
{
    if reads.len() == 0 {
        meta_view(base)
    } else {
        match reads.last() {
            Option::Some(m) => merged_meta(
                merged_reads(base, reads.drop_last()),
                meta_view(m),
            ),
            Option::None => merged_reads(base, reads.drop_last()),
        }
    }
}

/// Whether `r` is `orig` enriched with the given reads: metadata folded in,
/// everything else unchanged.
pub open spec fn processed_from(orig: ImgInfo, r: ImgInfo, reads: Seq<Option<ImgMeta>>) -> bool {
    &&& meta_view(r.meta) == merged_reads(orig.meta, reads)
    &&& r.fp == orig.fp
    &&& r.size == orig.size
    &&& r.file_type == orig.file_type
    &&& r.changed_at == orig.changed_at
}

/// The priority-ordered list of extractor backends one worker consults.
pub struct MetaProcessor {
    pub processors: Vec<ProcessorKind>,
}

/// Builder that slots backends into the priority order.
pub struct MetaProcessorBuilder {
    pub proc_p_high: Vec<ProcessorKind>,
    pub proc_p_none: Vec<ProcessorKind>,
    pub proc_p_low: Vec<ProcessorKind>,
}

impl MetaProcessorBuilder {
    /// Slots one backend: highest before unranked before lowest; a fixed
    /// rank inserts into the unranked list at that position, or at its end
    /// when the position is past it.
    pub fn processor(self, p: ProcessorKind, prio: Priority) -> (r: MetaProcessorBuilder)
        ensures
            match prio {
                Priority::Highest => r.proc_p_high@ == self.proc_p_high@.push(p)
                    && r.proc_p_none@ == self.proc_p_none@ && r.proc_p_low@ == self.proc_p_low@,
                Priority::Lowest => r.proc_p_low@ == self.proc_p_low@.push(p) && r.proc_p_high@
                    == self.proc_p_high@ && r.proc_p_none@ == self.proc_p_none@,
                Priority::Fixed(i) => r.proc_p_high@ == self.proc_p_high@ && r.proc_p_low@
                    == self.proc_p_low@ && r.proc_p_none@ == (if i > self.proc_p_none@.len() {
                    self.proc_p_none@.push(p)
                } else {
                    self.proc_p_none@.insert(i as int, p)
                }),
                Priority::Unranked => r.proc_p_none@ == self.proc_p_none@.push(p) && r.proc_p_high@
                    == self.proc_p_high@ && r.proc_p_low@ == self.proc_p_low@,
            },
    {
        let mut b = self;
        match prio {
            Priority::Highest => {
                b.proc_p_high.push(p);
            },
            Priority::Lowest => {
                b.proc_p_low.push(p);
            },
            Priority::Fixed(i) => {
                if i > b.proc_p_none.len() {
                    b.proc_p_none.push(p);
                } else {
                    b.proc_p_none.insert(i, p);
                }
            },
            Priority::Unranked => {
                b.proc_p_none.push(p);
            },
        }
        b
    }

    /// A processor with the backends in priority order: the highest-ranked
    /// first, then the unranked, then the lowest-ranked.
    pub fn build_clone(&self) -> (r: MetaProcessor)
        ensures
            r.processors@ == self.proc_p_high@ + self.proc_p_none@ + self.proc_p_low@,
    {
        let procs = self.clone_procs();
        MetaProcessor { processors: procs }
    }

    fn clone_procs(&self) -> (r: Vec<ProcessorKind>)
        ensures
            r@ == self.proc_p_high@ + self.proc_p_none@ + self.proc_p_low@,
    {
        let mut procs: Vec<ProcessorKind> = Vec::new();
        let mut i: usize = 0;
        while i < self.proc_p_high.len()
            invariant
                i <= self.proc_p_high@.len(),
                procs@ == self.proc_p_high@.subrange(0, i as int),
            decreases self.proc_p_high@.len() - i,
        {
            procs.push(self.proc_p_high[i].clone_kind());
            proof {
                assert(procs@ =~= self.proc_p_high@.subrange(0, i + 1));
            }
            i += 1;
        }
        proof {
            assert(self.proc_p_high@.subrange(0, self.proc_p_high@.len() as int)
                =~= self.proc_p_high@);
        }
        let mut j: usize = 0;
        while j < self.proc_p_none.len()
            invariant
                j <= self.proc_p_none@.len(),
                procs@ == self.proc_p_high@ + self.proc_p_none@.subrange(0, j as int),
            decreases self.proc_p_none@.len() - j,
        {
            procs.push(self.proc_p_none[j].clone_kind());
            proof {
                assert(procs@ =~= self.proc_p_high@ + self.proc_p_none@.subrange(0, j + 1));
            }
            j += 1;
        }
        proof {
            assert(self.proc_p_none@.subrange(0, self.proc_p_none@.len() as int)
                =~= self.proc_p_none@);
        }
        let mut k: usize = 0;
        while k < self.proc_p_low.len()
            invariant
                k <= self.proc_p_low@.len(),
                procs@ == self.proc_p_high@ + self.proc_p_none@ + self.proc_p_low@.subrange(
                    0,
                    k as int,
                ),
            decreases self.proc_p_low@.len() - k,
        {
            procs.push(self.proc_p_low[k].clone_kind());
            proof {
                assert(procs@ =~= self.proc_p_high@ + self.proc_p_none@
                    + self.proc_p_low@.subrange(0, k + 1));
            }
            k += 1;
        }
        proof {
            assert(self.proc_p_low@.subrange(0, self.proc_p_low@.len() as int)
                =~= self.proc_p_low@);
        }
        procs
    }
}

impl MetaProcessor {
    pub fn new() -> (r: MetaProcessorBuilder)
        ensures
            r.proc_p_high@.len() == 0,
            r.proc_p_none@.len() == 0,
            r.proc_p_low@.len() == 0,
    {
        MetaProcessorBuilder {
            proc_p_high: Vec::new(),
            proc_p_none: Vec::new(),
            proc_p_low: Vec::new(),
        }
    }

    /// The first backend that reads the given container for the given file
    /// type, in priority order; the driver performs that backend's read.
    pub fn select_processor(&self, mt: &MetaType, ft: &FileType) -> (r: Option<usize>)
        ensures
            r matches Some(i) ==> i < self.processors@.len() && kind_supports(
                self.processors@[i as int],
                *mt,
                *ft,
            ) && forall|j: int| 0 <= j < i ==> !kind_supports(self.processors@[j], *mt, *ft),
            r is None ==> forall|j: int|
                0 <= j < self.processors@.len() ==> !kind_supports(self.processors@[j], *mt, *ft),
    {
        let mut i: usize = 0;
        while i < self.processors.len()
            invariant
                i <= self.processors@.len(),
                forall|j: int| 0 <= j < i ==> !kind_supports(self.processors@[j], *mt, *ft),
            decreases self.processors@.len() - i,
        {
            if self.processors[i].supports(mt, ft) {
                return Option::Some(i);
            }
            i += 1;
        }
        Option::None
    }

    /// Enriches a whole batch: the k-th file's metadata is folded with the
    /// k-th read list, everything else is untouched and stays in order.
    pub fn process_all(&self, files: Vec<ImgInfo>, reads: &Vec<Vec<Option<ImgMeta>>>) -> (r: Vec<
        ImgInfo,
    >)
        requires
            files@.len() == reads@.len(),
        ensures
            r@.len() == files@.len(),
            forall|k: int|
                0 <= k < r@.len() ==> processed_from(files@[k], #[trigger] r@[k], reads@[k]@),
    {
        let ghost orig = files@;
        let mut files = files;
        let mut out_rev: Vec<ImgInfo> = Vec::new();
        while files.len() > 0
            invariant
                files@.len() + out_rev@.len() == orig.len(),
                reads@.len() == orig.len(),
                files@ == orig.subrange(0, files@.len() as int),
                forall|j: int|
                    0 <= j < out_rev@.len() ==> processed_from(
                        orig[orig.len() - 1 - j],
                        #[trigger] out_rev@[j],
                        reads@[orig.len() - 1 - j]@,
                    ),
            decreases files@.len(),
        {
            let k = files.len();
            match files.pop() {
                Option::Some(item) => {
                    let mut item = item;
                    proof {
                        assert(orig.subrange(0, k as int).last() == orig[k - 1]);
                        assert(files@ =~= orig.subrange(0, (k - 1) as int));
                    }
                    self.process(&mut item, &reads[k - 1]);
                    out_rev.push(item);
                },
                Option::None => {},
            }
        }
        let mut out: Vec<ImgInfo> = Vec::new();
        while out_rev.len() > 0
            invariant
                out@.len() + out_rev@.len() == orig.len(),
                reads@.len() == orig.len(),
                forall|j: int|
                    0 <= j < out_rev@.len() ==> processed_from(
                        orig[orig.len() - 1 - j],
                        #[trigger] out_rev@[j],
                        reads@[orig.len() - 1 - j]@,
                    ),
                forall|k: int|
                    0 <= k < out@.len() ==> processed_from(
                        orig[k],
                        #[trigger] out@[k],
                        reads@[k]@,
                    ),
            decreases out_rev@.len(),
        {
            match out_rev.pop() {
                Option::Some(item) => {
                    out.push(item);
                },
                Option::None => {},
            }
        }
        out
    }

    /// Folds the driver's read results into the file's metadata: each
    /// successful read fills what is still empty, in order.
    pub fn process(&self, img: &mut ImgInfo, reads: &Vec<Option<ImgMeta>>)
        ensures
            meta_view(final(img).meta) == merged_reads(old(img).meta, reads@),
            final(img).fp == old(img).fp,
            final(img).size == old(img).size,
            final(img).file_type == old(img).file_type,
            final(img).changed_at == old(img).changed_at,
    {
        let mut meta = ImgMeta {
            created_at: img.meta.created_at,
            make: img.meta.make.clone(),
            model: img.meta.model.clone(),
            user_comment: img.meta.user_comment.clone(),
            is_screenshot: img.meta.is_screenshot,
        };
        let ghost base = img.meta;
        proof {
            assert(meta_view(meta) =~~= merged_reads(base, reads@.subrange(0, 0)));
        }
        let mut i: usize = 0;
        while i < reads.len()
            invariant
                i <= reads@.len(),
                meta_view(meta) == merged_reads(base, reads@.subrange(0, i as int)),
            decreases reads@.len() - i,
        {
            match &reads[i] {
                Option::Some(m) => {
                    meta.merge_in(m);
                },
                Option::None => {},
            }
            proof {
                let sub1 = reads@.subrange(0, i + 1);
                assert(sub1.drop_last() =~= reads@.subrange(0, i as int));
                assert(meta_view(meta) =~~= merged_reads(base, sub1));
            }
            i += 1;
        }
        proof {
            assert(reads@.subrange(0, reads@.len() as int) =~= reads@);
        }
        img.set_metadata(meta);
    }
}

} // verus!
