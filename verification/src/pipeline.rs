use vstd::prelude::*;
use crate::media::{ImgInfo, ImgMeta};
use crate::media::metadata_processor::MetaProcessor;
use crate::paths::file_name_of;
use crate::paths::{join_path, views_of};
use crate::sorting::translation::translated_components;
use crate::sorting::{
    numbered_name, precheck_kind, ActionResult, ActionProbe, CheckedOutcome, DuplicateResolution,
    ExecProbe, Operation, SortAction, Sorter,
};
use crate::text::seq_contains_str;
use crate::text::push_dec;

verus! {

/// Per-run counters of outcomes: successes, skips, and duplicate targets.
#[derive(Debug, Clone, Copy, PartialEq, Eq, Structural)]
pub struct Report {
    pub count_success: u64,
    pub count_skipped: u64,
    pub count_duplicate: u64,
}

impl Report {
    pub fn new() -> (r: Report)
        ensures
            r.count_success == 0,
            r.count_skipped == 0,
            r.count_duplicate == 0,
    {
        Report { count_success: 0, count_skipped: 0, count_duplicate: 0 }
    }

    /// Merges another report into this one, adding each counter.
    pub fn add(&mut self, other: Report)
        requires
            old(self).count_success + other.count_success <= u64::MAX,
            old(self).count_skipped + other.count_skipped <= u64::MAX,
            old(self).count_duplicate + other.count_duplicate <= u64::MAX,
        ensures
            final(self).count_success == old(self).count_success + other.count_success,
            final(self).count_skipped == old(self).count_skipped + other.count_skipped,
            final(self).count_duplicate == old(self).count_duplicate + other.count_duplicate,
    {
        self.count_duplicate = self.count_duplicate + other.count_duplicate;
        self.count_skipped = self.count_skipped + other.count_skipped;
        self.count_success = self.count_success + other.count_success;
    }

    /// The counters as display text, one line each.
    pub fn render(&self) -> String {
        let mut out = String::new();
        out.append("  success  : ");
        if self.count_success <= u32::MAX as u64 {
            push_dec(&mut out, self.count_success as u32);
        }
        out.append("\n  skipped  : ");
        if self.count_skipped <= u32::MAX as u64 {
            push_dec(&mut out, self.count_skipped as u32);
        }
        out.append("\n  duplicate: ");
        if self.count_duplicate <= u32::MAX as u64 {
            push_dec(&mut out, self.count_duplicate as u32);
        }
        out.append("\n");
        out
    }
}

/// How many of the outcomes were successful transfers.
pub open spec fn tally_success(outcomes: Seq<Result<ActionResult, String>>) -> nat
    decreases outcomes.len(),
{
    if outcomes.len() == 0 {
        0
    } else {
        tally_success(outcomes.drop_last()) + (match outcomes.last() {
            Result::Ok(ActionResult::Moved) => 1nat,
            Result::Ok(ActionResult::Copied) => 1nat,
            _ => 0nat,
        })
    }
}

/// How many of the outcomes were skips.
pub open spec fn tally_skipped(outcomes: Seq<Result<ActionResult, String>>) -> nat
    decreases outcomes.len(),
{
    if outcomes.len() == 0 {
        0
    } else {
        tally_skipped(outcomes.drop_last()) + (match outcomes.last() {
            Result::Ok(ActionResult::Skipped) => 1nat,
            _ => 0nat,
        })
    }
}

/// How many of the outcomes were per-file errors.
pub open spec fn tally_errors(outcomes: Seq<Result<ActionResult, String>>) -> nat
    decreases outcomes.len(),
{
    if outcomes.len() == 0 {
        0
    } else {
        tally_errors(outcomes.drop_last()) + (match outcomes.last() {
            Result::Err(_) => 1nat,
            _ => 0nat,
        })
    }
}

/// One outcome extends the tallies by exactly its own class: what
/// `record_outcome` adds to the counters.
pub proof fn lemma_tally_step(outcomes: Seq<Result<ActionResult, String>>, o: Result<
    ActionResult,
    String,
>)
    ensures
        tally_success(outcomes.push(o)) == tally_success(outcomes) + (match o {
            Result::Ok(ActionResult::Moved) => 1int,
            Result::Ok(ActionResult::Copied) => 1int,
            _ => 0int,
        }),
        tally_skipped(outcomes.push(o)) == tally_skipped(outcomes) + (match o {
            Result::Ok(ActionResult::Skipped) => 1int,
            _ => 0int,
        }),
        tally_errors(outcomes.push(o)) == tally_errors(outcomes) + (match o {
            Result::Err(_) => 1int,
            _ => 0int,
        }),
{
    assert(outcomes.push(o).drop_last() =~= outcomes);
}

/// Report conservation: over any run, every file's outcome is counted exactly
/// once — successes plus skips equal the number of files minus those that
/// errored, whatever the worker count that produced the outcomes.
pub proof fn lemma_report_conservation(outcomes: Seq<Result<ActionResult, String>>)
    ensures
        tally_success(outcomes) + tally_skipped(outcomes) + tally_errors(outcomes)
            == outcomes.len(),
    decreases outcomes.len(),
{
    if outcomes.len() > 0 {
        lemma_report_conservation(outcomes.drop_last());
    }
}

/// One worker: enriches a file's metadata, turns it into an action, applies
/// the policy, and counts the outcome into its private report.
pub struct Pipeline {
    pub processor: MetaProcessor,
    pub sorter: Sorter,
    pub sorting_operation: Operation,
    pub target_root: String,
    pub dup_handling: DuplicateResolution,
    pub report: Report,
}

impl Pipeline {
    pub fn new(
        processor: MetaProcessor,
        sorter: Sorter,
        sorting_operation: Operation,
        target_root: &str,
        dup_handling: DuplicateResolution,
    ) -> (r: Pipeline)
        ensures
            r.processor == processor,
            r.sorter == sorter,
            r.sorting_operation == sorting_operation,
            r.target_root@ == target_root@,
            r.dup_handling == dup_handling,
            r.report == (Report { count_success: 0, count_skipped: 0, count_duplicate: 0 }),
    {
        Pipeline {
            processor,
            sorter,
            sorting_operation,
            target_root: target_root.to_owned(),
            dup_handling,
            report: Report::new(),
        }
    }

    pub fn get_report(&self) -> (r: Report)
        ensures
            r == self.report,
    {
        self.report
    }

    /// Enriches the file's metadata from the given reads and computes its
    /// action under this worker's operation.
    pub fn prepare(&mut self, req: &mut ImgInfo, reads: &Vec<Option<ImgMeta>>) -> (r: SortAction)
        requires
            file_name_of(old(req).spec_path()).len() > 0,
        ensures
            *final(self) == *old(self),
            final(req).spec_path() == old(req).spec_path(),
            final(req).spec_file_type() == old(req).spec_file_type(),
            final(req).spec_changed_at() == old(req).spec_changed_at(),
            crate::media::meta_view(final(req).spec_meta())
                == crate::media::metadata_processor::merged_reads(old(req).spec_meta(), reads@),
            r.operation == old(self).sorting_operation,
            r.source@ == old(req).spec_path(),
            views_of(r.target_dir@) == seq![old(self).target_root@] + translated_components(
                old(self).sorter.translator.chosen_segments(final(req).spec_file_type()),
                *final(req),
            ),
            r.target_name@ == file_name_of(old(req).spec_path()),
    {
        self.processor.process(req, reads);
        match &self.sorting_operation {
            Operation::Copy => self.sorter.calc_copy(req, self.target_root.as_str()),
            Operation::Move => self.sorter.calc_move(req, self.target_root.as_str()),
            Operation::Print => self.sorter.calc_simulation(req, self.target_root.as_str()),
        }
    }

    /// Counts a duplicate target, as found by the probe, into the report.
    pub fn note_duplicate(&mut self, target_exists: bool)
        requires
            old(self).report.count_duplicate < u64::MAX,
        ensures
            final(self).report.count_duplicate == old(self).report.count_duplicate + (
            if target_exists {
                1int
            } else {
                0int
            }),
            final(self).report.count_success == old(self).report.count_success,
            final(self).report.count_skipped == old(self).report.count_skipped,
            final(self).processor == old(self).processor,
            final(self).sorter == old(self).sorter,
            final(self).sorting_operation == old(self).sorting_operation,
            final(self).target_root == old(self).target_root,
            final(self).dup_handling == old(self).dup_handling,
    {
        if target_exists {
            self.report.count_duplicate = self.report.count_duplicate + 1;
        }
    }

    /// Applies the policy pre-check to a prepared action and plans what must
    /// be done; the report is untouched until the driver reports the outcome.
    pub fn check(&mut self, action: SortAction, probe: &ActionProbe, exec_probe: &ExecProbe,
        existing: &Vec<String>) -> (r: Result<CheckedOutcome, String>)
        ensures
            final(self).report == old(self).report,
            final(self).processor == old(self).processor,
            final(self).sorting_operation == old(self).sorting_operation,
            final(self).target_root == old(self).target_root,
            final(self).dup_handling == old(self).dup_handling,
            Sorter::same_config(final(self).sorter, old(self).sorter),
            precheck_kind(old(self).sorter.comparer.hash_algo, old(self).dup_handling, *probe)
                is Error ==> r is Err,
            (precheck_kind(old(self).sorter.comparer.hash_algo, old(self).dup_handling, *probe)
                is Skip && !(action.operation is Print)) ==> (r matches Ok(o) && o is Skipped),
            (precheck_kind(old(self).sorter.comparer.hash_algo, old(self).dup_handling, *probe)
                is Skip && action.operation is Print) ==> (((r is Ok) == Sorter::exec_ok(
                action.operation,
                *exec_probe,
            )) && (r matches Ok(o) ==> (o matches CheckedOutcome::Perform(p) && p.target@
                == action.spec_target()))),
            precheck_kind(old(self).sorter.comparer.hash_algo, old(self).dup_handling, *probe)
                is Execute ==> (((r is Ok) == Sorter::exec_ok(action.operation, *exec_probe)) && (
            r matches Ok(o) ==> (o matches CheckedOutcome::Perform(p) && p.target@
                == action.spec_target() && (p.create_dir is Some) == old(
                self,
            ).sorter.plan_create_needed(action, exec_probe.parent_exists)))),
            (precheck_kind(old(self).sorter.comparer.hash_algo, old(self).dup_handling, *probe)
                is RenameTarget && seq_contains_str(existing@, action.target_name@) && !(
            forall|i: int|
                1 <= i <= 999 ==> seq_contains_str(
                    existing@,
                    #[trigger] numbered_name(action.target_name@, i),
                ))) ==> ((r is Ok) == Sorter::exec_ok(action.operation, *exec_probe)),
            precheck_kind(old(self).sorter.comparer.hash_algo, old(self).dup_handling, *probe)
                is RenameTarget ==> (r matches Ok(o) ==> o
                matches CheckedOutcome::Perform(p) && exists|i: int|
                1 <= i <= 999 && p.target@ == join_path(
                    views_of(action.target_dir@).push(
                        #[trigger] numbered_name(action.target_name@, i),
                    ),
                ) && !seq_contains_str(existing@, numbered_name(action.target_name@, i)) && (
                forall|j: int|
                    1 <= j < i ==> seq_contains_str(
                        existing@,
                        #[trigger] numbered_name(action.target_name@, j),
                    ))),
    {
        let policy = self.dup_handling;
        self.sorter.execute_checked(action, &policy, probe, exec_probe, existing)
    }

    /// Counts one file's terminal outcome: a successful move or copy as a
    /// success, a skip as skipped, an error as neither.
    pub fn record_outcome(&mut self, outcome: &Result<ActionResult, String>)
        requires
            old(self).report.count_success < u64::MAX,
            old(self).report.count_skipped < u64::MAX,
        ensures
            final(self).report.count_success == old(self).report.count_success + (
            match outcome {
                Result::Ok(ActionResult::Moved) => 1int,
                Result::Ok(ActionResult::Copied) => 1int,
                _ => 0int,
            }),
            final(self).report.count_skipped == old(self).report.count_skipped + (match outcome {
                Result::Ok(ActionResult::Skipped) => 1int,
                _ => 0int,
            }),
            final(self).report.count_duplicate == old(self).report.count_duplicate,
            final(self).processor == old(self).processor,
            final(self).sorter == old(self).sorter,
            final(self).sorting_operation == old(self).sorting_operation,
            final(self).target_root == old(self).target_root,
            final(self).dup_handling == old(self).dup_handling,
    {
        match outcome {
            Result::Ok(ActionResult::Moved) => {
                self.report.count_success = self.report.count_success + 1;
            },
            Result::Ok(ActionResult::Copied) => {
                self.report.count_success = self.report.count_success + 1;
            },
            Result::Ok(ActionResult::Skipped) => {
                self.report.count_skipped = self.report.count_skipped + 1;
            },
            Result::Err(_) => {},
        }
    }
}

/// The next worker index under round-robin fan-out.
pub fn next_worker_index(current: usize, worker_count: usize) -> (r: usize)
    requires
        worker_count > 0,
        current < worker_count,
    ensures
        r == (if current + 1 < worker_count {
            current + 1
        } else {
            0int
        }),
        r < worker_count,
{
    if current >= worker_count - 1 {
        0
    } else {
        current + 1
    }
}

} // verus!
