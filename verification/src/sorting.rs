pub mod comparison;
pub mod fs_support;
pub mod translation;

use vstd::prelude::*;
use crate::media::ImgInfo;
use crate::paths::{file_name_of, join_path, views_of};
use crate::pattern::PatternElement;
use crate::sorting::comparison::{files_match, ComparisonErr, Cause, FileComparer, HashAlgorithm};
use crate::sorting::fs_support::{needs_create, dir_cache_has, DirManager};
use crate::sorting::translation::{translated_components, Translator};
use crate::text::{dec_padded, push_char, push_dec_padded, seq_contains_str, contains_str};

verus! {

/// The operation a run performs on each file.
#[derive(Debug, Clone, Copy, PartialEq, Eq, Structural)]
pub enum Operation {
    Copy,
    Move,
    Print,
}

impl Operation {
    pub fn to_str(&self) -> (r: &'static str)
        ensures
            *self is Copy ==> r@ == "copy"@,
            *self is Move ==> r@ == "move"@,
            *self is Print ==> r@ == "print"@,
    {
        match self {
            Operation::Copy => "copy",
            Operation::Move => "move",
            Operation::Print => "print",
        }
    }
}

/// The tie-break applied when compared files turn out to differ.
#[derive(Debug, Clone, Copy, PartialEq, Eq, Structural)]
pub enum Comparison {
    Rename,
    FavorTarget,
    FavorSource,
}

/// How an already existing target file is handled.
#[derive(Debug, Clone, Copy, PartialEq, Eq, Structural)]
pub enum DuplicateResolution {
    Ignore,
    Overwrite,
    Compare(Comparison),
}

/// The outcome of the policy pre-check on one action.
#[derive(Debug)]
pub enum PreCheckResult {
    Execute,
    Skip,
    RenameTarget,
    Error(String),
}

impl PreCheckResult {
    pub fn to_str(&self) -> (r: &'static str)
        ensures
            *self is Execute ==> r@ == "Execute"@,
            *self is Skip ==> r@ == "Skip"@,
            *self is RenameTarget ==> r@ == "Rename"@,
            *self is Error ==> r@ == "Error"@,
    {
        match self {
            PreCheckResult::Execute => "Execute",
            PreCheckResult::Skip => "Skip",
            PreCheckResult::RenameTarget => "Rename",
            PreCheckResult::Error(_) => "Error",
        }
    }
}

/// One planned filesystem action: an operation, a source path, and a target
/// path split into its directory segments and filename.
#[derive(Debug)]
pub struct SortAction {
    pub operation: Operation,
    pub source: String,
    pub target_dir: Vec<String>,
    pub target_name: String,
}

impl SortAction {
    /// The target directory as one joined path.
    pub open spec fn spec_target_dir(self) -> Seq<char> {
        join_path(views_of(self.target_dir@))
    }

    /// The full target path: directory plus filename.
    pub open spec fn spec_target(self) -> Seq<char> {
        join_path(views_of(self.target_dir@).push(self.target_name@))
    }

    pub fn get_source(&self) -> (r: &str)
        ensures
            r@ == self.source@,
    {
        self.source.as_str()
    }

    /// The full target path as one string.
    pub fn get_target(&self) -> (r: String)
        ensures
            r@ == self.spec_target(),
    {
        let mut segs: Vec<String> = Vec::new();
        proof {
            assert(views_of(segs@) =~= views_of(self.target_dir@).subrange(0, 0));
        }
        let mut i: usize = 0;
        while i < self.target_dir.len()
            invariant
                i <= self.target_dir@.len(),
                views_of(segs@) == views_of(self.target_dir@).subrange(0, i as int),
            decreases self.target_dir@.len() - i,
        {
            let ghost pre = segs@;
            segs.push(self.target_dir[i].clone());
            proof {
                crate::paths::lemma_views_push(pre, segs@.last());
                crate::paths::lemma_views_index(self.target_dir@, i as int);
                assert(segs@ =~= pre.push(segs@.last()));
                assert(views_of(segs@) =~= views_of(self.target_dir@).subrange(0, i + 1));
            }
            i += 1;
        }
        let ghost pre = segs@;
        segs.push(self.target_name.clone());
        proof {
            crate::paths::lemma_views_push(pre, segs@.last());
            assert(segs@ =~= pre.push(segs@.last()));
            assert(views_of(self.target_dir@).subrange(0, self.target_dir@.len() as int)
                =~= views_of(self.target_dir@));
            assert(views_of(segs@) =~= views_of(self.target_dir@).push(self.target_name@));
        }
        crate::paths::join_segments(&segs)
    }

    /// The target directory as one string.
    pub fn get_target_dir(&self) -> (r: String)
        ensures
            r@ == self.spec_target_dir(),
    {
        crate::paths::join_segments(&self.target_dir)
    }
}

/// What was actually performed for one file.
#[derive(Debug, Clone, Copy, PartialEq, Eq, Structural)]
pub enum ActionResult {
    Moved,
    Copied,
    Skipped,
}

/// The operation's result when it succeeds: a simulation reports `Skipped`
/// since nothing was moved.
pub fn transfer_result(op: &Operation) -> (r: ActionResult)
    ensures
        *op is Move ==> r is Moved,
        *op is Copy ==> r is Copied,
        *op is Print ==> r is Skipped,
{
    match op {
        Operation::Move => ActionResult::Moved,
        Operation::Copy => ActionResult::Copied,
        Operation::Print => ActionResult::Skipped,
    }
}

/// Why mutating a conflicting target filename failed.
#[derive(Debug, Clone, Copy, PartialEq, Eq, Structural)]
pub enum MutationErr {
    InvalidTarget,
    Failed,
}

/// The contents of the two files an action compares.
pub struct FilePair {
    pub source: Vec<u8>,
    pub target: Vec<u8>,
}

/// The filesystem facts the pre-check goes by, gathered by the driver:
/// whether the source is a regular file, whether the target path exists, and
/// the two files' contents where the policy asks for a comparison (an `Err`
/// records that reading them failed).
pub struct ActionProbe {
    pub source_is_file: bool,
    pub target_exists: bool,
    pub contents: Option<Result<FilePair, ComparisonErr>>,
}

/// The filesystem facts execution goes by: whether the source is a regular
/// file, whether the target's parent directory exists, and whether a plain
/// file stands in its place.
pub struct ExecProbe {
    pub source_is_file: bool,
    pub parent_exists: bool,
    pub parent_is_file: bool,
}

/// The pre-check outcome, without the error text.
#[derive(Debug, Clone, Copy, PartialEq, Eq, Structural)]
pub enum PreCheckKind {
    Execute,
    Skip,
    RenameTarget,
    Error,
}

/// The pre-check state machine: a vanished source is an error; a fresh
/// target executes; an existing target is settled by the policy, under
/// `Compare` by the files' contents and the tie-break.
pub open spec fn precheck_kind(
    algo: HashAlgorithm,
    policy: DuplicateResolution,
    probe: ActionProbe,
) -> PreCheckKind {
    if !probe.source_is_file {
        PreCheckKind::Error
    } else if !probe.target_exists {
        PreCheckKind::Execute
    } else {
        match policy {
            DuplicateResolution::Ignore => PreCheckKind::Skip,
            DuplicateResolution::Overwrite => PreCheckKind::Execute,
            DuplicateResolution::Compare(c) => match probe.contents {
                Option::Some(Result::Ok(pair)) => if files_match(
                    algo,
                    pair.source@,
                    pair.target@,
                ) {
                    PreCheckKind::Skip
                } else {
                    match c {
                        Comparison::Rename => PreCheckKind::RenameTarget,
                        Comparison::FavorTarget => PreCheckKind::Skip,
                        Comparison::FavorSource => PreCheckKind::Execute,
                    }
                },
                _ => PreCheckKind::Error,
            },
        }
    }
}

/// A simulation has no side effects: with the source still a file, planning
/// a simulated action always succeeds, and a self-coordinating sorter asks
/// for no directory creation — at most its cache records the path.
pub proof fn lemma_simulate_plans_no_mutation(s: Sorter, action: SortAction, probe: ExecProbe)
    requires
        action.operation is Print,
        probe.source_is_file,
    ensures
        Sorter::exec_ok(action.operation, probe),
        s.mode is Sync ==> !s.plan_create_needed(action, probe.parent_exists),
{
}

/// Duplicate suppression: under a compare policy with a real hash
/// algorithm, two files with the same contents are skipped, never renamed,
/// whatever the tie-break says.
pub proof fn lemma_duplicate_suppression(
    algo: HashAlgorithm,
    tie: Comparison,
    probe: ActionProbe,
)
    requires
        probe.source_is_file,
        probe.target_exists,
        probe.contents matches Some(c) && c matches Ok(pair) && pair.source@ == pair.target@,
        !(algo is NoHash),
    ensures
        precheck_kind(algo, DuplicateResolution::Compare(tie), probe) is Skip,
{
}

/// The filename with a numbered suffix: `name.001` through `name.999`.
pub open spec fn numbered_name(base: Seq<char>, i: int) -> Seq<char> {
    base + seq!['.'] + dec_padded(i as nat, 3)
}

/// How a sorter reaches the directory coordinator: through its own in
/// sync mode, or through a driver-owned remote coordinator otherwise.
pub enum SorterMode {
    Sync(DirManager),
    Async,
}

/// The filesystem work one action needs: perhaps a directory to create
/// first, then the operation from source to target.
#[derive(Debug)]
pub struct ExecPlan {
    pub create_dir: Option<String>,
    pub operation: Operation,
    pub source: String,
    pub target: String,
}

/// What a policy-checked execution asks the driver to do.
#[derive(Debug)]
pub enum CheckedOutcome {
    Perform(ExecPlan),
    Skipped,
}

/// Turns one scanned file into a concrete filesystem action, applies the
/// duplicate-resolution policy, and plans its execution.
pub struct Sorter {
    pub translator: Translator,
    pub comparer: FileComparer,
    pub mode: SorterMode,
}

impl Sorter {
    /// The cached directory paths, when this sorter coordinates directory
    /// creation itself.
    pub open spec fn cache_views(self) -> Seq<Seq<char>> {
        match self.mode {
            SorterMode::Sync(dm) => views_of(dm.cache@),
            SorterMode::Async => Seq::empty(),
        }
    }

    /// Whether execution of `action` must ask the driver to create the
    /// target directory first.
    pub open spec fn plan_create_needed(self, action: SortAction, parent_exists: bool) -> bool {
        !parent_exists && match self.mode {
            SorterMode::Sync(dm) => needs_create(
                views_of(dm.cache@),
                action.spec_target_dir(),
                action.operation is Print || dm.simulate,
            ),
            SorterMode::Async => true,
        }
    }

    /// The directory cache after planning `action`: in sync mode a cache-only
    /// request records the path at once, everything else waits for the
    /// driver's confirmation.
    pub open spec fn cache_views_after(self, action: SortAction, parent_exists: bool) -> Seq<
        Seq<char>,
    > {
        match self.mode {
            SorterMode::Sync(dm) => if !parent_exists && !dir_cache_has(
                views_of(dm.cache@),
                action.spec_target_dir(),
            ) && (action.operation is Print || dm.simulate) {
                views_of(dm.cache@).push(action.spec_target_dir())
            } else {
                views_of(dm.cache@)
            },
            SorterMode::Async => Seq::empty(),
        }
    }

    /// Whether execution can go ahead at all: the source must still be a
    /// file, and no plain file may stand where the target directory belongs —
    /// except under a simulation, which touches nothing and so is never
    /// blocked by one.
    pub open spec fn exec_ok(op: Operation, probe: ExecProbe) -> bool {
        probe.source_is_file && (op is Print || probe.parent_exists || !probe.parent_is_file)
    }

    pub open spec fn same_config(a: Sorter, b: Sorter) -> bool {
        &&& a.translator == b.translator
        &&& a.comparer == b.comparer
        &&& (a.mode is Sync) == (b.mode is Sync)
        &&& match (a.mode, b.mode) {
            (SorterMode::Sync(d1), SorterMode::Sync(d2)) => d1.simulate == d2.simulate,
            _ => true,
        }
    }

    pub fn builder() -> (r: SorterBuilder)
        ensures
            r.segments@.len() == 0,
            r.fallback_segments@.len() == 0,
            r.dup_handling == DuplicateResolution::Compare(Comparison::Rename),
            r.hash_algo == HashAlgorithm::NoHash,
    {
        SorterBuilder {
            segments: Vec::new(),
            fallback_segments: Vec::new(),
            dup_handling: DuplicateResolution::Compare(Comparison::Rename),
            hash_algo: HashAlgorithm::NoHash,
        }
    }

    /// A sorter that coordinates directory creation itself.
    pub fn new(translator: Translator, comparer: FileComparer) -> (r: Sorter)
        ensures
            r.translator == translator,
            r.comparer == comparer,
            r.mode matches SorterMode::Sync(dm) && dm.cache@.len() == 0 && !dm.simulate,
    {
        Sorter { translator, comparer, mode: SorterMode::Sync(DirManager::new()) }
    }

    /// A sorter that delegates directory creation to the driver's shared
    /// coordinator.
    pub fn new_async(translator: Translator, comparer: FileComparer) -> (r: Sorter)
        ensures
            r.translator == translator,
            r.comparer == comparer,
            r.mode is Async,
    {
        Sorter { translator, comparer, mode: SorterMode::Async }
    }

    /// The number of segments as (supported, fallback).
    pub fn get_seg_count(&self) -> (r: (usize, usize))
        ensures
            r.0 == self.translator.segments_supported@.len(),
            r.1 == self.translator.segments_fallback@.len(),
    {
        self.translator.get_seg_count()
    }

    /// A copy action for the file.
    pub fn calc_copy(&self, file: &ImgInfo, target_root: &str) -> (r: SortAction)
        requires
            file_name_of(file.spec_path()).len() > 0,
        ensures
            r.operation is Copy,
            r.source@ == file.spec_path(),
            views_of(r.target_dir@) == seq![target_root@] + translated_components(
                self.translator.chosen_segments(file.spec_file_type()),
                *file,
            ),
            r.target_name@ == file_name_of(file.spec_path()),
    {
        self.calc_action(file, target_root, Operation::Copy)
    }

    /// A move action for the file.
    pub fn calc_move(&self, file: &ImgInfo, target_root: &str) -> (r: SortAction)
        requires
            file_name_of(file.spec_path()).len() > 0,
        ensures
            r.operation is Move,
            r.source@ == file.spec_path(),
            views_of(r.target_dir@) == seq![target_root@] + translated_components(
                self.translator.chosen_segments(file.spec_file_type()),
                *file,
            ),
            r.target_name@ == file_name_of(file.spec_path()),
    {
        self.calc_action(file, target_root, Operation::Move)
    }

    /// A simulation action for the file: nothing will be touched.
    pub fn calc_simulation(&self, file: &ImgInfo, target_root: &str) -> (r: SortAction)
        requires
            file_name_of(file.spec_path()).len() > 0,
        ensures
            r.operation is Print,
            r.source@ == file.spec_path(),
            views_of(r.target_dir@) == seq![target_root@] + translated_components(
                self.translator.chosen_segments(file.spec_file_type()),
                *file,
            ),
            r.target_name@ == file_name_of(file.spec_path()),
    {
        self.calc_action(file, target_root, Operation::Print)
    }

    fn calc_action(&self, file: &ImgInfo, target_root: &str, op: Operation) -> (r: SortAction)
        requires
            file_name_of(file.spec_path()).len() > 0,
        ensures
            r.operation == op,
            r.source@ == file.spec_path(),
            views_of(r.target_dir@) == seq![target_root@] + translated_components(
                self.translator.chosen_segments(file.spec_file_type()),
                *file,
            ),
            r.target_name@ == file_name_of(file.spec_path()),
    {
        let target_folder = self.translator.translate(file, target_root);
        let fname = crate::paths::file_name(file.path());
        SortAction {
            operation: op,
            source: file.path().to_owned(),
            target_dir: target_folder,
            target_name: fname,
        }
    }

    /// Builds the error text for a failed comparison.
    fn create_cmp_err_msg(e: &ComparisonErr, f1: &str, f2: &str) -> String {
        let mut msg = String::new();
        msg.append("error accessing file=\"");
        let cause = match e {
            ComparisonErr::AccessDenied(c) => c,
            ComparisonErr::InvalidFile(c) => c,
            ComparisonErr::Metadata(c) => c,
            ComparisonErr::Other(c, _) => c,
        };
        match cause {
            Cause::Source => msg.append(f1),
            Cause::Target => msg.append(f2),
            Cause::NA => msg.append("<unknown>"),
        }
        msg.append("\": ");
        match e {
            ComparisonErr::AccessDenied(_) => msg.append("access is denied"),
            ComparisonErr::InvalidFile(_) => msg.append("file not found"),
            ComparisonErr::Metadata(_) => msg.append("file metadata could not be read"),
            ComparisonErr::Other(_, m) => match m {
                Option::Some(s) => msg.append(s.as_str()),
                Option::None => {},
            },
        }
        msg
    }

    /// The policy pre-check: decides whether an action is executed, skipped,
    /// or retargeted, from the probed filesystem facts.
    pub fn evaluate_execution(&self, action: &SortAction, policy: &DuplicateResolution, probe:
        &ActionProbe) -> (r: PreCheckResult)
        ensures
            (r is Execute) == (precheck_kind(self.comparer.hash_algo, *policy, *probe)
                is Execute),
            (r is Skip) == (precheck_kind(self.comparer.hash_algo, *policy, *probe) is Skip),
            (r is RenameTarget) == (precheck_kind(self.comparer.hash_algo, *policy, *probe)
                is RenameTarget),
            (r is Error) == (precheck_kind(self.comparer.hash_algo, *policy, *probe) is Error),
    {
        if !probe.source_is_file {
            let mut msg = String::new();
            msg.append("source file does not exist: ");
            msg.append(action.source.as_str());
            return PreCheckResult::Error(msg);
        }
        if !probe.target_exists {
            return PreCheckResult::Execute;
        }
        match policy {
            DuplicateResolution::Ignore => PreCheckResult::Skip,
            DuplicateResolution::Overwrite => PreCheckResult::Execute,
            DuplicateResolution::Compare(c) => {
                match &probe.contents {
                    Option::Some(Result::Ok(pair)) => {
                        if self.comparer.check_files_matching(&pair.source, &pair.target) {
                            PreCheckResult::Skip
                        } else {
                            match c {
                                Comparison::Rename => PreCheckResult::RenameTarget,
                                Comparison::FavorTarget => PreCheckResult::Skip,
                                Comparison::FavorSource => PreCheckResult::Execute,
                            }
                        }
                    },
                    Option::Some(Result::Err(e)) => {
                        let target = action.get_target();
                        PreCheckResult::Error(
                            Self::create_cmp_err_msg(e, action.source.as_str(), target.as_str()),
                        )
                    },
                    Option::None => {
                        let mut msg = String::new();
                        msg.append("file contents were not available for comparison");
                        PreCheckResult::Error(msg)
                    },
                }
            },
        }
    }

    /// Renames the action's target filename to the first free numbered
    /// variant, `name.001` up to `name.999`, judged against the names already
    /// present in the target directory. A target that is not present cannot
    /// be renamed; exhausting all variants fails.
    pub fn mutate_target_filename(action: SortAction, existing: &Vec<String>) -> (r: Result<
        SortAction,
        MutationErr,
    >)
        ensures
            (r matches Err(e) && e is InvalidTarget) == !seq_contains_str(
                existing@,
                action.target_name@,
            ),
            (r matches Err(e) && e is Failed) == (seq_contains_str(existing@, action.target_name@)
                && forall|i: int|
                1 <= i <= 999 ==> seq_contains_str(
                    existing@,
                    #[trigger] numbered_name(action.target_name@, i),
                )),
            r matches Ok(a2) ==> a2.operation == action.operation && a2.source@ == action.source@
                && views_of(a2.target_dir@) == views_of(action.target_dir@) && exists|i: int|
                1 <= i <= 999 && a2.target_name@ == numbered_name(action.target_name@, i)
                    && !seq_contains_str(
                    existing@,
                    #[trigger] numbered_name(action.target_name@, i),
                ) && forall|j: int|
                    1 <= j < i ==> seq_contains_str(
                        existing@,
                        #[trigger] numbered_name(action.target_name@, j),
                    ),
    {
        if !contains_str(existing, action.target_name.as_str()) {
            return Result::Err(MutationErr::InvalidTarget);
        }
        let mut counter: u32 = 1;
        while counter <= 999
            invariant
                1 <= counter <= 1000,
                seq_contains_str(existing@, action.target_name@),
                forall|j: int|
                    1 <= j < counter ==> seq_contains_str(
                        existing@,
                        #[trigger] numbered_name(action.target_name@, j),
                    ),
            decreases 1000 - counter,
        {
            let mut name = action.target_name.clone();
            push_char(&mut name, '.');
            push_dec_padded(&mut name, counter, 3);
            proof {
                assert(name@ =~= numbered_name(action.target_name@, counter as int));
            }
            if !contains_str(existing, name.as_str()) {
                return Result::Ok(
                    SortAction {
                        operation: action.operation,
                        source: action.source,
                        target_dir: action.target_dir,
                        target_name: name,
                    },
                );
            }
            counter += 1;
        }
        Result::Err(MutationErr::Failed)
    }

    /// Plans the unconditional execution of an action: checks the source,
    /// resolves the target directory against the coordinator, and hands the
    /// driver what to do. No duplicate policy is applied here. A simulation
    /// touches nothing, so it is never refused for the target directory; at
    /// most the coordinator's cache records the path.
    pub fn execute(&mut self, action: SortAction, probe: &ExecProbe) -> (r: Result<
        ExecPlan,
        String,
    >)
        ensures
            (r is Ok) == Self::exec_ok(action.operation, *probe),
            r matches Ok(p) ==> p.operation == action.operation && p.source@ == action.source@
                && p.target@ == action.spec_target() && (p.create_dir matches Some(d) ==> d@
                == action.spec_target_dir()) && (p.create_dir is Some) == old(
                self,
            ).plan_create_needed(action, probe.parent_exists),
            Self::same_config(*final(self), *old(self)),
            r is Ok && !probe.parent_exists ==> final(self).cache_views() == old(
                self,
            ).cache_views_after(action, probe.parent_exists),
            r is Err || probe.parent_exists ==> final(self).cache_views() == old(
                self,
            ).cache_views(),
    {
        if !probe.source_is_file {
            let mut msg = String::new();
            msg.append("Invalid operation, source file does not exist: \"");
            msg.append(action.source.as_str());
            msg.append("\"");
            return Result::Err(msg);
        }
        let mut create_dir: Option<String> = Option::None;
        let cache_only = matches!(&action.operation, Operation::Print);
        if !probe.parent_exists {
            if probe.parent_is_file && !cache_only {
                let mut msg = String::new();
                msg.append("failed to create parent directory \"");
                let dir = action.get_target_dir();
                msg.append(dir.as_str());
                msg.append("\": a normal file with that name already exists!");
                return Result::Err(msg);
            }
            let dir = action.get_target_dir();
            match &mut self.mode {
                SorterMode::Sync(dm) => {
                    let need = dm.create_path(&dir, cache_only);
                    if need {
                        create_dir = Option::Some(dir);
                    }
                },
                SorterMode::Async => {
                    create_dir = Option::Some(dir);
                },
            }
        }
        let target = action.get_target();
        Result::Ok(
            ExecPlan { create_dir, operation: action.operation, source: action.source, target },
        )
    }

    /// Confirms that the driver has created a directory, so later actions
    /// under it need no further creation.
    pub fn record_dir_created(&mut self, dir: &String)
        ensures
            Self::same_config(*final(self), *old(self)),
            old(self).mode is Sync ==> final(self).cache_views() == old(self).cache_views().push(
                dir@,
            ),
            old(self).mode is Async ==> final(self).cache_views() == old(self).cache_views(),
    {
        match &mut self.mode {
            SorterMode::Sync(dm) => dm.record_created(dir),
            SorterMode::Async => {},
        }
    }

    /// Applies the policy pre-check and plans what it decides: execution as
    /// planned, a skip, a renamed target, or the pre-check's error. Under a
    /// simulation a skipped action is still planned, so the dry run reports
    /// what would happen.
    pub fn execute_checked(&mut self, action: SortAction, policy: &DuplicateResolution, probe:
        &ActionProbe, exec_probe: &ExecProbe, existing: &Vec<String>) -> (r: Result<
        CheckedOutcome,
        String,
    >)
        ensures
            precheck_kind(old(self).comparer.hash_algo, *policy, *probe) is Error ==> (r is Err
                && final(self).cache_views() == old(self).cache_views()),
            (precheck_kind(old(self).comparer.hash_algo, *policy, *probe) is Skip
                && !(action.operation is Print)) ==> ((r matches Ok(o) && o is Skipped)
                && final(self).cache_views() == old(self).cache_views()),
            (precheck_kind(old(self).comparer.hash_algo, *policy, *probe) is Skip
                && action.operation is Print) ==> (((r is Ok) == Self::exec_ok(
                action.operation,
                *exec_probe,
            )) && (r matches Ok(o) ==> (o matches CheckedOutcome::Perform(p) && p.target@
                == action.spec_target() && (p.create_dir is Some) == old(
                self,
            ).plan_create_needed(action, exec_probe.parent_exists)))),
            Self::same_config(*final(self), *old(self)),
            r matches Ok(o) ==> (o matches CheckedOutcome::Perform(p) ==> p.operation
                == action.operation && p.source@ == action.source@),
            precheck_kind(old(self).comparer.hash_algo, *policy, *probe) is Execute ==> (((
            r is Ok) == Self::exec_ok(action.operation, *exec_probe)) && (r matches Ok(o) ==> (o
                matches CheckedOutcome::Perform(p) && p.target@ == action.spec_target() && (
            p.create_dir is Some) == old(self).plan_create_needed(
                action,
                exec_probe.parent_exists,
            )))),
            (precheck_kind(old(self).comparer.hash_algo, *policy, *probe) is RenameTarget
                && !seq_contains_str(existing@, action.target_name@)) ==> r is Err,
            (precheck_kind(old(self).comparer.hash_algo, *policy, *probe) is RenameTarget && (
            forall|i: int|
                1 <= i <= 999 ==> seq_contains_str(
                    existing@,
                    #[trigger] numbered_name(action.target_name@, i),
                ))) ==> r is Err,
            (precheck_kind(old(self).comparer.hash_algo, *policy, *probe) is RenameTarget
                && seq_contains_str(existing@, action.target_name@) && !(forall|i: int|
                1 <= i <= 999 ==> seq_contains_str(
                    existing@,
                    #[trigger] numbered_name(action.target_name@, i),
                ))) ==> ((r is Ok) == Self::exec_ok(action.operation, *exec_probe)),
            precheck_kind(old(self).comparer.hash_algo, *policy, *probe) is RenameTarget ==> (r
                matches Ok(o) ==> o matches CheckedOutcome::Perform(p) && exists|i: int|
                1 <= i <= 999 && p.target@ == join_path(
                    views_of(action.target_dir@).push(
                        #[trigger] numbered_name(action.target_name@, i),
                    ),
                ) && !seq_contains_str(existing@, numbered_name(action.target_name@, i)) && (
                forall|j: int|
                    1 <= j < i ==> seq_contains_str(
                        existing@,
                        #[trigger] numbered_name(action.target_name@, j),
                    ))),
    {
        let precheck_result = self.evaluate_execution(&action, policy, probe);
        match precheck_result {
            PreCheckResult::Execute => {
                match self.execute(action, exec_probe) {
                    Result::Ok(p) => Result::Ok(CheckedOutcome::Perform(p)),
                    Result::Err(e) => Result::Err(e),
                }
            },
            PreCheckResult::Skip => {
                match &action.operation {
                    Operation::Print => match self.execute(action, exec_probe) {
                        Result::Ok(p) => Result::Ok(CheckedOutcome::Perform(p)),
                        Result::Err(e) => Result::Err(e),
                    },
                    _ => Result::Ok(CheckedOutcome::Skipped),
                }
            },
            PreCheckResult::RenameTarget => {
                let mutated = match Self::mutate_target_filename(action, existing) {
                    Result::Ok(a) => a,
                    Result::Err(e) => {
                        let mut msg = String::new();
                        msg.append("error renaming target: ");
                        match e {
                            MutationErr::InvalidTarget => msg.append("the target does not exist"),
                            MutationErr::Failed => msg.append(
                                "a non-conflicting filename could not be created",
                            ),
                        }
                        return Result::Err(msg);
                    },
                };
                match self.execute(mutated, exec_probe) {
                    Result::Ok(p) => Result::Ok(CheckedOutcome::Perform(p)),
                    Result::Err(e) => Result::Err(e),
                }
            },
            PreCheckResult::Error(e) => Result::Err(e),
        }
    }
}

/// Builder for sorters: the segment lists, the duplicate policy, and the
/// hash algorithm the comparer will use.
pub struct SorterBuilder {
    pub segments: Vec<PatternElement>,
    pub fallback_segments: Vec<PatternElement>,
    pub dup_handling: DuplicateResolution,
    pub hash_algo: HashAlgorithm,
}

/// Two segment providers that translate every file alike.
pub open spec fn translate_equiv(a: PatternElement, b: PatternElement) -> bool {
    forall|info: ImgInfo| a.spec_translate(info) == b.spec_translate(info)
}

/// Element-wise translation equivalence of two segment lists.
pub open spec fn segs_equiv(a: Seq<PatternElement>, b: Seq<PatternElement>) -> bool {
    a.len() == b.len() && forall|i: int| 0 <= i < a.len() ==> translate_equiv(#[trigger] a[i], b[i])
}

impl SorterBuilder {
    /// The duplicate policy used when none is configured.
    pub fn default_duplicate_handling() -> (r: DuplicateResolution)
        ensures
            r is Ignore,
    {
        DuplicateResolution::Ignore
    }

    /// Adds a segment for files with supported metadata.
    pub fn segment(self, s: PatternElement) -> (r: SorterBuilder)
        ensures
            r.segments@ == self.segments@.push(s),
            r.fallback_segments@ == self.fallback_segments@,
            r.dup_handling == self.dup_handling,
            r.hash_algo == self.hash_algo,
    {
        let mut b = self;
        b.push_segment_supported(s);
        b
    }

    /// Sets the hash algorithm used for comparing.
    pub fn hash_algorithm(self, algo: HashAlgorithm) -> (r: SorterBuilder)
        ensures
            r.segments@ == self.segments@,
            r.fallback_segments@ == self.fallback_segments@,
            r.dup_handling == self.dup_handling,
            r.hash_algo == algo,
    {
        let mut b = self;
        b.hash_algo = algo;
        b
    }

    /// Adds a segment for files without supported metadata.
    pub fn fallback(self, s: PatternElement) -> (r: SorterBuilder)
        ensures
            r.segments@ == self.segments@,
            r.fallback_segments@ == self.fallback_segments@.push(s),
            r.dup_handling == self.dup_handling,
            r.hash_algo == self.hash_algo,
    {
        let mut b = self;
        b.push_segment_fallback(s);
        b
    }

    /// Sets how existing target files are handled.
    pub fn duplicate_handling(self, a: DuplicateResolution) -> (r: SorterBuilder)
        ensures
            r.segments@ == self.segments@,
            r.fallback_segments@ == self.fallback_segments@,
            r.dup_handling == a,
            r.hash_algo == self.hash_algo,
    {
        let mut b = self;
        b.dup_handling = a;
        b
    }

    /// Appends a supported path segment.
    pub fn push_segment_supported(&mut self, s: PatternElement)
        ensures
            final(self).segments@ == old(self).segments@.push(s),
            final(self).fallback_segments@ == old(self).fallback_segments@,
            final(self).dup_handling == old(self).dup_handling,
            final(self).hash_algo == old(self).hash_algo,
    {
        self.segments.push(s);
    }

    /// Appends a fallback path segment.
    pub fn push_segment_fallback(&mut self, s: PatternElement)
        ensures
            final(self).segments@ == old(self).segments@,
            final(self).fallback_segments@ == old(self).fallback_segments@.push(s),
            final(self).dup_handling == old(self).dup_handling,
            final(self).hash_algo == old(self).hash_algo,
    {
        self.fallback_segments.push(s);
    }

    /// Copies of both segment lists, translating every file alike.
    fn clone_segs(&self) -> (r: (Vec<PatternElement>, Vec<PatternElement>))
        ensures
            segs_equiv(r.0@, self.segments@),
            segs_equiv(r.1@, self.fallback_segments@),
    {
        let mut segs: Vec<PatternElement> = Vec::new();
        let mut i: usize = 0;
        while i < self.segments.len()
            invariant
                i <= self.segments@.len(),
                segs@.len() == i,
                forall|j: int|
                    0 <= j < i ==> translate_equiv(#[trigger] segs@[j], self.segments@[j]),
            decreases self.segments@.len() - i,
        {
            segs.push(self.segments[i].clone_config());
            i += 1;
        }
        let mut fb_segs: Vec<PatternElement> = Vec::new();
        let mut k: usize = 0;
        while k < self.fallback_segments.len()
            invariant
                k <= self.fallback_segments@.len(),
                fb_segs@.len() == k,
                forall|j: int|
                    0 <= j < k ==> translate_equiv(
                        #[trigger] fb_segs@[j],
                        self.fallback_segments@[j],
                    ),
            decreases self.fallback_segments@.len() - k,
        {
            fb_segs.push(self.fallback_segments[k].clone_config());
            k += 1;
        }
        (segs, fb_segs)
    }

    fn build_clone_translator(&self) -> (r: Translator)
        ensures
            segs_equiv(r.segments_supported@, self.segments@),
            segs_equiv(r.segments_fallback@, self.fallback_segments@),
    {
        let segs = self.clone_segs();
        Translator::new(segs.0, segs.1)
    }

    /// Builds a sorter that coordinates directory creation itself.
    pub fn build_sync(&self) -> (r: Sorter)
        ensures
            segs_equiv(r.translator.segments_supported@, self.segments@),
            segs_equiv(r.translator.segments_fallback@, self.fallback_segments@),
            r.comparer.hash_algo == self.hash_algo,
            !r.comparer.ignore_zero_target,
            r.mode matches SorterMode::Sync(dm) && dm.cache@.len() == 0 && !dm.simulate,
    {
        let translator = self.build_clone_translator();
        let comparer = FileComparer::new(false, self.hash_algo);
        Sorter::new(translator, comparer)
    }

    /// Builds a sorter that delegates directory creation to the driver's
    /// shared coordinator.
    pub fn build_async(&self) -> (r: Sorter)
        ensures
            segs_equiv(r.translator.segments_supported@, self.segments@),
            segs_equiv(r.translator.segments_fallback@, self.fallback_segments@),
            r.comparer.hash_algo == self.hash_algo,
            !r.comparer.ignore_zero_target,
            r.mode is Async,
    {
        let translator = self.build_clone_translator();
        let comparer = FileComparer::new(false, self.hash_algo);
        Sorter::new_async(translator, comparer)
    }
}

} // verus!
