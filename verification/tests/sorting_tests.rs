use dcim_sort::sorting::comparison::{Cause, ComparisonErr, FileComparer, HashAlgorithm};
use dcim_sort::sorting::fs_support::DirManager;
use dcim_sort::sorting::translation::Translator;
use dcim_sort::sorting::{
    transfer_result, ActionProbe, ActionResult, CheckedOutcome, Comparison, DuplicateResolution,
    ExecProbe, FilePair, MutationErr, Operation, PreCheckResult, SortAction, Sorter, SorterMode,
};

fn hex(bytes: &[u8]) -> String {
    let digits = "0123456789abcdef".as_bytes();
    let mut out = String::new();
    for b in bytes {
        out.push(digits[(b >> 4) as usize] as char);
        out.push(digits[(b & 15) as usize] as char);
    }
    out
}

fn plain_sorter(algo: HashAlgorithm) -> Sorter {
    Sorter::new(Translator::new(vec![], vec![]), FileComparer::new(false, algo))
}

fn action(op: Operation, source: &str, dir: Vec<&str>, name: &str) -> SortAction {
    SortAction {
        operation: op,
        source: String::from(source),
        target_dir: dir.into_iter().map(String::from).collect(),
        target_name: String::from(name),
    }
}

fn probe_with_pair(src: &[u8], tgt: &[u8]) -> ActionProbe {
    ActionProbe {
        source_is_file: true,
        target_exists: true,
        contents: Some(Ok(FilePair { source: src.to_vec(), target: tgt.to_vec() })),
    }
}

#[test]
fn hash_algorithm_keywords() {
    assert_eq!(HashAlgorithm::parse("MD5"), HashAlgorithm::MD5);
    assert_eq!(HashAlgorithm::parse("sha256"), HashAlgorithm::SHA256);
    assert_eq!(HashAlgorithm::parse("none"), HashAlgorithm::NoHash);
    assert_eq!(HashAlgorithm::parse("crc32"), HashAlgorithm::NoHash);
    assert_eq!(HashAlgorithm::names(), vec!["md5", "sha256", "none"]);
}

#[test]
fn digests_have_their_known_values() {
    let data = "abc".as_bytes().to_vec();
    let md5 = FileComparer::hash(&HashAlgorithm::MD5, &data).unwrap();
    assert_eq!(hex(&md5), "900150983cd24fb0d6963f7d28e17f72");
    let sha = FileComparer::hash(&HashAlgorithm::SHA256, &data).unwrap();
    assert_eq!(hex(&sha), "ba7816bf8f01cfea414140de5dae2223b00361a396177a9cb410ff61f20015ad");
    assert!(FileComparer::hash(&HashAlgorithm::NoHash, &data).is_none());
}

#[test]
fn comparison_rejects_by_size_then_digest() {
    let cmp = FileComparer::new(false, HashAlgorithm::MD5);
    assert!(cmp.check_files_matching(&b"same".to_vec(), &b"same".to_vec()));
    assert!(!cmp.check_files_matching(&b"short".to_vec(), &b"longer".to_vec()));
    assert!(!cmp.check_files_matching(&b"aaaa".to_vec(), &b"aaab".to_vec()));
    // the no-hash mode never trusts a size match
    let none = FileComparer::new(false, HashAlgorithm::NoHash);
    assert!(!none.check_files_matching(&b"same".to_vec(), &b"same".to_vec()));
    let default = FileComparer::default();
    assert!(default.check_files_matching(&b"x".to_vec(), &b"x".to_vec()));
}

#[test]
fn duplicate_suppression_under_compare_rename() {
    // two files with identical size and digest are skipped, not renamed
    let sorter = plain_sorter(HashAlgorithm::MD5);
    let a = action(Operation::Copy, "in/a.jpg", vec!["out"], "a.jpg");
    let probe = probe_with_pair(b"same bytes", b"same bytes");
    let policy = DuplicateResolution::Compare(Comparison::Rename);
    let r = sorter.evaluate_execution(&a, &policy, &probe);
    assert!(matches!(r, PreCheckResult::Skip));
}

#[test]
fn precheck_follows_the_policy_table() {
    let sorter = plain_sorter(HashAlgorithm::MD5);
    let a = action(Operation::Copy, "in/a.jpg", vec!["out"], "a.jpg");

    let vanished = ActionProbe { source_is_file: false, target_exists: false, contents: None };
    assert!(matches!(
        sorter.evaluate_execution(&a, &DuplicateResolution::Ignore, &vanished),
        PreCheckResult::Error(_)
    ));

    let fresh = ActionProbe { source_is_file: true, target_exists: false, contents: None };
    assert!(matches!(
        sorter.evaluate_execution(&a, &DuplicateResolution::Ignore, &fresh),
        PreCheckResult::Execute
    ));

    let taken = ActionProbe { source_is_file: true, target_exists: true, contents: None };
    assert!(matches!(
        sorter.evaluate_execution(&a, &DuplicateResolution::Ignore, &taken),
        PreCheckResult::Skip
    ));
    assert!(matches!(
        sorter.evaluate_execution(&a, &DuplicateResolution::Overwrite, &taken),
        PreCheckResult::Execute
    ));

    let differing = probe_with_pair(b"aaaa", b"bbbb");
    assert!(matches!(
        sorter.evaluate_execution(
            &a,
            &DuplicateResolution::Compare(Comparison::Rename),
            &differing
        ),
        PreCheckResult::RenameTarget
    ));
    assert!(matches!(
        sorter.evaluate_execution(
            &a,
            &DuplicateResolution::Compare(Comparison::FavorTarget),
            &differing
        ),
        PreCheckResult::Skip
    ));
    assert!(matches!(
        sorter.evaluate_execution(
            &a,
            &DuplicateResolution::Compare(Comparison::FavorSource),
            &differing
        ),
        PreCheckResult::Execute
    ));

    let unreadable = ActionProbe {
        source_is_file: true,
        target_exists: true,
        contents: Some(Err(ComparisonErr::AccessDenied(Cause::Target))),
    };
    assert!(matches!(
        sorter.evaluate_execution(
            &a,
            &DuplicateResolution::Compare(Comparison::Rename),
            &unreadable
        ),
        PreCheckResult::Error(_)
    ));
}

#[test]
fn rename_produces_a_fresh_unique_name() {
    let mut existing: Vec<String> = vec![String::from("a.jpg")];
    for i in 1..=5 {
        existing.push(format!("a.jpg.{:03}", i));
    }
    let a = action(Operation::Copy, "in/a.jpg", vec!["out"], "a.jpg");
    let renamed = Sorter::mutate_target_filename(a, &existing).unwrap();
    assert_eq!(renamed.target_name, "a.jpg.006");
    assert_eq!(renamed.source, "in/a.jpg");
}

#[test]
fn rename_exhaustion_fails() {
    let mut existing: Vec<String> = vec![String::from("a.jpg")];
    for i in 1..=999 {
        existing.push(format!("a.jpg.{:03}", i));
    }
    let a = action(Operation::Copy, "in/a.jpg", vec!["out"], "a.jpg");
    let err = Sorter::mutate_target_filename(a, &existing).unwrap_err();
    assert!(matches!(err, MutationErr::Failed));
}

#[test]
fn rename_needs_an_existing_target() {
    let existing: Vec<String> = vec![String::from("other.jpg")];
    let a = action(Operation::Copy, "in/a.jpg", vec!["out"], "a.jpg");
    let err = Sorter::mutate_target_filename(a, &existing).unwrap_err();
    assert!(matches!(err, MutationErr::InvalidTarget));
}

#[test]
fn target_paths_join_with_separators() {
    let a = action(Operation::Copy, "in/a.jpg", vec!["out", "make", "2023-05"], "a.jpg");
    assert_eq!(a.get_target(), "out/make/2023-05/a.jpg");
    assert_eq!(a.get_target_dir(), "out/make/2023-05");
    assert_eq!(a.get_source(), "in/a.jpg");
    // empty segments contribute nothing
    let b = action(Operation::Copy, "in/a.jpg", vec!["out", "", "x"], "a.jpg");
    assert_eq!(b.get_target(), "out/x/a.jpg");
}

#[test]
fn execute_checks_the_source_and_the_parent() {
    let mut sorter = plain_sorter(HashAlgorithm::NoHash);
    let gone = action(Operation::Copy, "in/a.jpg", vec!["out"], "a.jpg");
    let r = sorter.execute(
        gone,
        &ExecProbe { source_is_file: false, parent_exists: false, parent_is_file: false },
    );
    assert!(r.is_err());

    let blocked = action(Operation::Copy, "in/a.jpg", vec!["out"], "a.jpg");
    let r2 = sorter.execute(
        blocked,
        &ExecProbe { source_is_file: true, parent_exists: false, parent_is_file: true },
    );
    assert!(r2.is_err());
}

#[test]
fn execute_requests_each_directory_once() {
    let mut sorter = plain_sorter(HashAlgorithm::NoHash);
    let probe = ExecProbe { source_is_file: true, parent_exists: false, parent_is_file: false };

    let first = action(Operation::Copy, "in/a.jpg", vec!["out", "d"], "a.jpg");
    let plan = sorter.execute(first, &probe).unwrap();
    assert_eq!(plan.create_dir.as_deref(), Some("out/d"));
    assert_eq!(plan.target, "out/d/a.jpg");
    assert!(matches!(plan.operation, Operation::Copy));

    // the driver reports the creation; the next action under the same
    // directory needs none
    sorter.record_dir_created(&String::from("out/d"));
    let second = action(Operation::Copy, "in/b.jpg", vec!["out", "d"], "b.jpg");
    let plan2 = sorter.execute(second, &probe).unwrap();
    assert!(plan2.create_dir.is_none());

    // an existing parent needs none either
    let third = action(Operation::Copy, "in/c.jpg", vec!["out", "e"], "c.jpg");
    let plan3 = sorter
        .execute(
            third,
            &ExecProbe { source_is_file: true, parent_exists: true, parent_is_file: false },
        )
        .unwrap();
    assert!(plan3.create_dir.is_none());
}

#[test]
fn simulation_never_requests_a_directory() {
    let mut sorter = plain_sorter(HashAlgorithm::NoHash);
    let probe = ExecProbe { source_is_file: true, parent_exists: false, parent_is_file: false };
    let a = action(Operation::Print, "in/a.jpg", vec!["out", "d"], "a.jpg");
    let plan = sorter.execute(a, &probe).unwrap();
    assert!(plan.create_dir.is_none());
    // yet the directory was recorded, as the dry run's listing
    match &sorter.mode {
        SorterMode::Sync(dm) => assert_eq!(dm.cache, vec![String::from("out/d")]),
        SorterMode::Async => panic!("expected the sync coordinator"),
    }
}

#[test]
fn simulation_is_not_blocked_by_a_plain_file() {
    // a plain file standing where the target directory belongs stops a real
    // transfer, but a dry run touches nothing and still reports its plan
    let mut sorter = plain_sorter(HashAlgorithm::NoHash);
    let probe = ExecProbe { source_is_file: true, parent_exists: false, parent_is_file: true };
    let a = action(Operation::Print, "in/a.jpg", vec!["out", "d"], "a.jpg");
    let plan = sorter.execute(a, &probe).unwrap();
    assert!(plan.create_dir.is_none());
    assert_eq!(plan.target, "out/d/a.jpg");
    match &sorter.mode {
        SorterMode::Sync(dm) => assert_eq!(dm.cache, vec![String::from("out/d")]),
        SorterMode::Async => panic!("expected the sync coordinator"),
    }
}

#[test]
fn checked_execution_composes_the_pieces() {
    let mut sorter = plain_sorter(HashAlgorithm::MD5);
    let policy = DuplicateResolution::Compare(Comparison::Rename);
    let exec_probe = ExecProbe { source_is_file: true, parent_exists: true, parent_is_file: false };

    // a skip under a real operation short-circuits
    let a = action(Operation::Copy, "in/a.jpg", vec!["out"], "a.jpg");
    let same = probe_with_pair(b"x", b"x");
    let r = sorter.execute_checked(a, &policy, &same, &exec_probe, &vec![]);
    assert!(matches!(r, Ok(CheckedOutcome::Skipped)));

    // a genuine collision renames and then plans the transfer
    let b = action(Operation::Copy, "in/b.jpg", vec!["out"], "b.jpg");
    let differ = probe_with_pair(b"x", b"y");
    let existing = vec![String::from("b.jpg")];
    let r2 = sorter.execute_checked(b, &policy, &differ, &exec_probe, &existing);
    match r2 {
        Ok(CheckedOutcome::Perform(plan)) => assert_eq!(plan.target, "out/b.jpg.001"),
        _ => panic!("expected a planned transfer"),
    }

    // rename exhaustion surfaces as this file's error
    let mut full = vec![String::from("c.jpg")];
    for i in 1..=999 {
        full.push(format!("c.jpg.{:03}", i));
    }
    let c = action(Operation::Copy, "in/c.jpg", vec!["out"], "c.jpg");
    let r3 = sorter.execute_checked(c, &policy, &probe_with_pair(b"x", b"y"), &exec_probe, &full);
    assert!(r3.is_err());

    // under a simulation even a skipped action is still planned
    let d = action(Operation::Print, "in/d.jpg", vec!["out"], "d.jpg");
    let r4 = sorter.execute_checked(d, &policy, &probe_with_pair(b"x", b"x"), &exec_probe, &vec![]);
    assert!(matches!(r4, Ok(CheckedOutcome::Perform(_))));
}

#[test]
fn directory_creation_is_idempotent() {
    let mut dm = DirManager::new();
    let path = String::from("out/2023");
    // first request: the directory must be created
    assert!(dm.create_path(&path, false));
    dm.record_created(&path);
    // second request for the same path: nothing to do, no error
    assert!(!dm.create_path(&path, false));
    // cache-only requests record without creating
    let mut sim = DirManager::new_simulating();
    assert!(!sim.create_path(&path, false));
    assert!(!sim.create_path(&path, false));
    assert_eq!(sim.cache.len(), 1);
}

#[test]
fn transfer_results_follow_the_operation() {
    assert!(matches!(transfer_result(&Operation::Move), ActionResult::Moved));
    assert!(matches!(transfer_result(&Operation::Copy), ActionResult::Copied));
    assert!(matches!(transfer_result(&Operation::Print), ActionResult::Skipped));
    assert_eq!(Operation::Copy.to_str(), "copy");
    assert_eq!(Operation::Move.to_str(), "move");
    assert_eq!(Operation::Print.to_str(), "print");
    assert_eq!(PreCheckResult::RenameTarget.to_str(), "Rename");
}
