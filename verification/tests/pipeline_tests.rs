use dcim_sort::datetime::Timestamp;
use dcim_sort::media::kadamak_exif::KadamakExifProcessor;
use dcim_sort::media::metadata_processor::{MetaProcessor, Priority, ProcessorKind};
use dcim_sort::media::rexiv_proc::Rexiv2Processor;
use dcim_sort::media::{ImgInfo, ImgMeta};
use dcim_sort::pattern::device::{CaseNormalization, DevicePart, MakeModelPattern};
use dcim_sort::pattern::fallback::SimpleFileTypePattern;
use dcim_sort::pattern::general::{DateTimePart, DateTimePattern, ScreenshotPattern};
use dcim_sort::pipeline::{next_worker_index, Pipeline, Report};
use dcim_sort::sorting::comparison::{ComparisonErr, HashAlgorithm};
use dcim_sort::sorting::{
    ActionProbe, ActionResult, CheckedOutcome, Comparison, DuplicateResolution, ExecProbe,
    FilePair, Operation, Sorter, SorterMode,
};

fn ts(year: u16, month: u8, day: u8) -> Timestamp {
    Timestamp { year, month, day, hour: 9, minute: 0, second: 0 }
}

fn default_processor() -> MetaProcessor {
    MetaProcessor::new()
        .processor(ProcessorKind::Rexiv2(Rexiv2Processor::new()), Priority::Unranked)
        .processor(ProcessorKind::KadamakExif(KadamakExifProcessor::new()), Priority::Lowest)
        .build_clone()
}

fn default_sorter() -> Sorter {
    Sorter::builder()
        .segment(
            MakeModelPattern::new()
                .part(DevicePart::Make)
                .part(DevicePart::Model)
                .separator('_')
                .replace_spaces(true)
                .case_normalization(CaseNormalization::Lowercase)
                .fallback(String::from("unknown_device"))
                .build(),
        )
        .segment(ScreenshotPattern::new(String::from("screenshots")))
        .segment(
            DateTimePattern::new().part(DateTimePart::Year).part(DateTimePart::Month).build(),
        )
        .fallback(SimpleFileTypePattern::new().build())
        .hash_algorithm(HashAlgorithm::MD5)
        .build_sync()
}

fn jpeg_meta() -> ImgMeta {
    ImgMeta {
        created_at: Some(ts(2023, 5, 20)),
        make: String::from("SomeMake"),
        model: String::from("SomeModel"),
        user_comment: String::new(),
        is_screenshot: false,
    }
}

fn screenshot_meta() -> ImgMeta {
    ImgMeta {
        created_at: Some(ts(2023, 5, 21)),
        make: String::from("SomeMake"),
        model: String::from("SomeModel"),
        user_comment: String::from("Screenshot"),
        is_screenshot: true,
    }
}

#[test]
fn report_merges_additively() {
    let mut total = Report::new();
    total.add(Report { count_success: 2, count_skipped: 1, count_duplicate: 1 });
    total.add(Report { count_success: 3, count_skipped: 0, count_duplicate: 2 });
    assert_eq!(total.count_success, 5);
    assert_eq!(total.count_skipped, 1);
    assert_eq!(total.count_duplicate, 3);
}

#[test]
fn round_robin_wraps_around() {
    assert_eq!(next_worker_index(0, 3), 1);
    assert_eq!(next_worker_index(1, 3), 2);
    assert_eq!(next_worker_index(2, 3), 0);
    assert_eq!(next_worker_index(0, 1), 0);
}

#[test]
fn report_conserves_outcomes() {
    // every outcome is counted exactly once: success + skipped equals the
    // file count minus the errors
    let mut pipeline = Pipeline::new(
        default_processor(),
        default_sorter(),
        Operation::Copy,
        "sorted",
        DuplicateResolution::Ignore,
    );
    let outcomes: Vec<Result<ActionResult, String>> = vec![
        Ok(ActionResult::Moved),
        Ok(ActionResult::Copied),
        Ok(ActionResult::Skipped),
        Err(String::from("source vanished")),
        Ok(ActionResult::Skipped),
    ];
    for o in &outcomes {
        pipeline.record_outcome(o);
    }
    let report = pipeline.get_report();
    let errors = 1u64;
    assert_eq!(report.count_success, 2);
    assert_eq!(report.count_skipped, 2);
    assert_eq!(report.count_success + report.count_skipped, outcomes.len() as u64 - errors);
}

struct FakeFile {
    info: ImgInfo,
    reads: Vec<Option<ImgMeta>>,
    content: Vec<u8>,
}

/// Drives one file through the worker against a synthetic filesystem: a set
/// of occupied target paths with contents, and a set of present directories.
fn drive(
    pipeline: &mut Pipeline,
    file: FakeFile,
    fs_files: &mut Vec<(String, Vec<u8>)>,
    fs_dirs: &mut Vec<String>,
    simulate: bool,
) -> Result<ActionResult, String> {
    let mut info = file.info;
    let action = pipeline.prepare(&mut info, &file.reads);
    let target = action.get_target();
    let target_dir = action.get_target_dir();
    let existing_target = fs_files.iter().find(|(p, _)| *p == target).map(|(_, c)| c.clone());
    let target_exists = existing_target.is_some();
    pipeline.note_duplicate(target_exists);
    let contents: Option<Result<FilePair, ComparisonErr>> = existing_target
        .map(|tgt| Ok(FilePair { source: file.content.clone(), target: tgt }));
    let probe = ActionProbe { source_is_file: true, target_exists, contents };
    let exec_probe = ExecProbe {
        source_is_file: true,
        parent_exists: fs_dirs.iter().any(|d| *d == target_dir),
        parent_is_file: false,
    };
    let existing: Vec<String> = fs_files
        .iter()
        .filter(|(p, _)| p.starts_with(&format!("{}/", target_dir)))
        .map(|(p, _)| p[target_dir.len() + 1..].to_string())
        .collect();
    let outcome = match pipeline.check(action, &probe, &exec_probe, &existing) {
        Ok(CheckedOutcome::Perform(plan)) => {
            if let Some(d) = &plan.create_dir {
                fs_dirs.push(d.clone());
                pipeline.sorter.record_dir_created(d);
            }
            if !simulate {
                fs_files.push((plan.target.clone(), file.content.clone()));
            }
            Ok(dcim_sort::sorting::transfer_result(&plan.operation))
        }
        Ok(CheckedOutcome::Skipped) => Ok(ActionResult::Skipped),
        Err(e) => Err(e),
    };
    pipeline.record_outcome(&outcome);
    outcome
}

#[test]
fn end_to_end_copy_with_duplicate_and_screenshot() {
    // three files: two identical JPEGs with the same device and date, one
    // PNG screenshot; policy compare-with-rename
    let mut pipeline = Pipeline::new(
        default_processor(),
        default_sorter(),
        Operation::Copy,
        "sorted",
        DuplicateResolution::Compare(Comparison::Rename),
    );
    let mut fs_files: Vec<(String, Vec<u8>)> = Vec::new();
    let mut fs_dirs: Vec<String> = Vec::new();

    let jpeg1 = FakeFile {
        info: ImgInfo::new(String::from("in/IMG1.jpg"), ts(2023, 5, 20)),
        reads: vec![Some(jpeg_meta())],
        content: b"jpeg bytes".to_vec(),
    };
    let r1 = drive(&mut pipeline, jpeg1, &mut fs_files, &mut fs_dirs, false);
    assert_eq!(r1, Ok(ActionResult::Copied));
    assert_eq!(fs_files[0].0, "sorted/somemake_somemodel/2023-05/IMG1.jpg");

    // the second JPEG has the same name, size and digest: a duplicate
    let jpeg2 = FakeFile {
        info: ImgInfo::new(String::from("other/IMG1.jpg"), ts(2023, 5, 20)),
        reads: vec![Some(jpeg_meta())],
        content: b"jpeg bytes".to_vec(),
    };
    let r2 = drive(&mut pipeline, jpeg2, &mut fs_files, &mut fs_dirs, false);
    assert_eq!(r2, Ok(ActionResult::Skipped));

    let png = FakeFile {
        info: ImgInfo::new(String::from("in/IMG2.png"), ts(2023, 5, 21)),
        reads: vec![Some(screenshot_meta())],
        content: b"png bytes".to_vec(),
    };
    let r3 = drive(&mut pipeline, png, &mut fs_files, &mut fs_dirs, false);
    assert_eq!(r3, Ok(ActionResult::Copied));
    let png_target = &fs_files[1].0;
    assert!(png_target.contains("/screenshots/"));
    assert!(png_target.ends_with("/IMG2.png"));

    let report = pipeline.get_report();
    assert_eq!(report.count_success, 2);
    assert_eq!(report.count_skipped, 1);
    assert_eq!(report.count_duplicate, 1);
}

#[test]
fn rename_keeps_both_files_on_collision() {
    let mut pipeline = Pipeline::new(
        default_processor(),
        default_sorter(),
        Operation::Copy,
        "sorted",
        DuplicateResolution::Compare(Comparison::Rename),
    );
    let mut fs_files: Vec<(String, Vec<u8>)> = Vec::new();
    let mut fs_dirs: Vec<String> = Vec::new();

    let first = FakeFile {
        info: ImgInfo::new(String::from("in/IMG1.jpg"), ts(2023, 5, 20)),
        reads: vec![Some(jpeg_meta())],
        content: b"first".to_vec(),
    };
    drive(&mut pipeline, first, &mut fs_files, &mut fs_dirs, false).unwrap();

    // same target name, different content: the target is renamed
    let second = FakeFile {
        info: ImgInfo::new(String::from("other/IMG1.jpg"), ts(2023, 5, 20)),
        reads: vec![Some(jpeg_meta())],
        content: b"other".to_vec(),
    };
    let r = drive(&mut pipeline, second, &mut fs_files, &mut fs_dirs, false);
    assert_eq!(r, Ok(ActionResult::Copied));
    assert_eq!(fs_files[1].0, "sorted/somemake_somemodel/2023-05/IMG1.jpg.001");
}

#[test]
fn simulate_has_no_side_effects() {
    // the same three files, once under copy and once under simulate: the
    // simulated run writes nothing, yet reports and lists the directories a
    // real run would create
    let files = || -> Vec<FakeFile> {
        vec![
            FakeFile {
                info: ImgInfo::new(String::from("in/IMG1.jpg"), ts(2023, 5, 20)),
                reads: vec![Some(jpeg_meta())],
                content: b"jpeg bytes".to_vec(),
            },
            FakeFile {
                info: ImgInfo::new(String::from("in/IMG2.png"), ts(2023, 5, 21)),
                reads: vec![Some(screenshot_meta())],
                content: b"png bytes".to_vec(),
            },
        ]
    };

    let mut copy_pipeline = Pipeline::new(
        default_processor(),
        default_sorter(),
        Operation::Copy,
        "sorted",
        DuplicateResolution::Compare(Comparison::Rename),
    );
    let mut copy_files: Vec<(String, Vec<u8>)> = Vec::new();
    let mut copy_dirs: Vec<String> = Vec::new();
    for f in files() {
        drive(&mut copy_pipeline, f, &mut copy_files, &mut copy_dirs, false).unwrap();
    }

    let mut sim_pipeline = Pipeline::new(
        default_processor(),
        default_sorter(),
        Operation::Print,
        "sorted",
        DuplicateResolution::Compare(Comparison::Rename),
    );
    let mut sim_files: Vec<(String, Vec<u8>)> = Vec::new();
    let mut sim_dirs: Vec<String> = Vec::new();
    for f in files() {
        let r = drive(&mut sim_pipeline, f, &mut sim_files, &mut sim_dirs, true);
        assert_eq!(r, Ok(ActionResult::Skipped));
    }

    // nothing was written and no directory creation was requested
    assert!(sim_files.is_empty());
    assert!(sim_dirs.is_empty());
    // the report still came out
    let report = sim_pipeline.get_report();
    assert_eq!(report.count_skipped, 2);
    assert_eq!(report.count_success, 0);
    // the simulated coordinator recorded the same directories the real run
    // created
    match &sim_pipeline.sorter.mode {
        SorterMode::Sync(dm) => {
            let mut recorded = dm.cache.clone();
            let mut created = copy_dirs.clone();
            recorded.sort();
            created.sort();
            assert_eq!(recorded, created);
        }
        SorterMode::Async => panic!("expected the sync coordinator"),
    }
}
