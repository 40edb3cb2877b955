use dcim_sort::media::kadamak_exif::{ExifFields, KadamakExifProcessor, TagValue};
use dcim_sort::media::metadata_processor::{MetaProcessor, Priority, ProcessorKind};
use dcim_sort::media::rexiv_proc::{ExifTagValues, Rexiv2Processor, XmpTagValues};
use dcim_sort::media::{FileType, ImgInfo, ImgMeta, MetaType};
use dcim_sort::datetime::Timestamp;

#[test]
fn decline_heif() {
    let flag = Rexiv2Processor::new().supports(&MetaType::Exif, &FileType::HEIC);
    assert!(!flag);
}

#[test]
fn kadamak_takes_heif_exif_only() {
    let p = KadamakExifProcessor::new();
    assert!(p.supports(&MetaType::Exif, &FileType::HEIC));
    assert!(!p.supports(&MetaType::XMP, &FileType::HEIC));
    assert!(!p.supports(&MetaType::Exif, &FileType::Other));
}

fn no_exif_tags() -> ExifTagValues {
    ExifTagValues {
        datetime_original_tiff: None,
        datetime_original_exif: None,
        datetime_tiff: None,
        make: None,
        model: None,
        user_comment: None,
        software: None,
    }
}

#[test]
fn exif_reading_marks_android_screenshots() {
    let mut tags = no_exif_tags();
    tags.software = Some(String::from("Android 13"));
    tags.make = Some(String::from("SomeMake"));
    let meta = Rexiv2Processor::read_exif(&tags);
    assert!(meta.is_screenshot);
    assert_eq!(meta.make, "SomeMake");
    assert_eq!(meta.created_at, None);

    let mut plain = no_exif_tags();
    plain.user_comment = Some(String::from("holiday"));
    assert!(!Rexiv2Processor::read_exif(&plain).is_screenshot);

    let mut comment = no_exif_tags();
    comment.user_comment = Some(String::from("Screenshot"));
    assert!(Rexiv2Processor::read_exif(&comment).is_screenshot);
}

#[test]
fn exif_reading_prefers_the_original_datetime_tag() {
    let mut tags = no_exif_tags();
    tags.datetime_original_tiff = Some(String::from("2021:01:02 03:04:05"));
    tags.datetime_tiff = Some(String::from("2022:06:07 08:09:10"));
    let meta = Rexiv2Processor::read_exif(&tags);
    assert_eq!(
        meta.created_at,
        Some(Timestamp { year: 2021, month: 1, day: 2, hour: 3, minute: 4, second: 5 })
    );
    // a present but malformed first tag is not papered over by the next one
    let mut bad = no_exif_tags();
    bad.datetime_original_tiff = Some(String::from("not a date"));
    bad.datetime_tiff = Some(String::from("2022:06:07 08:09:10"));
    assert_eq!(Rexiv2Processor::read_exif(&bad).created_at, None);
}

#[test]
fn xmp_reading_flags_the_sidecar_comment() {
    let tags = XmpTagValues {
        create_date: Some(String::from("2023-05-12T13:14:15")),
        user_comment: Some(String::from("lang=\"x-default\" Screenshot")),
    };
    let meta = Rexiv2Processor::read_xmp(&tags);
    assert!(meta.is_screenshot);
    assert_eq!(
        meta.created_at,
        Some(Timestamp { year: 2023, month: 5, day: 12, hour: 13, minute: 14, second: 15 })
    );
}

#[test]
fn combined_reading_layers_exif_under_xmp() {
    let mut exif = no_exif_tags();
    exif.make = Some(String::from("M"));
    let xmp = XmpTagValues {
        create_date: Some(String::from("2023-05-12T13:14:15")),
        user_comment: None,
    };
    let meta = Rexiv2Processor::read_metadata_from(&Some(exif), &Some(xmp)).unwrap();
    assert_eq!(meta.make, "M");
    assert!(meta.created_at.is_some());
    assert!(Rexiv2Processor::read_metadata_from(&None, &None).is_none());
}

#[test]
fn user_comment_extraction_trims_the_header() {
    let mut bytes = vec![0u8; 8];
    bytes.extend_from_slice("hello".as_bytes());
    let s = KadamakExifProcessor::extract_user_comment(&bytes).unwrap();
    assert_eq!(s, "hello");

    assert!(KadamakExifProcessor::extract_user_comment(&vec![0u8; 8]).is_err());

    let mut invalid = vec![0u8; 8];
    invalid.push(0xff);
    assert!(KadamakExifProcessor::extract_user_comment(&invalid).is_err());
}

#[test]
fn tag_values_read_as_text() {
    let ascii = TagValue::Ascii(vec!["SomeMake".as_bytes().to_vec()]);
    let s = KadamakExifProcessor::extract_as_string(&Some(ascii), false).unwrap();
    assert_eq!(s, "SomeMake");

    let empty = TagValue::Ascii(vec![]);
    assert!(KadamakExifProcessor::extract_as_string(&Some(empty), false).is_none());

    let mut comment_bytes = vec![0u8; 8];
    comment_bytes.extend_from_slice("Screenshot".as_bytes());
    let undef = TagValue::Undefined(comment_bytes);
    let c = KadamakExifProcessor::extract_as_string(&Some(undef), true).unwrap();
    assert_eq!(c, "Screenshot");
}

#[test]
fn field_reading_prefers_plain_datetime() {
    let fields = ExifFields {
        datetime: Some(TagValue::Ascii(vec!["2020:12:31 23:59:59".as_bytes().to_vec()])),
        datetime_original: Some(TagValue::Ascii(vec![
            "2019:01:01 00:00:00".as_bytes().to_vec(),
        ])),
        make: Some(TagValue::Ascii(vec!["M".as_bytes().to_vec()])),
        model: None,
        user_comment: None,
    };
    let meta = KadamakExifProcessor::read_meta_fields(&fields);
    assert_eq!(
        meta.created_at,
        Some(Timestamp { year: 2020, month: 12, day: 31, hour: 23, minute: 59, second: 59 })
    );
    assert_eq!(meta.make, "M");
    assert!(!meta.is_screenshot);
}

#[test]
fn processor_selection_follows_priority_order() {
    let processor = MetaProcessor::new()
        .processor(ProcessorKind::Rexiv2(Rexiv2Processor::new()), Priority::Unranked)
        .processor(ProcessorKind::KadamakExif(KadamakExifProcessor::new()), Priority::Lowest)
        .build_clone();
    // for a JPEG's EXIF container the first backend wins
    let sel = processor.select_processor(&MetaType::Exif, &FileType::JPEG);
    assert_eq!(sel, Some(0));
    // HEIC EXIF is only read by the in-process backend
    let sel2 = processor.select_processor(&MetaType::Exif, &FileType::HEIC);
    assert_eq!(sel2, Some(1));
    // nothing reads an absent container
    assert_eq!(processor.select_processor(&MetaType::NoMeta, &FileType::Other), None);
}

#[test]
fn processing_merges_reads_in_order() {
    let processor = MetaProcessor::new()
        .processor(ProcessorKind::Rexiv2(Rexiv2Processor::new()), Priority::Unranked)
        .build_clone();
    let mut img = ImgInfo::new(
        String::from("in/a.jpg"),
        Timestamp { year: 2023, month: 1, day: 1, hour: 0, minute: 0, second: 0 },
    );
    let first = ImgMeta {
        created_at: None,
        make: String::from("FirstMake"),
        model: String::new(),
        user_comment: String::new(),
        is_screenshot: false,
    };
    let second = ImgMeta {
        created_at: Some(Timestamp { year: 2021, month: 2, day: 3, hour: 4, minute: 5, second: 6 }),
        make: String::from("SecondMake"),
        model: String::from("SecondModel"),
        user_comment: String::new(),
        is_screenshot: false,
    };
    let reads = vec![Some(first), None, Some(second)];
    processor.process(&mut img, &reads);
    // the earlier read won the make, the later one filled the rest
    assert_eq!(img.metadata().make(), "FirstMake");
    assert_eq!(img.metadata().model(), "SecondModel");
    assert!(img.metadata().created_at().is_some());
}

#[test]
fn batch_processing_keeps_order() {
    let processor = MetaProcessor::new()
        .processor(ProcessorKind::Rexiv2(Rexiv2Processor::new()), Priority::Unranked)
        .build_clone();
    let t = Timestamp { year: 2023, month: 1, day: 1, hour: 0, minute: 0, second: 0 };
    let files = vec![
        ImgInfo::new(String::from("in/a.jpg"), t),
        ImgInfo::new(String::from("in/b.jpg"), t),
    ];
    let meta_a = ImgMeta {
        created_at: None,
        make: String::from("A"),
        model: String::new(),
        user_comment: String::new(),
        is_screenshot: false,
    };
    let meta_b = ImgMeta { make: String::from("B"), ..meta_a.clone() };
    let reads = vec![vec![Some(meta_a)], vec![Some(meta_b)]];
    let out = processor.process_all(files, &reads);
    assert_eq!(out.len(), 2);
    assert_eq!(out[0].path(), "in/a.jpg");
    assert_eq!(out[0].metadata().make(), "A");
    assert_eq!(out[1].path(), "in/b.jpg");
    assert_eq!(out[1].metadata().make(), "B");
}
