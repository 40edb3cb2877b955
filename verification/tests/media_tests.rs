use dcim_sort::datetime::Timestamp;
use dcim_sort::media::{FileType, ImgInfo, ImgMeta, MetaType};

fn ts(year: u16, month: u8, day: u8, hour: u8, minute: u8, second: u8) -> Timestamp {
    Timestamp { year, month, day, hour, minute, second }
}

#[test]
fn merge_implements_all_fields() {
    let mut empty = ImgMeta::new();

    let not_empty = ImgMeta {
        created_at: Some(ts(2021, 8, 1, 12, 30, 15)),
        make: String::from("SomeMake"),
        model: String::from("SomeModel"),
        user_comment: String::from("A comment!"),
        is_screenshot: true,
    };
    empty.merge_in(&not_empty);
    assert_eq!(not_empty, empty);
}

#[test]
fn merge_keeps_populated_fields() {
    let mut base = ImgMeta {
        created_at: Some(ts(2020, 1, 2, 3, 4, 5)),
        make: String::from("KeepMake"),
        model: String::new(),
        user_comment: String::new(),
        is_screenshot: false,
    };
    let other = ImgMeta {
        created_at: Some(ts(2021, 6, 7, 8, 9, 10)),
        make: String::from("OtherMake"),
        model: String::from("OtherModel"),
        user_comment: String::from("hi"),
        is_screenshot: true,
    };
    base.merge_in(&other);
    assert_eq!(base.created_at, Some(ts(2020, 1, 2, 3, 4, 5)));
    assert_eq!(base.make, "KeepMake");
    assert_eq!(base.model, "OtherModel");
    assert_eq!(base.user_comment, "hi");
    assert!(base.is_screenshot);
}

#[test]
fn file_type_from_extension_ignores_case() {
    assert_eq!(FileType::from("JPG"), FileType::JPEG);
    assert_eq!(FileType::from("jpeg"), FileType::JPEG);
    assert_eq!(FileType::from("Png"), FileType::PNG);
    assert_eq!(FileType::from("HEIC"), FileType::HEIC);
    assert_eq!(FileType::from("gif"), FileType::Other);
}

#[test]
fn img_info_classifies_by_path() {
    let info = ImgInfo::new(String::from("in/dir/IMG_0001.JPG"), ts(2023, 5, 1, 0, 0, 0));
    assert_eq!(*info.file_type(), FileType::JPEG);
    assert_eq!(info.path(), "in/dir/IMG_0001.JPG");
    assert!(info.metadata().make().is_empty());

    let hidden = ImgInfo::new(String::from("in/.hidden"), ts(2023, 5, 1, 0, 0, 0));
    assert_eq!(*hidden.file_type(), FileType::Other);

    let noext = ImgInfo::new(String::from("in/readme"), ts(2023, 5, 1, 0, 0, 0));
    assert_eq!(*noext.file_type(), FileType::Other);
}

#[test]
fn meta_types_per_file_type() {
    let v = MetaType::from_filetype(&FileType::JPEG);
    assert!(matches!(v[0], MetaType::Exif));
    assert!(matches!(v[1], MetaType::XMP));
    let o = MetaType::from_filetype(&FileType::Other);
    assert_eq!(o.len(), 1);
    assert!(matches!(o[0], MetaType::NoMeta));
}

#[test]
fn datetime_parsing_accepts_real_dates_only() {
    let t = dcim_sort::datetime::parse_exif_datetime("2023:05:12 13:14:15");
    assert_eq!(t, Some(ts(2023, 5, 12, 13, 14, 15)));
    // a date that does not exist on the calendar
    assert_eq!(dcim_sort::datetime::parse_exif_datetime("2023:02:30 00:00:00"), None);
    // leap day accepted in a leap year, rejected otherwise
    assert!(dcim_sort::datetime::parse_exif_datetime("2024:02:29 01:02:03").is_some());
    assert!(dcim_sort::datetime::parse_exif_datetime("2023:02:29 01:02:03").is_none());
    // malformed shapes
    assert_eq!(dcim_sort::datetime::parse_exif_datetime("2023-05-12 13:14:15"), None);
    assert_eq!(dcim_sort::datetime::parse_exif_datetime("2023:05:12"), None);
    // the sidecar format
    let x = dcim_sort::datetime::parse_xmp_datetime("2023-05-12T13:14:15");
    assert_eq!(x, Some(ts(2023, 5, 12, 13, 14, 15)));
}
