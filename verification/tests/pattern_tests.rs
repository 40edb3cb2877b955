use dcim_sort::datetime::Timestamp;
use dcim_sort::media::{ImgInfo, ImgMeta};
use dcim_sort::pattern::device::{CaseNormalization, DevicePart, MakeModelPattern};
use dcim_sort::pattern::fallback::{DummyPattern, GeneralFileType, SimpleFileTypePattern};
use dcim_sort::pattern::general::{DateTimePart, DateTimePattern, ScreenshotPattern};
use dcim_sort::pattern::PatternElement;
use dcim_sort::sorting::translation::Translator;

fn ts(year: u16, month: u8, day: u8) -> Timestamp {
    Timestamp { year, month, day, hour: 10, minute: 20, second: 30 }
}

fn file_with_meta(path: &str, meta: ImgMeta) -> ImgInfo {
    let mut info = ImgInfo::new(String::from(path), ts(2023, 5, 1));
    info.set_metadata(meta);
    info
}

fn device_meta(make: &str, model: &str) -> ImgMeta {
    ImgMeta {
        created_at: None,
        make: String::from(make),
        model: String::from(model),
        user_comment: String::new(),
        is_screenshot: false,
    }
}

#[test]
fn make_model_lowercases_and_replaces_spaces() {
    let pattern = MakeModelPattern::new()
        .part(DevicePart::Make)
        .part(DevicePart::Model)
        .separator('_')
        .replace_spaces(true)
        .case_normalization(CaseNormalization::Lowercase)
        .build();
    let info = file_with_meta("in/a.jpg", device_meta("Some Make", "Some Model"));
    assert_eq!(pattern.translate(&info), Some(String::from("some-make_some-model")));
}

#[test]
fn make_model_uppercases_when_asked() {
    let pattern = MakeModelPattern::new()
        .part(DevicePart::Make)
        .case_normalization(CaseNormalization::Uppercase)
        .build();
    let info = file_with_meta("in/a.jpg", device_meta("abc", "m"));
    assert_eq!(pattern.translate(&info), Some(String::from("ABC")));
}

#[test]
fn make_model_falls_back_for_unknown_devices() {
    let pattern = MakeModelPattern::new()
        .part(DevicePart::Make)
        .part(DevicePart::Model)
        .fallback(String::from("unknown_device"))
        .build();
    let info = file_with_meta("in/a.jpg", device_meta("", ""));
    assert_eq!(pattern.translate(&info), Some(String::from("unknown_device")));
}

#[test]
fn make_model_defaults_to_make_then_model() {
    let built = MakeModelPattern::new().build_unboxed();
    assert_eq!(built.pattern().len(), 2);
    assert!(matches!(built.pattern()[0], DevicePart::Make));
    assert!(matches!(built.pattern()[1], DevicePart::Model));
}

#[test]
fn device_part_keywords() {
    assert!(matches!(DevicePart::parse("Make"), Some(DevicePart::Make)));
    assert!(matches!(DevicePart::parse("MODEL"), Some(DevicePart::Model)));
    assert!(DevicePart::parse("lens").is_none());
}

#[test]
fn datetime_pattern_pads_fields() {
    let pattern = DateTimePattern::new()
        .part(DateTimePart::Year)
        .part(DateTimePart::Month)
        .build();
    let mut meta = device_meta("", "");
    meta.created_at = Some(ts(2023, 5, 1));
    let info = file_with_meta("in/a.jpg", meta);
    assert_eq!(pattern.translate(&info), Some(String::from("2023-05")));
}

#[test]
fn datetime_pattern_uses_default_without_timestamp() {
    let pattern = DateTimePattern::new().part(DateTimePart::Year).build();
    let info = file_with_meta("in/a.jpg", device_meta("", ""));
    assert_eq!(pattern.translate(&info), Some(String::from("unknown")));
}

#[test]
fn datetime_pattern_can_fall_back_to_fs_time() {
    let pattern = DateTimePattern::new()
        .part(DateTimePart::Year)
        .part(DateTimePart::Month)
        .part(DateTimePart::Day)
        .fs_timestamp_fallback(true)
        .build();
    // the file carries no capture time, so the modification time is used
    let info = file_with_meta("in/a.jpg", device_meta("", ""));
    assert_eq!(pattern.translate(&info), Some(String::from("2023-05-01")));
}

#[test]
fn datetime_part_keywords() {
    assert!(matches!(DateTimePart::parse("Year"), Some(DateTimePart::Year)));
    assert!(matches!(DateTimePart::parse("second"), Some(DateTimePart::Second)));
    assert!(DateTimePart::parse("week").is_none());
}

#[test]
fn screenshot_pattern_goes_by_the_flag() {
    let pattern = ScreenshotPattern::new(String::from("screenshots"));
    let mut meta = device_meta("", "");
    meta.is_screenshot = true;
    let flagged = file_with_meta("in/a.png", meta);
    assert_eq!(pattern.translate(&flagged), Some(String::from("screenshots")));

    let plain = file_with_meta("in/a.png", device_meta("", ""));
    assert_eq!(pattern.translate(&plain), None);
}

#[test]
fn screenshot_pattern_can_match_filenames() {
    let pattern = ScreenshotPattern::with_fname_matching(
        String::from("screenshots"),
        "^screenshot",
        true,
    )
    .unwrap();
    let by_name = file_with_meta("in/Screenshot_001.png", device_meta("", ""));
    assert_eq!(pattern.translate(&by_name), Some(String::from("screenshots")));
    let other = file_with_meta("in/IMG_001.png", device_meta("", ""));
    assert_eq!(pattern.translate(&other), None);
}

#[test]
fn screenshot_pattern_rejects_bad_expressions() {
    assert!(ScreenshotPattern::with_fname_matching(String::from("s"), "(", false).is_err());
    assert!(ScreenshotPattern::with_fname_matching(String::from("s"), "", false).is_err());
}

#[test]
fn simple_file_type_pattern_routes_by_extension() {
    let pattern = SimpleFileTypePattern::new().build();
    let video = file_with_meta("in/movie.MP4", device_meta("", ""));
    assert_eq!(pattern.translate(&video), Some(String::from("videos")));
    let audio = file_with_meta("in/song.flac", device_meta("", ""));
    assert_eq!(pattern.translate(&audio), Some(String::from("audio_files")));
    let doc = file_with_meta("in/paper.pdf", device_meta("", ""));
    assert_eq!(pattern.translate(&doc), Some(String::from("documents")));
    let text = file_with_meta("in/notes.txt", device_meta("", ""));
    assert_eq!(pattern.translate(&text), Some(String::from("text_files")));
    let unknown = file_with_meta("in/blob.bin", device_meta("", ""));
    assert_eq!(pattern.translate(&unknown), Some(String::from("other")));
    let bare = file_with_meta("in/README", device_meta("", ""));
    assert_eq!(pattern.translate(&bare), Some(String::from("other")));
}

#[test]
fn general_file_type_classification() {
    assert_eq!(GeneralFileType::from("MKV"), GeneralFileType::Video);
    assert_eq!(GeneralFileType::from("ogg"), GeneralFileType::Audio);
    assert_eq!(GeneralFileType::from("odt"), GeneralFileType::Document);
    assert_eq!(GeneralFileType::from("json"), GeneralFileType::Text);
    assert_eq!(GeneralFileType::from("jpg"), GeneralFileType::Other);
}

#[test]
fn dummy_pattern_is_constant() {
    let pattern = DummyPattern::new("fixed");
    let info = file_with_meta("in/whatever.xyz", device_meta("", ""));
    assert_eq!(pattern.translate(&info), Some(String::from("fixed")));
}

#[test]
fn fallback_routing_overrides_supported_list() {
    // the supported list would also yield a non-empty segment, but an
    // unrecognised file type must still be routed to the fallback list
    let translator = Translator::new(
        vec![DummyPattern::new("from_supported")],
        vec![DummyPattern::new("from_fallback")],
    );
    let unknown = file_with_meta("in/data.bin", device_meta("", ""));
    let dirs = translator.translate(&unknown, "root");
    assert_eq!(dirs, vec![String::from("root"), String::from("from_fallback")]);

    let image = file_with_meta("in/photo.jpg", device_meta("", ""));
    let dirs2 = translator.translate(&image, "root");
    assert_eq!(dirs2, vec![String::from("root"), String::from("from_supported")]);
}

#[test]
fn optional_segments_are_skipped_not_errors() {
    let translator = Translator::new(
        vec![
            ScreenshotPattern::new(String::from("screenshots")),
            DummyPattern::new("always"),
        ],
        vec![],
    );
    let plain = file_with_meta("in/photo.jpg", device_meta("", ""));
    let dirs = translator.translate(&plain, "root");
    assert_eq!(dirs, vec![String::from("root"), String::from("always")]);
}

#[test]
fn pattern_names_and_optionality() {
    let mm = MakeModelPattern::new().build();
    assert_eq!(mm.name(), "MakeModelPattern");
    assert!(!mm.is_optional());
    let sp = ScreenshotPattern::new(String::from("s"));
    assert_eq!(sp.name(), "ScreenshotPattern");
    assert!(sp.is_optional());
    let sf = SimpleFileTypePattern::new().build();
    assert_eq!(sf.name(), "SimpleFileTypePattern");
    assert!(sf.is_optional());
    let dt = DateTimePattern::new().build();
    assert_eq!(dt.name(), "DateTimePattern");
    assert!(!dt.is_optional());
}

#[test]
fn clone_config_translates_alike() {
    let pattern = MakeModelPattern::new()
        .part(DevicePart::Model)
        .case_normalization(CaseNormalization::Unchanged)
        .build();
    let copy = pattern.clone_config();
    let info = file_with_meta("in/a.jpg", device_meta("Mk", "Md l"));
    assert_eq!(pattern.translate(&info), copy.translate(&info));
}

#[test]
fn pattern_element_matches() {
    assert!(matches!(MakeModelPattern::new().build(), PatternElement::MakeModel(_)));
    assert!(matches!(SimpleFileTypePattern::new().build(), PatternElement::SimpleFileType(_)));
}
