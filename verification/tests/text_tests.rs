use dcim_sort::logging::{log_file_name, LogMsg};
use dcim_sort::paths::{extension, file_name, join_segments};
use dcim_sort::text::{dec_string, parse_index, replace_char, str_eq, str_starts_with, to_lower_ascii, to_lowercase, to_uppercase};

#[test]
fn decimal_rendering() {
    assert_eq!(dec_string(0), "0");
    assert_eq!(dec_string(1234), "1234");
    assert_eq!(dec_string(4294967295), "4294967295");
}

#[test]
fn index_parsing_bounds() {
    assert_eq!(parse_index("42"), Some(42));
    assert_eq!(parse_index("-7"), Some(-7));
    assert_eq!(parse_index("+5"), Some(5));
    assert_eq!(parse_index("007"), Some(7));
    assert_eq!(parse_index(""), None);
    assert_eq!(parse_index("-"), None);
    assert_eq!(parse_index("12a"), None);
    assert_eq!(parse_index("9999999999"), None);
}

#[test]
fn string_helpers() {
    assert!(str_eq("abc", "abc"));
    assert!(!str_eq("abc", "abd"));
    assert!(!str_eq("abc", "ab"));
    assert!(str_starts_with("Android 13", "Android "));
    assert!(!str_starts_with("And", "Android "));
    assert_eq!(to_lower_ascii("MD5-Ühü"), "md5-Ühü");
    assert_eq!(replace_char("a b c", ' ', '-'), "a-b-c");
}

#[test]
fn case_folding_changes_letters() {
    // these call into the standard library's Unicode folding: an unchanged
    // result here would be wrong
    assert_eq!(to_lowercase("SOME Make"), "some make");
    assert_eq!(to_uppercase("abc"), "ABC");
    assert_eq!(to_lowercase(""), "");
}

#[test]
fn path_components() {
    assert_eq!(file_name("a/b/c.txt"), "c.txt");
    assert_eq!(file_name("c.txt"), "c.txt");
    assert_eq!(file_name("a/b/"), "");
    assert_eq!(extension("c.txt"), Some(String::from("txt")));
    assert_eq!(extension("archive.tar.gz"), Some(String::from("gz")));
    assert_eq!(extension(".hidden"), None);
    assert_eq!(extension("noext"), None);
    assert_eq!(extension("dot."), Some(String::from("")));
}

#[test]
fn segment_joining_skips_empty_segments() {
    let v = |xs: &[&str]| xs.iter().map(|s| String::from(*s)).collect::<Vec<String>>();
    assert_eq!(join_segments(&v(&["a", "b", "c"])), "a/b/c");
    assert_eq!(join_segments(&v(&["a", "", "c"])), "a/c");
    assert_eq!(join_segments(&v(&["", "c"])), "/c");
    assert_eq!(join_segments(&v(&[])), "");
}

#[test]
fn log_text_rendering() {
    let msg = LogMsg::new(String::from("pipeline001"), String::from("skipped a file"));
    assert_eq!(msg.render(), "[pipeline001] skipped a file");
    assert_eq!(log_file_name(2023, 5, 1), "dcim-sort_2023-5-1.log");
}
