use dcim_sort::config::seg_config::{parse_boolean, parse_single_char, parse_string};
use dcim_sort::config::sorter_config::{SegmentCfg, SegmentType, SorterCfg};
use dcim_sort::config::{CfgError, RootCfg, XmlElement};
use dcim_sort::index::{PathBox, Scanner};
use dcim_sort::media::FileType;
use dcim_sort::pattern::PatternElement;
use dcim_sort::sorting::{Comparison, DuplicateResolution};

fn el(name: &str) -> XmlElement {
    XmlElement {
        name: String::from(name),
        attrs: Vec::new(),
        text: String::new(),
        children: Vec::new(),
    }
}

fn el_text(name: &str, text: &str) -> XmlElement {
    XmlElement {
        name: String::from(name),
        attrs: Vec::new(),
        text: String::from(text),
        children: Vec::new(),
    }
}

fn attr(el: &mut XmlElement, k: &str, v: &str) {
    el.attrs.push((String::from(k), String::from(v)));
}

#[test]
fn scalar_value_parsing() {
    assert_eq!(parse_boolean(&el_text("b", "")).unwrap(), None);
    assert_eq!(parse_boolean(&el_text("b", "true")).unwrap(), Some(true));
    assert_eq!(parse_boolean(&el_text("b", "false")).unwrap(), Some(false));
    assert!(parse_boolean(&el_text("b", "yes")).is_err());

    assert_eq!(parse_single_char(&el_text("s", "")).unwrap(), None);
    assert_eq!(parse_single_char(&el_text("s", "_")).unwrap(), Some('_'));
    assert!(parse_single_char(&el_text("s", "ab")).is_err());

    assert_eq!(parse_string(&el_text("v", "")), None);
    assert_eq!(parse_string(&el_text("v", "x")), Some(String::from("x")));
}

#[test]
fn duplicate_resolution_keywords() {
    let mut ignore = el("duplicateResolution");
    attr(&mut ignore, "strategy", "ignore");
    assert!(matches!(
        SorterCfg::parse_duplicate_resolution(&ignore),
        Ok(DuplicateResolution::Ignore)
    ));

    let mut overwrite = el("duplicateResolution");
    attr(&mut overwrite, "strategy", "overwrite");
    assert!(matches!(
        SorterCfg::parse_duplicate_resolution(&overwrite),
        Ok(DuplicateResolution::Overwrite)
    ));

    let mut compare = el_text("duplicateResolution", "rename");
    attr(&mut compare, "strategy", "compare");
    assert!(matches!(
        SorterCfg::parse_duplicate_resolution(&compare),
        Ok(DuplicateResolution::Compare(Comparison::Rename))
    ));

    let mut favor = el_text("duplicateResolution", "favor_source");
    attr(&mut favor, "strategy", "compare");
    assert!(matches!(
        SorterCfg::parse_duplicate_resolution(&favor),
        Ok(DuplicateResolution::Compare(Comparison::FavorSource))
    ));

    let mut bad_tie = el_text("duplicateResolution", "flip_a_coin");
    attr(&mut bad_tie, "strategy", "compare");
    assert!(SorterCfg::parse_duplicate_resolution(&bad_tie).is_err());

    let missing = el("duplicateResolution");
    assert!(SorterCfg::parse_duplicate_resolution(&missing).is_err());

    let mut unknown = el("duplicateResolution");
    attr(&mut unknown, "strategy", "merge");
    assert!(SorterCfg::parse_duplicate_resolution(&unknown).is_err());
}

fn datetime_segment(index: &str) -> XmlElement {
    let mut seg = el("segment");
    attr(&mut seg, "type", "DateTimePattern");
    attr(&mut seg, "index", index);
    let mut parts = el("parts");
    let mut y = el_text("part", "year");
    attr(&mut y, "index", "0");
    let mut m = el_text("part", "month");
    attr(&mut m, "index", "1");
    parts.children.push(y);
    parts.children.push(m);
    seg.children.push(parts);
    seg
}

#[test]
fn segment_entries_need_type_and_index() {
    let seg = datetime_segment("0");
    let cfg = SegmentCfg::from(&seg).unwrap();
    assert_eq!(cfg.seg_type, "DateTimePattern");
    assert_eq!(cfg.index, 0);
    assert!(matches!(cfg.cfg, SegmentType::DateTimePattern(_)));
    assert!(matches!(cfg.cfg.generate(), Ok(PatternElement::DateTime(_))));

    let mut no_index = el("segment");
    attr(&mut no_index, "type", "DateTimePattern");
    assert!(SegmentCfg::from(&no_index).is_err());

    let mut no_type = el("segment");
    attr(&mut no_type, "index", "0");
    assert!(SegmentCfg::from(&no_type).is_err());

    let mut unknown = el("segment");
    attr(&mut unknown, "type", "MoonPhasePattern");
    attr(&mut unknown, "index", "0");
    assert!(matches!(SegmentCfg::from(&unknown), Err(CfgError::UnsupportedSegment(_))));
}

#[test]
fn unsupported_segments_are_skipped_in_lists() {
    let mut list = el("segments");
    let mut unknown = el("segment");
    attr(&mut unknown, "type", "MoonPhasePattern");
    attr(&mut unknown, "index", "0");
    list.children.push(unknown);
    list.children.push(datetime_segment("5"));
    let segs = SegmentCfg::from_multiple(&list).unwrap();
    assert_eq!(segs.len(), 1);
    assert_eq!(segs[0].seg_type, "DateTimePattern");
}

#[test]
fn negative_indexes_go_to_the_front() {
    let mut list = el("segments");
    let mut first = datetime_segment("0");
    first.children.push(el_text("defaultValue", "a"));
    list.children.push(first);
    let mut neg = datetime_segment("-1");
    neg.children.push(el_text("defaultValue", "b"));
    list.children.push(neg);
    let segs = SegmentCfg::from_multiple(&list).unwrap();
    assert_eq!(segs.len(), 2);
    match (&segs[0].cfg, &segs[1].cfg) {
        (SegmentType::DateTimePattern(b), SegmentType::DateTimePattern(a)) => {
            assert_eq!(b.default_value, "b");
            assert_eq!(a.default_value, "a");
        }
        _ => panic!("expected two datetime segments"),
    }
}

#[test]
fn whole_document_round_trip() {
    let mut make_model = el("segment");
    attr(&mut make_model, "type", "MakeModelPattern");
    attr(&mut make_model, "index", "0");
    make_model.children.push(el_text("replaceSpaces", "true"));
    make_model.children.push(el_text("fallback", "unknown_device"));

    let mut simple = el("segment");
    attr(&mut simple, "type", "SimpleFileTypePattern");
    attr(&mut simple, "index", "0");
    simple.children.push(el_text("defaultVideo", "clips"));

    let mut supported_segments = el("segments");
    supported_segments.children.push(make_model);
    supported_segments.children.push(datetime_segment("1"));
    let mut supported = el("supported");
    supported.children.push(supported_segments);

    let mut fallback_segments = el("segments");
    fallback_segments.children.push(simple);
    let mut fallback = el("fallback");
    fallback.children.push(fallback_segments);

    let mut dup = el_text("duplicateResolution", "rename");
    attr(&mut dup, "strategy", "compare");

    let mut sorter = el("sorter");
    sorter.children.push(supported);
    sorter.children.push(fallback);
    sorter.children.push(dup);

    let mut root = el("config");
    root.children.push(sorter);

    let cfg = RootCfg::from(&root).unwrap();
    assert!(matches!(
        cfg.get_sorter_cfg().dup_handling,
        DuplicateResolution::Compare(Comparison::Rename)
    ));
    let builder = cfg.generate_sorter_builder().unwrap();
    assert_eq!(builder.segments.len(), 2);
    assert_eq!(builder.fallback_segments.len(), 1);
    match &builder.fallback_segments[0] {
        PatternElement::SimpleFileType(p) => assert_eq!(p.video(), "clips"),
        _ => panic!("expected the coarse file-type fallback"),
    }

    // a root without a sorter is rejected
    assert!(RootCfg::from(&el("config")).is_err());
}

#[test]
fn attributes_resolve_first_match() {
    let mut e = el("x");
    attr(&mut e, "a", "1");
    attr(&mut e, "a", "2");
    attr(&mut e, "b", "3");
    assert_eq!(e.attr("a").map(|s| s.as_str()), Some("1"));
    assert_eq!(e.attr("b").map(|s| s.as_str()), Some("3"));
    assert!(e.attr("c").is_none());
}

#[test]
fn scanner_configuration() {
    assert!(Scanner::new("missing", false).is_err());
    let mut s = Scanner::new("in", true).unwrap();
    assert_eq!(s.get_max_depth(), 10);
    s.set_max_depth(3);
    assert_eq!(s.get_max_depth(), 3);
    s.ignore_unknown_types(true);
    assert!(s.keeps_file(&FileType::JPEG));
    assert!(!s.keeps_file(&FileType::Other));
    s.ignore_unknown_types(false);
    assert!(s.keeps_file(&FileType::Other));
    assert!(matches!(PathBox::from(String::from("d"), true), PathBox::Directory(_)));
    assert!(matches!(PathBox::from(String::from("f"), false), PathBox::File(_)));
}
