use irock_programmer::{extract_variant, find_variant_asset, str_eq, str_lt, variant_tags};

#[test]
fn variant_extraction_convention() {
    assert_eq!(extract_variant("fw-app-v2.bin"), Some("v2".to_string()));
    assert_eq!(extract_variant("fw-app.dfu"), None);
    assert_eq!(extract_variant("noextension"), None);
    assert_eq!(extract_variant("a-b-c.hex"), Some("c".to_string()));
}

#[test]
fn variant_extraction_edge_shapes() {
    assert_eq!(extract_variant("nohyphen.bin"), None);
    assert_eq!(extract_variant("fw-.bin"), Some("".to_string()));
    assert_eq!(extract_variant("fw-app-v2.zip"), None);
    assert_eq!(extract_variant("fw-app-v2.bin.txt"), None);
    assert_eq!(extract_variant("-x.hex"), Some("x".to_string()));
}

#[test]
fn variant_tags_deduplicates_and_sorts() {
    let assets: Vec<String> = ["fw-board-B.bin", "fw-board-A.bin", "fw-board-B.hex", "fw.dfu"]
        .iter()
        .map(|a| a.to_string())
        .collect();
    let tags = variant_tags(&assets);
    assert_eq!(tags, vec!["A".to_string(), "B".to_string()]);
}

#[test]
fn variant_tags_empty_when_nothing_matches() {
    let assets: Vec<String> = ["fw.dfu", "notes.txt"].iter().map(|a| a.to_string()).collect();
    let tags = variant_tags(&assets);
    assert!(tags.is_empty());
}

#[test]
fn find_variant_asset_picks_first_match() {
    let assets: Vec<String> = ["fw.dfu", "fw-A.bin", "spare-A.bin"].iter().map(|a| a.to_string()).collect();
    assert_eq!(find_variant_asset(&assets, "A"), Some(1));
    assert_eq!(find_variant_asset(&assets, "B"), None);
}

#[test]
fn string_order_helpers() {
    assert!(str_lt("A", "B"));
    assert!(!str_lt("B", "A"));
    assert!(!str_lt("A", "A"));
    assert!(str_lt("A", "AB"));
    assert!(str_lt("", "A"));
    assert!(str_lt("v1", "v10"));
    assert!(str_lt("v10", "v2"));
    assert!(str_eq("abc", "abc"));
    assert!(!str_eq("abc", "abd"));
    assert!(!str_eq("abc", "ab"));
}
