use fap::listing::{build_listing, sort_by_path, DirEntryInfo, RowKind, StoreEmpty, Row};

fn entry(name: &str, is_dir: bool) -> DirEntryInfo {
    DirEntryInfo { name: name.to_string(), path: format!("/home/u/{}", name), is_dir }
}

#[test]
fn listing_orders_directories_then_files() {
    let entries = vec![entry("z.txt", false), entry("b", true), entry("m.txt", false), entry("a", true)];
    let rows = build_listing(&"/home/u".to_string(), Some("/home".to_string()), entries);
    let sep = "=".repeat(48);
    let texts: Vec<&str> = rows.iter().map(|r| r.text.as_str()).collect();
    assert_eq!(texts, [sep.as_str(), "/home/u", sep.as_str(), "../", "./", "a/", "b/", "m.txt", "z.txt"]);
    assert_eq!(rows[5].target.as_deref(), Some("/home/u/a"));
    assert_eq!(rows[8].target.as_deref(), Some("/home/u/z.txt"));
    assert_eq!(rows[3].target.as_deref(), Some("/home"));
    assert_eq!(rows[4].target, None);
    let kinds: Vec<RowKind> = rows.iter().map(|r| r.kind).collect();
    assert_eq!(
        kinds,
        [RowKind::Separator, RowKind::Title, RowKind::Separator, RowKind::Parent, RowKind::Current,
         RowKind::Directory, RowKind::Directory, RowKind::File, RowKind::File]
    );
}

#[test]
fn listing_widths() {
    let entries = vec![entry("abc", true), entry("e\u{301}t\u{e9}.md", false), entry("dé", true)];
    let rows = build_listing(&"/home/u".to_string(), Some("/home".to_string()), entries);
    let widths: Vec<usize> = rows.iter().map(|r| r.width).collect();
    // "e" with a combining accent is one grapheme.
    assert_eq!(widths, [48, 7, 48, 3, 2, 4, 3, 6]);
    assert_eq!(rows[6].text, "dé/");
}

#[test]
fn listing_of_root_has_no_parent_row() {
    let rows = build_listing(&"/".to_string(), None, vec![]);
    assert_eq!(rows.len(), 4);
    assert_eq!(rows[3].text, "./");
    assert_eq!(rows[3].width, 2);
    assert_eq!(rows[1].width, 1);
}

#[test]
fn title_width_counts_graphemes() {
    let rows = build_listing(&"/tmp/cafe\u{301}".to_string(), Some("/tmp".to_string()), vec![]);
    assert_eq!(rows[1].width, 9);
    assert_eq!(rows[1].text, "/tmp/cafe\u{301}");
}

#[test]
fn sort_by_path_orders_bytes() {
    let sorted = sort_by_path(vec![entry("b", false), entry("B", false), entry("a.b", false), entry("a", false)]);
    let names: Vec<&str> = sorted.iter().map(|e| e.name.as_str()).collect();
    assert_eq!(names, ["B", "a", "a.b", "b"]);
}

#[test]
fn append_empty_adds_blank_row() {
    let mut rows: Vec<Row> = build_listing(&"/".to_string(), None, vec![]);
    rows.append_empty();
    assert_eq!(rows.len(), 5);
    assert_eq!(rows[4].text, " ");
    assert_eq!(rows[4].width, 1);
    assert_eq!(rows[4].target, None);
}
