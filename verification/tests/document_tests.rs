use zen::document::extension_of;
use zen::document::Document;
use zen::editor::Position;
use zen::editor::SearchDirection;
use zen::filetype::FileType;

fn doc(lines: &[&str]) -> Document {
    let lines: Vec<String> = lines.iter().map(|l| l.to_string()).collect();
    Document::open("test.rs", &lines)
}

fn texts(d: &Document) -> Vec<String> {
    d.rows.iter().map(|r| r.string.clone()).collect()
}

#[test]
fn open_builds_rows() {
    let d = doc(&["alpha", "beta"]);
    assert_eq!(d.len(), 2);
    assert!(!d.is_empty());
    assert!(!d.is_dirty());
    assert_eq!(d.file_type(), "rs");
    assert_eq!(d.row(0).unwrap().string, "alpha");
    assert_eq!(d.row(1).unwrap().string, "beta");
    assert!(d.row(2).is_none());
}

#[test]
fn default_is_empty_and_clean() {
    let d = Document::default();
    assert_eq!(d.len(), 0);
    assert!(d.is_empty());
    assert!(!d.is_dirty());
    assert!(d.file_name.is_none());
}

#[test]
fn extension_of_takes_last_dot() {
    assert_eq!(extension_of("a.rs"), "rs");
    assert_eq!(extension_of("archive.tar.gz"), "gz");
    assert_eq!(extension_of("noext"), "Unknown");
    assert_eq!(extension_of("trailing."), "");
}

#[test]
fn file_type_names() {
    assert_eq!(FileType::from("main.rs").name(), "Rust");
    assert_eq!(FileType::from("notes.txt").name(), "No filetype");
    assert_eq!(FileType::default().name(), "No filetype");
}

#[test]
fn insert_into_row_sets_dirty() {
    let mut d = doc(&["helo"]);
    d.insert(&Position { x: 2, y: 0 }, 'l');
    assert_eq!(texts(&d), vec!["hello"]);
    assert!(d.is_dirty());
}

#[test]
fn insert_past_last_row_is_ignored() {
    let mut d = doc(&["a"]);
    d.insert(&Position { x: 0, y: 5 }, 'x');
    assert_eq!(texts(&d), vec!["a"]);
    assert!(!d.is_dirty());
}

#[test]
fn insert_on_row_past_end_starts_new_row() {
    let mut d = doc(&["a"]);
    d.insert(&Position { x: 0, y: 1 }, 'b');
    assert_eq!(texts(&d), vec!["a", "b"]);
    assert!(d.is_dirty());
}

#[test]
fn newline_split() {
    let mut d = doc(&["hello world"]);
    d.insert(&Position { x: 5, y: 0 }, '\n');
    assert_eq!(texts(&d), vec!["hello", " world"]);
    assert!(d.is_dirty());
}

#[test]
fn newline_at_document_end_appends_empty_row() {
    let mut d = doc(&["a"]);
    d.insert_newline(&Position { x: 0, y: 1 });
    assert_eq!(texts(&d), vec!["a", ""]);
}

#[test]
fn delete_at_end_of_line_merges() {
    let mut d = doc(&["ab", "cd"]);
    d.delete(&Position { x: 2, y: 0 });
    assert_eq!(texts(&d), vec!["abcd"]);
    assert!(d.is_dirty());
}

#[test]
fn delete_grapheme_in_row() {
    let mut d = doc(&["abc"]);
    d.delete(&Position { x: 1, y: 0 });
    assert_eq!(texts(&d), vec!["ac"]);
}

#[test]
fn delete_past_last_row_is_ignored() {
    let mut d = doc(&["ab"]);
    d.delete(&Position { x: 0, y: 3 });
    assert_eq!(texts(&d), vec!["ab"]);
    assert!(!d.is_dirty());
}

#[test]
fn delete_at_end_of_last_row_is_no_op_on_content() {
    let mut d = doc(&["ab"]);
    d.delete(&Position { x: 2, y: 0 });
    assert_eq!(texts(&d), vec!["ab"]);
}

#[test]
fn search_wraps_forward_and_backward() {
    let d = doc(&["foo bar", "baz foo"]);
    let fwd = d.find("foo", &Position { x: 1, y: 0 }, SearchDirection::Forward);
    assert_eq!(fwd, Some(Position { x: 4, y: 1 }));
    let bwd = d.find("foo", &Position { x: 4, y: 1 }, SearchDirection::Backward);
    assert_eq!(bwd, Some(Position { x: 0, y: 0 }));
}

#[test]
fn search_finds_first_in_scan_order() {
    let d = doc(&["xx", "aXbXc"]);
    assert_eq!(
        d.find("X", &Position { x: 0, y: 0 }, SearchDirection::Forward),
        Some(Position { x: 1, y: 1 })
    );
    assert_eq!(
        d.find("X", &Position { x: 2, y: 1 }, SearchDirection::Forward),
        Some(Position { x: 3, y: 1 })
    );
}

#[test]
fn search_misses() {
    let d = doc(&["foo"]);
    assert_eq!(d.find("zap", &Position { x: 0, y: 0 }, SearchDirection::Forward), None);
    assert_eq!(d.find("foo", &Position { x: 0, y: 5 }, SearchDirection::Forward), None);
    assert_eq!(d.find("zap", &Position { x: 2, y: 0 }, SearchDirection::Backward), None);
}

#[test]
fn backward_search_excludes_past_origin() {
    let d = doc(&["abcabc"]);
    // From column 2, the window holds columns 0..3: only the first "abc".
    assert_eq!(
        d.find("abc", &Position { x: 2, y: 0 }, SearchDirection::Backward),
        Some(Position { x: 0, y: 0 })
    );
    // From column 5 the window holds 0..6: the later match wins.
    assert_eq!(
        d.find("abc", &Position { x: 5, y: 0 }, SearchDirection::Backward),
        Some(Position { x: 3, y: 0 })
    );
}

#[test]
fn save_content_joins_rows_with_newlines() {
    let d = doc(&["ab", "cd"]);
    assert_eq!(d.save_content(), "ab\ncd\n");
    let empty = Document::default();
    assert_eq!(empty.save_content(), "");
}

#[test]
fn mark_saved_clears_dirty_and_rederives_tag() {
    let mut d = doc(&["x"]);
    d.insert(&Position { x: 0, y: 0 }, 'y');
    assert!(d.is_dirty());
    d.file_name = Some("renamed.txt".to_string());
    d.mark_saved();
    assert!(!d.is_dirty());
    assert_eq!(d.file_type(), "txt");
}

#[test]
fn highlight_leaves_text_alone() {
    let mut d = doc(&["fn main() {}", "let x = 1;"]);
    d.highlight(0, 2);
    assert_eq!(texts(&d), vec!["fn main() {}", "let x = 1;"]);
    assert!(!d.is_dirty());
    // Rust source under the bundled syntax gets one tag per grapheme.
    assert_eq!(d.rows[0].styles.len(), d.rows[0].len());
}

#[test]
fn highlight_touches_only_the_range() {
    let mut d = doc(&["fn a() {}", "fn b() {}"]);
    d.highlight(0, 1);
    assert!(d.rows[1].styles.is_empty());
}

#[test]
fn highlight_without_known_syntax_changes_nothing() {
    let lines: Vec<String> = vec!["plain text".to_string()];
    let mut d = Document::open("notes.zzz", &lines);
    d.highlight(0, 1);
    assert!(d.rows[0].styles.is_empty());
}
