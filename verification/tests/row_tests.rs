use zen::editor::SearchDirection;
use zen::row::is_separator;
use zen::row::Row;

fn text(row: &Row) -> &str {
    row.string.as_str()
}

#[test]
fn from_counts_graphemes() {
    let row = Row::from("hello");
    assert_eq!(row.len(), 5);
    assert!(!row.is_empty());
    let empty = Row::default();
    assert_eq!(empty.len(), 0);
    assert!(empty.is_empty());
}

#[test]
fn from_counts_multi_codepoint_clusters() {
    // Three clusters, each of two or three code points.
    let row = Row::from("a\u{310}e\u{301}o\u{308}\u{332}");
    assert_eq!(row.len(), 3);
}

#[test]
fn insert_in_middle() {
    let mut row = Row::from("helo");
    row.insert(2, 'l');
    assert_eq!(text(&row), "hello");
    assert_eq!(row.len(), 5);
}

#[test]
fn insert_past_end_appends() {
    let mut row = Row::from("ab");
    row.insert(99, 'c');
    assert_eq!(text(&row), "abc");
    assert_eq!(row.len(), 3);
}

#[test]
fn insert_respects_cluster_boundaries() {
    let mut row = Row::from("a\u{310}e\u{301}");
    row.insert(1, 'x');
    assert_eq!(text(&row), "a\u{310}xe\u{301}");
    assert_eq!(row.len(), 3);
}

#[test]
fn grapheme_round_trip_ascii() {
    let mut row = Row::from("abc");
    row.insert(1, 'x');
    row.delete(1);
    assert_eq!(text(&row), "abc");
    assert_eq!(row.len(), 3);
}

#[test]
fn grapheme_round_trip_multi_codepoint() {
    let original = "a\u{310}e\u{301}o\u{308}\u{332}";
    let mut row = Row::from(original);
    row.insert(2, 'x');
    assert_eq!(row.len(), 4);
    row.delete(2);
    assert_eq!(text(&row), original);
    assert_eq!(row.len(), 3);
}

#[test]
fn length_invariant_after_mutations() {
    let mut row = Row::from("e");
    // A combining acute merges with the base letter into one cluster.
    row.insert(1, '\u{301}');
    let recount = Row::from(text(&row));
    assert_eq!(row.len(), recount.len());
    assert_eq!(row.len(), 1);
    row.insert(0, 'x');
    let recount = Row::from(text(&row));
    assert_eq!(row.len(), recount.len());
    row.delete(0);
    let recount = Row::from(text(&row));
    assert_eq!(row.len(), recount.len());
}

#[test]
fn delete_past_end_is_no_op() {
    let mut row = Row::from("ab");
    row.delete(5);
    assert_eq!(text(&row), "ab");
    assert_eq!(row.len(), 2);
}

#[test]
fn split_append_inverse() {
    for k in 0..=5usize {
        let mut row = Row::from("ab\u{0063}\u{0327}de");
        let tail = row.split(k);
        let mut joined = String::from(text(&row));
        joined.push_str(text(&tail));
        assert_eq!(joined, "ab\u{0063}\u{0327}de");
        row.append(&tail);
        assert_eq!(text(&row), "ab\u{0063}\u{0327}de");
        assert_eq!(row.len(), 5);
    }
}

#[test]
fn split_keeps_cluster_counts() {
    let mut row = Row::from("hello world");
    let tail = row.split(5);
    assert_eq!(text(&row), "hello");
    assert_eq!(text(&tail), " world");
    assert_eq!(row.len(), 5);
    assert_eq!(tail.len(), 6);
}

#[test]
fn append_concatenates() {
    let mut row = Row::from("ab");
    let other = Row::from("cd");
    row.append(&other);
    assert_eq!(text(&row), "abcd");
    assert_eq!(text(&other), "cd");
    assert_eq!(row.len(), 4);
}

#[test]
fn insert_str_splices() {
    let mut row = Row::from("helrld");
    row.insert_str(3, "lo wo");
    assert_eq!(text(&row), "hello world");
    let mut row = Row::from("ab");
    row.insert_str(10, "cd");
    assert_eq!(text(&row), "abcd");
}

#[test]
fn render_clamps_range() {
    let row = Row::from("hello world");
    assert_eq!(row.render(0, 5), "hello");
    assert_eq!(row.render(6, 999), "world");
    assert_eq!(row.render(8, 3), "");
    assert_eq!(row.render(0, 0), "");
}

#[test]
fn render_counts_clusters_not_bytes() {
    let row = Row::from("a\u{310}e\u{301}o\u{308}\u{332}");
    assert_eq!(row.render(1, 2), "e\u{301}");
}

#[test]
fn as_bytes_gives_utf8() {
    let row = Row::from("ab\u{e9}");
    assert_eq!(row.as_bytes(), "ab\u{e9}".as_bytes());
}

#[test]
fn whitespace_len_counts_leading() {
    assert_eq!(Row::from("   abc").whitespace_len(), 3);
    assert_eq!(Row::from("abc").whitespace_len(), 0);
    assert_eq!(Row::from("\t x").whitespace_len(), 2);
    assert_eq!(Row::from("").whitespace_len(), 0);
}

#[test]
fn find_forward_in_row() {
    let row = Row::from("foo bar foo");
    assert_eq!(row.find("foo", 0, SearchDirection::Forward), Some(0));
    assert_eq!(row.find("foo", 1, SearchDirection::Forward), Some(8));
    assert_eq!(row.find("zap", 0, SearchDirection::Forward), None);
    assert_eq!(row.find("foo", 9, SearchDirection::Forward), None);
    assert_eq!(row.find("", 0, SearchDirection::Forward), None);
    assert_eq!(row.find("foo", 99, SearchDirection::Forward), None);
}

#[test]
fn find_backward_window_excludes_end() {
    let row = Row::from("foo bar foo");
    // The window holds the first 10 columns only, so the trailing match
    // does not fit and the leading one is found.
    assert_eq!(row.find("foo", 10, SearchDirection::Backward), Some(0));
    assert_eq!(row.find("foo", 11, SearchDirection::Backward), Some(8));
    assert_eq!(row.find("bar", 5, SearchDirection::Backward), None);
    assert_eq!(row.find("bar", 7, SearchDirection::Backward), Some(4));
}

#[test]
fn find_translates_grapheme_columns() {
    // Each of the first two clusters is two code points wide; a byte-level
    // match is reported in grapheme columns.
    let row = Row::from("a\u{310}e\u{301}xy");
    assert_eq!(row.find("xy", 0, SearchDirection::Forward), Some(2));
    // A match that starts at a cluster boundary may cover part of a
    // cluster.
    assert_eq!(row.find("e", 0, SearchDirection::Forward), Some(1));
    // A match that would start inside a cluster does not count.
    assert_eq!(row.find("\u{301}", 0, SearchDirection::Forward), None);
}

#[test]
fn separator_classification() {
    assert!(is_separator(' '));
    assert!(is_separator('.'));
    assert!(is_separator(','));
    assert!(is_separator('\t'));
    assert!(!is_separator('a'));
    assert!(!is_separator('7'));
    assert!(!is_separator('\u{e9}'));
}
