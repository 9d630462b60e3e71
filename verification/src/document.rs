//! A document: an ordered sequence of rows with file metadata, buffer-wide
//! edits, bidirectional search and viewport-limited highlighting.
//!
//! Reading and writing files is the persistence collaborator's business;
//! the document is built from lines already read, and hands back the exact
//! content to be written.

use vstd::prelude::*;
use vstd::string::StrSliceExecFns;
use vstd::string::StringExecFns;

use crate::editor::Position;
use crate::editor::SearchDirection;
use crate::graphemes::grapheme_count;
use crate::graphemes::grapheme_prefix;
use crate::graphemes::grapheme_suffix;
use crate::graphemes::lemma_prefix_suffix;
use crate::graphemes::push_char;
use crate::highlight::find_syntax_by_extension;
use crate::highlight::highlight_line_spans;
use crate::highlight::load_default_syntaxes;
use crate::highlight::load_default_themes;
use crate::highlight::new_highlighter;
use crate::highlight::style_tag;
use crate::highlight::theme_by_name;
use crate::row::grapheme_match;
use crate::row::row_clamp;
use crate::row::row_delete_text;
use crate::row::row_insert_text;
use crate::row::Row;
use crate::row::StyleTag;

verus! {

/// The index of the last `'.'` in a file name, or `-1` when it has none.
pub open spec fn last_dot(name: Seq<char>) -> int
    decreases name.len(),
{
    if name.len() == 0 {
        -1
    } else if name[name.len() - 1] == '.' {
        name.len() - 1
    } else {
        last_dot(name.drop_last())
    }
}

/// The extension of a file name: the characters after its last `'.'`, or
/// `"Unknown"` when it has none.
pub open spec fn spec_extension(name: Seq<char>) -> Seq<char> {
    if last_dot(name) >= 0 {
        name.skip(last_dot(name) + 1)
    } else {
        "Unknown"@
    }
}

/// The extension of a file name, as `spec_extension` describes it.
pub fn extension_of(name: &str) -> (r: String)
    ensures
        r@ == spec_extension(name@),
{
    let ghost s = name@;
    let n = name.unicode_len();
    let mut i: usize = n;
    proof {
        assert(s.take(n as int) =~= s);
    }
    while i > 0
        invariant
            0 <= i <= n,
            n == s.len(),
            s == name@,
            last_dot(s) == last_dot(s.take(i as int)),
        decreases i,
    {
        proof {
            assert(s.take(i as int).drop_last() =~= s.take(i - 1));
        }
        if name.get_char(i - 1) == '.' {
            proof {
                assert(s.skip(i as int) =~= spec_extension(s));
            }
            return name.substring_char(i, n).to_owned();
        }
        i = i - 1;
    }
    proof {
        assert(s.take(0) =~= Seq::<char>::empty());
    }
    String::from_str("Unknown")
}

/// The rows of a document after inserting a newline at `{x, y}`: past the
/// last row nothing happens; on the row one past the end an empty row is
/// appended; otherwise row `y` is split at column `x` and its tail becomes
/// the next row.
pub open spec fn doc_insert_newline(rows: Seq<Seq<char>>, y: int, x: int) -> Seq<Seq<char>> {
    if y > rows.len() {
        rows
    } else if y == rows.len() {
        rows.push(Seq::<char>::empty())
    } else {
        let s = rows[y];
        let k = row_clamp(s, x);
        rows.update(y, grapheme_prefix(s, k)).insert(y + 1, grapheme_suffix(s, k))
    }
}

/// The rows of a document after inserting character `c` at `{x, y}`.
pub open spec fn doc_insert(rows: Seq<Seq<char>>, y: int, x: int, c: char) -> Seq<Seq<char>> {
    if y > rows.len() {
        rows
    } else if c == '\n' {
        doc_insert_newline(rows, y, x)
    } else if y == rows.len() {
        rows.push(seq![c])
    } else {
        rows.update(y, row_insert_text(rows[y], x, c))
    }
}

/// The rows of a document after deleting at `{x, y}`: past the last row
/// nothing happens; at the end of a row that has a successor the two rows
/// merge; otherwise the grapheme at column `x` of row `y` goes.
pub open spec fn doc_delete(rows: Seq<Seq<char>>, y: int, x: int) -> Seq<Seq<char>> {
    if y >= rows.len() {
        rows
    } else if x == grapheme_count(rows[y]) && y + 1 < rows.len() {
        rows.update(y, rows[y] + rows[y + 1]).remove(y + 1)
    } else {
        rows.update(y, row_delete_text(rows[y], x))
    }
}

/// A forward-scan hit: a cluster-aligned match of `q` that starts in row
/// `y` at column `x`, where the scan starts at `{atx, aty}` and each later
/// row is searched from its first column.
pub open spec fn doc_fwd_match(
    rows: Seq<Seq<char>>,
    q: Seq<char>,
    aty: int,
    atx: int,
    y: int,
    x: int,
) -> bool {
    &&& aty <= y < rows.len()
    &&& (y == aty ==> x >= atx)
    &&& grapheme_match(rows[y], q, x, grapheme_count(rows[y]) as int)
}

/// The window a backward scan searches in row `y`: the whole row, except
/// that the anchor row stops at column `atx + 1`, so no match reaches past
/// the origin.
pub open spec fn doc_bwd_window(rows: Seq<Seq<char>>, aty: int, atx: int, y: int) -> int {
    let n = grapheme_count(rows[y]) as int;
    if y == aty && atx + 1 <= n {
        atx + 1
    } else {
        n
    }
}

/// A backward-scan hit: a cluster-aligned match of `q` that starts in row
/// `y` at column `x` and lies within that row's backward window.
pub open spec fn doc_bwd_match(
    rows: Seq<Seq<char>>,
    q: Seq<char>,
    aty: int,
    atx: int,
    y: int,
    x: int,
) -> bool {
    &&& 0 <= y <= aty
    &&& grapheme_match(rows[y], q, x, doc_bwd_window(rows, aty, atx, y))
}

/// The exact bytes-as-characters a document writes out: each row's text
/// followed by one newline, in row order.
pub open spec fn doc_content(rows: Seq<Seq<char>>) -> Seq<char> {
    rows.map_values(|r: Seq<char>| r.push('\n')).flatten()
}

/// A file, existing or new, as an ordered sequence of rows.
pub struct Document {
    /// The file's name; absent for a buffer never saved.
    pub file_name: Option<String>,
    /// The extension the language tag derives from; `"Unknown"` without one.
    pub file_type: String,
    /// The file's contents, one row per line.
    pub rows: Vec<Row>,
    /// Whether the document changed since it was opened or last saved.
    pub dirty: bool,
    /// The highlight collaborator's syntax definitions.
    pub syntax_set: syntect::parsing::SyntaxSet,
    /// The highlight collaborator's themes.
    pub theme_set: syntect::highlighting::ThemeSet,
}

impl Document {
    /// Every row keeps its length/segmentation invariant.
    pub open spec fn wf(self) -> bool {
        forall|i: int| 0 <= i < self.rows@.len() ==> (#[trigger] self.rows@[i]).wf()
    }

    /// The texts of the document's rows.
    pub open spec fn texts(self) -> Seq<Seq<char>> {
        self.rows@.map_values(|r: Row| r.string@)
    }

    /// Builds a document from the lines of a file that was read, one row
    /// per line; the document starts clean.
    pub fn open(file_name: &str, lines: &Vec<String>) -> (r: Document)
        ensures
            r.wf(),
            r.texts() == lines@.map_values(|l: String| l@),
            r.file_name matches Some(n) && n@ == file_name@,
            r.file_type@ == spec_extension(file_name@),
            !r.dirty,
    {
        let mut rows: Vec<Row> = Vec::new();
        let mut i: usize = 0;
        while i < lines.len()
            invariant
                0 <= i <= lines@.len(),
                rows@.len() == i,
                forall|j: int| 0 <= j < i ==> (#[trigger] rows@[j]).wf(),
                forall|j: int| 0 <= j < i ==> rows@[j].string@ == lines@[j]@,
            decreases lines@.len() - i,
        {
            rows.push(Row::from(lines[i].as_str()));
            i = i + 1;
        }
        let r = Document {
            file_name: Some(file_name.to_owned()),
            file_type: extension_of(file_name),
            rows,
            dirty: false,
            syntax_set: load_default_syntaxes(),
            theme_set: load_default_themes(),
        };
        proof {
            assert(r.texts() =~= lines@.map_values(|l: String| l@));
        }
        r
    }

    /// The extension the document's language tag derives from.
    pub fn file_type(&self) -> (r: String)
        ensures
            r@ == self.file_type@,
    {
        self.file_type.clone()
    }

    /// The row at an index, or nothing past the last row.
    pub fn row(&self, index: usize) -> (r: Option<&Row>)
        ensures
            match r {
                Some(row) => index < self.rows@.len() && *row == self.rows@[index as int],
                None => index >= self.rows@.len(),
            },
    {
        if index < self.rows.len() {
            Some(&self.rows[index])
        } else {
            None
        }
    }

    /// Whether the document has no rows at all.
    pub fn is_empty(&self) -> (r: bool)
        ensures
            r == (self.rows@.len() == 0),
    {
        self.rows.is_empty()
    }

    /// How many rows the document holds.
    pub fn len(&self) -> (r: usize)
        ensures
            r == self.rows@.len(),
    {
        self.rows.len()
    }

    /// Whether the document changed since it was opened or last saved.
    pub fn is_dirty(&self) -> (r: bool)
        ensures
            r == self.dirty,
    {
        self.dirty
    }

    /// Inserts a character at a position. Positions past the last row are
    /// ignored; a newline splits the row; on the row one past the end a new
    /// row is started. Marks the document dirty on success.
    pub fn insert(&mut self, at: &Position, c: char)
        requires
            old(self).wf(),
        ensures
            final(self).wf(),
            final(self).texts() == doc_insert(old(self).texts(), at.y as int, at.x as int, c),
            final(self).dirty == if at.y > old(self).rows@.len() {
                old(self).dirty
            } else {
                true
            },
            final(self).file_name == old(self).file_name,
            final(self).file_type == old(self).file_type,
    {
        let ghost rows0 = self.texts();
        if at.y > self.rows.len() {
            return ;
        }
        self.dirty = true;
        if c == '\n' {
            self.insert_newline(at);
        } else if at.y == self.rows.len() {
            let mut row = Row::default();
            row.insert(0, c);
            proof {
                lemma_prefix_suffix(Seq::<char>::empty(), 0);
                assert(row.string@ =~= seq![c]);
            }
            self.rows.push(row);
            proof {
                assert(self.texts() =~= rows0.push(seq![c]));
            }
        } else {
            let row = &mut self.rows[at.y];
            row.insert(at.x, c);
            proof {
                assert(self.texts() =~= rows0.update(
                    at.y as int,
                    row_insert_text(rows0[at.y as int], at.x as int, c),
                ));
            }
        }
    }

    /// Inserts a newline at a position, splitting the addressed row; on the
    /// row one past the end an empty row is appended. Positions past that
    /// are ignored. Marks the document dirty on success.
    pub fn insert_newline(&mut self, at: &Position)
        requires
            old(self).wf(),
        ensures
            final(self).wf(),
            final(self).texts() == doc_insert_newline(old(self).texts(), at.y as int, at.x as int),
            final(self).dirty == if at.y > old(self).rows@.len() {
                old(self).dirty
            } else {
                true
            },
            final(self).file_name == old(self).file_name,
            final(self).file_type == old(self).file_type,
    {
        let ghost rows0 = self.texts();
        if at.y > self.rows.len() {
            return ;
        }
        self.dirty = true;
        if at.y == self.rows.len() {
            self.rows.push(Row::default());
            proof {
                assert(self.texts() =~= rows0.push(Seq::<char>::empty()));
            }
            return ;
        }
        let row = &mut self.rows[at.y];
        let new_row = row.split(at.x);
        self.rows.insert(at.y + 1, new_row);
        proof {
            let k = row_clamp(rows0[at.y as int], at.x as int);
            assert(self.texts() =~= rows0.update(
                at.y as int,
                grapheme_prefix(rows0[at.y as int], k),
            ).insert(at.y + 1, grapheme_suffix(rows0[at.y as int], k)));
        }
    }

    /// Deletes at a position: the grapheme at the addressed column, or,
    /// at the end of a row with a successor, the line break, merging the
    /// next row into this one. Positions past the last row are ignored.
    /// Marks the document dirty on success.
    pub fn delete(&mut self, at: &Position)
        requires
            old(self).wf(),
        ensures
            final(self).wf(),
            final(self).texts() == doc_delete(old(self).texts(), at.y as int, at.x as int),
            final(self).dirty == if at.y >= old(self).rows@.len() {
                old(self).dirty
            } else {
                true
            },
            final(self).file_name == old(self).file_name,
            final(self).file_type == old(self).file_type,
    {
        let ghost rows0 = self.texts();
        let len = self.rows.len();
        if at.y >= len {
            return ;
        }
        self.dirty = true;
        let row_len = self.rows[at.y].len();
        if at.x == row_len && at.y + 1 < len {
            let next_row = self.rows.remove(at.y + 1);
            let row = &mut self.rows[at.y];
            row.append(&next_row);
            proof {
                assert(self.texts() =~= rows0.update(
                    at.y as int,
                    rows0[at.y as int] + rows0[at.y + 1],
                ).remove(at.y + 1));
            }
        } else {
            let row = &mut self.rows[at.y];
            row.delete(at.x);
            proof {
                assert(self.texts() =~= rows0.update(
                    at.y as int,
                    row_delete_text(rows0[at.y as int], at.x as int),
                ));
            }
        }
    }

    /// The exact content a save writes: every row's text followed by one
    /// newline, in row order.
    pub fn save_content(&self) -> (r: String)
        requires
            self.wf(),
        ensures
            r@ == doc_content(self.texts()),
    {
        let ghost lines = self.texts().map_values(|t: Seq<char>| t.push('\n'));
        let mut out = String::new();
        proof {
            assert(lines.subrange(0, 0).flatten() =~= Seq::<char>::empty());
        }
        let mut i: usize = 0;
        while i < self.rows.len()
            invariant
                0 <= i <= self.rows@.len(),
                lines == self.texts().map_values(|t: Seq<char>| t.push('\n')),
                out@ == lines.subrange(0, i as int).flatten(),
            decreases self.rows@.len() - i,
        {
            out.append(self.rows[i].string.as_str());
            push_char(&mut out, '\n');
            proof {
                crate::graphemes::lemma_flatten_subrange_step(lines, 0, i as int);
                assert(lines[i as int] =~= self.texts()[i as int].push('\n'));
                assert(out@ =~= lines.subrange(0, i + 1).flatten());
            }
            i = i + 1;
        }
        proof {
            assert(lines.subrange(0, lines.len() as int) =~= lines);
        }
        out
    }

    /// Document-wide bidirectional search, stateless: every call redoes the
    /// scan from the arguments given.
    ///
    /// Forward: rows `at.y` to the last, the first row searched from column
    /// `at.x` and later rows from column `0`; the first hit in that order
    /// is returned. Backward: rows `at.y` down to `0`, the anchor row's
    /// window stopping at column `at.x + 1` so no match reaches past the
    /// origin; the last hit in forward order — the first one scanning
    /// backward — is returned. `None` when `at.y` lies past the last row or
    /// nothing matches.
    pub fn find(&self, query: &str, at: &Position, direction: SearchDirection) -> (r: Option<
        Position,
    >)
        requires
            self.wf(),
        ensures
            ({
                let rows = self.texts();
                let q = query@;
                let aty = at.y as int;
                let atx = at.x as int;
                match direction {
                    SearchDirection::Forward => match r {
                        Some(p) => aty < rows.len() && doc_fwd_match(
                            rows,
                            q,
                            aty,
                            atx,
                            p.y as int,
                            p.x as int,
                        ) && (forall|yy: int, xx: int|
                            #[trigger] doc_fwd_match(rows, q, aty, atx, yy, xx) ==> (yy > p.y || (yy
                                == p.y && xx >= p.x))),
                        None => forall|yy: int, xx: int|
                            !(#[trigger] doc_fwd_match(rows, q, aty, atx, yy, xx)),
                    },
                    SearchDirection::Backward => match r {
                        Some(p) => aty < rows.len() && doc_bwd_match(
                            rows,
                            q,
                            aty,
                            atx,
                            p.y as int,
                            p.x as int,
                        ) && (forall|yy: int, xx: int|
                            #[trigger] doc_bwd_match(rows, q, aty, atx, yy, xx) ==> (yy < p.y || (yy
                                == p.y && xx <= p.x))),
                        None => aty >= rows.len() || (forall|yy: int, xx: int|
                            !(#[trigger] doc_bwd_match(rows, q, aty, atx, yy, xx))),
                    },
                }
            }),
    {
        let ghost rows = self.texts();
        let ghost aty = at.y as int;
        let ghost atx = at.x as int;
        if at.y >= self.rows.len() {
            return None;
        }
        match direction {
            SearchDirection::Forward => {
                let mut y = at.y;
                let mut x = at.x;
                while y < self.rows.len()
                    invariant
                        self.wf(),
                        rows == self.texts(),
                        aty == at.y as int,
                        atx == at.x as int,
                        direction == SearchDirection::Forward,
                        at.y <= y <= rows.len(),
                        at.y < rows.len(),
                        (y == at.y && x == at.x) || (y > at.y && x == 0),
                        forall|yy: int, xx: int|
                            #[trigger] doc_fwd_match(rows, query@, aty, atx, yy, xx) ==> (yy > y
                                || (yy == y && xx >= x)),
                    decreases rows.len() - y,
                {
                    let row = &self.rows[y];
                    let ghost s = row.string@;
                    let ghost n = grapheme_count(s) as int;
                    proof {
                        assert(rows[y as int] == s);
                    }
                    match row.find(query, x, SearchDirection::Forward) {
                        Some(fx) => {
                            proof {
                                assert(doc_fwd_match(rows, query@, aty, atx, y as int, fx as int));
                                assert forall|yy: int, xx: int|
                                    #[trigger] doc_fwd_match(
                                        rows,
                                        query@,
                                        aty,
                                        atx,
                                        yy,
                                        xx,
                                    ) implies (yy > y || (yy == y && xx >= fx)) by {
                                    if yy == y && xx < fx {
                                        assert(!grapheme_match(s, query@, xx, n));
                                    }
                                }
                            }
                            return Some(Position { x: fx, y });
                        },
                        None => {
                            proof {
                                assert forall|yy: int, xx: int|
                                    #[trigger] doc_fwd_match(
                                        rows,
                                        query@,
                                        aty,
                                        atx,
                                        yy,
                                        xx,
                                    ) implies yy > y by {
                                    if yy == y {
                                        assert(!grapheme_match(s, query@, xx, n));
                                    }
                                }
                            }
                            y = y + 1;
                            x = 0;
                        },
                    }
                }
                proof {
                    assert forall|yy: int, xx: int|
                        !(#[trigger] doc_fwd_match(rows, query@, aty, atx, yy, xx)) by {}
                }
                None
            },
            SearchDirection::Backward => {
                let mut y = at.y;
                let rl = self.rows[y].len();
                let mut x = if at.x < rl {
                    at.x + 1
                } else {
                    rl
                };
                loop
                    invariant
                        self.wf(),
                        rows == self.texts(),
                        aty == at.y as int,
                        atx == at.x as int,
                        direction == SearchDirection::Backward,
                        aty < rows.len(),
                        0 <= y <= at.y,
                        x as int == doc_bwd_window(rows, aty, atx, y as int),
                        forall|yy: int, xx: int|
                            #[trigger] doc_bwd_match(rows, query@, aty, atx, yy, xx) ==> (yy < y
                                || (yy == y && xx < x)),
                    decreases y,
                {
                    let row = &self.rows[y];
                    let ghost s = row.string@;
                    proof {
                        assert(rows[y as int] == s);
                    }
                    match row.find(query, x, SearchDirection::Backward) {
                        Some(fx) => {
                            proof {
                                assert(doc_bwd_match(rows, query@, aty, atx, y as int, fx as int));
                                assert forall|yy: int, xx: int|
                                    #[trigger] doc_bwd_match(
                                        rows,
                                        query@,
                                        aty,
                                        atx,
                                        yy,
                                        xx,
                                    ) implies (yy < y || (yy == y && xx <= fx)) by {
                                    if yy == y && xx > fx {
                                        assert(!grapheme_match(s, query@, xx, x as int));
                                    }
                                }
                            }
                            return Some(Position { x: fx, y });
                        },
                        None => {
                            proof {
                                assert forall|yy: int, xx: int|
                                    #[trigger] doc_bwd_match(
                                        rows,
                                        query@,
                                        aty,
                                        atx,
                                        yy,
                                        xx,
                                    ) implies yy < y by {
                                    if yy == y {
                                        assert(!grapheme_match(s, query@, xx, x as int));
                                    }
                                }
                            }
                            if y == 0 {
                                return None;
                            }
                            y = y - 1;
                            let row2 = &self.rows[y];
                            proof {
                                assert(rows[y as int] == row2.string@);
                            }
                            x = row2.len();
                        },
                    }
                }
            },
        }
    }

    /// Requests styling for exactly the rows whose index falls in
    /// `[start, end)`, clamped to the document; rows outside that range are
    /// untouched. Styling is computed by the highlight collaborator; when
    /// the document's extension names no known syntax, or no theme is
    /// found, nothing changes. Texts, lengths and file state never change.
    pub fn highlight(&mut self, start: usize, end: usize)
        requires
            old(self).wf(),
        ensures
            final(self).wf(),
            final(self).texts() == old(self).texts(),
            final(self).dirty == old(self).dirty,
            final(self).file_name == old(self).file_name,
            final(self).file_type == old(self).file_type,
            final(self).rows@.len() == old(self).rows@.len(),
            forall|i: int|
                0 <= i < final(self).rows@.len() && !(start <= i < end) ==> final(self).rows@[i]
                    == old(self).rows@[i],
    {
        let ghost rows0 = self.rows@;
        let syntax = find_syntax_by_extension(&self.syntax_set, self.file_type.as_str());
        match syntax {
            None => {
                proof {
                    assert(self.texts() =~= old(self).texts());
                }
            },
            Some(sr) => {
                let theme = theme_by_name(&self.theme_set, "base16-ocean.dark");
                match theme {
                    None => {
                        proof {
                            assert(self.texts() =~= old(self).texts());
                        }
                    },
                    Some(t) => {
                        let mut h = new_highlighter(sr, t);
                        let e = if end > self.rows.len() {
                            self.rows.len()
                        } else {
                            end
                        };
                        let mut i = start;
                        while i < e
                            invariant
                                start <= i,
                                i <= e || i == start,
                                e <= rows0.len(),
                                self.rows@.len() == rows0.len(),
                                self.dirty == old(self).dirty,
                                self.file_name == old(self).file_name,
                                self.file_type == old(self).file_type,
                                forall|j: int|
                                    0 <= j < rows0.len() && !(start <= j < i)
                                        ==> #[trigger] self.rows@[j] == rows0[j],
                                forall|j: int|
                                    start <= j < i ==> (#[trigger] self.rows@[j]).string@
                                        == rows0[j].string@ && self.rows@[j].wf(),
                                forall|j: int| 0 <= j < rows0.len() ==> (#[trigger] rows0[j]).wf(),
                            decreases e - i,
                        {
                            let spans = highlight_line_spans(
                                &mut h,
                                self.rows[i].string.as_str(),
                                &self.syntax_set,
                            );
                            match spans {
                                Some(sp) => {
                                    let mut tagged: Vec<(StyleTag, String)> = Vec::new();
                                    let mut j: usize = 0;
                                    while j < sp.len()
                                        decreases sp@.len() - j,
                                    {
                                        tagged.push((style_tag(&sp[j].0), sp[j].1.clone()));
                                        j = j + 1;
                                    }
                                    let row = &mut self.rows[i];
                                    row.highlight(&tagged);
                                },
                                None => {},
                            }
                            i = i + 1;
                        }
                        proof {
                            assert(self.texts() =~= old(self).texts());
                        }
                    },
                }
            },
        }
    }

    /// Records a fully successful save: the document is clean again and the
    /// language tag is derived anew from the file name it was written to.
    pub fn mark_saved(&mut self)
        ensures
            final(self).rows == old(self).rows,
            !final(self).dirty,
            final(self).file_name == old(self).file_name,
            final(self).file_type@ == match old(self).file_name {
                Some(n) => spec_extension(n@),
                None => old(self).file_type@,
            },
    {
        self.dirty = false;
        match &self.file_name {
            Some(name) => {
                let ft = extension_of(name.as_str());
                self.file_type = ft;
            },
            None => {},
        }
    }
}

impl Default for Document {
    /// An empty, unnamed, clean document.
    fn default() -> (r: Self)
        ensures
            r.wf(),
            r.texts() == Seq::<Seq<char>>::empty(),
            r.rows@.len() == 0,
            r.file_name is None,
            r.file_type@ == Seq::<char>::empty(),
            !r.dirty,
    {
        let r = Document {
            file_name: None,
            file_type: String::new(),
            rows: Vec::new(),
            dirty: false,
            syntax_set: load_default_syntaxes(),
            theme_set: load_default_themes(),
        };
        proof {
            assert(r.texts() =~= Seq::<Seq<char>>::empty());
        }
        r
    }
}

} // verus!
