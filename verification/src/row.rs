//! One line of a document: grapheme-indexed text with a cached cluster count
//! and per-grapheme style tags.
//!
//! Columns address grapheme clusters, never bytes. Every mutation rebuilds
//! the text from its clusters and recomputes the cached length, so the
//! invariant `len == grapheme_count(text)` holds after every operation.

use vstd::prelude::*;
use vstd::string::StrSliceExecFns;
use vstd::string::StringExecFns;

use crate::graphemes::cluster_start;
use crate::graphemes::grapheme_count;
use crate::graphemes::grapheme_prefix;
use crate::graphemes::grapheme_suffix;
use crate::graphemes::graphemes_of;
use crate::graphemes::is_space_char;
use crate::graphemes::lemma_cluster_start_ge;
use crate::graphemes::lemma_cluster_start_le;
use crate::graphemes::lemma_flatten_subrange_step;
use crate::graphemes::lemma_prefix_step;
use crate::graphemes::lemma_prefix_suffix;
use crate::graphemes::push_char;
use crate::graphemes::seg_facts;
use crate::graphemes::segment_graphemes;
use crate::editor::SearchDirection;
use crate::graphemes::lemma_cluster_range_chars;
use crate::graphemes::space_char;
use crate::graphemes::str_chars;

verus! {

/// The style of one grapheme cluster: foreground and background colour and
/// font flags (bit 1 bold, bit 4 italic), as the highlight collaborator
/// reported them.
#[derive(Clone, Copy, PartialEq, Eq, Structural, Debug)]
pub struct StyleTag {
    pub fg_r: u8,
    pub fg_g: u8,
    pub fg_b: u8,
    pub bg_r: u8,
    pub bg_g: u8,
    pub bg_b: u8,
    pub font_bits: u8,
}

impl StyleTag {
    /// Whether the tag asks for a bold font.
    pub open spec fn is_bold(self) -> bool {
        self.font_bits & 1 == 1
    }

    /// Whether the tag asks for an italic font.
    pub open spec fn is_italic(self) -> bool {
        self.font_bits & 4 == 4
    }
}

/// The text a row holds after inserting character `c` at grapheme column
/// `at`; columns past the end degrade to an append.
pub open spec fn row_insert_text(s: Seq<char>, at: int, c: char) -> Seq<char> {
    let k = if at > grapheme_count(s) {
        grapheme_count(s) as int
    } else {
        at
    };
    grapheme_prefix(s, k) + seq![c] + grapheme_suffix(s, k)
}

/// The text a row holds after inserting the characters `t` at grapheme
/// column `at`; columns past the end degrade to an append.
pub open spec fn row_insert_str_text(s: Seq<char>, at: int, t: Seq<char>) -> Seq<char> {
    let k = if at > grapheme_count(s) {
        grapheme_count(s) as int
    } else {
        at
    };
    grapheme_prefix(s, k) + t + grapheme_suffix(s, k)
}

/// The text a row holds after deleting the grapheme at column `at`; columns
/// past the end leave the row unchanged.
pub open spec fn row_delete_text(s: Seq<char>, at: int) -> Seq<char> {
    if 0 <= at < grapheme_count(s) {
        grapheme_prefix(s, at) + grapheme_suffix(s, at + 1)
    } else {
        s
    }
}

/// The split point a requested column clamps to: the column itself, or the
/// cluster count where the request lies past the end.
pub open spec fn row_clamp(s: Seq<char>, at: int) -> int {
    if at > grapheme_count(s) {
        grapheme_count(s) as int
    } else {
        at
    }
}

/// One line of the document.
pub struct Row {
    /// The raw text of the line.
    pub string: String,
    /// One style tag per grapheme of the last highlighted text; empty or
    /// stale for rows outside the viewport.
    pub styles: Vec<StyleTag>,
    /// Cached grapheme-cluster count of `string`.
    pub len: usize,
}

impl Row {
    /// The cached cluster count equals the text's grapheme count, and the
    /// segmentation partition facts are on record for the text.
    pub open spec fn wf(self) -> bool {
        &&& self.len as nat == grapheme_count(self.string@)
        &&& seg_facts(self.string@)
    }

    /// The row's style tags, one per grapheme of the highlighted text.
    pub open spec fn spec_styles(self) -> Seq<StyleTag> {
        self.styles@
    }

    /// A well-formed row's text satisfies the segmentation partition facts,
    /// and its cluster count fits in `usize`.
    pub proof fn wf_facts(&self)
        requires
            self.wf(),
        ensures
            seg_facts(self.string@),
            grapheme_count(self.string@) <= usize::MAX,
    {
        lemma_cluster_start_ge(self.string@, 0);
    }

    /// Builds a row from one line of text, with no styling yet.
    pub fn from(slice: &str) -> (r: Row)
        ensures
            r.wf(),
            r.string@ == slice@,
            r.spec_styles() == Seq::<StyleTag>::empty(),
    {
        let mut row = Row { string: slice.to_owned(), styles: Vec::new(), len: 0 };
        row.update_len();
        row
    }

    /// The number of grapheme clusters in the row's text.
    pub fn len(&self) -> (r: usize)
        requires
            self.wf(),
        ensures
            r == grapheme_count(self.string@),
    {
        self.len
    }

    /// Whether the row holds no text.
    pub fn is_empty(&self) -> (r: bool)
        requires
            self.wf(),
        ensures
            r == (grapheme_count(self.string@) == 0),
    {
        self.len == 0
    }

    /// Recomputes the cached cluster count from the text.
    pub fn update_len(&mut self)
        ensures
            final(self).string@ == old(self).string@,
            final(self).spec_styles() == old(self).spec_styles(),
            final(self).wf(),
    {
        let gs = segment_graphemes(self.string.as_str());
        self.len = gs.len();
    }

    /// Inserts a character at a grapheme column; out-of-range columns
    /// degrade to an append. Recomputes the length.
    pub fn insert(&mut self, at: usize, c: char)
        requires
            old(self).wf(),
        ensures
            final(self).string@ == row_insert_text(old(self).string@, at as int, c),
            final(self).spec_styles() == old(self).spec_styles(),
            final(self).wf(),
    {
        let ghost s = self.string@;
        let gs = segment_graphemes(self.string.as_str());
        let k = if at >= self.len {
            self.len
        } else {
            at
        };
        let mut out = self.take_clusters(&gs, k);
        push_char(&mut out, c);
        self.push_clusters(&mut out, &gs, k);
        proof {
            lemma_prefix_suffix(s, k as int);
            assert(out@ =~= row_insert_text(s, at as int, c));
        }
        self.string = out;
        self.update_len();
    }

    /// Inserts a string at a grapheme column; out-of-range columns degrade
    /// to an append. Recomputes the length.
    pub fn insert_str(&mut self, at: usize, str: &str)
        requires
            old(self).wf(),
        ensures
            final(self).string@ == row_insert_str_text(old(self).string@, at as int, str@),
            final(self).spec_styles() == old(self).spec_styles(),
            final(self).wf(),
    {
        let ghost s = self.string@;
        let gs = segment_graphemes(self.string.as_str());
        let k = if at >= self.len {
            self.len
        } else {
            at
        };
        let mut out = self.take_clusters(&gs, k);
        out.append(str);
        self.push_clusters(&mut out, &gs, k);
        proof {
            lemma_prefix_suffix(s, k as int);
            assert(out@ =~= row_insert_str_text(s, at as int, str@));
        }
        self.string = out;
        self.update_len();
    }

    /// Deletes the grapheme at a column; a no-op past the end. Recomputes
    /// the length.
    pub fn delete(&mut self, at: usize)
        requires
            old(self).wf(),
        ensures
            final(self).string@ == row_delete_text(old(self).string@, at as int),
            final(self).spec_styles() == old(self).spec_styles(),
            final(self).wf(),
    {
        if at >= self.len {
            return ;
        }
        let ghost s = self.string@;
        let gs = segment_graphemes(self.string.as_str());
        let mut out = self.take_clusters(&gs, at);
        self.push_clusters(&mut out, &gs, at + 1);
        self.string = out;
        self.update_len();
    }

    /// Appends another row's text onto the end of this one; the other row is
    /// left as it is. Recomputes the length.
    pub fn append(&mut self, new: &Row)
        requires
            old(self).wf(),
        ensures
            final(self).string@ == old(self).string@ + new.string@,
            final(self).spec_styles() == old(self).spec_styles(),
            final(self).wf(),
    {
        self.string.append(new.string.as_str());
        self.update_len();
    }

    /// Splits the row at a grapheme column: the receiver keeps the clusters
    /// before it, the returned row owns the rest and starts unstyled.
    pub fn split(&mut self, at: usize) -> (r: Row)
        requires
            old(self).wf(),
        ensures
            final(self).string@ == grapheme_prefix(
                old(self).string@,
                row_clamp(old(self).string@, at as int),
            ),
            r.string@ == grapheme_suffix(old(self).string@, row_clamp(old(self).string@, at as int)),
            final(self).spec_styles() == old(self).spec_styles(),
            r.spec_styles() == Seq::<StyleTag>::empty(),
            final(self).wf(),
            r.wf(),
    {
        let ghost s = self.string@;
        let gs = segment_graphemes(self.string.as_str());
        let k = if at >= self.len {
            self.len
        } else {
            at
        };
        let first = self.take_clusters(&gs, k);
        let mut second = String::new();
        self.push_clusters(&mut second, &gs, k);
        self.string = first;
        self.update_len();
        let mut other = Row { string: second, styles: Vec::new(), len: 0 };
        other.update_len();
        other
    }

    /// The display text of the grapheme columns in `[start, end)`, clamped
    /// to the row's bounds. Styling is exposed separately through the style
    /// tags; this never emits control sequences.
    pub fn render(&self, start: usize, end: usize) -> (r: String)
        requires
            self.wf(),
        ensures
            ({
                let e = row_clamp(self.string@, end as int);
                let b = if start as int > e {
                    e
                } else {
                    start as int
                };
                r@ == graphemes_of(self.string@).subrange(b, e).flatten()
            }),
    {
        let gs = segment_graphemes(self.string.as_str());
        let e = if end >= self.len {
            self.len
        } else {
            end
        };
        let b = if start >= e {
            e
        } else {
            start
        };
        let ghost s = self.string@;
        let mut out = String::new();
        let mut i = b;
        proof {
            assert(graphemes_of(s).subrange(b as int, b as int).flatten() =~= Seq::<
                char,
            >::empty());
        }
        while i < e
            invariant
                self.wf(),
                s == self.string@,
                gs@.map_values(|g: String| g@) == graphemes_of(s),
                b <= i <= e <= gs@.len(),
                out@ == graphemes_of(s).subrange(b as int, i as int).flatten(),
            decreases e - i,
        {
            out.append(gs[i].as_str());
            proof {
                lemma_flatten_subrange_step(graphemes_of(s), b as int, i as int);
            }
            i = i + 1;
        }
        out
    }

    /// The raw bytes of the row's text, for the persistence collaborator.
    pub fn as_bytes(&self) -> (r: &[u8])
        ensures
            r@ == vstd::utf8::encode_utf8(self.string@),
    {
        self.string.as_str().as_bytes()
    }

    /// The number of leading whitespace characters (code points, not
    /// clusters) of the row's text.
    pub fn whitespace_len(&self) -> (r: usize)
        ensures
            r <= self.string@.len(),
            forall|j: int| 0 <= j < r ==> is_space_char(#[trigger] self.string@[j]),
            r < self.string@.len() ==> !is_space_char(self.string@[r as int]),
    {
        let n = self.string.as_str().unicode_len();
        let mut i: usize = 0;
        while i < n && space_char(self.string.as_str().get_char(i))
            invariant
                n == self.string@.len(),
                0 <= i <= n,
                forall|j: int| 0 <= j < i ==> is_space_char(#[trigger] self.string@[j]),
            decreases n - i,
        {
            i = i + 1;
        }
        i
    }

    /// Builds the text of the first `k` clusters of this row.
    fn take_clusters(&self, gs: &Vec<String>, k: usize) -> (out: String)
        requires
            self.wf(),
            gs@.map_values(|g: String| g@) == graphemes_of(self.string@),
            k <= grapheme_count(self.string@),
        ensures
            out@ == grapheme_prefix(self.string@, k as int),
    {
        let ghost s = self.string@;
        let mut out = String::new();
        let mut i: usize = 0;
        proof {
            assert(graphemes_of(s).take(0) =~= Seq::<Seq<char>>::empty());
        }
        while i < k
            invariant
                self.wf(),
                s == self.string@,
                gs@.map_values(|g: String| g@) == graphemes_of(s),
                0 <= i <= k <= gs@.len(),
                out@ == grapheme_prefix(s, i as int),
            decreases k - i,
        {
            out.append(gs[i].as_str());
            proof {
                lemma_prefix_step(s, i as int);
            }
            i = i + 1;
        }
        out
    }

    /// Appends the text of the clusters of this row from cluster `k` on.
    fn push_clusters(&self, out: &mut String, gs: &Vec<String>, k: usize)
        requires
            self.wf(),
            gs@.map_values(|g: String| g@) == graphemes_of(self.string@),
            k <= grapheme_count(self.string@),
        ensures
            final(out)@ == old(out)@ + grapheme_suffix(self.string@, k as int),
    {
        let ghost s = self.string@;
        let ghost base = out@;
        let mut i: usize = k;
        proof {
            assert(graphemes_of(s).subrange(k as int, k as int).flatten() =~= Seq::<
                char,
            >::empty());
            assert(out@ =~= base + graphemes_of(s).subrange(k as int, k as int).flatten());
        }
        while i < gs.len()
            invariant
                self.wf(),
                s == self.string@,
                gs@.map_values(|g: String| g@) == graphemes_of(s),
                k <= i <= gs@.len(),
                out@ == base + graphemes_of(s).subrange(k as int, i as int).flatten(),
            decreases gs@.len() - i,
        {
            out.append(gs[i].as_str());
            proof {
                lemma_flatten_subrange_step(graphemes_of(s), k as int, i as int);
            }
            i = i + 1;
        }
        proof {
            assert(graphemes_of(s).subrange(k as int, grapheme_count(s) as int) =~= graphemes_of(
                s,
            ).skip(k as int));
        }
    }
}

/// The per-grapheme style tags that a sequence of styled spans expands to:
/// each span contributes one tag per grapheme of its text.
pub open spec fn expand_spans(spans: Seq<(StyleTag, Seq<char>)>) -> Seq<StyleTag> {
    spans.map_values(|p: (StyleTag, Seq<char>)| Seq::new(grapheme_count(p.1), |t: int| p.0)).flatten()
}

impl Row {
    /// Replaces the row's style tags with those of the given styled spans,
    /// one tag per grapheme of each span's text; the text itself is
    /// untouched. Stale tags from an earlier text are simply overwritten.
    pub fn highlight(&mut self, spans: &Vec<(StyleTag, String)>)
        requires
            old(self).wf(),
        ensures
            final(self).string@ == old(self).string@,
            final(self).wf(),
            final(self).spec_styles() == expand_spans(
                spans@.map_values(|p: (StyleTag, String)| (p.0, p.1@)),
            ),
    {
        let ghost m = spans@.map_values(|p: (StyleTag, String)| (p.0, p.1@));
        let ghost tags = m.map_values(
            |p: (StyleTag, Seq<char>)| Seq::new(grapheme_count(p.1), |t: int| p.0),
        );
        let mut styles: Vec<StyleTag> = Vec::new();
        proof {
            assert(tags.subrange(0, 0).flatten() =~= Seq::<StyleTag>::empty());
        }
        let mut i: usize = 0;
        while i < spans.len()
            invariant
                0 <= i <= spans@.len(),
                m == spans@.map_values(|p: (StyleTag, String)| (p.0, p.1@)),
                tags == m.map_values(
                    |p: (StyleTag, Seq<char>)| Seq::new(grapheme_count(p.1), |t: int| p.0),
                ),
                styles@ == tags.subrange(0, i as int).flatten(),
            decreases spans@.len() - i,
        {
            let gs = segment_graphemes(spans[i].1.as_str());
            let n = gs.len();
            let tag = spans[i].0;
            let ghost base = styles@;
            let mut j: usize = 0;
            while j < n
                invariant
                    0 <= j <= n,
                    styles@ == base + Seq::new(j as nat, |t: int| tag),
                decreases n - j,
            {
                styles.push(tag);
                proof {
                    assert(styles@ =~= base + Seq::new((j + 1) as nat, |t: int| tag));
                }
                j = j + 1;
            }
            proof {
                assert(n as nat == grapheme_count(m[i as int].1));
                assert(tags[i as int] =~= Seq::new(n as nat, |t: int| tag));
                lemma_flatten_subrange_step(tags, 0, i as int);
                assert(styles@ =~= tags.subrange(0, i + 1).flatten());
            }
            i = i + 1;
        }
        proof {
            assert(tags.subrange(0, tags.len() as int) =~= tags);
        }
        self.styles = styles;
    }
}

/// A cluster-aligned occurrence of `q` in `s`: the match starts at grapheme
/// column `g` and lies within the characters of clusters `[g, e)`. Its end
/// need not align with a cluster boundary, only its start.
pub open spec fn grapheme_match(s: Seq<char>, q: Seq<char>, g: int, e: int) -> bool {
    &&& q.len() >= 1
    &&& 0 <= g < e <= grapheme_count(s)
    &&& q.is_prefix_of(graphemes_of(s).subrange(g, e).flatten())
}

/// A cluster-aligned match is the same thing as a character-level match at
/// the cluster's start offset that ends by the window's end offset.
pub proof fn lemma_match_chars(s: Seq<char>, q: Seq<char>, g: int, e: int)
    requires
        seg_facts(s),
        0 <= g < e <= grapheme_count(s),
    ensures
        grapheme_match(s, q, g, e) <==> (q.len() >= 1 && cluster_start(s, g) + q.len()
            <= cluster_start(s, e) && q == s.subrange(
            cluster_start(s, g),
            cluster_start(s, g) + q.len(),
        )),
{
    lemma_cluster_range_chars(s, g, e);
    lemma_cluster_start_le(s, g, e);
    let w = graphemes_of(s).subrange(g, e).flatten();
    assert(w == s.subrange(cluster_start(s, g), cluster_start(s, e)));
    if q.len() >= 1 && q.len() <= w.len() {
        assert(w.subrange(0, q.len() as int) =~= s.subrange(
            cluster_start(s, g),
            cluster_start(s, g) + q.len(),
        ));
        if q == w.subrange(0, q.len() as int) {
            assert(q.is_prefix_of(w));
        }
        if q.is_prefix_of(w) {
            assert(q == w.subrange(0, q.len() as int));
        }
    }
}

impl Row {
    /// Grapheme-aware substring search within this row.
    ///
    /// Forward: the first cluster-aligned match starting at column `at` or
    /// later, anywhere up to the end of the row. Backward: the last
    /// cluster-aligned match that lies entirely within the first `at`
    /// columns. `None` when the query is empty or `at` exceeds the row's
    /// length.
    pub fn find(&self, query: &str, at: usize, direction: SearchDirection) -> (r: Option<usize>)
        requires
            self.wf(),
        ensures
            ({
                let s = self.string@;
                let q = query@;
                let n = grapheme_count(s) as int;
                match direction {
                    SearchDirection::Forward => match r {
                        Some(g) => at <= g < n && grapheme_match(s, q, g as int, n) && (forall|
                            h: int,
                        |
                            at <= h < g ==> !grapheme_match(s, q, h, n)),
                        None => forall|h: int| at <= h < n ==> !grapheme_match(s, q, h, n),
                    },
                    SearchDirection::Backward => match r {
                        Some(g) => at <= n && 0 <= g < at && grapheme_match(s, q, g as int, at as int)
                            && (forall|h: int|
                            g < h < at ==> !grapheme_match(s, q, h, at as int)),
                        None => at > n || (forall|h: int|
                            0 <= h < at ==> !grapheme_match(s, q, h, at as int)),
                    },
                }
            }),
    {
        let ghost s = self.string@;
        proof {
            self.wf_facts();
        }
        if query.unicode_len() == 0 || at > self.len {
            return None;
        }
        let qchars = str_chars(query);
        let rchars = str_chars(self.string.as_str());
        let offsets = self.cluster_offsets();
        match direction {
            SearchDirection::Forward => {
                let e = self.len;
                let mut g = at;
                while g < e
                    invariant
                        self.wf(),
                        s == self.string@,
                        direction == SearchDirection::Forward,
                        at <= g <= e,
                        e == grapheme_count(s),
                        qchars@ == query@,
                        qchars@.len() >= 1,
                        rchars@ == s,
                        offsets@.len() == grapheme_count(s) + 1,
                        forall|j: int|
                            0 <= j <= grapheme_count(s) ==> offsets@[j] == cluster_start(s, j),
                        forall|h: int| at <= h < g ==> !grapheme_match(s, query@, h, e as int),
                    decreases e - g,
                {
                    if Self::match_at(&rchars, &offsets, &qchars, g, e, Ghost(s)) {
                        return Some(g);
                    }
                    g = g + 1;
                }
                None
            },
            SearchDirection::Backward => {
                let e = at;
                let mut g = e;
                while g > 0
                    invariant
                        self.wf(),
                        s == self.string@,
                        direction == SearchDirection::Backward,
                        0 <= g <= e,
                        e == at,
                        at <= grapheme_count(s),
                        qchars@ == query@,
                        qchars@.len() >= 1,
                        rchars@ == s,
                        offsets@.len() == grapheme_count(s) + 1,
                        forall|j: int|
                            0 <= j <= grapheme_count(s) ==> offsets@[j] == cluster_start(s, j),
                        forall|h: int| g <= h < e ==> !grapheme_match(s, query@, h, e as int),
                    decreases g,
                {
                    g = g - 1;
                    if Self::match_at(&rchars, &offsets, &qchars, g, e, Ghost(s)) {
                        return Some(g);
                    }
                }
                None
            },
        }
    }

    /// The character offset at which each cluster of this row starts, with
    /// the row's total character count as the final entry.
    fn cluster_offsets(&self) -> (offsets: Vec<usize>)
        requires
            self.wf(),
        ensures
            offsets@.len() == grapheme_count(self.string@) + 1,
            forall|j: int|
                0 <= j <= grapheme_count(self.string@) ==> offsets@[j] == cluster_start(
                    self.string@,
                    j,
                ),
    {
        let ghost s = self.string@;
        let total = self.string.as_str().unicode_len();
        let gs = segment_graphemes(self.string.as_str());
        let mut offsets: Vec<usize> = Vec::new();
        offsets.push(0);
        proof {
            assert(graphemes_of(s).take(0) =~= Seq::<Seq<char>>::empty());
        }
        let mut i: usize = 0;
        while i < gs.len()
            invariant
                self.wf(),
                s == self.string@,
                total == s.len(),
                gs@.map_values(|g: String| g@) == graphemes_of(s),
                0 <= i <= grapheme_count(s),
                offsets@.len() == i + 1,
                forall|j: int| 0 <= j <= i ==> offsets@[j] == cluster_start(s, j),
            decreases gs@.len() - i,
        {
            let cl = gs[i].as_str().unicode_len();
            proof {
                lemma_prefix_step(s, i as int);
                lemma_cluster_start_le(s, i + 1, grapheme_count(s) as int);
                lemma_prefix_suffix(s, i + 1);
            }
            let next = offsets[i] + cl;
            offsets.push(next);
            i = i + 1;
        }
        offsets
    }

    /// Whether a cluster-aligned match of the query starts at column `g`
    /// and lies within the clusters `[g, e)`.
    fn match_at(
        rchars: &Vec<char>,
        offsets: &Vec<usize>,
        qchars: &Vec<char>,
        g: usize,
        e: usize,
        Ghost(s): Ghost<Seq<char>>,
    ) -> (b: bool)
        requires
            seg_facts(s),
            rchars@ == s,
            qchars@.len() >= 1,
            0 <= g < e <= grapheme_count(s),
            offsets@.len() == grapheme_count(s) + 1,
            forall|j: int| 0 <= j <= grapheme_count(s) ==> offsets@[j] == cluster_start(s, j),
        ensures
            b == grapheme_match(s, qchars@, g as int, e as int),
    {
        proof {
            lemma_match_chars(s, qchars@, g as int, e as int);
            lemma_cluster_start_le(s, g as int, e as int);
        }
        let og = offsets[g];
        let oe = offsets[e];
        if qchars.len() > oe - og {
            return false;
        }
        chars_eq(rchars, og, qchars)
    }
}

/// Whether the characters of `q` occur in `text` starting at index `start`.
fn chars_eq(text: &Vec<char>, start: usize, q: &Vec<char>) -> (b: bool)
    requires
        start + q@.len() <= text@.len(),
    ensures
        b == (q@ == text@.subrange(start as int, start as int + q@.len())),
{
    let n = text.len();
    let mut j: usize = 0;
    while j < q.len()
        invariant
            0 <= j <= q@.len(),
            n == text@.len(),
            start + q@.len() <= text@.len(),
            forall|t: int| 0 <= t < j ==> q@[t] == #[trigger] text@[start + t],
        decreases q@.len() - j,
    {
        if q[j] != text[start + j] {
            proof {
                assert(text@.subrange(start as int, start as int + q@.len())[j as int] == text@[
                    start + j]);
            }
            return false;
        }
        j = j + 1;
    }
    proof {
        let w = text@.subrange(start as int, start as int + q@.len());
        assert forall|t: int| 0 <= t < q@.len() implies q@[t] == w[t] by {
            assert(w[t] == text@[start + t]);
        }
        assert(q@ =~= w);
    }
    true
}

/// Whether a character separates words for editing purposes: ASCII
/// punctuation or ASCII whitespace.
pub open spec fn is_separator_char(c: char) -> bool {
    let u = c as u32;
    ||| (0x21 <= u && u <= 0x2F)
    ||| (0x3A <= u && u <= 0x40)
    ||| (0x5B <= u && u <= 0x60)
    ||| (0x7B <= u && u <= 0x7E)
    ||| u == 0x20
    ||| u == 0x9
    ||| u == 0xA
    ||| u == 0xC
    ||| u == 0xD
}

/// Whether a character separates words for editing purposes.
pub fn is_separator(c: char) -> (r: bool)
    ensures
        r == is_separator_char(c),
{
    let u = c as u32;
    (0x21 <= u && u <= 0x2F) || (0x3A <= u && u <= 0x40) || (0x5B <= u && u <= 0x60) || (0x7B <= u
        && u <= 0x7E) || u == 0x20 || u == 0x9 || u == 0xA || u == 0xC || u == 0xD
}

/// Law: a row split at any column, followed by appending the returned tail,
/// restores the original text; so `split(k)` then `append` is the identity
/// on a row's content for every `k`.
pub proof fn lemma_split_append_inverse(s: Seq<char>, at: int)
    requires
        seg_facts(s),
        0 <= at,
    ensures
        grapheme_prefix(s, row_clamp(s, at)) + grapheme_suffix(s, row_clamp(s, at)) == s,
{
    lemma_prefix_suffix(s, row_clamp(s, at));
}

/// Law: inserting a character that stands as a grapheme cluster of its own
/// at a column, then deleting at that same column, restores the original
/// text bit for bit. The hypothesis names exactly the inputs on which this
/// holds: the inserted character must not merge with its neighbours'
/// clusters (a combining mark appended after a base letter, say, does).
pub proof fn lemma_insert_delete_round_trip(s: Seq<char>, at: int, c: char)
    requires
        seg_facts(s),
        0 <= at <= grapheme_count(s),
        graphemes_of(row_insert_text(s, at, c)) == graphemes_of(s).take(at) + seq![seq![c]]
            + graphemes_of(s).skip(at),
    ensures
        row_delete_text(row_insert_text(s, at, c), at) == s,
{
    let t = row_insert_text(s, at, c);
    let gs = graphemes_of(s);
    let gt = graphemes_of(t);
    assert(gt.len() == gs.len() + 1);
    assert(gt.take(at) =~= gs.take(at));
    assert(gt.skip(at + 1) =~= gs.skip(at));
    assert(row_delete_text(t, at) == grapheme_prefix(t, at) + grapheme_suffix(t, at + 1));
    lemma_prefix_suffix(s, at);
    assert(grapheme_prefix(s, at) + grapheme_suffix(s, at) == s);
}

impl Default for Row {
    /// An empty, unstyled row.
    fn default() -> (r: Self)
        ensures
            r.wf(),
            r.string@ == Seq::<char>::empty(),
            r.spec_styles() == Seq::<StyleTag>::empty(),
    {
        let mut row = Row { string: String::new(), styles: Vec::new(), len: 0 };
        row.update_len();
        row
    }
}

} // verus!
