//! Grapheme segmentation of text, and the character utilities built on it.
//!
//! A row's columns count user-perceived characters (grapheme clusters), not
//! code points. Segmentation itself comes from an outside crate; this module
//! gives its result a name, `graphemes_of`, states the partition facts its
//! documentation promises, and proves the arithmetic the rest of the crate
//! needs about cluster prefixes, suffixes and character offsets.

use unicode_segmentation::UnicodeSegmentation;
use vstd::prelude::*;
use vstd::seq_lib::lemma_flatten_concat;
use vstd::string::StrSliceExecFns;

verus! {

/// The extended grapheme clusters of a character sequence, in order.
pub uninterp spec fn graphemes_of(s: Seq<char>) -> Seq<Seq<char>>;

/// How many grapheme clusters a character sequence holds.
pub open spec fn grapheme_count(s: Seq<char>) -> nat {
    graphemes_of(s).len()
}

/// The partition facts of grapheme segmentation: the clusters concatenate
/// back to the text, and none is empty.
pub open spec fn seg_facts(s: Seq<char>) -> bool {
    &&& graphemes_of(s).flatten() == s
    &&& forall|i: int|
        0 <= i < graphemes_of(s).len() ==> (#[trigger] graphemes_of(s)[i]).len() >= 1
}

/// The characters of the first `k` clusters of `s`.
pub open spec fn grapheme_prefix(s: Seq<char>, k: int) -> Seq<char> {
    graphemes_of(s).take(k).flatten()
}

/// The characters of the clusters of `s` from cluster `k` on.
pub open spec fn grapheme_suffix(s: Seq<char>, k: int) -> Seq<char> {
    graphemes_of(s).skip(k).flatten()
}

/// The character offset at which cluster `g` of `s` starts.
pub open spec fn cluster_start(s: Seq<char>, g: int) -> int {
    grapheme_prefix(s, g).len() as int
}

/// Relies on unicode_segmentation's `UnicodeSegmentation::graphemes` with
/// `is_extended = true`: it splits a string into its UAX #29 extended
/// grapheme clusters, which partition the text into non-empty pieces, and
/// its result depends on the characters alone.
#[verifier::external_body]
fn segment_call(s: &str) -> (r: Vec<String>)
    ensures
        r@.map_values(|g: String| g@) == graphemes_of(s@),
        r@.map_values(|g: String| g@).flatten() == s@,
        forall|i: int| 0 <= i < r@.len() ==> (#[trigger] r@[i]@).len() >= 1,
{
    s.graphemes(true).map(|g| g.to_string()).collect()
}

/// The grapheme clusters of a string, each as its own string, with the
/// partition facts of `seg_facts` established.
pub fn segment_graphemes(s: &str) -> (r: Vec<String>)
    ensures
        r@.map_values(|g: String| g@) == graphemes_of(s@),
        seg_facts(s@),
{
    let r = segment_call(s);
    proof {
        let m = r@.map_values(|g: String| g@);
        assert forall|i: int| 0 <= i < graphemes_of(s@).len() implies (#[trigger] graphemes_of(
            s@,
        )[i]).len() >= 1 by {
            assert(graphemes_of(s@)[i] == m[i]);
            assert(m[i] == r@[i]@);
        }
    }
    r
}

/// Relies on std's `String::push`: appends one character to the string.
#[verifier::external_body]
pub fn push_char(s: &mut String, c: char)
    ensures
        final(s)@ == old(s)@.push(c),
{
    s.push(c);
}

/// The characters of a string slice, as a vector.
pub fn str_chars(s: &str) -> (r: Vec<char>)
    ensures
        r@ == s@,
{
    let n = s.unicode_len();
    let mut v: Vec<char> = Vec::new();
    for i in 0..n
        invariant
            n == s@.len(),
            v@ == s@.take(i as int),
    {
        v.push(s.get_char(i));
        proof {
            assert(v@ =~= s@.take(i + 1));
        }
    }
    proof {
        assert(v@ =~= s@);
    }
    v
}

/// Splitting a cluster sequence anywhere and flattening the parts gives the
/// flattening of the whole.
pub proof fn lemma_flatten_take_skip<A>(gs: Seq<Seq<A>>, k: int)
    requires
        0 <= k <= gs.len(),
    ensures
        gs.take(k).flatten() + gs.skip(k).flatten() == gs.flatten(),
{
    assert(gs.take(k) + gs.skip(k) =~= gs);
    lemma_flatten_concat(gs.take(k), gs.skip(k));
}

/// The prefix of `k` clusters and the suffix from cluster `k` concatenate to
/// the text itself.
pub proof fn lemma_prefix_suffix(s: Seq<char>, k: int)
    requires
        seg_facts(s),
        0 <= k <= grapheme_count(s),
    ensures
        grapheme_prefix(s, k) + grapheme_suffix(s, k) == s,
        grapheme_prefix(s, k) == s.take(cluster_start(s, k)),
        grapheme_suffix(s, k) == s.skip(cluster_start(s, k)),
        0 <= cluster_start(s, k) <= s.len(),
{
    lemma_flatten_take_skip(graphemes_of(s), k);
    assert(grapheme_prefix(s, k) =~= s.take(cluster_start(s, k)));
    assert(grapheme_suffix(s, k) =~= s.skip(cluster_start(s, k)));
}

/// One more cluster in the prefix appends exactly that cluster's characters.
pub proof fn lemma_prefix_step(s: Seq<char>, i: int)
    requires
        0 <= i < grapheme_count(s),
    ensures
        grapheme_prefix(s, i + 1) == grapheme_prefix(s, i) + graphemes_of(s)[i],
        cluster_start(s, i + 1) == cluster_start(s, i) + graphemes_of(s)[i].len(),
{
    let gs = graphemes_of(s);
    assert(gs.take(i + 1) =~= gs.take(i) + gs.subrange(i, i + 1));
    lemma_flatten_concat(gs.take(i), gs.subrange(i, i + 1));
    gs.subrange(i, i + 1).lemma_flatten_one_element();
    assert(gs.subrange(i, i + 1).flatten() =~= gs[i]);
}

/// Cluster starts grow with the cluster index.
pub proof fn lemma_cluster_start_le(s: Seq<char>, g: int, e: int)
    requires
        seg_facts(s),
        0 <= g <= e <= grapheme_count(s),
    ensures
        cluster_start(s, 0) == 0,
        cluster_start(s, g) <= cluster_start(s, e) <= s.len(),
    decreases e - g,
{
    assert(graphemes_of(s).take(0) =~= Seq::<Seq<char>>::empty());
    if g < e {
        lemma_prefix_step(s, g);
        lemma_cluster_start_le(s, g + 1, e);
    } else {
        lemma_prefix_suffix(s, e);
    }
}

/// Cluster starts grow at least one character per cluster.
pub proof fn lemma_cluster_start_ge(s: Seq<char>, g: int)
    requires
        seg_facts(s),
        0 <= g <= grapheme_count(s),
    ensures
        cluster_start(s, g) >= g,
        grapheme_count(s) <= s.len(),
{
    assert(graphemes_of(s).take(0) =~= Seq::<Seq<char>>::empty());
    assert(cluster_start(s, 0) == 0);
    lemma_cluster_start_ge_aux(s, 0, g);
    lemma_cluster_start_ge_aux(s, 0, grapheme_count(s) as int);
    lemma_prefix_suffix(s, grapheme_count(s) as int);
}

proof fn lemma_cluster_start_ge_aux(s: Seq<char>, g: int, e: int)
    requires
        seg_facts(s),
        0 <= g <= e <= grapheme_count(s),
    ensures
        cluster_start(s, e) >= cluster_start(s, g) + (e - g),
    decreases e - g,
{
    if g < e {
        lemma_prefix_step(s, g);
        lemma_cluster_start_ge_aux(s, g + 1, e);
    }
}

/// Extending a cluster subrange by one cluster appends that cluster's
/// characters.
pub proof fn lemma_flatten_subrange_step<A>(gs: Seq<Seq<A>>, k: int, i: int)
    requires
        0 <= k <= i < gs.len(),
    ensures
        gs.subrange(k, i + 1).flatten() == gs.subrange(k, i).flatten() + gs[i],
{
    assert(gs.subrange(k, i + 1) =~= gs.subrange(k, i) + gs.subrange(i, i + 1));
    lemma_flatten_concat(gs.subrange(k, i), gs.subrange(i, i + 1));
    gs.subrange(i, i + 1).lemma_flatten_one_element();
    assert(gs.subrange(k, i + 1).flatten() =~= gs.subrange(k, i).flatten() + gs[i]);
}

/// The characters covered by clusters `g` (inclusive) to `e` (exclusive) are
/// the characters between their start offsets.
pub proof fn lemma_cluster_range_chars(s: Seq<char>, g: int, e: int)
    requires
        seg_facts(s),
        0 <= g <= e <= grapheme_count(s),
    ensures
        graphemes_of(s).subrange(g, e).flatten() == s.subrange(
            cluster_start(s, g),
            cluster_start(s, e),
        ),
{
    let gs = graphemes_of(s);
    assert(gs.take(e) =~= gs.take(g) + gs.subrange(g, e));
    lemma_flatten_concat(gs.take(g), gs.subrange(g, e));
    lemma_cluster_start_le(s, g, e);
    lemma_prefix_suffix(s, g);
    lemma_prefix_suffix(s, e);
    assert(gs.subrange(g, e).flatten() =~= s.subrange(cluster_start(s, g), cluster_start(s, e)));
}

/// Unicode's White_Space characters, the delimiters of word motions.
pub open spec fn is_space_char(c: char) -> bool {
    let u = c as u32;
    ||| (0x9 <= u && u <= 0xD)
    ||| u == 0x20
    ||| u == 0x85
    ||| u == 0xA0
    ||| u == 0x1680
    ||| (0x2000 <= u && u <= 0x200A)
    ||| u == 0x2028
    ||| u == 0x2029
    ||| u == 0x202F
    ||| u == 0x205F
    ||| u == 0x3000
}

/// Whether a character is whitespace in the sense of word motions.
pub fn space_char(c: char) -> (r: bool)
    ensures
        r == is_space_char(c),
{
    let u = c as u32;
    (0x9 <= u && u <= 0xD) || u == 0x20 || u == 0x85 || u == 0xA0 || u == 0x1680 || (0x2000 <= u
        && u <= 0x200A) || u == 0x2028 || u == 0x2029 || u == 0x202F || u == 0x205F || u == 0x3000
}

} // verus!
