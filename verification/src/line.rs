//! A single line of text, modeled as an ordered sequence of display
//! fragments: one per extended grapheme cluster, each with its terminal
//! width and, where the raw cluster has no useful glyph, a single printable
//! substitute.

use crate::unicode::{
    char_is_control, char_is_whitespace, control_char, display_width_of, graphemes_of, push_char,
    split_graphemes, str_display_width, whitespace_char,
};
use crate::cap_usize;
use core::ops::Range;
use vstd::prelude::*;
use vstd::string::StrSliceExecFns;
use vstd::string::StringExecFns;

verus! {

/// How many terminal columns a grapheme cluster occupies when drawn: one
/// (`Half`) or two (`Full`).
#[derive(Clone, Copy, Debug)]
pub enum GraphemeWidth {
    Half,
    Full,
}

/// The column count of a width class.
pub open spec fn col_width(w: GraphemeWidth) -> int {
    match w {
        GraphemeWidth::Half => 1,
        GraphemeWidth::Full => 2,
    }
}

impl GraphemeWidth {
    /// Adds this width to a running column count, saturating at `usize::MAX`.
    pub fn saturating_add(self, other: usize) -> (r: usize)
        ensures
            r == cap_usize(other + col_width(self)),
    {
        match self {
            Self::Half => other.saturating_add(1),
            Self::Full => other.saturating_add(2),
        }
    }
}

/// One grapheme cluster of a line: the raw cluster, its display width
/// class, and an optional single-glyph substitute shown in its place.
#[derive(Debug)]
pub struct TextFragment {
    pub grapheme: String,
    pub rendered_width: GraphemeWidth,
    pub replacement: Option<char>,
}

/// Whether every character of the cluster is whitespace, which is exactly
/// when its trimmed form is empty.
pub open spec fn whitespace_only(g: Seq<char>) -> bool {
    forall|i: int| 0 <= i < g.len() ==> whitespace_char(#[trigger] g[i])
}

/// The substitute glyph for a cluster, if any: a space keeps its own glyph,
/// a tab shows as a space, other visible blank clusters show as `_`, a lone
/// zero-width control character shows as a placeholder box, and any other
/// zero-width cluster shows as `.`.
pub open spec fn replacement_spec(g: Seq<char>) -> Option<char> {
    if g == seq![' '] {
        None
    } else if g == seq!['\t'] {
        Some(' ')
    } else if display_width_of(g) > 0 && whitespace_only(g) {
        Some('_')
    } else if display_width_of(g) == 0 {
        if g.len() == 1 && control_char(g[0]) {
            Some('▯')
        } else {
            Some('.')
        }
    } else {
        None
    }
}

/// The width class of a cluster: substituted clusters are always `Half`;
/// otherwise a displayed width of zero or one column is `Half` and anything
/// wider is `Full`.
pub open spec fn width_class(g: Seq<char>) -> GraphemeWidth {
    if replacement_spec(g) is Some {
        GraphemeWidth::Half
    } else if display_width_of(g) <= 1 {
        GraphemeWidth::Half
    } else {
        GraphemeWidth::Full
    }
}

/// Whether `f` is exactly the fragment that the cluster `g` maps to.
pub open spec fn fragment_for(g: Seq<char>, f: TextFragment) -> bool {
    &&& f.grapheme@ == g
    &&& f.replacement == replacement_spec(g)
    &&& f.rendered_width == width_class(g)
}

/// Whether the fragment sequence `fs` is exactly the fragment-by-fragment
/// image of the cluster sequence `gs`.
pub open spec fn line_matches(fs: Seq<TextFragment>, gs: Seq<Seq<char>>) -> bool {
    &&& fs.len() == gs.len()
    &&& forall|i: int| 0 <= i < fs.len() ==> fragment_for(gs[i], #[trigger] fs[i])
}

/// The raw text of a fragment sequence: the concatenation of its clusters,
/// ignoring substitutes.
pub open spec fn line_text(fs: Seq<TextFragment>) -> Seq<char>
    decreases fs.len(),
{
    if fs.len() == 0 {
        Seq::empty()
    } else {
        line_text(fs.drop_last()) + fs.last().grapheme@
    }
}

/// The summed display width of the first `n` fragments (all of them when
/// `n` exceeds the length).
pub open spec fn prefix_width(fs: Seq<TextFragment>, n: int) -> int
    decreases n,
{
    if n <= 0 || fs.len() == 0 {
        0
    } else if n > fs.len() {
        prefix_width(fs, fs.len() as int)
    } else {
        prefix_width(fs, n - 1) + col_width(fs[n - 1].rendered_width)
    }
}

/// A line of text as its fragments, in display order.
#[derive(Debug)]
pub struct Line {
    pub fragments: Vec<TextFragment>,
}

impl View for Line {
    type V = Seq<TextFragment>;

    open spec fn view(&self) -> Seq<TextFragment> {
        self.fragments@
    }
}

impl Line {
    /// The substitute glyph for one grapheme cluster, if it needs one.
    fn replacement_character(for_str: &str) -> (r: Option<char>)
        ensures
            r == replacement_spec(for_str@),
    {
        let n = for_str.unicode_len();
        if n == 1 && for_str.get_char(0) == ' ' {
            proof {
                assert(for_str@ =~= seq![' ']);
            }
            return None;
        }
        assert(for_str@ != seq![' ']);
        if n == 1 && for_str.get_char(0) == '\t' {
            proof {
                assert(for_str@ =~= seq!['\t']);
            }
            return Some(' ');
        }
        assert(for_str@ != seq!['\t']);
        let width = str_display_width(for_str);
        if width > 0 {
            let mut all_ws = true;
            let mut i: usize = 0;
            while i < n
                invariant
                    n == for_str@.len(),
                    0 <= i <= n,
                    all_ws == (forall|j: int| 0 <= j < i ==> whitespace_char(#[trigger] for_str@[j])),
                decreases n - i,
            {
                if !char_is_whitespace(for_str.get_char(i)) {
                    all_ws = false;
                }
                i += 1;
            }
            if all_ws {
                return Some('_');
            }
            return None;
        }
        if n == 1 && char_is_control(for_str.get_char(0)) {
            return Some('▯');
        }
        Some('.')
    }

    /// The fragment for one grapheme cluster.
    fn make_fragment(grapheme: String) -> (f: TextFragment)
        ensures
            fragment_for(grapheme@, f),
    {
        let replacement = Self::replacement_character(grapheme.as_str());
        let rendered_width = match replacement {
            Some(_) => GraphemeWidth::Half,
            None => {
                let w = str_display_width(grapheme.as_str());
                if w <= 1 {
                    GraphemeWidth::Half
                } else {
                    GraphemeWidth::Full
                }
            },
        };
        TextFragment { grapheme, rendered_width, replacement }
    }

    /// Splits a string into grapheme clusters and maps each to its fragment.
    fn str_to_fragments(line_str: &str) -> (r: Vec<TextFragment>)
        ensures
            line_matches(r@, graphemes_of(line_str@)),
            line_text(r@) == line_str@,
            forall|i: int| 0 <= i < r@.len() ==> (#[trigger] r@[i]).grapheme@.len() > 0,
    {
        let gs = split_graphemes(line_str);
        let ghost gseq = graphemes_of(line_str@);
        let mut fragments: Vec<TextFragment> = Vec::new();
        let n = gs.len();
        assert(gs@.map_values(|g: String| g@).len() == gseq.len());
        for i in 0..n
            invariant
                n == gs@.len(),
                gs@.map_values(|g: String| g@) == gseq,
                fragments@.len() == i,
                forall|j: int| 0 <= j < i ==> fragment_for(gseq[j], #[trigger] fragments@[j]),
        {
            let g = gs[i].clone();
            assert(g@ == gseq[i as int]);
            fragments.push(Self::make_fragment(g));
        }
        proof {
            lemma_line_text_of_match(fragments@, gseq);
        }
        fragments
    }

    /// Builds the line for a string: one fragment per grapheme cluster.
    pub fn from(line_str: &str) -> (r: Line)
        ensures
            line_matches(r@, graphemes_of(line_str@)),
            line_text(r@) == line_str@,
            forall|i: int| 0 <= i < r@.len() ==> (#[trigger] r@[i]).grapheme@.len() > 0,
    {
        Line { fragments: Self::str_to_fragments(line_str) }
    }

    /// The number of grapheme clusters in the line.
    pub fn grapheme_count(&self) -> (r: usize)
        ensures
            r == self@.len(),
    {
        self.fragments.len()
    }

    /// The summed display width of the fragments before `grapheme_index`,
    /// saturating at `usize::MAX`.
    pub fn width_until(&self, grapheme_index: usize) -> (r: usize)
        ensures
            r == cap_usize(prefix_width(self@, grapheme_index as int)),
    {
        let end = if grapheme_index < self.fragments.len() {
            grapheme_index
        } else {
            self.fragments.len()
        };
        let mut total: usize = 0;
        for i in 0..end
            invariant
                end <= self@.len(),
                end == vstd::math::min(grapheme_index as int, self@.len() as int),
                total == cap_usize(prefix_width(self@, i as int)),
        {
            total = self.fragments[i].rendered_width.saturating_add(total);
        }
        proof {
            if grapheme_index > self.fragments@.len() {
                assert(prefix_width(self@, grapheme_index as int) == prefix_width(
                    self@,
                    self@.len() as int,
                ));
            }
        }
        total
    }

    /// The raw text of the line: its clusters concatenated, ignoring
    /// substitutes. This is the persisted content.
    pub fn to_text(&self) -> (r: String)
        ensures
            r@ == line_text(self@),
    {
        let mut result = String::new();
        let n = self.fragments.len();
        for i in 0..n
            invariant
                n == self@.len(),
                result@ == line_text(self@.take(i as int)),
        {
            result.append(self.fragments[i].grapheme.as_str());
            proof {
                assert(self@.take(i + 1).drop_last() =~= self@.take(i as int));
                assert(self@.take(i + 1).last() == self@[i as int]);
            }
        }
        proof {
            assert(self@.take(n as int) =~= self@);
        }
        result
    }
}

/// The first screen column of fragment `i` (column counting starts at the
/// left edge of the line, and accumulation saturates at `usize::MAX`).
pub open spec fn frag_start(fs: Seq<TextFragment>, i: int) -> int {
    cap_usize(prefix_width(fs, i))
}

/// The screen column just past fragment `i`.
pub open spec fn frag_end(fs: Seq<TextFragment>, i: int) -> int {
    cap_usize(prefix_width(fs, i + 1))
}

/// What fragment `i` contributes to the visible text for columns `[a, b)`:
/// nothing if it does not overlap the window, `~` if it is only partly
/// inside, otherwise its substitute glyph or its raw cluster.
pub open spec fn visible_piece(fs: Seq<TextFragment>, i: int, a: int, b: int) -> Seq<char> {
    let s = frag_start(fs, i);
    let e = frag_end(fs, i);
    if e > a && s < b {
        if e > b || s < a {
            seq!['~']
        } else if fs[i].replacement is Some {
            seq![fs[i].replacement->0]
        } else {
            fs[i].grapheme@
        }
    } else {
        Seq::empty()
    }
}

/// The concatenated contributions of the first `n` fragments.
pub open spec fn visible_prefix(fs: Seq<TextFragment>, n: int, a: int, b: int) -> Seq<char>
    decreases n,
{
    if n <= 0 {
        Seq::empty()
    } else {
        visible_prefix(fs, n - 1, a, b) + visible_piece(fs, n - 1, a, b)
    }
}

/// The text shown for columns `[a, b)` of a line; empty when the window is
/// empty.
pub open spec fn visible_text(fs: Seq<TextFragment>, a: int, b: int) -> Seq<char> {
    if a >= b {
        Seq::empty()
    } else {
        visible_prefix(fs, fs.len() as int, a, b)
    }
}

/// The text resulting from inserting character `ch` between fragments
/// `k - 1` and `k` of a line.
pub open spec fn insert_text(fs: Seq<TextFragment>, k: int, ch: char) -> Seq<char> {
    line_text(fs.take(k)) + seq![ch] + line_text(fs.skip(k))
}

/// Whether `post` is `pre` with `ch` inserted at cluster index `gi`
/// (appended when `gi` is past the end) and the fragments rebuilt from the
/// combined text.
pub open spec fn line_inserted(
    pre: Seq<TextFragment>,
    post: Seq<TextFragment>,
    ch: char,
    gi: int,
) -> bool {
    let k = vstd::math::min(gi, pre.len() as int);
    &&& line_matches(post, graphemes_of(insert_text(pre, k, ch)))
    &&& line_text(post) == insert_text(pre, k, ch)
}

/// Whether `post` holds the merged text of `a` followed by `b`, with the
/// fragments rebuilt from the combined text.
pub open spec fn line_appended(
    a: Seq<TextFragment>,
    b: Seq<TextFragment>,
    post: Seq<TextFragment>,
) -> bool {
    let t = line_text(a) + line_text(b);
    &&& line_matches(post, graphemes_of(t))
    &&& line_text(post) == t
}

impl Line {
    /// The text shown for the given column window, walking the fragments:
    /// each fragment wholly inside the window contributes its substitute or
    /// its raw cluster, and a fragment cut by either window edge
    /// contributes `~` instead of a partial glyph.
    pub fn get_visible_graphemes(&self, range: Range<usize>) -> (r: String)
        ensures
            r@ == visible_text(self@, range.start as int, range.end as int),
            range.start >= range.end ==> r@ == Seq::<char>::empty(),
    {
        let a = range.start;
        let b = range.end;
        if a >= b {
            return String::new();
        }
        let mut result = String::new();
        let mut current_pos: usize = 0;
        let mut i: usize = 0;
        let n = self.fragments.len();
        while i < n && current_pos < b
            invariant
                n == self@.len(),
                0 <= i <= n,
                a < b,
                current_pos == frag_start(self@, i as int),
                result@ == visible_prefix(self@, i as int, a as int, b as int),
            decreases n - i,
        {
            let fragment = &self.fragments[i];
            let fragment_end = fragment.rendered_width.saturating_add(current_pos);
            if fragment_end > a {
                if fragment_end > b || current_pos < a {
                    push_char(&mut result, '~');
                } else if let Some(ch) = fragment.replacement {
                    push_char(&mut result, ch);
                } else {
                    result.append(fragment.grapheme.as_str());
                }
            }
            current_pos = fragment_end;
            i += 1;
        }
        proof {
            if i < n {
                lemma_visible_prefix_stops(self@, i as int, self@.len() as int, a as int, b as int);
            }
        }
        result
    }

    /// Inserts a character before the cluster at `grapheme_index`, or at the
    /// end of the line when the index is past the last cluster. The whole
    /// fragment sequence is rebuilt from the combined text, since an
    /// insertion can change cluster boundaries.
    pub fn insert_char(&mut self, character: char, grapheme_index: usize)
        ensures
            line_inserted(old(self)@, final(self)@, character, grapheme_index as int),
    {
        let ghost fs = old(self)@;
        let ghost k = vstd::math::min(grapheme_index as int, fs.len() as int);
        let mut result = String::new();
        let n = self.fragments.len();
        for i in 0..n
            invariant
                n == fs.len(),
                self@ == fs,
                k == vstd::math::min(grapheme_index as int, fs.len() as int),
                result@ == if i <= grapheme_index {
                    line_text(fs.take(i as int))
                } else {
                    line_text(fs.take(k)) + seq![character] + line_text(fs.subrange(k, i as int))
                },
        {
            if i == grapheme_index {
                push_char(&mut result, character);
            }
            result.append(self.fragments[i].grapheme.as_str());
            proof {
                if i < grapheme_index {
                    assert(fs.take(i + 1).drop_last() =~= fs.take(i as int));
                    assert(fs.take(i + 1).last() == fs[i as int]);
                } else {
                    assert(fs.subrange(k, i + 1).drop_last() =~= fs.subrange(k, i as int));
                    assert(fs.subrange(k, i + 1).last() == fs[i as int]);
                    if i == grapheme_index {
                        assert(fs.take(k) =~= fs.take(i as int));
                        assert(fs.subrange(k, i as int) =~= Seq::<TextFragment>::empty());
                        assert(line_text(fs.subrange(k, i as int)) =~= Seq::<char>::empty());
                    }
                }
            }
        }
        if grapheme_index >= n {
            push_char(&mut result, character);
            proof {
                assert(fs.take(k) =~= fs);
                assert(fs.take(n as int) =~= fs);
                assert(fs.skip(k) =~= Seq::<TextFragment>::empty());
                assert(line_text(fs.skip(k)) =~= Seq::<char>::empty());
            }
        }
        proof {
            if grapheme_index < n {
                assert(fs.subrange(k, n as int) =~= fs.skip(k));
            }
            assert(result@ =~= insert_text(fs, k, character));
        }
        self.fragments = Self::str_to_fragments(result.as_str());
    }

    /// Removes the cluster at `grapheme_index`; the index must be in range
    /// (end-of-line deletion is a buffer-level merge, not a line operation).
    pub fn delete(&mut self, grapheme_index: usize)
        requires
            grapheme_index < old(self)@.len(),
        ensures
            final(self)@ == old(self)@.remove(grapheme_index as int),
    {
        self.fragments.remove(grapheme_index);
    }

    /// Appends the raw text of another line to this one and rebuilds the
    /// fragments from the combined text, since the join can change cluster
    /// boundaries.
    pub fn append(&mut self, other: &Self)
        ensures
            line_appended(old(self)@, other@, final(self)@),
    {
        let mut concat = self.to_text();
        let other_text = other.to_text();
        concat.append(other_text.as_str());
        self.fragments = Self::str_to_fragments(concat.as_str());
    }
}

/// `width_until` is non-decreasing in the index: the width of a shorter
/// prefix never exceeds the width of a longer one.
pub proof fn lemma_prefix_width_monotonic(fs: Seq<TextFragment>, i: int, j: int)
    requires
        i <= j,
    ensures
        prefix_width(fs, i) <= prefix_width(fs, j),
        cap_usize(prefix_width(fs, i)) <= cap_usize(prefix_width(fs, j)),
    decreases j,
{
    if j <= 0 || fs.len() == 0 {
    } else if j > fs.len() {
        if i > fs.len() {
            lemma_prefix_width_monotonic(fs, fs.len() as int, fs.len() as int);
        } else {
            lemma_prefix_width_monotonic(fs, i, fs.len() as int);
        }
    } else if i == j {
    } else {
        lemma_prefix_width_monotonic(fs, i, j - 1);
        assert(col_width(fs[j - 1].rendered_width) >= 0);
    }
}

/// At or past the cluster count, the prefix width is the summed width of
/// all fragments: `width_until` saturates at the line's total width.
pub proof fn lemma_prefix_width_saturates(fs: Seq<TextFragment>, n: int)
    requires
        n >= fs.len(),
    ensures
        prefix_width(fs, n) == prefix_width(fs, fs.len() as int),
{
}

/// When the line's total width fits the machine word, `width_until` at or
/// past the cluster count is exactly the sum of all fragment widths, with
/// no saturation.
pub proof fn lemma_width_until_exact_total(fs: Seq<TextFragment>, n: int)
    requires
        n >= fs.len(),
        prefix_width(fs, fs.len() as int) <= usize::MAX,
    ensures
        cap_usize(prefix_width(fs, n)) == prefix_width(fs, fs.len() as int),
{
    lemma_prefix_width_saturates(fs, n);
}

/// Prefix widths are never negative.
pub proof fn lemma_prefix_width_nonneg(fs: Seq<TextFragment>, i: int)
    ensures
        prefix_width(fs, i) >= 0,
    decreases
            if i > fs.len() {
                fs.len() as int + 1
            } else if i > 0 {
                i
            } else {
                0
            },
{
    if i <= 0 || fs.len() == 0 {
    } else if i > fs.len() {
        lemma_prefix_width_nonneg(fs, fs.len() as int);
    } else {
        lemma_prefix_width_nonneg(fs, i - 1);
    }
}

/// Once the walk has reached the right window edge, the remaining fragments
/// contribute nothing to the visible text.
proof fn lemma_visible_prefix_stops(fs: Seq<TextFragment>, i: int, n: int, a: int, b: int)
    requires
        0 <= i <= n <= fs.len(),
        frag_start(fs, i) >= b,
    ensures
        visible_prefix(fs, n, a, b) == visible_prefix(fs, i, a, b),
    decreases n - i,
{
    if n > i {
        lemma_visible_prefix_stops(fs, i, n - 1, a, b);
        lemma_prefix_width_monotonic(fs, i, n - 1);
        assert(frag_start(fs, n - 1) >= b);
        assert(visible_piece(fs, n - 1, a, b) =~= Seq::<char>::empty());
        assert(visible_prefix(fs, n, a, b) =~= visible_prefix(fs, n - 1, a, b));
    }
}

/// Flattening distributes over concatenation.
proof fn lemma_flatten_concat(a: Seq<Seq<char>>, b: Seq<Seq<char>>)
    ensures
        (a + b).flatten() == a.flatten() + b.flatten(),
    decreases a.len(),
{
    if a.len() == 0 {
        assert(a + b =~= b);
        assert(a.flatten() =~= Seq::<char>::empty());
        assert(a.flatten() + b.flatten() =~= b.flatten());
    } else {
        lemma_flatten_concat(a.drop_first(), b);
        assert((a + b).drop_first() =~= a.drop_first() + b);
        assert((a + b).first() == a.first());
        assert((a + b).flatten() =~= a.flatten() + b.flatten());
    }
}

/// The raw text of a line splits wherever the fragment sequence does.
pub proof fn lemma_line_text_concat(a: Seq<TextFragment>, b: Seq<TextFragment>)
    ensures
        line_text(a + b) == line_text(a) + line_text(b),
    decreases b.len(),
{
    if b.len() == 0 {
        assert(a + b =~= a);
        assert(line_text(b) =~= Seq::<char>::empty());
        assert(line_text(a) + line_text(b) =~= line_text(a));
    } else {
        lemma_line_text_concat(a, b.drop_last());
        assert((a + b).drop_last() =~= a + b.drop_last());
        assert((a + b).last() == b.last());
        assert(line_text(a + b) =~= line_text(a) + line_text(b));
    }
}

/// Inserting a character and then deleting at the same index restores the
/// raw text, whenever the inserted character segments as a cluster of its
/// own and leaves its neighbours' clusters intact (as a standalone
/// grapheme such as an ASCII character does): `left` and `right` witness
/// how the combined text re-segments around the new cluster.
pub proof fn lemma_insert_then_delete_restores(
    pre: Seq<TextFragment>,
    mid: Seq<TextFragment>,
    post: Seq<TextFragment>,
    ch: char,
    gi: int,
    left: Seq<Seq<char>>,
    right: Seq<Seq<char>>,
)
    requires
        0 <= gi <= pre.len(),
        line_inserted(pre, mid, ch, gi),
        graphemes_of(insert_text(pre, gi, ch)) == left + seq![seq![ch]] + right,
        left.len() == gi,
        left.flatten() == line_text(pre.take(gi)),
        right.flatten() == line_text(pre.skip(gi)),
        post == mid.remove(gi),
    ensures
        line_text(post) == line_text(pre),
{
    let gs = graphemes_of(insert_text(pre, gi, ch));
    assert(line_matches(mid, gs));
    assert(mid.len() == left.len() + 1 + right.len());
    let trimmed = gs.remove(gi);
    assert(trimmed =~= left + right);
    assert(line_matches(post, trimmed)) by {
        assert forall|j: int| 0 <= j < post.len() implies fragment_for(
            trimmed[j],
            #[trigger] post[j],
        ) by {
            if j < gi {
                assert(post[j] == mid[j]);
                assert(trimmed[j] == gs[j]);
            } else {
                assert(post[j] == mid[j + 1]);
                assert(trimmed[j] == gs[j + 1]);
            }
        }
    }
    lemma_line_text_of_match(post, trimmed);
    lemma_flatten_concat(left, right);
    lemma_line_text_concat(pre.take(gi), pre.skip(gi));
    assert(pre.take(gi) + pre.skip(gi) =~= pre);
}

/// The text of a matching fragment sequence is the concatenation of the
/// clusters it was built from.
pub proof fn lemma_line_text_of_match(fs: Seq<TextFragment>, gs: Seq<Seq<char>>)
    requires
        line_matches(fs, gs),
    ensures
        line_text(fs) == gs.flatten(),
    decreases fs.len(),
{
    if fs.len() == 0 {
        assert(gs =~= Seq::<Seq<char>>::empty());
        assert(gs.flatten() =~= Seq::<char>::empty());
    } else {
        assert(line_matches(fs.drop_last(), gs.drop_last()));
        lemma_line_text_of_match(fs.drop_last(), gs.drop_last());
        gs.lemma_flatten_and_flatten_alt_are_equivalent();
        gs.drop_last().lemma_flatten_and_flatten_alt_are_equivalent();
        assert(gs.flatten_alt() == gs.drop_last().flatten_alt() + gs.last());
        assert(fs.last().grapheme@ == gs.last());
    }
}

} // verus!
