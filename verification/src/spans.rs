//! Splitting a word at its anchor into the part before it, the anchor and
//! the part after it, by character clusters.

use vstd::prelude::*;
use vstd::string::StringExecFns;
use crate::renderer::{anchor_out_of_bounds, out_of_bounds_message, RendererError};

verus! {

/// The extended grapheme clusters of a word, in order.
pub uninterp spec fn grapheme_clusters(word: Seq<char>) -> Seq<Seq<char>>;

/// The values of a sequence of strings.
pub open spec fn string_views(strings: Seq<String>) -> Seq<Seq<char>> {
    Seq::new(strings.len(), |i: int| strings[i]@)
}

/// The clusters written one after the other.
pub open spec fn joined(clusters: Seq<Seq<char>>) -> Seq<char>
    decreases clusters.len(),
{
    if clusters.len() == 0 {
        Seq::empty()
    } else {
        joined(clusters.drop_last()) + clusters.last()
    }
}

/// `unicode_segmentation::UnicodeSegmentation::graphemes` with extended
/// clusters. The iterator hands out consecutive slices of the word from its
/// start to its end, each from one cluster boundary to the next: so no
/// cluster is empty and together they spell the word.
#[verifier::external_body]
fn graphemes_of(word: &str) -> (clusters: Vec<String>)
    ensures
        string_views(clusters@) == grapheme_clusters(word@),
        joined(string_views(clusters@)) == word@,
        forall|i: int| 0 <= i < clusters@.len() ==> (#[trigger] clusters@[i])@.len() > 0,
{
    unicode_segmentation::UnicodeSegmentation::graphemes(word, true).map(String::from).collect()
}

/// A word in three parts.
#[derive(Debug, Clone, PartialEq, Eq)]
pub struct WordSpans {
    /// The clusters before the anchor, joined.
    pub prefix: String,
    /// The anchor: one cluster.
    pub anchor: String,
    /// The clusters after the anchor, joined.
    pub suffix: String,
    /// How many clusters the prefix holds.
    pub prefix_clusters: usize,
    /// How many clusters the suffix holds.
    pub suffix_clusters: usize,
}

/// `spans` is the split of `clusters` at the cluster number `anchor`.
pub open spec fn is_split(spans: WordSpans, clusters: Seq<Seq<char>>, anchor: int) -> bool {
    &&& 0 <= anchor < clusters.len()
    &&& spans.prefix@ == joined(clusters.subrange(0, anchor))
    &&& spans.anchor@ == clusters[anchor]
    &&& spans.suffix@ == joined(clusters.subrange(anchor + 1, clusters.len() as int))
    &&& spans.prefix_clusters == anchor
    &&& spans.suffix_clusters == clusters.len() - anchor - 1
}

/// Joining two runs of clusters joins their texts.
pub proof fn lemma_joined_concat(a: Seq<Seq<char>>, b: Seq<Seq<char>>)
    ensures
        joined(a + b) == joined(a) + joined(b),
    decreases b.len(),
{
    if b.len() == 0 {
        assert(a + b =~= a);
        assert(joined(a) + joined(b) =~= joined(a));
    } else {
        lemma_joined_concat(a, b.drop_last());
        assert((a + b).drop_last() =~= a + b.drop_last());
        assert((a + b).last() == b.last());
        assert(joined(a) + (joined(b.drop_last()) + b.last()) =~= (joined(a) + joined(
            b.drop_last(),
        )) + b.last());
    }
}

/// The three parts of a split hold every cluster once: their numbers add up
/// to the number of clusters of the word, and written one after the other
/// they spell the word.
pub proof fn lemma_split_is_complete(spans: WordSpans, clusters: Seq<Seq<char>>, anchor: int)
    requires
        is_split(spans, clusters, anchor),
    ensures
        spans.prefix_clusters + 1 + spans.suffix_clusters == clusters.len(),
        spans.prefix@ + spans.anchor@ + spans.suffix@ == joined(clusters),
{
    let before = clusters.subrange(0, anchor);
    let one = seq![clusters[anchor]];
    let after = clusters.subrange(anchor + 1, clusters.len() as int);
    assert(clusters =~= (before + one) + after);
    lemma_joined_concat(before + one, after);
    lemma_joined_concat(before, one);
    assert(one.drop_last() =~= Seq::<Seq<char>>::empty());
    assert(joined(one.drop_last()) =~= Seq::<char>::empty());
    assert(one.last() == clusters[anchor]);
    assert(joined(one) =~= clusters[anchor]);
    assert(joined(clusters) =~= spans.prefix@ + spans.anchor@ + spans.suffix@);
}

fn join_range(clusters: &Vec<String>, from: usize, to: usize) -> (text: String)
    requires
        from <= to <= clusters@.len(),
    ensures
        text@ == joined(string_views(clusters@).subrange(from as int, to as int)),
{
    let mut text = String::new();
    let mut i: usize = from;
    let ghost views = string_views(clusters@);
    assert(views.subrange(from as int, from as int) =~= Seq::<Seq<char>>::empty());
    while i < to
        invariant
            from <= i <= to <= clusters@.len(),
            views == string_views(clusters@),
            text@ == joined(views.subrange(from as int, i as int)),
        decreases to - i,
    {
        text.append(clusters[i].as_str());
        proof {
            let next = views.subrange(from as int, i + 1);
            assert(next.drop_last() =~= views.subrange(from as int, i as int));
            assert(next.last() == clusters@[i as int]@);
        }
        i += 1;
    }
    text
}

/// Splits a word, given by its clusters, at the cluster number
/// `anchor_position`; `None` where the word has no such cluster.
pub fn spans_from_clusters(clusters: &Vec<String>, anchor_position: usize) -> (spans: Option<
    WordSpans,
>)
    ensures
        anchor_position < clusters@.len() ==> (spans matches Some(s) && is_split(
            s,
            string_views(clusters@),
            anchor_position as int,
        )),
        anchor_position >= clusters@.len() ==> spans is None,
{
    let n: usize = clusters.len();
    if anchor_position >= n {
        return None;
    }
    let prefix = join_range(clusters, 0, anchor_position);
    let anchor = clusters[anchor_position].clone();
    let suffix = join_range(clusters, anchor_position + 1, n);
    Some(
        WordSpans {
            prefix,
            anchor,
            suffix,
            prefix_clusters: anchor_position,
            suffix_clusters: n - anchor_position - 1,
        },
    )
}

/// Splits `word` at its cluster number `anchor_position`. An anchor that is
/// not the number of a cluster of the word, as in every empty word, is an
/// `InvalidArguments` error.
pub fn split_at_anchor(word: &str, anchor_position: usize) -> (result: Result<
    WordSpans,
    RendererError,
>)
    ensures
        anchor_position < grapheme_clusters(word@).len() ==> (result matches Ok(s) && is_split(
            s,
            grapheme_clusters(word@),
            anchor_position as int,
        ) && s.prefix@ + s.anchor@ + s.suffix@ == word@ && s.anchor@.len() > 0),
        anchor_position >= grapheme_clusters(word@).len() ==> (result matches Err(
            RendererError::InvalidArguments(msg),
        ) && msg@ == out_of_bounds_message(
            anchor_position as nat,
            word@,
            grapheme_clusters(word@).len(),
        )),
{
    let clusters = graphemes_of(word);
    match spans_from_clusters(&clusters, anchor_position) {
        Some(spans) => {
            proof {
                lemma_split_is_complete(spans, string_views(clusters@), anchor_position as int);
                assert(clusters@[anchor_position as int]@.len() > 0);
            }
            Ok(spans)
        },
        None => Err(anchor_out_of_bounds(anchor_position, word, clusters.len())),
    }
}

/// The number of clusters of `word`.
pub fn cluster_count(word: &str) -> (count: usize)
    ensures
        count == grapheme_clusters(word@).len(),
{
    graphemes_of(word).len()
}

} // verus!
