//! The stated properties of the engine: grouping is a pure function of the
//! input, the assembled edge list never repeats an ordered pair, a mutual
//! association collapses its arrowhead, and token-exact matching separates
//! by-value containment from reference use.

use vstd::prelude::*;

use crate::graph::{dedup_segments, spec_edge_arrow, spec_edges, spec_nodes, SegmentV};
use crate::item::{spec_state_at, Item};
use crate::relation::{spec_classify, Relation};
use crate::state::{spec_is_composition, spec_is_dependency, ItemStateV};
use crate::method::method_takes;
use crate::text::{has_token, is_sep, is_suffix_of, sep_free, token_at};

verus! {

/// Grouping idempotence: the declaration groups are a pure function of
/// the input sequence, so re-running the grouper over a structurally
/// identical input yields structurally identical groups at every
/// position, and the same node list.
pub proof fn lemma_grouping_idempotent(x: Item, y: Item, k: int)
    requires
        x.entries.deep_view() == y.entries.deep_view(),
        0 <= k < x.entries.deep_view().len(),
    ensures
        spec_state_at(x.entries.deep_view(), k) == spec_state_at(y.entries.deep_view(), k),
        spec_nodes(x.entries.deep_view(), x.entries.deep_view().len() as int) == spec_nodes(
            y.entries.deep_view(),
            y.entries.deep_view().len() as int,
        ),
{
}

/// Edge deduplication: the assembled edge list holds at most one edge for
/// any ordered pair of nodes — no two of its entries are structurally
/// equal.
pub proof fn lemma_edges_deduplicated(segs: Seq<SegmentV>)
    ensures
        forall|i: int, j: int|
            0 <= i < j < dedup_segments(segs).len() ==> dedup_segments(segs)[i]
                != dedup_segments(segs)[j],
    decreases segs.len(),
{
    if segs.len() == 0 {
    } else {
        let pre = segs.drop_last();
        lemma_edges_deduplicated(pre);
        let d = dedup_segments(pre);
        if d.contains(segs.last()) {
        } else {
            assert forall|i: int, j: int|
                0 <= i < j < dedup_segments(segs).len() implies dedup_segments(segs)[i]
                != dedup_segments(segs)[j] by {
                if j < d.len() {
                } else {
                    assert(dedup_segments(segs)[j] == segs.last());
                    assert(dedup_segments(segs)[i] == d[i]);
                    if d[i] == segs.last() {
                        assert(d.contains(segs.last()));
                    }
                }
            }
        }
    }
}

/// The dedup property at the graph: the edge list assembled from any
/// input holds at most one edge for any ordered pair of nodes.
pub proof fn lemma_assembled_edges_unique(entries: Seq<crate::raw::ParsedItemV>)
    ensures
        forall|i: int, j: int|
            0 <= i < j < spec_edges(entries).len() ==> spec_edges(entries)[i] != spec_edges(
                entries,
            )[j],
{
    let nodes = spec_nodes(entries, entries.len() as int);
    lemma_edges_deduplicated(crate::graph::all_segments(nodes, nodes.len() as int));
}

/// Deduplication loses no edge and invents none: an edge stands in the
/// deduplicated list exactly when it stood in the collected list.
pub proof fn lemma_dedup_membership(segs: Seq<SegmentV>, x: SegmentV)
    ensures
        dedup_segments(segs).contains(x) <==> segs.contains(x),
    decreases segs.len(),
{
    if segs.len() == 0 {
    } else {
        let pre = segs.drop_last();
        lemma_dedup_membership(pre, x);
        let d = dedup_segments(pre);
        let out = dedup_segments(segs);

        if out.contains(x) {
            let w = choose|k: int| 0 <= k < out.len() && out[k] == x;
            if w < d.len() {
                assert(d[w] == x);
                assert(d.contains(x));
                let v = choose|k: int| 0 <= k < pre.len() && pre[k] == x;
                assert(segs[v] == x);
                assert(segs.contains(x));
            } else {
                assert(x == segs.last());
                assert(segs[segs.len() - 1] == x);
                assert(segs.contains(x));
            }
        }

        if segs.contains(x) {
            let w = choose|k: int| 0 <= k < segs.len() && segs[k] == x;
            if w < pre.len() {
                assert(pre[w] == x);
                assert(pre.contains(x));
                let v = choose|k: int| 0 <= k < d.len() && d[k] == x;
                assert(out[v] == x);
                assert(out.contains(x));
            } else {
                assert(x == segs.last());
                if d.contains(segs.last()) {
                    let v = choose|k: int| 0 <= k < d.len() && d[k] == segs.last();
                    assert(out[v] == x);
                    assert(out.contains(x));
                } else {
                    assert(out[out.len() - 1] == x);
                    assert(out.contains(x));
                }
            }
        }
    }
}

/// Symmetric-association override: when both directions of a pair
/// classify as association, the edge renders with no arrowhead at all.
pub proof fn lemma_symmetric_association_arrow(s: SegmentV)
    requires
        spec_classify(s.left, s.right) == Some(Relation::Association),
        spec_classify(s.right, s.left) == Some(Relation::Association),
    ensures
        spec_edge_arrow(s) == "none"@,
{
}

/// Token-exact composition: a member whose type text is exactly the
/// candidate's name yields composition with it.
pub proof fn lemma_token_exact_composition(a: ItemStateV, b: ItemStateV, i: int, n: Seq<char>)
    requires
        a.node.nm() == Some(n),
        sep_free(n, false),
        0 <= i < b.node.members().len(),
        b.node.members()[i] == n,
    ensures
        spec_is_composition(a, b),
{
    assert(n.subrange(0, n.len() as int) =~= n);
    assert(token_at(n, n, false, 0));
    assert(has_token(b.node.members()[i], n, false));
}

/// Substring dependency: a reference-shaped type text — the name behind a
/// leading marker such as `&` — ends with the name, so a parameter of
/// that text yields dependency; yet it is not an exact token, so the same
/// text as a member yields no composition.
pub proof fn lemma_reference_text_matches(n: Seq<char>, t: Seq<char>)
    requires
        t == seq!['&'] + n,
        n.len() > 0,
        sep_free(n, true),
        n[0] != '&',
    ensures
        is_suffix_of(n, t),
        !has_token(t, n, false),
        !has_token(t, n, true),
{
    assert(t.subrange(t.len() - n.len(), t.len() as int) =~= n);
    assert forall|i: int| !token_at(t, n, false, i) by {
        if token_at(t, n, false, i) {
            assert(0 <= i <= 1);
            if i == 0 {
                assert(t.subrange(0, n.len() as int)[0] == '&');
                assert(n[0] == '&');
            } else {
                assert(is_sep(t[0], false));
                assert(t[0] == '&');
            }
        }
    }
    assert forall|i: int| !token_at(t, n, true, i) by {
        if token_at(t, n, true, i) {
            assert(0 <= i <= 1);
            if i == 0 {
                assert(t.subrange(0, n.len() as int)[0] == '&');
                assert(n[0] == '&');
            } else {
                assert(is_sep(t[0], true));
                assert(t[0] == '&');
            }
        }
    }
}

/// A reference-shaped parameter yields dependency: when some inherent
/// method of `b` has a parameter whose type text ends with `a`'s name,
/// the pair classifies as dependent.
pub proof fn lemma_reference_parameter_dependency(
    a: ItemStateV,
    b: ItemStateV,
    i: int,
    k: int,
    n: Seq<char>,
)
    requires
        a.node.nm() == Some(n),
        0 <= i < b.method.len(),
        0 <= k < b.method[i].inputs.len(),
        is_suffix_of(n, b.method[i].inputs[k]),
    ensures
        spec_is_dependency(a, b),
{
    assert(method_takes(b.method[i], n));
}

} // verus!
