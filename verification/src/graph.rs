//! Graph assembly: the node list of every non-sentinel declaration group
//! in first-seen order, and the edge list of every related ordered pair,
//! deduplicated by structural equality of the pair, each edge with its
//! arrowhead and line-style tokens.

use vstd::prelude::*;

use crate::item::{spec_state_at, Item};
use crate::raw::{ParsedItem, ParsedItemV};
use crate::relation::{spec_arrowhead, spec_classify, spec_is_dashed, Relation};
use crate::state::{spec_is_relation, ItemState, ItemStateV};

verus! {

/// One assembled edge: an ordered pair of declaration groups with a
/// relation from left to right.
pub struct Segment {
    pub left: ItemState,
    pub right: ItemState,
}

/// Ghost image of a `Segment`.
#[verifier::ext_equal]
pub struct SegmentV {
    pub left: ItemStateV,
    pub right: ItemStateV,
}

impl DeepView for Segment {
    type V = SegmentV;

    open spec fn deep_view(&self) -> SegmentV {
        SegmentV { left: self.left.deep_view(), right: self.right.deep_view() }
    }
}

/// The non-sentinel groups among the first `upto` grouper outputs, in
/// first-seen order.
pub open spec fn spec_nodes(entries: Seq<ParsedItemV>, upto: int) -> Seq<ItemStateV>
    decreases upto,
{
    if upto <= 0 {
        Seq::empty()
    } else if spec_state_at(entries, upto - 1).node is Empty {
        spec_nodes(entries, upto - 1)
    } else {
        spec_nodes(entries, upto - 1).push(spec_state_at(entries, upto - 1))
    }
}

/// The edges from node `i` to the first `upto` nodes: one for each
/// distinct candidate that `i` relates to.
pub open spec fn seg_row(nodes: Seq<ItemStateV>, i: int, upto: int) -> Seq<SegmentV>
    decreases upto,
{
    if upto <= 0 {
        Seq::empty()
    } else if nodes[i] != nodes[upto - 1] && spec_is_relation(nodes[i], nodes[upto - 1]) {
        seg_row(nodes, i, upto - 1).push(SegmentV { left: nodes[i], right: nodes[upto - 1] })
    } else {
        seg_row(nodes, i, upto - 1)
    }
}

/// All edges of the first `upto` source nodes, row by row.
pub open spec fn all_segments(nodes: Seq<ItemStateV>, upto: int) -> Seq<SegmentV>
    decreases upto,
{
    if upto <= 0 {
        Seq::empty()
    } else {
        all_segments(nodes, upto - 1) + seg_row(nodes, upto - 1, nodes.len() as int)
    }
}

/// Deduplication by structural equality, keeping the first occurrence of
/// each edge in order.
pub open spec fn dedup_segments(segs: Seq<SegmentV>) -> Seq<SegmentV>
    decreases segs.len(),
{
    if segs.len() == 0 {
        Seq::empty()
    } else {
        let d = dedup_segments(segs.drop_last());
        if d.contains(segs.last()) {
            d
        } else {
            d.push(segs.last())
        }
    }
}

/// The edge list assembled from a parsed item sequence.
pub open spec fn spec_edges(entries: Seq<ParsedItemV>) -> Seq<SegmentV> {
    let nodes = spec_nodes(entries, entries.len() as int);
    dedup_segments(all_segments(nodes, nodes.len() as int))
}

/// The index of the first non-sentinel group at or after `c`, or the
/// sequence's length when none is left.
pub open spec fn next_listed(entries: Seq<ParsedItemV>, c: int) -> int
    decreases entries.len() - c,
{
    if c >= entries.len() {
        c
    } else if !(spec_state_at(entries, c).node is Empty) {
        c
    } else {
        next_listed(entries, c + 1)
    }
}

/// The assembled diagram: an iterable collection of declaration groups
/// that also answers the graph queries — node list, edge list, and the
/// rendering attributes of each.
pub struct ListItem {
    pub parse: Item,
}

impl ListItem {
    /// A collection over the given parsed item sequence.
    pub fn new(entries: Vec<ParsedItem>) -> (r: ListItem)
        ensures
            r.parse.entries == entries,
            r.parse.cursor == 0,
    {
        ListItem { parse: Item::new(entries) }
    }

    /// The next non-sentinel declaration group, skipping everything the
    /// grouper discards.
    #[verifier::loop_isolation(false)]
    pub fn next(&mut self) -> (r: Option<ItemState>)
        ensures
            final(self).parse.entries == old(self).parse.entries,
            ({
                let ev = old(self).parse.entries.deep_view();
                let n = next_listed(ev, old(self).parse.cursor as int);
                if n < ev.len() {
                    &&& r matches Some(s) && s.deep_view() == spec_state_at(ev, n)
                    &&& final(self).parse.cursor == n + 1
                } else {
                    &&& r is None
                    &&& final(self).parse.cursor == n
                }
            }),
    {
        let ghost ev = self.parse.entries.deep_view();
        let ghost c0 = self.parse.cursor as int;
        while self.parse.cursor < self.parse.entries.len()
            invariant
                self.parse.entries == old(self).parse.entries,
                c0 <= self.parse.cursor as int,
                self.parse.cursor as int <= vstd::math::max(c0, ev.len() as int),
                next_listed(ev, c0) == next_listed(ev, self.parse.cursor as int),
            decreases ev.len() - self.parse.cursor as int,
        {
            let ghost cb = self.parse.cursor as int;
            let s = self.parse.next();
            match s {
                Some(state) => {
                    if !state.is_none() {
                        proof {
                            assert(next_listed(ev, cb) == cb);
                        }
                        return Some(state);
                    }
                    proof {
                        assert(next_listed(ev, cb) == next_listed(ev, cb + 1));
                    }
                },
                None => {
                    proof {
                        assert(false);
                    }
                },
            }
        }
        None
    }

    /// Every non-sentinel declaration group of the input, in first-seen
    /// order: the diagram's nodes.
    #[verifier::loop_isolation(false)]
    pub fn nodes(&self) -> (r: Vec<ItemState>)
        ensures
            r.deep_view() == spec_nodes(
                self.parse.entries.deep_view(),
                self.parse.entries.deep_view().len() as int,
            ),
    {
        let ghost ev = self.parse.entries.deep_view();
        let mut r: Vec<ItemState> = Vec::new();
        let mut k: usize = 0;
        while k < self.parse.entries.len()
            invariant
                k <= self.parse.entries.len(),
                r.deep_view() =~= spec_nodes(ev, k as int),
            decreases self.parse.entries.len() - k,
        {
            let s = Item::state_at(&self.parse.entries, k);
            let ghost pre = r.deep_view();
            if !s.is_none() {
                r.push(s);
                proof {
                    assert(r.deep_view() =~= pre.push(spec_state_at(ev, k as int)));
                }
            }
            k += 1;
        }
        r
    }

    /// The deduplicated edge list: for every ordered pair of distinct,
    /// related nodes one edge, first occurrence kept, in node order.
    #[verifier::loop_isolation(false)]
    pub fn edges(&self) -> (r: Vec<Segment>)
        ensures
            r.deep_view() == spec_edges(self.parse.entries.deep_view()),
    {
        let nodes = self.nodes();
        let ghost nv = nodes.deep_view();
        let mut all: Vec<Segment> = Vec::new();
        let mut i: usize = 0;
        while i < nodes.len()
            invariant
                i <= nodes.len(),
                nodes.deep_view() == nv,
                all.deep_view() =~= all_segments(nv, i as int),
            decreases nodes.len() - i,
        {
            let mut j: usize = 0;
            while j < nodes.len()
                invariant
                    i < nodes.len(),
                    j <= nodes.len(),
                    nodes.deep_view() == nv,
                    all.deep_view() =~= all_segments(nv, i as int) + seg_row(
                        nv,
                        i as int,
                        j as int,
                    ),
                decreases nodes.len() - j,
            {
                proof {
                    assert(nodes.deep_view()[i as int] == nodes@[i as int].deep_view());
                    assert(nodes.deep_view()[j as int] == nodes@[j as int].deep_view());
                }
                if !nodes[i].same_as(&nodes[j]) && nodes[i].is_relation(&nodes[j]) {
                    let ghost pre = all.deep_view();
                    all.push(
                        Segment { left: nodes[i].duplicate(), right: nodes[j].duplicate() },
                    );
                    proof {
                        assert(all.deep_view() =~~= pre.push(
                            SegmentV { left: nv[i as int], right: nv[j as int] },
                        ));
                    }
                }
                j += 1;
            }
            i += 1;
            proof {
                assert(all.deep_view() =~= all_segments(nv, i as int));
            }
        }
        let mut out: Vec<Segment> = Vec::new();
        let mut k: usize = 0;
        while k < all.len()
            invariant
                k <= all.len(),
                out.deep_view() =~= dedup_segments(all.deep_view().subrange(0, k as int)),
            decreases all.len() - k,
        {
            proof {
                assert(all.deep_view()[k as int] == all@[k as int].deep_view());
                let cur = all.deep_view().subrange(0, k + 1);
                assert(cur.drop_last() =~= all.deep_view().subrange(0, k as int));
                assert(cur.last() == all.deep_view()[k as int]);
            }
            let ghost pre = out.deep_view();
            if !contains_segment(&out, &all[k]) {
                out.push(
                    Segment { left: all[k].left.duplicate(), right: all[k].right.duplicate() },
                );
                proof {
                    assert(out.deep_view() =~~= pre.push(all.deep_view()[k as int]));
                }
            }
            k += 1;
        }
        proof {
            assert(all.deep_view().subrange(0, all.len() as int) =~= all.deep_view());
            assert(all.deep_view() =~= all_segments(nv, nv.len() as int));
        }
        out
    }

    /// The source node of an edge.
    pub fn source(&self, seg: &Segment) -> (r: ItemState)
        ensures
            r.deep_view() == seg.deep_view().left,
    {
        seg.left.duplicate()
    }

    /// The target node of an edge.
    pub fn target(&self, seg: &Segment) -> (r: ItemState)
        ensures
            r.deep_view() == seg.deep_view().right,
    {
        seg.right.duplicate()
    }

    /// The identifier of the whole graph.
    pub fn graph_id(&self) -> (r: &'static str)
        ensures
            r@ == "ml"@,
    {
        "ml"
    }

    /// The renderer's node shape.
    pub fn node_shape(&self, _node: &ItemState) -> (r: Option<&'static str>)
        ensures
            r matches Some(s) && s@ == "record"@,
    {
        Some("record")
    }

    /// The unique identifier of a node, derived from its name.
    pub fn node_id(&self, state: &ItemState) -> (r: String)
        requires
            !(state.deep_view().node is Empty),
        ensures
            r@ == "nd"@ + state.deep_view().node.nm().unwrap(),
    {
        let mut r: String = String::new();
        r.append("nd");
        match state.as_name() {
            Some(name) => {
                r.append(name.as_str());
            },
            None => {},
        }
        r
    }

    /// The arrowhead token of an edge: `none` for a mutual association,
    /// else the token of the pair's representative relation kind.
    pub fn edge_end_arrow(&self, seg: &Segment) -> (r: &'static str)
        ensures
            r@ == spec_edge_arrow(seg.deep_view()),
    {
        let forward: Option<Relation> = seg.left.as_arrow(&seg.right);
        let backward: Option<Relation> = seg.right.as_arrow(&seg.left);
        match (forward, backward) {
            (Some(Relation::Association), Some(Relation::Association)) => "none",
            (Some(rel), _) => rel.as_arrowhead(),
            (None, _) => "none",
        }
    }

    /// The line-style token of an edge: `dashed` for a dependency or a
    /// realization, else `solid`.
    pub fn edge_style(&self, seg: &Segment) -> (r: &'static str)
        ensures
            r@ == spec_edge_style(seg.deep_view()),
    {
        match seg.left.as_arrow(&seg.right) {
            Some(rel) => {
                if rel.is_dashed() {
                    "dashed"
                } else {
                    "solid"
                }
            },
            None => "solid",
        }
    }
}

/// The arrowhead token of an edge. A pair of mutual associations renders
/// with no arrowhead at all; a pair with no relation (which the assembler
/// never emits) also answers `none`.
pub open spec fn spec_edge_arrow(s: SegmentV) -> Seq<char> {
    match (spec_classify(s.left, s.right), spec_classify(s.right, s.left)) {
        (Some(Relation::Association), Some(Relation::Association)) => "none"@,
        (Some(rel), _) => spec_arrowhead(rel),
        (None, _) => "none"@,
    }
}

/// The line-style token of an edge.
pub open spec fn spec_edge_style(s: SegmentV) -> Seq<char> {
    match spec_classify(s.left, s.right) {
        Some(rel) => if spec_is_dashed(rel) {
            "dashed"@
        } else {
            "solid"@
        },
        None => "solid"@,
    }
}

/// Whether the collected edges already hold one with this image.
fn contains_segment(v: &Vec<Segment>, s: &Segment) -> (r: bool)
    ensures
        r == v.deep_view().contains(s.deep_view()),
{
    let mut i: usize = 0;
    while i < v.len()
        invariant
            i <= v.len(),
            forall|k: int| 0 <= k < i ==> v.deep_view()[k] != s.deep_view(),
        decreases v.len() - i,
    {
        proof {
            assert(v.deep_view()[i as int] == v@[i as int].deep_view());
        }
        if v[i].left.same_as(&s.left) && v[i].right.same_as(&s.right) {
            proof {
                assert(v.deep_view()[i as int] =~= s.deep_view());
            }
            return true;
        }
        proof {
            assert(v.deep_view()[i as int] != s.deep_view());
        }
        i += 1;
    }
    proof {
        if v.deep_view().contains(s.deep_view()) {
            let w = choose|k: int|
                0 <= k < v.deep_view().len() && v.deep_view()[k] == s.deep_view();
            assert(v.deep_view()[w] != s.deep_view());
        }
    }
    false
}

} // verus!
