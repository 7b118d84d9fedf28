//! The declaration grouper: a single forward pass over the parsed item
//! sequence that, at each type declaration, scans the remainder of the
//! sequence for the impl blocks whose self type carries the declaration's
//! name, and attaches them to the declaration's group. An impl block or
//! other item reached on its own yields a discarded sentinel group.

use vstd::prelude::*;

use crate::abstraction::{
    enum_node, struct_node, trait_node, trait_sigs_from_decls, variants_from_decls, Abstract,
    Enum, Struct, Trait,
};
use crate::implem::{Implem, ImplemV};
use crate::method::{Method, MethodV};
use crate::paths::{dup_opt_string, dup_strings};
use crate::raw::{
    dup_fields, dup_path_segs, dup_signatures, stripped_sigs, FnSig, FnSigV, ParsedItem,
    ParsedItemV, RawItem, RawItemV,
};
use crate::state::{empty_state, ItemState, ItemStateV};
use crate::text::str_eq;

verus! {

/// Whether an entry is an impl block whose self type's leading path
/// segment carries the given name.
pub open spec fn impl_matches(e: ParsedItemV, name: Seq<char>) -> bool {
    match e.raw {
        RawItemV::Impl(d) => d.self_name == name,
        _ => false,
    }
}

/// The inherent-method records of one block's function items.
pub open spec fn sigs_to_methods(items: Seq<FnSigV>, path: Seq<Seq<char>>) -> Seq<MethodV>
    decreases items.len(),
{
    if items.len() == 0 {
        Seq::empty()
    } else {
        sigs_to_methods(items.drop_last(), path).push(
            MethodV {
                vis: items.last().vis,
                name: items.last().name,
                inputs: items.last().inputs,
                ret: items.last().ret,
                path: path,
            },
        )
    }
}

/// The inherent-method records of a matching impl block: one per
/// function item of a block that implements no trait, none for a trait
/// realization.
pub open spec fn methods_of(e: ParsedItemV) -> Seq<MethodV> {
    match e.raw {
        RawItemV::Impl(d) => match d.of_trait {
            Some(_) => Seq::empty(),
            None => sigs_to_methods(d.items, e.path),
        },
        _ => Seq::empty(),
    }
}

/// The trait realizations of a matching impl block: one when the block
/// implements a trait, none otherwise.
pub open spec fn implems_of(e: ParsedItemV) -> Seq<ImplemV> {
    match e.raw {
        RawItemV::Impl(d) => match d.of_trait {
            Some(segs) => seq![ImplemV { ty: segs, method: stripped_sigs(d.items) }],
            None => Seq::empty(),
        },
        _ => Seq::empty(),
    }
}

/// The method records gathered for a declaration named `name` from the
/// entries with indices in `start .. upto`, in encounter order.
pub open spec fn methods_in(entries: Seq<ParsedItemV>, name: Seq<char>, start: int, upto: int)
    -> Seq<MethodV>
    decreases upto - start,
{
    if upto <= start {
        Seq::empty()
    } else if impl_matches(entries[upto - 1], name) {
        methods_in(entries, name, start, upto - 1) + methods_of(entries[upto - 1])
    } else {
        methods_in(entries, name, start, upto - 1)
    }
}

/// The trait realizations gathered for a declaration named `name` from
/// the entries with indices in `start .. upto`, in encounter order.
pub open spec fn implems_in(entries: Seq<ParsedItemV>, name: Seq<char>, start: int, upto: int)
    -> Seq<ImplemV>
    decreases upto - start,
{
    if upto <= start {
        Seq::empty()
    } else if impl_matches(entries[upto - 1], name) {
        implems_in(entries, name, start, upto - 1) + implems_of(entries[upto - 1])
    } else {
        implems_in(entries, name, start, upto - 1)
    }
}

/// The declaration group that the grouper produces for the entry at
/// index `k`: an impl block or other item yields the sentinel.
pub open spec fn spec_state_at(entries: Seq<ParsedItemV>, k: int) -> ItemStateV
    recommends
        0 <= k < entries.len(),
{
    match entries[k].raw {
        RawItemV::Struct(d) => ItemStateV {
            node: crate::abstraction::AbstractV::Struct(struct_node(d, entries[k].path)),
            method: methods_in(entries, d.name, k + 1, entries.len() as int),
            implem: implems_in(entries, d.name, k + 1, entries.len() as int),
        },
        RawItemV::Enum(d) => ItemStateV {
            node: crate::abstraction::AbstractV::Enum(enum_node(d, entries[k].path)),
            method: methods_in(entries, d.name, k + 1, entries.len() as int),
            implem: implems_in(entries, d.name, k + 1, entries.len() as int),
        },
        RawItemV::Trait(d) => ItemStateV {
            node: crate::abstraction::AbstractV::Trait(trait_node(d, entries[k].path)),
            method: methods_in(entries, d.name, k + 1, entries.len() as int),
            implem: implems_in(entries, d.name, k + 1, entries.len() as int),
        },
        _ => empty_state(),
    }
}

/// The grouper: an iterable cursor over the parsed item sequence that
/// yields one declaration group per entry.
pub struct Item {
    pub entries: Vec<ParsedItem>,
    pub cursor: usize,
}

impl Item {
    /// A grouper standing at the head of the given sequence.
    pub fn new(entries: Vec<ParsedItem>) -> (r: Item)
        ensures
            r.entries == entries,
            r.cursor == 0,
    {
        Item { entries, cursor: 0 }
    }

    /// The group of the entry at index `k`: a declaration merged with the
    /// impl blocks after it that carry its name.
    pub fn state_at(entries: &Vec<ParsedItem>, k: usize) -> (r: ItemState)
        requires
            k < entries.len(),
        ensures
            r.deep_view() == spec_state_at(entries.deep_view(), k as int),
    {
        match &entries[k].raw {
            RawItem::Struct(d) => {
                let (method, implem) = collect_group(entries, k + 1, &d.name);
                let node = Abstract::Struct(
                    Struct {
                        path: entries[k].path.duplicate(),
                        vis: d.vis,
                        name: d.name.clone(),
                        fields: dup_fields(&d.fields),
                    },
                );
                let r = ItemState { node, method, implem };
                proof {
                    assert(r.deep_view() =~~= spec_state_at(entries.deep_view(), k as int));
                }
                r
            },
            RawItem::Enum(d) => {
                let (method, implem) = collect_group(entries, k + 1, &d.name);
                let node = Abstract::Enum(
                    Enum {
                        path: entries[k].path.duplicate(),
                        vis: d.vis,
                        name: d.name.clone(),
                        params: dup_strings(&d.params),
                        variants: variants_from_decls(&d.variants),
                    },
                );
                let r = ItemState { node, method, implem };
                proof {
                    assert(r.deep_view() =~~= spec_state_at(entries.deep_view(), k as int));
                }
                r
            },
            RawItem::Trait(d) => {
                let (method, implem) = collect_group(entries, k + 1, &d.name);
                let node = Abstract::Trait(
                    Trait {
                        path: entries[k].path.duplicate(),
                        vis: d.vis,
                        name: d.name.clone(),
                        params: dup_strings(&d.params),
                        items: trait_sigs_from_decls(&d.items),
                    },
                );
                let r = ItemState { node, method, implem };
                proof {
                    assert(r.deep_view() =~~= spec_state_at(entries.deep_view(), k as int));
                }
                r
            },
            _ => {
                let r = ItemState::empty();
                proof {
                    assert(r.deep_view() =~~= spec_state_at(entries.deep_view(), k as int));
                }
                r
            },
        }
    }

    /// The next declaration group: one attempt per input entry, in input
    /// order; the sentinel where the entry is no type declaration.
    pub fn next(&mut self) -> (r: Option<ItemState>)
        ensures
            final(self).entries == old(self).entries,
            old(self).cursor < old(self).entries.len() ==> {
                &&& final(self).cursor == old(self).cursor + 1
                &&& r matches Some(s) && s.deep_view() == spec_state_at(
                    old(self).entries.deep_view(),
                    old(self).cursor as int,
                )
            },
            old(self).cursor >= old(self).entries.len() ==> {
                &&& final(self).cursor == old(self).cursor
                &&& r is None
            },
    {
        if self.cursor < self.entries.len() {
            let s = Item::state_at(&self.entries, self.cursor);
            self.cursor += 1;
            Some(s)
        } else {
            None
        }
    }
}

/// Gathers, from the entries with indices in `start ..`, the method
/// records and trait realizations of the impl blocks that carry `name`.
fn collect_group(entries: &Vec<ParsedItem>, start: usize, name: &String) -> (r: (
    Vec<Method>,
    Vec<Implem>,
))
    ensures
        r.0.deep_view() == methods_in(
            entries.deep_view(),
            name@,
            start as int,
            entries.deep_view().len() as int,
        ),
        r.1.deep_view() == implems_in(
            entries.deep_view(),
            name@,
            start as int,
            entries.deep_view().len() as int,
        ),
{
    let mut method: Vec<Method> = Vec::new();
    let mut implem: Vec<Implem> = Vec::new();
    let mut i: usize = start;
    if start > entries.len() {
        return (method, implem);
    }
    while i < entries.len()
        invariant
            start <= i <= entries.len(),
            method.deep_view() =~= methods_in(
                entries.deep_view(),
                name@,
                start as int,
                i as int,
            ),
            implem.deep_view() =~= implems_in(
                entries.deep_view(),
                name@,
                start as int,
                i as int,
            ),
        decreases entries.len() - i,
    {
        match &entries[i].raw {
            RawItem::Impl(d) => {
                if str_eq(d.self_name.as_str(), name.as_str()) {
                    let ghost pre_m = method.deep_view();
                    let ghost pre_i = implem.deep_view();
                    proof {
                        assert(impl_matches(entries.deep_view()[i as int], name@));
                    }
                    match &d.of_trait {
                        Some(segs) => {
                            implem.push(
                                Implem { ty: dup_path_segs(segs), method: dup_signatures(&d.items) },
                            );
                            proof {
                                assert(method.deep_view() =~~= pre_m + methods_of(
                                    entries.deep_view()[i as int],
                                ));
                                assert(implem.deep_view() =~~= pre_i + implems_of(
                                    entries.deep_view()[i as int],
                                ));
                            }
                        },
                        None => {
                            let items: &Vec<FnSig> = &d.items;
                            let ghost path_v = entries.deep_view()[i as int].path;
                            let mut k: usize = 0;
                            while k < items.len()
                                invariant
                                    k <= items.len(),
                                    items == &d.items,
                                    entries.deep_view()[i as int].path == path_v,
                                    i < entries.len(),
                                    method.deep_view() =~= pre_m + sigs_to_methods(
                                        items.deep_view().subrange(0, k as int),
                                        path_v,
                                    ),
                                decreases items.len() - k,
                            {
                                let ghost pre_k = method.deep_view();
                                let f = &items[k];
                                method.push(
                                    Method {
                                        vis: f.vis,
                                        name: f.name.clone(),
                                        inputs: dup_strings(&f.inputs),
                                        ret: dup_opt_string(&f.ret),
                                        path: entries[i].path.duplicate(),
                                    },
                                );
                                proof {
                                    let cur = items.deep_view().subrange(0, k + 1);
                                    assert(cur.drop_last() =~= items.deep_view().subrange(
                                        0,
                                        k as int,
                                    ));
                                    assert(cur.last() == items.deep_view()[k as int]);
                                    assert(method.deep_view() =~~= pre_k.push(
                                        MethodV {
                                            vis: items.deep_view()[k as int].vis,
                                            name: items.deep_view()[k as int].name,
                                            inputs: items.deep_view()[k as int].inputs,
                                            ret: items.deep_view()[k as int].ret,
                                            path: path_v,
                                        },
                                    ));
                                }
                                k += 1;
                            }
                            proof {
                                assert(items.deep_view().subrange(0, items.len() as int)
                                    =~= items.deep_view());
                                assert(method.deep_view() =~= pre_m + methods_of(
                                    entries.deep_view()[i as int],
                                ));
                                assert(implem.deep_view() =~= pre_i + implems_of(
                                    entries.deep_view()[i as int],
                                ));
                            }
                        },
                    }
                } else {
                    proof {
                        assert(!impl_matches(entries.deep_view()[i as int], name@));
                    }
                }
            },
            _ => {
                proof {
                    assert(!impl_matches(entries.deep_view()[i as int], name@));
                }
            },
        }
        i += 1;
    }
    (method, implem)
}

} // verus!
