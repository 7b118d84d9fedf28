//! One declaration group: the normalized node of a type declaration
//! together with the method records and trait realizations of its attached
//! impl blocks, and the pairwise relation predicates over two groups.

use vstd::prelude::*;

use crate::abstraction::{Abstract, AbstractV};
use crate::implem::{implem_realizes, implem_returns, Implem, ImplemV};
use crate::method::{method_returns, method_takes, Method, MethodV};
use crate::text::{contains_token, has_token};

verus! {

/// A declaration group: one abstract node, the inherent-method records of
/// its impl blocks, and its trait realizations.
pub struct ItemState {
    pub node: Abstract,
    pub method: Vec<Method>,
    pub implem: Vec<Implem>,
}

/// Ghost image of an `ItemState`.
#[verifier::ext_equal]
pub struct ItemStateV {
    pub node: AbstractV,
    pub method: Seq<MethodV>,
    pub implem: Seq<ImplemV>,
}

impl DeepView for ItemState {
    type V = ItemStateV;

    open spec fn deep_view(&self) -> ItemStateV {
        ItemStateV {
            node: self.node.deep_view(),
            method: self.method.deep_view(),
            implem: self.implem.deep_view(),
        }
    }
}

/// Association: some method or realization method of `b` returns `a`'s
/// type — its return type text yields a token equal to `a`'s name.
pub open spec fn spec_is_association(a: ItemStateV, b: ItemStateV) -> bool {
    match a.node.nm() {
        Some(n) => {
            ||| exists|i: int| 0 <= i < b.method.len() && method_returns(#[trigger] b.method[i], n)
            ||| exists|i: int| 0 <= i < b.implem.len() && implem_returns(#[trigger] b.implem[i], n)
        },
        None => false,
    }
}

/// Dependency: some method of `b` has a parameter type text that ends
/// with `a`'s name. A realization of `a` never reports a dependency of
/// its own — that detection is a known gap of the classifier.
pub open spec fn spec_is_dependency(a: ItemStateV, b: ItemStateV) -> bool {
    match a.node.nm() {
        Some(n) => exists|i: int|
            0 <= i < b.method.len() && method_takes(#[trigger] b.method[i], n),
        None => false,
    }
}

/// Aggregation: a member type text of `b`, split at the separator
/// characters but not at the space, yields a token equal to `*mut ` or
/// `*const ` followed by `a`'s name.
pub open spec fn spec_is_aggregation(a: ItemStateV, b: ItemStateV) -> bool {
    match a.node.nm() {
        Some(n) => exists|i: int|
            0 <= i < b.node.members().len() && (has_token(
                #[trigger] b.node.members()[i],
                "*mut "@ + n,
                false,
            ) || has_token(b.node.members()[i], "*const "@ + n, false)),
        None => false,
    }
}

/// Composition: a member type text of `b`, split at the separator
/// characters but not at the space, yields a token equal to `a`'s name —
/// by-value containment.
pub open spec fn spec_is_composition(a: ItemStateV, b: ItemStateV) -> bool {
    match a.node.nm() {
        Some(n) => exists|i: int|
            0 <= i < b.node.members().len() && has_token(#[trigger] b.node.members()[i], n, false),
        None => false,
    }
}

/// Realization: `b` has a trait realization whose leading path segment
/// equals `a`'s name, that is `b` implements the trait `a`.
pub open spec fn spec_is_realization(a: ItemStateV, b: ItemStateV) -> bool {
    match a.node.nm() {
        Some(n) => exists|i: int|
            0 <= i < b.implem.len() && implem_realizes(#[trigger] b.implem[i], n),
        None => false,
    }
}

/// Whether any of the five relation kinds holds for the ordered pair.
pub open spec fn spec_is_relation(a: ItemStateV, b: ItemStateV) -> bool {
    ||| spec_is_association(a, b)
    ||| spec_is_dependency(a, b)
    ||| spec_is_aggregation(a, b)
    ||| spec_is_composition(a, b)
    ||| spec_is_realization(a, b)
}

impl ItemState {
    /// A copy of this group, with the same shape.
    pub fn duplicate(&self) -> (r: ItemState)
        ensures
            r.deep_view() == self.deep_view(),
    {
        let mut method: Vec<Method> = Vec::new();
        let mut i: usize = 0;
        while i < self.method.len()
            invariant
                i <= self.method.len(),
                method.deep_view() =~= self.method.deep_view().subrange(0, i as int),
            decreases self.method.len() - i,
        {
            let ghost pre = method.deep_view();
            method.push(self.method[i].duplicate());
            proof {
                assert(method.deep_view() =~= pre.push(self.method.deep_view()[i as int]));
            }
            i += 1;
        }
        let mut implem: Vec<Implem> = Vec::new();
        let mut j: usize = 0;
        while j < self.implem.len()
            invariant
                j <= self.implem.len(),
                implem.deep_view() =~= self.implem.deep_view().subrange(0, j as int),
            decreases self.implem.len() - j,
        {
            let ghost pre = implem.deep_view();
            implem.push(self.implem[j].duplicate());
            proof {
                assert(implem.deep_view() =~= pre.push(self.implem.deep_view()[j as int]));
            }
            j += 1;
        }
        let r = ItemState { node: self.node.duplicate(), method, implem };
        proof {
            assert(self.method.deep_view().subrange(0, self.method.len() as int)
                =~= self.method.deep_view());
            assert(self.implem.deep_view().subrange(0, self.implem.len() as int)
                =~= self.implem.deep_view());
            assert(r.deep_view() =~~= self.deep_view());
        }
        r
    }

    /// A group with the `Empty` sentinel node and nothing attached.
    pub fn empty() -> (r: ItemState)
        ensures
            r.deep_view() == empty_state(),
    {
        let r = ItemState { node: Abstract::Empty, method: Vec::new(), implem: Vec::new() };
        proof {
            assert(r.deep_view() =~~= empty_state());
        }
        r
    }

    /// Whether this group is the discarded sentinel.
    pub fn is_none(&self) -> (r: bool)
        ensures
            r == (self.deep_view().node is Empty),
    {
        match &self.node {
            Abstract::Empty => true,
            _ => false,
        }
    }

    /// The group's name, or nothing for the sentinel.
    pub fn as_name(&self) -> (r: Option<&String>)
        ensures
            match r {
                Some(n) => self.deep_view().node.nm() == Some(n@),
                None => self.deep_view().node.nm() is None,
            },
    {
        self.node.as_name()
    }

    /// Whether a method or realization method of `rhs` returns this
    /// group's type.
    pub fn is_association(&self, rhs: &ItemState) -> (r: bool)
        ensures
            r == spec_is_association(self.deep_view(), rhs.deep_view()),
    {
        match self.node.as_name() {
            Some(name) => {
                let mut i: usize = 0;
                while i < rhs.method.len()
                    invariant
                        i <= rhs.method.len(),
                        self.deep_view().node.nm() == Some(name@),
                        forall|k: int|
                            0 <= k < i ==> !method_returns(#[trigger] rhs.deep_view().method[k], name@),
                    decreases rhs.method.len() - i,
                {
                    if rhs.method[i].is_association(name) {
                        assert(method_returns(rhs.deep_view().method[i as int], name@));
                        return true;
                    }
                    i += 1;
                }
                let mut j: usize = 0;
                while j < rhs.implem.len()
                    invariant
                        j <= rhs.implem.len(),
                        self.deep_view().node.nm() == Some(name@),
                        forall|k: int|
                            0 <= k < rhs.deep_view().method.len() ==> !method_returns(
                                #[trigger] rhs.deep_view().method[k],
                                name@,
                            ),
                        forall|k: int|
                            0 <= k < j ==> !implem_returns(#[trigger] rhs.deep_view().implem[k], name@),
                    decreases rhs.implem.len() - j,
                {
                    if rhs.implem[j].is_association(name) {
                        assert(implem_returns(rhs.deep_view().implem[j as int], name@));
                        return true;
                    }
                    j += 1;
                }
                false
            },
            None => false,
        }
    }

    /// Whether a method of `rhs` takes this group's type as a parameter.
    pub fn is_dependency(&self, rhs: &ItemState) -> (r: bool)
        ensures
            r == spec_is_dependency(self.deep_view(), rhs.deep_view()),
    {
        match self.node.as_name() {
            Some(name) => {
                let mut i: usize = 0;
                while i < rhs.method.len()
                    invariant
                        i <= rhs.method.len(),
                        self.deep_view().node.nm() == Some(name@),
                        forall|k: int|
                            0 <= k < i ==> !method_takes(#[trigger] rhs.deep_view().method[k], name@),
                    decreases rhs.method.len() - i,
                {
                    if rhs.method[i].is_dependency(name) {
                        assert(method_takes(rhs.deep_view().method[i as int], name@));
                        return true;
                    }
                    i += 1;
                }
                let mut j: usize = 0;
                while j < self.implem.len()
                    invariant
                        j <= self.implem.len(),
                    decreases self.implem.len() - j,
                {
                    if self.implem[j].is_dependency(name) {
                        return true;
                    }
                    j += 1;
                }
                false
            },
            None => false,
        }
    }

    /// Whether a member of `rhs` holds a raw pointer to this group's type.
    pub fn is_aggregation(&self, rhs: &ItemState) -> (r: bool)
        ensures
            r == spec_is_aggregation(self.deep_view(), rhs.deep_view()),
    {
        match self.node.as_name() {
            Some(name) => {
                let mut ty_name_mut: String = String::new();
                ty_name_mut.append("*mut ");
                ty_name_mut.append(name.as_str());
                let mut ty_name_const: String = String::new();
                ty_name_const.append("*const ");
                ty_name_const.append(name.as_str());
                assert(ty_name_mut@ == "*mut "@ + name@);
                assert(ty_name_const@ == "*const "@ + name@);
                let members: Vec<String> = rhs.node.members();
                let mut i: usize = 0;
                while i < members.len()
                    invariant
                        i <= members.len(),
                        members.deep_view() == rhs.deep_view().node.members(),
                        ty_name_mut@ == "*mut "@ + name@,
                        ty_name_const@ == "*const "@ + name@,
                        self.deep_view().node.nm() == Some(name@),
                        forall|k: int|
                            0 <= k < i ==> !(has_token(
                                #[trigger] rhs.deep_view().node.members()[k],
                                "*mut "@ + name@,
                                false,
                            ) || has_token(
                                rhs.deep_view().node.members()[k],
                                "*const "@ + name@,
                                false,
                            )),
                    decreases members.len() - i,
                {
                    if contains_token(members[i].as_str(), ty_name_mut.as_str(), false)
                        || contains_token(members[i].as_str(), ty_name_const.as_str(), false) {
                        assert(has_token(rhs.deep_view().node.members()[i as int], "*mut "@ + name@, false)
                            || has_token(rhs.deep_view().node.members()[i as int], "*const "@ + name@, false));
                        return true;
                    }
                    i += 1;
                }
                false
            },
            None => false,
        }
    }

    /// Whether a member of `rhs` holds this group's type by value.
    pub fn is_composition(&self, rhs: &ItemState) -> (r: bool)
        ensures
            r == spec_is_composition(self.deep_view(), rhs.deep_view()),
    {
        match self.node.as_name() {
            Some(name) => {
                let members: Vec<String> = rhs.node.members();
                let mut i: usize = 0;
                while i < members.len()
                    invariant
                        i <= members.len(),
                        members.deep_view() == rhs.deep_view().node.members(),
                        self.deep_view().node.nm() == Some(name@),
                        forall|k: int|
                            0 <= k < i ==> !has_token(
                                #[trigger] rhs.deep_view().node.members()[k],
                                name@,
                                false,
                            ),
                    decreases members.len() - i,
                {
                    if contains_token(members[i].as_str(), name.as_str(), false) {
                        assert(has_token(rhs.deep_view().node.members()[i as int], name@, false));
                        return true;
                    }
                    i += 1;
                }
                false
            },
            None => false,
        }
    }

    /// Whether `rhs` realizes this group's trait.
    pub fn is_realization(&self, rhs: &ItemState) -> (r: bool)
        ensures
            r == spec_is_realization(self.deep_view(), rhs.deep_view()),
    {
        match self.node.as_name() {
            Some(name) => {
                let mut i: usize = 0;
                while i < rhs.implem.len()
                    invariant
                        i <= rhs.implem.len(),
                        self.deep_view().node.nm() == Some(name@),
                        forall|k: int|
                            0 <= k < i ==> !implem_realizes(#[trigger] rhs.deep_view().implem[k], name@),
                    decreases rhs.implem.len() - i,
                {
                    if rhs.implem[i].is_realization(name) {
                        assert(implem_realizes(rhs.deep_view().implem[i as int], name@));
                        return true;
                    }
                    i += 1;
                }
                false
            },
            None => false,
        }
    }

    /// Whether any of the five relation kinds holds for the ordered pair
    /// `(self, rhs)`: whether an edge `self -> rhs` exists at all.
    pub fn is_relation(&self, rhs: &ItemState) -> (r: bool)
        ensures
            r == spec_is_relation(self.deep_view(), rhs.deep_view()),
    {
        self.is_association(rhs) || self.is_dependency(rhs) || self.is_aggregation(rhs)
            || self.is_composition(rhs) || self.is_realization(rhs)
    }
}

/// The sentinel group.
pub open spec fn empty_state() -> ItemStateV {
    ItemStateV { node: AbstractV::Empty, method: Seq::empty(), implem: Seq::empty() }
}

} // verus!
