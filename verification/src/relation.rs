//! The five UML relation kinds, the deterministic choice of one kind for
//! an ordered pair when several hold at once, and the rendering attributes
//! of each kind.

use vstd::prelude::*;

use crate::state::{
    spec_is_aggregation, spec_is_association, spec_is_composition, spec_is_dependency,
    spec_is_realization, ItemState, ItemStateV,
};

verus! {

/// One UML relation kind between two declaration groups.
#[derive(Clone, Copy, PartialEq, Eq, Structural)]
pub enum Relation {
    Association,
    Dependency,
    Aggregation,
    Composition,
    Realization,
}

/// The representative relation kind of the ordered pair `(a, b)`: the
/// predicates are evaluated in the priority order association, dependency,
/// aggregation, composition, realization, and the first one that holds
/// decides. `None` when no relation holds at all.
pub open spec fn spec_classify(a: ItemStateV, b: ItemStateV) -> Option<Relation> {
    if spec_is_association(a, b) {
        Some(Relation::Association)
    } else if spec_is_dependency(a, b) {
        Some(Relation::Dependency)
    } else if spec_is_aggregation(a, b) {
        Some(Relation::Aggregation)
    } else if spec_is_composition(a, b) {
        Some(Relation::Composition)
    } else if spec_is_realization(a, b) {
        Some(Relation::Realization)
    } else {
        None
    }
}

/// The arrowhead token of a relation kind.
pub open spec fn spec_arrowhead(r: Relation) -> Seq<char> {
    match r {
        Relation::Association => "vee"@,
        Relation::Dependency => "vee"@,
        Relation::Aggregation => "odiamond"@,
        Relation::Composition => "diamond"@,
        Relation::Realization => "onormal"@,
    }
}

/// Whether a relation kind renders with a dashed line; the others render
/// solid.
pub open spec fn spec_is_dashed(r: Relation) -> bool {
    r == Relation::Dependency || r == Relation::Realization
}

impl Relation {
    /// The arrowhead token of this relation kind.
    pub fn as_arrowhead(&self) -> (r: &'static str)
        ensures
            r@ == spec_arrowhead(*self),
    {
        match self {
            Relation::Association => "vee",
            Relation::Dependency => "vee",
            Relation::Aggregation => "odiamond",
            Relation::Composition => "diamond",
            Relation::Realization => "onormal",
        }
    }

    /// Whether this relation kind renders with a dashed line.
    pub fn is_dashed(&self) -> (r: bool)
        ensures
            r == spec_is_dashed(*self),
    {
        match self {
            Relation::Dependency => true,
            Relation::Realization => true,
            _ => false,
        }
    }
}

impl ItemState {
    /// The representative relation kind for the ordered pair
    /// `(self, rhs)`, or nothing when no relation holds.
    pub fn as_arrow(&self, rhs: &ItemState) -> (r: Option<Relation>)
        ensures
            r == spec_classify(self.deep_view(), rhs.deep_view()),
    {
        if self.is_association(rhs) {
            Some(Relation::Association)
        } else if self.is_dependency(rhs) {
            Some(Relation::Dependency)
        } else if self.is_aggregation(rhs) {
            Some(Relation::Aggregation)
        } else if self.is_composition(rhs) {
            Some(Relation::Composition)
        } else if self.is_realization(rhs) {
            Some(Relation::Realization)
        } else {
            None
        }
    }
}

} // verus!
