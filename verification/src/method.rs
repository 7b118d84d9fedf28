//! The inherent-method record of a declaration group: one function item
//! of an impl block with no implemented trait, with the module path the
//! block came from. Function items of trait realizations are recorded as
//! part of the realization instead.

use vstd::prelude::*;

use crate::paths::{dup_opt_string, dup_strings, ModulePath};
use crate::raw::Visibility;
use crate::text::{contains_token, ends_with_name, has_token, is_suffix_of};

verus! {

/// One inherent method: visibility, name, parameter type texts, and the
/// return type text when one is written, attributed to its block's
/// module path.
pub struct Method {
    pub vis: Visibility,
    pub name: String,
    pub inputs: Vec<String>,
    pub ret: Option<String>,
    pub path: ModulePath,
}

/// Ghost image of a `Method`.
#[verifier::ext_equal]
pub struct MethodV {
    pub vis: Visibility,
    pub name: Seq<char>,
    pub inputs: Seq<Seq<char>>,
    pub ret: Option<Seq<char>>,
    pub path: Seq<Seq<char>>,
}

impl DeepView for Method {
    type V = MethodV;

    open spec fn deep_view(&self) -> MethodV {
        MethodV {
            vis: self.vis,
            name: self.name.deep_view(),
            inputs: self.inputs.deep_view(),
            ret: self.ret.deep_view(),
            path: self.path.deep_view(),
        }
    }
}

/// Whether the method returns the named type: its return type text,
/// split at the separator characters and the space, yields a token equal
/// to the name.
pub open spec fn method_returns(m: MethodV, name: Seq<char>) -> bool {
    match m.ret {
        Some(r) => has_token(r, name, true),
        None => false,
    }
}

/// Whether the method takes the named type: one of its parameter type
/// texts ends with the name.
pub open spec fn method_takes(m: MethodV, name: Seq<char>) -> bool {
    exists|j: int| 0 <= j < m.inputs.len() && is_suffix_of(name, #[trigger] m.inputs[j])
}

impl Method {
    /// A copy of this record, with the same text.
    pub fn duplicate(&self) -> (r: Method)
        ensures
            r.deep_view() == self.deep_view(),
    {
        Method {
            vis: self.vis,
            name: self.name.clone(),
            inputs: dup_strings(&self.inputs),
            ret: dup_opt_string(&self.ret),
            path: self.path.duplicate(),
        }
    }

    /// Whether this method's return type tokenization contains `ty_name`
    /// exactly.
    pub fn is_association(&self, ty_name: &String) -> (r: bool)
        ensures
            r == method_returns(self.deep_view(), ty_name@),
    {
        match &self.ret {
            Some(ret) => contains_token(ret.as_str(), ty_name.as_str(), true),
            None => false,
        }
    }

    /// Whether one of this method's parameter type texts ends with
    /// `name`. The suffix match is deliberately looser than the
    /// association's exact-token match, so that reference and generic
    /// wrapper parameters such as `&Name` or `Vec<Name>` are caught.
    pub fn is_dependency(&self, name: &String) -> (r: bool)
        ensures
            r == method_takes(self.deep_view(), name@),
    {
        let mut j: usize = 0;
        while j < self.inputs.len()
            invariant
                j <= self.inputs.len(),
                forall|l: int|
                    0 <= l < j ==> !is_suffix_of(name@, #[trigger] self.deep_view().inputs[l]),
            decreases self.inputs.len() - j,
        {
            if ends_with_name(self.inputs[j].as_str(), name.as_str()) {
                assert(is_suffix_of(name@, self.deep_view().inputs[j as int]));
                return true;
            }
            j += 1;
        }
        false
    }
}

} // verus!
