//! The trait-realization record of a declaration group: one `impl Trait
//! for Type` block, carrying the trait path's segments and the block's
//! method signatures.

use vstd::prelude::*;

use crate::raw::{PathSeg, PathSegV, Signature, SignatureV};
use crate::text::{contains_token, has_token};

verus! {

/// One trait realization attached to a declaration group. The first
/// segment's name is what realization matching compares.
pub struct Implem {
    pub ty: Vec<PathSeg>,
    pub method: Vec<Signature>,
}

/// Ghost image of an `Implem`.
#[verifier::ext_equal]
pub struct ImplemV {
    pub ty: Seq<PathSegV>,
    pub method: Seq<SignatureV>,
}

impl DeepView for Implem {
    type V = ImplemV;

    open spec fn deep_view(&self) -> ImplemV {
        ImplemV { ty: self.ty.deep_view(), method: self.method.deep_view() }
    }
}

/// Whether the realization is of the named trait: the leading segment of
/// its trait path equals the name.
pub open spec fn implem_realizes(im: ImplemV, name: Seq<char>) -> bool {
    im.ty.len() > 0 && im.ty[0].name == name
}

/// Whether one realization method returns the named type.
pub open spec fn real_sig_returns(f: SignatureV, name: Seq<char>) -> bool {
    match f.ret {
        Some(r) => has_token(r, name, true),
        None => false,
    }
}

/// Whether some method of the realization returns the named type.
pub open spec fn implem_returns(im: ImplemV, name: Seq<char>) -> bool {
    exists|i: int| 0 <= i < im.method.len() && #[trigger] real_sig_returns(im.method[i], name)
}

impl Implem {
    /// A copy of this record, with the same text.
    pub fn duplicate(&self) -> (r: Implem)
        ensures
            r.deep_view() == self.deep_view(),
    {
        Implem {
            ty: crate::raw::dup_path_segs(&self.ty),
            method: crate::raw::dup_sigs(&self.method),
        }
    }

    /// Whether this block realizes the trait named `ty_name`.
    pub fn is_realization(&self, ty_name: &String) -> (r: bool)
        ensures
            r == implem_realizes(self.deep_view(), ty_name@),
    {
        if self.ty.len() > 0 {
            crate::text::str_eq(self.ty[0].name.as_str(), ty_name.as_str())
        } else {
            false
        }
    }

    /// Whether some method of this block has a return type whose
    /// tokenization contains `ty_name` exactly.
    pub fn is_association(&self, ty_name: &String) -> (r: bool)
        ensures
            r == implem_returns(self.deep_view(), ty_name@),
    {
        let mut i: usize = 0;
        while i < self.method.len()
            invariant
                i <= self.method.len(),
                forall|k: int| 0 <= k < i ==> !#[trigger] real_sig_returns(
                    self.deep_view().method[k],
                    ty_name@,
                ),
            decreases self.method.len() - i,
        {
            match &self.method[i].ret {
                Some(ret) => {
                    if contains_token(ret.as_str(), ty_name.as_str(), true) {
                        assert(real_sig_returns(self.deep_view().method[i as int], ty_name@));
                        return true;
                    }
                },
                None => {},
            }
            assert(!real_sig_returns(self.deep_view().method[i as int], ty_name@));
            i += 1;
        }
        false
    }

    /// Whether this realization reports taking the named type as a
    /// parameter. Trait-sourced dependency detection is not implemented:
    /// this always answers no, a known gap of the classifier, kept rather
    /// than silently widened.
    pub fn is_dependency(&self, _name: &String) -> (r: bool)
        ensures
            r == false,
    {
        false
    }
}

} // verus!
