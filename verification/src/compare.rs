//! Structural equality of declaration groups, stated over their ghost
//! images. Graph node identity and edge deduplication compare by value:
//! two groups are the same node exactly when their images agree.

use vstd::prelude::*;

use crate::abstraction::Abstract;
use crate::implem::Implem;
use crate::method::Method;
use crate::raw::{Field, PathSeg, Signature};
use crate::state::ItemState;
use crate::text::str_eq;

verus! {

/// Equality of two optional strings' character sequences.
pub fn eq_opt_string(a: &Option<String>, b: &Option<String>) -> (r: bool)
    ensures
        r == (a.deep_view() == b.deep_view()),
{
    match (a, b) {
        (Some(x), Some(y)) => str_eq(x.as_str(), y.as_str()),
        (None, None) => true,
        _ => false,
    }
}

/// Elementwise equality of two string vectors.
pub fn eq_strings(a: &Vec<String>, b: &Vec<String>) -> (r: bool)
    ensures
        r == (a.deep_view() == b.deep_view()),
{
    if a.len() != b.len() {
        proof {
            assert(a.deep_view().len() == a@.len());
            assert(b.deep_view().len() == b@.len());
        }
        return false;
    }
    let mut i: usize = 0;
    while i < a.len()
        invariant
            i <= a.len(),
            a.len() == b.len(),
            forall|k: int| 0 <= k < i ==> a.deep_view()[k] == b.deep_view()[k],
        decreases a.len() - i,
    {
        if !str_eq(a[i].as_str(), b[i].as_str()) {
            proof {
                assert(a.deep_view()[i as int] == a@[i as int]@);
                assert(b.deep_view()[i as int] == b@[i as int]@);
            }
            return false;
        }
        i += 1;
    }
    assert(a.deep_view() =~= b.deep_view());
    true
}

/// Equality of two fields' images.
pub fn eq_field(a: &Field, b: &Field) -> (r: bool)
    ensures
        r == (a.deep_view() == b.deep_view()),
{
    let r = a.vis == b.vis && eq_opt_string(&a.name, &b.name) && str_eq(
        a.ty.as_str(),
        b.ty.as_str(),
    );
    proof {
        if a.deep_view().vis == b.deep_view().vis && a.deep_view().name == b.deep_view().name
            && a.deep_view().ty == b.deep_view().ty {
            assert(a.deep_view() =~= b.deep_view());
        }
    }
    r
}

/// Elementwise equality of two field vectors.
pub fn eq_fields(a: &Vec<Field>, b: &Vec<Field>) -> (r: bool)
    ensures
        r == (a.deep_view() == b.deep_view()),
{
    if a.len() != b.len() {
        proof {
            assert(a.deep_view().len() == a@.len());
            assert(b.deep_view().len() == b@.len());
        }
        return false;
    }
    let mut i: usize = 0;
    while i < a.len()
        invariant
            i <= a.len(),
            a.len() == b.len(),
            forall|k: int| 0 <= k < i ==> a.deep_view()[k] == b.deep_view()[k],
        decreases a.len() - i,
    {
        if !eq_field(&a[i], &b[i]) {
            proof {
                assert(a.deep_view()[i as int] == a@[i as int].deep_view());
                assert(b.deep_view()[i as int] == b@[i as int].deep_view());
            }
            return false;
        }
        i += 1;
    }
    assert(a.deep_view() =~= b.deep_view());
    true
}

/// Equality of two visibility-less signatures' images.
pub fn eq_sig(a: &Signature, b: &Signature) -> (r: bool)
    ensures
        r == (a.deep_view() == b.deep_view()),
{
    let r = str_eq(a.name.as_str(), b.name.as_str()) && eq_strings(&a.inputs, &b.inputs)
        && eq_opt_string(&a.ret, &b.ret);
    proof {
        if a.deep_view().name == b.deep_view().name && a.deep_view().inputs
            == b.deep_view().inputs && a.deep_view().ret == b.deep_view().ret {
            assert(a.deep_view() =~= b.deep_view());
        }
    }
    r
}

/// Elementwise equality of two visibility-less signature vectors.
pub fn eq_sigs(a: &Vec<Signature>, b: &Vec<Signature>) -> (r: bool)
    ensures
        r == (a.deep_view() == b.deep_view()),
{
    if a.len() != b.len() {
        proof {
            assert(a.deep_view().len() == a@.len());
            assert(b.deep_view().len() == b@.len());
        }
        return false;
    }
    let mut i: usize = 0;
    while i < a.len()
        invariant
            i <= a.len(),
            a.len() == b.len(),
            forall|k: int| 0 <= k < i ==> a.deep_view()[k] == b.deep_view()[k],
        decreases a.len() - i,
    {
        if !eq_sig(&a[i], &b[i]) {
            proof {
                assert(a.deep_view()[i as int] == a@[i as int].deep_view());
                assert(b.deep_view()[i as int] == b@[i as int].deep_view());
            }
            return false;
        }
        i += 1;
    }
    assert(a.deep_view() =~= b.deep_view());
    true
}

/// Equality of two path segments' images.
pub fn eq_path_seg(a: &PathSeg, b: &PathSeg) -> (r: bool)
    ensures
        r == (a.deep_view() == b.deep_view()),
{
    let r = str_eq(a.name.as_str(), b.name.as_str()) && eq_strings(&a.args, &b.args);
    proof {
        if a.deep_view().name == b.deep_view().name && a.deep_view().args == b.deep_view().args {
            assert(a.deep_view() =~= b.deep_view());
        }
    }
    r
}

/// Elementwise equality of two path segment vectors.
pub fn eq_path_segs(a: &Vec<PathSeg>, b: &Vec<PathSeg>) -> (r: bool)
    ensures
        r == (a.deep_view() == b.deep_view()),
{
    if a.len() != b.len() {
        proof {
            assert(a.deep_view().len() == a@.len());
            assert(b.deep_view().len() == b@.len());
        }
        return false;
    }
    let mut i: usize = 0;
    while i < a.len()
        invariant
            i <= a.len(),
            a.len() == b.len(),
            forall|k: int| 0 <= k < i ==> a.deep_view()[k] == b.deep_view()[k],
        decreases a.len() - i,
    {
        if !eq_path_seg(&a[i], &b[i]) {
            proof {
                assert(a.deep_view()[i as int] == a@[i as int].deep_view());
                assert(b.deep_view()[i as int] == b@[i as int].deep_view());
            }
            return false;
        }
        i += 1;
    }
    assert(a.deep_view() =~= b.deep_view());
    true
}

/// Equality of two abstract nodes' images.
#[verifier::loop_isolation(false)]
pub fn eq_node(a: &Abstract, b: &Abstract) -> (r: bool)
    ensures
        r == (a.deep_view() == b.deep_view()),
{
    match a {
        Abstract::Struct(x) => match b {
            Abstract::Struct(y) => {
                let r = eq_strings(&x.path.path, &y.path.path) && x.vis == y.vis && str_eq(
                    x.name.as_str(),
                    y.name.as_str(),
                ) && eq_fields(&x.fields, &y.fields);
                proof {
                    if x.deep_view().path == y.deep_view().path && x.deep_view().vis
                        == y.deep_view().vis && x.deep_view().name == y.deep_view().name
                        && x.deep_view().fields == y.deep_view().fields {
                        assert(x.deep_view() =~= y.deep_view());
                    }
                }
                r
            },
            _ => false,
        },
        Abstract::Enum(x) => match b {
            Abstract::Enum(y) => {
                let head = eq_strings(&x.path.path, &y.path.path) && x.vis == y.vis && str_eq(
                    x.name.as_str(),
                    y.name.as_str(),
                ) && eq_strings(&x.params, &y.params);
                if !head {
                    return false;
                }
                if x.variants.len() != y.variants.len() {
                    proof {
                        assert(x.variants.deep_view().len() == x.variants@.len());
                        assert(y.variants.deep_view().len() == y.variants@.len());
                    }
                    return false;
                }
                let mut i: usize = 0;
                while i < x.variants.len()
                    invariant
                        i <= x.variants.len(),
                        x.variants.len() == y.variants.len(),
                        forall|k: int|
                            0 <= k < i ==> x.variants.deep_view()[k] == y.variants.deep_view()[k],
                    decreases x.variants.len() - i,
                {
                    let va = &x.variants[i];
                    let vb = &y.variants[i];
                    if !(str_eq(va.name.as_str(), vb.name.as_str()) && eq_strings(
                        &va.tys,
                        &vb.tys,
                    )) {
                        proof {
                            assert(x.variants.deep_view()[i as int] == x.variants@[
                                i as int].deep_view());
                            assert(y.variants.deep_view()[i as int] == y.variants@[
                                i as int].deep_view());
                            assert(x.variants@[i as int].deep_view() != y.variants@[
                                i as int].deep_view());
                            assert(x.deep_view().variants != y.deep_view().variants);
                            assert(x.deep_view() != y.deep_view());
                        }
                        return false;
                    }
                    proof {
                        assert(x.variants.deep_view()[i as int] =~= y.variants.deep_view()[
                            i as int]);
                    }
                    i += 1;
                }
                proof {
                    assert(x.variants.deep_view() =~= y.variants.deep_view());
                    assert(x.deep_view() =~= y.deep_view());
                }
                true
            },
            _ => false,
        },
        Abstract::Trait(x) => match b {
            Abstract::Trait(y) => {
                let head = eq_strings(&x.path.path, &y.path.path) && x.vis == y.vis && str_eq(
                    x.name.as_str(),
                    y.name.as_str(),
                ) && eq_strings(&x.params, &y.params);
                if !head {
                    return false;
                }
                if x.items.len() != y.items.len() {
                    proof {
                        assert(x.items.deep_view().len() == x.items@.len());
                        assert(y.items.deep_view().len() == y.items@.len());
                    }
                    return false;
                }
                let mut i: usize = 0;
                while i < x.items.len()
                    invariant
                        i <= x.items.len(),
                        x.items.len() == y.items.len(),
                        forall|k: int|
                            0 <= k < i ==> x.items.deep_view()[k] == y.items.deep_view()[k],
                    decreases x.items.len() - i,
                {
                    let sa = &x.items[i];
                    let sb = &y.items[i];
                    if !(str_eq(sa.name.as_str(), sb.name.as_str()) && eq_strings(
                        &sa.inputs,
                        &sb.inputs,
                    ) && str_eq(sa.ret.as_str(), sb.ret.as_str())) {
                        proof {
                            assert(x.items.deep_view()[i as int] == x.items@[
                                i as int].deep_view());
                            assert(y.items.deep_view()[i as int] == y.items@[
                                i as int].deep_view());
                            assert(x.items@[i as int].deep_view() != y.items@[
                                i as int].deep_view());
                            assert(x.deep_view().items != y.deep_view().items);
                            assert(x.deep_view() != y.deep_view());
                        }
                        return false;
                    }
                    proof {
                        assert(x.items.deep_view()[i as int] =~= y.items.deep_view()[i as int]);
                    }
                    i += 1;
                }
                proof {
                    assert(x.items.deep_view() =~= y.items.deep_view());
                    assert(x.deep_view() =~= y.deep_view());
                }
                true
            },
            _ => false,
        },
        Abstract::Empty => match b {
            Abstract::Empty => true,
            _ => false,
        },
    }
}

/// Equality of two method records' images.
pub fn eq_method(a: &Method, b: &Method) -> (r: bool)
    ensures
        r == (a.deep_view() == b.deep_view()),
{
    let r = a.vis == b.vis && str_eq(a.name.as_str(), b.name.as_str()) && eq_strings(
        &a.inputs,
        &b.inputs,
    ) && eq_opt_string(&a.ret, &b.ret) && eq_strings(&a.path.path, &b.path.path);
    proof {
        if a.deep_view().vis == b.deep_view().vis && a.deep_view().name == b.deep_view().name
            && a.deep_view().inputs == b.deep_view().inputs && a.deep_view().ret
            == b.deep_view().ret && a.deep_view().path == b.deep_view().path {
            assert(a.deep_view() =~= b.deep_view());
        }
    }
    r
}

/// Equality of two realization records' images.
pub fn eq_implem(a: &Implem, b: &Implem) -> (r: bool)
    ensures
        r == (a.deep_view() == b.deep_view()),
{
    let r = eq_path_segs(&a.ty, &b.ty) && eq_sigs(&a.method, &b.method);
    proof {
        if a.deep_view().ty == b.deep_view().ty && a.deep_view().method == b.deep_view().method {
            assert(a.deep_view() =~= b.deep_view());
        }
    }
    r
}

impl ItemState {
    /// Structural equality of two declaration groups.
    pub fn same_as(&self, other: &ItemState) -> (r: bool)
        ensures
            r == (self.deep_view() == other.deep_view()),
    {
        if !eq_node(&self.node, &other.node) {
            return false;
        }
        if self.method.len() != other.method.len() || self.implem.len() != other.implem.len() {
            proof {
                assert(self.method.deep_view().len() == self.method@.len());
                assert(other.method.deep_view().len() == other.method@.len());
                assert(self.implem.deep_view().len() == self.implem@.len());
                assert(other.implem.deep_view().len() == other.implem@.len());
            }
            return false;
        }
        let mut i: usize = 0;
        while i < self.method.len()
            invariant
                i <= self.method.len(),
                self.method.len() == other.method.len(),
                forall|k: int|
                    0 <= k < i ==> self.method.deep_view()[k] == other.method.deep_view()[k],
            decreases self.method.len() - i,
        {
            if !eq_method(&self.method[i], &other.method[i]) {
                proof {
                    assert(self.method.deep_view()[i as int] == self.method@[
                        i as int].deep_view());
                    assert(other.method.deep_view()[i as int] == other.method@[
                        i as int].deep_view());
                }
                return false;
            }
            i += 1;
        }
        let mut j: usize = 0;
        while j < self.implem.len()
            invariant
                j <= self.implem.len(),
                self.implem.len() == other.implem.len(),
                forall|k: int|
                    0 <= k < self.method.deep_view().len() ==> self.method.deep_view()[k]
                        == other.method.deep_view()[k],
                forall|k: int|
                    0 <= k < j ==> self.implem.deep_view()[k] == other.implem.deep_view()[k],
            decreases self.implem.len() - j,
        {
            if !eq_implem(&self.implem[j], &other.implem[j]) {
                proof {
                    assert(self.implem.deep_view()[j as int] == self.implem@[
                        j as int].deep_view());
                    assert(other.implem.deep_view()[j as int] == other.implem@[
                        j as int].deep_view());
                }
                return false;
            }
            j += 1;
        }
        proof {
            assert(self.method.deep_view() =~= other.method.deep_view());
            assert(self.implem.deep_view() =~= other.implem.deep_view());
            assert(self.deep_view() =~= other.deep_view());
        }
        true
    }
}

} // verus!
