//! The location of a declaration's compilation unit, as an ordered sequence
//! of path segments. It scopes nothing during classification; it is only
//! carried along to build an optional source link in the node label.

use vstd::prelude::*;

verus! {

/// An ordered sequence of directory/module names locating the file a
/// declaration came from, without the `src/` prefix and the `.rs` suffix.
pub struct ModulePath {
    pub path: Vec<String>,
}

impl DeepView for ModulePath {
    type V = Seq<Seq<char>>;

    open spec fn deep_view(&self) -> Seq<Seq<char>> {
        self.path.deep_view()
    }
}

/// A copy of a vector of strings, with the same character sequences.
pub fn dup_strings(v: &Vec<String>) -> (r: Vec<String>)
    ensures
        r.deep_view() == v.deep_view(),
{
    let mut r: Vec<String> = Vec::new();
    let mut i: usize = 0;
    while i < v.len()
        invariant
            i <= v.len(),
            r.deep_view() =~= v.deep_view().subrange(0, i as int),
        decreases v.len() - i,
    {
        let ghost pre = r.deep_view();
        r.push(v[i].clone());
        proof {
            assert(r.deep_view() =~= pre.push(v.deep_view()[i as int]));
        }
        i += 1;
    }
    assert(r.deep_view() =~= v.deep_view());
    r
}

/// A copy of an optional string, with the same character sequence.
pub fn dup_opt_string(v: &Option<String>) -> (r: Option<String>)
    ensures
        r.deep_view() == v.deep_view(),
{
    match v {
        Some(s) => Some(s.clone()),
        None => None,
    }
}

impl ModulePath {
    /// A copy of this path, with the same segments.
    pub fn duplicate(&self) -> (r: ModulePath)
        ensures
            r.deep_view() == self.deep_view(),
    {
        ModulePath { path: dup_strings(&self.path) }
    }

    /// The segments joined with `/`: the file's path relative to `src/`,
    /// without its extension.
    pub fn joined(&self) -> (r: String)
        ensures
            r@ == joined_segments(self.deep_view()),
    {
        let mut r: String = String::new();
        let mut i: usize = 0;
        while i < self.path.len()
            invariant
                i <= self.path.len(),
                r@ == joined_segments(self.deep_view().subrange(0, i as int)),
            decreases self.path.len() - i,
        {
            if i > 0 {
                r.append("/");
            }
            r.append(self.path[i].as_str());
            proof {
                let pre = self.deep_view().subrange(0, i as int);
                let cur = self.deep_view().subrange(0, i + 1);
                assert(cur.drop_last() =~= pre);
                assert(cur.last() == self.deep_view()[i as int]);
            }
            i += 1;
        }
        proof {
            assert(self.deep_view().subrange(0, self.path.len() as int) =~= self.deep_view());
        }
        r
    }
}

/// The segments of a module path joined with `/`.
pub open spec fn joined_segments(segs: Seq<Seq<char>>) -> Seq<char>
    decreases segs.len(),
{
    if segs.len() == 0 {
        Seq::empty()
    } else if segs.len() == 1 {
        segs[0]
    } else {
        joined_segments(segs.drop_last()) + "/"@ + segs.last()
    }
}

} // verus!
