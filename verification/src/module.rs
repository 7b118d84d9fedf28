//! One compilation unit's worth of parsed items, sharing a module path:
//! the shape in which the source parser hands a file over, flattened into
//! `(item, path)` pairs for the grouper.

use vstd::prelude::*;

use crate::paths::ModulePath;
use crate::raw::{ParsedItem, ParsedItemV, RawItem, RawItemV};

verus! {

/// The parsed items of one file together with the file's module path.
pub struct Module {
    pub list: Vec<RawItem>,
    pub path: ModulePath,
}

/// Each item of a file paired with the file's path, in order.
pub open spec fn module_items(l: Seq<RawItemV>, p: Seq<Seq<char>>) -> Seq<ParsedItemV>
    decreases l.len(),
{
    if l.len() == 0 {
        Seq::empty()
    } else {
        module_items(l.drop_last(), p).push(ParsedItemV { raw: l.last(), path: p })
    }
}

impl Module {
    /// A module from a file's items and its path.
    pub fn new(list: Vec<RawItem>, path: ModulePath) -> (r: Module)
        ensures
            r.list == list,
            r.path == path,
    {
        Module { list, path }
    }

    /// The module's items, each paired with the module's path, in order:
    /// the grouper's input.
    pub fn items(self) -> (r: Vec<ParsedItem>)
        ensures
            r.deep_view() == module_items(self.list.deep_view(), self.path.deep_view()),
    {
        let ghost lv = self.list.deep_view();
        let ghost pv = self.path.deep_view();
        let Module { mut list, path } = self;
        let total: usize = list.len();
        let mut out: Vec<ParsedItem> = Vec::new();
        let mut i: usize = 0;
        while list.len() > 0
            invariant
                total == lv.len(),
                i + list.len() == total,
                list.deep_view() =~= lv.skip(i as int),
                pv == path.deep_view(),
                out.deep_view() =~= module_items(lv.subrange(0, i as int), pv),
            decreases list.len(),
        {
            let ghost pre = out.deep_view();
            let ghost lpre = list.deep_view();
            let raw = list.remove(0);
            proof {
                assert(raw.deep_view() == lpre[0]);
                assert(lpre[0] == lv[i as int]);
                assert(list.deep_view() =~= lpre.skip(1));
                assert(lpre.skip(1) =~= lv.skip(i + 1));
                assert(list.deep_view() =~= lv.skip(i + 1));
            }
            out.push(ParsedItem { raw, path: path.duplicate() });
            proof {
                let cur = lv.subrange(0, i + 1);
                assert(cur.drop_last() =~= lv.subrange(0, i as int));
                assert(cur.last() == lv[i as int]);
                assert(out.deep_view() =~= pre.push(ParsedItemV { raw: lv[i as int], path: pv }));
            }
            i += 1;
        }
        proof {
            assert(lv.subrange(0, i as int) =~= lv);
        }
        out
    }
}

} // verus!
