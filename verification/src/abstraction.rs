//! The normalized shape of a declaration: the abstract node behind a
//! diagram node. A struct keeps its field list, an enum its variant list,
//! a trait its usable method signatures; everything else is the `Empty`
//! sentinel and is discarded before graph assembly.

use vstd::prelude::*;

use crate::paths::{dup_strings, ModulePath};
use crate::raw::{
    dup_fields, EnumDeclV, Field, FieldV, SignatureV, StructDeclV, TraitDeclV, VariantDeclV,
    Visibility,
};

verus! {

/// A struct node: location, visibility, name, ordered field list.
pub struct Struct {
    pub path: ModulePath,
    pub vis: Visibility,
    pub name: String,
    pub fields: Vec<Field>,
}

/// Ghost image of a `Struct`.
#[verifier::ext_equal]
pub struct StructV {
    pub path: Seq<Seq<char>>,
    pub vis: Visibility,
    pub name: Seq<char>,
    pub fields: Seq<FieldV>,
}

impl DeepView for Struct {
    type V = StructV;

    open spec fn deep_view(&self) -> StructV {
        StructV {
            path: self.path.deep_view(),
            vis: self.vis,
            name: self.name.deep_view(),
            fields: self.fields.deep_view(),
        }
    }
}

/// A normalized enum variant: its name and the rendered types of its tuple
/// fields, empty for a unit or struct variant.
pub struct Variant {
    pub name: String,
    pub tys: Vec<String>,
}

/// Ghost image of a `Variant`.
#[verifier::ext_equal]
pub struct VariantV {
    pub name: Seq<char>,
    pub tys: Seq<Seq<char>>,
}

impl DeepView for Variant {
    type V = VariantV;

    open spec fn deep_view(&self) -> VariantV {
        VariantV { name: self.name.deep_view(), tys: self.tys.deep_view() }
    }
}

/// An enum node: location, visibility, name, generic parameter names,
/// ordered variant list.
pub struct Enum {
    pub path: ModulePath,
    pub vis: Visibility,
    pub name: String,
    pub params: Vec<String>,
    pub variants: Vec<Variant>,
}

/// Ghost image of an `Enum`.
#[verifier::ext_equal]
pub struct EnumV {
    pub path: Seq<Seq<char>>,
    pub vis: Visibility,
    pub name: Seq<char>,
    pub params: Seq<Seq<char>>,
    pub variants: Seq<VariantV>,
}

impl DeepView for Enum {
    type V = EnumV;

    open spec fn deep_view(&self) -> EnumV {
        EnumV {
            path: self.path.deep_view(),
            vis: self.vis,
            name: self.name.deep_view(),
            params: self.params.deep_view(),
            variants: self.variants.deep_view(),
        }
    }
}

/// A trait's associated method as the node keeps it: name, parameter type
/// texts, and a return type that is always present — a signature without a
/// usable return position is skipped during normalization.
pub struct TraitSig {
    pub name: String,
    pub inputs: Vec<String>,
    pub ret: String,
}

/// Ghost image of a `TraitSig`.
#[verifier::ext_equal]
pub struct TraitSigV {
    pub name: Seq<char>,
    pub inputs: Seq<Seq<char>>,
    pub ret: Seq<char>,
}

impl DeepView for TraitSig {
    type V = TraitSigV;

    open spec fn deep_view(&self) -> TraitSigV {
        TraitSigV {
            name: self.name.deep_view(),
            inputs: self.inputs.deep_view(),
            ret: self.ret.deep_view(),
        }
    }
}

/// A trait node: location, visibility, name, generic parameter names, and
/// the kept associated method signatures.
pub struct Trait {
    pub path: ModulePath,
    pub vis: Visibility,
    pub name: String,
    pub params: Vec<String>,
    pub items: Vec<TraitSig>,
}

/// Ghost image of a `Trait`.
#[verifier::ext_equal]
pub struct TraitV {
    pub path: Seq<Seq<char>>,
    pub vis: Visibility,
    pub name: Seq<char>,
    pub params: Seq<Seq<char>>,
    pub items: Seq<TraitSigV>,
}

impl DeepView for Trait {
    type V = TraitV;

    open spec fn deep_view(&self) -> TraitV {
        TraitV {
            path: self.path.deep_view(),
            vis: self.vis,
            name: self.name.deep_view(),
            params: self.params.deep_view(),
            items: self.items.deep_view(),
        }
    }
}

/// The tagged union over the declaration kinds, with `Empty` standing for
/// any item that is not a type declaration.
pub enum Abstract {
    Trait(Trait),
    Struct(Struct),
    Enum(Enum),
    Empty,
}

/// Ghost image of an `Abstract`.
#[verifier::ext_equal]
pub enum AbstractV {
    Trait(TraitV),
    Struct(StructV),
    Enum(EnumV),
    Empty,
}

impl DeepView for Abstract {
    type V = AbstractV;

    open spec fn deep_view(&self) -> AbstractV {
        match self {
            Abstract::Trait(t) => AbstractV::Trait(t.deep_view()),
            Abstract::Struct(s) => AbstractV::Struct(s.deep_view()),
            Abstract::Enum(e) => AbstractV::Enum(e.deep_view()),
            Abstract::Empty => AbstractV::Empty,
        }
    }
}

impl AbstractV {
    /// The node's name, when it is not the `Empty` sentinel.
    pub open spec fn nm(self) -> Option<Seq<char>> {
        match self {
            AbstractV::Trait(t) => Some(t.name),
            AbstractV::Struct(s) => Some(s.name),
            AbstractV::Enum(e) => Some(e.name),
            AbstractV::Empty => None,
        }
    }

    /// The node's kind tag, as it appears in a source link's search text.
    pub open spec fn kind_tag(self) -> Option<Seq<char>> {
        match self {
            AbstractV::Trait(_) => Some("trait"@),
            AbstractV::Struct(_) => Some("struct"@),
            AbstractV::Enum(_) => Some("enum"@),
            AbstractV::Empty => None,
        }
    }

    /// The node's module path, when it is not the `Empty` sentinel.
    pub open spec fn path_of(self) -> Option<Seq<Seq<char>>> {
        match self {
            AbstractV::Trait(t) => Some(t.path),
            AbstractV::Struct(s) => Some(s.path),
            AbstractV::Enum(e) => Some(e.path),
            AbstractV::Empty => None,
        }
    }

    /// The member type texts the classifier scans: a struct's field types,
    /// an enum's variant tuple-field types in order, nothing for a trait or
    /// the sentinel.
    pub open spec fn members(self) -> Seq<Seq<char>> {
        match self {
            AbstractV::Struct(s) => field_tys(s.fields),
            AbstractV::Enum(e) => variant_tys(e.variants),
            _ => Seq::empty(),
        }
    }
}

/// The field types of a struct, in order.
pub open spec fn field_tys(fields: Seq<FieldV>) -> Seq<Seq<char>>
    decreases fields.len(),
{
    if fields.len() == 0 {
        Seq::empty()
    } else {
        field_tys(fields.drop_last()).push(fields.last().ty)
    }
}

/// The tuple-field types of an enum's variants, concatenated in variant
/// order.
pub open spec fn variant_tys(variants: Seq<VariantV>) -> Seq<Seq<char>>
    decreases variants.len(),
{
    if variants.len() == 0 {
        Seq::empty()
    } else {
        variant_tys(variants.drop_last()) + variants.last().tys
    }
}

/// The normalization of one declared variant: a unit or struct variant
/// keeps its name and an empty type list.
pub open spec fn variant_node(v: VariantDeclV) -> VariantV {
    VariantV {
        name: v.name,
        tys: match v.tuple_tys {
            Some(tys) => tys,
            None => Seq::empty(),
        },
    }
}

/// The normalization of a declared variant list.
pub open spec fn variants_node(vs: Seq<VariantDeclV>) -> Seq<VariantV>
    decreases vs.len(),
{
    if vs.len() == 0 {
        Seq::empty()
    } else {
        variants_node(vs.drop_last()).push(variant_node(vs.last()))
    }
}

/// The normalization of a trait's associated method list: a signature
/// without an explicit return type is skipped.
pub open spec fn trait_sigs_node(items: Seq<SignatureV>) -> Seq<TraitSigV>
    decreases items.len(),
{
    if items.len() == 0 {
        Seq::empty()
    } else {
        trait_sigs_node(items.drop_last()) + match items.last().ret {
            Some(r) => seq![
                TraitSigV { name: items.last().name, inputs: items.last().inputs, ret: r },
            ],
            None => Seq::empty(),
        }
    }
}

/// The struct node of a struct declaration.
pub open spec fn struct_node(d: StructDeclV, path: Seq<Seq<char>>) -> StructV {
    StructV { path: path, vis: d.vis, name: d.name, fields: d.fields }
}

/// The enum node of an enum declaration.
pub open spec fn enum_node(d: EnumDeclV, path: Seq<Seq<char>>) -> EnumV {
    EnumV {
        path: path,
        vis: d.vis,
        name: d.name,
        params: d.params,
        variants: variants_node(d.variants),
    }
}

/// The trait node of a trait declaration.
pub open spec fn trait_node(d: TraitDeclV, path: Seq<Seq<char>>) -> TraitV {
    TraitV {
        path: path,
        vis: d.vis,
        name: d.name,
        params: d.params,
        items: trait_sigs_node(d.items),
    }
}

impl Abstract {
    /// The name of the abstract element, or nothing for the sentinel.
    pub fn as_name(&self) -> (r: Option<&String>)
        ensures
            match r {
                Some(n) => self.deep_view().nm() == Some(n@),
                None => self.deep_view().nm() is None,
            },
    {
        match self {
            Abstract::Trait(t) => Some(&t.name),
            Abstract::Struct(s) => Some(&s.name),
            Abstract::Enum(e) => Some(&e.name),
            Abstract::Empty => None,
        }
    }

    /// The declaration-kind tag of the abstract element, or nothing for the
    /// sentinel.
    pub fn as_type(&self) -> (r: Option<&'static str>)
        ensures
            match r {
                Some(t) => self.deep_view().kind_tag() == Some(t@),
                None => self.deep_view().kind_tag() is None,
            },
    {
        match self {
            Abstract::Trait(_) => Some("trait"),
            Abstract::Struct(_) => Some("struct"),
            Abstract::Enum(_) => Some("enum"),
            Abstract::Empty => None,
        }
    }

    /// The module path of the abstract element, or nothing for the
    /// sentinel.
    pub fn path(&self) -> (r: Option<&ModulePath>)
        ensures
            match r {
                Some(p) => self.deep_view().path_of() == Some(p.deep_view()),
                None => self.deep_view().path_of() is None,
            },
    {
        match self {
            Abstract::Trait(t) => Some(&t.path),
            Abstract::Struct(s) => Some(&s.path),
            Abstract::Enum(e) => Some(&e.path),
            Abstract::Empty => None,
        }
    }

    /// The member type texts the classifier scans, in order.
    pub fn members(&self) -> (r: Vec<String>)
        ensures
            r.deep_view() == self.deep_view().members(),
    {
        match self {
            Abstract::Struct(s) => {
                let mut r: Vec<String> = Vec::new();
                let mut i: usize = 0;
                while i < s.fields.len()
                    invariant
                        i <= s.fields.len(),
                        r.deep_view() =~= field_tys(s.fields.deep_view().subrange(0, i as int)),
                    decreases s.fields.len() - i,
                {
                    let ghost pre = r.deep_view();
                    r.push(s.fields[i].ty.clone());
                    proof {
                        let cur = s.fields.deep_view().subrange(0, i + 1);
                        assert(cur.drop_last() =~= s.fields.deep_view().subrange(0, i as int));
                        assert(r.deep_view() =~= pre.push(s.fields.deep_view()[i as int].ty));
                    }
                    i += 1;
                }
                proof {
                    assert(s.fields.deep_view().subrange(0, s.fields.len() as int)
                        =~= s.fields.deep_view());
                }
                r
            },
            Abstract::Enum(e) => {
                let mut r: Vec<String> = Vec::new();
                let mut i: usize = 0;
                while i < e.variants.len()
                    invariant
                        i <= e.variants.len(),
                        r.deep_view() =~= variant_tys(
                            e.variants.deep_view().subrange(0, i as int),
                        ),
                    decreases e.variants.len() - i,
                {
                    let tys: &Vec<String> = &e.variants[i].tys;
                    let mut j: usize = 0;
                    while j < tys.len()
                        invariant
                            j <= tys.len(),
                            tys == &e.variants[i as int].tys,
                            i < e.variants.len(),
                            r.deep_view() =~= variant_tys(
                                e.variants.deep_view().subrange(0, i as int),
                            ) + tys.deep_view().subrange(0, j as int),
                        decreases tys.len() - j,
                    {
                        let ghost pre = r.deep_view();
                        r.push(tys[j].clone());
                        proof {
                            assert(r.deep_view() =~= pre.push(tys.deep_view()[j as int]));
                            assert(tys.deep_view().subrange(0, j + 1) =~= tys.deep_view()
                                .subrange(0, j as int).push(tys.deep_view()[j as int]));
                        }
                        j += 1;
                    }
                    proof {
                        let cur = e.variants.deep_view().subrange(0, i + 1);
                        assert(cur.drop_last() =~= e.variants.deep_view().subrange(0, i as int));
                        assert(cur.last() == e.variants.deep_view()[i as int]);
                        assert(tys.deep_view().subrange(0, tys.len() as int) =~= tys.deep_view());
                    }
                    i += 1;
                }
                proof {
                    assert(e.variants.deep_view().subrange(0, e.variants.len() as int)
                        =~= e.variants.deep_view());
                }
                r
            },
            _ => Vec::new(),
        }
    }
}

/// A copy of a vector of variants, with the same text.
pub fn dup_variants(v: &Vec<Variant>) -> (r: Vec<Variant>)
    ensures
        r.deep_view() == v.deep_view(),
{
    let mut r: Vec<Variant> = Vec::new();
    let mut i: usize = 0;
    while i < v.len()
        invariant
            i <= v.len(),
            r.deep_view() =~= v.deep_view().subrange(0, i as int),
        decreases v.len() - i,
    {
        let ghost pre = r.deep_view();
        r.push(Variant { name: v[i].name.clone(), tys: dup_strings(&v[i].tys) });
        proof {
            assert(r.deep_view() =~= pre.push(v.deep_view()[i as int]));
        }
        i += 1;
    }
    assert(r.deep_view() =~= v.deep_view());
    r
}

/// A copy of a vector of trait method signatures, with the same text.
pub fn dup_trait_sigs(v: &Vec<TraitSig>) -> (r: Vec<TraitSig>)
    ensures
        r.deep_view() == v.deep_view(),
{
    let mut r: Vec<TraitSig> = Vec::new();
    let mut i: usize = 0;
    while i < v.len()
        invariant
            i <= v.len(),
            r.deep_view() =~= v.deep_view().subrange(0, i as int),
        decreases v.len() - i,
    {
        let ghost pre = r.deep_view();
        r.push(
            TraitSig {
                name: v[i].name.clone(),
                inputs: dup_strings(&v[i].inputs),
                ret: v[i].ret.clone(),
            },
        );
        proof {
            assert(r.deep_view() =~= pre.push(v.deep_view()[i as int]));
        }
        i += 1;
    }
    assert(r.deep_view() =~= v.deep_view());
    r
}

impl Abstract {
    /// A copy of this node, with the same shape.
    pub fn duplicate(&self) -> (r: Abstract)
        ensures
            r.deep_view() == self.deep_view(),
    {
        match self {
            Abstract::Struct(s) => Abstract::Struct(
                Struct {
                    path: s.path.duplicate(),
                    vis: s.vis,
                    name: s.name.clone(),
                    fields: dup_fields(&s.fields),
                },
            ),
            Abstract::Enum(e) => Abstract::Enum(
                Enum {
                    path: e.path.duplicate(),
                    vis: e.vis,
                    name: e.name.clone(),
                    params: dup_strings(&e.params),
                    variants: dup_variants(&e.variants),
                },
            ),
            Abstract::Trait(t) => Abstract::Trait(
                Trait {
                    path: t.path.duplicate(),
                    vis: t.vis,
                    name: t.name.clone(),
                    params: dup_strings(&t.params),
                    items: dup_trait_sigs(&t.items),
                },
            ),
            Abstract::Empty => Abstract::Empty,
        }
    }
}

/// The normalization of a declared variant list, executed.
pub fn variants_from_decls(vs: &Vec<crate::raw::VariantDecl>) -> (r: Vec<Variant>)
    ensures
        r.deep_view() == variants_node(vs.deep_view()),
{
    let mut r: Vec<Variant> = Vec::new();
    let mut i: usize = 0;
    while i < vs.len()
        invariant
            i <= vs.len(),
            r.deep_view() =~= variants_node(vs.deep_view().subrange(0, i as int)),
        decreases vs.len() - i,
    {
        let ghost pre = r.deep_view();
        let tys: Vec<String> = match &vs[i].tuple_tys {
            Some(t) => dup_strings(t),
            None => Vec::new(),
        };
        r.push(Variant { name: vs[i].name.clone(), tys });
        proof {
            let cur = vs.deep_view().subrange(0, i + 1);
            assert(cur.drop_last() =~= vs.deep_view().subrange(0, i as int));
            assert(cur.last() == vs.deep_view()[i as int]);
            assert(r.deep_view() =~~= pre.push(variant_node(vs.deep_view()[i as int])));
        }
        i += 1;
    }
    assert(vs.deep_view().subrange(0, vs.len() as int) =~= vs.deep_view());
    r
}

/// The normalization of a trait's associated method list, executed.
pub fn trait_sigs_from_decls(items: &Vec<crate::raw::Signature>) -> (r: Vec<TraitSig>)
    ensures
        r.deep_view() == trait_sigs_node(items.deep_view()),
{
    let mut r: Vec<TraitSig> = Vec::new();
    let mut i: usize = 0;
    while i < items.len()
        invariant
            i <= items.len(),
            r.deep_view() =~= trait_sigs_node(items.deep_view().subrange(0, i as int)),
        decreases items.len() - i,
    {
        let ghost pre = r.deep_view();
        match &items[i].ret {
            Some(ret) => {
                r.push(
                    TraitSig {
                        name: items[i].name.clone(),
                        inputs: dup_strings(&items[i].inputs),
                        ret: ret.clone(),
                    },
                );
                proof {
                    let itv = items.deep_view()[i as int];
                    assert(r.deep_view() =~= pre.push(
                        TraitSigV { name: itv.name, inputs: itv.inputs, ret: itv.ret.unwrap() },
                    ));
                }
            },
            None => {},
        }
        proof {
            let cur = items.deep_view().subrange(0, i + 1);
            assert(cur.drop_last() =~= items.deep_view().subrange(0, i as int));
            assert(cur.last() == items.deep_view()[i as int]);
            assert(r.deep_view() =~= trait_sigs_node(items.deep_view().subrange(0, i + 1)));
        }
        i += 1;
    }
    assert(items.deep_view().subrange(0, items.len() as int) =~= items.deep_view());
    r
}

} // verus!
