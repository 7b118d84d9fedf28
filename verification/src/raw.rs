//! The input contract from the source parser: an ordered sequence of items,
//! each tagged as struct, enum, trait, impl block or other, carrying names,
//! visibilities and literal type-signature text as plain values.

use vstd::prelude::*;

use crate::paths::{dup_opt_string, dup_strings, ModulePath};

verus! {

/// The visibility of a declaration or a member, as far as the diagram
/// distinguishes it: `Public` renders as `+`, everything else as `-`.
#[derive(Clone, Copy, PartialEq, Eq, Structural)]
pub enum Visibility {
    Public,
    Restricted,
    Inherited,
}

/// One struct field: visibility, optional name (a tuple field has none),
/// and the field type's rendered text.
pub struct Field {
    pub vis: Visibility,
    pub name: Option<String>,
    pub ty: String,
}

/// Ghost image of a `Field`.
#[verifier::ext_equal]
pub struct FieldV {
    pub vis: Visibility,
    pub name: Option<Seq<char>>,
    pub ty: Seq<char>,
}

impl DeepView for Field {
    type V = FieldV;

    open spec fn deep_view(&self) -> FieldV {
        FieldV { vis: self.vis, name: self.name.deep_view(), ty: self.ty.deep_view() }
    }
}

/// One function item of an impl block: visibility, name, the parameter
/// types' rendered text, and the return type's rendered text if one is
/// written.
pub struct FnSig {
    pub vis: Visibility,
    pub name: String,
    pub inputs: Vec<String>,
    pub ret: Option<String>,
}

/// Ghost image of a `FnSig`.
#[verifier::ext_equal]
pub struct FnSigV {
    pub vis: Visibility,
    pub name: Seq<char>,
    pub inputs: Seq<Seq<char>>,
    pub ret: Option<Seq<char>>,
}

impl DeepView for FnSig {
    type V = FnSigV;

    open spec fn deep_view(&self) -> FnSigV {
        FnSigV {
            vis: self.vis,
            name: self.name.deep_view(),
            inputs: self.inputs.deep_view(),
            ret: self.ret.deep_view(),
        }
    }
}

/// One method signature without visibility: used for trait declarations and
/// trait realizations, where visibility is not tracked.
pub struct Signature {
    pub name: String,
    pub inputs: Vec<String>,
    pub ret: Option<String>,
}

/// Ghost image of a `Signature`.
#[verifier::ext_equal]
pub struct SignatureV {
    pub name: Seq<char>,
    pub inputs: Seq<Seq<char>>,
    pub ret: Option<Seq<char>>,
}

impl DeepView for Signature {
    type V = SignatureV;

    open spec fn deep_view(&self) -> SignatureV {
        SignatureV {
            name: self.name.deep_view(),
            inputs: self.inputs.deep_view(),
            ret: self.ret.deep_view(),
        }
    }
}

/// One segment of a trait path: its name and the rendered text of any
/// generic arguments written on that segment.
pub struct PathSeg {
    pub name: String,
    pub args: Vec<String>,
}

/// Ghost image of a `PathSeg`.
#[verifier::ext_equal]
pub struct PathSegV {
    pub name: Seq<char>,
    pub args: Seq<Seq<char>>,
}

impl DeepView for PathSeg {
    type V = PathSegV;

    open spec fn deep_view(&self) -> PathSegV {
        PathSegV { name: self.name.deep_view(), args: self.args.deep_view() }
    }
}

/// One enum variant as the parser hands it over: its name, and the rendered
/// field types when it is a tuple variant. Unit and struct variants carry
/// `None` and normalize to an empty type list.
pub struct VariantDecl {
    pub name: String,
    pub tuple_tys: Option<Vec<String>>,
}

/// Ghost image of a `VariantDecl`.
#[verifier::ext_equal]
pub struct VariantDeclV {
    pub name: Seq<char>,
    pub tuple_tys: Option<Seq<Seq<char>>>,
}

impl DeepView for VariantDecl {
    type V = VariantDeclV;

    open spec fn deep_view(&self) -> VariantDeclV {
        VariantDeclV { name: self.name.deep_view(), tuple_tys: self.tuple_tys.deep_view() }
    }
}

/// A struct declaration: visibility, name, ordered field list.
pub struct StructDecl {
    pub vis: Visibility,
    pub name: String,
    pub fields: Vec<Field>,
}

/// Ghost image of a `StructDecl`.
#[verifier::ext_equal]
pub struct StructDeclV {
    pub vis: Visibility,
    pub name: Seq<char>,
    pub fields: Seq<FieldV>,
}

impl DeepView for StructDecl {
    type V = StructDeclV;

    open spec fn deep_view(&self) -> StructDeclV {
        StructDeclV {
            vis: self.vis,
            name: self.name.deep_view(),
            fields: self.fields.deep_view(),
        }
    }
}

/// An enum declaration: visibility, name, generic parameter names, ordered
/// variant list.
pub struct EnumDecl {
    pub vis: Visibility,
    pub name: String,
    pub params: Vec<String>,
    pub variants: Vec<VariantDecl>,
}

/// Ghost image of an `EnumDecl`.
#[verifier::ext_equal]
pub struct EnumDeclV {
    pub vis: Visibility,
    pub name: Seq<char>,
    pub params: Seq<Seq<char>>,
    pub variants: Seq<VariantDeclV>,
}

impl DeepView for EnumDecl {
    type V = EnumDeclV;

    open spec fn deep_view(&self) -> EnumDeclV {
        EnumDeclV {
            vis: self.vis,
            name: self.name.deep_view(),
            params: self.params.deep_view(),
            variants: self.variants.deep_view(),
        }
    }
}

/// A trait declaration: visibility, name, generic parameter names, and the
/// associated method signatures as written in the declaration.
pub struct TraitDecl {
    pub vis: Visibility,
    pub name: String,
    pub params: Vec<String>,
    pub items: Vec<Signature>,
}

/// Ghost image of a `TraitDecl`.
#[verifier::ext_equal]
pub struct TraitDeclV {
    pub vis: Visibility,
    pub name: Seq<char>,
    pub params: Seq<Seq<char>>,
    pub items: Seq<SignatureV>,
}

impl DeepView for TraitDecl {
    type V = TraitDeclV;

    open spec fn deep_view(&self) -> TraitDeclV {
        TraitDeclV {
            vis: self.vis,
            name: self.name.deep_view(),
            params: self.params.deep_view(),
            items: self.items.deep_view(),
        }
    }
}

/// An impl block: the leading name of its self type's path, the implemented
/// trait's path segments when the block realizes a trait, and its function
/// items.
pub struct ImplDecl {
    pub self_name: String,
    pub of_trait: Option<Vec<PathSeg>>,
    pub items: Vec<FnSig>,
}

/// Ghost image of an `ImplDecl`.
#[verifier::ext_equal]
pub struct ImplDeclV {
    pub self_name: Seq<char>,
    pub of_trait: Option<Seq<PathSegV>>,
    pub items: Seq<FnSigV>,
}

impl DeepView for ImplDecl {
    type V = ImplDeclV;

    open spec fn deep_view(&self) -> ImplDeclV {
        ImplDeclV {
            self_name: self.self_name.deep_view(),
            of_trait: self.of_trait.deep_view(),
            items: self.items.deep_view(),
        }
    }
}

/// One item of the parsed sequence. Anything that is not a type declaration
/// or an impl block (functions, constants, modules, uses) is `Other` and
/// yields no diagram node.
pub enum RawItem {
    Struct(StructDecl),
    Enum(EnumDecl),
    Trait(TraitDecl),
    Impl(ImplDecl),
    Other,
}

/// Ghost image of a `RawItem`.
#[verifier::ext_equal]
pub enum RawItemV {
    Struct(StructDeclV),
    Enum(EnumDeclV),
    Trait(TraitDeclV),
    Impl(ImplDeclV),
    Other,
}

impl DeepView for RawItem {
    type V = RawItemV;

    open spec fn deep_view(&self) -> RawItemV {
        match self {
            RawItem::Struct(d) => RawItemV::Struct(d.deep_view()),
            RawItem::Enum(d) => RawItemV::Enum(d.deep_view()),
            RawItem::Trait(d) => RawItemV::Trait(d.deep_view()),
            RawItem::Impl(d) => RawItemV::Impl(d.deep_view()),
            RawItem::Other => RawItemV::Other,
        }
    }
}

/// One parsed item together with a reference to its originating module
/// path.
pub struct ParsedItem {
    pub raw: RawItem,
    pub path: ModulePath,
}

/// Ghost image of a `ParsedItem`.
#[verifier::ext_equal]
pub struct ParsedItemV {
    pub raw: RawItemV,
    pub path: Seq<Seq<char>>,
}

impl DeepView for ParsedItem {
    type V = ParsedItemV;

    open spec fn deep_view(&self) -> ParsedItemV {
        ParsedItemV { raw: self.raw.deep_view(), path: self.path.deep_view() }
    }
}

impl FnSig {
    /// A copy of this signature, with the same text.
    pub fn duplicate(&self) -> (r: FnSig)
        ensures
            r.deep_view() == self.deep_view(),
    {
        FnSig {
            vis: self.vis,
            name: self.name.clone(),
            inputs: dup_strings(&self.inputs),
            ret: dup_opt_string(&self.ret),
        }
    }

    /// The same signature without its visibility, as a trait realization
    /// records it.
    pub fn to_signature(&self) -> (r: Signature)
        ensures
            r.deep_view() == strip_vis(self.deep_view()),
    {
        Signature {
            name: self.name.clone(),
            inputs: dup_strings(&self.inputs),
            ret: dup_opt_string(&self.ret),
        }
    }
}

/// The signature of a function item without its visibility.
pub open spec fn strip_vis(f: FnSigV) -> SignatureV {
    SignatureV { name: f.name, inputs: f.inputs, ret: f.ret }
}

/// The visibility-less signatures of a block's function items.
pub open spec fn stripped_sigs(sigs: Seq<FnSigV>) -> Seq<SignatureV>
    decreases sigs.len(),
{
    if sigs.len() == 0 {
        Seq::empty()
    } else {
        stripped_sigs(sigs.drop_last()).push(strip_vis(sigs.last()))
    }
}

/// The visibility-less copies of a block's function items.
pub fn dup_signatures(v: &Vec<FnSig>) -> (r: Vec<Signature>)
    ensures
        r.deep_view() == stripped_sigs(v.deep_view()),
{
    let mut r: Vec<Signature> = Vec::new();
    let mut i: usize = 0;
    while i < v.len()
        invariant
            i <= v.len(),
            r.deep_view() =~= stripped_sigs(v.deep_view().subrange(0, i as int)),
        decreases v.len() - i,
    {
        let ghost pre = r.deep_view();
        r.push(v[i].to_signature());
        proof {
            let cur = v.deep_view().subrange(0, i + 1);
            assert(cur.drop_last() =~= v.deep_view().subrange(0, i as int));
            assert(cur.last() == v.deep_view()[i as int]);
            assert(r.deep_view() =~= pre.push(strip_vis(v.deep_view()[i as int])));
        }
        i += 1;
    }
    assert(v.deep_view().subrange(0, v.len() as int) =~= v.deep_view());
    r
}

/// A copy of a vector of visibility-less signatures, with the same text.
pub fn dup_sigs(v: &Vec<Signature>) -> (r: Vec<Signature>)
    ensures
        r.deep_view() == v.deep_view(),
{
    let mut r: Vec<Signature> = Vec::new();
    let mut i: usize = 0;
    while i < v.len()
        invariant
            i <= v.len(),
            r.deep_view() =~= v.deep_view().subrange(0, i as int),
        decreases v.len() - i,
    {
        let ghost pre = r.deep_view();
        r.push(
            Signature {
                name: v[i].name.clone(),
                inputs: dup_strings(&v[i].inputs),
                ret: dup_opt_string(&v[i].ret),
            },
        );
        proof {
            assert(r.deep_view() =~= pre.push(v.deep_view()[i as int]));
        }
        i += 1;
    }
    assert(r.deep_view() =~= v.deep_view());
    r
}

/// A copy of a vector of path segments, with the same text.
pub fn dup_path_segs(v: &Vec<PathSeg>) -> (r: Vec<PathSeg>)
    ensures
        r.deep_view() == v.deep_view(),
{
    let mut r: Vec<PathSeg> = Vec::new();
    let mut i: usize = 0;
    while i < v.len()
        invariant
            i <= v.len(),
            r.deep_view() =~= v.deep_view().subrange(0, i as int),
        decreases v.len() - i,
    {
        let ghost pre = r.deep_view();
        r.push(PathSeg { name: v[i].name.clone(), args: dup_strings(&v[i].args) });
        proof {
            assert(r.deep_view() =~= pre.push(v.deep_view()[i as int]));
        }
        i += 1;
    }
    assert(r.deep_view() =~= v.deep_view());
    r
}

/// A copy of a vector of fields, with the same text.
pub fn dup_fields(v: &Vec<Field>) -> (r: Vec<Field>)
    ensures
        r.deep_view() == v.deep_view(),
{
    let mut r: Vec<Field> = Vec::new();
    let mut i: usize = 0;
    while i < v.len()
        invariant
            i <= v.len(),
            r.deep_view() =~= v.deep_view().subrange(0, i as int),
        decreases v.len() - i,
    {
        let ghost pre = r.deep_view();
        r.push(
            Field { vis: v[i].vis, name: dup_opt_string(&v[i].name), ty: v[i].ty.clone() },
        );
        proof {
            assert(r.deep_view() =~= pre.push(v.deep_view()[i as int]));
        }
        i += 1;
    }
    assert(r.deep_view() =~= v.deep_view());
    r
}

} // verus!
