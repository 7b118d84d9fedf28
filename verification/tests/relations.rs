use rust2uml::graph::ListItem;
use rust2uml::paths::ModulePath;
use rust2uml::raw::{
    EnumDecl, FnSig, ImplDecl, ParsedItem, PathSeg, RawItem, StructDecl, VariantDecl, Visibility,
};

fn path() -> ModulePath {
    ModulePath { path: vec!["core".to_string()] }
}

fn strukt(name: &str) -> ParsedItem {
    ParsedItem {
        raw: RawItem::Struct(StructDecl {
            vis: Visibility::Inherited,
            name: name.to_string(),
            fields: vec![],
        }),
        path: path(),
    }
}

#[test]
fn enum_variant_field_composes() {
    // enum Holder { One(Foo), Two } — the variant's tuple field holds
    // Foo by value.
    let items = vec![
        ParsedItem {
            raw: RawItem::Enum(EnumDecl {
                vis: Visibility::Inherited,
                name: "Holder".to_string(),
                params: vec![],
                variants: vec![
                    VariantDecl {
                        name: "One".to_string(),
                        tuple_tys: Some(vec!["Foo".to_string()]),
                    },
                    VariantDecl { name: "Two".to_string(), tuple_tys: None },
                ],
            }),
            path: path(),
        },
        strukt("Foo"),
    ];
    let list = ListItem::new(items);
    let edges = list.edges();
    assert_eq!(edges.len(), 1);
    assert_eq!(list.node_id(&list.source(&edges[0])), "ndFoo");
    assert_eq!(list.node_id(&list.target(&edges[0])), "ndHolder");
    assert_eq!(list.edge_end_arrow(&edges[0]), "diamond");
    assert_eq!(list.edge_style(&edges[0]), "solid");
}

#[test]
fn realization_method_return_associates() {
    // A realizes a trait that is no node; its method returns C, which is
    // one — the return associates C to A even though A has no inherent
    // method.
    let items = vec![
        strukt("A"),
        ParsedItem {
            raw: RawItem::Impl(ImplDecl {
                self_name: "A".to_string(),
                of_trait: Some(vec![PathSeg { name: "Maker".to_string(), args: vec![] }]),
                items: vec![FnSig {
                    vis: Visibility::Inherited,
                    name: "make".to_string(),
                    inputs: vec![],
                    ret: Some("C".to_string()),
                }],
            }),
            path: path(),
        },
        strukt("C"),
    ];
    let list = ListItem::new(items);
    let edges = list.edges();
    assert_eq!(edges.len(), 1);
    assert_eq!(list.node_id(&list.source(&edges[0])), "ndC");
    assert_eq!(list.node_id(&list.target(&edges[0])), "ndA");
    assert_eq!(list.edge_end_arrow(&edges[0]), "vee");
    assert_eq!(list.edge_style(&edges[0]), "solid");
}

#[test]
fn association_takes_precedence_over_realization() {
    // B declares a trait that A realizes, and the realization's method
    // also returns B: both kinds hold for the pair (B, A), and the
    // priority order picks association for the rendering.
    let items = vec![
        strukt("A"),
        ParsedItem {
            raw: RawItem::Impl(ImplDecl {
                self_name: "A".to_string(),
                of_trait: Some(vec![PathSeg { name: "B".to_string(), args: vec![] }]),
                items: vec![FnSig {
                    vis: Visibility::Inherited,
                    name: "make".to_string(),
                    inputs: vec![],
                    ret: Some("B".to_string()),
                }],
            }),
            path: path(),
        },
        ParsedItem {
            raw: RawItem::Trait(rust2uml::raw::TraitDecl {
                vis: Visibility::Inherited,
                name: "B".to_string(),
                params: vec![],
                items: vec![],
            }),
            path: path(),
        },
    ];
    let list = ListItem::new(items);
    let edges = list.edges();
    assert_eq!(edges.len(), 1);
    assert_eq!(list.node_id(&list.source(&edges[0])), "ndB");
    assert_eq!(list.node_id(&list.target(&edges[0])), "ndA");
    assert_eq!(list.edge_end_arrow(&edges[0]), "vee");
    assert_eq!(list.edge_style(&edges[0]), "solid");
}
