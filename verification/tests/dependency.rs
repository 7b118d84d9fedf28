use rust2uml::graph::ListItem;
use rust2uml::paths::ModulePath;
use rust2uml::raw::{FnSig, ImplDecl, ParsedItem, PathSeg, RawItem, StructDecl, Visibility};

fn path() -> ModulePath {
    ModulePath { path: vec!["tests".to_string(), "dependency".to_string()] }
}

fn strukt(name: &str) -> ParsedItem {
    ParsedItem {
        raw: RawItem::Struct(StructDecl {
            vis: Visibility::Inherited,
            name: name.to_string(),
            fields: vec![],
        }),
        path: path(),
    }
}

#[test]
fn test_dependency() {
    // struct A with `impl A { fn b(b: &B) {} }`, struct B.
    let items = vec![
        strukt("A"),
        ParsedItem {
            raw: RawItem::Impl(ImplDecl {
                self_name: "A".to_string(),
                of_trait: None,
                items: vec![FnSig {
                    vis: Visibility::Inherited,
                    name: "b".to_string(),
                    inputs: vec!["&B".to_string()],
                    ret: None,
                }],
            }),
            path: path(),
        },
        strukt("B"),
    ];
    let list = ListItem::new(items);

    let nodes = list.nodes();
    assert_eq!(nodes.len(), 2);

    let edges = list.edges();
    assert_eq!(edges.len(), 1);
    assert_eq!(list.node_id(&list.source(&edges[0])), "ndB");
    assert_eq!(list.node_id(&list.target(&edges[0])), "ndA");
    assert_eq!(list.edge_end_arrow(&edges[0]), "vee");
    assert_eq!(list.edge_style(&edges[0]), "dashed");
}

#[test]
fn trait_realization_parameters_yield_no_dependency() {
    // Trait-sourced dependency detection is a known gap: a parameter
    // inside an `impl Trait for Type` block creates no edge.
    let items = vec![
        strukt("A"),
        ParsedItem {
            raw: RawItem::Impl(ImplDecl {
                self_name: "A".to_string(),
                of_trait: Some(vec![PathSeg { name: "T".to_string(), args: vec![] }]),
                items: vec![FnSig {
                    vis: Visibility::Inherited,
                    name: "b".to_string(),
                    inputs: vec!["&B".to_string()],
                    ret: None,
                }],
            }),
            path: path(),
        },
        strukt("B"),
    ];
    let list = ListItem::new(items);
    assert!(list.edges().is_empty());
}
