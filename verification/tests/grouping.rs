use rust2uml::graph::ListItem;
use rust2uml::item::Item;
use rust2uml::module::Module;
use rust2uml::paths::ModulePath;
use rust2uml::raw::{Field, FnSig, ImplDecl, ParsedItem, RawItem, StructDecl, Visibility};

fn path() -> ModulePath {
    ModulePath { path: vec!["core".to_string()] }
}

fn strukt(name: &str) -> RawItem {
    RawItem::Struct(StructDecl {
        vis: Visibility::Inherited,
        name: name.to_string(),
        fields: vec![],
    })
}

fn inherent_impl(self_name: &str, fn_name: &str, ret: &str) -> RawItem {
    RawItem::Impl(ImplDecl {
        self_name: self_name.to_string(),
        of_trait: None,
        items: vec![FnSig {
            vis: Visibility::Inherited,
            name: fn_name.to_string(),
            inputs: vec![],
            ret: Some(ret.to_string()),
        }],
    })
}

#[test]
fn interleaved_impl_blocks_attach_to_their_declaration() {
    // struct Foo; struct Bar; impl Foo; impl Bar; impl Foo — the impls
    // are not contiguous with their declarations.
    let module = Module::new(
        vec![
            strukt("Foo"),
            strukt("Bar"),
            inherent_impl("Foo", "a", "u8"),
            inherent_impl("Bar", "b", "u16"),
            inherent_impl("Foo", "c", "u32"),
        ],
        path(),
    );
    let mut item = Item::new(module.items());

    // Foo's group carries both Foo impls, in encounter order.
    let foo = item.next().unwrap();
    assert_eq!(foo.as_name().unwrap().as_str(), "Foo");
    assert_eq!(foo.method.len(), 2);
    assert_eq!(foo.method[0].name, "a");
    assert_eq!(foo.method[1].name, "c");

    let bar = item.next().unwrap();
    assert_eq!(bar.as_name().unwrap().as_str(), "Bar");
    assert_eq!(bar.method.len(), 1);
    assert_eq!(bar.method[0].name, "b");

    // The main cursor still visits the consumed impls: each yields a
    // discarded sentinel group.
    assert!(item.next().unwrap().is_none());
    assert!(item.next().unwrap().is_none());
    assert!(item.next().unwrap().is_none());
    assert!(item.next().is_none());
}

#[test]
fn other_items_and_lone_impls_yield_no_node() {
    let items = vec![
        ParsedItem { raw: RawItem::Other, path: path() },
        ParsedItem { raw: inherent_impl("Missing", "f", "u8"), path: path() },
        ParsedItem { raw: strukt("Real"), path: path() },
    ];
    let list = ListItem::new(items);
    let nodes = list.nodes();
    assert_eq!(nodes.len(), 1);
    assert_eq!(list.node_id(&nodes[0]), "ndReal");
    assert!(list.edges().is_empty());
}

#[test]
fn listed_iteration_skips_sentinels() {
    let items = vec![
        ParsedItem { raw: RawItem::Other, path: path() },
        ParsedItem { raw: strukt("One"), path: path() },
        ParsedItem { raw: RawItem::Other, path: path() },
        ParsedItem { raw: strukt("Two"), path: path() },
    ];
    let mut list = ListItem::new(items);
    assert_eq!(list.next().unwrap().as_name().unwrap().as_str(), "One");
    assert_eq!(list.next().unwrap().as_name().unwrap().as_str(), "Two");
    assert!(list.next().is_none());
}

#[test]
fn colliding_names_over_merge() {
    // Two declarations sharing a name: grouping goes by name equality, so
    // both groups collect the one impl — a documented limitation.
    let items = vec![
        ParsedItem { raw: strukt("Twin"), path: path() },
        ParsedItem { raw: strukt("Twin"), path: path() },
        ParsedItem { raw: inherent_impl("Twin", "f", "u8"), path: path() },
    ];
    let mut item = Item::new(items);
    let first = item.next().unwrap();
    let second = item.next().unwrap();
    assert_eq!(first.method.len(), 1);
    assert_eq!(second.method.len(), 1);
}

#[test]
fn dedup_keeps_one_edge_per_ordered_pair() {
    // Both A declarations produce structurally identical nodes related to
    // B, so the pair (B, A) arises twice and is kept once.
    let items = vec![
        ParsedItem {
            raw: RawItem::Struct(StructDecl {
                vis: Visibility::Inherited,
                name: "A".to_string(),
                fields: vec![Field {
                    vis: Visibility::Inherited,
                    name: Some("b".to_string()),
                    ty: "B".to_string(),
                }],
            }),
            path: path(),
        },
        ParsedItem {
            raw: RawItem::Struct(StructDecl {
                vis: Visibility::Inherited,
                name: "A".to_string(),
                fields: vec![Field {
                    vis: Visibility::Inherited,
                    name: Some("b".to_string()),
                    ty: "B".to_string(),
                }],
            }),
            path: path(),
        },
        ParsedItem { raw: strukt("B"), path: path() },
    ];
    let list = ListItem::new(items);
    assert_eq!(list.nodes().len(), 3);
    let edges = list.edges();
    assert_eq!(edges.len(), 1);
    assert_eq!(list.node_id(&list.source(&edges[0])), "ndB");
    assert_eq!(list.node_id(&list.target(&edges[0])), "ndA");
}
