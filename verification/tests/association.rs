use rust2uml::graph::ListItem;
use rust2uml::paths::ModulePath;
use rust2uml::raw::{FnSig, ImplDecl, ParsedItem, RawItem, StructDecl, Visibility};

fn path() -> ModulePath {
    ModulePath { path: vec!["tests".to_string(), "association".to_string()] }
}

fn strukt(name: &str) -> ParsedItem {
    ParsedItem {
        raw: RawItem::Struct(StructDecl {
            vis: Visibility::Inherited,
            name: name.to_string(),
            fields: vec![],
        }),
        path: path(),
    }
}

fn inherent_impl(self_name: &str, fn_name: &str, ret: &str) -> ParsedItem {
    ParsedItem {
        raw: RawItem::Impl(ImplDecl {
            self_name: self_name.to_string(),
            of_trait: None,
            items: vec![FnSig {
                vis: Visibility::Inherited,
                name: fn_name.to_string(),
                inputs: vec![],
                ret: Some(ret.to_string()),
            }],
        }),
        path: path(),
    }
}

/// The arrow tokens of the edge from `src` to `dst`, when one exists.
fn edge_attrs(list: &ListItem, src: &str, dst: &str) -> Option<(String, String)> {
    let edges = list.edges();
    for e in &edges {
        if list.node_id(&list.source(e)) == src && list.node_id(&list.target(e)) == dst {
            return Some((
                list.edge_end_arrow(e).to_string(),
                list.edge_style(e).to_string(),
            ));
        }
    }
    None
}

#[test]
fn test_association() {
    let items = vec![
        strukt("A"),
        inherent_impl("A", "b", "B"),
        strukt("Ab"),
        inherent_impl("Ab", "b", "B"),
        strukt("B"),
        inherent_impl("B", "a", "Ab"),
    ];
    let list = ListItem::new(items);

    let nodes = list.nodes();
    assert_eq!(nodes.len(), 3);

    // The mutual association between Ab and B renders with no arrowhead.
    assert_eq!(
        edge_attrs(&list, "ndAb", "ndB"),
        Some(("none".to_string(), "solid".to_string()))
    );
    assert_eq!(
        edge_attrs(&list, "ndB", "ndAb"),
        Some(("none".to_string(), "solid".to_string()))
    );
    // The one-directional association keeps its arrowhead.
    assert_eq!(
        edge_attrs(&list, "ndB", "ndA"),
        Some(("vee".to_string(), "solid".to_string()))
    );
    // No relation points the other way at A.
    assert_eq!(edge_attrs(&list, "ndA", "ndB"), None);
    assert_eq!(edge_attrs(&list, "ndA", "ndAb"), None);
}
