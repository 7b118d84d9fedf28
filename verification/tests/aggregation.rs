use rust2uml::graph::ListItem;
use rust2uml::paths::ModulePath;
use rust2uml::raw::{Field, ParsedItem, RawItem, StructDecl, Visibility};

fn path() -> ModulePath {
    ModulePath { path: vec!["tests".to_string(), "aggregation".to_string()] }
}

fn strukt(name: &str, fields: Vec<Field>) -> ParsedItem {
    ParsedItem {
        raw: RawItem::Struct(StructDecl {
            vis: Visibility::Inherited,
            name: name.to_string(),
            fields,
        }),
        path: path(),
    }
}

fn field(name: &str, ty: &str) -> Field {
    Field { vis: Visibility::Inherited, name: Some(name.to_string()), ty: ty.to_string() }
}

#[test]
fn test_aggregation() {
    let items = vec![
        strukt("Amut", vec![field("b", "*mut B")]),
        strukt("Aconst", vec![field("b", "*const B")]),
        strukt("B", vec![]),
    ];
    let list = ListItem::new(items);

    let nodes = list.nodes();
    assert_eq!(nodes.len(), 3);
    assert_eq!(list.node_id(&nodes[0]), "ndAmut");
    assert_eq!(list.node_id(&nodes[1]), "ndAconst");
    assert_eq!(list.node_id(&nodes[2]), "ndB");

    let edges = list.edges();
    assert_eq!(edges.len(), 2);
    assert_eq!(list.node_id(&list.source(&edges[0])), "ndB");
    assert_eq!(list.node_id(&list.target(&edges[0])), "ndAmut");
    assert_eq!(list.edge_end_arrow(&edges[0]), "odiamond");
    assert_eq!(list.edge_style(&edges[0]), "solid");
    assert_eq!(list.node_id(&list.source(&edges[1])), "ndB");
    assert_eq!(list.node_id(&list.target(&edges[1])), "ndAconst");
    assert_eq!(list.edge_end_arrow(&edges[1]), "odiamond");
    assert_eq!(list.edge_style(&edges[1]), "solid");
}
