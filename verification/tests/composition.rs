use rust2uml::graph::ListItem;
use rust2uml::paths::ModulePath;
use rust2uml::raw::{Field, ParsedItem, RawItem, StructDecl, Visibility};
use rust2uml::Config;

fn path() -> ModulePath {
    ModulePath { path: vec!["tests".to_string(), "composition".to_string()] }
}

fn strukt(name: &str, fields: Vec<Field>) -> ParsedItem {
    ParsedItem {
        raw: RawItem::Struct(StructDecl {
            vis: Visibility::Inherited,
            name: name.to_string(),
            fields,
        }),
        path: path(),
    }
}

fn field(name: &str, ty: &str) -> Field {
    Field { vis: Visibility::Inherited, name: Some(name.to_string()), ty: ty.to_string() }
}

#[test]
fn test_composition() {
    let items = vec![strukt("A", vec![field("b", "B")]), strukt("B", vec![])];
    let list = ListItem::new(items);

    let nodes = list.nodes();
    assert_eq!(nodes.len(), 2);

    let config = Config::default();
    assert_eq!(
        list.node_label(&nodes[0], &config),
        "<font face=\"Arial\"><table border=\"1\" cellspacing=\"0\" cellpadding=\"10\">\
         <tr><td bgcolor=\"lightblue\"><b>A</b></td></tr>\
         <tr><td align=\"left\" bgcolor=\"white\">- b: B<br align=\"left\"/></td></tr>\
         </table></font>"
    );
    assert_eq!(
        list.node_label(&nodes[1], &config),
        "<font face=\"Arial\"><table border=\"1\" cellspacing=\"0\" cellpadding=\"10\">\
         <tr><td bgcolor=\"lightblue\"><b>B</b></td></tr></table></font>"
    );

    let edges = list.edges();
    assert_eq!(edges.len(), 1);
    assert_eq!(list.node_id(&list.source(&edges[0])), "ndB");
    assert_eq!(list.node_id(&list.target(&edges[0])), "ndA");
    assert_eq!(list.edge_end_arrow(&edges[0]), "diamond");
    assert_eq!(list.edge_style(&edges[0]), "solid");
}
