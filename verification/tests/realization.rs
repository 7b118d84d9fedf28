use rust2uml::graph::ListItem;
use rust2uml::paths::ModulePath;
use rust2uml::raw::{
    Field, FnSig, ImplDecl, ParsedItem, PathSeg, RawItem, Signature, StructDecl, TraitDecl,
    Visibility,
};
use rust2uml::Config;

fn path() -> ModulePath {
    ModulePath { path: vec!["tests".to_string(), "realization".to_string()] }
}

#[test]
fn test_realization() {
    // struct A<T> { a: T } with an inherent `fn a(a: T) -> Self`, an
    // `impl<T> B<T> for A<T>` with `fn a(&self) -> Option<T>`, and the
    // trait B<T> declaring `fn a(&self) -> Option<T>`.
    let items = vec![
        ParsedItem {
            raw: RawItem::Struct(StructDecl {
                vis: Visibility::Inherited,
                name: "A".to_string(),
                fields: vec![Field {
                    vis: Visibility::Inherited,
                    name: Some("a".to_string()),
                    ty: "T".to_string(),
                }],
            }),
            path: path(),
        },
        ParsedItem {
            raw: RawItem::Impl(ImplDecl {
                self_name: "A".to_string(),
                of_trait: None,
                items: vec![FnSig {
                    vis: Visibility::Inherited,
                    name: "a".to_string(),
                    inputs: vec!["T".to_string()],
                    ret: Some("Self".to_string()),
                }],
            }),
            path: path(),
        },
        ParsedItem {
            raw: RawItem::Impl(ImplDecl {
                self_name: "A".to_string(),
                of_trait: Some(vec![PathSeg {
                    name: "B".to_string(),
                    args: vec!["T".to_string()],
                }]),
                items: vec![FnSig {
                    vis: Visibility::Inherited,
                    name: "a".to_string(),
                    inputs: vec!["&Self".to_string()],
                    ret: Some("Option<T>".to_string()),
                }],
            }),
            path: path(),
        },
        ParsedItem {
            raw: RawItem::Trait(TraitDecl {
                vis: Visibility::Inherited,
                name: "B".to_string(),
                params: vec!["T".to_string()],
                items: vec![Signature {
                    name: "a".to_string(),
                    inputs: vec!["&Self".to_string()],
                    ret: Some("Option<T>".to_string()),
                }],
            }),
            path: path(),
        },
    ];
    let list = ListItem::new(items);

    let nodes = list.nodes();
    assert_eq!(nodes.len(), 2);
    assert_eq!(list.node_id(&nodes[0]), "ndA");
    assert_eq!(list.node_id(&nodes[1]), "ndB");

    // T is a generic parameter, not a declared node, so the field `a: T`
    // yields no relation target; the only edge is the realization.
    let edges = list.edges();
    assert_eq!(edges.len(), 1);
    assert_eq!(list.node_id(&list.source(&edges[0])), "ndB");
    assert_eq!(list.node_id(&list.target(&edges[0])), "ndA");
    assert_eq!(list.edge_end_arrow(&edges[0]), "onormal");
    assert_eq!(list.edge_style(&edges[0]), "dashed");

    // The field entry `a: T` still renders in A's label; the method
    // block holds the inherent method alone — the realization's method
    // belongs to the realization block, which the stock configuration
    // omits.
    let config = Config::default();
    assert_eq!(
        list.node_label(&nodes[0], &config),
        "<font face=\"Arial\"><table border=\"1\" cellspacing=\"0\" cellpadding=\"10\">\
         <tr><td bgcolor=\"lightblue\"><b>A</b></td></tr>\
         <tr><td align=\"left\" bgcolor=\"white\">- a: T<br align=\"left\"/></td></tr>\
         <tr><td align=\"left\" bgcolor=\"white\">- a(T) -&gt; Self<br align=\"left\"/></td></tr>\
         </table></font>"
    );

    // With realizations included, the trait realization's method shows
    // in its own block.
    let mut with_implems = Config::default();
    with_implems.include_implems = true;
    assert_eq!(
        list.node_label(&nodes[0], &with_implems),
        "<font face=\"Arial\"><table border=\"1\" cellspacing=\"0\" cellpadding=\"10\">\
         <tr><td bgcolor=\"lightblue\"><b>A</b></td></tr>\
         <tr><td align=\"left\" bgcolor=\"white\">- a: T<br align=\"left\"/></td></tr>\
         <tr><td align=\"left\" bgcolor=\"white\">- a(T) -&gt; Self<br align=\"left\"/></td></tr>\
         <tr><td align=\"left\" bgcolor=\"white\"> a(&amp;Self) -&gt; Option&lt;T&gt;\
         <br align=\"left\"/></td></tr></table></font>"
    );
    assert_eq!(
        list.node_label(&nodes[1], &config),
        "<font face=\"Arial\"><table border=\"1\" cellspacing=\"0\" cellpadding=\"10\">\
         <tr><td bgcolor=\"lightgreen\"><b>B</b></td></tr>\
         <tr><td align=\"left\" bgcolor=\"white\">a(&amp;Self) -&gt; Option&lt;T&gt;\
         <br align=\"left\"/></td></tr></table></font>"
    );
}
