use rust2uml::graph::ListItem;
use rust2uml::label::apply_src_url_mask;
use rust2uml::paths::ModulePath;
use rust2uml::raw::{Field, ParsedItem, RawItem, StructDecl, VariantDecl, EnumDecl, Visibility};
use rust2uml::Config;

fn path() -> ModulePath {
    ModulePath { path: vec!["core".to_string(), "item".to_string()] }
}

fn strukt(name: &str, fields: Vec<Field>) -> ParsedItem {
    ParsedItem {
        raw: RawItem::Struct(StructDecl {
            vis: Visibility::Public,
            name: name.to_string(),
            fields,
        }),
        path: path(),
    }
}

#[test]
fn escapes_markup_in_member_types() {
    let items = vec![strukt(
        "Holder",
        vec![Field {
            vis: Visibility::Public,
            name: Some("xs".to_string()),
            ty: "Vec<\"B\" & Co>".to_string(),
        }],
    )];
    let list = ListItem::new(items);
    let nodes = list.nodes();
    let config = Config::default();
    assert_eq!(
        list.node_label(&nodes[0], &config),
        "<font face=\"Arial\"><table border=\"1\" cellspacing=\"0\" cellpadding=\"10\">\
         <tr><td bgcolor=\"lightblue\"><b>Holder</b></td></tr>\
         <tr><td align=\"left\" bgcolor=\"white\">\
         + xs: Vec&lt;&quot;B&quot; &amp; Co&gt;<br align=\"left\"/></td></tr>\
         </table></font>"
    );
}

#[test]
fn source_link_substitutes_file_and_encodes_search_text() {
    let items = vec![strukt("Foo", vec![])];
    let list = ListItem::new(items);
    let nodes = list.nodes();
    let mut config = Config::default();
    config.src_url_mask = "http://host/crate/{file}".to_string();
    // The scroll fragment percent-encodes the space: the label differs
    // from the raw search text.
    assert_eq!(
        list.node_label(&nodes[0], &config),
        "<font face=\"Arial\"><table border=\"1\" cellspacing=\"0\" cellpadding=\"10\" \
         href=\"http://host/crate/src/core/item.rs#:~:text=struct%20Foo\">\
         <tr><td bgcolor=\"lightblue\"><b>Foo</b></td></tr></table></font>"
    );
}

#[test]
fn invalid_mask_degrades_to_no_link() {
    let items = vec![strukt("Foo", vec![])];
    let list = ListItem::new(items);
    let nodes = list.nodes();
    let mut config = Config::default();
    config.src_url_mask = "http://host/{dir}/{file}".to_string();
    assert_eq!(
        list.node_label(&nodes[0], &config),
        "<font face=\"Arial\"><table border=\"1\" cellspacing=\"0\" cellpadding=\"10\">\
         <tr><td bgcolor=\"lightblue\"><b>Foo</b></td></tr></table></font>"
    );
}

#[test]
fn mask_substitution_cases() {
    assert_eq!(
        apply_src_url_mask("file:///{file}", "src/lib.rs"),
        Some("file:///src/lib.rs".to_string())
    );
    assert_eq!(
        apply_src_url_mask("{file}{file}", "a"),
        Some("aa".to_string())
    );
    assert_eq!(apply_src_url_mask("", "src/lib.rs"), Some("".to_string()));
    assert_eq!(apply_src_url_mask("no placeholder", "x"), Some("no placeholder".to_string()));
    assert_eq!(apply_src_url_mask("{fil}", "x"), None);
    assert_eq!(apply_src_url_mask("}{file}", "x"), None);
    assert_eq!(apply_src_url_mask("tail{", "x"), None);
}

#[test]
fn config_switches_hide_blocks() {
    let items = vec![
        ParsedItem {
            raw: RawItem::Enum(EnumDecl {
                vis: Visibility::Public,
                name: "E".to_string(),
                params: vec![],
                variants: vec![
                    VariantDecl { name: "Unit".to_string(), tuple_tys: None },
                    VariantDecl {
                        name: "Pair".to_string(),
                        tuple_tys: Some(vec!["u8".to_string(), "u16".to_string()]),
                    },
                ],
            }),
            path: path(),
        },
    ];
    let list = ListItem::new(items);
    let nodes = list.nodes();

    let config = Config::default();
    assert_eq!(
        list.node_label(&nodes[0], &config),
        "<font face=\"Arial\"><table border=\"1\" cellspacing=\"0\" cellpadding=\"10\">\
         <tr><td bgcolor=\"yellow\"><b>E</b></td></tr>\
         <tr><td align=\"left\" bgcolor=\"white\">Unit<br align=\"left\"/>\n\
         Pair(u8, u16)<br align=\"left\"/></td></tr></table></font>"
    );

    let mut bare = Config::default();
    bare.include_fields = false;
    assert_eq!(
        list.node_label(&nodes[0], &bare),
        "<font face=\"Arial\"><table border=\"1\" cellspacing=\"0\" cellpadding=\"10\">\
         <tr><td bgcolor=\"yellow\"><b>E</b></td></tr></table></font>"
    );
}
