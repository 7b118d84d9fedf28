use rust2uml::graph::ListItem;
use rust2uml::paths::ModulePath;
use rust2uml::raw::{Field, FnSig, ImplDecl, ParsedItem, RawItem, StructDecl, Visibility};
use rust2uml::text::{contains_token, ends_with_name};

fn path() -> ModulePath {
    ModulePath { path: vec!["core".to_string()] }
}

#[test]
fn token_matching_is_exact_and_bracket_aware() {
    // An exact token matches, with or without space splitting.
    assert!(contains_token("Foo", "Foo", false));
    assert!(contains_token("Foo", "Foo", true));
    // A generic wrapper still exposes the inner token.
    assert!(contains_token("Vec<Foo>", "Foo", false));
    assert!(contains_token("Option<Foo>", "Foo", true));
    assert!(contains_token("Result<Foo, Error>", "Foo", true));
    // A reference is not an exact token.
    assert!(!contains_token("&Foo", "Foo", false));
    assert!(!contains_token("&Foo", "Foo", true));
    // A longer identifier does not contain the shorter one as a token.
    assert!(!contains_token("FooBar", "Foo", false));
    assert!(!contains_token("Ab", "A", true));
    // The raw-pointer form is one token only when the space is kept.
    assert!(contains_token("*mut Foo", "*mut Foo", false));
    assert!(!contains_token("*mut Foo", "*mut Foo", true));
    assert!(!contains_token("*mut Foo", "Foo", false));
    // A name that holds a separator can never be produced by the split.
    assert!(!contains_token("Vec<Foo>", "Vec<Foo>", false));
    // The empty text yields one empty token; a non-empty one does not.
    assert!(contains_token("", "", false));
    assert!(!contains_token("ab", "", false));
}

#[test]
fn suffix_matching_is_permissive() {
    assert!(ends_with_name("&Foo", "Foo"));
    assert!(ends_with_name("Vec<Foo", "Foo"));
    assert!(ends_with_name("Foo", "Foo"));
    // The permissiveness also catches a longer identifier: FooBar ends
    // with Bar, which is what makes the dependency match looser than the
    // association's token match.
    assert!(ends_with_name("FooBar", "Bar"));
    assert!(!ends_with_name("Foo", "Bar"));
    assert!(!ends_with_name("Fo", "Foo"));
}

#[test]
fn exact_field_composes_but_reference_parameter_depends() {
    // A field of exact type Foo yields composition; a parameter of type
    // &Foo yields dependency, not association or composition.
    let items = vec![
        ParsedItem {
            raw: RawItem::Struct(StructDecl {
                vis: Visibility::Inherited,
                name: "Holder".to_string(),
                fields: vec![Field {
                    vis: Visibility::Inherited,
                    name: Some("inner".to_string()),
                    ty: "Foo".to_string(),
                }],
            }),
            path: path(),
        },
        ParsedItem {
            raw: RawItem::Struct(StructDecl {
                vis: Visibility::Inherited,
                name: "Borrower".to_string(),
                fields: vec![],
            }),
            path: path(),
        },
        ParsedItem {
            raw: RawItem::Impl(ImplDecl {
                self_name: "Borrower".to_string(),
                of_trait: None,
                items: vec![FnSig {
                    vis: Visibility::Inherited,
                    name: "look".to_string(),
                    inputs: vec!["&Foo".to_string()],
                    ret: None,
                }],
            }),
            path: path(),
        },
        ParsedItem {
            raw: RawItem::Struct(StructDecl {
                vis: Visibility::Inherited,
                name: "Foo".to_string(),
                fields: vec![],
            }),
            path: path(),
        },
    ];
    let list = ListItem::new(items);
    let edges = list.edges();
    assert_eq!(edges.len(), 2);
    // Foo -> Holder: composition, by the exact token.
    assert_eq!(list.node_id(&list.source(&edges[0])), "ndFoo");
    assert_eq!(list.node_id(&list.target(&edges[0])), "ndHolder");
    assert_eq!(list.edge_end_arrow(&edges[0]), "diamond");
    assert_eq!(list.edge_style(&edges[0]), "solid");
    // Foo -> Borrower: dependency, by the suffix; the reference is not a
    // token, so neither association nor composition fires.
    assert_eq!(list.node_id(&list.source(&edges[1])), "ndFoo");
    assert_eq!(list.node_id(&list.target(&edges[1])), "ndBorrower");
    assert_eq!(list.edge_end_arrow(&edges[1]), "vee");
    assert_eq!(list.edge_style(&edges[1]), "dashed");
}
