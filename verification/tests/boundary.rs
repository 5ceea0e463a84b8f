use inline_mod::model::{Body, TopItem};
use inline_mod::parse::{mod_decl_of, parse_source};

fn bytes(s: &str) -> Vec<u8> {
    s.as_bytes().to_vec()
}

#[test]
fn module_declaration_read_across_boundary() {
    let m: syn::ItemMod = syn::parse_str("#[path = \"a/b.rs\"] #[cfg(test)] pub mod x;").unwrap();
    let d = mod_decl_of(&m);
    assert_eq!(d.name, bytes("x"));
    assert_eq!(d.vis, bytes("pub"));
    assert!(matches!(d.body, Body::External));
    assert_eq!(d.attrs.len(), 2);
    assert_eq!(d.attrs[0].path_value, Some(bytes("a/b.rs")));
    assert_eq!(d.attrs[1].path_value, None);
}

#[test]
fn inline_module_read_as_inline() {
    let m: syn::ItemMod = syn::parse_str("mod x { fn f() {} }").unwrap();
    let d = mod_decl_of(&m);
    assert_eq!(d.name, bytes("x"));
    assert!(matches!(d.body, Body::Inline));
}

#[test]
fn parse_source_classifies_items() {
    let pf = parse_source(&bytes("mod a; mod b { fn inner() {} } fn c() {}")).unwrap();
    assert_eq!(pf.items.len(), 3);
    match &pf.items[0] {
        TopItem::ExtMod(d) => assert_eq!(d.name, bytes("a")),
        _ => panic!("external declaration not recognised"),
    }
    assert!(matches!(&pf.items[1], TopItem::Opaque(_)));
    assert!(matches!(&pf.items[2], TopItem::Opaque(_)));
}

#[test]
fn parse_source_keeps_file_attributes() {
    let pf = parse_source(&bytes("#![allow(dead_code)] fn c() {}")).unwrap();
    assert_eq!(pf.file_attrs.len(), 1);
    assert_eq!(pf.items.len(), 1);
}

#[test]
fn parse_source_rejects_bad_syntax() {
    let e = parse_source(&bytes("fn broken( {")).unwrap_err();
    assert!(!e.is_empty());
}

#[test]
fn parse_source_rejects_non_utf8() {
    let e = parse_source(&vec![0xffu8, 0xfe]).unwrap_err();
    assert!(!e.is_empty());
}
