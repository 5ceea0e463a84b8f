use inline_mod::engine::{inline_mod, rewrite_items, Outcome, Transformed};
use inline_mod::fs_model::{FsModel, PathFacts};
use inline_mod::model::{Attr, Body, Diag, DiagKind, ModDecl, OutMod, OutNode, TopItem};

fn bytes(s: &str) -> Vec<u8> {
    s.as_bytes().to_vec()
}

fn override_attr(p: &str) -> Attr {
    Attr { tokens: bytes(&format!("#[path = \"{}\"]", p)), path_value: Some(bytes(p)) }
}

fn decl(name: &str, vis: &str, attrs: Vec<Attr>, body: Body) -> ModDecl {
    ModDecl { name: bytes(name), vis: bytes(vis), attrs, body }
}

fn present(fs: &mut FsModel, path: &str, content: &str) {
    fs.record(bytes(path), PathFacts { is_file: true, read: Ok(bytes(content)) });
}

fn absent(fs: &mut FsModel, path: &str) {
    fs.record(bytes(path), PathFacts { is_file: false, read: Err(bytes("No such file")) });
}

fn run(d: &ModDecl, build_root: Option<&str>, fs: &FsModel) -> Result<OutMod, Diag> {
    let root = build_root.map(bytes);
    let t = inline_mod(d, root.as_ref(), fs, 64);
    assert!(t.queries.is_empty(), "walk still had unanswered queries");
    match t.outcome {
        Outcome::Done(r) => r,
        Outcome::Incomplete => panic!("walk incomplete without queries"),
    }
}

#[test]
fn inline_declaration_soft_fails() {
    let d = decl("foo", "pub", vec![override_attr("a/b.rs")], Body::Inline);
    let fs = FsModel::new();
    let m = run(&d, Some("/proj"), &fs).expect("soft failure must still be valid output");
    assert_eq!(m.name, bytes("foo"));
    assert_eq!(m.vis, bytes("pub"));
    assert_eq!(m.attrs.len(), 1);
    assert_eq!(m.attrs[0].tokens, bytes("#[path = \"a/b.rs\"]"));
    assert!(m.dep_file.is_none());
    assert_eq!(m.items.len(), 1);
    assert!(matches!(
        &m.items[0],
        OutNode::Diag(Diag { kind: DiagKind::AlreadyInline, .. })
    ));
}

#[test]
fn missing_path_is_reported() {
    let d = decl("foo", "", Vec::new(), Body::External);
    let fs = FsModel::new();
    let e = run(&d, Some("/proj"), &fs).expect_err("no path anywhere");
    assert!(matches!(e.kind, DiagKind::MissingPath));
}

#[test]
fn missing_build_root_is_fatal() {
    let d = decl("foo", "", vec![override_attr("a/b.rs")], Body::External);
    let fs = FsModel::new();
    let e = run(&d, None, &fs).expect_err("relative path with no build root");
    assert!(matches!(e.kind, DiagKind::MissingBuildRoot));
}

#[test]
fn relative_path_resolves_against_build_root() {
    let d = decl("foo", "pub", vec![override_attr("a/b.rs")], Body::External);
    let mut fs = FsModel::new();
    present(&mut fs, "/proj/a/b.rs", "fn answer() -> u32 { 42 }");
    let m = run(&d, Some("/proj"), &fs).expect("resolvable and parseable");
    assert_eq!(m.name, bytes("foo"));
    assert_eq!(m.vis, bytes("pub"));
    assert_eq!(m.attrs[0].tokens, bytes("#[path = \"a/b.rs\"]"));
    assert_eq!(m.dep_file, Some(bytes("/proj/a/b.rs")));
    assert_eq!(m.items.len(), 1);
    assert!(matches!(&m.items[0], OutNode::Opaque(_)));
}

#[test]
fn absolute_path_used_verbatim() {
    let d = decl("foo", "", vec![override_attr("/abs/x.rs")], Body::External);
    let mut fs = FsModel::new();
    present(&mut fs, "/abs/x.rs", "const K: u8 = 1;");
    let m = run(&d, None, &fs).expect("absolute path needs no build root");
    assert_eq!(m.dep_file, Some(bytes("/abs/x.rs")));
}

#[test]
fn read_failure_is_reported_with_cause() {
    let d = decl("foo", "", vec![override_attr("/abs/x.rs")], Body::External);
    let mut fs = FsModel::new();
    fs.record(bytes("/abs/x.rs"), PathFacts { is_file: true, read: Err(bytes("denied")) });
    let e = run(&d, None, &fs).expect_err("read fails");
    match e.kind {
        DiagKind::FileRead { name, path, cause } => {
            assert_eq!(name, bytes("foo"));
            assert_eq!(path, bytes("/abs/x.rs"));
            assert_eq!(cause, bytes("denied"));
        },
        _ => panic!("wrong diagnostic kind"),
    }
}

#[test]
fn parse_failure_carries_parser_message() {
    let d = decl("foo", "", vec![override_attr("/abs/x.rs")], Body::External);
    let mut fs = FsModel::new();
    present(&mut fs, "/abs/x.rs", "fn broken( {");
    let e = run(&d, None, &fs).expect_err("content does not parse");
    match e.kind {
        DiagKind::Parse { message } => assert!(!message.is_empty()),
        _ => panic!("wrong diagnostic kind"),
    }
}

#[test]
fn walk_queries_then_finishes() {
    let d = decl("foo", "", vec![override_attr("/abs/x.rs")], Body::External);
    let mut fs = FsModel::new();
    let t: Transformed = inline_mod(&d, None, &fs, 64);
    assert!(matches!(t.outcome, Outcome::Incomplete));
    assert_eq!(t.queries, vec![bytes("/abs/x.rs")]);
    present(&mut fs, "/abs/x.rs", "fn f() {}");
    let t2 = inline_mod(&d, None, &fs, 64);
    assert!(t2.queries.is_empty());
    assert!(matches!(t2.outcome, Outcome::Done(Ok(_))));
}

#[test]
fn nested_module_inlined_with_two_markers() {
    let d = decl("foo", "", vec![override_attr("a/b.rs")], Body::External);
    let mut fs = FsModel::new();
    present(&mut fs, "/r/a/b.rs", "mod bar;");
    present(&mut fs, "/r/a/b/bar.rs", "fn g() {}");
    let m = run(&d, Some("/r"), &fs).expect("whole tree resolvable");
    assert_eq!(m.dep_file, Some(bytes("/r/a/b.rs")));
    assert_eq!(m.items.len(), 1);
    match &m.items[0] {
        OutNode::Module(bar) => {
            assert_eq!(bar.name, bytes("bar"));
            assert_eq!(bar.dep_file, Some(bytes("/r/a/b/bar.rs")));
            assert_eq!(bar.items.len(), 1);
            assert!(matches!(&bar.items[0], OutNode::Opaque(_)));
        },
        _ => panic!("nested module was not inlined"),
    }
}

#[test]
fn fallback_to_mod_rs_candidate() {
    let d = decl("foo", "", vec![override_attr("a/b.rs")], Body::External);
    let mut fs = FsModel::new();
    present(&mut fs, "/r/a/b.rs", "mod bar;");
    absent(&mut fs, "/r/a/b/bar.rs");
    present(&mut fs, "/r/a/b/bar/mod.rs", "fn g() {}");
    let m = run(&d, Some("/r"), &fs).expect("second candidate exists");
    match &m.items[0] {
        OutNode::Module(bar) => {
            assert_eq!(bar.dep_file, Some(bytes("/r/a/b/bar/mod.rs")));
        },
        _ => panic!("nested module was not inlined"),
    }
}

#[test]
fn both_candidates_absent_yields_read_diagnostic() {
    let d = decl("foo", "", vec![override_attr("a/b.rs")], Body::External);
    let mut fs = FsModel::new();
    present(&mut fs, "/r/a/b.rs", "mod bar;");
    absent(&mut fs, "/r/a/b/bar.rs");
    absent(&mut fs, "/r/a/b/bar/mod.rs");
    let m = run(&d, Some("/r"), &fs).expect("parent still assembles");
    match &m.items[0] {
        OutNode::Diag(Diag { kind: DiagKind::FileRead { name, path, cause }, .. }) => {
            assert_eq!(name, &bytes("bar"));
            assert_eq!(path, &bytes("/r/a/b/bar/mod.rs"));
            assert_eq!(cause, &bytes("No such file"));
        },
        _ => panic!("expected a read diagnostic at the nested node"),
    }
}

#[test]
fn nested_override_beats_convention() {
    let d = decl("foo", "", vec![override_attr("a/b.rs")], Body::External);
    let mut fs = FsModel::new();
    present(&mut fs, "/r/a/b.rs", "#[path = \"/r/alt.rs\"] mod bar;");
    absent(&mut fs, "/r/a/b/bar.rs");
    present(&mut fs, "/r/alt.rs", "fn alt() {}");
    let m = run(&d, Some("/r"), &fs).expect("override target exists");
    match &m.items[0] {
        OutNode::Module(bar) => {
            assert_eq!(bar.name, bytes("bar"));
            assert_eq!(bar.dep_file, Some(bytes("/r/alt.rs")));
        },
        _ => panic!("nested module was not inlined"),
    }
}

#[test]
fn failing_sibling_leaves_others_inlined() {
    let d = decl("foo", "", vec![override_attr("a/b.rs")], Body::External);
    let mut fs = FsModel::new();
    present(&mut fs, "/r/a/b.rs", "mod bar; mod baz; fn keep() {}");
    present(&mut fs, "/r/a/b/bar.rs", "fn g() {}");
    absent(&mut fs, "/r/a/b/baz.rs");
    absent(&mut fs, "/r/a/b/baz/mod.rs");
    let m = run(&d, Some("/r"), &fs).expect("parent assembles best-effort");
    assert_eq!(m.items.len(), 3);
    assert!(matches!(&m.items[0], OutNode::Module(_)));
    assert!(matches!(
        &m.items[1],
        OutNode::Diag(Diag { kind: DiagKind::FileRead { .. }, .. })
    ));
    assert!(matches!(&m.items[2], OutNode::Opaque(_)));
}

#[test]
fn fully_inlined_items_pass_through_unchanged() {
    let items = vec![
        TopItem::Opaque(bytes("fn a() {}")),
        TopItem::Opaque(bytes("struct S;")),
    ];
    let fs = FsModel::new();
    let r = rewrite_items(&items, &bytes("/r"), None, &fs, 64);
    assert!(!r.fatal);
    assert!(r.queries.is_empty());
    assert_eq!(r.nodes.len(), 2);
    match (&r.nodes[0], &r.nodes[1]) {
        (OutNode::Opaque(a), OutNode::Opaque(b)) => {
            assert_eq!(a, &bytes("fn a() {}"));
            assert_eq!(b, &bytes("struct S;"));
        },
        _ => panic!("pass-through items changed shape"),
    }
}

#[test]
fn file_without_modules_keeps_every_item() {
    let d = decl("foo", "", vec![override_attr("/abs/x.rs")], Body::External);
    let mut fs = FsModel::new();
    present(&mut fs, "/abs/x.rs", "fn a() {} struct S; impl S { fn b(&self) {} }");
    let m = run(&d, None, &fs).expect("no nesting at all");
    assert_eq!(m.items.len(), 3);
    assert!(m.items.iter().all(|n| matches!(n, OutNode::Opaque(_))));
}

#[test]
fn exhausted_depth_bound_is_a_diagnostic() {
    let d = decl("foo", "", vec![override_attr("/abs/x.rs")], Body::External);
    let mut fs = FsModel::new();
    present(&mut fs, "/abs/x.rs", "mod bar;");
    let t = inline_mod(&d, None, &fs, 0);
    assert!(t.queries.is_empty());
    match t.outcome {
        Outcome::Done(Ok(m)) => {
            assert!(matches!(
                &m.items[0],
                OutNode::Diag(Diag { kind: DiagKind::DepthLimit, .. })
            ));
        },
        _ => panic!("walk should still assemble the parent"),
    }
}

#[test]
fn file_level_attributes_carried_into_module() {
    let d = decl("foo", "", vec![override_attr("/abs/x.rs")], Body::External);
    let mut fs = FsModel::new();
    present(&mut fs, "/abs/x.rs", "#![allow(dead_code)] fn a() {}");
    let m = run(&d, None, &fs).expect("parses");
    assert_eq!(m.file_attrs.len(), 1);
    assert_eq!(m.items.len(), 1);
}
