use inline_mod::model::Attr;
use inline_mod::resolve::{
    candidate_file, candidate_mod, child_default, is_relative, join_path, resolve_path, root_dir,
};

fn bytes(s: &str) -> Vec<u8> {
    s.as_bytes().to_vec()
}

fn override_attr(p: &str) -> Attr {
    Attr { tokens: bytes(&format!("#[path = \"{}\"]", p)), path_value: Some(bytes(p)) }
}

fn plain_attr(t: &str) -> Attr {
    Attr { tokens: bytes(t), path_value: None }
}

#[test]
fn override_wins_over_default() {
    let attrs = vec![plain_attr("#[cfg(test)]"), override_attr("a/b.rs")];
    let default = bytes("z/other.rs");
    assert_eq!(resolve_path(&attrs, Some(&default)), Some(bytes("a/b.rs")));
    assert_eq!(resolve_path(&attrs, None), Some(bytes("a/b.rs")));
}

#[test]
fn first_override_wins() {
    let attrs = vec![override_attr("first.rs"), override_attr("second.rs")];
    assert_eq!(resolve_path(&attrs, None), Some(bytes("first.rs")));
}

#[test]
fn default_used_without_override() {
    let attrs = vec![plain_attr("#[allow(dead_code)]")];
    let default = bytes("z/other.rs");
    assert_eq!(resolve_path(&attrs, Some(&default)), Some(bytes("z/other.rs")));
}

#[test]
fn no_path_available() {
    let attrs: Vec<Attr> = Vec::new();
    assert_eq!(resolve_path(&attrs, None), None);
}

#[test]
fn root_dir_strips_mod_rs_segment() {
    assert_eq!(root_dir(&bytes("/r/x/mod.rs")), bytes("/r/x"));
}

#[test]
fn root_dir_strips_rs_suffix() {
    assert_eq!(root_dir(&bytes("/r/x.rs")), bytes("/r/x"));
}

#[test]
fn root_dir_keeps_nonstandard_path() {
    assert_eq!(root_dir(&bytes("strange.txt")), bytes("strange.txt"));
}

#[test]
fn relative_paths_detected() {
    assert!(is_relative(&bytes("a/b.rs")));
    assert!(is_relative(&bytes("")));
    assert!(!is_relative(&bytes("/a/b.rs")));
}

#[test]
fn join_inserts_single_separator() {
    assert_eq!(join_path(&bytes("/root"), &bytes("a.rs")), bytes("/root/a.rs"));
    assert_eq!(join_path(&bytes("/root/"), &bytes("a.rs")), bytes("/root/a.rs"));
}

#[test]
fn convention_candidates() {
    assert_eq!(candidate_file(&bytes("/d"), &bytes("x")), bytes("/d/x.rs"));
    assert_eq!(candidate_mod(&bytes("/d"), &bytes("x")), bytes("/d/x/mod.rs"));
    assert_eq!(child_default(&bytes("/d"), &bytes("x"), true), bytes("/d/x.rs"));
    assert_eq!(child_default(&bytes("/d"), &bytes("x"), false), bytes("/d/x/mod.rs"));
}
