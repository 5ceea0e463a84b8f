//! Path resolution: the explicit `path` override, the inherited default,
//! making a relative path absolute against the build root, and the
//! two-candidate directory convention for nested modules.

use vstd::prelude::*;
use crate::model::{Attr, AttrV, attrs_view, opt_bytes_view};
use crate::text::{clone_bytes, has_suffix, push_all, spec_has_suffix, take_prefix};

verus! {

/// The value of the first `path = "..."` override among `attrs`, if any.
pub open spec fn over_of(attrs: Seq<AttrV>) -> Option<Seq<u8>>
    decreases attrs.len(),
{
    if attrs.len() == 0 {
        Option::None
    } else {
        match attrs[0].path_value {
            Option::Some(v) => Option::Some(v),
            Option::None => over_of(attrs.drop_first()),
        }
    }
}

/// The path a declaration resolves to: its explicit override where it
/// carries one, else the inherited default, else nothing.
pub open spec fn resolved_of(attrs: Seq<AttrV>, default_path: Option<Seq<u8>>) -> Option<Seq<u8>> {
    match over_of(attrs) {
        Option::Some(p) => Option::Some(p),
        Option::None => default_path,
    }
}

/// Ghost image of an optional borrowed byte string.
pub open spec fn opt_ref_bytes_view(o: Option<&Vec<u8>>) -> Option<Seq<u8>> {
    match o {
        Option::Some(v) => Option::Some(v@),
        Option::None => Option::None,
    }
}

/// Finds the value of the first `path = "..."` override among `attrs`.
pub fn find_path_override(attrs: &Vec<Attr>) -> (r: Option<Vec<u8>>)
    ensures
        opt_bytes_view(r) == over_of(attrs_view(attrs@)),
{
    let mut i: usize = 0;
    proof {
        assert(attrs_view(attrs@).skip(0) =~= attrs_view(attrs@));
    }
    while i < attrs.len()
        invariant
            i <= attrs@.len(),
            over_of(attrs_view(attrs@)) == over_of(attrs_view(attrs@).skip(i as int)),
        decreases attrs@.len() - i,
    {
        proof {
            assert(attrs_view(attrs@).skip(i as int)[0] == attrs@[i as int]@);
        }
        match &attrs[i].path_value {
            Option::Some(v) => {
                return Option::Some(clone_bytes(v));
            },
            Option::None => {},
        }
        proof {
            assert(attrs_view(attrs@).skip(i as int).drop_first() =~= attrs_view(attrs@).skip(
                i as int + 1,
            ));
        }
        i += 1;
    }
    proof {
        assert(attrs_view(attrs@).skip(i as int).len() == 0);
    }
    Option::None
}

/// Resolves the path of a declaration: the explicit override wins over the
/// inherited default; with neither, resolution fails.
pub fn resolve_path(attrs: &Vec<Attr>, default_path: Option<&Vec<u8>>) -> (r: Option<Vec<u8>>)
    ensures
        opt_bytes_view(r) == resolved_of(attrs_view(attrs@), opt_ref_bytes_view(default_path)),
{
    match find_path_override(attrs) {
        Option::Some(p) => Option::Some(p),
        Option::None => match default_path {
            Option::Some(d) => Option::Some(clone_bytes(d)),
            Option::None => Option::None,
        },
    }
}

/// Whether a path is relative: it does not begin with the separator.
pub open spec fn spec_is_relative(p: Seq<u8>) -> bool {
    !(p.len() > 0 && p[0] == crate::SLASH)
}

/// Checks whether a path is relative.
pub fn is_relative(p: &Vec<u8>) -> (r: bool)
    ensures
        r == spec_is_relative(p@),
{
    if p.len() == 0 {
        true
    } else {
        p[0] != crate::SLASH
    }
}

/// `root` and `rel` joined as one path, with exactly one separator between
/// them.
pub open spec fn spec_joined(root: Seq<u8>, rel: Seq<u8>) -> Seq<u8> {
    if root.len() > 0 && root[root.len() - 1] == crate::SLASH {
        root + rel
    } else {
        root + seq![crate::SLASH] + rel
    }
}

/// Joins a relative path onto a root directory.
pub fn join_path(root: &Vec<u8>, rel: &Vec<u8>) -> (r: Vec<u8>)
    ensures
        r@ == spec_joined(root@, rel@),
{
    let mut r = clone_bytes(root);
    let needs_sep: bool = if r.len() == 0 {
        true
    } else {
        r[r.len() - 1] != crate::SLASH
    };
    if needs_sep {
        r.push(crate::SLASH);
    }
    push_all(&mut r, rel);
    proof {
        assert(r@ =~= spec_joined(root@, rel@));
    }
    r
}

/// The path made absolute: itself where it already is, else joined onto
/// the build root; nothing where a relative path meets an absent root.
pub open spec fn absolutized(p: Seq<u8>, build_root: Option<Seq<u8>>) -> Option<Seq<u8>> {
    if !spec_is_relative(p) {
        Option::Some(p)
    } else {
        match build_root {
            Option::Some(r) => Option::Some(spec_joined(r, p)),
            Option::None => Option::None,
        }
    }
}

/// The suffix `.rs`, as bytes.
pub open spec fn rs_suffix() -> Seq<u8> {
    seq![46u8, 114u8, 115u8]
}

/// The suffix `/mod.rs`, as bytes.
pub open spec fn mod_rs_suffix() -> Seq<u8> {
    seq![47u8, 109u8, 111u8, 100u8, 46u8, 114u8, 115u8]
}

/// Builds the bytes of `.rs`.
pub fn make_rs_suffix() -> (v: Vec<u8>)
    ensures
        v@ == rs_suffix(),
{
    let mut v: Vec<u8> = Vec::new();
    v.push(46);
    v.push(114);
    v.push(115);
    proof {
        assert(v@ =~= rs_suffix());
    }
    v
}

/// Builds the bytes of `/mod.rs`.
pub fn make_mod_rs_suffix() -> (v: Vec<u8>)
    ensures
        v@ == mod_rs_suffix(),
{
    let mut v: Vec<u8> = Vec::new();
    v.push(47);
    v.push(109);
    v.push(111);
    v.push(100);
    v.push(46);
    v.push(114);
    v.push(115);
    proof {
        assert(v@ =~= mod_rs_suffix());
    }
    v
}

/// The directory a resolved file path gives its nested modules: the path
/// with a trailing `/mod.rs` segment stripped, or failing that its `.rs`
/// suffix stripped, or failing both the path itself, unchanged.
pub open spec fn root_dir_of(p: Seq<u8>) -> Seq<u8> {
    if spec_has_suffix(p, mod_rs_suffix()) {
        p.take(p.len() - 7)
    } else if spec_has_suffix(p, rs_suffix()) {
        p.take(p.len() - 3)
    } else {
        p
    }
}

/// Computes the directory for a resolved file's nested modules.
pub fn root_dir(p: &Vec<u8>) -> (r: Vec<u8>)
    ensures
        r@ == root_dir_of(p@),
{
    let modrs = make_mod_rs_suffix();
    if has_suffix(p, &modrs) {
        return take_prefix(p, p.len() - 7);
    }
    let rs = make_rs_suffix();
    if has_suffix(p, &rs) {
        return take_prefix(p, p.len() - 3);
    }
    clone_bytes(p)
}

/// The first convention candidate for child `name` under `root`:
/// `root/name.rs`.
pub open spec fn cand_file(root: Seq<u8>, name: Seq<u8>) -> Seq<u8> {
    spec_joined(root, name + rs_suffix())
}

/// The second convention candidate: `root/name/mod.rs`.
pub open spec fn cand_mod(root: Seq<u8>, name: Seq<u8>) -> Seq<u8> {
    spec_joined(root, name + mod_rs_suffix())
}

/// Builds the first convention candidate, `root/name.rs`.
pub fn candidate_file(root: &Vec<u8>, name: &Vec<u8>) -> (r: Vec<u8>)
    ensures
        r@ == cand_file(root@, name@),
{
    let mut n = clone_bytes(name);
    let suf = make_rs_suffix();
    push_all(&mut n, &suf);
    join_path(root, &n)
}

/// Builds the second convention candidate, `root/name/mod.rs`.
pub fn candidate_mod(root: &Vec<u8>, name: &Vec<u8>) -> (r: Vec<u8>)
    ensures
        r@ == cand_mod(root@, name@),
{
    let mut n = clone_bytes(name);
    let suf = make_mod_rs_suffix();
    push_all(&mut n, &suf);
    join_path(root, &n)
}

/// The default path a nested module inherits: the first candidate where it
/// names a regular file, else the second, tried no further.
pub open spec fn spec_child_default(root: Seq<u8>, name: Seq<u8>, first_is_file: bool) -> Seq<u8> {
    if first_is_file {
        cand_file(root, name)
    } else {
        cand_mod(root, name)
    }
}

/// Picks the default path of a nested module from the two convention
/// candidates.
pub fn child_default(root: &Vec<u8>, name: &Vec<u8>, first_is_file: bool) -> (r: Vec<u8>)
    ensures
        r@ == spec_child_default(root@, name@, first_is_file),
{
    if first_is_file {
        candidate_file(root, name)
    } else {
        candidate_mod(root, name)
    }
}

/// Path-resolution precedence: a declaration that carries an explicit
/// `path` override resolves to that override, whatever inherited default
/// accompanies it.
pub proof fn lemma_override_wins(attrs: Seq<AttrV>, default_path: Option<Seq<u8>>)
    requires
        over_of(attrs) is Some,
    ensures
        resolved_of(attrs, default_path) == over_of(attrs),
{
}

/// Convention fallback: resolution for a child under a root goes to
/// `root/name.rs` exactly where that names a regular file, and otherwise
/// to `root/name/mod.rs`, with nothing tried beyond the second candidate.
pub proof fn lemma_convention_fallback(root: Seq<u8>, name: Seq<u8>)
    ensures
        spec_child_default(root, name, true) == cand_file(root, name),
        spec_child_default(root, name, false) == cand_mod(root, name),
{
}

} // verus!
