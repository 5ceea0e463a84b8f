//! The diagnostic texts, as verified byte-string builders.
//!
//! Every fixed message the walk's diagnostics carry, and the framing of
//! the read-error message, is stated here as an exact byte sequence, so
//! that what a caller renders is pinned by contract.

use vstd::prelude::*;
use crate::model::DiagKind;
use crate::text::{clone_bytes, push_all};

verus! {

/// The fixed message of the already-inline diagnostic.
/// The bytes spell `This macro only accepts non-inlined modules`.
pub open spec fn already_inline_text() -> Seq<u8> {
    seq![84u8, 104u8, 105u8, 115u8, 32u8, 109u8, 97u8, 99u8, 114u8, 111u8, 32u8, 111u8, 110u8, 108u8, 121u8, 32u8, 97u8, 99u8, 99u8, 101u8, 112u8, 116u8, 115u8, 32u8, 110u8, 111u8, 110u8, 45u8, 105u8, 110u8, 108u8, 105u8, 110u8, 101u8, 100u8, 32u8, 109u8, 111u8, 100u8, 117u8, 108u8, 101u8, 115u8]
}

/// Builds the bytes of [`already_inline_text`].
pub fn make_already_inline_text() -> (v: Vec<u8>)
    ensures
        v@ == already_inline_text(),
{
    let mut v: Vec<u8> = Vec::new();
    v.push(84);
    v.push(104);
    v.push(105);
    v.push(115);
    v.push(32);
    v.push(109);
    v.push(97);
    v.push(99);
    v.push(114);
    v.push(111);
    v.push(32);
    v.push(111);
    v.push(110);
    v.push(108);
    v.push(121);
    v.push(32);
    v.push(97);
    v.push(99);
    v.push(99);
    v.push(101);
    v.push(112);
    v.push(116);
    v.push(115);
    v.push(32);
    v.push(110);
    v.push(111);
    v.push(110);
    v.push(45);
    v.push(105);
    v.push(110);
    v.push(108);
    v.push(105);
    v.push(110);
    v.push(101);
    v.push(100);
    v.push(32);
    v.push(109);
    v.push(111);
    v.push(100);
    v.push(117);
    v.push(108);
    v.push(101);
    v.push(115);
    proof {
        assert(v@ =~= already_inline_text());
    }
    v
}

/// The fixed message of the missing-path diagnostic.
/// The bytes spell `Path attribute is required`.
pub open spec fn missing_path_text() -> Seq<u8> {
    seq![80u8, 97u8, 116u8, 104u8, 32u8, 97u8, 116u8, 116u8, 114u8, 105u8, 98u8, 117u8, 116u8, 101u8, 32u8, 105u8, 115u8, 32u8, 114u8, 101u8, 113u8, 117u8, 105u8, 114u8, 101u8, 100u8]
}

/// Builds the bytes of [`missing_path_text`].
pub fn make_missing_path_text() -> (v: Vec<u8>)
    ensures
        v@ == missing_path_text(),
{
    let mut v: Vec<u8> = Vec::new();
    v.push(80);
    v.push(97);
    v.push(116);
    v.push(104);
    v.push(32);
    v.push(97);
    v.push(116);
    v.push(116);
    v.push(114);
    v.push(105);
    v.push(98);
    v.push(117);
    v.push(116);
    v.push(101);
    v.push(32);
    v.push(105);
    v.push(115);
    v.push(32);
    v.push(114);
    v.push(101);
    v.push(113);
    v.push(117);
    v.push(105);
    v.push(114);
    v.push(101);
    v.push(100);
    proof {
        assert(v@ =~= missing_path_text());
    }
    v
}

/// The fixed message of the fatal missing-build-root condition.
/// The bytes spell `Missing `CARGO_MANIFEST_DIR` variable`.
pub open spec fn missing_root_text() -> Seq<u8> {
    seq![77u8, 105u8, 115u8, 115u8, 105u8, 110u8, 103u8, 32u8, 96u8, 67u8, 65u8, 82u8, 71u8, 79u8, 95u8, 77u8, 65u8, 78u8, 73u8, 70u8, 69u8, 83u8, 84u8, 95u8, 68u8, 73u8, 82u8, 96u8, 32u8, 118u8, 97u8, 114u8, 105u8, 97u8, 98u8, 108u8, 101u8]
}

/// Builds the bytes of [`missing_root_text`].
pub fn make_missing_root_text() -> (v: Vec<u8>)
    ensures
        v@ == missing_root_text(),
{
    let mut v: Vec<u8> = Vec::new();
    v.push(77);
    v.push(105);
    v.push(115);
    v.push(115);
    v.push(105);
    v.push(110);
    v.push(103);
    v.push(32);
    v.push(96);
    v.push(67);
    v.push(65);
    v.push(82);
    v.push(71);
    v.push(79);
    v.push(95);
    v.push(77);
    v.push(65);
    v.push(78);
    v.push(73);
    v.push(70);
    v.push(69);
    v.push(83);
    v.push(84);
    v.push(95);
    v.push(68);
    v.push(73);
    v.push(82);
    v.push(96);
    v.push(32);
    v.push(118);
    v.push(97);
    v.push(114);
    v.push(105);
    v.push(97);
    v.push(98);
    v.push(108);
    v.push(101);
    proof {
        assert(v@ =~= missing_root_text());
    }
    v
}

/// The fixed message of the depth-limit diagnostic.
/// The bytes spell `Module nesting exceeds the supported depth`.
pub open spec fn depth_limit_text() -> Seq<u8> {
    seq![77u8, 111u8, 100u8, 117u8, 108u8, 101u8, 32u8, 110u8, 101u8, 115u8, 116u8, 105u8, 110u8, 103u8, 32u8, 101u8, 120u8, 99u8, 101u8, 101u8, 100u8, 115u8, 32u8, 116u8, 104u8, 101u8, 32u8, 115u8, 117u8, 112u8, 112u8, 111u8, 114u8, 116u8, 101u8, 100u8, 32u8, 100u8, 101u8, 112u8, 116u8, 104u8]
}

/// Builds the bytes of [`depth_limit_text`].
pub fn make_depth_limit_text() -> (v: Vec<u8>)
    ensures
        v@ == depth_limit_text(),
{
    let mut v: Vec<u8> = Vec::new();
    v.push(77);
    v.push(111);
    v.push(100);
    v.push(117);
    v.push(108);
    v.push(101);
    v.push(32);
    v.push(110);
    v.push(101);
    v.push(115);
    v.push(116);
    v.push(105);
    v.push(110);
    v.push(103);
    v.push(32);
    v.push(101);
    v.push(120);
    v.push(99);
    v.push(101);
    v.push(101);
    v.push(100);
    v.push(115);
    v.push(32);
    v.push(116);
    v.push(104);
    v.push(101);
    v.push(32);
    v.push(115);
    v.push(117);
    v.push(112);
    v.push(112);
    v.push(111);
    v.push(114);
    v.push(116);
    v.push(101);
    v.push(100);
    v.push(32);
    v.push(100);
    v.push(101);
    v.push(112);
    v.push(116);
    v.push(104);
    proof {
        assert(v@ =~= depth_limit_text());
    }
    v
}

/// The opening of the read-error message, up to the module identifier.
/// The bytes spell `Error reading module ``.
pub open spec fn read_error_head() -> Seq<u8> {
    seq![69u8, 114u8, 114u8, 111u8, 114u8, 32u8, 114u8, 101u8, 97u8, 100u8, 105u8, 110u8, 103u8, 32u8, 109u8, 111u8, 100u8, 117u8, 108u8, 101u8, 32u8, 96u8]
}

/// Builds the bytes of [`read_error_head`].
pub fn make_read_error_head() -> (v: Vec<u8>)
    ensures
        v@ == read_error_head(),
{
    let mut v: Vec<u8> = Vec::new();
    v.push(69);
    v.push(114);
    v.push(114);
    v.push(111);
    v.push(114);
    v.push(32);
    v.push(114);
    v.push(101);
    v.push(97);
    v.push(100);
    v.push(105);
    v.push(110);
    v.push(103);
    v.push(32);
    v.push(109);
    v.push(111);
    v.push(100);
    v.push(117);
    v.push(108);
    v.push(101);
    v.push(32);
    v.push(96);
    proof {
        assert(v@ =~= read_error_head());
    }
    v
}

/// The middle of the read-error message, between identifier and path.
/// The bytes spell `` (path = `\"`.
pub open spec fn read_error_mid() -> Seq<u8> {
    seq![96u8, 32u8, 40u8, 112u8, 97u8, 116u8, 104u8, 32u8, 61u8, 32u8, 96u8, 34u8]
}

/// Builds the bytes of [`read_error_mid`].
pub fn make_read_error_mid() -> (v: Vec<u8>)
    ensures
        v@ == read_error_mid(),
{
    let mut v: Vec<u8> = Vec::new();
    v.push(96);
    v.push(32);
    v.push(40);
    v.push(112);
    v.push(97);
    v.push(116);
    v.push(104);
    v.push(32);
    v.push(61);
    v.push(32);
    v.push(96);
    v.push(34);
    proof {
        assert(v@ =~= read_error_mid());
    }
    v
}

/// The end of the read-error message frame, before the reported cause.
/// The bytes spell `\"`): `.
pub open spec fn read_error_tail() -> Seq<u8> {
    seq![34u8, 96u8, 41u8, 58u8, 32u8]
}

/// Builds the bytes of [`read_error_tail`].
pub fn make_read_error_tail() -> (v: Vec<u8>)
    ensures
        v@ == read_error_tail(),
{
    let mut v: Vec<u8> = Vec::new();
    v.push(34);
    v.push(96);
    v.push(41);
    v.push(58);
    v.push(32);
    proof {
        assert(v@ =~= read_error_tail());
    }
    v
}

/// The full read-error message: the frame around the module identifier,
/// the attempted path and the reported cause.
pub open spec fn read_error_text(name: Seq<u8>, path: Seq<u8>, cause: Seq<u8>) -> Seq<u8> {
    read_error_head() + name + read_error_mid() + path + read_error_tail() + cause
}

/// The user-visible message of one diagnostic. The parse diagnostic
/// carries the parser's own message; the rest are the fixed texts above.
pub open spec fn spec_message(k: DiagKind) -> Seq<u8> {
    match k {
        DiagKind::AlreadyInline => already_inline_text(),
        DiagKind::MissingPath => missing_path_text(),
        DiagKind::MissingBuildRoot => missing_root_text(),
        DiagKind::FileRead { name, path, cause } => read_error_text(name@, path@, cause@),
        DiagKind::Parse { message } => message@,
        DiagKind::DepthLimit => depth_limit_text(),
    }
}

/// Renders one diagnostic's message as bytes.
pub fn message_bytes(k: &DiagKind) -> (r: Vec<u8>)
    ensures
        r@ == spec_message(*k),
{
    match k {
        DiagKind::AlreadyInline => make_already_inline_text(),
        DiagKind::MissingPath => make_missing_path_text(),
        DiagKind::MissingBuildRoot => make_missing_root_text(),
        DiagKind::FileRead { name, path, cause } => {
            let mut v = make_read_error_head();
            push_all(&mut v, name);
            let mid = make_read_error_mid();
            push_all(&mut v, &mid);
            push_all(&mut v, path);
            let tail = make_read_error_tail();
            push_all(&mut v, &tail);
            push_all(&mut v, cause);
            v
        },
        DiagKind::Parse { message } => clone_bytes(message),
        DiagKind::DepthLimit => make_depth_limit_text(),
    }
}

} // verus!
