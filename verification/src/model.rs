//! The data the transformation works on, as plain values.
//!
//! Identifiers, visibility markers, attribute tokens, file paths and file
//! contents are all held as UTF-8 byte strings, so that every rule of the
//! walk can be stated over `Seq<u8>`.

use vstd::prelude::*;
use crate::text::clone_bytes;

verus! {

/// One attribute of a module declaration: its verbatim token text, and,
/// where the attribute is a path override of the form `path = "..."`,
/// the string value of that override.
#[derive(Debug)]
pub struct Attr {
    /// Verbatim token text of the whole attribute.
    pub tokens: Vec<u8>,
    /// `Some(p)` exactly where the attribute reads `path = "p"`.
    pub path_value: Option<Vec<u8>>,
}

/// Ghost image of an [`Attr`].
pub ghost struct AttrV {
    pub tokens: Seq<u8>,
    pub path_value: Option<Seq<u8>>,
}

/// Ghost image of an `Option` of bytes.
pub open spec fn opt_bytes_view(o: Option<Vec<u8>>) -> Option<Seq<u8>> {
    match o {
        Option::Some(v) => Option::Some(v@),
        Option::None => Option::None,
    }
}

impl View for Attr {
    type V = AttrV;

    open spec fn view(&self) -> AttrV {
        AttrV { tokens: self.tokens@, path_value: opt_bytes_view(self.path_value) }
    }
}

/// Ghost image of a whole attribute list.
pub open spec fn attrs_view(s: Seq<Attr>) -> Seq<AttrV> {
    s.map_values(|a: Attr| a@)
}

/// Body state of a module declaration: external (file-backed, no content in
/// the tree) or inline (content already present).
#[derive(Debug)]
pub enum Body {
    External,
    Inline,
}

/// A module declaration as this crate reads it: identifier, visibility
/// tokens, attributes, and its body state.
#[derive(Debug)]
pub struct ModDecl {
    pub name: Vec<u8>,
    pub vis: Vec<u8>,
    pub attrs: Vec<Attr>,
    pub body: Body,
}

/// Ghost image of a [`ModDecl`].
pub ghost struct ModDeclV {
    pub name: Seq<u8>,
    pub vis: Seq<u8>,
    pub attrs: Seq<AttrV>,
    pub body: Body,
}

impl View for ModDecl {
    type V = ModDeclV;

    open spec fn view(&self) -> ModDeclV {
        ModDeclV {
            name: self.name@,
            vis: self.vis@,
            attrs: attrs_view(self.attrs@),
            body: self.body,
        }
    }
}

/// One top-level item of a parsed file: a nested external module
/// declaration, which the walk expands, or any other construct, carried
/// through verbatim as its token text.
#[derive(Debug)]
pub enum TopItem {
    ExtMod(ModDecl),
    Opaque(Vec<u8>),
}

/// Ghost image of a [`TopItem`].
pub ghost enum TopItemV {
    ExtMod(ModDeclV),
    Opaque(Seq<u8>),
}

impl View for TopItem {
    type V = TopItemV;

    open spec fn view(&self) -> TopItemV {
        match self {
            TopItem::ExtMod(d) => TopItemV::ExtMod(d@),
            TopItem::Opaque(t) => TopItemV::Opaque(t@),
        }
    }
}

/// Ghost image of a list of byte strings.
pub open spec fn bytes_list_view(s: Seq<Vec<u8>>) -> Seq<Seq<u8>> {
    s.map_values(|v: Vec<u8>| v@)
}

/// A parsed source file: its file-level attributes and its items.
#[derive(Debug)]
pub struct ParsedFile {
    pub file_attrs: Vec<Vec<u8>>,
    pub items: Vec<TopItem>,
}

/// Ghost image of a [`ParsedFile`].
pub ghost struct ParsedFileV {
    pub file_attrs: Seq<Seq<u8>>,
    pub items: Seq<TopItemV>,
}

impl View for ParsedFile {
    type V = ParsedFileV;

    open spec fn view(&self) -> ParsedFileV {
        ParsedFileV {
            file_attrs: bytes_list_view(self.file_attrs@),
            items: self.items@.map_values(|i: TopItem| i@),
        }
    }
}

/// Where a diagnostic is attributed.
#[derive(Debug)]
pub enum Site {
    /// The call site of the whole invocation.
    CallSite,
    /// The source of the path in use: the override attribute, or the
    /// declaration the inherited default was made from.
    PathSource,
    /// Inside the loaded file, at the position the parser reported.
    InFile,
    /// The declaration itself.
    Decl,
}

/// What a diagnostic says.
#[derive(Debug)]
pub enum DiagKind {
    /// The declaration already carries a body; only external declarations
    /// are accepted.
    AlreadyInline,
    /// Neither an explicit `path` override nor an inherited default path
    /// was available.
    MissingPath,
    /// A relative path had to be resolved while the build-root value of the
    /// environment was absent; a fatal condition, never turned into an
    /// in-tree diagnostic.
    MissingBuildRoot,
    /// Reading the file failed; carries the module identifier, the
    /// attempted path and the reported cause.
    FileRead { name: Vec<u8>, path: Vec<u8>, cause: Vec<u8> },
    /// The file did not parse; carries the parser's own message.
    Parse { message: Vec<u8> },
    /// The nesting bound handed to the walk was exhausted.
    DepthLimit,
}

/// A diagnostic-emission construct: rendered by the caller as a
/// compile-time error at `site`, without aborting the surrounding walk.
#[derive(Debug)]
pub struct Diag {
    pub kind: DiagKind,
    pub site: Site,
}

/// One node of the rewritten tree.
#[derive(Debug)]
pub enum OutNode {
    /// A fully inlined module.
    Module(OutMod),
    /// An item carried through verbatim.
    Opaque(Vec<u8>),
    /// A diagnostic substituted for a failed node.
    Diag(Diag),
    /// A placeholder for a node whose file-system facts were not yet
    /// supplied; never present once the walk reports no queries.
    Pending,
}

/// An inline module rebuilt by the walk: the original identifier,
/// visibility and attributes, the path of the file it was loaded from (its
/// dependency marker), the file-level attributes, and the rewritten items.
#[derive(Debug)]
pub struct OutMod {
    pub name: Vec<u8>,
    pub vis: Vec<u8>,
    pub attrs: Vec<Attr>,
    /// `Some(p)` where the body was loaded from file `p`, whose raw bytes
    /// the enclosing build must treat as an input; `None` for the
    /// diagnostic-only body of an inline declaration.
    pub dep_file: Option<Vec<u8>>,
    pub file_attrs: Vec<Vec<u8>>,
    pub items: Vec<OutNode>,
}

/// Copies an attribute.
pub fn clone_attr(a: &Attr) -> (r: Attr)
    ensures
        r@ == a@,
{
    let path_value = match &a.path_value {
        Option::Some(v) => Option::Some(clone_bytes(v)),
        Option::None => Option::None,
    };
    Attr { tokens: clone_bytes(&a.tokens), path_value }
}

/// Copies an attribute list.
pub fn clone_attrs(v: &Vec<Attr>) -> (r: Vec<Attr>)
    ensures
        attrs_view(r@) == attrs_view(v@),
{
    let mut r: Vec<Attr> = Vec::new();
    let mut i: usize = 0;
    while i < v.len()
        invariant
            i <= v@.len(),
            r@.len() == i,
            forall|j: int| 0 <= j < i ==> r@[j]@ == v@[j]@,
        decreases v@.len() - i,
    {
        r.push(clone_attr(&v[i]));
        i += 1;
    }
    proof {
        assert(attrs_view(r@) =~= attrs_view(v@));
    }
    r
}

} // verus!
