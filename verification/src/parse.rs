//! The boundary to the source parser.
//!
//! The parser and its tree-node types are a black box: file text goes in,
//! plain data comes out in one trusted step, whose result is pinned to a
//! name ([`parsed_of`]) — a function of the bytes alone. Every decision
//! taken on what comes back — which attribute is a path override, what a
//! declaration's body state means — stands in verified code.

use vstd::prelude::*;
use quote::ToTokens;
use crate::model::{Attr, AttrV, Body, ModDecl, ModDeclV, ParsedFile, ParsedFileV, TopItem,
    TopItemV, attrs_view};
use crate::text::{bytes_eq, clone_bytes};

verus! {

#[verifier::external_type_specification]
#[verifier::external_body]
pub struct ExSynItem(syn::Item);

#[verifier::external_type_specification]
#[verifier::external_body]
pub struct ExSynItemMod(syn::ItemMod);

#[verifier::external_type_specification]
#[verifier::external_body]
pub struct ExSynAttribute(syn::Attribute);

/// One attribute as the parser hands it over: its verbatim token text,
/// and, where its parsed form is a name-value pair of a bare identifier
/// and a string literal, that identifier's text and the literal's value.
pub struct RawAttr {
    pub tokens: Vec<u8>,
    pub name_value: Option<(Vec<u8>, Vec<u8>)>,
}

/// Ghost image of a [`RawAttr`].
pub ghost struct RawAttrV {
    pub tokens: Seq<u8>,
    pub name_value: Option<(Seq<u8>, Seq<u8>)>,
}

impl View for RawAttr {
    type V = RawAttrV;

    open spec fn view(&self) -> RawAttrV {
        RawAttrV {
            tokens: self.tokens@,
            name_value: match self.name_value {
                Option::Some(nv) => Option::Some((nv.0@, nv.1@)),
                Option::None => Option::None,
            },
        }
    }
}

/// Ghost image of a list of raw attributes.
pub open spec fn raw_attrs_view(s: Seq<RawAttr>) -> Seq<RawAttrV> {
    s.map_values(|a: RawAttr| a@)
}

/// One top-level item as the parser hands it over: a module declaration
/// without an inline body, with its parts, or any other construct as its
/// verbatim token text.
pub enum RawItem {
    Mod { name: Vec<u8>, vis: Vec<u8>, attrs: Vec<RawAttr> },
    Other(Vec<u8>),
}

/// Ghost image of a [`RawItem`].
pub ghost enum RawItemV {
    Mod { name: Seq<u8>, vis: Seq<u8>, attrs: Seq<RawAttrV> },
    Other(Seq<u8>),
}

impl View for RawItem {
    type V = RawItemV;

    open spec fn view(&self) -> RawItemV {
        match self {
            RawItem::Mod { name, vis, attrs } => RawItemV::Mod {
                name: name@,
                vis: vis@,
                attrs: raw_attrs_view(attrs@),
            },
            RawItem::Other(t) => RawItemV::Other(t@),
        }
    }
}

/// A parsed file as the parser hands it over: the file-level attributes'
/// token text, and the items.
pub struct RawFile {
    pub file_attrs: Vec<Vec<u8>>,
    pub items: Vec<RawItem>,
}

/// Ghost image of a [`RawFile`].
pub ghost struct RawFileV {
    pub file_attrs: Seq<Seq<u8>>,
    pub items: Seq<RawItemV>,
}

impl View for RawFile {
    type V = RawFileV;

    open spec fn view(&self) -> RawFileV {
        RawFileV {
            file_attrs: crate::model::bytes_list_view(self.file_attrs@),
            items: self.items@.map_values(|i: RawItem| i@),
        }
    }
}

/// A module declaration as the parser hands it over, body state included.
pub struct RawDecl {
    pub name: Vec<u8>,
    pub vis: Vec<u8>,
    pub attrs: Vec<RawAttr>,
    pub external: bool,
}

/// Whether the given file text is accepted by the source parser; a
/// function of the bytes alone (the parser is pinned to its portable
/// lexer, see [`parse_source_raw`]).
pub uninterp spec fn source_parses(content: Seq<u8>) -> bool;

/// What the source parser hands over for accepted file text; a function
/// of the bytes alone.
pub uninterp spec fn parsed_of(content: Seq<u8>) -> RawFileV;

/// The message the source parser reports for file text it does not
/// accept; a function of the bytes alone.
pub uninterp spec fn parse_err_text(content: Seq<u8>) -> Seq<u8>;

/// Relies on `syn::Attribute::parse_meta` (the name-value-string shape,
/// `Path::get_ident`, `LitStr::value`) and on `quote::ToTokens` printing:
/// carries one attribute over as plain data.
#[verifier::external_body]
fn raw_attr(a: &syn::Attribute) -> (r: RawAttr) {
    let name_value = match a.parse_meta() {
        Ok(syn::Meta::NameValue(syn::MetaNameValue { path, lit: syn::Lit::Str(lit), .. })) => path
            .get_ident()
            .map(|id| (id.to_string().into_bytes(), lit.value().into_bytes())),
        _ => None,
    };
    RawAttr { tokens: a.to_token_stream().to_string().into_bytes(), name_value }
}

/// Relies on `syn::Item`'s `Mod` variant, `syn::ItemMod`'s public fields
/// (`ident`, `vis`, `attrs`, `content`) and `quote::ToTokens` printing:
/// carries one top-level item over as plain data.
#[verifier::external_body]
fn raw_item(it: &syn::Item) -> (r: RawItem) {
    match it {
        syn::Item::Mod(m) if m.content.is_none() => RawItem::Mod {
            name: m.ident.to_string().into_bytes(),
            vis: m.vis.to_token_stream().to_string().into_bytes(),
            attrs: m.attrs.iter().map(raw_attr).collect(),
        },
        _ => RawItem::Other(it.to_token_stream().to_string().into_bytes()),
    }
}

/// Relies on `syn::ItemMod`'s public fields and `quote::ToTokens`
/// printing: carries one module declaration over as plain data.
#[verifier::external_body]
fn raw_decl(m: &syn::ItemMod) -> (r: RawDecl) {
    RawDecl {
        name: m.ident.to_string().into_bytes(),
        vis: m.vis.to_token_stream().to_string().into_bytes(),
        attrs: m.attrs.iter().map(raw_attr).collect(),
        external: m.content.is_none(),
    }
}

/// Relies on `syn::parse_file` (fed through `core::str::from_utf8`),
/// converted to plain data through [`raw_item`] and [`raw_attr`]. The
/// lexer is pinned to proc-macro2's portable fallback for the span of the
/// call, so acceptance, the handed-over data and the error message are
/// functions of the bytes alone, in every process. The parser recurses on
/// nesting depth, so pathologically deeply nested input can exhaust the
/// stack; no precondition over the bytes can exclude that here.
#[verifier::external_body]
fn parse_source_raw(content: &Vec<u8>) -> (r: Result<RawFile, Vec<u8>>)
    ensures
        r is Ok <==> source_parses(content@),
        r matches Result::Ok(f) ==> f@ == parsed_of(content@),
        r matches Result::Err(e) ==> e@ == parse_err_text(content@),
{
    proc_macro2::fallback::force();
    let r = match core::str::from_utf8(content.as_slice()) {
        Ok(text) => match syn::parse_file(text) {
            Ok(f) => Ok(RawFile {
                file_attrs: f.attrs.iter().map(|a| raw_attr(a).tokens).collect(),
                items: f.items.iter().map(raw_item).collect(),
            }),
            Err(e) => Err(e.to_string().into_bytes()),
        },
        Err(e) => Err(e.to_string().into_bytes()),
    };
    proc_macro2::fallback::unforce();
    r
}

/// The bytes of the attribute name `path`.
pub open spec fn path_keyword_text() -> Seq<u8> {
    seq![112u8, 97u8, 116u8, 104u8]
}

/// Builds the bytes of the attribute name `path`.
fn path_keyword() -> (v: Vec<u8>)
    ensures
        v@ == path_keyword_text(),
{
    let mut v: Vec<u8> = Vec::new();
    v.push(112);
    v.push(97);
    v.push(116);
    v.push(104);
    proof {
        assert(v@ =~= path_keyword_text());
    }
    v
}

/// One attribute classified: its string value is a path override exactly
/// where its parsed form is `path = "..."`.
pub open spec fn classify_attr(a: RawAttrV) -> AttrV {
    AttrV {
        tokens: a.tokens,
        path_value: match a.name_value {
            Option::Some(nv) => if nv.0 == path_keyword_text() {
                Option::Some(nv.1)
            } else {
                Option::None
            },
            Option::None => Option::None,
        },
    }
}

/// One item classified: a handed-over module declaration becomes an
/// external declaration with classified attributes; everything else is
/// carried verbatim.
pub open spec fn classify_item(i: RawItemV) -> TopItemV {
    match i {
        RawItemV::Mod { name, vis, attrs } => TopItemV::ExtMod(
            ModDeclV {
                name,
                vis,
                attrs: attrs.map_values(|a: RawAttrV| classify_attr(a)),
                body: Body::External,
            },
        ),
        RawItemV::Other(t) => TopItemV::Opaque(t),
    }
}

/// A whole handed-over file classified.
pub open spec fn spec_classify(f: RawFileV) -> ParsedFileV {
    ParsedFileV { file_attrs: f.file_attrs, items: f.items.map_values(|i: RawItemV| classify_item(i)) }
}

/// Classifies one attribute.
fn classify_attr_exec(a: &RawAttr) -> (r: Attr)
    ensures
        r@ == classify_attr(a@),
{
    let path_value = match &a.name_value {
        Option::Some((name, value)) => {
            let kw = path_keyword();
            if bytes_eq(name, &kw) {
                Option::Some(clone_bytes(value))
            } else {
                Option::None
            }
        },
        Option::None => Option::None,
    };
    Attr { tokens: clone_bytes(&a.tokens), path_value }
}

/// Classifies an attribute list.
fn classify_attrs_exec(v: &Vec<RawAttr>) -> (r: Vec<Attr>)
    ensures
        attrs_view(r@) == raw_attrs_view(v@).map_values(|a: RawAttrV| classify_attr(a)),
{
    let mut r: Vec<Attr> = Vec::new();
    let mut i: usize = 0;
    while i < v.len()
        invariant
            i <= v@.len(),
            r@.len() == i,
            forall|j: int| 0 <= j < i ==> r@[j]@ == classify_attr(v@[j]@),
        decreases v@.len() - i,
    {
        r.push(classify_attr_exec(&v[i]));
        i += 1;
    }
    proof {
        assert(attrs_view(r@) =~= raw_attrs_view(v@).map_values(|a: RawAttrV| classify_attr(a)));
    }
    r
}

/// Classifies one item.
fn classify_item_exec(it: &RawItem) -> (r: TopItem)
    ensures
        r@ == classify_item(it@),
{
    match it {
        RawItem::Mod { name, vis, attrs } => TopItem::ExtMod(
            ModDecl {
                name: clone_bytes(name),
                vis: clone_bytes(vis),
                attrs: classify_attrs_exec(attrs),
                body: Body::External,
            },
        ),
        RawItem::Other(t) => TopItem::Opaque(clone_bytes(t)),
    }
}

/// Classifies a whole handed-over file.
fn classify_file(f: &RawFile) -> (r: ParsedFile)
    ensures
        r@ == spec_classify(f@),
{
    let mut file_attrs: Vec<Vec<u8>> = Vec::new();
    let mut i: usize = 0;
    while i < f.file_attrs.len()
        invariant
            i <= f.file_attrs@.len(),
            file_attrs@.len() == i,
            forall|j: int| 0 <= j < i ==> file_attrs@[j]@ == f.file_attrs@[j]@,
        decreases f.file_attrs@.len() - i,
    {
        file_attrs.push(clone_bytes(&f.file_attrs[i]));
        i += 1;
    }
    let mut items: Vec<TopItem> = Vec::new();
    let mut j: usize = 0;
    while j < f.items.len()
        invariant
            j <= f.items@.len(),
            items@.len() == j,
            forall|k: int| 0 <= k < j ==> items@[k]@ == classify_item(f.items@[k]@),
        decreases f.items@.len() - j,
    {
        items.push(classify_item_exec(&f.items[j]));
        j += 1;
    }
    let r = ParsedFile { file_attrs, items };
    proof {
        assert(r@.file_attrs =~= spec_classify(f@).file_attrs);
        assert(r@.items =~= spec_classify(f@).items);
    }
    r
}

/// Reads a module declaration across the boundary, classifying its
/// attributes the same way nested declarations are classified.
pub fn mod_decl_of(m: &syn::ItemMod) -> (r: ModDecl) {
    let raw = raw_decl(m);
    let attrs = classify_attrs_exec(&raw.attrs);
    let body = if raw.external {
        Body::External
    } else {
        Body::Inline
    };
    ModDecl { name: raw.name, vis: raw.vis, attrs, body }
}

/// Parses file text into this crate's [`ParsedFile`]. Succeeds exactly
/// where the parser accepts the text, with the classification of the
/// handed-over data; fails with the parser's own message.
pub fn parse_source(content: &Vec<u8>) -> (r: Result<ParsedFile, Vec<u8>>)
    ensures
        r is Ok <==> source_parses(content@),
        r matches Result::Ok(pf) ==> pf@ == spec_classify(parsed_of(content@)),
        r matches Result::Err(e) ==> e@ == parse_err_text(content@),
{
    match parse_source_raw(content) {
        Result::Ok(f) => Result::Ok(classify_file(&f)),
        Result::Err(e) => Result::Err(e),
    }
}

} // verus!
