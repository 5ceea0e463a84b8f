//! The transformation engine: a depth-first recursive walk that inlines an
//! external module declaration's whole file tree.
//!
//! Each invocation inspects the declaration, resolves its file path, looks
//! the path up in the file-system snapshot, parses the content, rewrites
//! every nested external module declaration by re-entering the walk, and
//! reassembles a single inline module. A hard failure at any node is
//! substituted as an in-tree diagnostic at that node alone, except the
//! fatal absence of the build root, which aborts the whole walk.
//!
//! The contract is stated one level at a time: [`transform_post`] pins an
//! invocation's own resolution, loading and assembly against the named
//! parse result, and ties every rewritten position to a nested invocation
//! satisfying the same contract ([`node_matches_child`]), so the whole
//! tree is constrained by induction over the nesting depth.

use vstd::prelude::*;
use crate::fs_model::FsModel;
use crate::model::{
    Body, Diag, DiagKind, ModDecl, ModDeclV, OutMod, OutNode, Site, TopItem, TopItemV, attrs_view,
    bytes_list_view, clone_attrs,
};
use crate::parse::{parse_err_text, parse_source, parsed_of, source_parses, spec_classify};
use crate::resolve::{
    absolutized, cand_file, candidate_file, child_default, is_relative, join_path,
    opt_ref_bytes_view, resolve_path, resolved_of, root_dir, root_dir_of, spec_child_default,
};
use crate::text::clone_bytes;

verus! {

/// What one invocation of the walk settled on: a finished answer, or the
/// admission that file-system facts are still missing.
#[derive(Debug)]
pub enum Outcome {
    /// The final answer over the given snapshot: the rebuilt module, or
    /// the hard error of this node.
    Done(Result<OutMod, Diag>),
    /// Facts were missing; the reported queries must be answered first.
    Incomplete,
}

/// The result of one invocation: its outcome, and the paths whose facts
/// the snapshot lacked. The outcome is final exactly where no query is
/// reported.
#[derive(Debug)]
pub struct Transformed {
    pub outcome: Outcome,
    pub queries: Vec<Vec<u8>>,
}

/// The result of rewriting one item sequence: the rewritten nodes, the
/// unanswered queries, and whether the fatal absence of the build root
/// surfaced below (in which case the nodes are abandoned).
#[derive(Debug)]
pub struct Rewritten {
    pub nodes: Vec<OutNode>,
    pub queries: Vec<Vec<u8>>,
    pub fatal: bool,
}

/// The rebuilt module carries the declaration's identifier, visibility
/// and attributes verbatim.
pub open spec fn preserves_decl(m: OutMod, d: ModDeclV) -> bool {
    &&& m.name@ == d.name
    &&& m.vis@ == d.vis
    &&& attrs_view(m.attrs@) == d.attrs
}

/// Everything one invocation of the walk promises, given the declaration,
/// the inherited default path, the build root, the snapshot and the
/// nesting bound.
pub open spec fn transform_post(
    t: Transformed,
    decl: ModDeclV,
    default_path: Option<Seq<u8>>,
    build_root: Option<Seq<u8>>,
    fs: FsModel,
    fuel: u64,
) -> bool
    decreases fuel, 2int,
{
    &&& (t.outcome is Done <==> t.queries@.len() == 0)
    &&& (forall|i: int|
        0 <= i < t.queries@.len() ==> fs.spec_facts((#[trigger] t.queries@[i])@) is None)
    &&& (t.outcome matches Outcome::Done(Result::Ok(m)) ==> preserves_decl(m, decl))
    &&& (build_root is Some ==> !(t.outcome matches Outcome::Done(Result::Err(dg))
        && dg.kind is MissingBuildRoot))
    &&& (decl.body is Inline ==> t.queries@.len() == 0 && (t.outcome matches Outcome::Done(
        Result::Ok(m),
    ) && m.dep_file is None && m.file_attrs@.len() == 0 && m.items@.len() == 1 && (
    m.items@[0] matches OutNode::Diag(dg) && dg.kind is AlreadyInline && dg.site is Decl)))
    &&& (decl.body is External ==> match resolved_of(decl.attrs, default_path) {
        Option::None => t.queries@.len() == 0 && (t.outcome matches Outcome::Done(Result::Err(dg))
            && dg.kind is MissingPath && dg.site is CallSite),
        Option::Some(p) => match absolutized(p, build_root) {
            Option::None => t.queries@.len() == 0 && (t.outcome matches Outcome::Done(
                Result::Err(dg),
            ) && dg.kind is MissingBuildRoot && dg.site is CallSite),
            Option::Some(a) => match fs.spec_facts(a) {
                Option::None => t.outcome is Incomplete && t.queries@.len() == 1 && t.queries@[0]@
                    == a,
                Option::Some(facts) => match facts.read {
                    Result::Err(cause) => t.queries@.len() == 0 && (t.outcome
                        matches Outcome::Done(Result::Err(dg)) && dg.site is PathSource && (
                    dg.kind matches DiagKind::FileRead { name, path, cause: c } && name@ == decl.name
                        && path@ == a && c@ == cause)),
                    Result::Ok(content) => if !source_parses(content) {
                        t.queries@.len() == 0 && (t.outcome matches Outcome::Done(Result::Err(dg))
                            && dg.site is InFile && (dg.kind matches DiagKind::Parse { message }
                            && message@ == parse_err_text(content)))
                    } else {
                        &&& (t.outcome matches Outcome::Done(Result::Err(dg))
                            ==> dg.kind is MissingBuildRoot)
                        &&& (t.outcome matches Outcome::Done(Result::Ok(m)) ==> ({
                            let cf = spec_classify(parsed_of(content));
                            &&& (m.dep_file matches Option::Some(dp) && dp@ == a)
                            &&& bytes_list_view(m.file_attrs@) == cf.file_attrs
                            &&& m.items@.len() == cf.items.len()
                            &&& (forall|k: int|
                                0 <= k < cf.items.len() ==> position_post(
                                    #[trigger] m.items@[k],
                                    cf.items[k],
                                    root_dir_of(a),
                                    build_root,
                                    fs,
                                    fuel,
                                ))
                        }))
                    },
                },
            },
        },
    })
}

/// What stands at one rewritten position, once the walk is complete: an
/// item carried verbatim, or — for a nested external declaration — the
/// depth-limit diagnostic where the bound ran out, and otherwise the
/// result of a nested invocation whose default path is the convention
/// candidate picked by the first candidate's file-system fact.
pub open spec fn position_post(
    node: OutNode,
    it: TopItemV,
    root: Seq<u8>,
    build_root: Option<Seq<u8>>,
    fs: FsModel,
    fuel: u64,
) -> bool
    decreases fuel, 1int,
{
    match it {
        TopItemV::Opaque(t) => node matches OutNode::Opaque(u) && u@ == t,
        TopItemV::ExtMod(d) => if fuel == 0 {
            node matches OutNode::Diag(dg) && dg.kind is DepthLimit && dg.site is Decl
        } else {
            match fs.spec_facts(cand_file(root, d.name)) {
                Option::Some(f1) => node_matches_child(
                    node,
                    d,
                    spec_child_default(root, d.name, f1.is_file),
                    build_root,
                    fs,
                    (fuel - 1) as u64,
                ),
                Option::None => false,
            }
        },
    }
}

/// A complete invocation result `t`, rendered as the given node: its
/// rebuilt module on success, its diagnostic on a hard error.
pub open spec fn renders_outcome(t: Transformed, node: OutNode) -> bool {
    &&& t.queries@.len() == 0
    &&& match t.outcome {
        Outcome::Done(r) => match r {
            Result::Ok(m) => node == OutNode::Module(m),
            Result::Err(dg) => node == OutNode::Diag(dg),
        },
        Outcome::Incomplete => false,
    }
}

/// The node is the rendered outcome of a complete nested invocation of
/// the walk on declaration `d` with the given default path.
pub open spec fn node_matches_child(
    node: OutNode,
    d: ModDeclV,
    default_path: Seq<u8>,
    build_root: Option<Seq<u8>>,
    fs: FsModel,
    fuel: u64,
) -> bool
    decreases fuel, 3int,
{
    exists|t: Transformed|
        #[trigger] renders_outcome(t, node) && transform_post(
            t,
            d,
            Option::Some(default_path),
            build_root,
            fs,
            fuel,
        )
}

/// Everything one rewriting pass promises of the items it was given.
pub open spec fn rewrite_post(
    r: Rewritten,
    items: Seq<TopItem>,
    root: Seq<u8>,
    build_root: Option<Seq<u8>>,
    fs: FsModel,
    fuel: u64,
) -> bool {
    &&& (build_root is Some ==> !r.fatal)
    &&& (forall|i: int|
        0 <= i < r.queries@.len() ==> fs.spec_facts((#[trigger] r.queries@[i])@) is None)
    &&& (!r.fatal ==> r.nodes@.len() == items.len())
    &&& (!r.fatal ==> forall|j: int|
        0 <= j < items.len() ==> ((#[trigger] items[j]) matches TopItem::Opaque(t) ==> (
        r.nodes@[j] matches OutNode::Opaque(u) && u@ == t@)))
    &&& ((forall|j: int| 0 <= j < items.len() ==> !((#[trigger] items[j]) is ExtMod)) ==> !r.fatal
        && r.queries@.len() == 0)
    &&& ((!r.fatal && r.queries@.len() == 0) ==> forall|j: int|
        0 <= j < items.len() ==> position_post(
            #[trigger] r.nodes@[j],
            items[j]@,
            root,
            build_root,
            fs,
            fuel,
        ))
}

/// A finished hard-error answer, with no queries.
fn done_err(kind: DiagKind, site: Site) -> (t: Transformed)
    ensures
        t.queries@.len() == 0,
        t.outcome matches Outcome::Done(Result::Err(d)) && d.kind == kind && d.site == site,
{
    Transformed { outcome: Outcome::Done(Result::Err(Diag { kind, site })), queries: Vec::new() }
}

/// Inlines one module declaration: the whole pipeline of inspection,
/// resolution, loading, parsing, recursive rewriting and reassembly,
/// against the file-system snapshot `fs`. `fuel` bounds the nesting depth
/// of the walk.
pub fn inline_mod_impl(
    decl: &ModDecl,
    default_path: Option<&Vec<u8>>,
    build_root: Option<&Vec<u8>>,
    fs: &FsModel,
    fuel: u64,
) -> (t: Transformed)
    ensures
        transform_post(
            t,
            decl@,
            opt_ref_bytes_view(default_path),
            opt_ref_bytes_view(build_root),
            *fs,
            fuel,
        ),
    decreases fuel, 1int,
{
    match decl.body {
        Body::Inline => {
            let mut items: Vec<OutNode> = Vec::new();
            items.push(OutNode::Diag(Diag { kind: DiagKind::AlreadyInline, site: Site::Decl }));
            return Transformed {
                outcome: Outcome::Done(
                    Result::Ok(
                        OutMod {
                            name: clone_bytes(&decl.name),
                            vis: clone_bytes(&decl.vis),
                            attrs: clone_attrs(&decl.attrs),
                            dep_file: Option::None,
                            file_attrs: Vec::new(),
                            items,
                        },
                    ),
                ),
                queries: Vec::new(),
            };
        },
        Body::External => {},
    }
    let path0: Vec<u8> = match resolve_path(&decl.attrs, default_path) {
        Option::Some(p) => p,
        Option::None => {
            return done_err(DiagKind::MissingPath, Site::CallSite);
        },
    };
    let abs: Vec<u8> = if is_relative(&path0) {
        match build_root {
            Option::Some(r) => join_path(r, &path0),
            Option::None => {
                return done_err(DiagKind::MissingBuildRoot, Site::CallSite);
            },
        }
    } else {
        path0
    };
    let ix = match fs.lookup_index(&abs) {
        Option::Some(ix) => ix,
        Option::None => {
            let mut queries: Vec<Vec<u8>> = Vec::new();
            queries.push(abs);
            return Transformed { outcome: Outcome::Incomplete, queries };
        },
    };
    let content: &Vec<u8> = match &fs.entries[ix].1.read {
        Result::Ok(c) => c,
        Result::Err(cause) => {
            return done_err(
                DiagKind::FileRead {
                    name: clone_bytes(&decl.name),
                    path: abs,
                    cause: clone_bytes(cause),
                },
                Site::PathSource,
            );
        },
    };
    let parsed = match parse_source(content) {
        Result::Ok(pf) => pf,
        Result::Err(message) => {
            return done_err(DiagKind::Parse { message }, Site::InFile);
        },
    };
    let root = root_dir(&abs);
    let rw = rewrite_items(&parsed.items, &root, build_root, fs, fuel);
    if rw.fatal {
        return done_err(DiagKind::MissingBuildRoot, Site::CallSite);
    }
    if rw.queries.len() == 0 {
        let m = OutMod {
            name: clone_bytes(&decl.name),
            vis: clone_bytes(&decl.vis),
            attrs: clone_attrs(&decl.attrs),
            dep_file: Option::Some(abs),
            file_attrs: parsed.file_attrs,
            items: rw.nodes,
        };
        proof {
            let cf = spec_classify(parsed_of(content@));
            assert(bytes_list_view(m.file_attrs@) =~= cf.file_attrs);
            assert forall|k: int| 0 <= k < cf.items.len() implies position_post(
                #[trigger] m.items@[k],
                cf.items[k],
                root_dir_of(abs@),
                opt_ref_bytes_view(build_root),
                *fs,
                fuel,
            ) by {
                assert(position_post(
                    m.items@[k],
                    parsed.items@[k]@,
                    root@,
                    opt_ref_bytes_view(build_root),
                    *fs,
                    fuel,
                ));
                assert(parsed.items@[k]@ == cf.items[k]);
            }
        }
        Transformed { outcome: Outcome::Done(Result::Ok(m)), queries: rw.queries }
    } else {
        Transformed { outcome: Outcome::Incomplete, queries: rw.queries }
    }
}

/// Rewrites one parsed item sequence: every nested external module
/// declaration is replaced by the full recursive transformation of that
/// declaration under a freshly computed default path, every other item is
/// carried through verbatim, and each recursive failure is substituted as
/// a diagnostic at its own position alone.
pub fn rewrite_items(
    items: &Vec<TopItem>,
    root: &Vec<u8>,
    build_root: Option<&Vec<u8>>,
    fs: &FsModel,
    fuel: u64,
) -> (r: Rewritten)
    ensures
        rewrite_post(r, items@, root@, opt_ref_bytes_view(build_root), *fs, fuel),
    decreases fuel, 0int,
{
    let mut nodes: Vec<OutNode> = Vec::new();
    let mut queries: Vec<Vec<u8>> = Vec::new();
    let mut i: usize = 0;
    while i < items.len()
        invariant
            i <= items@.len(),
            nodes@.len() == i,
            forall|j: int|
                0 <= j < i ==> ((#[trigger] items@[j]) matches TopItem::Opaque(t) ==> (
                nodes@[j] matches OutNode::Opaque(u) && u@ == t@)),
            (forall|j: int| 0 <= j < i ==> !((#[trigger] items@[j]) is ExtMod))
                ==> queries@.len() == 0,
            forall|k: int|
                0 <= k < queries@.len() ==> fs.spec_facts((#[trigger] queries@[k])@) is None,
            queries@.len() == 0 ==> forall|j: int|
                0 <= j < i ==> position_post(
                    #[trigger] nodes@[j],
                    items@[j]@,
                    root@,
                    opt_ref_bytes_view(build_root),
                    *fs,
                    fuel,
                ),
        decreases items@.len() - i,
    {
        match &items[i] {
            TopItem::Opaque(t) => {
                nodes.push(OutNode::Opaque(clone_bytes(t)));
            },
            TopItem::ExtMod(d) => {
                if fuel == 0 {
                    nodes.push(
                        OutNode::Diag(Diag { kind: DiagKind::DepthLimit, site: Site::Decl }),
                    );
                } else {
                    let c1 = candidate_file(root, &d.name);
                    match fs.lookup_index(&c1) {
                        Option::None => {
                            queries.push(c1);
                            nodes.push(OutNode::Pending);
                        },
                        Option::Some(ix) => {
                            let first_is_file = fs.entries[ix].1.is_file;
                            let def = child_default(root, &d.name, first_is_file);
                            let sub = inline_mod_impl(
                                d,
                                Option::Some(&def),
                                build_root,
                                fs,
                                fuel - 1,
                            );
                            let ghost sub_g = sub;
                            let Transformed { outcome, queries: mut sub_queries } = sub;
                            match outcome {
                                Outcome::Done(Result::Ok(m)) => {
                                    proof {
                                        assert(sub_g.outcome matches Outcome::Done(Result::Ok(m2))
                                            && m2 == m);
                                        assert(sub_g.queries@.len() == 0);
                                    }
                                    nodes.push(OutNode::Module(m));
                                    proof {
                                        assert(renders_outcome(sub_g, nodes@[i as int]));
                                        assert(transform_post(
                                            sub_g,
                                            d@,
                                            Option::Some(def@),
                                            opt_ref_bytes_view(build_root),
                                            *fs,
                                            (fuel - 1) as u64,
                                        ));
                                        assert(node_matches_child(
                                            nodes@[i as int],
                                            d@,
                                            def@,
                                            opt_ref_bytes_view(build_root),
                                            *fs,
                                            (fuel - 1) as u64,
                                        ));
                                    }
                                },
                                Outcome::Done(Result::Err(dg)) => {
                                    if matches!(dg.kind, DiagKind::MissingBuildRoot) {
                                        return Rewritten { nodes, queries, fatal: true };
                                    }
                                    proof {
                                        assert(sub_g.queries@.len() == 0);
                                    }
                                    nodes.push(OutNode::Diag(dg));
                                    proof {
                                        assert(renders_outcome(sub_g, nodes@[i as int]));
                                        assert(transform_post(
                                            sub_g,
                                            d@,
                                            Option::Some(def@),
                                            opt_ref_bytes_view(build_root),
                                            *fs,
                                            (fuel - 1) as u64,
                                        ));
                                        assert(node_matches_child(
                                            nodes@[i as int],
                                            d@,
                                            def@,
                                            opt_ref_bytes_view(build_root),
                                            *fs,
                                            (fuel - 1) as u64,
                                        ));
                                    }
                                },
                                Outcome::Incomplete => {
                                    proof {
                                        assert(sub_g.queries@.len() > 0);
                                    }
                                    nodes.push(OutNode::Pending);
                                },
                            }
                            queries.append(&mut sub_queries);
                        },
                    }
                }
            },
        }
        i += 1;
    }
    Rewritten { nodes, queries, fatal: false }
}

/// Inlines one module declaration with no inherited default path: the
/// entry the whole walk starts from.
pub fn inline_mod(decl: &ModDecl, build_root: Option<&Vec<u8>>, fs: &FsModel, fuel: u64) -> (t:
    Transformed)
    ensures
        transform_post(t, decl@, Option::None, opt_ref_bytes_view(build_root), *fs, fuel),
{
    inline_mod_impl(decl, Option::None, build_root, fs, fuel)
}

} // verus!
