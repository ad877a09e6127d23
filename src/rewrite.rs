//! Hygiene rewriting of type paths.
//!
//! A path whose first segment is `crate` names an item of the crate that
//! declares the enum. Inside a `macro_rules!` macro exported from that crate,
//! such a path must start with `$crate` instead, so that it resolves the same
//! way wherever the macro is invoked. The rewrite reaches every nested type:
//! generic arguments, tuple, slice and array elements, pointees, and the
//! inputs and output of `Fn(..) -> ..` arguments.

use crate::syntax::{
    GenericArg, GenericArgV, PathArgs, PathArgsV, PathV, QSelf, QSelfV, Segment, SegmentV, TypeNode,
    TypePath, TypeV, types_view,
};
use crate::text::text_eq;
use vstd::prelude::*;

verus! {

/// The path is rooted at the defining crate: `crate::...` with at least one
/// segment after `crate`.
pub open spec fn is_local_rooted(p: PathV) -> bool {
    p.segments.len() >= 2 && p.segments[0].ident == "crate"@
}

/// The segment that takes the place of `crate` in a rewritten path.
pub open spec fn hygiene_root() -> SegmentV {
    SegmentV { ident: "$crate"@, args: PathArgsV::Bare }
}

pub open spec fn rewrite_path(p: PathV) -> PathV
    decreases p,
{
    PathV {
        leading_colon: p.leading_colon && !is_local_rooted(p),
        segments: Seq::new(
            p.segments.len(),
            |i: int|
                if 0 <= i < p.segments.len() {
                    if i == 0 && is_local_rooted(p) {
                        hygiene_root()
                    } else {
                        rewrite_segment(p.segments[i])
                    }
                } else {
                    hygiene_root()
                },
        ),
    }
}

pub open spec fn rewrite_segment(s: SegmentV) -> SegmentV
    decreases s,
{
    SegmentV { ident: s.ident, args: rewrite_args(s.args) }
}

pub open spec fn rewrite_args(a: PathArgsV) -> PathArgsV
    decreases a,
{
    match a {
        PathArgsV::Bare => PathArgsV::Bare,
        PathArgsV::Angle(v) => PathArgsV::Angle(
            Seq::new(
                v.len(),
                |i: int|
                    if 0 <= i < v.len() {
                        rewrite_arg(v[i])
                    } else {
                        GenericArgV::Verbatim(Seq::empty())
                    },
            ),
        ),
        PathArgsV::Paren { inputs, output } => PathArgsV::Paren {
            inputs: rewrite_types(inputs),
            output: match output {
                Some(o) => Some(Box::new(rewrite_type(*o))),
                None => None,
            },
        },
    }
}

/// Type arguments and associated-type bindings are rewritten: lifetimes and
/// constants pass unchanged.
pub open spec fn rewrite_arg(a: GenericArgV) -> GenericArgV
    decreases a,
{
    match a {
        GenericArgV::Type(t) => GenericArgV::Type(rewrite_type(t)),
        GenericArgV::AssocType { name, ty } => GenericArgV::AssocType { name, ty: rewrite_type(ty) },
        _ => a,
    }
}

pub open spec fn rewrite_types(v: Seq<TypeV>) -> Seq<TypeV>
    decreases v,
{
    Seq::new(
        v.len(),
        |i: int|
            if 0 <= i < v.len() {
                rewrite_type(v[i])
            } else {
                TypeV::Verbatim(Seq::empty())
            },
    )
}

pub open spec fn rewrite_type(t: TypeV) -> TypeV
    decreases t,
{
    match t {
        TypeV::Path { qself, path } => TypeV::Path {
            qself: match qself {
                Some(q) => Some(QSelfV { ty: Box::new(rewrite_type(*q.ty)), position: q.position }),
                None => None,
            },
            path: rewrite_path(path),
        },
        TypeV::Reference { lifetime, mutable, elem } => TypeV::Reference {
            lifetime,
            mutable,
            elem: Box::new(rewrite_type(*elem)),
        },
        TypeV::Tuple(v) => TypeV::Tuple(rewrite_types(v)),
        TypeV::Slice(e) => TypeV::Slice(Box::new(rewrite_type(*e))),
        TypeV::Array { elem, len } => TypeV::Array { elem: Box::new(rewrite_type(*elem)), len },
        TypeV::Ptr { mutable, elem } => TypeV::Ptr { mutable, elem: Box::new(rewrite_type(*elem)) },
        TypeV::BareFn { inputs, output } => TypeV::BareFn {
            inputs: rewrite_types(inputs),
            output: match output {
                Some(o) => Some(Box::new(rewrite_type(*o))),
                None => None,
            },
        },
        TypeV::Paren(e) => TypeV::Paren(Box::new(rewrite_type(*e))),
        TypeV::Verbatim(s) => t,
    }
}

/// Rewrites `p` for use inside the generated macro: a leading `crate`
/// becomes `$crate`, and so does every `crate` root nested in its arguments.
pub fn transform_path_for_macro(p: &TypePath) -> (r: TypePath)
    ensures
        r@ == rewrite_path(p@),
    decreases p,
{
    let n = p.segments.len();
    let local = n >= 2 && text_eq(p.segments[0].ident.as_str(), "crate");
    let mut segs: Vec<Segment> = Vec::new();
    let mut i: usize = 0;
    while i < n
        invariant
            n == p.segments@.len(),
            n == p@.segments.len(),
            local == is_local_rooted(p@),
            i <= n,
            segs@.len() == i,
            forall|j: int| 0 <= j < i ==> segs@[j]@ == rewrite_path(p@).segments[j],
        decreases n - i,
    {
        let seg = if i == 0 && local {
            Segment { ident: String::from_str("$crate"), args: PathArgs::Bare }
        } else {
            Segment {
                ident: p.segments[i].ident.clone(),
                args: transform_path_arguments(&p.segments[i].args),
            }
        };
        segs.push(seg);
        i = i + 1;
    }
    let r = TypePath { leading_colon: p.leading_colon && !local, segments: segs };
    assert(r@.segments =~= rewrite_path(p@).segments);
    r
}

/// Rewrites the arguments of one path segment.
pub fn transform_path_arguments(a: &PathArgs) -> (r: PathArgs)
    ensures
        r@ == rewrite_args(a@),
    decreases a,
{
    match a {
        PathArgs::Bare => PathArgs::Bare,
        PathArgs::Angle(v) => {
            let mut out: Vec<GenericArg> = Vec::new();
            let mut i: usize = 0;
            while i < v.len()
                invariant
                    *a == PathArgs::Angle(*v),
                    i <= v@.len(),
                    out@.len() == i,
                    forall|j: int| 0 <= j < i ==> out@[j]@ == rewrite_arg(v@[j]@),
                decreases v@.len() - i,
            {
                let ai = &v[i];
                let arg = match ai {
                    GenericArg::Type(t) => {
                        proof {
                            assert(decreases_to!(*a => a->Angle_0));
                            assert(decreases_to!(a->Angle_0 => a->Angle_0@));
                            assert(decreases_to!(a->Angle_0@ => a->Angle_0@[i as int]));
                        }
                        GenericArg::Type(transform_type(t))
                    },
                    GenericArg::Lifetime(l) => GenericArg::Lifetime(l.clone()),
                    GenericArg::Const(c) => GenericArg::Const(c.clone()),
                    GenericArg::AssocType { name, ty } => {
                        proof {
                            assert(decreases_to!(*a => a->Angle_0));
                            assert(decreases_to!(a->Angle_0 => a->Angle_0@));
                            assert(decreases_to!(a->Angle_0@ => a->Angle_0@[i as int]));
                        }
                        GenericArg::AssocType { name: name.clone(), ty: transform_type(ty) }
                    },
                    GenericArg::Verbatim(s) => GenericArg::Verbatim(s.clone()),
                };
                out.push(arg);
                i = i + 1;
            }
            let r = PathArgs::Angle(out);
            assert(r@->Angle_0 =~= rewrite_args(a@)->Angle_0);
            r
        },
        PathArgs::Paren { inputs, output } => {
            let ins = transform_types(inputs);
            let out = match output {
                Some(o) => Some(Box::new(transform_type(o))),
                None => None,
            };
            PathArgs::Paren { inputs: ins, output: out }
        },
    }
}

fn transform_types(v: &Vec<TypeNode>) -> (r: Vec<TypeNode>)
    ensures
        types_view(r@) == rewrite_types(types_view(v@)),
    decreases v,
{
    let mut out: Vec<TypeNode> = Vec::new();
    let mut i: usize = 0;
    while i < v.len()
        invariant
            i <= v@.len(),
            out@.len() == i,
            forall|j: int| 0 <= j < i ==> out@[j]@ == rewrite_type(v@[j]@),
        decreases v@.len() - i,
    {
        out.push(transform_type(&v[i]));
        i = i + 1;
    }
    assert(types_view(out@) =~= rewrite_types(types_view(v@)));
    out
}

/// Rewrites a type, reaching every path nested in it.
pub fn transform_type(t: &TypeNode) -> (r: TypeNode)
    ensures
        r@ == rewrite_type(t@),
    decreases t,
{
    match t {
        TypeNode::Path { qself, path } => {
            let q = match qself {
                Some(q) => Some(QSelf { ty: Box::new(transform_type(&q.ty)), position: q.position }),
                None => None,
            };
            TypeNode::Path { qself: q, path: transform_path_for_macro(path) }
        },
        TypeNode::Reference { lifetime, mutable, elem } => TypeNode::Reference {
            lifetime: lifetime.clone(),
            mutable: *mutable,
            elem: Box::new(transform_type(elem)),
        },
        TypeNode::Tuple(v) => TypeNode::Tuple(transform_types(v)),
        TypeNode::Slice(e) => TypeNode::Slice(Box::new(transform_type(e))),
        TypeNode::Array { elem, len } => TypeNode::Array {
            elem: Box::new(transform_type(elem)),
            len: len.clone(),
        },
        TypeNode::Ptr { mutable, elem } => TypeNode::Ptr {
            mutable: *mutable,
            elem: Box::new(transform_type(elem)),
        },
        TypeNode::BareFn { inputs, output } => {
            let ins = transform_types(inputs);
            let out = match output {
                Some(o) => Some(Box::new(transform_type(o))),
                None => None,
            };
            TypeNode::BareFn { inputs: ins, output: out }
        },
        TypeNode::Paren(e) => TypeNode::Paren(Box::new(transform_type(e))),
        TypeNode::Verbatim(s) => TypeNode::Verbatim(s.clone()),
    }
}

/// No path anywhere in the type is rooted at the defining crate.
pub open spec fn type_is_external(t: TypeV) -> bool
    decreases t,
{
    match t {
        TypeV::Path { qself, path } => {
            &&& match qself {
                Some(q) => type_is_external(*q.ty),
                None => true,
            }
            &&& path_is_external(path)
        },
        TypeV::Reference { elem, .. } => type_is_external(*elem),
        TypeV::Tuple(v) => types_are_external(v),
        TypeV::Slice(e) => type_is_external(*e),
        TypeV::Array { elem, .. } => type_is_external(*elem),
        TypeV::Ptr { elem, .. } => type_is_external(*elem),
        TypeV::BareFn { inputs, output } => {
            &&& types_are_external(inputs)
            &&& match output {
                Some(o) => type_is_external(*o),
                None => true,
            }
        },
        TypeV::Paren(e) => type_is_external(*e),
        TypeV::Verbatim(_) => true,
    }
}

pub open spec fn types_are_external(v: Seq<TypeV>) -> bool
    decreases v,
{
    forall|i: int| 0 <= i < v.len() ==> type_is_external(#[trigger] v[i])
}

/// Neither the path itself nor any type in its arguments is rooted at the
/// defining crate.
pub open spec fn path_is_external(p: PathV) -> bool
    decreases p,
{
    &&& !is_local_rooted(p)
    &&& forall|i: int| 0 <= i < p.segments.len() ==> args_are_external(#[trigger] p.segments[i].args)
}

pub open spec fn args_are_external(a: PathArgsV) -> bool
    decreases a,
{
    match a {
        PathArgsV::Bare => true,
        PathArgsV::Angle(v) => forall|i: int| 0 <= i < v.len() ==> arg_is_external(#[trigger] v[i]),
        PathArgsV::Paren { inputs, output } => {
            &&& types_are_external(inputs)
            &&& match output {
                Some(o) => type_is_external(*o),
                None => true,
            }
        },
    }
}

pub open spec fn arg_is_external(a: GenericArgV) -> bool
    decreases a,
{
    match a {
        GenericArgV::Type(t) => type_is_external(t),
        GenericArgV::AssocType { ty, .. } => type_is_external(ty),
        _ => true,
    }
}

/// Rewriting leaves a path with no crate-local root, at any depth, exactly
/// as it was.
pub proof fn lemma_rewrite_keeps_external_path(p: PathV)
    requires
        path_is_external(p),
    ensures
        rewrite_path(p) == p,
    decreases p,
{
    assert forall|i: int| 0 <= i < p.segments.len() implies rewrite_segment(p.segments[i]) == p.segments[i] by {
        lemma_rewrite_keeps_external_args(p.segments[i].args);
    }
    assert(rewrite_path(p).segments =~= p.segments);
}

/// Rewriting leaves a type with no crate-local path in it exactly as it was.
pub proof fn lemma_rewrite_keeps_external_type(t: TypeV)
    requires
        type_is_external(t),
    ensures
        rewrite_type(t) == t,
    decreases t,
{
    match t {
        TypeV::Path { qself, path } => {
            if let Some(q) = qself {
                lemma_rewrite_keeps_external_type(*q.ty);
            }
            lemma_rewrite_keeps_external_path(path);
        },
        TypeV::Reference { elem, .. } => lemma_rewrite_keeps_external_type(*elem),
        TypeV::Tuple(v) => lemma_rewrite_keeps_external_types(v),
        TypeV::Slice(e) => lemma_rewrite_keeps_external_type(*e),
        TypeV::Array { elem, .. } => lemma_rewrite_keeps_external_type(*elem),
        TypeV::Ptr { elem, .. } => lemma_rewrite_keeps_external_type(*elem),
        TypeV::BareFn { inputs, output } => {
            lemma_rewrite_keeps_external_types(inputs);
            if let Some(o) = output {
                lemma_rewrite_keeps_external_type(*o);
            }
        },
        TypeV::Paren(e) => lemma_rewrite_keeps_external_type(*e),
        TypeV::Verbatim(_) => {},
    }
}

proof fn lemma_rewrite_keeps_external_types(v: Seq<TypeV>)
    requires
        types_are_external(v),
    ensures
        rewrite_types(v) == v,
    decreases v,
{
    assert forall|i: int| 0 <= i < v.len() implies rewrite_type(v[i]) == v[i] by {
        lemma_rewrite_keeps_external_type(v[i]);
    }
    assert(rewrite_types(v) =~= v);
}

proof fn lemma_rewrite_keeps_external_args(a: PathArgsV)
    requires
        args_are_external(a),
    ensures
        rewrite_args(a) == a,
    decreases a,
{
    match a {
        PathArgsV::Bare => {},
        PathArgsV::Angle(v) => {
            assert forall|i: int| 0 <= i < v.len() implies rewrite_arg(v[i]) == v[i] by {
                match v[i] {
                    GenericArgV::Type(t) => lemma_rewrite_keeps_external_type(t),
                    GenericArgV::AssocType { ty, .. } => lemma_rewrite_keeps_external_type(ty),
                    _ => {},
                }
            }
            assert(rewrite_args(a)->Angle_0 =~= v);
        },
        PathArgsV::Paren { inputs, output } => {
            lemma_rewrite_keeps_external_types(inputs);
            if let Some(o) = output {
                lemma_rewrite_keeps_external_type(*o);
            }
        },
    }
}

proof fn lemma_rewritten_path_is_external(p: PathV)
    ensures
        path_is_external(rewrite_path(p)),
    decreases p,
{
    reveal_strlit("crate");
    reveal_strlit("$crate");
    let r = rewrite_path(p);
    if is_local_rooted(p) {
        assert(r.segments[0] == hygiene_root());
        assert("$crate"@.len() == 6);
        assert("crate"@.len() == 5);
        assert(r.segments[0].ident != "crate"@);
    }
    assert forall|i: int| 0 <= i < r.segments.len() implies args_are_external(
        #[trigger] r.segments[i].args,
    ) by {
        if !(i == 0 && is_local_rooted(p)) {
            lemma_rewritten_args_are_external(p.segments[i].args);
        }
    }
}

proof fn lemma_rewritten_type_is_external(t: TypeV)
    ensures
        type_is_external(rewrite_type(t)),
    decreases t,
{
    match t {
        TypeV::Path { qself, path } => {
            if let Some(q) = qself {
                lemma_rewritten_type_is_external(*q.ty);
            }
            lemma_rewritten_path_is_external(path);
        },
        TypeV::Reference { elem, .. } => lemma_rewritten_type_is_external(*elem),
        TypeV::Tuple(v) => lemma_rewritten_types_are_external(v),
        TypeV::Slice(e) => lemma_rewritten_type_is_external(*e),
        TypeV::Array { elem, .. } => lemma_rewritten_type_is_external(*elem),
        TypeV::Ptr { elem, .. } => lemma_rewritten_type_is_external(*elem),
        TypeV::BareFn { inputs, output } => {
            lemma_rewritten_types_are_external(inputs);
            if let Some(o) = output {
                lemma_rewritten_type_is_external(*o);
            }
        },
        TypeV::Paren(e) => lemma_rewritten_type_is_external(*e),
        TypeV::Verbatim(_) => {},
    }
}

proof fn lemma_rewritten_types_are_external(v: Seq<TypeV>)
    ensures
        types_are_external(rewrite_types(v)),
    decreases v,
{
    assert forall|i: int| 0 <= i < v.len() implies type_is_external(#[trigger] rewrite_types(v)[i]) by {
        lemma_rewritten_type_is_external(v[i]);
    }
}

proof fn lemma_rewritten_args_are_external(a: PathArgsV)
    ensures
        args_are_external(rewrite_args(a)),
    decreases a,
{
    match a {
        PathArgsV::Bare => {},
        PathArgsV::Angle(v) => {
            let r = rewrite_args(a)->Angle_0;
            assert forall|i: int| 0 <= i < v.len() implies arg_is_external(#[trigger] r[i]) by {
                match v[i] {
                    GenericArgV::Type(t) => lemma_rewritten_type_is_external(t),
                    GenericArgV::AssocType { ty, .. } => lemma_rewritten_type_is_external(ty),
                    _ => {},
                }
            }
        },
        PathArgsV::Paren { inputs, output } => {
            lemma_rewritten_types_are_external(inputs);
            if let Some(o) = output {
                lemma_rewritten_type_is_external(*o);
            }
        },
    }
}

/// Rewriting is idempotent: a rewritten path holds no crate-local root at
/// any depth, so rewriting it again leaves it as it is.
pub proof fn lemma_rewrite_idempotent(p: PathV)
    ensures
        path_is_external(rewrite_path(p)),
        rewrite_path(rewrite_path(p)) == rewrite_path(p),
{
    lemma_rewritten_path_is_external(p);
    lemma_rewrite_keeps_external_path(rewrite_path(p));
}

/// Rewriting a type is idempotent too, and leaves no crate-local path in it.
pub proof fn lemma_rewrite_type_idempotent(t: TypeV)
    ensures
        type_is_external(rewrite_type(t)),
        rewrite_type(rewrite_type(t)) == rewrite_type(t),
{
    lemma_rewritten_type_is_external(t);
    lemma_rewrite_keeps_external_type(rewrite_type(t));
}

/// Rewriting reaches each generic argument on its own: the argument at place
/// `i` of segment `j` becomes the rewrite of that same argument, whatever the
/// other arguments hold. (Segment 0 of a crate-rooted path is `crate` itself,
/// which gives way to `$crate`.)
pub proof fn lemma_rewrite_each_generic_arg(p: PathV, j: int, i: int)
    requires
        0 <= j < p.segments.len(),
        !(j == 0 && is_local_rooted(p)),
        p.segments[j].args is Angle,
        0 <= i < p.segments[j].args->Angle_0.len(),
    ensures
        rewrite_path(p).segments[j].ident == p.segments[j].ident,
        rewrite_path(p).segments[j].args is Angle,
        rewrite_path(p).segments[j].args->Angle_0.len() == p.segments[j].args->Angle_0.len(),
        rewrite_path(p).segments[j].args->Angle_0[i] == rewrite_arg(p.segments[j].args->Angle_0[i]),
{
}

} // verus!
