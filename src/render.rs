//! Source text of modelled types and paths.

use crate::syntax::{
    GenericArg, GenericArgV, PathArgs, PathArgsV, PathV, Segment, SegmentV, TypeNode, TypePath,
    TypeV, types_view,
};
use crate::text::{join, lemma_join_step};
use vstd::prelude::*;

verus! {

pub open spec fn segment_texts(s: Seq<SegmentV>) -> Seq<Seq<char>>
    decreases s,
{
    Seq::new(
        s.len(),
        |i: int|
            if 0 <= i < s.len() {
                segment_text(s[i])
            } else {
                Seq::empty()
            },
    )
}

pub open spec fn segment_text(s: SegmentV) -> Seq<char>
    decreases s,
{
    s.ident + args_text(s.args)
}

pub open spec fn args_text(a: PathArgsV) -> Seq<char>
    decreases a,
{
    match a {
        PathArgsV::Bare => Seq::empty(),
        PathArgsV::Angle(v) => "<"@ + join(arg_texts(v), ", "@) + ">"@,
        PathArgsV::Paren { inputs, output } => "("@ + join(type_texts(inputs), ", "@) + ")"@
            + match output {
            Some(o) => " -> "@ + type_text(*o),
            None => Seq::empty(),
        },
    }
}

pub open spec fn arg_texts(v: Seq<GenericArgV>) -> Seq<Seq<char>>
    decreases v,
{
    Seq::new(
        v.len(),
        |i: int|
            if 0 <= i < v.len() {
                arg_text(v[i])
            } else {
                Seq::empty()
            },
    )
}

pub open spec fn arg_text(a: GenericArgV) -> Seq<char>
    decreases a,
{
    match a {
        GenericArgV::Type(t) => type_text(t),
        GenericArgV::Lifetime(l) => l,
        GenericArgV::Const(c) => c,
        GenericArgV::AssocType { name, ty } => name + " = "@ + type_text(ty),
        GenericArgV::Verbatim(v) => v,
    }
}

pub open spec fn type_texts(v: Seq<TypeV>) -> Seq<Seq<char>>
    decreases v,
{
    Seq::new(
        v.len(),
        |i: int|
            if 0 <= i < v.len() {
                type_text(v[i])
            } else {
                Seq::empty()
            },
    )
}

pub open spec fn colon_text(leading_colon: bool) -> Seq<char> {
    if leading_colon {
        "::"@
    } else {
        Seq::empty()
    }
}

/// `crate::a::B<C>`: the segments joined by `::`.
pub open spec fn path_text(p: PathV) -> Seq<char>
    decreases p,
{
    colon_text(p.leading_colon) + join(segment_texts(p.segments), "::"@)
}

/// The text of a type, as Rust writes it.
pub open spec fn type_text(t: TypeV) -> Seq<char>
    decreases t,
{
    match t {
        TypeV::Path { qself, path } => match qself {
            None => path_text(path),
            Some(q) => {
                let texts = segment_texts(path.segments);
                let pos = if q.position <= texts.len() {
                    q.position as int
                } else {
                    texts.len() as int
                };
                "<"@ + type_text(*q.ty) + (if pos > 0 {
                    " as "@ + colon_text(path.leading_colon) + join(texts.subrange(0, pos), "::"@)
                } else {
                    Seq::empty()
                }) + ">::"@ + join(texts.subrange(pos, texts.len() as int), "::"@)
            },
        },
        TypeV::Reference { lifetime, mutable, elem } => "&"@ + match lifetime {
            Some(l) => l + " "@,
            None => Seq::empty(),
        } + (if mutable {
            "mut "@
        } else {
            Seq::empty()
        }) + type_text(*elem),
        TypeV::Tuple(v) => "("@ + join(type_texts(v), ", "@) + (if v.len() == 1 {
            ","@
        } else {
            Seq::empty()
        }) + ")"@,
        TypeV::Slice(e) => "["@ + type_text(*e) + "]"@,
        TypeV::Array { elem, len } => "["@ + type_text(*elem) + "; "@ + len + "]"@,
        TypeV::Ptr { mutable, elem } => (if mutable {
            "*mut "@
        } else {
            "*const "@
        }) + type_text(*elem),
        TypeV::BareFn { inputs, output } => "fn("@ + join(type_texts(inputs), ", "@) + ")"@ + match output {
            Some(o) => " -> "@ + type_text(*o),
            None => Seq::empty(),
        },
        TypeV::Paren(e) => "("@ + type_text(*e) + ")"@,
        TypeV::Verbatim(s) => s,
    }
}

/// Appends the text of segments `lo..hi` of `segs`, joined by `::`.
fn write_segments(segs: &Vec<Segment>, lo: usize, hi: usize, out: &mut String)
    requires
        lo <= hi <= segs@.len(),
    ensures
        final(out)@ == old(out)@ + join(
            segment_texts(Seq::new(segs@.len(), |i: int| segs@[i]@)).subrange(lo as int, hi as int),
            "::"@,
        ),
    decreases segs, 0nat,
{
    let ghost start = out@;
    let ghost parts = segment_texts(Seq::new(segs@.len(), |i: int| segs@[i]@)).subrange(
        lo as int,
        hi as int,
    );
    let mut i: usize = lo;
    while i < hi
        invariant
            lo <= i <= hi <= segs@.len(),
            parts == segment_texts(Seq::new(segs@.len(), |i: int| segs@[i]@)).subrange(
                lo as int,
                hi as int,
            ),
            out@ == start + join(parts.take(i - lo), "::"@),
        decreases hi - i,
    {
        proof {
            lemma_join_step(parts, "::"@, i - lo);
        }
        if i > lo {
            out.append("::");
        }
        out.append(segs[i].ident.as_str());
        write_args(&segs[i].args, out);
        assert(parts[i - lo] == segs@[i as int]@.ident + args_text(segs@[i as int]@.args));
        assert(out@ =~= start + join(parts.take(i + 1 - lo), "::"@));
        i = i + 1;
    }
    assert(parts.take(hi - lo) =~= parts);
}

/// Appends the text of a path.
pub fn write_path(p: &TypePath, out: &mut String)
    ensures
        final(out)@ == old(out)@ + path_text(p@),
    decreases p, 0nat,
{
    let ghost start = out@;
    if p.leading_colon {
        out.append("::");
    }
    write_segments(&p.segments, 0, p.segments.len(), out);
    assert(Seq::new(p.segments@.len(), |i: int| p.segments@[i]@) =~= p@.segments);
    assert(segment_texts(p@.segments).subrange(0, p.segments@.len() as int) =~= segment_texts(
        p@.segments,
    ));
    assert(out@ =~= start + path_text(p@));
}

/// Appends the text of one generic argument.
fn write_arg(a: &GenericArg, out: &mut String)
    ensures
        final(out)@ == old(out)@ + arg_text(a@),
    decreases a, 0nat,
{
    match a {
        GenericArg::Type(t) => write_type(t, out),
        GenericArg::Lifetime(l) => out.append(l.as_str()),
        GenericArg::Const(c) => out.append(c.as_str()),
        GenericArg::AssocType { name, ty } => {
            let ghost start = out@;
            out.append(name.as_str());
            out.append(" = ");
            write_type(ty, out);
            assert(out@ =~= start + arg_text(a@));
        },
        GenericArg::Verbatim(v) => out.append(v.as_str()),
    }
}

/// Appends the text of the arguments of one segment.
fn write_args(a: &PathArgs, out: &mut String)
    ensures
        final(out)@ == old(out)@ + args_text(a@),
    decreases a, 0nat,
{
    let ghost start = out@;
    match a {
        PathArgs::Bare => {
            assert(out@ =~= start + args_text(a@));
        },
        PathArgs::Angle(v) => {
            let ghost parts = Seq::new(v@.len(), |i: int| arg_text(v@[i]@));
            out.append("<");
            let ghost mid = out@;
            let mut i: usize = 0;
            while i < v.len()
                invariant
                    *a == PathArgs::Angle(*v),
                    mid == start + "<"@,
                    i <= v@.len(),
                    parts == Seq::new(v@.len(), |i: int| arg_text(v@[i]@)),
                    out@ == mid + join(parts.take(i as int), ", "@),
                decreases v@.len() - i,
            {
                proof {
                    lemma_join_step(parts, ", "@, i as int);
                    assert(decreases_to!(*a => a->Angle_0));
                    assert(decreases_to!(a->Angle_0 => a->Angle_0@));
                    assert(decreases_to!(a->Angle_0@ => a->Angle_0@[i as int]));
                }
                if i > 0 {
                    out.append(", ");
                }
                write_arg(&v[i], out);
                assert(out@ =~= mid + join(parts.take(i + 1), ", "@));
                i = i + 1;
            }
            assert(parts.take(v@.len() as int) =~= parts);
            out.append(">");
            let ghost va = a@->Angle_0;
            assert(parts =~= arg_texts(va));
            assert(out@ =~= start + args_text(a@));
        },
        PathArgs::Paren { inputs, output } => {
            out.append("(");
            write_types(inputs, out);
            out.append(")");
            match output {
                Some(o) => {
                    out.append(" -> ");
                    write_type(o, out);
                },
                None => {},
            }
            assert(out@ =~= start + args_text(a@));
        },
    }
}

/// Appends the texts of `v`, joined by `, `.
fn write_types(v: &Vec<TypeNode>, out: &mut String)
    ensures
        final(out)@ == old(out)@ + join(type_texts(types_view(v@)), ", "@),
    decreases v, 0nat,
{
    let ghost start = out@;
    let ghost parts = type_texts(types_view(v@));
    let mut i: usize = 0;
    while i < v.len()
        invariant
            i <= v@.len(),
            parts == type_texts(types_view(v@)),
            out@ == start + join(parts.take(i as int), ", "@),
        decreases v@.len() - i,
    {
        proof {
            lemma_join_step(parts, ", "@, i as int);
        }
        if i > 0 {
            out.append(", ");
        }
        write_type(&v[i], out);
        assert(out@ =~= start + join(parts.take(i + 1), ", "@));
        i = i + 1;
    }
    assert(parts.take(v@.len() as int) =~= parts);
}

/// Appends the text of a qualified path `<T as Trait>::Rest`.
fn write_qualified(t: &TypeNode, out: &mut String)
    requires
        t matches TypeNode::Path { qself: Some(_), .. },
    ensures
        final(out)@ == old(out)@ + type_text(t@),
    decreases t, 0nat,
{
    let ghost start = out@;
    match t {
        TypeNode::Path { qself: Some(q), path } => {
            let n = path.segments.len();
            let pos = if q.position <= n {
                q.position
            } else {
                n
            };
            assert(Seq::new(path.segments@.len(), |i: int| path.segments@[i]@) =~= path@.segments);
            out.append("<");
            write_type(&q.ty, out);
            let ghost after_ty = out@;
            if pos > 0 {
                out.append(" as ");
                if path.leading_colon {
                    out.append("::");
                }
                write_segments(&path.segments, 0, pos, out);
            }
            let ghost after_trait = out@;
            assert(after_trait =~= after_ty + (if pos > 0 {
                " as "@ + colon_text(path.leading_colon) + join(
                    segment_texts(path@.segments).subrange(0, pos as int),
                    "::"@,
                )
            } else {
                Seq::empty()
            }));
            out.append(">::");
            write_segments(&path.segments, pos, n, out);
            assert(out@ =~= start + type_text(t@));
        },
        _ => {},
    }
}

/// Appends the text of a type.
pub fn write_type(t: &TypeNode, out: &mut String)
    ensures
        final(out)@ == old(out)@ + type_text(t@),
    decreases t, 1nat,
{
    let ghost start = out@;
    match t {
        TypeNode::Path { qself, path } => {
            match qself {
                None => write_path(path, out),
                Some(_) => write_qualified(t, out),
            }
            assert(out@ =~= start + type_text(t@));
        },
        TypeNode::Reference { lifetime, mutable, elem } => {
            out.append("&");
            match lifetime {
                Some(l) => {
                    out.append(l.as_str());
                    out.append(" ");
                },
                None => {},
            }
            if *mutable {
                out.append("mut ");
            }
            write_type(elem, out);
            assert(out@ =~= start + type_text(t@));
        },
        TypeNode::Tuple(v) => {
            out.append("(");
            write_types(v, out);
            if v.len() == 1 {
                out.append(",");
            }
            out.append(")");
            assert(out@ =~= start + type_text(t@));
        },
        TypeNode::Slice(e) => {
            out.append("[");
            write_type(e, out);
            out.append("]");
            assert(out@ =~= start + type_text(t@));
        },
        TypeNode::Array { elem, len } => {
            out.append("[");
            write_type(elem, out);
            out.append("; ");
            out.append(len.as_str());
            out.append("]");
            assert(out@ =~= start + type_text(t@));
        },
        TypeNode::Ptr { mutable, elem } => {
            if *mutable {
                out.append("*mut ");
            } else {
                out.append("*const ");
            }
            write_type(elem, out);
            assert(out@ =~= start + type_text(t@));
        },
        TypeNode::BareFn { inputs, output } => {
            out.append("fn(");
            write_types(inputs, out);
            out.append(")");
            match output {
                Some(o) => {
                    out.append(" -> ");
                    write_type(o, out);
                },
                None => {},
            }
            assert(out@ =~= start + type_text(t@));
        },
        TypeNode::Paren(e) => {
            out.append("(");
            write_type(e, out);
            out.append(")");
            assert(out@ =~= start + type_text(t@));
        },
        TypeNode::Verbatim(s) => {
            out.append(s.as_str());
            assert(out@ =~= start + type_text(t@));
        },
    }
}

/// The text of a type.
pub fn type_to_text(t: &TypeNode) -> (r: String)
    ensures
        r@ == type_text(t@),
{
    let mut out = String::new();
    write_type(t, &mut out);
    assert(out@ =~= type_text(t@));
    out
}

/// The text of a path.
pub fn path_to_text(p: &TypePath) -> (r: String)
    ensures
        r@ == path_text(p@),
{
    let mut out = String::new();
    write_path(p, &mut out);
    assert(out@ =~= path_text(p@));
    out
}

} // verus!
