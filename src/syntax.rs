//! A structured model of Rust type paths, and its mathematical view.
//!
//! Text that the model does not take apart (a lifetime, a constant
//! expression, a trait object) is kept as its source text.

use vstd::prelude::*;

verus! {

/// One argument between `<` and `>`.
pub enum GenericArg {
    Type(TypeNode),
    Lifetime(String),
    Const(String),
    /// An associated-type binding `Name = T`.
    AssocType { name: String, ty: TypeNode },
    /// Any other argument (an associated constant, a constraint).
    Verbatim(String),
}

/// The arguments that follow one segment of a path.
pub enum PathArgs {
    Bare,
    /// `<A, B, ..>`
    Angle(Vec<GenericArg>),
    /// `(A, B) -> C`, as in `Fn(A, B) -> C`
    Paren { inputs: Vec<TypeNode>, output: Option<Box<TypeNode>> },
}

pub struct Segment {
    pub ident: String,
    pub args: PathArgs,
}

/// A path such as `crate::exchanges::Binance` or `::std::vec::Vec<u8>`.
pub struct TypePath {
    pub leading_colon: bool,
    pub segments: Vec<Segment>,
}

/// The `<T as Trait>` prefix of a qualified path; `position` counts the
/// segments of the path that belong to the trait.
pub struct QSelf {
    pub ty: Box<TypeNode>,
    pub position: usize,
}

pub enum TypeNode {
    Path { qself: Option<QSelf>, path: TypePath },
    Reference { lifetime: Option<String>, mutable: bool, elem: Box<TypeNode> },
    Tuple(Vec<TypeNode>),
    Slice(Box<TypeNode>),
    Array { elem: Box<TypeNode>, len: String },
    Ptr { mutable: bool, elem: Box<TypeNode> },
    /// A function pointer `fn(A, B) -> C`.
    BareFn { inputs: Vec<TypeNode>, output: Option<Box<TypeNode>> },
    /// A parenthesized type `(T)`.
    Paren(Box<TypeNode>),
    /// Any other type, kept as its source text.
    Verbatim(String),
}

pub enum GenericArgV {
    Type(TypeV),
    Lifetime(Seq<char>),
    Const(Seq<char>),
    AssocType { name: Seq<char>, ty: TypeV },
    Verbatim(Seq<char>),
}

pub enum PathArgsV {
    Bare,
    Angle(Seq<GenericArgV>),
    Paren { inputs: Seq<TypeV>, output: Option<Box<TypeV>> },
}

pub struct SegmentV {
    pub ident: Seq<char>,
    pub args: PathArgsV,
}

pub struct PathV {
    pub leading_colon: bool,
    pub segments: Seq<SegmentV>,
}

pub struct QSelfV {
    pub ty: Box<TypeV>,
    pub position: nat,
}

pub enum TypeV {
    Path { qself: Option<QSelfV>, path: PathV },
    Reference { lifetime: Option<Seq<char>>, mutable: bool, elem: Box<TypeV> },
    Tuple(Seq<TypeV>),
    Slice(Box<TypeV>),
    Array { elem: Box<TypeV>, len: Seq<char> },
    Ptr { mutable: bool, elem: Box<TypeV> },
    BareFn { inputs: Seq<TypeV>, output: Option<Box<TypeV>> },
    Paren(Box<TypeV>),
    Verbatim(Seq<char>),
}

pub open spec fn arg_view(a: GenericArg) -> GenericArgV
    decreases a,
{
    match a {
        GenericArg::Type(t) => GenericArgV::Type(type_view(t)),
        GenericArg::Lifetime(l) => GenericArgV::Lifetime(l@),
        GenericArg::Const(c) => GenericArgV::Const(c@),
        GenericArg::AssocType { name, ty } => GenericArgV::AssocType { name: name@, ty: type_view(ty) },
        GenericArg::Verbatim(v) => GenericArgV::Verbatim(v@),
    }
}

pub open spec fn types_view(v: Seq<TypeNode>) -> Seq<TypeV>
    decreases v,
{
    Seq::new(
        v.len(),
        |i: int|
            if 0 <= i < v.len() {
                type_view(v[i])
            } else {
                TypeV::Verbatim(Seq::empty())
            },
    )
}

pub open spec fn args_view(a: PathArgs) -> PathArgsV
    decreases a,
{
    match a {
        PathArgs::Bare => PathArgsV::Bare,
        PathArgs::Angle(v) => PathArgsV::Angle(
            Seq::new(
                v@.len(),
                |i: int|
                    if 0 <= i < v@.len() {
                        arg_view(v@[i])
                    } else {
                        GenericArgV::Verbatim(Seq::empty())
                    },
            ),
        ),
        PathArgs::Paren { inputs, output } => PathArgsV::Paren {
            inputs: types_view(inputs@),
            output: match output {
                Some(o) => Some(Box::new(type_view(*o))),
                None => None,
            },
        },
    }
}

pub open spec fn segment_view(s: Segment) -> SegmentV
    decreases s,
{
    SegmentV { ident: s.ident@, args: args_view(s.args) }
}

pub open spec fn path_view(p: TypePath) -> PathV
    decreases p,
{
    PathV {
        leading_colon: p.leading_colon,
        segments: Seq::new(
            p.segments@.len(),
            |i: int|
                if 0 <= i < p.segments@.len() {
                    segment_view(p.segments@[i])
                } else {
                    SegmentV { ident: Seq::empty(), args: PathArgsV::Bare }
                },
        ),
    }
}

pub open spec fn type_view(t: TypeNode) -> TypeV
    decreases t,
{
    match t {
        TypeNode::Path { qself, path } => TypeV::Path {
            qself: match qself {
                Some(q) => Some(QSelfV { ty: Box::new(type_view(*q.ty)), position: q.position as nat }),
                None => None,
            },
            path: path_view(path),
        },
        TypeNode::Reference { lifetime, mutable, elem } => TypeV::Reference {
            lifetime: match lifetime {
                Some(l) => Some(l@),
                None => None,
            },
            mutable,
            elem: Box::new(type_view(*elem)),
        },
        TypeNode::Tuple(v) => TypeV::Tuple(types_view(v@)),
        TypeNode::Slice(e) => TypeV::Slice(Box::new(type_view(*e))),
        TypeNode::Array { elem, len } => TypeV::Array { elem: Box::new(type_view(*elem)), len: len@ },
        TypeNode::Ptr { mutable, elem } => TypeV::Ptr { mutable, elem: Box::new(type_view(*elem)) },
        TypeNode::BareFn { inputs, output } => TypeV::BareFn {
            inputs: types_view(inputs@),
            output: match output {
                Some(o) => Some(Box::new(type_view(*o))),
                None => None,
            },
        },
        TypeNode::Paren(e) => TypeV::Paren(Box::new(type_view(*e))),
        TypeNode::Verbatim(s) => TypeV::Verbatim(s@),
    }
}

impl View for GenericArg {
    type V = GenericArgV;

    open spec fn view(&self) -> GenericArgV {
        arg_view(*self)
    }
}

impl View for PathArgs {
    type V = PathArgsV;

    open spec fn view(&self) -> PathArgsV {
        args_view(*self)
    }
}

impl View for Segment {
    type V = SegmentV;

    open spec fn view(&self) -> SegmentV {
        segment_view(*self)
    }
}

impl View for TypePath {
    type V = PathV;

    open spec fn view(&self) -> PathV {
        path_view(*self)
    }
}

impl View for TypeNode {
    type V = TypeV;

    open spec fn view(&self) -> TypeV {
        type_view(*self)
    }
}

impl TypePath {
    /// A copy of the path, equal to it in every segment and argument.
    pub fn duplicate(&self) -> (r: TypePath)
        ensures
            r@ == self@,
        decreases self,
    {
        let mut segs: Vec<Segment> = Vec::new();
        let mut i: usize = 0;
        while i < self.segments.len()
            invariant
                i <= self.segments@.len(),
                segs@.len() == i,
                forall|j: int| 0 <= j < i ==> segs@[j]@ == self.segments@[j]@,
            decreases self.segments@.len() - i,
        {
            segs.push(
                Segment {
                    ident: self.segments[i].ident.clone(),
                    args: self.segments[i].args.duplicate(),
                },
            );
            i = i + 1;
        }
        let r = TypePath { leading_colon: self.leading_colon, segments: segs };
        assert(r@.segments =~= self@.segments);
        r
    }
}

impl PathArgs {
    /// A copy of the arguments.
    pub fn duplicate(&self) -> (r: PathArgs)
        ensures
            r@ == self@,
        decreases self,
    {
        match self {
            PathArgs::Bare => PathArgs::Bare,
            PathArgs::Angle(v) => {
                let mut out: Vec<GenericArg> = Vec::new();
                let mut i: usize = 0;
                while i < v.len()
                    invariant
                        *self == PathArgs::Angle(*v),
                        i <= v@.len(),
                        out@.len() == i,
                        forall|j: int| 0 <= j < i ==> out@[j]@ == v@[j]@,
                    decreases v@.len() - i,
                {
                    let arg = match &v[i] {
                        GenericArg::Type(t) => {
                            proof {
                                assert(decreases_to!(*self => self->Angle_0));
                                assert(decreases_to!(self->Angle_0 => self->Angle_0@));
                                assert(decreases_to!(self->Angle_0@ => self->Angle_0@[i as int]));
                            }
                            GenericArg::Type(t.duplicate())
                        },
                        GenericArg::Lifetime(l) => GenericArg::Lifetime(l.clone()),
                        GenericArg::Const(c) => GenericArg::Const(c.clone()),
                        GenericArg::AssocType { name, ty } => {
                            proof {
                                assert(decreases_to!(*self => self->Angle_0));
                                assert(decreases_to!(self->Angle_0 => self->Angle_0@));
                                assert(decreases_to!(self->Angle_0@ => self->Angle_0@[i as int]));
                            }
                            GenericArg::AssocType { name: name.clone(), ty: ty.duplicate() }
                        },
                        GenericArg::Verbatim(s) => GenericArg::Verbatim(s.clone()),
                    };
                    out.push(arg);
                    i = i + 1;
                }
                let r = PathArgs::Angle(out);
                assert(r@->Angle_0 =~= self@->Angle_0);
                r
            },
            PathArgs::Paren { inputs, output } => {
                let ins = duplicate_types(inputs);
                let out = match output {
                    Some(o) => Some(Box::new(o.duplicate())),
                    None => None,
                };
                PathArgs::Paren { inputs: ins, output: out }
            },
        }
    }
}

fn duplicate_types(v: &Vec<TypeNode>) -> (r: Vec<TypeNode>)
    ensures
        types_view(r@) == types_view(v@),
    decreases v,
{
    let mut out: Vec<TypeNode> = Vec::new();
    let mut i: usize = 0;
    while i < v.len()
        invariant
            i <= v@.len(),
            out@.len() == i,
            forall|j: int| 0 <= j < i ==> out@[j]@ == v@[j]@,
        decreases v@.len() - i,
    {
        out.push(v[i].duplicate());
        i = i + 1;
    }
    assert(types_view(out@) =~= types_view(v@));
    out
}

impl TypeNode {
    /// A copy of the type.
    pub fn duplicate(&self) -> (r: TypeNode)
        ensures
            r@ == self@,
        decreases self,
    {
        match self {
            TypeNode::Path { qself, path } => {
                let q = match qself {
                    Some(q) => Some(QSelf { ty: Box::new(q.ty.duplicate()), position: q.position }),
                    None => None,
                };
                TypeNode::Path { qself: q, path: path.duplicate() }
            },
            TypeNode::Reference { lifetime, mutable, elem } => TypeNode::Reference {
                lifetime: lifetime.clone(),
                mutable: *mutable,
                elem: Box::new(elem.duplicate()),
            },
            TypeNode::Tuple(v) => TypeNode::Tuple(duplicate_types(v)),
            TypeNode::Slice(e) => TypeNode::Slice(Box::new(e.duplicate())),
            TypeNode::Array { elem, len } => TypeNode::Array {
                elem: Box::new(elem.duplicate()),
                len: len.clone(),
            },
            TypeNode::Ptr { mutable, elem } => TypeNode::Ptr {
                mutable: *mutable,
                elem: Box::new(elem.duplicate()),
            },
            TypeNode::BareFn { inputs, output } => {
                let ins = duplicate_types(inputs);
                let out = match output {
                    Some(o) => Some(Box::new(o.duplicate())),
                    None => None,
                };
                TypeNode::BareFn { inputs: ins, output: out }
            },
            TypeNode::Paren(e) => TypeNode::Paren(Box::new(e.duplicate())),
            TypeNode::Verbatim(s) => TypeNode::Verbatim(s.clone()),
        }
    }
}

} // verus!
