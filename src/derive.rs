//! The annotated enum: its model, the tag on each variant, and the check
//! that turns the variants into a descriptor for code generation.

use crate::naming::{DeriveKind, dispatch_macro_name, macro_name_of};
use crate::syntax::{PathArgs, PathArgsV, PathV, TypePath};
use crate::text::text_eq;
use vstd::prelude::*;

verus! {

/// What follows the path of an attribute.
pub enum AttrMeta {
    /// `#[name]`
    Word,
    /// `#[name(..)]`
    List,
    /// `#[name = "text"]`; `parsed` is the text read as a type path, or
    /// `None` when the text is not one.
    Str { parsed: Option<TypePath> },
    /// `#[name = value]` with a value other than a string literal.
    OtherValue,
}

pub struct Attribute {
    pub path: TypePath,
    pub meta: AttrMeta,
}

/// The fields of a variant.
#[derive(Clone, Copy, PartialEq, Eq, Structural, Debug)]
pub enum Fields {
    Unit,
    /// `V(A, B, ..)` with this many fields.
    Unnamed(usize),
    /// `V { a: A, .. }` with this many fields.
    Named(usize),
}

pub struct Variant {
    pub ident: String,
    pub attrs: Vec<Attribute>,
    pub fields: Fields,
}

/// The body of the item that a derive is applied to.
pub enum Data {
    Enum(Vec<Variant>),
    Struct,
    Union,
}

/// The item that a derive is applied to.
pub struct DeriveInput {
    pub ident: String,
    pub data: Data,
}

pub enum AttrMetaV {
    Word,
    List,
    Str { parsed: Option<PathV> },
    OtherValue,
}

pub struct AttributeV {
    pub path: PathV,
    pub meta: AttrMetaV,
}

pub struct VariantV {
    pub ident: Seq<char>,
    pub attrs: Seq<AttributeV>,
    pub fields: Fields,
}

pub enum DataV {
    Enum(Seq<VariantV>),
    Struct,
    Union,
}

pub struct DeriveInputV {
    pub ident: Seq<char>,
    pub data: DataV,
}

pub open spec fn attrs_view(attrs: Seq<Attribute>) -> Seq<AttributeV> {
    attrs.map_values(|a: Attribute| a@)
}

pub open spec fn variants_view(vs: Seq<Variant>) -> Seq<VariantV> {
    vs.map_values(|v: Variant| v@)
}

pub open spec fn mappings_view(ms: Seq<VariantMapping>) -> Seq<VariantMappingV> {
    ms.map_values(|m: VariantMapping| m@)
}

impl View for AttrMeta {
    type V = AttrMetaV;

    open spec fn view(&self) -> AttrMetaV {
        match self {
            AttrMeta::Word => AttrMetaV::Word,
            AttrMeta::List => AttrMetaV::List,
            AttrMeta::Str { parsed } => AttrMetaV::Str {
                parsed: match parsed {
                    Some(p) => Some(p@),
                    None => None,
                },
            },
            AttrMeta::OtherValue => AttrMetaV::OtherValue,
        }
    }
}

impl View for Attribute {
    type V = AttributeV;

    open spec fn view(&self) -> AttributeV {
        AttributeV { path: self.path@, meta: self.meta@ }
    }
}

impl View for Variant {
    type V = VariantV;

    open spec fn view(&self) -> VariantV {
        VariantV {
            ident: self.ident@,
            attrs: attrs_view(self.attrs@),
            fields: self.fields,
        }
    }
}

impl View for DeriveInput {
    type V = DeriveInputV;

    open spec fn view(&self) -> DeriveInputV {
        DeriveInputV {
            ident: self.ident@,
            data: match self.data {
                Data::Enum(vs) => DataV::Enum(variants_view(vs@)),
                Data::Struct => DataV::Struct,
                Data::Union => DataV::Union,
            },
        }
    }
}

/// The attribute's path is the single word `concrete`.
pub open spec fn is_concrete_word(p: PathV) -> bool {
    &&& !p.leading_colon
    &&& p.segments.len() == 1
    &&& p.segments[0].args == PathArgsV::Bare
    &&& p.segments[0].ident == "concrete"@
}

/// The attribute is a tag `#[concrete = "..."]`.
pub open spec fn is_tag(a: AttributeV) -> bool {
    is_concrete_word(a.path) && a.meta is Str
}

/// The type path that the first tag among `attrs` names; `None` when no
/// attribute is a tag, or when the first tag's text is not a type path.
pub open spec fn concrete_tag(attrs: Seq<AttributeV>) -> Option<PathV>
    decreases attrs.len(),
{
    if attrs.len() == 0 {
        None
    } else if is_tag(attrs[0]) {
        attrs[0].meta->parsed
    } else {
        concrete_tag(attrs.drop_first())
    }
}

/// One variant of a checked enum and the type that it stands for.
pub struct VariantMapping {
    pub variant: String,
    pub concrete: TypePath,
    /// The variant carries one unnamed field.
    pub payload: bool,
}

pub struct VariantMappingV {
    pub variant: Seq<char>,
    pub concrete: PathV,
    pub payload: bool,
}

impl View for VariantMapping {
    type V = VariantMappingV;

    open spec fn view(&self) -> VariantMappingV {
        VariantMappingV { variant: self.variant@, concrete: self.concrete@, payload: self.payload }
    }
}

/// A checked enum, ready for code generation.
pub struct EnumDescriptor {
    pub ident: String,
    pub macro_name: String,
    pub kind: DeriveKind,
    pub mappings: Vec<VariantMapping>,
}

pub struct EnumDescriptorV {
    pub ident: Seq<char>,
    pub macro_name: Seq<char>,
    pub kind: DeriveKind,
    pub mappings: Seq<VariantMappingV>,
}

impl View for EnumDescriptor {
    type V = EnumDescriptorV;

    open spec fn view(&self) -> EnumDescriptorV {
        EnumDescriptorV {
            ident: self.ident@,
            macro_name: self.macro_name@,
            kind: self.kind,
            mappings: mappings_view(self.mappings@),
        }
    }
}

/// Why an expansion fails.
pub enum ExpandError {
    /// The derive was applied to a struct or a union.
    NotAnEnum { ident: String, kind: DeriveKind },
    /// The variant has no tag naming a type path.
    MissingTag { variant: String },
    /// The variant has named fields, or a number of unnamed fields other than one.
    BadShape { variant: String, kind: DeriveKind },
}

pub enum ExpandErrorV {
    NotAnEnum { ident: Seq<char>, kind: DeriveKind },
    MissingTag { variant: Seq<char> },
    BadShape { variant: Seq<char>, kind: DeriveKind },
}

impl View for ExpandError {
    type V = ExpandErrorV;

    open spec fn view(&self) -> ExpandErrorV {
        match self {
            ExpandError::NotAnEnum { ident, kind } => ExpandErrorV::NotAnEnum { ident: ident@, kind: *kind },
            ExpandError::MissingTag { variant } => ExpandErrorV::MissingTag { variant: variant@ },
            ExpandError::BadShape { variant, kind } => ExpandErrorV::BadShape { variant: variant@, kind: *kind },
        }
    }
}

/// Whether a variant carries a payload: `Some(false)` for a unit variant,
/// `Some(true)` for one unnamed field, `None` for any other shape.
pub open spec fn payload_of(f: Fields) -> Option<bool> {
    match f {
        Fields::Unit => Some(false),
        Fields::Unnamed(n) => if n == 1 {
            Some(true)
        } else {
            None
        },
        Fields::Named(_) => None,
    }
}

/// The check of one variant: it must carry a tag, and be a unit variant or
/// have exactly one unnamed field.
pub open spec fn check_variant(v: VariantV, kind: DeriveKind) -> Result<VariantMappingV, ExpandErrorV> {
    match concrete_tag(v.attrs) {
        None => Err(ExpandErrorV::MissingTag { variant: v.ident }),
        Some(p) => match payload_of(v.fields) {
            None => Err(ExpandErrorV::BadShape { variant: v.ident, kind }),
            Some(b) => Ok(VariantMappingV { variant: v.ident, concrete: p, payload: b }),
        },
    }
}

/// The check of all variants in order: the mappings of all of them, or the
/// error of the first variant that fails.
pub open spec fn classify(vs: Seq<VariantV>, kind: DeriveKind) -> Result<Seq<VariantMappingV>, ExpandErrorV>
    decreases vs.len(),
{
    if vs.len() == 0 {
        Ok(Seq::empty())
    } else {
        match classify(vs.drop_last(), kind) {
            Err(e) => Err(e),
            Ok(ms) => match check_variant(vs.last(), kind) {
                Err(e) => Err(e),
                Ok(m) => Ok(ms.push(m)),
            },
        }
    }
}

/// The descriptor of an item, or why it cannot have one.
pub open spec fn describe(input: DeriveInputV, kind: DeriveKind) -> Result<EnumDescriptorV, ExpandErrorV> {
    match input.data {
        DataV::Enum(vs) => match classify(vs, kind) {
            Err(e) => Err(e),
            Ok(ms) => Ok(
                EnumDescriptorV {
                    ident: input.ident,
                    macro_name: macro_name_of(kind, input.ident),
                    kind,
                    mappings: ms,
                },
            ),
        },
        _ => Err(ExpandErrorV::NotAnEnum { ident: input.ident, kind }),
    }
}

/// The type path named by the first tag `#[concrete = "..."]` among `attrs`.
/// Later tags are not read; a first tag whose text is not a type path gives
/// `None`.
pub fn extract_concrete_type_path(attrs: &Vec<Attribute>) -> (r: Option<&TypePath>)
    ensures
        match r {
            Some(p) => concrete_tag(attrs_view(attrs@)) == Some(p@),
            None => concrete_tag(attrs_view(attrs@)) is None,
        },
{
    let ghost av = attrs_view(attrs@);
    assert(av.subrange(0, av.len() as int) =~= av);
    let mut i: usize = 0;
    while i < attrs.len()
        invariant
            av == attrs_view(attrs@),
            i <= attrs@.len(),
            concrete_tag(av) == concrete_tag(av.subrange(i as int, av.len() as int)),
        decreases attrs@.len() - i,
    {
        let a = &attrs[i];
        let word = a.path.segments.len() == 1 && !a.path.leading_colon && match &a.path.segments[0].args {
            PathArgs::Bare => true,
            _ => false,
        } && text_eq(a.path.segments[0].ident.as_str(), "concrete");
        proof {
            let rest = av.subrange(i as int, av.len() as int);
            assert(rest[0] == a@);
            assert(rest.drop_first() =~= av.subrange(i + 1, av.len() as int));
            if a.path.segments@.len() == 1 {
                assert(a@.path.segments[0] == a.path.segments@[0]@);
            }
        }
        if word {
            match &a.meta {
                AttrMeta::Str { parsed } => {
                    return match parsed {
                        Some(p) => Some(p),
                        None => None,
                    };
                },
                _ => {},
            }
        }
        i = i + 1;
    }
    assert(av.subrange(i as int, av.len() as int).len() == 0);
    None
}

/// Once a prefix of the variants fails, the whole list fails with the same
/// error.
proof fn lemma_classify_prefix_err(vs: Seq<VariantV>, k: int, kind: DeriveKind)
    requires
        0 <= k <= vs.len(),
        classify(vs.take(k), kind) is Err,
    ensures
        classify(vs, kind) == classify(vs.take(k), kind),
    decreases vs.len(),
{
    if vs.len() > k {
        assert(vs.drop_last().take(k) =~= vs.take(k));
        lemma_classify_prefix_err(vs.drop_last(), k, kind);
    } else {
        assert(vs.take(k) =~= vs);
    }
}

/// Checks the variants in order: the mappings of all of them, or the error
/// of the first variant that lacks a tag or has another shape than unit or
/// one unnamed field.
pub fn classify_variants(vs: &Vec<Variant>, kind: DeriveKind) -> (r: Result<Vec<VariantMapping>, ExpandError>)
    ensures
        match r {
            Ok(ms) => classify(variants_view(vs@), kind) == Ok::<_, ExpandErrorV>(mappings_view(ms@)),
            Err(e) => classify(variants_view(vs@), kind) == Err::<Seq<VariantMappingV>, _>(e@),
        },
{
    let ghost vv = variants_view(vs@);
    let mut ms: Vec<VariantMapping> = Vec::new();
    let mut i: usize = 0;
    assert(vv.take(0) =~= Seq::<VariantV>::empty());
    assert(mappings_view(ms@) =~= Seq::<VariantMappingV>::empty());
    while i < vs.len()
        invariant
            vv == variants_view(vs@),
            i <= vs@.len(),
            classify(vv.take(i as int), kind) == Ok::<_, ExpandErrorV>(mappings_view(ms@)),
        decreases vs@.len() - i,
    {
        let v = &vs[i];
        let ghost vi = vv[i as int];
        proof {
            assert(vv.take(i + 1).drop_last() =~= vv.take(i as int));
            assert(vv.take(i + 1).last() == vi);
            assert(vi == v@);
        }
        match extract_concrete_type_path(&v.attrs) {
            None => {
                let e = ExpandError::MissingTag { variant: v.ident.clone() };
                proof {
                    lemma_classify_prefix_err(vv, i + 1, kind);
                }
                return Err(e);
            },
            Some(p) => {
                let payload = match v.fields {
                    Fields::Unit => false,
                    Fields::Unnamed(n) => {
                        if n == 1 {
                            true
                        } else {
                            let e = ExpandError::BadShape { variant: v.ident.clone(), kind };
                            proof {
                                lemma_classify_prefix_err(vv, i + 1, kind);
                            }
                            return Err(e);
                        }
                    },
                    Fields::Named(_) => {
                        let e = ExpandError::BadShape { variant: v.ident.clone(), kind };
                        proof {
                            lemma_classify_prefix_err(vv, i + 1, kind);
                        }
                        return Err(e);
                    },
                };
                let m = VariantMapping { variant: v.ident.clone(), concrete: p.duplicate(), payload };
                let ghost before = mappings_view(ms@);
                ms.push(m);
                assert(mappings_view(ms@) =~= before.push(m@));
            },
        }
        i = i + 1;
    }
    assert(vv.take(vs@.len() as int) =~= vv);
    Ok(ms)
}

/// The descriptor of an item: its name, the name of its dispatch macro, and
/// the checked variants; or why the item cannot be expanded.
pub fn describe_enum(input: &DeriveInput, kind: DeriveKind) -> (r: Result<EnumDescriptor, ExpandError>)
    ensures
        match r {
            Ok(d) => describe(input@, kind) == Ok::<_, ExpandErrorV>(d@),
            Err(e) => describe(input@, kind) == Err::<EnumDescriptorV, _>(e@),
        },
{
    match &input.data {
        Data::Enum(vs) => match classify_variants(vs, kind) {
            Ok(ms) => {
                let d = EnumDescriptor {
                    ident: input.ident.clone(),
                    macro_name: dispatch_macro_name(kind, input.ident.as_str()),
                    kind,
                    mappings: ms,
                };
                Ok(d)
            },
            Err(e) => Err(e),
        },
        _ => Err(ExpandError::NotAnEnum { ident: input.ident.clone(), kind }),
    }
}

} // verus!
