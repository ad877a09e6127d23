//! Source text generated for a checked enum: the dispatch macro and the
//! methods that tell which concrete type the current variant stands for.

use crate::derive::{EnumDescriptor, EnumDescriptorV, VariantMapping, VariantMappingV};
use crate::naming::DeriveKind;
use crate::render::{path_text, write_path};
use crate::rewrite::{rewrite_path, transform_path_for_macro};
use crate::text::{join, lemma_join_step};
use vstd::prelude::*;

verus! {

/// The generated lists that hold one arm per variant.
#[derive(Clone, Copy, PartialEq, Eq, Structural, Debug)]
pub enum ArmList {
    /// Arms of the dispatch macro.
    Dispatch,
    /// Arms of `concrete_type_id`.
    TypeId,
    /// Arms of `concrete_type_name`.
    TypeName,
    /// Arms of `config`.
    Payload,
}

/// `Enum::Variant`, followed by `(binding)` for a variant with a payload.
pub open spec fn variant_pattern(enum_ident: Seq<char>, m: VariantMappingV, binding: Seq<char>) -> Seq<char> {
    enum_ident + "::"@ + m.variant + if m.payload {
        "("@ + binding + ")"@
    } else {
        Seq::empty()
    }
}

/// How a dispatch arm binds the payload placeholder: not at all for
/// `Concrete`; to the payload, or to `()` for a unit variant, for
/// `ConcreteConfig`.
pub open spec fn payload_binding(kind: DeriveKind, m: VariantMappingV) -> Seq<char> {
    match kind {
        DeriveKind::Concrete => Seq::empty(),
        DeriveKind::ConcreteConfig => if m.payload {
            "let $config_param = config; "@
        } else {
            "let $config_param = (); "@
        },
    }
}

/// The statement that binds the type placeholder to `ty`.
pub open spec fn type_binding(ty: Seq<char>) -> Seq<char> {
    "type $type_param = "@ + ty + ";"@
}

/// The arm for one variant in one generated list. A dispatch arm binds the
/// placeholder `$type_param` to the variant's type, rewritten for hygiene,
/// then runs the caller's block.
pub open spec fn arm_text(enum_ident: Seq<char>, kind: DeriveKind, list: ArmList, m: VariantMappingV) -> Seq<char> {
    match list {
        ArmList::Dispatch => variant_pattern(
            enum_ident,
            m,
            match kind {
                DeriveKind::Concrete => ".."@,
                DeriveKind::ConcreteConfig => "config"@,
            },
        ) + " => { "@ + type_binding(path_text(rewrite_path(m.concrete))) + " "@ + payload_binding(kind, m)
            + "$code_block }, "@,
        ArmList::TypeId => variant_pattern(enum_ident, m, ".."@) + " => ::core::any::TypeId::of::<"@
            + path_text(m.concrete) + ">(), "@,
        ArmList::TypeName => variant_pattern(enum_ident, m, ".."@) + " => ::core::any::type_name::<"@
            + path_text(m.concrete) + ">(), "@,
        ArmList::Payload => variant_pattern(enum_ident, m, "ref config"@) + if m.payload {
            " => config, "@
        } else {
            " => &(), "@
        },
    }
}

pub open spec fn arm_texts(d: EnumDescriptorV, list: ArmList) -> Seq<Seq<char>> {
    Seq::new(d.mappings.len(), |i: int| arm_text(d.ident, d.kind, list, d.mappings[i]))
}

/// All arms of one list, one after the other.
pub open spec fn arms_text(d: EnumDescriptorV, list: ArmList) -> Seq<char> {
    join(arm_texts(d, list), Seq::empty())
}

/// What the dispatch macro accepts: a value, the placeholder for the type
/// (and, for `ConcreteConfig`, the one for the payload), and a block.
pub open spec fn matcher_text(kind: DeriveKind) -> Seq<char> {
    match kind {
        DeriveKind::Concrete => "$enum_instance:expr; $type_param:ident => $code_block:block"@,
        DeriveKind::ConcreteConfig => "$enum_instance:expr; ($type_param:ident, $config_param:ident) => $code_block:block"@,
    }
}

pub open spec fn dispatch_macro_text(d: EnumDescriptorV) -> Seq<char> {
    "#[macro_export] macro_rules! "@ + d.macro_name + " { ("@ + matcher_text(d.kind)
        + ") => { match $enum_instance { "@ + arms_text(d, ArmList::Dispatch) + "} }; } "@
}

/// The payload accessor, which only `ConcreteConfig` has.
pub open spec fn payload_method_text(d: EnumDescriptorV) -> Seq<char> {
    match d.kind {
        DeriveKind::Concrete => Seq::empty(),
        DeriveKind::ConcreteConfig => "pub fn config(&self) -> &dyn ::core::any::Any { match *self { "@
            + arms_text(d, ArmList::Payload) + "} } "@,
    }
}

pub open spec fn methods_text(d: EnumDescriptorV) -> Seq<char> {
    "impl "@ + d.ident + " { pub fn concrete_type_id(&self) -> ::core::any::TypeId { match *self { "@
        + arms_text(d, ArmList::TypeId)
        + "} } pub fn concrete_type_name(&self) -> &'static str { match *self { "@
        + arms_text(d, ArmList::TypeName) + "} } "@ + payload_method_text(d) + "}"@
}

/// Everything generated for a checked enum.
pub open spec fn expansion_text(d: EnumDescriptorV) -> Seq<char> {
    dispatch_macro_text(d) + methods_text(d)
}

fn write_pattern(enum_ident: &str, m: &VariantMapping, binding: &str, out: &mut String)
    ensures
        final(out)@ == old(out)@ + variant_pattern(enum_ident@, m@, binding@),
{
    let ghost start = out@;
    out.append(enum_ident);
    out.append("::");
    out.append(m.variant.as_str());
    if m.payload {
        out.append("(");
        out.append(binding);
        out.append(")");
    }
    assert(out@ =~= start + variant_pattern(enum_ident@, m@, binding@));
}

fn write_dispatch_arm(enum_ident: &str, kind: DeriveKind, m: &VariantMapping, out: &mut String)
    ensures
        final(out)@ == old(out)@ + arm_text(enum_ident@, kind, ArmList::Dispatch, m@),
{
    let ghost start = out@;
    let binding = match kind {
        DeriveKind::Concrete => "..",
        DeriveKind::ConcreteConfig => "config",
    };
    write_pattern(enum_ident, m, binding, out);
    out.append(" => { ");
    let ghost before_type = out@;
    out.append("type $type_param = ");
    write_path(&transform_path_for_macro(&m.concrete), out);
    out.append(";");
    assert(out@ =~= before_type + type_binding(path_text(rewrite_path(m@.concrete))));
    out.append(" ");
    let ghost before_payload = out@;
    match kind {
        DeriveKind::Concrete => {},
        DeriveKind::ConcreteConfig => {
            if m.payload {
                out.append("let $config_param = config; ");
            } else {
                out.append("let $config_param = (); ");
            }
        },
    }
    assert(out@ =~= before_payload + payload_binding(kind, m@));
    out.append("$code_block }, ");
    assert(out@ =~= start + arm_text(enum_ident@, kind, ArmList::Dispatch, m@));
}

fn write_arm(enum_ident: &str, kind: DeriveKind, list: ArmList, m: &VariantMapping, out: &mut String)
    ensures
        final(out)@ == old(out)@ + arm_text(enum_ident@, kind, list, m@),
{
    let ghost start = out@;
    match list {
        ArmList::Dispatch => write_dispatch_arm(enum_ident, kind, m, out),
        ArmList::TypeId => {
            write_pattern(enum_ident, m, "..", out);
            out.append(" => ::core::any::TypeId::of::<");
            write_path(&m.concrete, out);
            out.append(">(), ");
            assert(out@ =~= start + arm_text(enum_ident@, kind, list, m@));
        },
        ArmList::TypeName => {
            write_pattern(enum_ident, m, "..", out);
            out.append(" => ::core::any::type_name::<");
            write_path(&m.concrete, out);
            out.append(">(), ");
            assert(out@ =~= start + arm_text(enum_ident@, kind, list, m@));
        },
        ArmList::Payload => {
            write_pattern(enum_ident, m, "ref config", out);
            if m.payload {
                out.append(" => config, ");
            } else {
                out.append(" => &(), ");
            }
            assert(out@ =~= start + arm_text(enum_ident@, kind, list, m@));
        },
    }
}

fn write_arms(d: &EnumDescriptor, list: ArmList, out: &mut String)
    ensures
        final(out)@ == old(out)@ + arms_text(d@, list),
{
    let ghost start = out@;
    let ghost parts = arm_texts(d@, list);
    let mut i: usize = 0;
    while i < d.mappings.len()
        invariant
            i <= d.mappings@.len(),
            parts == arm_texts(d@, list),
            out@ == start + join(parts.take(i as int), Seq::empty()),
        decreases d.mappings@.len() - i,
    {
        proof {
            lemma_join_step(parts, Seq::empty(), i as int);
        }
        write_arm(d.ident.as_str(), d.kind, list, &d.mappings[i], out);
        assert(out@ =~= start + join(parts.take(i + 1), Seq::empty()));
        i = i + 1;
    }
    assert(parts.take(d.mappings@.len() as int) =~= parts);
}

/// The source text of the dispatch macro alone.
pub fn generate_dispatch_macro(d: &EnumDescriptor) -> (r: String)
    ensures
        r@ == dispatch_macro_text(d@),
{
    let mut out = String::new();
    out.append("#[macro_export] macro_rules! ");
    out.append(d.macro_name.as_str());
    out.append(" { (");
    match d.kind {
        DeriveKind::Concrete => out.append("$enum_instance:expr; $type_param:ident => $code_block:block"),
        DeriveKind::ConcreteConfig => out.append(
            "$enum_instance:expr; ($type_param:ident, $config_param:ident) => $code_block:block",
        ),
    }
    out.append(") => { match $enum_instance { ");
    write_arms(d, ArmList::Dispatch, &mut out);
    out.append("} }; } ");
    assert(out@ =~= dispatch_macro_text(d@));
    out
}

/// The source text of the methods on the enum: `concrete_type_id`,
/// `concrete_type_name` and, for `ConcreteConfig`, `config`.
pub fn generate_methods(d: &EnumDescriptor) -> (r: String)
    ensures
        r@ == methods_text(d@),
{
    let mut out = String::new();
    out.append("impl ");
    out.append(d.ident.as_str());
    out.append(" { pub fn concrete_type_id(&self) -> ::core::any::TypeId { match *self { ");
    write_arms(d, ArmList::TypeId, &mut out);
    out.append("} } pub fn concrete_type_name(&self) -> &'static str { match *self { ");
    write_arms(d, ArmList::TypeName, &mut out);
    out.append("} } ");
    let ghost before_payload = out@;
    match d.kind {
        DeriveKind::Concrete => {},
        DeriveKind::ConcreteConfig => {
            out.append("pub fn config(&self) -> &dyn ::core::any::Any { match *self { ");
            write_arms(d, ArmList::Payload, &mut out);
            out.append("} } ");
        },
    }
    assert(out@ =~= before_payload + payload_method_text(d@));
    out.append("}");
    assert(out@ =~= methods_text(d@));
    out
}

/// The source text of everything generated for a checked enum.
pub fn generate_expansion(d: &EnumDescriptor) -> (r: String)
    ensures
        r@ == expansion_text(d@),
{
    let mut out = generate_dispatch_macro(d);
    let methods = generate_methods(d);
    out.append(methods.as_str());
    out
}

} // verus!
