//! The two derives: from the annotated item to the generated source text, or
//! to the error that stops the expansion.

use crate::codegen::{
    arm_texts, expansion_text, generate_expansion, payload_binding, type_binding, variant_pattern,
    ArmList,
};
use crate::derive::{
    check_variant, classify, concrete_tag, describe, describe_enum, payload_of, DeriveInput,
    DeriveInputV, ExpandError, ExpandErrorV, VariantMappingV, VariantV,
};
use crate::naming::DeriveKind;
use crate::render::path_text;
use crate::rewrite::rewrite_path;
use vstd::prelude::*;

verus! {

/// The whole expansion of an item under a derive.
pub open spec fn expand(input: DeriveInputV, kind: DeriveKind) -> Result<Seq<char>, ExpandErrorV> {
    match describe(input, kind) {
        Ok(d) => Ok(expansion_text(d)),
        Err(e) => Err(e),
    }
}

fn expand_with(input: &DeriveInput, kind: DeriveKind) -> (r: Result<String, ExpandError>)
    ensures
        match r {
            Ok(s) => expand(input@, kind) == Ok::<_, ExpandErrorV>(s@),
            Err(e) => expand(input@, kind) == Err::<Seq<char>, _>(e@),
        },
{
    match describe_enum(input, kind) {
        Ok(d) => Ok(generate_expansion(&d)),
        Err(e) => Err(e),
    }
}

/// Expands `#[derive(Concrete)]`: a dispatch macro named after the enum in
/// snake_case, taking `(value; T => block)`, with one arm per variant that
/// binds `T` to the variant's type; and the methods `concrete_type_id` and
/// `concrete_type_name`. Fails on a struct or union, and on the first variant
/// without a tag or with another shape than unit or one unnamed field.
pub fn derive_concrete(input: &DeriveInput) -> (r: Result<String, ExpandError>)
    ensures
        match r {
            Ok(s) => expand(input@, DeriveKind::Concrete) == Ok::<_, ExpandErrorV>(s@),
            Err(e) => expand(input@, DeriveKind::Concrete) == Err::<Seq<char>, _>(e@),
        },
{
    expand_with(input, DeriveKind::Concrete)
}

/// Expands `#[derive(ConcreteConfig)]`: a dispatch macro named
/// `<name without Config>_config`, taking `(value; (T, cfg) => block)`, whose
/// arms bind `T` to the variant's type and `cfg` to its payload, or to `()`
/// for a unit variant; the methods `concrete_type_id`, `concrete_type_name`
/// and `config`. Fails as `derive_concrete` does.
pub fn derive_concrete_config(input: &DeriveInput) -> (r: Result<String, ExpandError>)
    ensures
        match r {
            Ok(s) => expand(input@, DeriveKind::ConcreteConfig) == Ok::<_, ExpandErrorV>(s@),
            Err(e) => expand(input@, DeriveKind::ConcreteConfig) == Err::<Seq<char>, _>(e@),
        },
{
    expand_with(input, DeriveKind::ConcreteConfig)
}

/// Every variant passes its check.
pub open spec fn all_variants_valid(vs: Seq<VariantV>, kind: DeriveKind) -> bool {
    forall|i: int| 0 <= i < vs.len() ==> (#[trigger] check_variant(vs[i], kind)) is Ok
}

proof fn lemma_classify_valid(vs: Seq<VariantV>, kind: DeriveKind)
    requires
        all_variants_valid(vs, kind),
    ensures
        classify(vs, kind) is Ok,
        classify(vs, kind)->Ok_0.len() == vs.len(),
        forall|i: int|
            0 <= i < vs.len() ==> classify(vs, kind)->Ok_0[i] == (#[trigger] check_variant(vs[i], kind))->Ok_0,
    decreases vs.len(),
{
    if vs.len() > 0 {
        let init = vs.drop_last();
        assert forall|i: int| 0 <= i < init.len() implies (#[trigger] check_variant(init[i], kind)) is Ok by {
            assert(init[i] == vs[i]);
        }
        lemma_classify_valid(init, kind);
        assert(check_variant(vs[vs.len() - 1], kind) is Ok);
        assert forall|i: int| 0 <= i < vs.len() implies classify(vs, kind)->Ok_0[i] == (#[trigger] check_variant(
            vs[i], kind,))->Ok_0 by {
            if i < vs.len() - 1 {
                assert(init[i] == vs[i]);
            }
        }
    }
}

proof fn lemma_classify_first_failure(vs: Seq<VariantV>, i: int, kind: DeriveKind)
    requires
        0 <= i < vs.len(),
        all_variants_valid(vs.take(i), kind),
        check_variant(vs[i], kind) is Err,
    ensures
        classify(vs, kind) == Err::<Seq<VariantMappingV>, _>(check_variant(vs[i], kind)->Err_0),
    decreases vs.len(),
{
    if i < vs.len() - 1 {
        assert(vs.drop_last().take(i) =~= vs.take(i));
        assert(vs.drop_last()[i] == vs[i]);
        lemma_classify_first_failure(vs.drop_last(), i, kind);
    } else {
        assert(vs.drop_last() =~= vs.take(i));
        lemma_classify_valid(vs.drop_last(), kind);
    }
}

/// An enum whose variants all carry a tag naming a type path, each being a
/// unit variant or having one unnamed field, expands. Its dispatch macro has
/// one arm per variant, in order, and the arm of each variant binds the type
/// placeholder to exactly the declared path (rewritten for hygiene).
pub proof fn lemma_valid_enum_expands(input: DeriveInputV, kind: DeriveKind)
    requires
        input.data is Enum,
        all_variants_valid(input.data->Enum_0, kind),
    ensures
        describe(input, kind) is Ok,
        ({
            let vs = input.data->Enum_0;
            let d = describe(input, kind)->Ok_0;
            &&& expand(input, kind) == Ok::<_, ExpandErrorV>(expansion_text(d))
            &&& d.mappings.len() == vs.len()
            &&& forall|i: int|
                0 <= i < vs.len() ==> {
                    &&& d.mappings[i].variant == vs[i].ident
                    &&& concrete_tag(vs[i].attrs) == Some(#[trigger] d.mappings[i].concrete)
                    &&& Some(d.mappings[i].payload) == payload_of(vs[i].fields)
                    &&& contains(
                        arm_texts(d, ArmList::Dispatch)[i],
                        type_binding(path_text(rewrite_path(d.mappings[i].concrete))),
                    )
                }
        }),
{
    let vs = input.data->Enum_0;
    lemma_classify_valid(vs, kind);
    let d = describe(input, kind)->Ok_0;
    assert(d.mappings == classify(vs, kind)->Ok_0);
    assert(expand(input, kind) == Ok::<_, ExpandErrorV>(expansion_text(d)));
    assert forall|i: int| 0 <= i < vs.len() implies #[trigger] d.mappings[i] == check_variant(vs[i], kind)->Ok_0 by {}
    assert forall|i: int| 0 <= i < vs.len() implies contains(
        arm_texts(d, ArmList::Dispatch)[i],
        type_binding(path_text(rewrite_path(#[trigger] d.mappings[i].concrete))),
    ) by {
        let m = d.mappings[i];
        let pre = variant_pattern(
            d.ident,
            m,
            match kind {
                DeriveKind::Concrete => ".."@,
                DeriveKind::ConcreteConfig => "config"@,
            },
        ) + " => { "@;
        let mid = type_binding(path_text(rewrite_path(m.concrete)));
        let post = " "@ + payload_binding(kind, m) + "$code_block }, "@;
        let arm = arm_texts(d, ArmList::Dispatch)[i];
        assert(arm =~= pre + mid + post);
        let k = pre.len() as int;
        assert(arm.subrange(k, k + mid.len()) =~= mid);
    }
}

/// `piece` occurs in `s` as a contiguous run.
pub open spec fn contains(s: Seq<char>, piece: Seq<char>) -> bool {
    exists|k: int| 0 <= k && k + piece.len() <= s.len() && #[trigger] s.subrange(k, k + piece.len()) == piece
}

proof fn lemma_classify_fails_if_any(vs: Seq<VariantV>, i: int, kind: DeriveKind)
    requires
        0 <= i < vs.len(),
        check_variant(vs[i], kind) is Err,
    ensures
        classify(vs, kind) is Err,
    decreases vs.len(),
{
    if i < vs.len() - 1 {
        assert(vs.drop_last()[i] == vs[i]);
        lemma_classify_fails_if_any(vs.drop_last(), i, kind);
    }
}

/// A variant without a tag stops the expansion of its enum. When every
/// variant before it passes its check, the error is the missing tag, and it
/// names that variant.
pub proof fn lemma_missing_tag_fails(input: DeriveInputV, kind: DeriveKind, i: int)
    requires
        input.data is Enum,
        0 <= i < input.data->Enum_0.len(),
        concrete_tag(input.data->Enum_0[i].attrs) is None,
    ensures
        expand(input, kind) is Err,
        all_variants_valid(input.data->Enum_0.take(i), kind) ==> expand(input, kind)
            == Err::<Seq<char>, _>(ExpandErrorV::MissingTag { variant: input.data->Enum_0[i].ident }),
{
    let vs = input.data->Enum_0;
    lemma_classify_fails_if_any(vs, i, kind);
    if all_variants_valid(vs.take(i), kind) {
        lemma_classify_first_failure(vs, i, kind);
    }
}

/// A tagged variant with named fields, or with a number of unnamed fields
/// other than one, stops the expansion of its enum. When every variant before
/// it passes its check, the error is its shape, and it names that variant.
pub proof fn lemma_bad_shape_fails(input: DeriveInputV, kind: DeriveKind, i: int)
    requires
        input.data is Enum,
        0 <= i < input.data->Enum_0.len(),
        payload_of(input.data->Enum_0[i].fields) is None,
    ensures
        expand(input, kind) is Err,
        concrete_tag(input.data->Enum_0[i].attrs) is Some && all_variants_valid(input.data->Enum_0.take(i), kind)
            ==> expand(input, kind)
            == Err::<Seq<char>, _>(ExpandErrorV::BadShape { variant: input.data->Enum_0[i].ident, kind }),
{
    let vs = input.data->Enum_0;
    lemma_classify_fails_if_any(vs, i, kind);
    if all_variants_valid(vs.take(i), kind) {
        lemma_classify_first_failure(vs, i, kind);
    }
}

/// The diagnostic for an error; it names the offending variant.
pub open spec fn error_message(e: ExpandErrorV) -> Seq<char> {
    match e {
        ExpandErrorV::NotAnEnum { kind, .. } => match kind {
            DeriveKind::Concrete => "Concrete can only be derived for enums or structs with type parameters"@,
            DeriveKind::ConcreteConfig => "ConcreteConfig can only be derived for enums with data"@,
        },
        ExpandErrorV::MissingTag { variant } => "Enum variant `"@ + variant
            + "` is missing the #[concrete = \"...\"] attribute"@,
        ExpandErrorV::BadShape { variant, kind } => "Enum variant `"@ + variant
            + "` must either be a unit variant or have exactly one unnamed field"@ + match kind {
            DeriveKind::Concrete => Seq::empty(),
            DeriveKind::ConcreteConfig => " for config"@,
        },
    }
}

impl ExpandError {
    /// The diagnostic to report for this error.
    pub fn message(&self) -> (r: String)
        ensures
            r@ == error_message(self@),
    {
        match self {
            ExpandError::NotAnEnum { kind, .. } => match kind {
                DeriveKind::Concrete => String::from_str(
                    "Concrete can only be derived for enums or structs with type parameters",
                ),
                DeriveKind::ConcreteConfig => String::from_str(
                    "ConcreteConfig can only be derived for enums with data",
                ),
            },
            ExpandError::MissingTag { variant } => {
                let mut r = String::from_str("Enum variant `");
                r.append(variant.as_str());
                r.append("` is missing the #[concrete = \"...\"] attribute");
                r
            },
            ExpandError::BadShape { variant, kind } => {
                let mut r = String::from_str("Enum variant `");
                r.append(variant.as_str());
                r.append("` must either be a unit variant or have exactly one unnamed field");
                let ghost before = r@;
                match kind {
                    DeriveKind::Concrete => {},
                    DeriveKind::ConcreteConfig => r.append(" for config"),
                }
                assert(r@ =~= before + match kind {
                    DeriveKind::Concrete => Seq::empty(),
                    DeriveKind::ConcreteConfig => " for config"@,
                });
                r
            },
        }
    }
}

} // verus!
