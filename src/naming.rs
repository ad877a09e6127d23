//! Names of the generated macros.

use convert_case::{Case, Casing};
use crate::text::{ends_with, text_ends_with};
use vstd::prelude::*;

verus! {

/// The snake_case form of an identifier, as convert_case computes it.
pub uninterp spec fn snake_of(s: Seq<char>) -> Seq<char>;

/// Relies on convert_case's `Casing::to_case` with `Case::Snake`: the result
/// is a function of the characters of `s` alone.
#[verifier::external_body]
pub(crate) fn snake_case(s: &str) -> (r: String)
    ensures
        r@ == snake_of(s@),
{
    s.to_case(Case::Snake)
}

/// Which derive an enum carries: `Concrete` maps each variant to a type;
/// `ConcreteConfig` also hands the variant's payload to the dispatched code.
#[derive(Clone, Copy, PartialEq, Eq, Structural, Debug)]
pub enum DeriveKind {
    Concrete,
    ConcreteConfig,
}

/// `name` without a trailing `Config`, which would only repeat the suffix
/// that the macro name of a config enum carries anyway.
pub open spec fn config_base(name: Seq<char>) -> Seq<char> {
    if ends_with(name, "Config"@) {
        name.subrange(0, name.len() - "Config"@.len())
    } else {
        name
    }
}

/// The name of the dispatch macro generated for an enum named `ident`.
pub open spec fn macro_name_of(kind: DeriveKind, ident: Seq<char>) -> Seq<char> {
    match kind {
        DeriveKind::Concrete => snake_of(ident),
        DeriveKind::ConcreteConfig => snake_of(config_base(ident)) + "_config"@,
    }
}

/// Drops a trailing `Config` from `name`.
pub fn strip_config_suffix(name: &str) -> (r: &str)
    ensures
        r@ == config_base(name@),
{
    let suffix = "Config";
    if text_ends_with(name, suffix) {
        let n = name.unicode_len();
        let m = suffix.unicode_len();
        name.substring_char(0, n - m)
    } else {
        name
    }
}

/// Completes the name of a config dispatch macro from the snake_case form of
/// the enum's name (without `Config`).
pub fn config_macro_name_from_snake(base_snake: &str) -> (r: String)
    ensures
        r@ == base_snake@ + "_config"@,
{
    let mut r = String::from_str(base_snake);
    r.append("_config");
    r
}

/// The name of the dispatch macro for an enum named `ident`: its snake_case
/// form (`StrategyKind` gives `strategy_kind`); for a config enum, the
/// snake_case form without `Config`, followed by `_config`
/// (`ExchangeConfig` gives `exchange_config`).
pub fn dispatch_macro_name(kind: DeriveKind, ident: &str) -> (r: String)
    ensures
        r@ == macro_name_of(kind, ident@),
{
    match kind {
        DeriveKind::Concrete => snake_case(ident),
        DeriveKind::ConcreteConfig => {
            let base = snake_case(strip_config_suffix(ident));
            config_macro_name_from_snake(base.as_str())
        },
    }
}

} // verus!
