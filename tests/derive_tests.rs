use concrete_type::derive::{
    extract_concrete_type_path, AttrMeta, Attribute, Data, DeriveInput, Fields, Variant,
};
use concrete_type::expand::{derive_concrete, derive_concrete_config};
use concrete_type::derive::ExpandError;
use concrete_type::render::path_to_text;
use concrete_type::syntax::{PathArgs, Segment, TypePath};

fn path(text: &str) -> TypePath {
    let (leading_colon, rest) = match text.strip_prefix("::") {
        Some(r) => (true, r),
        None => (false, text),
    };
    TypePath {
        leading_colon,
        segments: rest
            .split("::")
            .map(|s| Segment { ident: s.to_string(), args: PathArgs::Bare })
            .collect(),
    }
}

fn tag(text: &str) -> Attribute {
    Attribute { path: path("concrete"), meta: AttrMeta::Str { parsed: Some(path(text)) } }
}

fn variant(name: &str, attrs: Vec<Attribute>, fields: Fields) -> Variant {
    Variant { ident: name.to_string(), attrs, fields }
}

fn enum_input(name: &str, variants: Vec<Variant>) -> DeriveInput {
    DeriveInput { ident: name.to_string(), data: Data::Enum(variants) }
}

fn exchange() -> DeriveInput {
    enum_input(
        "Exchange",
        vec![
            variant("Binance", vec![tag("crate::exchanges::Binance")], Fields::Unit),
            variant("Okx", vec![tag("crate::exchanges::Okx")], Fields::Unit),
        ],
    )
}

#[test]
fn test_concrete_config_dispatch() {
    let input = enum_input(
        "ExchangeConfig",
        vec![
            variant("Binance", vec![tag("exchanges::Binance")], Fields::Unnamed(1)),
            variant("Okx", vec![tag("exchanges::Okx")], Fields::Unnamed(1)),
        ],
    );
    let out = match derive_concrete_config(&input) {
        Ok(s) => s,
        Err(e) => panic!("expansion failed: {}", e.message()),
    };
    assert!(out.starts_with("#[macro_export] macro_rules! exchange_config { ($enum_instance:expr; ($type_param:ident, $config_param:ident) => $code_block:block)"));
    assert!(out.contains("ExchangeConfig::Binance(config) => { type $type_param = exchanges::Binance; let $config_param = config; $code_block }, "));
    assert!(out.contains("ExchangeConfig::Okx(config) => { type $type_param = exchanges::Okx; let $config_param = config; $code_block }, "));
    let binance = out.find("=> ::core::any::type_name::<exchanges::Binance>()").unwrap();
    let okx = out.find("=> ::core::any::type_name::<exchanges::Okx>()").unwrap();
    assert!(binance < okx);
}

#[test]
fn exchange_dispatch_binds_each_variant_to_its_type() {
    let out = derive_concrete(&exchange()).ok().unwrap();
    let expected = "#[macro_export] macro_rules! exchange { \
        ($enum_instance:expr; $type_param:ident => $code_block:block) => { match $enum_instance { \
        Exchange::Binance => { type $type_param = $crate::exchanges::Binance; $code_block }, \
        Exchange::Okx => { type $type_param = $crate::exchanges::Okx; $code_block }, \
        } }; } \
        impl Exchange { pub fn concrete_type_id(&self) -> ::core::any::TypeId { match *self { \
        Exchange::Binance => ::core::any::TypeId::of::<crate::exchanges::Binance>(), \
        Exchange::Okx => ::core::any::TypeId::of::<crate::exchanges::Okx>(), \
        } } pub fn concrete_type_name(&self) -> &'static str { match *self { \
        Exchange::Binance => ::core::any::type_name::<crate::exchanges::Binance>(), \
        Exchange::Okx => ::core::any::type_name::<crate::exchanges::Okx>(), \
        } } }";
    assert_eq!(out, expected);
}

#[test]
fn config_unit_variant_binds_unit_payload() {
    let input = enum_input(
        "ExchangeConfig",
        vec![
            variant("Binance", vec![tag("crate::exchanges::Binance")], Fields::Unnamed(1)),
            variant("Okx", vec![tag("crate::exchanges::Okx")], Fields::Unit),
        ],
    );
    let out = derive_concrete_config(&input).ok().unwrap();
    assert!(out.contains("ExchangeConfig::Binance(config) => { type $type_param = $crate::exchanges::Binance; let $config_param = config; $code_block }, "));
    assert!(out.contains("ExchangeConfig::Okx => { type $type_param = $crate::exchanges::Okx; let $config_param = (); $code_block }, "));
    assert!(out.contains("pub fn config(&self) -> &dyn ::core::any::Any { match *self { ExchangeConfig::Binance(ref config) => config, ExchangeConfig::Okx => &(), } }"));
}

#[test]
fn concrete_has_no_payload_accessor() {
    let out = derive_concrete(&exchange()).ok().unwrap();
    assert!(!out.contains("pub fn config"));
}

#[test]
fn empty_enum_gives_empty_dispatch() {
    let out = derive_concrete(&enum_input("Nothing", vec![])).ok().unwrap();
    assert!(out.starts_with("#[macro_export] macro_rules! nothing { ($enum_instance:expr; $type_param:ident => $code_block:block) => { match $enum_instance { } }; } "));
}

#[test]
fn missing_tag_names_the_variant() {
    let input = enum_input(
        "Exchange",
        vec![
            variant("Binance", vec![tag("crate::exchanges::Binance")], Fields::Unit),
            variant("Kraken", vec![], Fields::Unit),
        ],
    );
    match derive_concrete(&input) {
        Err(ExpandError::MissingTag { variant }) => assert_eq!(variant, "Kraken"),
        _ => panic!("expected a missing tag"),
    }
    let e = derive_concrete(&input).err().unwrap();
    assert_eq!(e.message(), "Enum variant `Kraken` is missing the #[concrete = \"...\"] attribute");
}

#[test]
fn unparsable_tag_counts_as_missing() {
    let bad = Attribute { path: path("concrete"), meta: AttrMeta::Str { parsed: None } };
    let input = enum_input("Exchange", vec![variant("Binance", vec![bad], Fields::Unit)]);
    match derive_concrete(&input) {
        Err(ExpandError::MissingTag { variant }) => assert_eq!(variant, "Binance"),
        _ => panic!("expected a missing tag"),
    }
}

#[test]
fn two_field_variant_is_rejected() {
    let input = enum_input(
        "ExchangeConfig",
        vec![
            variant("Binance", vec![tag("crate::exchanges::Binance")], Fields::Unnamed(2)),
            variant("Okx", vec![], Fields::Unit),
        ],
    );
    match derive_concrete_config(&input) {
        Err(ExpandError::BadShape { variant, .. }) => assert_eq!(variant, "Binance"),
        _ => panic!("expected a shape error"),
    }
    let e = derive_concrete_config(&input).err().unwrap();
    assert_eq!(
        e.message(),
        "Enum variant `Binance` must either be a unit variant or have exactly one unnamed field for config"
    );
    let e = derive_concrete(&input).err().unwrap();
    assert_eq!(
        e.message(),
        "Enum variant `Binance` must either be a unit variant or have exactly one unnamed field"
    );
}

#[test]
fn named_field_variant_is_rejected() {
    let input = enum_input(
        "Exchange",
        vec![variant("Binance", vec![tag("crate::exchanges::Binance")], Fields::Named(1))],
    );
    match derive_concrete(&input) {
        Err(ExpandError::BadShape { variant, .. }) => assert_eq!(variant, "Binance"),
        _ => panic!("expected a shape error"),
    }
}

#[test]
fn struct_is_rejected() {
    let input = DeriveInput { ident: "Exchange".to_string(), data: Data::Struct };
    let e = derive_concrete(&input).err().unwrap();
    assert_eq!(e.message(), "Concrete can only be derived for enums or structs with type parameters");
    let e = derive_concrete_config(&input).err().unwrap();
    assert_eq!(e.message(), "ConcreteConfig can only be derived for enums with data");
}

#[test]
fn extractor_reads_the_first_tag_only() {
    let other = Attribute { path: path("doc"), meta: AttrMeta::Str { parsed: Some(path("x::Y")) } };
    let word = Attribute { path: path("concrete"), meta: AttrMeta::Word };
    let attrs = vec![other, word, tag("a::First"), tag("b::Second")];
    let p = extract_concrete_type_path(&attrs).unwrap();
    assert_eq!(path_to_text(p), "a::First");
}

#[test]
fn extractor_without_tag_gives_none() {
    let qualified = Attribute { path: path("::concrete"), meta: AttrMeta::Str { parsed: Some(path("x::Y")) } };
    let attrs = vec![qualified, Attribute { path: path("concrete"), meta: AttrMeta::OtherValue }];
    assert!(extract_concrete_type_path(&attrs).is_none());
}
