use concrete_type::naming::{
    config_macro_name_from_snake, dispatch_macro_name, strip_config_suffix, DeriveKind,
};
use concrete_type::text::{text_ends_with, text_eq};

#[test]
fn concrete_macro_name_is_snake_case() {
    assert_eq!(dispatch_macro_name(DeriveKind::Concrete, "StrategyKind"), "strategy_kind");
    assert_eq!(dispatch_macro_name(DeriveKind::Concrete, "Exchange"), "exchange");
}

#[test]
fn config_macro_name_drops_config_suffix() {
    assert_eq!(dispatch_macro_name(DeriveKind::ConcreteConfig, "ExchangeConfig"), "exchange_config");
    assert_eq!(dispatch_macro_name(DeriveKind::ConcreteConfig, "Exchange"), "exchange_config");
    assert_eq!(dispatch_macro_name(DeriveKind::ConcreteConfig, "MarketDataConfig"), "market_data_config");
}

#[test]
fn strip_config_suffix_cases() {
    assert_eq!(strip_config_suffix("ExchangeConfig"), "Exchange");
    assert_eq!(strip_config_suffix("Exchange"), "Exchange");
    assert_eq!(strip_config_suffix("Config"), "");
    assert_eq!(strip_config_suffix("ConfigExchange"), "ConfigExchange");
}

#[test]
fn config_name_from_snake() {
    assert_eq!(config_macro_name_from_snake("exchange"), "exchange_config");
}

#[test]
fn text_helpers() {
    assert!(text_eq("crate", "crate"));
    assert!(!text_eq("crate", "krate"));
    assert!(!text_eq("crate", "crates"));
    assert!(text_ends_with("ExchangeConfig", "Config"));
    assert!(!text_ends_with("Conf", "Config"));
}
