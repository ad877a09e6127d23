use concrete_type::combine::{
    combine_dispatch_macros, combine_snakes, combined_macro_name, combined_name_from_snakes,
    CombineError,
};

fn names(v: &[&str]) -> Vec<String> {
    v.iter().map(|s| s.to_string()).collect()
}

#[test]
fn combined_macro_for_exchange_and_strategy() {
    let out = combine_dispatch_macros(&names(&["Exchange", "Strategy"])).unwrap();
    assert_eq!(
        out,
        "#[macro_export] macro_rules! dispatch_exchange_strategy { \
         ($first_var:expr, $second_var:expr; ($first_type:ident, $second_type:ident) => $code_block:block) => { \
         exchange!($first_var; $first_type => { strategy!($second_var; $second_type => { $code_block }) }) }; } "
    );
}

#[test]
fn combined_name_depends_on_order() {
    let ab = combined_macro_name(&names(&["Exchange", "Strategy"]));
    let ba = combined_macro_name(&names(&["Strategy", "Exchange"]));
    assert_eq!(ab, "dispatch_exchange_strategy");
    assert_eq!(ba, "dispatch_strategy_exchange");
    assert_ne!(ab, ba);
    assert!(combine_dispatch_macros(&names(&["Strategy", "Exchange"])).is_ok());
}

#[test]
fn combined_name_uses_snake_case() {
    assert_eq!(
        combined_macro_name(&names(&["StrategyKind", "TimeFrame", "Market"])),
        "dispatch_strategy_kind_time_frame_market"
    );
}

#[test]
fn five_enums_nest_five_calls() {
    let out = combine_snakes(&names(&["a", "b", "c", "d", "e"])).unwrap();
    assert!(out.contains("e!($fifth_var; $fifth_type => { $code_block }) }) }) }) })"));
    assert!(out.starts_with("#[macro_export] macro_rules! dispatch_a_b_c_d_e { ($first_var:expr, $second_var:expr, $third_var:expr, $fourth_var:expr, $fifth_var:expr; ($first_type:ident, $second_type:ident, $third_type:ident, $fourth_type:ident, $fifth_type:ident)"));
}

#[test]
fn unsupported_counts_are_rejected() {
    assert_eq!(combine_snakes(&names(&["a"])), Err(CombineError::UnsupportedCount { count: 1 }));
    assert_eq!(combine_snakes(&names(&[])), Err(CombineError::UnsupportedCount { count: 0 }));
    assert_eq!(
        combine_dispatch_macros(&names(&["A", "B", "C", "D", "E", "F"])),
        Err(CombineError::UnsupportedCount { count: 6 })
    );
}

#[test]
fn name_from_snakes() {
    assert_eq!(combined_name_from_snakes(&names(&["x", "y_z"])), "dispatch_x_y_z");
}
