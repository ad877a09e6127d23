use concrete_type::render::{path_to_text, type_to_text};
use concrete_type::rewrite::{transform_path_for_macro, transform_type};
use concrete_type::syntax::{GenericArg, PathArgs, QSelf, Segment, TypeNode, TypePath};

fn seg(ident: &str) -> Segment {
    Segment { ident: ident.to_string(), args: PathArgs::Bare }
}

fn seg_with(ident: &str, args: Vec<GenericArg>) -> Segment {
    Segment { ident: ident.to_string(), args: PathArgs::Angle(args) }
}

fn path_of(segments: Vec<Segment>) -> TypePath {
    TypePath { leading_colon: false, segments }
}

fn simple(text: &str) -> TypePath {
    path_of(text.split("::").map(seg).collect())
}

fn ty(text: &str) -> TypeNode {
    TypeNode::Path { qself: None, path: simple(text) }
}

fn rewritten(p: &TypePath) -> String {
    path_to_text(&transform_path_for_macro(p))
}

#[test]
fn local_root_becomes_macro_root() {
    assert_eq!(rewritten(&simple("crate::exchanges::Binance")), "$crate::exchanges::Binance");
}

#[test]
fn external_path_is_unchanged() {
    let p = TypePath {
        leading_colon: true,
        segments: vec![
            seg("std"),
            seg("collections"),
            seg_with("HashMap", vec![GenericArg::Type(ty("String")), GenericArg::Type(ty("u64"))]),
        ],
    };
    assert_eq!(path_to_text(&p), "::std::collections::HashMap<String, u64>");
    assert_eq!(rewritten(&p), path_to_text(&p));
}

#[test]
fn both_generic_arguments_are_rewritten() {
    let p = path_of(vec![seg_with(
        "Outer",
        vec![GenericArg::Type(ty("crate::Inner")), GenericArg::Type(ty("crate::Other"))],
    )]);
    assert_eq!(rewritten(&p), "Outer<$crate::Inner, $crate::Other>");
}

#[test]
fn nested_generics_are_rewritten() {
    let inner = TypeNode::Path {
        qself: None,
        path: path_of(vec![seg("crate"), seg_with("Wrapper", vec![GenericArg::Type(ty("crate::Inner"))])]),
    };
    let p = path_of(vec![
        seg("crate"),
        seg("a"),
        seg_with("Outer", vec![GenericArg::Lifetime("'a".to_string()), GenericArg::Type(inner), GenericArg::Const("3".to_string())]),
    ]);
    assert_eq!(rewritten(&p), "$crate::a::Outer<'a, $crate::Wrapper<$crate::Inner>, 3>");
}

#[test]
fn bare_crate_is_kept() {
    assert_eq!(rewritten(&simple("crate")), "crate");
}

#[test]
fn crate_later_in_path_is_kept() {
    assert_eq!(rewritten(&simple("other::crate::Thing")), "other::crate::Thing");
}

#[test]
fn compound_types_are_rewritten() {
    let t = TypeNode::Tuple(vec![
        TypeNode::Reference {
            lifetime: Some("'a".to_string()),
            mutable: true,
            elem: Box::new(ty("crate::A")),
        },
        TypeNode::Slice(Box::new(ty("crate::B"))),
        TypeNode::Array { elem: Box::new(ty("crate::C")), len: "4".to_string() },
        TypeNode::Ptr { mutable: false, elem: Box::new(ty("crate::D")) },
        TypeNode::Verbatim("fn(crate::E)".to_string()),
    ]);
    assert_eq!(
        type_to_text(&transform_type(&t)),
        "(&'a mut $crate::A, [$crate::B], [$crate::C; 4], *const $crate::D, fn(crate::E))"
    );
}

#[test]
fn one_element_tuple_keeps_its_comma() {
    let t = TypeNode::Tuple(vec![ty("crate::A")]);
    assert_eq!(type_to_text(&transform_type(&t)), "($crate::A,)");
}

#[test]
fn fn_trait_arguments_are_rewritten() {
    let p = path_of(vec![Segment {
        ident: "Fn".to_string(),
        args: PathArgs::Paren {
            inputs: vec![ty("crate::In"), ty("u8")],
            output: Some(Box::new(ty("crate::Out"))),
        },
    }]);
    assert_eq!(rewritten(&p), "Fn($crate::In, u8) -> $crate::Out");
}

#[test]
fn qualified_path_is_rewritten() {
    let t = TypeNode::Path {
        qself: Some(QSelf { ty: Box::new(ty("crate::S")), position: 2 }),
        path: simple("crate::Tr::Assoc"),
    };
    assert_eq!(type_to_text(&t), "<crate::S as crate::Tr>::Assoc");
    assert_eq!(type_to_text(&transform_type(&t)), "<$crate::S as $crate::Tr>::Assoc");
}

#[test]
fn duplicate_is_equal() {
    let p = path_of(vec![seg("crate"), seg_with("W", vec![GenericArg::Type(ty("crate::I"))])]);
    assert_eq!(path_to_text(&p.duplicate()), path_to_text(&p));
}

#[test]
fn associated_type_binding_is_rewritten() {
    let p = path_of(vec![seg_with(
        "Iterator",
        vec![GenericArg::AssocType { name: "Item".to_string(), ty: ty("crate::X") }],
    )]);
    assert_eq!(path_to_text(&p), "Iterator<Item = crate::X>");
    assert_eq!(rewritten(&p), "Iterator<Item = $crate::X>");
}

#[test]
fn fn_pointer_and_parenthesized_types_are_rewritten() {
    let f = TypeNode::BareFn { inputs: vec![ty("crate::A"), ty("u8")], output: Some(Box::new(ty("crate::B"))) };
    assert_eq!(type_to_text(&transform_type(&f)), "fn($crate::A, u8) -> $crate::B");
    let g = TypeNode::BareFn { inputs: vec![], output: None };
    assert_eq!(type_to_text(&transform_type(&g)), "fn()");
    let p = TypeNode::Paren(Box::new(ty("crate::C")));
    assert_eq!(type_to_text(&transform_type(&p)), "($crate::C)");
}

#[test]
fn rewriting_twice_changes_nothing_more() {
    let p = path_of(vec![
        seg("crate"),
        seg_with("Outer", vec![GenericArg::Type(ty("crate::Inner")), GenericArg::AssocType { name: "Item".to_string(), ty: ty("crate::X") }]),
    ]);
    let once = transform_path_for_macro(&p);
    let twice = transform_path_for_macro(&once);
    assert_eq!(path_to_text(&once), "$crate::Outer<$crate::Inner, Item = $crate::X>");
    assert_eq!(path_to_text(&twice), path_to_text(&once));
}
