use cocoa_utils::property::{
    append_cocoatype_instance_property, append_cocoatype_type_property, append_id_instance_property,
    append_id_type_property, append_instance_property, append_string_instance_property,
    append_string_type_property, append_type_property, append_value_instance_property,
    append_value_type_property, classify, cocoa_instance_property, cocoa_type_property, declared_shape,
    get_option_type, get_return_type, is_id, is_std_string, is_value_type, Behavior,
    CocoaInstancePropertyMeta, CocoaTypePropertyMeta, GenerationError, GenericArgument, Item, ItemFn,
    PathArguments, PathSegment, PropertyGetter, ReturnType, Scope, Shape, Stmt, Token, TypeExpr,
};

fn named(name: &str) -> TypeExpr {
    TypeExpr::Path(vec![PathSegment { ident: name.to_string(), arguments: PathArguments::Empty }])
}

fn option_of(inner: TypeExpr) -> TypeExpr {
    TypeExpr::Path(vec![PathSegment {
        ident: "Option".to_string(),
        arguments: PathArguments::AngleBracketed(vec![GenericArgument::Type(inner)]),
    }])
}

fn function(output: ReturnType) -> ItemFn {
    ItemFn { output, stmts: Vec::new() }
}

fn ident(name: &str) -> Token {
    Token::Ident(name.to_string())
}

fn getter(scope: Scope, selector: &str, shape: Shape, optional: bool) -> Stmt {
    Stmt::Generated(PropertyGetter { scope, selector: selector.to_string(), shape, optional })
}

const SCALARS: [&str; 15] = [
    "u8", "u16", "u32", "u64", "u128", "i8", "i16", "i32", "i64", "i128", "f32", "f64", "bool", "isize", "usize",
];

#[test]
fn string_is_recognised_by_name() {
    assert!(is_std_string(&named("String")));
    assert!(!is_std_string(&named("string")));
    assert!(!is_std_string(&named("Id")));
    assert!(!is_std_string(&TypeExpr::Other));
    assert!(!is_std_string(&TypeExpr::Path(Vec::new())));
    let qualified = TypeExpr::Path(vec![
        PathSegment { ident: "std".to_string(), arguments: PathArguments::Empty },
        PathSegment { ident: "String".to_string(), arguments: PathArguments::Empty },
    ]);
    assert!(!is_std_string(&qualified));
}

#[test]
fn id_is_recognised_by_name() {
    assert!(is_id(&named("Id")));
    assert!(!is_id(&named("ID")));
    assert!(!is_id(&named("String")));
    assert!(!is_id(&TypeExpr::Other));
}

#[test]
fn scalars_are_recognised_by_name() {
    for name in SCALARS {
        assert!(is_value_type(&named(name)), "{}", name);
        assert!(!is_std_string(&named(name)));
        assert!(!is_id(&named(name)));
    }
    for name in ["u256", "i0", "u", "char", "str", "String", "Id", "Bool", "URL", ""] {
        assert!(!is_value_type(&named(name)), "{}", name);
    }
    assert!(!is_value_type(&TypeExpr::Other));
}

#[test]
fn option_is_stripped_once() {
    let ty = option_of(named("String"));
    assert_eq!(get_option_type(&ty), Some(&named("String")));
    let nested = option_of(option_of(named("u8")));
    assert_eq!(get_option_type(&nested), Some(&option_of(named("u8"))));
    assert_eq!(get_option_type(&named("String")), None);
    assert_eq!(get_option_type(&named("Option")), None);
    assert_eq!(get_option_type(&TypeExpr::Other), None);
}

#[test]
fn option_needs_exactly_one_type_argument() {
    let two = TypeExpr::Path(vec![PathSegment {
        ident: "Option".to_string(),
        arguments: PathArguments::AngleBracketed(vec![
            GenericArgument::Type(named("u8")),
            GenericArgument::Type(named("u8")),
        ]),
    }]);
    assert_eq!(get_option_type(&two), None);
    let none = TypeExpr::Path(vec![PathSegment {
        ident: "Option".to_string(),
        arguments: PathArguments::AngleBracketed(Vec::new()),
    }]);
    assert_eq!(get_option_type(&none), None);
    let lifetime = TypeExpr::Path(vec![PathSegment {
        ident: "Option".to_string(),
        arguments: PathArguments::AngleBracketed(vec![GenericArgument::Other]),
    }]);
    assert_eq!(get_option_type(&lifetime), None);
    let round = TypeExpr::Path(vec![PathSegment {
        ident: "Option".to_string(),
        arguments: PathArguments::Parenthesized,
    }]);
    assert_eq!(get_option_type(&round), None);
    let other = TypeExpr::Path(vec![PathSegment {
        ident: "Vec".to_string(),
        arguments: PathArguments::AngleBracketed(vec![GenericArgument::Type(named("u8"))]),
    }]);
    assert_eq!(get_option_type(&other), None);
}

#[test]
fn integers_of_128_bits_are_scalars() {
    for name in ["u128", "i128"] {
        assert!(is_value_type(&named(name)));
        assert_eq!(classify(&named(name)), Shape::Scalar);
        assert_eq!(declared_shape(&ReturnType::Type(named(name))), Ok((Shape::Scalar, false)));
        let mut f = function(ReturnType::Type(named(name)));
        let meta = CocoaInstancePropertyMeta { selector: "value".to_string() };
        assert_eq!(append_instance_property(&mut f, &meta), Ok(()));
        let meta = CocoaTypePropertyMeta { class_name: "NSNumber".to_string(), selector: "value".to_string() };
        assert_eq!(append_type_property(&mut f, &meta), Ok(()));
        assert_eq!(
            f.stmts,
            vec![
                getter(Scope::Instance, "value", Shape::Scalar, false),
                getter(Scope::Type("NSNumber".to_string()), "value", Shape::Scalar, false),
            ]
        );
        let mut f = function(ReturnType::Type(option_of(named(name))));
        let meta = CocoaInstancePropertyMeta { selector: "value".to_string() };
        assert_eq!(append_instance_property(&mut f, &meta), Err(GenerationError::OptionalScalar));
        let meta = CocoaTypePropertyMeta { class_name: "NSNumber".to_string(), selector: "value".to_string() };
        assert_eq!(append_type_property(&mut f, &meta), Err(GenerationError::OptionalScalar));
        assert!(f.stmts.is_empty());
    }
}

#[test]
fn every_type_has_one_shape() {
    assert_eq!(classify(&named("String")), Shape::Text);
    assert_eq!(classify(&named("Id")), Shape::Handle);
    for name in SCALARS {
        assert_eq!(classify(&named(name)), Shape::Scalar);
    }
    assert_eq!(classify(&named("URL")), Shape::Wrapped);
    assert_eq!(classify(&named("RunningApplication")), Shape::Wrapped);
    assert_eq!(classify(&TypeExpr::Other), Shape::Wrapped);
    assert_eq!(classify(&option_of(named("String"))), Shape::Wrapped);
}

#[test]
fn return_type_must_be_there() {
    assert_eq!(get_return_type(&ReturnType::Default), Err(GenerationError::MissingReturnType));
    assert_eq!(get_return_type(&ReturnType::Type(named("Id"))), Ok(&named("Id")));
    assert_eq!(declared_shape(&ReturnType::Default), Err(GenerationError::MissingReturnType));
    assert_eq!(declared_shape(&ReturnType::Type(named("Id"))), Ok((Shape::Handle, false)));
    assert_eq!(declared_shape(&ReturnType::Type(option_of(named("URL")))), Ok((Shape::Wrapped, true)));
    assert_eq!(declared_shape(&ReturnType::Type(option_of(named("f64")))), Ok((Shape::Scalar, true)));
}

#[test]
fn the_table_gives_one_behavior_for_every_pair() {
    let rows = [
        (Shape::Text, Behavior::Decode),
        (Shape::Handle, Behavior::PassHandle),
        (Shape::Wrapped, Behavior::Wrap),
    ];
    for (shape, present) in rows {
        for optional in [false, true] {
            let g = PropertyGetter { scope: Scope::Instance, selector: "x".to_string(), shape, optional };
            assert_eq!(g.behavior(false), present);
            assert_eq!(g.behavior(true), if optional { Behavior::Absent } else { Behavior::Fatal });
        }
    }
    let scalar =
        PropertyGetter { scope: Scope::Instance, selector: "x".to_string(), shape: Shape::Scalar, optional: false };
    assert_eq!(scalar.behavior(false), Behavior::PassScalar);
    assert_eq!(scalar.behavior(true), Behavior::PassScalar);
}

#[test]
fn only_text_getters_use_a_pool() {
    for (shape, pooled) in
        [(Shape::Text, true), (Shape::Handle, false), (Shape::Scalar, false), (Shape::Wrapped, false)]
    {
        let g = PropertyGetter { scope: Scope::Instance, selector: "x".to_string(), shape, optional: false };
        assert_eq!(g.uses_pool(), pooled);
    }
}

#[test]
fn instance_property_appends_the_getter_of_the_declared_shape() {
    let cases = [
        (named("String"), Shape::Text, false),
        (option_of(named("String")), Shape::Text, true),
        (named("Id"), Shape::Handle, false),
        (option_of(named("Id")), Shape::Handle, true),
        (named("usize"), Shape::Scalar, false),
        (named("URL"), Shape::Wrapped, false),
        (option_of(named("URL")), Shape::Wrapped, true),
        (TypeExpr::Other, Shape::Wrapped, false),
    ];
    for (ty, shape, optional) in cases {
        let mut f = ItemFn { output: ReturnType::Type(ty), stmts: vec![Stmt::Written] };
        let meta = CocoaInstancePropertyMeta { selector: "bundleURL".to_string() };
        assert_eq!(append_instance_property(&mut f, &meta), Ok(()));
        assert_eq!(f.stmts, vec![Stmt::Written, getter(Scope::Instance, "bundleURL", shape, optional)]);
    }
}

#[test]
fn type_property_appends_the_getter_of_the_declared_shape() {
    let cases = [
        (named("String"), Shape::Text, false),
        (option_of(named("String")), Shape::Text, true),
        (named("Id"), Shape::Handle, false),
        (option_of(named("Id")), Shape::Handle, true),
        (named("bool"), Shape::Scalar, false),
        (named("Workspace"), Shape::Wrapped, false),
        (option_of(named("NotificationCenter")), Shape::Wrapped, true),
    ];
    for (ty, shape, optional) in cases {
        let mut f = function(ReturnType::Type(ty));
        let meta = CocoaTypePropertyMeta { class_name: "NSWorkspace".to_string(), selector: "sharedWorkspace".to_string() };
        assert_eq!(append_type_property(&mut f, &meta), Ok(()));
        assert_eq!(
            f.stmts,
            vec![getter(Scope::Type("NSWorkspace".to_string()), "sharedWorkspace", shape, optional)]
        );
    }
}

#[test]
fn an_optional_scalar_is_always_refused() {
    for name in SCALARS {
        let mut f = ItemFn { output: ReturnType::Type(option_of(named(name))), stmts: vec![Stmt::Written] };
        let meta = CocoaInstancePropertyMeta { selector: "port".to_string() };
        assert_eq!(append_instance_property(&mut f, &meta), Err(GenerationError::OptionalScalar));
        assert_eq!(f.stmts, vec![Stmt::Written]);
        let meta = CocoaTypePropertyMeta { class_name: "NSURL".to_string(), selector: "port".to_string() };
        assert_eq!(append_type_property(&mut f, &meta), Err(GenerationError::OptionalScalar));
        assert_eq!(f.stmts, vec![Stmt::Written]);
    }
}

#[test]
fn a_function_without_return_type_is_refused() {
    let mut f = function(ReturnType::Default);
    let meta = CocoaInstancePropertyMeta { selector: "run".to_string() };
    assert_eq!(append_instance_property(&mut f, &meta), Err(GenerationError::MissingReturnType));
    assert!(f.stmts.is_empty());
    let meta = CocoaTypePropertyMeta { class_name: "NSApp".to_string(), selector: "run".to_string() };
    assert_eq!(append_type_property(&mut f, &meta), Err(GenerationError::MissingReturnType));
    assert!(f.stmts.is_empty());
}

#[test]
fn each_appender_appends_its_getter() {
    let mut f = function(ReturnType::Type(named("String")));
    append_string_instance_property(&mut f, "host", true);
    append_string_instance_property(&mut f, "path", false);
    append_value_instance_property(&mut f, "active");
    append_id_instance_property(&mut f, "icon", false);
    append_id_instance_property(&mut f, "icon", true);
    append_cocoatype_instance_property(&mut f, "baseURL", true);
    append_cocoatype_instance_property(&mut f, "absoluteURL", false);
    append_string_type_property(&mut f, "NSBundle", "name", true);
    append_string_type_property(&mut f, "NSBundle", "name", false);
    append_value_type_property(&mut f, "NSEvent", "pressedMouseButtons");
    append_id_type_property(&mut f, "NSApplication", "sharedApplication", false);
    append_id_type_property(&mut f, "NSApplication", "sharedApplication", true);
    append_cocoatype_type_property(&mut f, "NSWorkspace", "sharedWorkspace", false);
    append_cocoatype_type_property(&mut f, "NSNotificationCenter", "defaultCenter", true);
    let class = |name: &str| Scope::Type(name.to_string());
    assert_eq!(
        f.stmts,
        vec![
            getter(Scope::Instance, "host", Shape::Text, true),
            getter(Scope::Instance, "path", Shape::Text, false),
            getter(Scope::Instance, "active", Shape::Scalar, false),
            getter(Scope::Instance, "icon", Shape::Handle, false),
            getter(Scope::Instance, "icon", Shape::Handle, true),
            getter(Scope::Instance, "baseURL", Shape::Wrapped, true),
            getter(Scope::Instance, "absoluteURL", Shape::Wrapped, false),
            getter(class("NSBundle"), "name", Shape::Text, true),
            getter(class("NSBundle"), "name", Shape::Text, false),
            getter(class("NSEvent"), "pressedMouseButtons", Shape::Scalar, false),
            getter(class("NSApplication"), "sharedApplication", Shape::Handle, false),
            getter(class("NSApplication"), "sharedApplication", Shape::Handle, true),
            getter(class("NSWorkspace"), "sharedWorkspace", Shape::Wrapped, false),
            getter(class("NSNotificationCenter"), "defaultCenter", Shape::Wrapped, true),
        ]
    );
    assert_eq!(f.output, ReturnType::Type(named("String")));
}

#[test]
fn instance_arguments_are_one_name() {
    assert_eq!(
        CocoaInstancePropertyMeta::parse(&vec![ident("localizedName")]),
        Ok(CocoaInstancePropertyMeta { selector: "localizedName".to_string() })
    );
    assert_eq!(CocoaInstancePropertyMeta::parse(&Vec::new()), Err(GenerationError::ExpectedIdentifier));
    assert_eq!(CocoaInstancePropertyMeta::parse(&vec![Token::Other]), Err(GenerationError::ExpectedIdentifier));
    assert_eq!(
        CocoaInstancePropertyMeta::parse(&vec![Token::Punct(',')]),
        Err(GenerationError::ExpectedIdentifier)
    );
    assert_eq!(
        CocoaInstancePropertyMeta::parse(&vec![ident("a"), Token::Punct(',')]),
        Err(GenerationError::UnexpectedToken)
    );
    assert_eq!(
        CocoaInstancePropertyMeta::parse(&vec![ident("a"), ident("b")]),
        Err(GenerationError::UnexpectedToken)
    );
}

#[test]
fn type_arguments_are_class_comma_name() {
    assert_eq!(
        CocoaTypePropertyMeta::parse(&vec![ident("NSWorkspace"), Token::Punct(','), ident("sharedWorkspace")]),
        Ok(CocoaTypePropertyMeta {
            class_name: "NSWorkspace".to_string(),
            selector: "sharedWorkspace".to_string()
        })
    );
    assert_eq!(CocoaTypePropertyMeta::parse(&Vec::new()), Err(GenerationError::ExpectedIdentifier));
    assert_eq!(CocoaTypePropertyMeta::parse(&vec![Token::Other]), Err(GenerationError::ExpectedIdentifier));
    assert_eq!(CocoaTypePropertyMeta::parse(&vec![ident("A")]), Err(GenerationError::ExpectedComma));
    assert_eq!(
        CocoaTypePropertyMeta::parse(&vec![ident("A"), Token::Punct(';'), ident("b")]),
        Err(GenerationError::ExpectedComma)
    );
    assert_eq!(
        CocoaTypePropertyMeta::parse(&vec![ident("A"), ident("b")]),
        Err(GenerationError::ExpectedComma)
    );
    assert_eq!(
        CocoaTypePropertyMeta::parse(&vec![ident("A"), Token::Punct(',')]),
        Err(GenerationError::ExpectedIdentifier)
    );
    assert_eq!(
        CocoaTypePropertyMeta::parse(&vec![ident("A"), Token::Punct(','), Token::Other]),
        Err(GenerationError::ExpectedIdentifier)
    );
    assert_eq!(
        CocoaTypePropertyMeta::parse(&vec![ident("A"), Token::Punct(','), ident("b"), Token::Punct(',')]),
        Err(GenerationError::UnexpectedToken)
    );
}

#[test]
fn the_instance_attribute_expands_a_function() {
    let item = Item::Fn(ItemFn { output: ReturnType::Type(option_of(named("String"))), stmts: Vec::new() });
    let expanded = cocoa_instance_property(&vec![ident("bundleIdentifier")], item);
    assert_eq!(
        expanded,
        Ok(Item::Fn(ItemFn {
            output: ReturnType::Type(option_of(named("String"))),
            stmts: vec![getter(Scope::Instance, "bundleIdentifier", Shape::Text, true)],
        }))
    );
}

#[test]
fn the_type_attribute_expands_a_function() {
    let item = Item::Fn(function(ReturnType::Type(named("RunningApplication"))));
    let expanded =
        cocoa_type_property(&vec![ident("NSRunningApplication"), Token::Punct(','), ident("currentApplication")], item);
    assert_eq!(
        expanded,
        Ok(Item::Fn(ItemFn {
            output: ReturnType::Type(named("RunningApplication")),
            stmts: vec![getter(
                Scope::Type("NSRunningApplication".to_string()),
                "currentApplication",
                Shape::Wrapped,
                false
            )],
        }))
    );
}

#[test]
fn an_attribute_on_something_else_is_refused() {
    assert_eq!(cocoa_instance_property(&vec![ident("x")], Item::Other), Err(GenerationError::NotAFunction));
    assert_eq!(cocoa_instance_property(&Vec::new(), Item::Other), Err(GenerationError::NotAFunction));
    assert_eq!(
        cocoa_type_property(&vec![ident("A"), Token::Punct(','), ident("x")], Item::Other),
        Err(GenerationError::NotAFunction)
    );
}

#[test]
fn an_attribute_reports_the_first_fault() {
    let item = || Item::Fn(function(ReturnType::Type(option_of(named("u32")))));
    assert_eq!(cocoa_instance_property(&Vec::new(), item()), Err(GenerationError::ExpectedIdentifier));
    assert_eq!(cocoa_instance_property(&vec![ident("port")], item()), Err(GenerationError::OptionalScalar));
    assert_eq!(cocoa_type_property(&vec![ident("A")], item()), Err(GenerationError::ExpectedComma));
    assert_eq!(
        cocoa_type_property(&vec![ident("A"), Token::Punct(','), ident("b")], item()),
        Err(GenerationError::OptionalScalar)
    );
    assert_eq!(
        cocoa_instance_property(&vec![ident("run")], Item::Fn(function(ReturnType::Default))),
        Err(GenerationError::MissingReturnType)
    );
}

#[test]
fn refusals_have_words() {
    assert_eq!(
        GenerationError::NotAFunction.message(),
        "cocoa_instance_property can only be applied to functions"
    );
    assert_eq!(GenerationError::ExpectedIdentifier.message(), "expected identifier");
    assert_eq!(GenerationError::ExpectedComma.message(), "expected `,`");
    assert_eq!(GenerationError::UnexpectedToken.message(), "unexpected token");
    assert_eq!(GenerationError::MissingReturnType.message(), "return type must be specified");
    assert_eq!(GenerationError::OptionalScalar.message(), "value types cannot be optional");
}
