use from_str_derive::{
    collision_counts, expand, Constructor, CtorPath, Data, DataStruct, Either, ExpandError,
    Expansion, Field, Fields, FieldsExt, FlatExpansion, FlatImpl, ForwardExpansion, ForwardImpl,
    Init, NamedField, TypeDecl, Variant,
};

fn unit_variant(name: &str) -> Variant {
    Variant { ident: name.to_string(), fields: Fields::Unit }
}

fn enum_decl(name: &str, variants: &[&str]) -> TypeDecl {
    TypeDecl {
        ident: name.to_string(),
        generic_params: 0,
        data: Data::Enum(variants.iter().map(|v| unit_variant(v)).collect()),
    }
}

fn struct_decl(name: &str, generic_params: usize, fields: Fields) -> TypeDecl {
    TypeDecl { ident: name.to_string(), generic_params, data: Data::Struct(DataStruct { fields }) }
}

fn flat_of(decl: &TypeDecl) -> FlatImpl {
    match expand(decl) {
        Ok(Expansion::Flat(f)) => f,
        _ => panic!("expected a flat expansion"),
    }
}

fn forward_of(decl: &TypeDecl) -> ForwardImpl {
    match expand(decl) {
        Ok(Expansion::Forward(g)) => g,
        _ => panic!("expected a forward expansion"),
    }
}

fn err_name(r: Result<usize, from_str_derive::NotRecognized>) -> String {
    match r {
        Ok(i) => panic!("expected an error, got arm {}", i),
        Err(e) => e.ty_name,
    }
}

fn expand_err(decl: &TypeDecl) -> ExpandError {
    match expand(decl) {
        Err(e) => e,
        Ok(_) => panic!("expected an expansion error"),
    }
}

#[test]
fn compass_enum_matches_any_case() {
    let decl = enum_decl("Direction", &["North", "South", "East", "West"]);
    let f = flat_of(&decl);
    assert!(matches!(f.parse("north"), Ok(0)));
    assert!(matches!(f.parse("NORTH"), Ok(0)));
    assert_eq!(err_name(f.parse("Nort")), "Direction");
}

#[test]
fn wrapper_forwards_to_i32() {
    let decl = struct_decl("Wrapper", 0, Fields::Unnamed(vec!["i32".to_string()]));
    let g = forward_of(&decl);
    assert_eq!(g.inner_ty, "i32");
    match g.parse_with("42".parse::<i32>()) {
        Ok(w) => {
            assert_eq!(w.value, 42);
            assert_eq!(w.field, None);
        }
        Err(_) => panic!("expected a value"),
    }
    let own = "abc".parse::<i32>().unwrap_err();
    match g.parse_with("abc".parse::<i32>()) {
        Ok(_) => panic!("expected the inner error"),
        Err(e) => assert_eq!(e, own),
    }
}

#[test]
fn distinct_names_accept_every_casing() {
    let decl = enum_decl("Direction", &["North", "South", "East", "West"]);
    let f = flat_of(&decl);
    for (i, name) in ["north", "SOUTH", "eAsT", "WeSt"].iter().enumerate() {
        assert_eq!(f.parse(name).ok(), Some(i));
    }
    assert!(matches!(f.parse("nOrTh"), Ok(0)));
    assert!(matches!(f.parse("West"), Ok(3)));
    assert!(f.arms.iter().all(|a| a.exact_guard.is_none()));
}

#[test]
fn colliding_names_need_exact_spelling() {
    let decl = enum_decl("Thing", &["Foo", "FOO", "Bar"]);
    let f = flat_of(&decl);
    assert!(matches!(f.parse("Foo"), Ok(0)));
    assert!(matches!(f.parse("FOO"), Ok(1)));
    assert_eq!(err_name(f.parse("foo")), "Thing");
    assert_eq!(err_name(f.parse("fOO")), "Thing");
    assert!(matches!(f.parse("bAR"), Ok(2)));
    assert_eq!(f.arms[0].exact_guard.as_deref(), Some("Foo"));
    assert_eq!(f.arms[1].exact_guard.as_deref(), Some("FOO"));
    assert_eq!(f.arms[2].exact_guard, None);
}

#[test]
fn unknown_keyword_names_the_type() {
    let decl = struct_decl("Marker", 0, Fields::Unit);
    let f = flat_of(&decl);
    assert!(matches!(f.parse("marker"), Ok(0)));
    assert!(matches!(f.parse("MARKER"), Ok(0)));
    assert_eq!(err_name(f.parse("other")), "Marker");
    assert_eq!(err_name(f.parse("")), "Marker");
    let e = flat_of(&enum_decl("Color", &["Red", "Green"]));
    assert_eq!(err_name(e.parse("blue")), "Color");
}

#[test]
fn empty_enum_always_fails() {
    let f = flat_of(&enum_decl("Never", &[]));
    assert!(f.arms.is_empty());
    assert_eq!(err_name(f.parse("")), "Never");
    assert_eq!(err_name(f.parse("never")), "Never");
    assert_eq!(err_name(f.parse("Never")), "Never");
}

#[test]
fn multi_field_struct_is_rejected() {
    let decl = struct_decl(
        "Pair",
        0,
        Fields::Unnamed(vec!["i32".to_string(), "i32".to_string()]),
    );
    let e = expand_err(&decl);
    assert_eq!(e, ExpandError::StructFields);
    assert_eq!(e.message(), "struct must have zero or exactly one field");
}

#[test]
fn data_variant_is_rejected_at_the_variant() {
    let decl = TypeDecl {
        ident: "Shape".to_string(),
        generic_params: 0,
        data: Data::Enum(vec![
            unit_variant("Empty"),
            unit_variant("Dot"),
            Variant { ident: "Circle".to_string(), fields: Fields::Unnamed(vec!["u32".to_string()]) },
            Variant { ident: "Square".to_string(), fields: Fields::Unnamed(vec!["u32".to_string()]) },
        ]),
    };
    let e = expand_err(&decl);
    assert_eq!(e, ExpandError::VariantFields(2));
    assert_eq!(e.message(), "enum variants must have no fields");
}

#[test]
fn union_is_rejected() {
    let decl = TypeDecl { ident: "Bits".to_string(), generic_params: 0, data: Data::Union };
    let e = expand_err(&decl);
    assert_eq!(e, ExpandError::Union);
    assert_eq!(e.message(), "unions are not supported");
}

#[test]
fn named_field_forwards_under_its_name() {
    let decl = struct_decl(
        "Meters",
        0,
        Fields::Named(vec![NamedField { ident: "value".to_string(), ty: "u64".to_string() }]),
    );
    let g = forward_of(&decl);
    assert_eq!(g.binding, "v");
    match &g.constructor.init {
        Init::Named(ps) => assert_eq!(ps, &vec![("value".to_string(), "v".to_string())]),
        _ => panic!("expected a named initializer"),
    }
    match g.parse_with("7".parse::<u64>()) {
        Ok(w) => {
            assert_eq!(w.value, 7);
            assert_eq!(w.field.as_deref(), Some("value"));
        }
        Err(_) => panic!("expected a value"),
    }
}

#[test]
fn generic_struct_bounds_its_inner_type() {
    let generic = forward_of(&struct_decl("Boxed", 1, Fields::Unnamed(vec!["T".to_string()])));
    assert!(generic.inner_bound);
    let concrete = forward_of(&struct_decl("Plain", 0, Fields::Unnamed(vec!["u8".to_string()])));
    assert!(!concrete.inner_bound);
}

#[test]
fn arms_hold_lowercased_keywords_and_variant_paths() {
    let f = flat_of(&enum_decl("Mode", &["ReadOnly", "WRITE"]));
    assert_eq!(f.ty_name, "Mode");
    assert_eq!(f.arms[0].lowercased, "readonly");
    assert_eq!(f.arms[1].lowercased, "write");
    match &f.arms[1].constructor.path {
        CtorPath::SelfVariant(v) => assert_eq!(v, "WRITE"),
        CtorPath::SelfTy => panic!("expected a variant path"),
    }
    assert!(matches!(f.arms[1].constructor.init, Init::Bare));
    let s = flat_of(&struct_decl("Marker", 0, Fields::Unit));
    assert!(matches!(s.arms[0].constructor.path, CtorPath::SelfTy));
}

#[test]
fn collision_counts_count_shared_forms() {
    let lowered = vec!["foo".to_string(), "bar".to_string(), "foo".to_string(), "foo".to_string()];
    assert_eq!(collision_counts(&lowered), vec![3, 1, 3, 3]);
    assert_eq!(collision_counts(&vec![]), Vec::<usize>::new());
}

#[test]
fn constructors_of_each_shape() {
    let unnamed = Fields::Unnamed(vec!["A".to_string(), "B".to_string()]);
    let c = unnamed.constructor(CtorPath::SelfTy, vec!["a".to_string(), "b".to_string()]);
    assert!(matches!(c.path, CtorPath::SelfTy));
    match c.init {
        Init::Positional(vs) => assert_eq!(vs, vec!["a".to_string(), "b".to_string()]),
        _ => panic!("expected positional values"),
    }
    let named = Fields::Named(vec![
        NamedField { ident: "x".to_string(), ty: "A".to_string() },
        NamedField { ident: "y".to_string(), ty: "B".to_string() },
    ]);
    match named.constructor(CtorPath::SelfTy, vec!["a".to_string(), "b".to_string()]).init {
        Init::Named(ps) => assert_eq!(
            ps,
            vec![("x".to_string(), "a".to_string()), ("y".to_string(), "b".to_string())]
        ),
        _ => panic!("expected named values"),
    }
    assert!(matches!(Fields::Unit.self_constructor_empty().init, Init::Bare));
    let v = unit_variant("Up");
    let Constructor { path, init } = v.self_constructor_empty();
    assert!(matches!(init, Init::Bare));
    match path {
        CtorPath::SelfVariant(p) => assert_eq!(p, "Up"),
        CtorPath::SelfTy => panic!("expected a variant path"),
    }
    let field = Field { ident: None, ty: "u8".to_string() };
    match field.self_constructor(vec!["v".to_string()]).init {
        Init::Positional(vs) => assert_eq!(vs, vec!["v".to_string()]),
        _ => panic!("expected a positional value"),
    }
    let data = DataStruct { fields: Fields::Unit };
    let either: Either<&DataStruct, &Variant> = Either::Left(&data);
    assert!(matches!(either.self_ty(), CtorPath::SelfTy));
    let either: Either<&DataStruct, &Variant> = Either::Right(&v);
    assert!(matches!(either.self_ty(), CtorPath::SelfVariant(_)));
}

#[test]
fn expansions_reject_the_other_shape() {
    let two = struct_decl("Pair", 0, Fields::Unnamed(vec!["u8".to_string(), "u8".to_string()]));
    assert!(matches!(FlatExpansion::try_from(&two), Err(ExpandError::StructFields)));
    assert!(matches!(ForwardExpansion::try_from(&two), Err(ExpandError::StructFields)));
    let e = enum_decl("E", &["A"]);
    match ForwardExpansion::try_from(&e) {
        Err(err) => {
            assert_eq!(err, ExpandError::ExpectedStruct);
            assert_eq!(err.message(), "expected a struct for forward `FromStr` derive");
        }
        Ok(_) => panic!("expected an error"),
    }
    let u = TypeDecl { ident: "U".to_string(), generic_params: 0, data: Data::Union };
    assert!(matches!(FlatExpansion::try_from(&u), Err(ExpandError::Union)));
}

#[test]
fn parse_lowered_uses_the_given_lowercase_form() {
    let f = flat_of(&enum_decl("Direction", &["North"]));
    assert!(matches!(f.parse_lowered("NORTH", "north"), Ok(0)));
    assert_eq!(err_name(f.parse_lowered("north", "NORTH")), "Direction");
}
