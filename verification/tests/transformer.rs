use snake_to_camel::bounds::Bound;
use snake_to_camel::config::{GenFieldConfig, StructConfig};
use snake_to_camel::error::{ErrorClass, ErrorKind};
use snake_to_camel::transform::{rename, transform_type};
use snake_to_camel::types::{
    is_basic_type, is_smart_pointer_type, is_std_collection_type, parameter_name, TypeExpr,
};

fn named(name: &str) -> TypeExpr {
    TypeExpr::simple(name)
}

fn of(name: &str, args: Vec<TypeExpr>) -> TypeExpr {
    TypeExpr::generic(name, args)
}

fn blank_field() -> GenFieldConfig {
    GenFieldConfig::new("")
}

fn run(ty: &TypeExpr, variant: &StructConfig, field: &GenFieldConfig) -> (TypeExpr, Vec<Bound>, Vec<Bound>) {
    let mut from_impls = Vec::new();
    let mut into_impls = Vec::new();
    let new_ty = transform_type(ty, variant, field, 0, &mut from_impls, &mut into_impls).unwrap();
    (new_ty, from_impls, into_impls)
}

fn converts(from: TypeExpr, to: TypeExpr) -> Bound {
    Bound::Converts { from, to }
}

#[test]
fn primitive_types_pass_unchanged() {
    for name in [
        "i8", "i16", "i32", "i64", "i128", "isize", "u8", "u16", "u32", "u64", "u128", "usize",
        "f32", "f64", "bool", "char", "str", "String",
    ] {
        assert!(is_basic_type(&named(name)), "{}", name);
        let (new_ty, from_impls, into_impls) = run(&named(name), &StructConfig::new(), &blank_field());
        assert_eq!(new_ty, named(name));
        assert!(from_impls.is_empty() && into_impls.is_empty());
    }
    assert!(!is_basic_type(&named("Vec")));
    assert!(!is_basic_type(&named("u256")));
    assert!(!is_basic_type(&TypeExpr::Tuple { elems: vec![named("u8")] }));
}

#[test]
fn containers_and_wrappers_are_told_by_their_last_segment() {
    for name in ["Vec", "HashMap", "HashSet", "BTreeMap", "BTreeSet", "LinkedList"] {
        assert!(is_std_collection_type(&named(name)), "{}", name);
        assert!(!is_smart_pointer_type(&named(name)), "{}", name);
    }
    for name in ["Option", "Arc", "Box", "Rc", "Mutex", "RwLock"] {
        assert!(is_smart_pointer_type(&named(name)), "{}", name);
        assert!(!is_std_collection_type(&named(name)), "{}", name);
    }
    let qualified = TypeExpr::Named {
        rooted: true,
        qualifier: vec!["std".to_string(), "vec".to_string()],
        name: "Vec".to_string(),
        args: vec![named("u8")],
    };
    assert!(is_std_collection_type(&qualified));
    assert!(!is_std_collection_type(&named("VecDeque")));
}

#[test]
fn generic_parameter_is_one_upper_case_letter() {
    assert!(parameter_name("T"));
    assert!(parameter_name("A"));
    assert!(parameter_name("Z"));
    assert!(!parameter_name("t"));
    assert!(!parameter_name("TT"));
    assert!(!parameter_name(""));
    assert!(!parameter_name("1"));
    let (new_ty, from_impls, into_impls) = run(&named("T"), &StructConfig::new(), &blank_field());
    assert_eq!(new_ty, named("T"));
    assert!(from_impls.is_empty() && into_impls.is_empty());
}

#[test]
fn user_type_gets_the_default_suffix() {
    let (new_ty, from_impls, into_impls) = run(&named("Inner"), &StructConfig::new(), &blank_field());
    assert_eq!(new_ty, named("InnerVo"));
    assert_eq!(from_impls, vec![converts(named("Inner"), named("InnerVo"))]);
    assert_eq!(into_impls, vec![converts(named("InnerVo"), named("Inner"))]);
}

#[test]
fn renaming_rules_in_their_order() {
    let mut variant = StructConfig::new();
    variant.prefix = Some("My".to_string());
    assert_eq!(rename("Inner", &StructConfig::new(), &blank_field()), "InnerVo");
    assert_eq!(rename("Inner", &variant, &blank_field()), "MyInner");
    variant.suffix = Some("Dto".to_string());
    assert_eq!(rename("Inner", &variant, &blank_field()), "MyInnerDto");
    variant.prefix = None;
    assert_eq!(rename("Inner", &variant, &blank_field()), "InnerDto");

    let mut field = blank_field();
    field.type_prefix = Some("F".to_string());
    assert_eq!(rename("Inner", &variant, &field), "FInner");
    field.type_suffix = Some("S".to_string());
    assert_eq!(rename("Inner", &variant, &field), "FInnerS");
    field.type_prefix = None;
    assert_eq!(rename("Inner", &variant, &field), "InnerS");

    let mut explicit = blank_field();
    explicit.explicit_type = Some("Other".to_string());
    assert_eq!(rename("Inner", &variant, &explicit), "Other");
}

#[test]
fn variant_with_a_prefix_alone_gets_no_default_suffix() {
    let mut variant = StructConfig::new();
    variant.prefix = Some("Api".to_string());
    let (new_ty, from_impls, _) = run(&named("Foo"), &variant, &blank_field());
    assert_eq!(new_ty, named("ApiFoo"));
    assert_eq!(from_impls, vec![converts(named("Foo"), named("ApiFoo"))]);
    assert_eq!(
        snake_to_camel::generate::generate_new_struct_ident("Foo", &variant, 0),
        Ok("ApiFoo".to_string())
    );
}

#[test]
fn only_the_last_segment_is_renamed() {
    let ty = TypeExpr::Named {
        rooted: false,
        qualifier: vec!["crate".to_string(), "model".to_string()],
        name: "Inner".to_string(),
        args: vec![named("Item"), TypeExpr::Verbatim { text: "'a".to_string() }],
    };
    let (new_ty, _, _) = run(&ty, &StructConfig::new(), &blank_field());
    assert_eq!(
        new_ty,
        TypeExpr::Named {
            rooted: false,
            qualifier: vec!["crate".to_string(), "model".to_string()],
            name: "InnerVo".to_string(),
            args: vec![named("Item"), TypeExpr::Verbatim { text: "'a".to_string() }],
        }
    );
}

#[test]
fn container_of_a_user_type_keeps_its_shape() {
    let (new_ty, from_impls, into_impls) =
        run(&of("Vec", vec![named("OrderItem")]), &StructConfig::new(), &blank_field());
    assert_eq!(new_ty, of("Vec", vec![named("OrderItemVo")]));
    assert_eq!(from_impls, vec![converts(named("OrderItem"), named("OrderItemVo"))]);
    assert_eq!(into_impls, vec![converts(named("OrderItemVo"), named("OrderItem"))]);
    assert!(is_std_collection_type(&of("Vec", vec![named("OrderItem")])));
}

#[test]
fn nested_shapes_are_walked_left_to_right() {
    let ty = of(
        "HashMap",
        vec![
            named("String"),
            of("Option", vec![TypeExpr::Tuple { elems: vec![named("A1"), named("B1"), named("A1")] }]),
        ],
    );
    let (new_ty, from_impls, into_impls) = run(&ty, &StructConfig::new(), &blank_field());
    assert_eq!(
        new_ty,
        of(
            "HashMap",
            vec![
                named("String"),
                of(
                    "Option",
                    vec![TypeExpr::Tuple {
                        elems: vec![named("A1Vo"), named("B1Vo"), named("A1Vo")]
                    }]
                ),
            ]
        )
    );
    assert_eq!(
        from_impls,
        vec![converts(named("A1"), named("A1Vo")), converts(named("B1"), named("B1Vo"))]
    );
    assert_eq!(
        into_impls,
        vec![converts(named("A1Vo"), named("A1")), converts(named("B1Vo"), named("B1"))]
    );
}

#[test]
fn references_and_arrays_keep_their_shape() {
    let reference = TypeExpr::Reference {
        lifetime: Some("'a".to_string()),
        mutable: true,
        elem: Box::new(named("Inner")),
    };
    let (new_ty, _, _) = run(&reference, &StructConfig::new(), &blank_field());
    assert_eq!(
        new_ty,
        TypeExpr::Reference {
            lifetime: Some("'a".to_string()),
            mutable: true,
            elem: Box::new(named("InnerVo")),
        }
    );
    let array = TypeExpr::Array { elem: Box::new(named("Inner")), len: "4".to_string() };
    let (new_ty, _, _) = run(&array, &StructConfig::new(), &blank_field());
    assert_eq!(new_ty, TypeExpr::Array { elem: Box::new(named("InnerVo")), len: "4".to_string() });
}

#[test]
fn lifetime_argument_of_a_container_is_carried() {
    let ty = of("Vec", vec![TypeExpr::Verbatim { text: "'a".to_string() }, named("Inner")]);
    let (new_ty, _, _) = run(&ty, &StructConfig::new(), &blank_field());
    assert_eq!(
        new_ty,
        of("Vec", vec![TypeExpr::Verbatim { text: "'a".to_string() }, named("InnerVo")])
    );
}

#[test]
fn unsupported_shape_is_rejected_with_its_text() {
    let ty = of(
        "Vec",
        vec![named("Inner"), TypeExpr::Unsupported { text: "fn(u8) -> u8".to_string() }, named("Late")],
    );
    let mut from_impls = Vec::new();
    let mut into_impls = Vec::new();
    let error =
        transform_type(&ty, &StructConfig::new(), &blank_field(), 12, &mut from_impls, &mut into_impls)
            .unwrap_err();
    assert_eq!(error.kind, ErrorKind::UnsupportedType);
    assert_eq!(error.kind.class(), ErrorClass::UnsupportedTypeShape);
    assert_eq!(error.pos, 12);
    assert_eq!(error.subject, "fn(u8) -> u8");
    assert_eq!(from_impls, vec![converts(named("Inner"), named("InnerVo"))]);

    let in_tuple = TypeExpr::Tuple { elems: vec![TypeExpr::Verbatim { text: "'a".to_string() }] };
    let error = transform_type(
        &in_tuple,
        &StructConfig::new(),
        &blank_field(),
        3,
        &mut Vec::new(),
        &mut Vec::new(),
    )
    .unwrap_err();
    assert_eq!(error.kind, ErrorKind::UnsupportedType);
    assert_eq!(error.subject, "'a");
}

#[test]
fn requirements_that_are_written_the_same_count_as_one() {
    let mut bounds = vec![Bound::Declared { text: "Inner: Into<InnerVo>".to_string() }];
    snake_to_camel::bounds::push_unique(&mut bounds, converts(named("Inner"), named("InnerVo")));
    assert_eq!(bounds.len(), 1);
    snake_to_camel::bounds::push_unique(&mut bounds, converts(named("InnerVo"), named("Inner")));
    snake_to_camel::bounds::push_unique(
        &mut bounds,
        Bound::HasDefault { ty: TypeExpr::Verbatim { text: "u8".to_string() } },
    );
    snake_to_camel::bounds::push_unique(&mut bounds, Bound::HasDefault { ty: named("u8") });
    assert_eq!(
        bounds,
        vec![
            Bound::Declared { text: "Inner: Into<InnerVo>".to_string() },
            converts(named("InnerVo"), named("Inner")),
            Bound::HasDefault { ty: TypeExpr::Verbatim { text: "u8".to_string() } },
        ]
    );
}

#[test]
fn requirements_are_not_repeated() {
    let mut from_impls = vec![converts(named("Inner"), named("InnerVo"))];
    let mut into_impls = Vec::new();
    let new_ty = transform_type(
        &of("Vec", vec![named("Inner")]),
        &StructConfig::new(),
        &blank_field(),
        0,
        &mut from_impls,
        &mut into_impls,
    )
    .unwrap();
    assert_eq!(new_ty, of("Vec", vec![named("InnerVo")]));
    assert_eq!(from_impls, vec![converts(named("Inner"), named("InnerVo"))]);
    assert_eq!(into_impls, vec![converts(named("InnerVo"), named("Inner"))]);
}

#[test]
fn types_copy_part_by_part() {
    let ty = of("HashMap", vec![named("String"), of("Vec", vec![named("Inner")])]);
    assert_eq!(ty.duplicate(), ty);
    assert_eq!(ty.clone(), ty);
    assert_ne!(ty, of("HashMap", vec![named("String"), of("Vec", vec![named("Outer")])]));
    assert_ne!(named("a"), TypeExpr::Verbatim { text: "a".to_string() });
}
