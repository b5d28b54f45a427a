use snake_to_camel::directive::{Directive, DirectiveOption, OptionValue};
use snake_to_camel::expand::expand_derive_generate_struct;
use snake_to_camel::schema::{
    Field, GeneratedStruct, GenericParam, Generics, ItemBody, OriginalStruct,
};
use snake_to_camel::bounds::Bound;
use snake_to_camel::types::TypeExpr;
use snake_to_camel::value::{Entry, Value};

fn text_option(name: &str, value: &str) -> DirectiveOption {
    DirectiveOption { name: name.to_string(), value: OptionValue::Str(value.to_string()), pos: 0 }
}

fn flag_option(name: &str) -> DirectiveOption {
    DirectiveOption { name: name.to_string(), value: OptionValue::Flag, pos: 0 }
}

fn directive(name: &str, options: Vec<DirectiveOption>) -> Directive {
    Directive { name: name.to_string(), options, text: format!("#[{}(..)]", name), pos: 0 }
}

fn gen_camel(options: Vec<DirectiveOption>) -> Directive {
    directive("gen_camel", options)
}

fn field(name: &str, ty: TypeExpr, directives: Vec<Directive>) -> Field {
    Field { name: Some(name.to_string()), vis: String::new(), ty, directives, pos: 0 }
}

fn plain(name: &str) -> TypeExpr {
    TypeExpr::simple(name)
}

fn strukt(name: &str, directives: Vec<Directive>, fields: Vec<Field>) -> OriginalStruct {
    OriginalStruct {
        name: name.to_string(),
        vis: String::new(),
        generics: Generics { params: vec![], bounds: vec![] },
        directives,
        body: ItemBody::Struct { fields },
        pos: 0,
    }
}

fn only_variant(input: &OriginalStruct) -> GeneratedStruct {
    let mut generated = expand_derive_generate_struct(input).unwrap();
    assert_eq!(generated.len(), 1);
    generated.remove(0)
}

fn entry(name: &str, value: Value) -> Entry {
    Entry { name: name.to_string(), value }
}

fn text(s: &str) -> Value {
    Value::Text(s.to_string())
}

fn float(x: f64) -> Value {
    Value::Float(x.to_bits())
}

fn get<'a>(record: &'a [Entry], name: &str) -> &'a Value {
    &record.iter().find(|e| e.name == name).unwrap().value
}

fn items(value: &Value) -> &Vec<Value> {
    match value {
        Value::Sequence(items) => items,
        other => panic!("no container: {:?}", other),
    }
}

fn fields_of(value: &Value) -> &Vec<Entry> {
    match value {
        Value::Record(entries) => entries,
        other => panic!("no struct: {:?}", other),
    }
}

fn same(value: &Value) -> Value {
    value.clone()
}

#[test]
fn test_basic_struct_conversion() {
    let basic_user = strukt(
        "BasicUser",
        vec![gen_camel(vec![text_option("name", "BasicUserDto")])],
        vec![
            field("user_id", plain("u64"), vec![]),
            field("user_name", plain("String"), vec![]),
            field("is_active", plain("bool"), vec![]),
        ],
    );
    let dto = only_variant(&basic_user);
    assert_eq!(dto.name, "BasicUserDto");

    let original = vec![
        entry("user_id", Value::Unsigned(1)),
        entry("user_name", text("Test User")),
        entry("is_active", Value::Bool(true)),
    ];

    let converted = dto.convert_forward(&original, &same).unwrap();

    assert_eq!(get(&converted, "userId"), &Value::Unsigned(1));
    assert_eq!(get(&converted, "userName"), &text("Test User"));
    assert_eq!(get(&converted, "isActive"), &Value::Bool(true));
}

#[test]
fn test_nested_struct_conversion() {
    let order_item = strukt(
        "OrderItem",
        vec![gen_camel(vec![text_option("suffix", "Vo")])],
        vec![
            field("product_id", plain("u64"), vec![]),
            field("unit_price", plain("f64"), vec![]),
            field("quantity", plain("u32"), vec![]),
        ],
    );
    let order = strukt(
        "Order",
        vec![gen_camel(vec![text_option("name", "OrderDto")])],
        vec![
            field("order_id", plain("u64"), vec![]),
            field("customer_name", plain("String"), vec![]),
            field("order_items", TypeExpr::generic("Vec", vec![plain("OrderItem")]), vec![]),
            field("total_amount", plain("f64"), vec![]),
        ],
    );
    let item_vo = only_variant(&order_item);
    let order_dto = only_variant(&order);
    assert_eq!(item_vo.name, "OrderItemVo");
    assert_eq!(
        order_dto.fields[2].ty,
        TypeExpr::generic("Vec", vec![plain("OrderItemVo")])
    );

    let original_items = vec![Value::Record(vec![
        entry("product_id", Value::Unsigned(100)),
        entry("unit_price", float(19.99)),
        entry("quantity", Value::Unsigned(2)),
    ])];

    let original = vec![
        entry("order_id", Value::Unsigned(1001)),
        entry("customer_name", text("John Doe")),
        entry("order_items", Value::Sequence(original_items)),
        entry("total_amount", float(39.98)),
    ];

    let into = |value: &Value| match value {
        Value::Record(item) => Value::Record(item_vo.convert_forward(item, &same).unwrap()),
        other => other.clone(),
    };
    let converted = order_dto.convert_forward(&original, &into).unwrap();

    assert_eq!(get(&converted, "orderId"), &Value::Unsigned(1001));
    assert_eq!(get(&converted, "customerName"), &text("John Doe"));
    assert_eq!(items(get(&converted, "orderItems")).len(), 1);
    assert_eq!(
        get(fields_of(&items(get(&converted, "orderItems"))[0]), "productId"),
        &Value::Unsigned(100)
    );
    assert_eq!(get(&converted, "totalAmount"), &float(39.98));
}

#[test]
fn test_field_level_configurations() {
    let example = strukt(
        "FieldConfigExample",
        vec![gen_camel(vec![text_option("name", "FieldConfigDto")])],
        vec![
            field("special_name", plain("String"), vec![]),
            field(
                "internal_id",
                plain("u32"),
                vec![directive("gen_field", vec![flag_option("field_skip")])],
            ),
            field("item_count", plain("u32"), vec![]),
        ],
    );
    let dto = only_variant(&example);

    let original = vec![
        entry("special_name", text("test")),
        entry("internal_id", Value::Unsigned(42)),
        entry("item_count", Value::Unsigned(5)),
    ];

    let converted = dto.convert_forward(&original, &same).unwrap();

    assert_eq!(get(&converted, "specialName"), &text("test"));
    assert_eq!(get(&converted, "itemCount"), &Value::Unsigned(5u32 as u128));
    assert!(converted.iter().all(|e| e.name != "internalId"));
}

#[test]
fn test_extra_fields_addition() {
    let base = strukt(
        "BaseStruct",
        vec![gen_camel(vec![text_option("name", "WithExtraFieldsDto")])],
        vec![
            field(
                "field_one",
                plain("String"),
                vec![
                    directive(
                        "add_field",
                        vec![text_option("field_name", "isValid"), text_option("field_type", "bool")],
                    ),
                    directive(
                        "add_field",
                        vec![
                            text_option("field_name", "timestamp"),
                            text_option("field_type", "u64"),
                        ],
                    ),
                ],
            ),
            field("field_two", plain("i32"), vec![]),
        ],
    );
    let dto = only_variant(&base);
    let names: Vec<&str> = dto.fields.iter().map(|f| f.name.as_str()).collect();
    assert_eq!(names, vec!["fieldOne", "fieldTwo", "isValid", "timestamp"]);

    let original = vec![entry("field_one", text("value1")), entry("field_two", Value::Signed(42))];

    let converted = dto.convert_forward(&original, &same).unwrap();

    assert_eq!(get(&converted, "fieldOne"), &text("value1"));
    assert_eq!(get(&converted, "fieldTwo"), &Value::Signed(42));
    assert_eq!(get(&converted, "isValid"), &Value::Bool(false));
    assert_eq!(get(&converted, "timestamp"), &Value::Unsigned(0));
}

#[test]
fn test_generic_struct_conversion() {
    let mut generic_data = strukt(
        "GenericData",
        vec![gen_camel(vec![text_option("name", "GenericDataDto")])],
        vec![
            field("data_id", plain("u64"), vec![]),
            field("payload", plain("T"), vec![]),
            field("metadata", TypeExpr::generic("Option", vec![plain("U")]), vec![]),
        ],
    );
    generic_data.generics = Generics {
        params: vec![
            GenericParam { name: "T".to_string(), declaration: "T".to_string() },
            GenericParam { name: "U".to_string(), declaration: "U".to_string() },
        ],
        bounds: vec![
            Bound::Declared { text: "T: Clone + PartialEq".to_string() },
            Bound::Declared { text: "U: PartialEq".to_string() },
        ],
    };
    let dto = only_variant(&generic_data);
    assert_eq!(dto.generics, generic_data.generics);
    assert_eq!(dto.fields[1].ty, plain("T"));
    assert_eq!(dto.fields[2].ty, TypeExpr::generic("Option", vec![plain("U")]));

    let original = vec![
        entry("data_id", Value::Unsigned(1)),
        entry("payload", text("test payload")),
        entry("metadata", Value::Present(Box::new(Value::Signed(42)))),
    ];

    let converted = dto.convert_forward(&original, &same).unwrap();

    assert_eq!(get(&converted, "dataId"), &Value::Unsigned(1));
    assert_eq!(get(&converted, "payload"), &text("test payload"));
    assert_eq!(get(&converted, "metadata"), &Value::Present(Box::new(Value::Signed(42))));
}

#[test]
fn test_collection_types_conversion() {
    let collection_types = strukt(
        "CollectionTypes",
        vec![gen_camel(vec![text_option("name", "CollectionTypesDto")])],
        vec![
            field("ids", TypeExpr::generic("Vec", vec![plain("u64")]), vec![]),
            field(
                "names",
                TypeExpr::generic("Option", vec![TypeExpr::generic("Vec", vec![plain("String")])]),
                vec![],
            ),
            field(
                "properties",
                TypeExpr::generic("HashMap", vec![plain("String"), plain("i32")]),
                vec![],
            ),
        ],
    );
    let dto = only_variant(&collection_types);
    for (generated, declared) in dto.fields.iter().zip(["ids", "names", "properties"]) {
        assert_eq!(generated.name, declared);
    }

    let properties = Value::Sequence(vec![
        Value::Tuple(vec![text("length"), Value::Signed(10)]),
        Value::Tuple(vec![text("width"), Value::Signed(20)]),
    ]);

    let original = vec![
        entry(
            "ids",
            Value::Sequence(vec![Value::Unsigned(1), Value::Unsigned(2), Value::Unsigned(3)]),
        ),
        entry("names", Value::Present(Box::new(Value::Sequence(vec![text("a"), text("b")])))),
        entry("properties", properties),
    ];

    let converted = dto.convert_forward(&original, &same).unwrap();

    assert_eq!(
        get(&converted, "ids"),
        &Value::Sequence(vec![Value::Unsigned(1), Value::Unsigned(2), Value::Unsigned(3)])
    );
    assert_eq!(
        get(&converted, "names"),
        &Value::Present(Box::new(Value::Sequence(vec![text("a"), text("b")])))
    );
    let length = items(get(&converted, "properties")).iter().find_map(|pair| match pair {
        Value::Tuple(pair) if pair[0] == text("length") => Some(&pair[1]),
        _ => None,
    });
    assert_eq!(length, Some(&Value::Signed(10)));
}

#[test]
fn test_recursive_type_conversion() {
    let explicit = format!("{}_{}", "type", "name");
    let keep_child = || directive("gen_field", vec![text_option(&explicit, "RecursiveChild")]);
    let date_time = TypeExpr::Named {
        rooted: false,
        qualifier: vec!["chrono".to_string()],
        name: "DateTime".to_string(),
        args: vec![TypeExpr::Named {
            rooted: false,
            qualifier: vec!["chrono".to_string()],
            name: "Utc".to_string(),
            args: vec![],
        }],
    };
    let parent = strukt(
        "RecursiveParent",
        vec![gen_camel(vec![
            text_option("name", "RecursiveParentDto"),
            text_option("derive", "Debug, Clone"),
        ])],
        vec![
            field("parent_id", plain("u32"), vec![]),
            field("child", plain("RecursiveChild"), vec![keep_child()]),
            field(
                "grandchildren",
                TypeExpr::generic("Vec", vec![plain("RecursiveChild")]),
                vec![keep_child()],
            ),
            field(
                "test_name",
                date_time.clone(),
                vec![directive("gen_field", vec![text_option(&explicit, "DateTime")])],
            ),
        ],
    );
    let dto = only_variant(&parent);
    assert_eq!(dto.derives, vec!["Debug", "Clone"]);
    assert_eq!(dto.fields[1].ty, plain("RecursiveChild"));
    assert_eq!(dto.fields[2].ty, TypeExpr::generic("Vec", vec![plain("RecursiveChild")]));
    assert_eq!(dto.fields[3].ty, date_time);

    let child =
        Value::Record(vec![entry("child_id", Value::Unsigned(1)), entry("value", text("child"))]);

    let original = vec![
        entry("parent_id", Value::Unsigned(10)),
        entry("child", child.clone()),
        entry("grandchildren", Value::Sequence(vec![child])),
        entry("test_name", Value::Opaque("now".to_string())),
    ];

    let converted = dto.convert_forward(&original, &same).unwrap();
    println!("{:?}", converted);
    assert_eq!(get(&converted, "parentId"), &Value::Unsigned(10));
    assert_eq!(get(fields_of(get(&converted, "child")), "child_id"), &Value::Unsigned(1));
    assert_eq!(items(get(&converted, "grandchildren")).len(), 1);
    assert_eq!(
        get(fields_of(&items(get(&converted, "grandchildren"))[0]), "value"),
        &text("child")
    );
}
