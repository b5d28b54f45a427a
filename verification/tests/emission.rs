use snake_to_camel::directive::{Directive, DirectiveOption, OptionValue};
use snake_to_camel::bounds::{render_bound, Bound};
use snake_to_camel::emit::emit;
use snake_to_camel::render::render_type;
use snake_to_camel::error::{Error, ErrorKind};
use snake_to_camel::expand::expand_derive_generate_struct;
use snake_to_camel::schema::{Field, GenericParam, Generics, ItemBody, OriginalStruct};
use snake_to_camel::types::TypeExpr;

fn text_of(name: &str) -> TypeExpr {
    TypeExpr::simple(name)
}

fn says(name: &str, value: &str) -> DirectiveOption {
    DirectiveOption { name: name.to_string(), value: OptionValue::Str(value.to_string()), pos: 0 }
}

fn note(name: &str, text: &str, options: Vec<DirectiveOption>) -> Directive {
    Directive { name: name.to_string(), options, text: text.to_string(), pos: 0 }
}

#[test]
fn types_as_source_text() {
    assert_eq!(render_type(&text_of("u8")), "u8");
    assert_eq!(
        render_type(&TypeExpr::generic("HashMap", vec![text_of("String"), text_of("i32")])),
        "HashMap<String, i32>"
    );
    assert_eq!(
        render_type(&TypeExpr::Named {
            rooted: true,
            qualifier: vec!["std".to_string(), "vec".to_string()],
            name: "Vec".to_string(),
            args: vec![TypeExpr::generic("Option", vec![text_of("T")])],
        }),
        "::std::vec::Vec<Option<T>>"
    );
    assert_eq!(
        render_type(&TypeExpr::Named {
            rooted: false,
            qualifier: vec!["Outer < T >".to_string()],
            name: "Inner".to_string(),
            args: vec![],
        }),
        "Outer < T >::Inner"
    );
    assert_eq!(
        render_type(&TypeExpr::Reference {
            lifetime: Some("'a".to_string()),
            mutable: true,
            elem: Box::new(text_of("str")),
        }),
        "&'a mut str"
    );
    assert_eq!(
        render_type(&TypeExpr::Reference { lifetime: None, mutable: false, elem: Box::new(text_of("T")) }),
        "&T"
    );
    assert_eq!(
        render_type(&TypeExpr::Array { elem: Box::new(text_of("u8")), len: "N + 1".to_string() }),
        "[u8; N + 1]"
    );
    assert_eq!(render_type(&TypeExpr::Tuple { elems: vec![] }), "()");
    assert_eq!(render_type(&TypeExpr::Tuple { elems: vec![text_of("A")] }), "(A,)");
    assert_eq!(render_type(&TypeExpr::Tuple { elems: vec![text_of("A"), text_of("B")] }), "(A, B)");
    assert_eq!(render_type(&TypeExpr::Verbatim { text: "'static".to_string() }), "'static");
}

#[test]
fn requirements_as_source_text() {
    assert_eq!(
        render_bound(&Bound::Converts { from: text_of("A"), to: text_of("AVo") }),
        "A: Into<AVo>"
    );
    assert_eq!(render_bound(&Bound::HasDefault { ty: text_of("u32") }), "u32: Default");
    assert_eq!(render_bound(&Bound::Declared { text: "T: Clone".to_string() }), "T: Clone");
}

#[test]
fn messages_of_failures() {
    assert_eq!(Error::new(ErrorKind::EmptyName, 0, "").message(), "the name of the generated struct is empty");
    assert_eq!(
        Error::new(ErrorKind::UnknownVariant, 3, "web").message(),
        "id is not declared by gen_camel: web"
    );
    assert_eq!(Error::new(ErrorKind::UnknownVariant, 3, "web").pos, 3);
}

fn order() -> OriginalStruct {
    OriginalStruct {
        name: "Order".to_string(),
        vis: "pub".to_string(),
        generics: Generics {
            params: vec![
                GenericParam { name: "'a".to_string(), declaration: "'a".to_string() },
                GenericParam { name: "T".to_string(), declaration: "T: Clone".to_string() },
            ],
            bounds: vec![Bound::Declared { text: "T: PartialEq".to_string() }],
        },
        directives: vec![
            note("doc", "#[doc = \"An order.\"]", vec![]),
            note(
                "gen_camel",
                "#[gen_camel(..)]",
                vec![says("name", "OrderDto"), says("derive", "Debug, Clone")],
            ),
        ],
        body: ItemBody::Struct {
            fields: vec![
                Field {
                    name: Some("order_id".to_string()),
                    vis: "pub".to_string(),
                    ty: text_of("u64"),
                    directives: vec![note("serde", "#[serde(default)]", vec![])],
                    pos: 0,
                },
                Field {
                    name: Some("order_items".to_string()),
                    vis: String::new(),
                    ty: TypeExpr::generic("Vec", vec![text_of("Item")]),
                    directives: vec![],
                    pos: 0,
                },
                Field {
                    name: Some("pay_load".to_string()),
                    vis: String::new(),
                    ty: text_of("T"),
                    directives: vec![note(
                        "gen_field",
                        "#[gen_field(field_skip)]",
                        vec![DirectiveOption {
                            name: "field_skip".to_string(),
                            value: OptionValue::Flag,
                            pos: 0,
                        }],
                    )],
                    pos: 0,
                },
                Field {
                    name: Some("note".to_string()),
                    vis: String::new(),
                    ty: text_of("String"),
                    directives: vec![note(
                        "add_field",
                        "#[add_field(..)]",
                        vec![says("field_name", "isValid"), says("field_type", "bool")],
                    )],
                    pos: 0,
                },
            ],
        },
        pos: 0,
    }
}

const ORDER_DTO: &str = "#[derive(Debug, Clone)]
#[allow(non_snake_case, non_camel_case_types)]
#[doc = \"An order.\"]
pub struct OrderDto<'a, T: Clone> where T: PartialEq, T: Default, bool: Default, Item: Into<ItemVo>, ItemVo: Into<Item> {
    #[serde(default)]
    pub orderId: u64,
    orderItems: Vec<ItemVo>,
    note: String,
    pub isValid: bool,
}
impl<'a, T: Clone> From<Order<'a, T>> for OrderDto<'a, T> where T: PartialEq, T: Default, bool: Default, Item: Into<ItemVo>, ItemVo: Into<Item> {
    fn from(original: Order<'a, T>) -> Self {
        Self {
            orderId: original.order_id.into(),
            orderItems: original.order_items.into_iter().map(Into::into).collect(),
            note: original.note.into(),
            isValid: <bool as Default>::default(),
        }
    }
}
impl<'a, T: Clone> From<OrderDto<'a, T>> for Order<'a, T> where T: PartialEq, T: Default, bool: Default, Item: Into<ItemVo>, ItemVo: Into<Item> {
    fn from(new: OrderDto<'a, T>) -> Self {
        Self {
            order_id: new.orderId.into(),
            order_items: new.orderItems.into_iter().map(Into::into).collect(),
            note: new.note.into(),
            pay_load: <T as Default>::default(),
        }
    }
}
";

#[test]
fn generated_struct_as_source_text() {
    let generated = expand_derive_generate_struct(&order()).unwrap();
    assert_eq!(generated.len(), 1);
    assert_eq!(emit(&generated[0]), ORDER_DTO);
}

#[test]
fn emitted_text_is_source_code() {
    let generated = expand_derive_generate_struct(&order()).unwrap();
    let file = syn::parse_file(&emit(&generated[0])).unwrap();
    assert_eq!(file.items.len(), 3);
    match &file.items[0] {
        syn::Item::Struct(item) => {
            assert_eq!(item.ident, "OrderDto");
            assert_eq!(item.fields.len(), 4);
        }
        other => panic!("no struct: {:?}", other),
    }
    assert!(matches!(file.items[1], syn::Item::Impl(_)));
    assert!(matches!(file.items[2], syn::Item::Impl(_)));
}

#[test]
fn plain_struct_as_source_text() {
    let plain = OriginalStruct {
        name: "Point".to_string(),
        vis: String::new(),
        generics: Generics { params: vec![], bounds: vec![] },
        directives: vec![],
        body: ItemBody::Struct {
            fields: vec![Field {
                name: Some("x_pos".to_string()),
                vis: String::new(),
                ty: text_of("i32"),
                directives: vec![],
                pos: 0,
            }],
        },
        pos: 0,
    };
    let generated = expand_derive_generate_struct(&plain).unwrap();
    assert_eq!(
        emit(&generated[0]),
        "#[allow(non_snake_case, non_camel_case_types)]
struct PointVo {
    xPos: i32,
}
impl From<Point> for PointVo {
    fn from(original: Point) -> Self {
        Self {
            xPos: original.x_pos.into(),
        }
    }
}
impl From<PointVo> for Point {
    fn from(new: PointVo) -> Self {
        Self {
            x_pos: new.xPos.into(),
        }
    }
}
"
    );
}
