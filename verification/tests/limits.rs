use snake_to_camel::config::{syntax_verdicts, AddFieldConfig, StructConfig};
use snake_to_camel::directive::{Directive, DirectiveOption, OptionValue};
use snake_to_camel::error::ErrorKind;
use snake_to_camel::expand::{expand_derive_generate_struct, expand_with};
use snake_to_camel::parse::{parse_field_config_with, parse_struct_config_with};
use snake_to_camel::schema::{Field, Generics, ItemBody, OriginalStruct};
use snake_to_camel::syntax::{fits, is_ident, is_path, is_type, SYNTAX_LIMIT};
use snake_to_camel::types::TypeExpr;

fn word(name: &str, value: &str, pos: usize) -> DirectiveOption {
    DirectiveOption { name: name.to_string(), value: OptionValue::Str(value.to_string()), pos }
}

fn mark(name: &str, options: Vec<DirectiveOption>, pos: usize) -> Directive {
    Directive { name: name.to_string(), options, text: String::new(), pos }
}

fn addition(ty: &str) -> Directive {
    mark("add_field", vec![word("field_name", "extra", 1), word("field_type", ty, 2)], 0)
}

fn around(open: &str, close: &str, n: usize) -> String {
    format!("{}u8{}", open.repeat(n), close.repeat(n))
}

#[test]
fn weight_counts_words_and_opening_signs() {
    assert_eq!(SYNTAX_LIMIT, 24);
    assert!(fits(""));
    assert!(fits("std::collections::HashMap<String, Vec<(u8, String)>>"));
    assert!(fits(&"a".repeat(10_000)));
    assert!(fits(&" ) ] } > , : ;".repeat(1_000)));
    assert!(fits(&around("(", ")", 23)));
    assert!(!fits(&around("(", ")", 24)));
    assert!(fits(&"a ".repeat(24)));
    assert!(!fits(&"a ".repeat(25)));
    assert!(fits(&"&".repeat(24)));
    assert!(!fits(&"&".repeat(25)));
    assert!(fits(&"é".repeat(12)));
    assert!(!fits(&"é".repeat(13)));
}

#[test]
fn texts_at_the_limit_are_read() {
    assert!(is_type(&around("(", ")", 23)));
    assert!(is_type(&around("[", "]", 23)));
    assert!(is_type(&around("&", "", 23)));
    assert!(is_type(&around("A<", ">", 11)));
    assert!(is_type(&format!("{}u8", "fn()->".repeat(7))));
    assert!(is_type(&format!("[u8; {}1]", "-".repeat(21))));
    assert!(is_type(&format!("[u8; {}1]", "return ".repeat(21))));
    assert!(is_type(&format!("[u8; {}1{}]", "{".repeat(21), "}".repeat(21))));
    assert!(is_path(&around("a::<{", "}>", 5)));
    assert!(is_path("a::b::c"));
    assert!(!is_path("a b"));
    assert!(is_ident("name"));
    assert!(!is_ident("two words"));
    assert!(!is_type("Vec<"));
}

#[test]
fn texts_over_the_limit_are_refused_unread() {
    assert!(!is_type(&around("(", ")", 24)));
    assert!(!is_type(&around("(", ")", 100_000)));
    assert!(!is_type(&around("&", "", 100_000)));
    assert!(!is_path(&around("a::<{", "}>", 100_000)));
    assert!(!is_ident(&"-".repeat(100_000)));

    let deep = around("(", ")", 100_000);
    let error = AddFieldConfig::from_attr(&addition(&deep)).unwrap_err();
    assert_eq!(error.kind, ErrorKind::InvalidFieldType);
    assert_eq!(error.pos, 2);

    let derives = mark("gen_camel", vec![word("derive", &format!("Debug, {}", deep), 5)], 0);
    assert_eq!(syntax_verdicts(&derives), vec![false]);
    let error = StructConfig::from_attr(&derives).unwrap_err();
    assert_eq!(error.kind, ErrorKind::InvalidDerivePath);
    assert_eq!(error.pos, 5);
}

#[test]
fn verdicts_are_one_for_each_option() {
    let variant = mark(
        "gen_camel",
        vec![word("name", "1x", 1), word("derive", "Debug, Clone", 2), word("derive", "1x", 3)],
        0,
    );
    assert_eq!(syntax_verdicts(&variant), vec![true, true, false]);
    let added = mark(
        "add_field",
        vec![word("id", "1x", 1), word("field_name", "1x", 2), word("field_type", "Vec<u8>", 3)],
        0,
    );
    assert_eq!(syntax_verdicts(&added), vec![true, false, true]);
    let other = mark("serde", vec![word("derive", "1x", 1), word("field_name", "1x", 2)], 0);
    assert_eq!(syntax_verdicts(&other), vec![true, true]);
}

#[test]
fn reading_goes_by_the_verdicts_it_is_given() {
    let variant = mark("gen_camel", vec![word("derive", "not a path", 2)], 0);
    let accepted = StructConfig::from_attr_with(&variant, &vec![true]).unwrap().unwrap();
    assert_eq!(accepted.derives, vec!["not a path"]);
    let lacking = StructConfig::from_attr_with(&variant, &vec![]).unwrap().unwrap();
    assert_eq!(lacking.derives, vec!["not a path"]);
    let refused = StructConfig::from_attr_with(&variant, &vec![false]).unwrap_err();
    assert_eq!(refused.kind, ErrorKind::InvalidDerivePath);

    let refused = AddFieldConfig::from_attr_with(&addition("bool"), &vec![true, false]).unwrap_err();
    assert_eq!(refused.kind, ErrorKind::InvalidFieldType);
    let refused = AddFieldConfig::from_attr_with(&addition("bool"), &vec![false, false]).unwrap_err();
    assert_eq!(refused.kind, ErrorKind::InvalidFieldName);
    let accepted = AddFieldConfig::from_attr_with(&addition("no type"), &vec![true, true]).unwrap().unwrap();
    assert_eq!(accepted.ty, "no type");
}

#[test]
fn parsing_goes_by_the_verdicts_it_is_given() {
    let directives = vec![
        mark("gen_camel", vec![word("suffix", "Vo", 1)], 0),
        mark("gen_camel", vec![word("derive", "Debug", 3)], 2),
    ];
    let (table, _) = parse_struct_config_with(&directives, &vec![vec![true], vec![true]]).unwrap();
    assert_eq!(table.get(0).derives, vec!["Debug"]);
    let refused = parse_struct_config_with(&directives, &vec![vec![true], vec![false]]).unwrap_err();
    assert_eq!(refused.kind, ErrorKind::InvalidDerivePath);
    assert_eq!(refused.pos, 3);

    let fields = vec![Field {
        name: Some("a".to_string()),
        vis: String::new(),
        ty: TypeExpr::simple("u8"),
        directives: vec![addition("bool")],
        pos: 0,
    }];
    let (additions, entries) =
        parse_field_config_with(&fields, &table, &vec![vec![vec![true, true]]]).unwrap();
    assert_eq!(additions.groups().len(), 1);
    assert_eq!(entries.len(), 1);
    let refused =
        parse_field_config_with(&fields, &table, &vec![vec![vec![false, true]]]).unwrap_err();
    assert_eq!(refused.kind, ErrorKind::InvalidFieldName);

    let input = OriginalStruct {
        name: "S".to_string(),
        vis: String::new(),
        generics: Generics { params: vec![], bounds: vec![] },
        directives,
        body: ItemBody::Struct { fields },
        pos: 0,
    };
    let by_reading = expand_derive_generate_struct(&input).unwrap();
    let by_verdicts = expand_with(
        &input,
        &vec![vec![true], vec![true]],
        &vec![vec![vec![true, true]]],
    )
    .unwrap();
    assert_eq!(by_reading, by_verdicts);
    assert_eq!(by_verdicts[0].name, "SVo");
    assert_eq!(by_verdicts[0].fields[1].name, "extra");
    let refused =
        expand_with(&input, &vec![vec![true], vec![true]], &vec![vec![vec![true, false]]]).unwrap_err();
    assert_eq!(refused.kind, ErrorKind::InvalidFieldType);
}
