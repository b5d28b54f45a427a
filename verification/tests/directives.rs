use snake_to_camel::config::{AddFieldConfig, AddFieldDraft, GenFieldConfig, StructConfig};
use snake_to_camel::directive::{Directive, DirectiveOption, OptionValue};
use snake_to_camel::error::{ErrorClass, ErrorKind, Setting};
use snake_to_camel::text::split_list;

fn opt(name: &str, value: OptionValue, pos: usize) -> DirectiveOption {
    DirectiveOption { name: name.to_string(), value, pos }
}

fn string(name: &str, value: &str, pos: usize) -> DirectiveOption {
    opt(name, OptionValue::Str(value.to_string()), pos)
}

fn attr(name: &str, options: Vec<DirectiveOption>, pos: usize) -> Directive {
    Directive { name: name.to_string(), options, text: String::new(), pos }
}

fn explicit_type() -> String {
    format!("{}_{}", "type", "name")
}

fn variant(prefix: Option<&str>, suffix: Option<&str>, name: Option<&str>) -> StructConfig {
    StructConfig {
        id: "x".to_string(),
        prefix: prefix.map(str::to_string),
        suffix: suffix.map(str::to_string),
        name: name.map(str::to_string),
        derives: vec![],
    }
}

#[test]
fn struct_directive_reads_every_option() {
    let parsed = StructConfig::from_attr(&attr(
        "gen_camel",
        vec![
            string("id", "web", 1),
            string("prefix", "My", 2),
            string("suffix", "Dto", 3),
            string("name", "Page", 4),
            string("derive", " Debug ,Clone,, serde::Serialize ", 5),
        ],
        0,
    ))
    .unwrap()
    .unwrap();
    assert_eq!(
        parsed,
        StructConfig {
            id: "web".to_string(),
            prefix: Some("My".to_string()),
            suffix: Some("Dto".to_string()),
            name: Some("Page".to_string()),
            derives: vec![
                "Debug".to_string(),
                "Clone".to_string(),
                "serde::Serialize".to_string()
            ],
        }
    );
}

#[test]
fn other_directive_is_no_struct_directive() {
    assert_eq!(StructConfig::from_attr(&attr("serde", vec![], 0)), Ok(None));
    assert_eq!(GenFieldConfig::from_attr(&attr("gen_camel", vec![], 0)), Ok(None));
    assert_eq!(AddFieldConfig::from_attr(&attr("gen_field", vec![], 0)), Ok(None));
}

#[test]
fn struct_directive_with_id_only_is_rejected() {
    let error = StructConfig::from_attr(&attr("gen_camel", vec![string("id", "a", 1)], 9)).unwrap_err();
    assert_eq!(error.kind, ErrorKind::NothingSpecified);
    assert_eq!(error.pos, 9);
    assert_eq!(error.kind.class(), ErrorClass::MalformedDirective);
}

#[test]
fn struct_directive_without_options_is_rejected() {
    let error = StructConfig::from_attr(&attr("gen_camel", vec![], 4)).unwrap_err();
    assert_eq!(error.kind, ErrorKind::NothingSpecified);
    assert_eq!(error.pos, 4);
}

#[test]
fn id_may_stand_before_the_other_options() {
    let parsed = StructConfig::from_attr(&attr(
        "gen_camel",
        vec![string("id", "a", 1), string("suffix", "Vo", 2)],
        0,
    ))
    .unwrap()
    .unwrap();
    assert_eq!(parsed.id, "a");
    assert_eq!(parsed.suffix, Some("Vo".to_string()));
}

#[test]
fn unknown_struct_option_is_rejected_at_the_option() {
    let error = StructConfig::from_attr(&attr(
        "gen_camel",
        vec![string("suffix", "Vo", 1), string("sufix", "Vo", 2)],
        0,
    ))
    .unwrap_err();
    assert_eq!(error.kind, ErrorKind::UnknownOption);
    assert_eq!(error.pos, 2);
    assert_eq!(error.subject, "sufix");
    assert_eq!(error.message(), "unknown option: sufix");
}

#[test]
fn option_values_of_the_wrong_form() {
    let missing =
        StructConfig::from_attr(&attr("gen_camel", vec![opt("prefix", OptionValue::Flag, 3)], 0))
            .unwrap_err();
    assert_eq!(missing.kind, ErrorKind::MissingValue);
    assert_eq!(missing.pos, 3);

    let tokens = StructConfig::from_attr(&attr(
        "gen_camel",
        vec![opt("prefix", OptionValue::Tokens("a + b".to_string()), 3)],
        0,
    ))
    .unwrap_err();
    assert_eq!(tokens.kind, ErrorKind::InvalidValue);

    let number_id = StructConfig::from_attr(&attr(
        "gen_camel",
        vec![string("suffix", "Vo", 1), opt("id", OptionValue::Literal("3".to_string()), 2)],
        0,
    ))
    .unwrap_err();
    assert_eq!(number_id.kind, ErrorKind::InvalidValue);
    assert_eq!(number_id.pos, 2);

    let flag_with_value =
        GenFieldConfig::from_attr(&attr("gen_field", vec![string("field_skip", "yes", 6)], 0))
            .unwrap_err();
    assert_eq!(flag_with_value.kind, ErrorKind::UnexpectedValue);
    assert_eq!(flag_with_value.pos, 6);
}

#[test]
fn literal_that_is_no_string_leaves_the_option_unset() {
    let parsed = StructConfig::from_attr(&attr(
        "gen_camel",
        vec![string("suffix", "Vo", 1), opt("prefix", OptionValue::Literal("3".to_string()), 2)],
        0,
    ))
    .unwrap()
    .unwrap();
    assert_eq!(parsed.prefix, None);
    assert_eq!(parsed.suffix, Some("Vo".to_string()));
}

#[test]
fn derive_entries_must_be_paths() {
    let error = StructConfig::from_attr(&attr(
        "gen_camel",
        vec![string("derive", "Debug, 1x", 5)],
        0,
    ))
    .unwrap_err();
    assert_eq!(error.kind, ErrorKind::InvalidDerivePath);
    assert_eq!(error.pos, 5);
    assert_eq!(error.subject, "Debug, 1x");

    let good = attr("gen_camel", vec![string("derive", "Debug, std::clone::Clone", 5)], 0);
    assert!(StructConfig::derive_paths_ok(&good.options[0]));
    let bad = attr("gen_camel", vec![string("derive", "Debug Clone", 5)], 0);
    assert!(!StructConfig::derive_paths_ok(&bad.options[0]));
    let other = attr("gen_camel", vec![string("name", "1x", 5)], 0);
    assert!(StructConfig::derive_paths_ok(&other.options[0]));
}

#[test]
fn with_option_goes_by_the_verdict_it_is_given() {
    let option = string("derive", "Debug, Clone", 5);
    let accepted = StructConfig::new().with_option(&option, true).unwrap();
    assert_eq!(accepted.derives, vec!["Debug", "Clone"]);
    let refused = StructConfig::new().with_option(&option, false).unwrap_err();
    assert_eq!(refused.kind, ErrorKind::InvalidDerivePath);

    let name = string("field_name", "isValid", 8);
    let draft = AddFieldDraft::new().with_option(&name, true).unwrap();
    assert_eq!(draft.ident, Some("isValid".to_string()));
    assert_eq!(draft.pos, 8);
    let refused = AddFieldDraft::new().with_option(&name, false).unwrap_err();
    assert_eq!(refused.kind, ErrorKind::InvalidFieldName);
    let ty = string("field_type", "bool", 9);
    let refused = AddFieldDraft::new().with_option(&ty, false).unwrap_err();
    assert_eq!(refused.kind, ErrorKind::InvalidFieldType);
    assert_eq!(AddFieldDraft::new().finish(), None);
}

#[test]
fn comma_separated_lists() {
    assert_eq!(split_list(""), Vec::<String>::new());
    assert_eq!(split_list(" , ,"), Vec::<String>::new());
    assert_eq!(split_list("Debug"), vec!["Debug"]);
    assert_eq!(split_list("\tDebug ,\u{a0}Clone\n"), vec!["Debug", "Clone"]);
    assert_eq!(split_list("a b,c"), vec!["a b", "c"]);
}

#[test]
fn two_identical_suffixes_merge_and_two_different_conflict() {
    let mut first = variant(None, Some("Vo"), None);
    assert_eq!(first.merge(variant(None, Some("Vo"), None), 7), Ok(()));
    assert_eq!(first.suffix, Some("Vo".to_string()));

    let error = first.merge(variant(None, Some("X"), None), 7).unwrap_err();
    assert_eq!(error.kind, ErrorKind::Conflict(Setting::Suffix));
    assert_eq!(error.kind.class(), ErrorClass::ConflictingMerge);
    assert_eq!(error.pos, 7);
    assert_eq!(error.subject, "x");
    assert_eq!(error.message(), "suffix redefined with different values: x");
    assert_eq!(first, variant(None, Some("Vo"), None));
}

#[test]
fn merge_fills_what_was_unset_and_joins_derives() {
    let mut first = variant(Some("My"), None, None);
    first.derives = vec!["Debug".to_string()];
    let mut second = variant(None, Some("Dto"), Some("Page"));
    second.derives = vec!["Clone".to_string(), "Debug".to_string()];
    assert_eq!(first.merge(second, 0), Ok(()));
    assert_eq!(first.prefix, Some("My".to_string()));
    assert_eq!(first.suffix, Some("Dto".to_string()));
    assert_eq!(first.name, Some("Page".to_string()));
    assert_eq!(first.derives, vec!["Debug", "Clone", "Debug"]);
}

#[test]
fn merge_conflicts_in_prefix_and_name() {
    let mut first = variant(Some("A"), None, Some("N"));
    let prefix = first.merge(variant(Some("B"), None, Some("M")), 1).unwrap_err();
    assert_eq!(prefix.kind, ErrorKind::Conflict(Setting::Prefix));
    let name = first.merge(variant(Some("A"), None, Some("M")), 1).unwrap_err();
    assert_eq!(name.kind, ErrorKind::Conflict(Setting::Name));
    let empty_is_a_value = first.merge(variant(Some(""), None, None), 1).unwrap_err();
    assert_eq!(empty_is_a_value.kind, ErrorKind::Conflict(Setting::Prefix));
}

#[test]
fn field_directive_rules() {
    let skip =
        GenFieldConfig::from_attr(&attr("gen_field", vec![opt("field_skip", OptionValue::Flag, 1)], 0))
            .unwrap()
            .unwrap();
    assert_eq!(skip.field_skip, Some(true));
    assert_eq!(skip.id, "");

    let both = GenFieldConfig::from_attr(&attr(
        "gen_field",
        vec![opt("field_skip", OptionValue::Flag, 1), string("type_prefix", "My", 2)],
        3,
    ))
    .unwrap_err();
    assert_eq!(both.kind, ErrorKind::SkipWithRename);
    assert_eq!(both.pos, 3);

    let nothing =
        GenFieldConfig::from_attr(&attr("gen_field", vec![string("id", "a", 1)], 3)).unwrap_err();
    assert_eq!(nothing.kind, ErrorKind::NothingSpecified);

    let name_and_affix = GenFieldConfig::from_attr(&attr(
        "gen_field",
        vec![string(&explicit_type(), "Other", 1), string("type_suffix", "Dto", 2)],
        3,
    ))
    .unwrap_err();
    assert_eq!(name_and_affix.kind, ErrorKind::NameWithAffix);

    let unknown =
        GenFieldConfig::from_attr(&attr("gen_field", vec![string("suffix", "Dto", 2)], 3))
            .unwrap_err();
    assert_eq!(unknown.kind, ErrorKind::UnknownOption);

    let renamed = GenFieldConfig::from_attr(&attr(
        "gen_field",
        vec![string("id", "web", 0), string("type_prefix", "My", 1), string("type_suffix", "Dto", 2)],
        3,
    ))
    .unwrap()
    .unwrap();
    assert_eq!(
        renamed,
        GenFieldConfig {
            id: "web".to_string(),
            type_prefix: Some("My".to_string()),
            type_suffix: Some("Dto".to_string()),
            explicit_type: None,
            field_skip: None,
        }
    );
}

#[test]
fn field_configurations_merge_or_conflict() {
    let prefix = |p: &str| GenFieldConfig {
        id: "a".to_string(),
        type_prefix: Some(p.to_string()),
        type_suffix: None,
        explicit_type: None,
        field_skip: None,
    };
    let mut first = prefix("My");
    let mut suffix = GenFieldConfig::new("a");
    suffix.type_suffix = Some("Dto".to_string());
    assert_eq!(first.merge(suffix, 1), Ok(()));
    assert_eq!(first.type_prefix, Some("My".to_string()));
    assert_eq!(first.type_suffix, Some("Dto".to_string()));

    let conflict = first.merge(prefix("Your"), 2).unwrap_err();
    assert_eq!(conflict.kind, ErrorKind::Conflict(Setting::TypePrefix));
    assert_eq!(conflict.pos, 2);

    let mut named = GenFieldConfig::new("a");
    named.explicit_type = Some("Other".to_string());
    let together = first.merge(named, 3).unwrap_err();
    assert_eq!(together.kind, ErrorKind::NameWithAffix);

    let mut skip = GenFieldConfig::new("a");
    skip.field_skip = Some(true);
    let skipped = first.merge(skip, 4).unwrap_err();
    assert_eq!(skipped.kind, ErrorKind::SkipWithRename);
    assert_eq!(first.type_suffix, Some("Dto".to_string()));
    assert_eq!(first.field_skip, None);

    let mut on = GenFieldConfig::new("a");
    on.field_skip = Some(true);
    let mut off = GenFieldConfig::new("a");
    off.field_skip = Some(false);
    let flags = on.merge(off, 5).unwrap_err();
    assert_eq!(flags.kind, ErrorKind::Conflict(Setting::FieldSkip));
}

#[test]
fn field_configurations_conflict_in_suffix_and_name() {
    let mut suffix = GenFieldConfig::new("a");
    suffix.type_suffix = Some("Dto".to_string());
    let mut other_suffix = GenFieldConfig::new("a");
    other_suffix.type_suffix = Some("Vo".to_string());
    let conflict = suffix.merge(other_suffix, 9).unwrap_err();
    assert_eq!(conflict.kind, ErrorKind::Conflict(Setting::TypeSuffix));
    assert_eq!(conflict.message(), "type_suffix redefined with different values: a");

    let mut named = GenFieldConfig::new("a");
    named.explicit_type = Some("One".to_string());
    let mut renamed = GenFieldConfig::new("a");
    renamed.explicit_type = Some("Two".to_string());
    let conflict = named.merge(renamed, 9).unwrap_err();
    assert_eq!(conflict.kind, ErrorKind::Conflict(Setting::TypeName));
    assert_eq!(named.explicit_type, Some("One".to_string()));

    let mut same = GenFieldConfig::new("a");
    same.explicit_type = Some("One".to_string());
    assert_eq!(named.merge(same, 9), Ok(()));
    assert_eq!(named.explicit_type, Some("One".to_string()));
}

#[test]
fn addition_needs_a_name_and_a_type() {
    let parsed = AddFieldConfig::from_attr(&attr(
        "add_field",
        vec![string("id", "web", 1), string("field_name", "isValid", 2), string("field_type", "bool", 3)],
        0,
    ))
    .unwrap()
    .unwrap();
    assert_eq!(
        parsed,
        AddFieldConfig {
            id: "web".to_string(),
            ident: "isValid".to_string(),
            ty: "bool".to_string(),
            pos: 2
        }
    );

    let missing =
        AddFieldConfig::from_attr(&attr("add_field", vec![string("field_name", "isValid", 2)], 7))
            .unwrap_err();
    assert_eq!(missing.kind, ErrorKind::MissingNameOrType);
    assert_eq!(missing.pos, 7);

    let unknown =
        AddFieldConfig::from_attr(&attr("add_field", vec![string("name", "isValid", 2)], 7))
            .unwrap_err();
    assert_eq!(unknown.kind, ErrorKind::UnknownOption);
}

#[test]
fn addition_name_and_type_are_checked_as_source_text() {
    let bad_name = AddFieldConfig::from_attr(&attr(
        "add_field",
        vec![string("field_name", "is valid", 2), string("field_type", "bool", 3)],
        0,
    ))
    .unwrap_err();
    assert_eq!(bad_name.kind, ErrorKind::InvalidFieldName);
    assert_eq!(bad_name.pos, 2);
    assert_eq!(bad_name.subject, "is valid");

    let keyword = AddFieldConfig::from_attr(&attr(
        "add_field",
        vec![string("field_name", "struct", 2), string("field_type", "bool", 3)],
        0,
    ))
    .unwrap_err();
    assert_eq!(keyword.kind, ErrorKind::InvalidFieldName);

    let bad_type = AddFieldConfig::from_attr(&attr(
        "add_field",
        vec![string("field_name", "items", 2), string("field_type", "Vec<", 3)],
        0,
    ))
    .unwrap_err();
    assert_eq!(bad_type.kind, ErrorKind::InvalidFieldType);
    assert_eq!(bad_type.pos, 3);

    let generic = AddFieldConfig::from_attr(&attr(
        "add_field",
        vec![
            string("field_name", "items", 2),
            string("field_type", "std::collections::HashMap<String, Vec<u8>>", 3),
        ],
        0,
    ))
    .unwrap()
    .unwrap();
    assert_eq!(generic.ty, "std::collections::HashMap<String, Vec<u8>>");
    assert!(AddFieldDraft::syntax_ok(&string("field_name", "r#type", 0)));
    assert!(!AddFieldDraft::syntax_ok(&string("field_type", "", 0)));
    assert!(AddFieldDraft::syntax_ok(&string("id", "not an identifier", 0)));
}
