use snake_to_camel::text::{concat3, join_texts, space, split_list, without_repetitions};

fn owned(texts: &[&str]) -> Vec<String> {
    texts.iter().map(|t| t.to_string()).collect()
}

#[test]
fn white_space_is_what_trimming_removes() {
    let mut spaces = 0;
    for code in 0..=0x10ffffu32 {
        if let Some(c) = char::from_u32(code) {
            assert_eq!(space(c), c.is_whitespace(), "U+{:04X}", code);
            if space(c) {
                spaces += 1;
            }
        }
    }
    assert_eq!(spaces, 25);
}

#[test]
fn lists_split_as_by_comma_and_trim() {
    let samples = [
        "",
        ",",
        "a",
        " a ",
        "a,b",
        " Debug , Clone ,",
        ",,a,, b ,,",
        "\u{2003}x\u{3000},\ty\r\n",
        "serde::Serialize, serde::Deserialize",
        "a b , c\u{a0}d",
        ", \u{1680} ,z",
    ];
    for sample in samples {
        let expected: Vec<String> = sample
            .split(',')
            .map(|s| s.trim())
            .filter(|s| !s.is_empty())
            .map(|s| s.to_string())
            .collect();
        assert_eq!(split_list(sample), expected, "{:?}", sample);
    }
    assert_eq!(split_list(" Debug , Clone ,"), owned(&["Debug", "Clone"]));
}

#[test]
fn texts_are_joined_in_order() {
    assert_eq!(concat3("My", "User", "Dto"), "MyUserDto");
    assert_eq!(concat3("", "User", ""), "User");
    assert_eq!(concat3("", "", ""), "");
    assert_eq!(join_texts(&owned(&["a", "b"]), &owned(&["c"])), owned(&["a", "b", "c"]));
    assert_eq!(join_texts(&owned(&[]), &owned(&[])), owned(&[]));
}

#[test]
fn repetitions_are_dropped_in_first_seen_order() {
    assert_eq!(
        without_repetitions(&owned(&["Debug", "Clone", "Debug", "Default", "Clone"])),
        owned(&["Debug", "Clone", "Default"])
    );
    assert_eq!(without_repetitions(&owned(&[])), owned(&[]));
    assert_eq!(without_repetitions(&owned(&["a", "a", "a"])), owned(&["a"]));
}
