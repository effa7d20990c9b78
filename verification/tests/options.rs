use action_synth::options::{parse_attribute_options, resolve_operation_name, AttrToken};

fn ident(text: &str) -> AttrToken {
    AttrToken::Ident {
        text: text.to_string(),
    }
}

fn lit(value: &str) -> AttrToken {
    AttrToken::Str {
        value: value.to_string(),
    }
}

fn resolve(toks: &[AttrToken], fallback: &str) -> String {
    let opts = parse_attribute_options(&toks.to_vec());
    resolve_operation_name(&opts, &fallback.to_string())
}

#[test]
fn empty_token_sequence_gives_empty_mapping() {
    let opts = parse_attribute_options(&Vec::new());
    assert!(opts.entries.is_empty());
    assert_eq!(resolve(&[], "ident"), "ident");
}

#[test]
fn single_entry_parses() {
    let toks = vec![ident("name"), AttrToken::Equals, lit("get_user")];
    let opts = parse_attribute_options(&toks);
    assert_eq!(opts.entries.len(), 1);
    assert_eq!(opts.entries[0].key, "name");
    assert_eq!(opts.entries[0].value, "get_user");
}

#[test]
fn trailing_comma_accepted() {
    let toks = vec![
        ident("name"),
        AttrToken::Equals,
        lit("get_user"),
        AttrToken::Comma,
    ];
    assert_eq!(resolve(&toks, "fallback"), "get_user");
}

#[test]
fn several_entries_parse_in_order() {
    let toks = vec![
        ident("path"),
        AttrToken::Equals,
        lit("users"),
        AttrToken::Comma,
        ident("name"),
        AttrToken::Equals,
        lit("get_user"),
    ];
    let opts = parse_attribute_options(&toks);
    assert_eq!(opts.entries.len(), 2);
    assert_eq!(opts.entries[0].key, "path");
    assert_eq!(opts.entries[1].key, "name");
    assert_eq!(resolve(&toks, "fallback"), "get_user");
}

#[test]
fn repeated_key_takes_last_value() {
    let toks = vec![
        ident("name"),
        AttrToken::Equals,
        lit("first"),
        AttrToken::Comma,
        ident("name"),
        AttrToken::Equals,
        lit("second"),
    ];
    assert_eq!(resolve(&toks, "fallback"), "second");
}

#[test]
fn unrecognized_keys_are_ignored() {
    let toks = vec![ident("path"), AttrToken::Equals, lit("users")];
    assert_eq!(resolve(&toks, "get_user_by_id"), "get_user_by_id");
}

#[test]
fn missing_equals_degrades_to_empty_mapping() {
    let toks = vec![ident("name"), lit("get_user")];
    let opts = parse_attribute_options(&toks);
    assert!(opts.entries.is_empty());
    assert_eq!(resolve(&toks, "fallback"), "fallback");
}

#[test]
fn non_string_value_degrades_to_empty_mapping() {
    let toks = vec![ident("name"), AttrToken::Equals, AttrToken::Other];
    assert!(parse_attribute_options(&toks).entries.is_empty());
}

#[test]
fn dangling_entry_degrades_to_empty_mapping() {
    // A well-formed entry followed by an incomplete one poisons the whole
    // list: parsing is all or nothing.
    let toks = vec![
        ident("name"),
        AttrToken::Equals,
        lit("get_user"),
        AttrToken::Comma,
        ident("path"),
    ];
    assert!(parse_attribute_options(&toks).entries.is_empty());
    assert_eq!(resolve(&toks, "fallback"), "fallback");
}

#[test]
fn missing_comma_between_entries_degrades_to_empty_mapping() {
    let toks = vec![
        ident("a"),
        AttrToken::Equals,
        lit("1"),
        ident("b"),
        AttrToken::Equals,
        lit("2"),
    ];
    assert!(parse_attribute_options(&toks).entries.is_empty());
}
