use panicvtt_engine::parse_error::{ParseError, ParseErrorKind};

#[test]
fn wrong_number_of_arguments() {
    let error = ParseError::from_wrong_num_args(&["new_entity"], 2, 1);
    assert_eq!(error.all_tokens, vec![String::from("new_entity")]);
    assert!(matches!(
        error.error_kind,
        ParseErrorKind::WrongNumArgs { expected_num: 2, actual_num: 1 }
    ));
    assert_eq!(error.error_kind.to_string(), "Expected 2 arguments, but received 1");
    assert_eq!(
        error.to_string(),
        "Parse Error: Expected 2 arguments, but received 1 (all tokens: [new_entity, ]"
    );
}

#[test]
fn syntax_error() {
    let error = ParseError::from_syntax_error(&["fly", "to", "the", "moon"], "fly");
    assert_eq!(error.all_tokens.len(), 4);
    assert_eq!(error.error_kind.to_string(), "Syntax error on token fly");
    assert_eq!(
        error.to_string(),
        "Parse Error: Syntax error on token fly (all tokens: [fly, to, the, moon, ]"
    );
}

#[test]
fn no_tokens_at_all() {
    let error = ParseError::new(&[], ParseErrorKind::WrongNumArgs { expected_num: 0, actual_num: 255 });
    assert!(error.all_tokens.is_empty());
    assert_eq!(
        error.to_string(),
        "Parse Error: Expected 0 arguments, but received 255 (all tokens: []"
    );
}
