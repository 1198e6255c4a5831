use backend::query::code_param;

#[test]
fn code_is_read_from_the_query() {
    assert_eq!(code_param("code=abc123"), Some("abc123".to_string()));
}

#[test]
fn code_is_read_after_a_question_mark() {
    assert_eq!(code_param("?code=abc123"), Some("abc123".to_string()));
}

#[test]
fn code_is_found_among_other_parameters() {
    assert_eq!(code_param("state=xyz&code=abc123&scope=user"), Some("abc123".to_string()));
}

#[test]
fn empty_query_has_no_code() {
    assert_eq!(code_param(""), None);
    assert_eq!(code_param("?"), None);
}

#[test]
fn other_parameters_are_no_code() {
    assert_eq!(code_param("state=xyz"), None);
    assert_eq!(code_param("codes=abc123"), None);
    assert_eq!(code_param("Code=abc123"), None);
}

#[test]
fn code_without_a_value_is_the_empty_code() {
    assert_eq!(code_param("code"), Some(String::new()));
    assert_eq!(code_param("code="), Some(String::new()));
    assert_eq!(code_param("code&state=xyz"), Some(String::new()));
}

#[test]
fn first_code_wins() {
    assert_eq!(code_param("code=first&code=second"), Some("first".to_string()));
}

#[test]
fn code_is_percent_decoded() {
    assert_eq!(code_param("code=a%20b%26c"), Some("a b&c".to_string()));
}

#[test]
fn code_may_hold_an_equals_sign() {
    assert_eq!(code_param("code=a=b"), Some("a=b".to_string()));
}
