use moms_insta::extract::{extract_json, extract_json_array};

#[test]
fn array_without_brackets_is_empty_array() {
    assert_eq!(extract_json_array("no brackets here"), "[]");
}

#[test]
fn array_spans_first_open_to_last_close() {
    assert_eq!(
        extract_json_array("prefix [1,2,3] suffix [4,5]"),
        "[1,2,3] suffix [4,5]"
    );
}

#[test]
fn array_with_only_an_opening_bracket_is_empty_array() {
    assert_eq!(extract_json_array("oops [1,2"), "[]");
}

#[test]
fn array_with_close_before_open_is_empty_array() {
    assert_eq!(extract_json_array("] then ["), "[]");
}

#[test]
fn array_embedded_in_prose() {
    let text = "Here you go:\n[{\"title\":\"a\"}]\nEnjoy!";
    assert_eq!(extract_json_array(text), "[{\"title\":\"a\"}]");
}

#[test]
fn object_without_braces_is_input_unchanged() {
    assert_eq!(extract_json("no braces"), "no braces");
}

#[test]
fn object_spans_first_open_to_last_close() {
    assert_eq!(extract_json("x {\"a\":{\"b\":1}} y"), "{\"a\":{\"b\":1}}");
}

#[test]
fn object_with_only_opening_brace_is_input_unchanged() {
    assert_eq!(extract_json("{ unfinished"), "{ unfinished");
}

#[test]
fn extraction_of_empty_text() {
    assert_eq!(extract_json_array(""), "[]");
    assert_eq!(extract_json(""), "");
}

