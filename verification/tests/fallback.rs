use dinoe_core::agent::fallback::{
    default_tags, derive_call_id, extract_json_values, parse_tool_call_value,
    parse_tool_calls_fallback, parse_tool_calls_with_tags, tool_call_from_parts, TagPair,
};

const DATE_CALL: &str = "{\"name\":\"shell\",\"arguments\":{\"command\":\"date\"}}";
const DATE_ID: &str = "call_5e82c7b0442cd0c1b0ef5dc194c8ef0b";

#[test]
fn tool_call_tag_yields_call_and_surrounding_text() {
    let response = format!("Let me check.\n<tool_call>\n{}\n</tool_call>", DATE_CALL);
    let (text, calls) = parse_tool_calls_fallback(&response);
    assert_eq!(calls.len(), 1);
    assert_eq!(calls[0].name, "shell");
    assert_eq!(calls[0].arguments, "{\"command\":\"date\"}");
    assert_eq!(calls[0].id, DATE_ID);
    // The closing tag is recognised without its bracket, which is left as text.
    assert_eq!(text, "Let me check.\n>");
}

#[test]
fn function_tag_yields_call() {
    let (text, calls) =
        parse_tool_calls_fallback("<function={\"name\":\"a\",\"arguments\":{}}</function> done");
    assert_eq!(calls.len(), 1);
    assert_eq!(calls[0].name, "a");
    assert_eq!(calls[0].arguments, "{}");
    assert_eq!(calls[0].id, "call_99914b932bd37a50b983c5e7c90ae93b");
    assert_eq!(text, "done");
}

#[test]
fn invoke_tag_yields_call_and_no_text() {
    let response = format!("<invoke>{}</invoke>", DATE_CALL);
    let (text, calls) = parse_tool_calls_fallback(&response);
    assert_eq!(calls.len(), 1);
    assert_eq!(calls[0].id, DATE_ID);
    assert_eq!(text, "");
}

#[test]
fn plain_text_is_trimmed_and_kept() {
    let (text, calls) = parse_tool_calls_fallback("  The answer is 4.\n");
    assert!(calls.is_empty());
    assert_eq!(text, "The answer is 4.");
}

#[test]
fn blank_text_gives_nothing() {
    let (text, calls) = parse_tool_calls_fallback(" \n\t ");
    assert!(calls.is_empty());
    assert_eq!(text, "");
}

#[test]
fn missing_closing_tag_stops_and_keeps_the_rest_as_text() {
    let response = format!("before <tool_call>{}", DATE_CALL);
    let (text, calls) = parse_tool_calls_fallback(&response);
    assert!(calls.is_empty());
    assert_eq!(text, format!("before\n<tool_call>{}", DATE_CALL));
}

#[test]
fn text_before_an_unclosed_tag_is_output_once() {
    let (text, calls) =
        parse_tool_calls_fallback("hello <tool_call>{\"name\":\"shell\",\"arguments\":{}}");
    assert!(calls.is_empty());
    assert_eq!(text.matches("hello").count(), 1);
    assert_eq!(text, "hello\n<tool_call>{\"name\":\"shell\",\"arguments\":{}}");
}

#[test]
fn unclosed_tag_behind_a_closed_one_keeps_the_calls_found_before() {
    let response = format!("a <invoke>{}</invoke> b <invoke>{} c", DATE_CALL, DATE_CALL);
    let (text, calls) = parse_tool_calls_fallback(&response);
    assert_eq!(calls.len(), 1);
    assert_eq!(text, format!("a\nb\n<invoke>{} c", DATE_CALL));
}

#[test]
fn unclosed_tag_at_the_start_is_all_text() {
    let (text, calls) = parse_tool_calls_fallback("  <invoke>{}  ");
    assert!(calls.is_empty());
    assert_eq!(text, "<invoke>{}");
}

#[test]
fn several_blocks_are_read_in_order() {
    let response = "one <invoke>{\"name\":\"a\",\"arguments\":{}}</invoke> two \
                    <invoke>{\"name\":\"b\",\"arguments\":[1]}</invoke> three";
    let (text, calls) = parse_tool_calls_fallback(response);
    assert_eq!(calls.len(), 2);
    assert_eq!(calls[0].name, "a");
    assert_eq!(calls[1].name, "b");
    assert_eq!(calls[1].arguments, "[1]");
    assert_eq!(text, "one\ntwo\nthree");
}

#[test]
fn several_objects_in_one_block_are_all_read() {
    let response = "<invoke>{\"name\":\"a\",\"arguments\":{}} and {\"name\":\"b\",\"arguments\":{}}</invoke>";
    let (_, calls) = parse_tool_calls_fallback(response);
    assert_eq!(calls.len(), 2);
    assert_eq!(calls[0].name, "a");
    assert_eq!(calls[1].name, "b");
}

#[test]
fn value_without_name_or_arguments_is_skipped() {
    let response = "<invoke>{\"arguments\":{}} {\"name\":\"a\"} {\"name\":7,\"arguments\":{}} \
                    {\"name\":\"ok\",\"arguments\":null}</invoke>";
    let (_, calls) = parse_tool_calls_fallback(response);
    assert_eq!(calls.len(), 1);
    assert_eq!(calls[0].name, "ok");
    assert_eq!(calls[0].arguments, "null");
}

#[test]
fn same_arguments_give_same_id_whatever_surrounds_them() {
    let one = "<invoke>{\"name\":\"a\",\"arguments\":{\"x\": 1}}</invoke>";
    let other = "Some text first.\n<tool_call>\n{ \"arguments\" : {\"x\":1}, \"name\" : \"b\" }\n</tool_call> and after";
    let (_, first) = parse_tool_calls_fallback(one);
    let (_, second) = parse_tool_calls_fallback(other);
    assert_eq!(first.len(), 1);
    assert_eq!(second.len(), 1);
    assert_eq!(first[0].arguments, "{\"x\":1}");
    assert_eq!(first[0].arguments, second[0].arguments);
    assert_eq!(first[0].id, second[0].id);
    assert_eq!(first[0].id, derive_call_id(&first[0].arguments));
}

#[test]
fn different_arguments_give_different_ids() {
    assert_ne!(derive_call_id("{\"x\":1}"), derive_call_id("{\"x\":2}"));
}

#[test]
fn call_id_is_prefix_and_md5_of_arguments() {
    assert_eq!(derive_call_id("{\"command\":\"date\"}"), DATE_ID);
    assert_eq!(derive_call_id("hello"), "call_5d41402abc4b2a76b9719d911017c592");
}

#[test]
fn braces_inside_strings_do_not_count() {
    let values = extract_json_values("{\"a\":\"}{\"} tail {\"b\":\"{\"}");
    assert_eq!(values, vec!["{\"a\":\"}{\"}".to_string(), "{\"b\":\"{\"}".to_string()]);
}

#[test]
fn escaped_quote_does_not_end_a_string() {
    let values = extract_json_values("{\"a\":\"x\\\"}\"}");
    assert_eq!(values, vec!["{\"a\":\"x\\\"}\"}".to_string()]);
}

#[test]
fn escaped_backslash_does_not_escape_the_quote_behind_it() {
    let values = extract_json_values("{\"a\":\"x\\\\\"} {\"b\":1}");
    assert_eq!(values, vec!["{\"a\":\"x\\\\\"}".to_string(), "{\"b\":1}".to_string()]);
}

#[test]
fn nested_objects_are_one_value() {
    let values = extract_json_values("x {\"a\":{\"b\":{\"c\":1}}} y");
    assert_eq!(values, vec!["{\"a\":{\"b\":{\"c\":1}}}".to_string()]);
}

#[test]
fn balanced_text_that_is_no_json_is_left_out() {
    let values = extract_json_values("{not json} {\"a\":1} {\"open\":");
    assert_eq!(values, vec!["{\"a\":1}".to_string()]);
}

#[test]
fn stray_closing_brace_is_passed_over() {
    let values = extract_json_values("} {\"a\":1}");
    assert_eq!(values, vec!["{\"a\":1}".to_string()]);
}

#[test]
fn no_braces_no_values() {
    assert!(extract_json_values("").is_empty());
    assert!(extract_json_values("just words").is_empty());
}

#[test]
fn tool_call_value_needs_string_name_and_arguments() {
    let call = parse_tool_call_value(DATE_CALL).unwrap();
    assert_eq!(call.name, "shell");
    assert_eq!(call.arguments, "{\"command\":\"date\"}");
    assert_eq!(call.id, DATE_ID);
    assert!(parse_tool_call_value("{\"name\":\"a\"}").is_none());
    assert!(parse_tool_call_value("{\"arguments\":{}}").is_none());
    assert!(parse_tool_call_value("[1,2]").is_none());
    assert!(parse_tool_call_value("not json").is_none());
}

#[test]
fn string_arguments_are_written_as_json() {
    let call = parse_tool_call_value("{\"name\":\"a\",\"arguments\":\"plain\"}").unwrap();
    assert_eq!(call.arguments, "\"plain\"");
}

#[test]
fn call_from_parts_needs_both() {
    assert!(tool_call_from_parts(None, Some("{}".to_string())).is_none());
    assert!(tool_call_from_parts(Some("a".to_string()), None).is_none());
    assert!(tool_call_from_parts(None, None).is_none());
    let call = tool_call_from_parts(Some("a".to_string()), Some("{}".to_string())).unwrap();
    assert_eq!(call.id, "call_99914b932bd37a50b983c5e7c90ae93b");
    assert_eq!(call.name, "a");
    assert_eq!(call.arguments, "{}");
}

#[test]
fn default_tags_are_the_three_pairs() {
    let tags = default_tags();
    assert_eq!(tags.len(), 3);
    assert_eq!(tags[0].open, "<function=");
    assert_eq!(tags[0].close, "</function>");
    assert_eq!(tags[1].open, "<tool_call");
    assert_eq!(tags[1].close, "</tool_call");
    assert_eq!(tags[2].open, "<invoke");
    assert_eq!(tags[2].close, "</invoke>");
}

#[test]
fn custom_tags_are_used() {
    let tags = vec![TagPair::new("[[", "]]")];
    let (text, calls) =
        parse_tool_calls_with_tags("go [[{\"name\":\"a\",\"arguments\":{}}]] end", &tags);
    assert_eq!(calls.len(), 1);
    assert_eq!(text, "go\nend");
    let (text, calls) = parse_tool_calls_with_tags(
        "<invoke>{\"name\":\"a\",\"arguments\":{}}</invoke>",
        &tags,
    );
    assert!(calls.is_empty());
    assert_eq!(text, "<invoke>{\"name\":\"a\",\"arguments\":{}}</invoke>");
}

#[test]
fn earliest_tag_wins_and_ties_go_to_the_first_pair() {
    let tags = vec![TagPair::new("<b>", "</b>"), TagPair::new("<a>", "</a>")];
    let (_, calls) = parse_tool_calls_with_tags(
        "<a>{\"name\":\"first\",\"arguments\":{}}</a><b>{\"name\":\"second\",\"arguments\":{}}</b>",
        &tags,
    );
    assert_eq!(calls.len(), 2);
    assert_eq!(calls[0].name, "first");
    assert_eq!(calls[1].name, "second");
    let tied = vec![TagPair::new("<x", "!"), TagPair::new("<x>", "</x>")];
    let (text, calls) =
        parse_tool_calls_with_tags("<x>{\"name\":\"a\",\"arguments\":{}}</x>!tail", &tied);
    assert_eq!(calls.len(), 1);
    assert_eq!(text, "tail");
}

#[test]
fn pair_with_empty_opening_tag_is_passed_over() {
    let tags = vec![TagPair::new("", ""), TagPair::new("<c>", "</c>")];
    let (text, calls) =
        parse_tool_calls_with_tags("hi <c>{\"name\":\"a\",\"arguments\":{}}</c>", &tags);
    assert_eq!(calls.len(), 1);
    assert_eq!(text, "hi");
    let (text, calls) = parse_tool_calls_with_tags("only text", &vec![TagPair::new("", "")]);
    assert!(calls.is_empty());
    assert_eq!(text, "only text");
}

#[test]
fn no_tags_at_all_keeps_the_text() {
    let (text, calls) = parse_tool_calls_with_tags(" abc ", &vec![]);
    assert!(calls.is_empty());
    assert_eq!(text, "abc");
}
