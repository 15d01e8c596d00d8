use es_analyze::analyze::{AnalyzeOperation, AnalyzeResult};
use es_analyze::error::EsError;
use es_analyze::json::JsonValue;

#[test]
fn unscoped_request_posts_body_alone() {
    let op = AnalyzeOperation::new("hello");
    assert_eq!(op.url_path(), "/_analyze");
    assert_eq!(op.to_json(), "{\"body\":\"hello\"}");
}

#[test]
fn scoped_request_posts_body_and_analyzer() {
    let op = AnalyzeOperation::new("quick brown fox").with_index("docs").with_analyzer("standard");
    assert_eq!(op.url_path(), "/docs/_analyze");
    assert_eq!(op.to_json(), "{\"body\":\"quick brown fox\",\"analyzer\":\"standard\"}");
}

#[test]
fn later_configuration_overwrites_earlier() {
    let op = AnalyzeOperation::new("text").with_index("first").with_index("second");
    assert_eq!(op.url_path(), "/second/_analyze");
    let op = AnalyzeOperation::new("text").with_analyzer("a").with_analyzer("b");
    assert_eq!(op.to_json(), "{\"body\":\"text\",\"analyzer\":\"b\"}");
}

#[test]
fn body_with_quote_is_escaped() {
    let op = AnalyzeOperation::new("a\"b");
    assert_eq!(op.to_json(), "{\"body\":\"a\\\"b\"}");
}

#[test]
fn body_with_newline_is_escaped() {
    let op = AnalyzeOperation::new("a\nb");
    assert_eq!(op.to_json(), "{\"body\":\"a\\nb\"}");
}

#[test]
fn one_token_round_trips() {
    let text =
        "{\"tokens\":[{\"token\":\"t\",\"type\":\"word\",\"position\":0,\"start_offset\":0,\"end_offset\":1}]}";
    let res = AnalyzeResult::from_response(Some(text)).unwrap();
    assert_eq!(res.tokens.len(), 1);
    assert_eq!(res.tokens[0].token, "t");
    assert_eq!(res.tokens[0].token_type, "word");
    assert_eq!(res.tokens[0].position, 0);
    assert_eq!(res.tokens[0].start_offset, 0);
    assert_eq!(res.tokens[0].end_offset, 1);
}

#[test]
fn tokens_keep_response_order() {
    let text = "{\"tokens\":[\
        {\"token\":\"quick\",\"type\":\"word\",\"position\":0,\"start_offset\":0,\"end_offset\":5},\
        {\"token\":\"brown\",\"type\":\"word\",\"position\":1,\"start_offset\":6,\"end_offset\":11},\
        {\"token\":\"fox\",\"type\":\"word\",\"position\":2,\"start_offset\":12,\"end_offset\":15}]}";
    let res = AnalyzeResult::from_response(Some(text)).unwrap();
    let words: Vec<&str> = res.tokens.iter().map(|t| t.token.as_str()).collect();
    assert_eq!(words, vec!["quick", "brown", "fox"]);
    assert_eq!(res.tokens[2].position, 2);
}

#[test]
fn empty_tokens_array_is_an_empty_result() {
    let res = AnalyzeResult::from_response(Some("{\"tokens\":[]}"));
    assert!(res.is_ok());
    assert_eq!(res.unwrap().tokens.len(), 0);
}

#[test]
fn missing_tokens_key_is_malformed() {
    assert_eq!(AnalyzeResult::from_response(Some("{}")), Err(EsError::MalformedResponse));
    assert_eq!(
        AnalyzeResult::from_response(Some("{\"other\":[]}")),
        Err(EsError::MalformedResponse)
    );
}

#[test]
fn tokens_not_an_array_is_malformed() {
    assert_eq!(
        AnalyzeResult::from_response(Some("{\"tokens\":3}")),
        Err(EsError::MalformedResponse)
    );
}

#[test]
fn element_missing_position_fails_whole_parse() {
    let text = "{\"tokens\":[\
        {\"token\":\"a\",\"type\":\"word\",\"position\":0,\"start_offset\":0,\"end_offset\":1},\
        {\"token\":\"b\",\"type\":\"word\",\"start_offset\":2,\"end_offset\":3}]}";
    assert_eq!(AnalyzeResult::from_response(Some(text)), Err(EsError::MalformedResponse));
}

#[test]
fn mistyped_field_is_malformed() {
    let text = "{\"tokens\":[{\"token\":\"t\",\"type\":\"word\",\"position\":0.5,\
        \"start_offset\":0,\"end_offset\":1}]}";
    assert_eq!(AnalyzeResult::from_response(Some(text)), Err(EsError::MalformedResponse));
    let text = "{\"tokens\":[{\"token\":7,\"type\":\"word\",\"position\":0,\
        \"start_offset\":0,\"end_offset\":1}]}";
    assert_eq!(AnalyzeResult::from_response(Some(text)), Err(EsError::MalformedResponse));
}

#[test]
fn absent_payload_is_a_missing_payload_error() {
    assert_eq!(AnalyzeResult::from_response(None), Err(EsError::MissingPayload));
}

#[test]
fn invalid_json_is_malformed() {
    assert_eq!(
        AnalyzeResult::from_response(Some("{\"tokens\":")),
        Err(EsError::MalformedResponse)
    );
    assert_eq!(AnalyzeResult::from_response(Some("")), Err(EsError::MalformedResponse));
}

#[test]
fn typed_result_from_a_built_document() {
    let token = JsonValue::Object(vec![
        ("token".to_string(), JsonValue::Str("t".to_string())),
        ("type".to_string(), JsonValue::Str("word".to_string())),
        ("position".to_string(), JsonValue::UInt(0)),
        ("start_offset".to_string(), JsonValue::UInt(0)),
        ("end_offset".to_string(), JsonValue::UInt(1)),
    ]);
    let doc = JsonValue::Object(vec![("tokens".to_string(), JsonValue::Array(vec![token]))]);
    let res = AnalyzeResult::from_json(&doc).unwrap();
    assert_eq!(res.tokens.len(), 1);
    assert_eq!(res.tokens[0].token, "t");
    assert_eq!(res.tokens[0].token_type, "word");
}

#[test]
fn largest_offsets_survive() {
    let text = "{\"tokens\":[{\"token\":\"t\",\"type\":\"word\",\"position\":18446744073709551615,\
        \"start_offset\":18446744073709551615,\"end_offset\":18446744073709551615}]}";
    let res = AnalyzeResult::from_response(Some(text)).unwrap();
    assert_eq!(res.tokens[0].position, u64::MAX);
    assert_eq!(res.tokens[0].end_offset, u64::MAX);
}
