use openai_req::json::{Json, JsonNumber};

fn fraction(text: &str) -> JsonNumber {
    JsonNumber::Real(serde_json::from_str(text).unwrap())
}

#[test]
fn parse_reads_scalars_and_members() {
    let doc = Json::parse("{\"id\":\"file-1\",\"deleted\":true,\"bytes\":-3,\"n\":7}").unwrap();
    let expected = Json::Object(vec![
        ("bytes".to_string(), Json::Number(JsonNumber::NegInt(-3))),
        ("deleted".to_string(), Json::Bool(true)),
        ("id".to_string(), Json::String("file-1".to_string())),
        ("n".to_string(), Json::Number(JsonNumber::PosInt(7))),
    ]);
    assert_eq!(doc, expected);
}

#[test]
fn parse_tells_integers_from_other_numbers() {
    assert_eq!(Json::parse("0"), Some(Json::Number(JsonNumber::PosInt(0))));
    assert_eq!(Json::parse("18446744073709551615"), Some(Json::Number(JsonNumber::PosInt(u64::MAX))));
    assert_eq!(Json::parse("-9223372036854775808"), Some(Json::Number(JsonNumber::NegInt(i64::MIN))));
    assert_eq!(Json::parse("0.5"), Some(Json::Number(fraction("0.5"))));
    assert_eq!(Json::parse("1e3"), Some(Json::Number(fraction("1e3"))));
    match Json::parse("2.0") {
        Some(Json::Number(JsonNumber::Real(n))) => assert_eq!(n.as_f64(), Some(2.0)),
        other => panic!("not a number with a fraction: {:?}", other),
    }
}

#[test]
fn parse_reads_nested_documents() {
    let doc = Json::parse(" [null, [true, \"a\\nb\"], {\"k\": []}] ").unwrap();
    let expected = Json::Array(vec![
        Json::Null,
        Json::Array(vec![Json::Bool(true), Json::String("a\nb".to_string())]),
        Json::Object(vec![("k".to_string(), Json::Array(vec![]))]),
    ]);
    assert_eq!(doc, expected);
}

#[test]
fn parse_refuses_what_is_not_json() {
    assert_eq!(Json::parse("upstream timed out"), None);
    assert_eq!(Json::parse(""), None);
    assert_eq!(Json::parse("{} {}"), None);
    assert_eq!(Json::parse("{\"a\":}"), None);
}

#[test]
fn render_writes_compact_text() {
    let doc = Json::Object(vec![
        ("model".to_string(), Json::String("gpt-3.5-turbo".to_string())),
        ("n".to_string(), Json::Number(JsonNumber::PosInt(2))),
        ("stop".to_string(), Json::Array(vec![Json::Null, Json::Bool(false)])),
    ]);
    assert_eq!(doc.render(), "{\"model\":\"gpt-3.5-turbo\",\"n\":2,\"stop\":[null,false]}");
}

#[test]
fn render_writes_numbers_and_escapes() {
    let doc = Json::Array(vec![
        Json::Number(JsonNumber::NegInt(-12)),
        Json::Number(fraction("0.25")),
        Json::String("say \"hi\"\n".to_string()),
    ]);
    assert_eq!(doc.render(), "[-12,0.25,\"say \\\"hi\\\"\\n\"]");
}

#[test]
fn render_keeps_the_last_of_two_members_of_one_name() {
    let doc = Json::Object(vec![
        ("n".to_string(), Json::Number(JsonNumber::PosInt(1))),
        ("n".to_string(), Json::Number(JsonNumber::PosInt(2))),
    ]);
    assert_eq!(doc.render(), "{\"n\":2}");
}

#[test]
fn render_then_parse_gives_the_document_back() {
    let doc = Json::Object(vec![
        ("a".to_string(), Json::Array(vec![Json::Number(JsonNumber::PosInt(1)), Json::Null])),
        ("b".to_string(), Json::Object(vec![("c".to_string(), Json::Bool(true))])),
    ]);
    assert_eq!(Json::parse(&doc.render()), Some(doc));
}

#[test]
fn clamp_moves_integers_to_the_nearer_bound() {
    assert_eq!(JsonNumber::PosInt(5).clamp(0, 2), JsonNumber::PosInt(2));
    assert_eq!(JsonNumber::NegInt(-1).clamp(0, 2), JsonNumber::PosInt(0));
    assert_eq!(JsonNumber::PosInt(1).clamp(0, 2), JsonNumber::PosInt(1));
    assert_eq!(JsonNumber::PosInt(2).clamp(0, 2), JsonNumber::PosInt(2));
    assert_eq!(JsonNumber::NegInt(-7).clamp(-2, 2), JsonNumber::NegInt(-2));
    assert_eq!(JsonNumber::NegInt(-2).clamp(-2, 2), JsonNumber::NegInt(-2));
    assert_eq!(JsonNumber::PosInt(u64::MAX).clamp(-2, 2), JsonNumber::PosInt(2));
    assert_eq!(JsonNumber::PosInt(3).clamp(-5, -1), JsonNumber::NegInt(-1));
    assert_eq!(fraction("7.5").clamp(0, 2), fraction("7.5"));
}

#[test]
fn copy_is_equal() {
    assert_eq!(JsonNumber::PosInt(9).copy(), JsonNumber::PosInt(9));
    assert_eq!(fraction("0.125").copy(), fraction("0.125"));
    assert_eq!(JsonNumber::from_int(-4), JsonNumber::NegInt(-4));
    assert_eq!(JsonNumber::from_int(4), JsonNumber::PosInt(4));
}

#[test]
fn a_clone_is_equal() {
    let doc = Json::parse("{\"a\":[1,-2,0.5,\"x\",null,true],\"b\":{\"c\":{}}}").unwrap();
    assert_eq!(doc.clone(), doc);
    assert_eq!(Json::Null.clone(), Json::Null);
}
