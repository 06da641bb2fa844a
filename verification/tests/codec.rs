use openai_req::codec::{find_member, get_optional, get_required, put, put_nullable, put_some, JsonCodec};
use openai_req::common::{DeleteResponse, Input, LogitBias, Usage};
use openai_req::json::{Json, JsonNumber};

fn pos(n: u64) -> Json {
    Json::Number(JsonNumber::PosInt(n))
}

fn neg(n: i64) -> Json {
    Json::Number(JsonNumber::NegInt(n))
}

fn fraction(text: &str) -> JsonNumber {
    JsonNumber::Real(serde_json::from_str(text).unwrap())
}

#[test]
fn integers_decode_within_their_range_only() {
    assert_eq!(u16::from_json(&pos(65535)), Some(65535));
    assert_eq!(u16::from_json(&pos(65536)), None);
    assert_eq!(u16::from_json(&neg(-1)), None);
    assert_eq!(u32::from_json(&pos(4294967295)), Some(u32::MAX));
    assert_eq!(u32::from_json(&pos(4294967296)), None);
    assert_eq!(u64::from_json(&pos(u64::MAX)), Some(u64::MAX));
    assert_eq!(u64::from_json(&neg(-5)), None);
    assert_eq!(i32::from_json(&pos(2147483647)), Some(i32::MAX));
    assert_eq!(i32::from_json(&pos(2147483648)), None);
    assert_eq!(i32::from_json(&neg(-2147483648)), Some(i32::MIN));
    assert_eq!(i32::from_json(&neg(-2147483649)), None);
    assert_eq!(i64::from_json(&pos(9223372036854775807)), Some(i64::MAX));
    assert_eq!(i64::from_json(&pos(9223372036854775808)), None);
    assert_eq!(i64::from_json(&neg(i64::MIN)), Some(i64::MIN));
}

#[test]
fn integers_do_not_decode_from_other_documents() {
    assert_eq!(u64::from_json(&Json::Number(fraction("1.5"))), None);
    assert_eq!(i64::from_json(&Json::String("1".to_string())), None);
    assert_eq!(u16::from_json(&Json::Null), None);
    assert_eq!(bool::from_json(&pos(1)), None);
    assert_eq!(String::from_json(&Json::Bool(true)), None);
}

#[test]
fn integers_encode_by_their_sign() {
    assert_eq!(7u16.to_json(), pos(7));
    assert_eq!(0i64.to_json(), pos(0));
    assert_eq!((-3i64).to_json(), neg(-3));
    assert_eq!((-3i32).to_json(), neg(-3));
    assert_eq!(i32::MAX.to_json(), pos(2147483647));
    assert_eq!(u64::MAX.to_json(), pos(u64::MAX));
    assert_eq!(true.to_json(), Json::Bool(true));
    assert_eq!("a".to_string().to_json(), Json::String("a".to_string()));
}

#[test]
fn numbers_of_any_kind_stand_for_themselves() {
    assert_eq!(JsonNumber::from_json(&pos(3)), Some(JsonNumber::PosInt(3)));
    assert_eq!(JsonNumber::from_json(&Json::Number(fraction("0.5"))), Some(fraction("0.5")));
    assert_eq!(JsonNumber::from_json(&Json::String("0.5".to_string())), None);
    assert_eq!(fraction("0.5").to_json(), Json::Number(fraction("0.5")));
}

#[test]
fn vectors_decode_item_by_item() {
    let doc = Json::Array(vec![pos(1), pos(2), pos(3)]);
    assert_eq!(Vec::<u16>::from_json(&doc), Some(vec![1, 2, 3]));
    let bad = Json::Array(vec![pos(1), Json::Null, pos(3)]);
    assert_eq!(Vec::<u16>::from_json(&bad), None);
    assert_eq!(Vec::<u16>::from_json(&Json::Array(vec![])), Some(vec![]));
    assert_eq!(Vec::<u16>::from_json(&pos(1)), None);
    assert_eq!(vec![1u16, 2].to_json(), Json::Array(vec![pos(1), pos(2)]));
}

#[test]
fn the_last_member_of_a_name_counts() {
    let members = vec![
        ("n".to_string(), pos(1)),
        ("m".to_string(), pos(5)),
        ("n".to_string(), pos(2)),
    ];
    assert_eq!(find_member(&members, "n"), Some(&pos(2)));
    assert_eq!(find_member(&members, "m"), Some(&pos(5)));
    assert_eq!(find_member(&members, "x"), None);
    assert_eq!(find_member(&Vec::new(), "n"), None);
}

#[test]
fn required_and_optional_members() {
    let members = vec![
        ("n".to_string(), pos(1)),
        ("none".to_string(), Json::Null),
        ("text".to_string(), Json::String("t".to_string())),
    ];
    assert_eq!(get_required::<u16>(&members, "n"), Some(1));
    assert_eq!(get_required::<u16>(&members, "missing"), None);
    assert_eq!(get_required::<u16>(&members, "text"), None);
    assert_eq!(get_required::<u16>(&members, "none"), None);
    assert_eq!(get_optional::<u16>(&members, "n"), Some(Some(1)));
    assert_eq!(get_optional::<u16>(&members, "missing"), Some(None));
    assert_eq!(get_optional::<u16>(&members, "none"), Some(None));
    assert_eq!(get_optional::<u16>(&members, "text"), None);
}

#[test]
fn put_appends_members() {
    let mut members = Vec::new();
    put(&mut members, "a", &1u16);
    put_some(&mut members, "b", &Some(2u16));
    put_some::<u16>(&mut members, "c", &None);
    put_nullable(&mut members, "d", &Some(4u16));
    put_nullable::<u16>(&mut members, "e", &None);
    assert_eq!(
        members,
        vec![
            ("a".to_string(), pos(1)),
            ("b".to_string(), pos(2)),
            ("d".to_string(), pos(4)),
            ("e".to_string(), Json::Null),
        ]
    );
}

#[test]
fn usage_round_trip() {
    let usage = Usage { prompt_tokens: 9, completion_tokens: 12, total_tokens: 21 };
    let doc = usage.to_json();
    assert_eq!(
        doc,
        Json::Object(vec![
            ("prompt_tokens".to_string(), pos(9)),
            ("completion_tokens".to_string(), pos(12)),
            ("total_tokens".to_string(), pos(21)),
        ])
    );
    assert_eq!(Usage::from_json(&doc), Some(usage));
}

#[test]
fn usage_needs_every_member() {
    let doc = Json::parse("{\"prompt_tokens\":9,\"total_tokens\":21}").unwrap();
    assert_eq!(Usage::from_json(&doc), None);
    let doc = Json::parse("{\"prompt_tokens\":9,\"completion_tokens\":-1,\"total_tokens\":21}").unwrap();
    assert_eq!(Usage::from_json(&doc), None);
    assert_eq!(Usage::from_json(&Json::Array(vec![])), None);
}

#[test]
fn members_that_are_not_known_are_passed_over() {
    let doc = Json::parse("{\"id\":\"file-1\",\"object\":\"file\",\"deleted\":true,\"extra\":[1,2]}").unwrap();
    assert_eq!(
        DeleteResponse::from_json(&doc),
        Some(DeleteResponse { id: "file-1".to_string(), object: "file".to_string(), deleted: true })
    );
}

#[test]
fn input_is_a_text_or_a_list() {
    assert_eq!(Input::from_str("hi").to_json(), Json::String("hi".to_string()));
    assert_eq!(Input::from_string("hi".to_string()), Input::String("hi".to_string()));
    let list = Input::from_strings(vec!["a".to_string(), "b".to_string()]);
    assert_eq!(
        list.to_json(),
        Json::Array(vec![Json::String("a".to_string()), Json::String("b".to_string())])
    );
    assert_eq!(Input::from_json(&list.to_json()), Some(list));
    assert_eq!(Input::from_json(&Json::String("hi".to_string())), Some(Input::String("hi".to_string())));
    assert_eq!(Input::from_json(&Json::Array(vec![])), Some(Input::StringArray(vec![])));
    assert_eq!(Input::from_json(&pos(1)), None);
    assert_eq!(Input::from_json(&Json::Array(vec![pos(1)])), None);
}

#[test]
fn logit_bias_is_an_object_of_numbers() {
    let bias = LogitBias {
        entries: vec![("50256".to_string(), JsonNumber::NegInt(-100)), ("11".to_string(), fraction("1.5"))],
    };
    let doc = bias.to_json();
    assert_eq!(
        doc,
        Json::Object(vec![
            ("50256".to_string(), neg(-100)),
            ("11".to_string(), Json::Number(fraction("1.5"))),
        ])
    );
    assert_eq!(doc.render(), "{\"11\":1.5,\"50256\":-100}");
    assert_eq!(LogitBias::from_json(&doc), Some(bias));
    let bad = Json::Object(vec![("11".to_string(), Json::String("1".to_string()))]);
    assert_eq!(LogitBias::from_json(&bad), None);
    assert_eq!(LogitBias::from_json(&Json::Array(vec![])), None);
    assert_eq!(LogitBias::from_json(&Json::Object(vec![])), Some(LogitBias { entries: vec![] }));
}

#[test]
fn input_comes_from_a_text_or_a_list() {
    let one: Input = "hi".to_string().into();
    assert_eq!(one, Input::String("hi".to_string()));
    let many = Input::from(vec!["a".to_string()]);
    assert_eq!(many, Input::StringArray(vec!["a".to_string()]));
}
