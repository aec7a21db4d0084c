use cubism_model::error::LoadError;
use cubism_model::json::{or_value, require, text_is, Json, Member, Number};
use cubism_model::scalar::Scalar;

fn number(x: f64) -> Json {
    let integer = if x.fract() == 0.0 { Some(x as i64) } else { None };
    Json::Number(Number { integer, scalar: Some(Scalar { bits: x.to_bits() }) })
}

fn text(t: &str) -> Json {
    Json::Text(t.to_string())
}

fn object(members: Vec<(&str, Json)>) -> Json {
    Json::Object(
        members.into_iter().map(|(key, value)| Member { key: key.to_string(), value }).collect(),
    )
}

#[test]
fn parse_reads_an_object_with_every_kind_of_value() {
    let doc = Json::parse(br#"{"a": 1, "b": [true, null, "x"], "c": 1.5}"#).unwrap();
    let expected = object(vec![
        ("a", number(1.0)),
        ("b", Json::Array(vec![Json::Bool(true), Json::Null, text("x")])),
        ("c", number(1.5)),
    ]);
    assert_eq!(doc, expected);
}

#[test]
fn parse_refuses_what_is_no_document() {
    assert!(Json::parse(b"{\"a\": ").is_none());
    assert!(Json::parse(b"1 2").is_none());
    assert!(Json::parse(b"").is_none());
    assert!(Json::parse(b"{'a': 1}").is_none());
}

#[test]
fn parse_reads_numbers_both_ways() {
    assert_eq!(Json::parse(b"-7").unwrap(), number(-7.0));
    assert_eq!(Json::parse(b"0.25").unwrap(), number(0.25));
    assert_eq!(
        Json::parse(b"18446744073709551615").unwrap(),
        Json::Number(Number {
            integer: None,
            scalar: Some(Scalar { bits: 18446744073709551615f64.to_bits() }),
        })
    );
    assert_eq!(Json::parse(b"3").unwrap().as_integer(), Some(3));
    assert_eq!(Json::parse(b"3.0").unwrap().as_integer(), None);
    assert_eq!(Json::parse(b"3").unwrap().as_scalar(), Some(Scalar { bits: 3.0f64.to_bits() }));
}

#[test]
fn parse_reads_nested_documents_and_text_escapes() {
    let doc = Json::parse(br#"{"outer": {"inner": ["a\nb", {"k": []}]}}"#).unwrap();
    let expected = object(vec![(
        "outer",
        object(vec![(
            "inner",
            Json::Array(vec![text("a\nb"), object(vec![("k", Json::Array(vec![]))])]),
        )]),
    )]);
    assert_eq!(doc, expected);
}

#[test]
fn member_finds_the_first_entry_of_that_name() {
    let doc = object(vec![("a", number(1.0)), ("b", number(2.0)), ("a", number(3.0))]);
    assert_eq!(doc.member("a"), Some(&number(1.0)));
    assert_eq!(doc.member("b"), Some(&number(2.0)));
    assert_eq!(doc.member("c"), None);
    assert_eq!(number(1.0).member("a"), None);
    assert_eq!(Json::Array(vec![]).member("a"), None);
}

#[test]
fn field_takes_null_for_absent() {
    let doc = object(vec![("a", Json::Null), ("b", Json::Bool(false))]);
    assert_eq!(doc.member("a"), Some(&Json::Null));
    assert_eq!(doc.field("a"), None);
    assert_eq!(doc.field("b"), Some(&Json::Bool(false)));
    assert_eq!(doc.field("c"), None);
}

#[test]
fn typed_fields_tell_absent_from_wrong() {
    let doc = object(vec![
        ("t", text("x")),
        ("i", number(4.0)),
        ("s", number(0.5)),
        ("f", Json::Bool(true)),
        ("n", Json::Null),
        ("o", object(vec![])),
        ("l", Json::Array(vec![text("p"), text("q")])),
        ("neg", number(-1.0)),
    ]);
    assert_eq!(doc.text_field("t"), Ok(Some("x".to_string())));
    assert_eq!(doc.text_field("n"), Ok(None));
    assert_eq!(doc.text_field("missing"), Ok(None));
    assert_eq!(doc.text_field("i"), Err(LoadError::Parse));

    assert_eq!(doc.integer_field("i"), Ok(Some(4)));
    assert_eq!(doc.integer_field("s"), Err(LoadError::Parse));
    assert_eq!(doc.integer_field("missing"), Ok(None));

    assert_eq!(doc.count_field("i"), Ok(Some(4)));
    assert_eq!(doc.count_field("neg"), Err(LoadError::Parse));
    assert_eq!(doc.count_field("n"), Ok(None));

    assert_eq!(doc.scalar_field("s"), Ok(Some(Scalar { bits: 0.5f64.to_bits() })));
    assert_eq!(doc.scalar_field("i"), Ok(Some(Scalar { bits: 4.0f64.to_bits() })));
    assert_eq!(doc.scalar_field("t"), Err(LoadError::Parse));

    assert_eq!(doc.flag_field("f"), Ok(Some(true)));
    assert_eq!(doc.flag_field("t"), Err(LoadError::Parse));
    assert_eq!(doc.flag_field("missing"), Ok(None));

    assert_eq!(doc.object_field("o"), Ok(Some(&object(vec![]))));
    assert_eq!(doc.object_field("l"), Err(LoadError::Parse));
    assert_eq!(doc.object_field("missing"), Ok(None));

    assert_eq!(doc.items_field("l").unwrap().unwrap().len(), 2);
    assert_eq!(doc.items_field("missing"), Ok(None));
    assert_eq!(doc.items_field("o"), Err(LoadError::Parse));

    assert_eq!(doc.texts_field("l"), Ok(vec!["p".to_string(), "q".to_string()]));
    assert_eq!(doc.texts_field("missing"), Ok(vec![]));
    assert_eq!(doc.texts_field("t"), Err(LoadError::Parse));
}

#[test]
fn texts_takes_all_or_none() {
    assert_eq!(Json::texts(&vec![text("a"), text("b")]), Ok(vec!["a".to_string(), "b".to_string()]));
    assert_eq!(Json::texts(&vec![text("a"), number(1.0)]), Err(LoadError::Parse));
    assert_eq!(Json::texts(&vec![]), Ok(vec![]));
}

#[test]
fn plain_readers_read_their_own_kind_only() {
    assert_eq!(text("x").as_text(), Some(&"x".to_string()));
    assert_eq!(number(1.0).as_text(), None);
    assert_eq!(Json::Bool(true).as_flag(), Some(true));
    assert_eq!(Json::Null.as_flag(), None);
    assert_eq!(Json::Array(vec![Json::Null]).as_items(), Some(&vec![Json::Null]));
    assert_eq!(text("x").as_items(), None);
    assert_eq!(text("1").as_integer(), None);
    assert_eq!(text("1").as_scalar(), None);
    assert!(object(vec![]).is_object());
    assert!(!Json::Array(vec![]).is_object());
}

#[test]
fn require_and_or_value_fill_in_for_what_is_left_out() {
    assert_eq!(require(Ok(Some(1))), Ok(1));
    assert_eq!(require::<i64>(Ok(None)), Err(LoadError::Parse));
    assert_eq!(require::<i64>(Err(LoadError::CountMismatch)), Err(LoadError::CountMismatch));
    assert_eq!(or_value(Ok(Some(1)), 9), Ok(1));
    assert_eq!(or_value(Ok(None), 9), Ok(9));
    assert_eq!(or_value(Err(LoadError::Parse), 9), Err(LoadError::Parse));
}

#[test]
fn text_is_compares_whole_texts() {
    assert!(text_is(&"Part".to_string(), "Part"));
    assert!(!text_is(&"Part".to_string(), "Parameter"));
    assert!(!text_is(&"part".to_string(), "Part"));
    assert!(text_is(&String::new(), ""));
}
