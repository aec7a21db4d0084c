use cubism_model::error::LoadError;
use cubism_model::expression::{Blend, Expression, ExpressionParameter};
use cubism_model::json::Json;
use cubism_model::scalar::Scalar;

fn scalar(x: f64) -> Scalar {
    Scalar { bits: x.to_bits() }
}

const SMILE: &str = r#"{
  "Type": "Live2D Expression",
  "FadeInTime": 0.5,
  "FadeOutTime": 0.25,
  "Parameters": [
    {"Id": "ParamMouthForm", "Value": 1.0, "Blend": "Add"},
    {"Id": "ParamEyeLOpen", "Value": 0.8, "Blend": "Multiply"},
    {"Id": "ParamBrowLY", "Value": -0.5, "Blend": "Overwrite"},
    {"Id": "ParamCheek", "Value": 1}
  ]
}"#;

#[test]
fn an_expression_is_read_with_its_blends() {
    let expression = Expression::parse(SMILE.as_bytes()).unwrap();
    assert_eq!(
        expression,
        Expression {
            fade_in_time: Some(scalar(0.5)),
            fade_out_time: Some(scalar(0.25)),
            parameters: vec![
                ExpressionParameter {
                    id: "ParamMouthForm".to_string(),
                    value: scalar(1.0),
                    blend: Blend::Add,
                },
                ExpressionParameter {
                    id: "ParamEyeLOpen".to_string(),
                    value: scalar(0.8),
                    blend: Blend::Multiply,
                },
                ExpressionParameter {
                    id: "ParamBrowLY".to_string(),
                    value: scalar(-0.5),
                    blend: Blend::Overwrite,
                },
                ExpressionParameter {
                    id: "ParamCheek".to_string(),
                    value: scalar(1.0),
                    blend: Blend::Add,
                },
            ],
        }
    );
}

#[test]
fn an_empty_object_is_an_expression_that_changes_nothing() {
    assert_eq!(
        Expression::parse(b"{}"),
        Ok(Expression { fade_in_time: None, fade_out_time: None, parameters: vec![] })
    );
}

#[test]
fn what_is_no_expression_is_a_parse_error() {
    let cases: Vec<&str> = vec![
        "",
        "[]",
        "3",
        "null",
        r#"{"FadeInTime": "soon"}"#,
        r#"{"Parameters": {}}"#,
        r#"{"Parameters": [{"Value": 1}]}"#,
        r#"{"Parameters": [{"Id": "P"}]}"#,
        r#"{"Parameters": [{"Id": "P", "Value": "1"}]}"#,
        r#"{"Parameters": [{"Id": "P", "Value": 1, "Blend": "Subtract"}]}"#,
        r#"{"Parameters": [{"Id": "P", "Value": 1, "Blend": 1}]}"#,
    ];
    for text in cases {
        assert_eq!(Expression::parse(text.as_bytes()), Err(LoadError::Parse), "{text}");
    }
}

#[test]
fn blends_are_read_from_their_names() {
    assert_eq!(Blend::from_text(&None), Ok(Blend::Add));
    assert_eq!(Blend::from_text(&Some("Add".to_string())), Ok(Blend::Add));
    assert_eq!(Blend::from_text(&Some("Multiply".to_string())), Ok(Blend::Multiply));
    assert_eq!(Blend::from_text(&Some("Overwrite".to_string())), Ok(Blend::Overwrite));
    assert_eq!(Blend::from_text(&Some("add".to_string())), Err(LoadError::Parse));
}

#[test]
fn from_json_reads_a_parsed_expression() {
    let json = Json::parse(SMILE.as_bytes()).unwrap();
    assert_eq!(Expression::from_json(&json), Expression::parse(SMILE.as_bytes()));
    assert_eq!(Expression::from_json(&Json::Array(vec![])), Err(LoadError::Parse));
}
