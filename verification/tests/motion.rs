use cubism_model::error::LoadError;
use cubism_model::json::Json;
use cubism_model::motion::{Curve, Meta, MotionCurveDocument, Segment, SegmentPoint};
use cubism_model::scalar::Scalar;

fn scalar(x: f64) -> Scalar {
    Scalar { bits: x.to_bits() }
}

fn point(time: f64, value: f64) -> SegmentPoint {
    SegmentPoint { time: scalar(time), value: scalar(value) }
}

fn idle_text(total_segment_count: u64, total_point_count: u64) -> String {
    format!(
        r#"{{
  "Version": 3,
  "Meta": {{
    "Duration": 2.0,
    "Fps": 30.0,
    "Loop": true,
    "AreBeziersRestricted": false,
    "CurveCount": 1,
    "TotalSegmentCount": {},
    "TotalPointCount": {},
    "UserDataCount": 0,
    "TotalUserDataSize": 0
  }},
  "Curves": [
    {{
      "Target": "Parameter",
      "Id": "ParamAngleX",
      "Segments": [
        {{"Linear": [{{"Time": 0.0, "Value": 0.0}}, {{"Time": 0.25, "Value": 1.0}}]}},
        {{"Bezier": [
          {{"Time": 0.25, "Value": 1.0}},
          {{"Time": 0.3, "Value": 2.0}},
          {{"Time": 0.35, "Value": 2.0}},
          {{"Time": 0.4, "Value": 1.0}}
        ]}},
        {{"Stepped": [{{"Time": 0.4, "Value": 1.0}}, 0.5]}}
      ]
    }}
  ]
}}"#,
        total_segment_count, total_point_count
    )
}

fn idle_document() -> MotionCurveDocument {
    MotionCurveDocument {
        version: 3,
        meta: Meta {
            duration: scalar(2.0),
            fps: scalar(30.0),
            looped: true,
            restricted_beziers: false,
            curve_count: 1,
            total_segment_count: 3,
            total_point_count: 7,
            user_data_count: 0,
            total_user_data_size: 0,
        },
        curves: vec![Curve {
            target: "Parameter".to_string(),
            id: "ParamAngleX".to_string(),
            segments: vec![
                Segment::Linear(point(0.0, 0.0), point(0.25, 1.0)),
                Segment::Bezier(vec![
                    point(0.25, 1.0),
                    point(0.3, 2.0),
                    point(0.35, 2.0),
                    point(0.4, 1.0),
                ]),
                Segment::Stepped(point(0.4, 1.0), scalar(0.5)),
            ],
        }],
    }
}

#[test]
fn a_curve_of_three_segments_is_read_in_order() {
    let document = MotionCurveDocument::parse(idle_text(3, 7).as_bytes()).unwrap();
    assert_eq!(document, idle_document());
    assert_eq!(document.curves.len(), 1);
    let segments = &document.curves[0].segments;
    assert_eq!(segments.len(), 3);
    assert!(matches!(segments[0], Segment::Linear(_, _)));
    assert!(matches!(&segments[1], Segment::Bezier(points) if points.len() == 4));
    assert!(matches!(segments[2], Segment::Stepped(_, until) if until == scalar(0.5)));
}

#[test]
fn a_wrong_segment_total_is_a_count_mismatch() {
    assert_eq!(
        MotionCurveDocument::parse(idle_text(4, 7).as_bytes()),
        Err(LoadError::CountMismatch)
    );
}

#[test]
fn a_wrong_point_total_is_a_count_mismatch() {
    assert_eq!(
        MotionCurveDocument::parse(idle_text(3, 8).as_bytes()),
        Err(LoadError::CountMismatch)
    );
    assert_eq!(
        MotionCurveDocument::parse(idle_text(3, 6).as_bytes()),
        Err(LoadError::CountMismatch)
    );
}

#[test]
fn a_wrong_curve_count_is_a_count_mismatch() {
    let mut document = idle_document();
    document.meta.curve_count = 2;
    assert_eq!(document.validate(), Err(LoadError::CountMismatch));
    assert!(!document.counts_match());
}

#[test]
fn totals_count_two_for_linear_all_for_bezier_one_for_steps() {
    let document = idle_document();
    assert_eq!(document.segment_total(u64::MAX), Some(3));
    assert_eq!(document.point_total(u64::MAX), Some(7));
    assert_eq!(document.point_total(7), Some(7));
    assert_eq!(document.point_total(6), None);
    assert_eq!(document.segment_total(2), None);
    assert_eq!(document.curves[0].point_total(100), Some(7));
    assert_eq!(Segment::Linear(point(0.0, 0.0), point(1.0, 0.0)).point_count(), 2);
    assert_eq!(Segment::Bezier(vec![point(0.0, 0.0); 5]).point_count(), 5);
    assert_eq!(Segment::Stepped(point(0.0, 0.0), scalar(1.0)).point_count(), 1);
    assert_eq!(Segment::InverseStepped(scalar(0.0), point(1.0, 0.0)).point_count(), 1);
}

#[test]
fn a_valid_document_passes_validation() {
    let document = idle_document();
    assert_eq!(document.validate(), Ok(()));
    assert!(document.is_well_formed());
    assert!(document.counts_match());
    assert!(document.is_chained());
}

#[test]
fn a_segment_that_starts_before_its_forerunner_is_out_of_order() {
    let mut document = idle_document();
    document.curves[0].segments[2] = Segment::Stepped(point(0.1, 1.0), scalar(0.5));
    assert_eq!(document.validate(), Err(LoadError::OutOfOrderSegments));
    assert!(!document.is_chained());
}

#[test]
fn a_segment_that_does_not_start_where_its_forerunner_ends_is_out_of_order() {
    let mut document = idle_document();
    document.curves[0].segments[2] = Segment::Stepped(point(0.45, 1.0), scalar(0.5));
    assert_eq!(document.validate(), Err(LoadError::OutOfOrderSegments));
}

#[test]
fn an_out_of_order_text_is_refused() {
    let text = r#"{
      "Version": 3,
      "Meta": {"Duration": 1, "Fps": 30, "CurveCount": 1, "TotalSegmentCount": 2, "TotalPointCount": 4},
      "Curves": [{"Target": "Parameter", "Id": "P", "Segments": [
        {"Linear": [{"Time": 0.5, "Value": 0}, {"Time": 1.0, "Value": 1}]},
        {"Linear": [{"Time": 0.25, "Value": 0}, {"Time": 0.5, "Value": 1}]}
      ]}]
    }"#;
    assert_eq!(MotionCurveDocument::parse(text.as_bytes()), Err(LoadError::OutOfOrderSegments));
}

#[test]
fn counts_are_judged_before_the_order() {
    let mut document = idle_document();
    document.curves[0].segments[2] = Segment::Stepped(point(0.1, 1.0), scalar(0.5));
    document.meta.total_point_count = 9;
    assert_eq!(document.validate(), Err(LoadError::CountMismatch));
}

#[test]
fn an_inverse_stepped_segment_starts_at_its_scalar() {
    let mut document = idle_document();
    document.curves[0].segments[2] = Segment::InverseStepped(scalar(0.4), point(0.5, 3.0));
    assert_eq!(document.validate(), Ok(()));
    assert_eq!(document.curves[0].segments[2].start_time(), Some(scalar(0.4)));
    assert_eq!(document.curves[0].segments[2].end_time(), Some(scalar(0.5)));
    document.curves[0].segments[2] = Segment::InverseStepped(scalar(0.5), point(0.4, 3.0));
    assert_eq!(document.validate(), Err(LoadError::OutOfOrderSegments));
}

#[test]
fn a_bezier_segment_of_fewer_than_two_points_is_malformed() {
    let mut document = idle_document();
    document.curves[0].segments[1] = Segment::Bezier(vec![point(0.25, 1.0)]);
    document.meta.total_point_count = 4;
    assert_eq!(document.validate(), Err(LoadError::Parse));
    assert!(!document.is_well_formed());
    assert!(!document.curves[0].is_well_formed());
    assert!(!document.curves[0].is_chained());
    assert_eq!(document.curves[0].segments[1].start_time(), None);
    assert_eq!(document.curves[0].segments[1].end_time(), None);
    assert!(!document.curves[0].segments[1].is_well_formed());
}

#[test]
fn start_and_end_times_of_each_kind() {
    let linear = Segment::Linear(point(1.0, 0.0), point(2.0, 0.0));
    assert_eq!(linear.start_time(), Some(scalar(1.0)));
    assert_eq!(linear.end_time(), Some(scalar(2.0)));
    let bezier = Segment::Bezier(vec![point(1.0, 0.0), point(1.5, 0.0), point(3.0, 0.0)]);
    assert_eq!(bezier.start_time(), Some(scalar(1.0)));
    assert_eq!(bezier.end_time(), Some(scalar(3.0)));
    let stepped = Segment::Stepped(point(1.0, 0.0), scalar(4.0));
    assert_eq!(stepped.start_time(), Some(scalar(1.0)));
    assert_eq!(stepped.end_time(), Some(scalar(4.0)));
}

#[test]
fn an_empty_document_is_valid_when_it_declares_nothing() {
    let text = r#"{"Version": 3, "Meta": {"Duration": 0, "Fps": 30, "CurveCount": 0,
                   "TotalSegmentCount": 0, "TotalPointCount": 0}}"#;
    let document = MotionCurveDocument::parse(text.as_bytes()).unwrap();
    assert_eq!(document.curves, vec![]);
    assert!(!document.meta.looped);
    assert!(!document.meta.restricted_beziers);
    assert_eq!(document.meta.user_data_count, 0);
    assert_eq!(document.meta.duration, scalar(0.0));
    assert_eq!(document.meta.fps, scalar(30.0));
}

#[test]
fn what_is_no_motion_is_a_parse_error() {
    let cases: Vec<&str> = vec![
        "",
        "[]",
        "{}",
        r#"{"Version": 3}"#,
        r#"{"Version": "3", "Meta": {"Duration": 0, "Fps": 30, "CurveCount": 0, "TotalSegmentCount": 0, "TotalPointCount": 0}}"#,
        r#"{"Version": 3, "Meta": {"Fps": 30, "CurveCount": 0, "TotalSegmentCount": 0, "TotalPointCount": 0}}"#,
        r#"{"Version": 3, "Meta": {"Duration": 0, "Fps": 30, "CurveCount": -1, "TotalSegmentCount": 0, "TotalPointCount": 0}}"#,
        r#"{"Version": 3, "Meta": {"Duration": 0, "Fps": 30, "CurveCount": 0, "TotalSegmentCount": 0, "TotalPointCount": 0, "Loop": 1}}"#,
        r#"{"Version": 3, "Meta": {"Duration": 0, "Fps": 30, "CurveCount": 0, "TotalSegmentCount": 0, "TotalPointCount": 0}, "Curves": {}}"#,
        r#"{"Version": 3, "Meta": {"Duration": 0, "Fps": 30, "CurveCount": 1, "TotalSegmentCount": 0, "TotalPointCount": 0}, "Curves": [{"Id": "P"}]}"#,
        r#"{"Version": 3, "Meta": {"Duration": 0, "Fps": 30, "CurveCount": 1, "TotalSegmentCount": 1, "TotalPointCount": 2}, "Curves": [{"Target": "Parameter", "Id": "P", "Segments": [{"Cubic": []}]}]}"#,
        r#"{"Version": 3, "Meta": {"Duration": 0, "Fps": 30, "CurveCount": 1, "TotalSegmentCount": 1, "TotalPointCount": 2}, "Curves": [{"Target": "Parameter", "Id": "P", "Segments": [{"Linear": [{"Time": 0, "Value": 0}]}]}]}"#,
        r#"{"Version": 3, "Meta": {"Duration": 0, "Fps": 30, "CurveCount": 1, "TotalSegmentCount": 1, "TotalPointCount": 1}, "Curves": [{"Target": "Parameter", "Id": "P", "Segments": [{"Bezier": [{"Time": 0, "Value": 0}]}]}]}"#,
        r#"{"Version": 3, "Meta": {"Duration": 0, "Fps": 30, "CurveCount": 1, "TotalSegmentCount": 1, "TotalPointCount": 1}, "Curves": [{"Target": "Parameter", "Id": "P", "Segments": [{"Stepped": [{"Time": 0, "Value": 0}, "late"]}]}]}"#,
        r#"{"Version": 3, "Meta": {"Duration": 0, "Fps": 30, "CurveCount": 1, "TotalSegmentCount": 1, "TotalPointCount": 2}, "Curves": [{"Target": "Parameter", "Id": "P", "Segments": [{"Linear": [{"Time": 0}, {"Time": 1, "Value": 0}]}]}]}"#,
    ];
    for text in cases {
        assert_eq!(MotionCurveDocument::parse(text.as_bytes()), Err(LoadError::Parse), "{text}");
    }
}

#[test]
fn decode_reads_without_validating() {
    let json = Json::parse(idle_text(4, 7).as_bytes()).unwrap();
    let document = MotionCurveDocument::decode(&json).unwrap();
    assert_eq!(document.meta.total_segment_count, 4);
    assert_eq!(document.curves, idle_document().curves);
    assert_eq!(MotionCurveDocument::from_json(&json), Err(LoadError::CountMismatch));
}

#[test]
fn each_kind_of_segment_is_read_from_its_tag() {
    let read = |text: &str| Segment::from_json(&Json::parse(text.as_bytes()).unwrap());
    assert_eq!(
        read(r#"{"Linear": [{"Time": 0, "Value": 1}, {"Time": 2, "Value": 3}]}"#),
        Ok(Segment::Linear(point(0.0, 1.0), point(2.0, 3.0)))
    );
    assert_eq!(
        read(r#"{"Bezier": [{"Time": 0, "Value": 1}, {"Time": 2, "Value": 3}]}"#),
        Ok(Segment::Bezier(vec![point(0.0, 1.0), point(2.0, 3.0)]))
    );
    assert_eq!(
        read(r#"{"Stepped": [{"Time": 0, "Value": 1}, 0.5]}"#),
        Ok(Segment::Stepped(point(0.0, 1.0), scalar(0.5)))
    );
    assert_eq!(
        read(r#"{"InverseStepped": [0.5, {"Time": 2, "Value": 3}]}"#),
        Ok(Segment::InverseStepped(scalar(0.5), point(2.0, 3.0)))
    );
    assert_eq!(read(r#"{"InverseStepped": [{"Time": 2, "Value": 3}, 0.5]}"#), Err(LoadError::Parse));
    assert_eq!(read(r#"{"linear": []}"#), Err(LoadError::Parse));
    assert_eq!(read(r#""Linear""#), Err(LoadError::Parse));
}

#[test]
fn the_first_tag_in_the_order_of_kinds_decides() {
    let read = |text: &str| Segment::from_json(&Json::parse(text.as_bytes()).unwrap());
    assert_eq!(
        read(r#"{"Stepped": [{"Time": 0, "Value": 1}, 0.5], "Linear": [{"Time": 0, "Value": 1}, {"Time": 2, "Value": 3}]}"#),
        Ok(Segment::Linear(point(0.0, 1.0), point(2.0, 3.0)))
    );
    assert_eq!(
        read(r#"{"Linear": null, "Stepped": [{"Time": 0, "Value": 1}, 0.5]}"#),
        Ok(Segment::Stepped(point(0.0, 1.0), scalar(0.5)))
    );
}
