use cubism_model::datum::{Datum, Field};
use cubism_model::dict_helpers::{
    create_dict_from_drawable, create_dict_from_motion, create_dict_from_motion3,
    create_dict_from_parameter, create_dict_from_part, create_dict_from_segment,
    create_dict_from_segment_point,
};
use cubism_model::flags::{ConstantFlags, DynamicFlags};
use cubism_model::manifest::MotionReference;
use cubism_model::motion::{Curve, Meta, MotionCurveDocument, Segment, SegmentPoint};
use cubism_model::scalar::Scalar;
use cubism_model::solver::{Drawable, Parameter, Part, Vector2};

fn scalar(x: f64) -> Scalar {
    Scalar { bits: x.to_bits() }
}

fn number(x: f64) -> Datum {
    Datum::Scalar(scalar(x))
}

fn text(t: &str) -> Datum {
    Datum::Text(t.to_string())
}

fn record(fields: Vec<(&str, Datum)>) -> Datum {
    Datum::Record(
        fields.into_iter().map(|(name, value)| Field { name: name.to_string(), value }).collect(),
    )
}

fn point(time: f64, value: f64) -> SegmentPoint {
    SegmentPoint { time: scalar(time), value: scalar(value) }
}

fn point_record(time: f64, value: f64) -> Datum {
    record(vec![("time", number(time)), ("value", number(value))])
}

#[test]
fn the_record_of_a_motion_reference() {
    let motion = MotionReference {
        file: "idle.motion3.json".to_string(),
        fade_in_time: Some(scalar(0.5)),
        fade_out_time: None,
    };
    assert_eq!(
        create_dict_from_motion(&motion),
        record(vec![
            ("file", text("idle.motion3.json")),
            ("fade_in_time", number(0.5)),
            ("fade_out_time", Datum::Absent),
        ])
    );
}

#[test]
fn the_record_of_a_point() {
    assert_eq!(create_dict_from_segment_point(&point(1.0, 2.0)), point_record(1.0, 2.0));
}

#[test]
fn the_record_of_a_part() {
    let part = Part { id: "PartArmA".to_string(), opacity: scalar(0.75) };
    assert_eq!(
        create_dict_from_part(&part),
        record(vec![("id", text("PartArmA")), ("opacity", number(0.75))])
    );
}

#[test]
fn the_record_of_a_parameter() {
    let parameter = Parameter {
        id: "ParamAngleX".to_string(),
        value: scalar(3.0),
        min_value: scalar(-30.0),
        max_value: scalar(30.0),
        default_value: scalar(0.0),
    };
    assert_eq!(
        create_dict_from_parameter(&parameter),
        record(vec![
            ("id", text("ParamAngleX")),
            ("value", number(3.0)),
            ("min_value", number(-30.0)),
            ("max_value", number(30.0)),
            ("default_value", number(0.0)),
        ])
    );
}

#[test]
fn the_record_of_each_kind_of_segment() {
    assert_eq!(
        create_dict_from_segment(&Segment::Linear(point(0.0, 1.0), point(2.0, 3.0))),
        record(vec![
            ("type", text("linear")),
            (
                "value",
                record(vec![
                    ("segment_point_a", point_record(0.0, 1.0)),
                    ("segment_point_b", point_record(2.0, 3.0)),
                ])
            ),
        ])
    );
    assert_eq!(
        create_dict_from_segment(&Segment::Bezier(vec![point(0.0, 1.0), point(2.0, 3.0)])),
        record(vec![
            ("type", text("bezier")),
            ("value", Datum::List(vec![point_record(0.0, 1.0), point_record(2.0, 3.0)])),
        ])
    );
    assert_eq!(
        create_dict_from_segment(&Segment::Stepped(point(0.0, 1.0), scalar(0.5))),
        record(vec![
            ("type", text("stepped")),
            ("value", record(vec![("segment_point", point_record(0.0, 1.0)), ("value", number(0.5))])),
        ])
    );
    assert_eq!(
        create_dict_from_segment(&Segment::InverseStepped(scalar(0.5), point(2.0, 3.0))),
        record(vec![
            ("type", text("inverse_stepped")),
            ("value", record(vec![("value", number(0.5)), ("segment_point", point_record(2.0, 3.0))])),
        ])
    );
}

#[test]
fn the_record_of_a_motion() {
    let motion = MotionCurveDocument {
        version: 3,
        meta: Meta {
            duration: scalar(2.0),
            fps: scalar(30.0),
            looped: true,
            restricted_beziers: false,
            curve_count: 1,
            total_segment_count: 1,
            total_point_count: 1,
            user_data_count: 4,
            total_user_data_size: 5,
        },
        curves: vec![Curve {
            target: "Parameter".to_string(),
            id: "ParamAngleX".to_string(),
            segments: vec![Segment::Stepped(point(0.0, 1.0), scalar(0.5))],
        }],
    };
    assert_eq!(
        create_dict_from_motion3(&motion),
        record(vec![
            ("version", Datum::Int(3)),
            (
                "meta",
                record(vec![
                    ("duration", number(2.0)),
                    ("fps", number(30.0)),
                    ("looped", Datum::Bool(true)),
                    ("restricted_beziers", Datum::Bool(false)),
                    ("curve_count", Datum::Count(1)),
                    ("total_segment_count", Datum::Count(1)),
                    ("total_point_count", Datum::Count(1)),
                    ("user_data_count", Datum::Count(4)),
                    ("total_user_data_size", Datum::Count(5)),
                ])
            ),
            (
                "curves",
                Datum::List(vec![record(vec![
                    ("target", text("Parameter")),
                    ("id", text("ParamAngleX")),
                    (
                        "segments",
                        Datum::List(vec![record(vec![
                            ("type", text("stepped")),
                            (
                                "value",
                                record(vec![
                                    ("segment_point", point_record(0.0, 1.0)),
                                    ("value", number(0.5)),
                                ])
                            ),
                        ])])
                    ),
                ])])
            ),
        ])
    );
}

#[test]
fn the_record_of_a_drawable() {
    let drawable = Drawable {
        id: "ArtMesh1".to_string(),
        index: 7,
        render_order: 3,
        draw_order: -2,
        texture_index: 1,
        indices: vec![0, 1, 2],
        vertex_positions: vec![
            Vector2 { x: scalar(0.0), y: scalar(1.0) },
            Vector2 { x: scalar(-1.0), y: scalar(0.5) },
        ],
        vertex_uvs: vec![Vector2 { x: scalar(0.25), y: scalar(0.75) }],
        opacity: scalar(1.0),
        masks: vec![4, -1],
        constant_flags: ConstantFlags { bits: 0b0101 },
        dynamic_flags: DynamicFlags { bits: 0b1000_0001 },
    };
    assert_eq!(
        create_dict_from_drawable(&drawable),
        record(vec![
            ("index", Datum::Count(7)),
            ("render_order", Datum::Int(3)),
            ("draw_order", Datum::Int(-2)),
            ("texture_index", Datum::Int(1)),
            ("indices", Datum::List(vec![Datum::Count(0), Datum::Count(1), Datum::Count(2)])),
            (
                "vertex_positions",
                Datum::List(vec![
                    Datum::List(vec![number(0.0), number(1.0)]),
                    Datum::List(vec![number(-1.0), number(0.5)]),
                ])
            ),
            ("vertex_uvs", Datum::List(vec![Datum::List(vec![number(0.25), number(0.75)])])),
            ("opacity", number(1.0)),
            ("masks", Datum::List(vec![Datum::Int(4), Datum::Int(-1)])),
            ("constant_flags", Datum::Count(5)),
            ("constant_flags_string", text("BLEND_ADDITIVE | IS_DOUBLE_SIDED")),
            ("constant_flags_binary", text("0b101")),
            ("constant_flags_hex", text("0x5")),
            ("dynamic_flags", Datum::Count(129)),
            ("dynamic_flags_string", text("IS_VISIBLE | 0x80")),
            ("dynamic_flags_binary", text("0b10000001")),
            ("dynamic_flags_hex", text("0x81")),
        ])
    );
}
