use vstd::prelude::*;
use crate::datum::{index_list, int_list, scalar_or_absent, Datum, DatumView, Field};
use crate::flags::{names, names_text, rendered, FlagKind, Radix};
use crate::manifest::{MotionReference, MotionReferenceView};
use crate::motion::{
    Curve, CurveView, Meta, MotionCurveDocument, MotionCurveDocumentView, Segment, SegmentPoint,
    SegmentView,
};
use crate::solver::{Drawable, DrawableView, Parameter, ParameterView, Part, PartView, Vector2};

verus! {

/// The record of a motion reference: its file and its two fade times.
pub open spec fn motion_record(m: MotionReferenceView) -> DatumView {
    DatumView::Record(
        seq![
            ("file"@, DatumView::Text(m.file)),
            ("fade_in_time"@, scalar_or_absent(m.fade_in_time)),
            ("fade_out_time"@, scalar_or_absent(m.fade_out_time)),
        ],
    )
}

/// The record of a point: its time and its value.
pub open spec fn segment_point_record(p: SegmentPoint) -> DatumView {
    DatumView::Record(
        seq![("time"@, DatumView::Scalar(p.time)), ("value"@, DatumView::Scalar(p.value))],
    )
}

/// The record of a part: its id and its opacity.
pub open spec fn part_record(p: PartView) -> DatumView {
    DatumView::Record(
        seq![("id"@, DatumView::Text(p.id)), ("opacity"@, DatumView::Scalar(p.opacity))],
    )
}

/// The record of a parameter: its id, its value and the bounds of it.
pub open spec fn parameter_record(p: ParameterView) -> DatumView {
    DatumView::Record(
        seq![
            ("id"@, DatumView::Text(p.id)),
            ("value"@, DatumView::Scalar(p.value)),
            ("min_value"@, DatumView::Scalar(p.min_value)),
            ("max_value"@, DatumView::Scalar(p.max_value)),
            ("default_value"@, DatumView::Scalar(p.default_value)),
        ],
    )
}

pub fn create_dict_from_motion(m: &MotionReference) -> (d: Datum)
    ensures
        d.deep_view() == motion_record(m.deep_view()),
{
    let fields = vec![
        Field::new("file", Datum::text(&m.file)),
        Field::new("fade_in_time", Datum::optional_scalar(m.fade_in_time)),
        Field::new("fade_out_time", Datum::optional_scalar(m.fade_out_time)),
    ];
    assert(fields.deep_view() =~= motion_record(m.deep_view())->Record_0);
    Datum::record(fields)
}

pub fn create_dict_from_segment_point(sp: &SegmentPoint) -> (d: Datum)
    ensures
        d.deep_view() == segment_point_record(*sp),
{
    let fields = vec![
        Field::new("time", Datum::Scalar(sp.time)),
        Field::new("value", Datum::Scalar(sp.value)),
    ];
    assert(fields.deep_view() =~= segment_point_record(*sp)->Record_0);
    Datum::record(fields)
}

pub fn create_dict_from_part(part: &Part) -> (d: Datum)
    ensures
        d.deep_view() == part_record(part.deep_view()),
{
    let fields = vec![
        Field::new("id", Datum::text(&part.id)),
        Field::new("opacity", Datum::Scalar(part.opacity)),
    ];
    assert(fields.deep_view() =~= part_record(part.deep_view())->Record_0);
    Datum::record(fields)
}

pub fn create_dict_from_parameter(parameter: &Parameter) -> (d: Datum)
    ensures
        d.deep_view() == parameter_record(parameter.deep_view()),
{
    let fields = vec![
        Field::new("id", Datum::text(&parameter.id)),
        Field::new("value", Datum::Scalar(parameter.value)),
        Field::new("min_value", Datum::Scalar(parameter.min_value)),
        Field::new("max_value", Datum::Scalar(parameter.max_value)),
        Field::new("default_value", Datum::Scalar(parameter.default_value)),
    ];
    assert(fields.deep_view() =~= parameter_record(parameter.deep_view())->Record_0);
    Datum::record(fields)
}

/// A list of points, each as its record.
pub open spec fn point_records(points: Seq<SegmentPoint>) -> DatumView {
    DatumView::List(points.map_values(|p: SegmentPoint| segment_point_record(p)))
}

/// The record of a segment: its kind under `type`, and under `value` what the
/// kind holds.
pub open spec fn segment_record(s: SegmentView) -> DatumView {
    match s {
        SegmentView::Linear(a, b) => DatumView::Record(
            seq![
                ("type"@, DatumView::Text("linear"@)),
                (
                    "value"@,
                    DatumView::Record(
                        seq![
                            ("segment_point_a"@, segment_point_record(a)),
                            ("segment_point_b"@, segment_point_record(b)),
                        ],
                    ),
                ),
            ],
        ),
        SegmentView::Bezier(points) => DatumView::Record(
            seq![("type"@, DatumView::Text("bezier"@)), ("value"@, point_records(points))],
        ),
        SegmentView::Stepped(p, until) => DatumView::Record(
            seq![
                ("type"@, DatumView::Text("stepped"@)),
                (
                    "value"@,
                    DatumView::Record(
                        seq![
                            ("segment_point"@, segment_point_record(p)),
                            ("value"@, DatumView::Scalar(until)),
                        ],
                    ),
                ),
            ],
        ),
        SegmentView::InverseStepped(from, p) => DatumView::Record(
            seq![
                ("type"@, DatumView::Text("inverse_stepped"@)),
                (
                    "value"@,
                    DatumView::Record(
                        seq![
                            ("value"@, DatumView::Scalar(from)),
                            ("segment_point"@, segment_point_record(p)),
                        ],
                    ),
                ),
            ],
        ),
    }
}

/// A list of segments, each as its record.
pub open spec fn segment_records(segments: Seq<SegmentView>) -> DatumView {
    DatumView::List(segments.map_values(|s: SegmentView| segment_record(s)))
}

/// The record of a curve: its target, its id and its segments.
pub open spec fn curve_record(c: CurveView) -> DatumView {
    DatumView::Record(
        seq![
            ("target"@, DatumView::Text(c.target)),
            ("id"@, DatumView::Text(c.id)),
            ("segments"@, segment_records(c.segments)),
        ],
    )
}

/// A list of curves, each as its record.
pub open spec fn curve_records(curves: Seq<CurveView>) -> DatumView {
    DatumView::List(curves.map_values(|c: CurveView| curve_record(c)))
}

/// The record of what a motion says of itself.
pub open spec fn meta_record(m: Meta) -> DatumView {
    DatumView::Record(
        seq![
            ("duration"@, DatumView::Scalar(m.duration)),
            ("fps"@, DatumView::Scalar(m.fps)),
            ("looped"@, DatumView::Bool(m.looped)),
            ("restricted_beziers"@, DatumView::Bool(m.restricted_beziers)),
            ("curve_count"@, DatumView::Count(m.curve_count)),
            ("total_segment_count"@, DatumView::Count(m.total_segment_count)),
            ("total_point_count"@, DatumView::Count(m.total_point_count)),
            ("user_data_count"@, DatumView::Count(m.user_data_count)),
            ("total_user_data_size"@, DatumView::Count(m.total_user_data_size)),
        ],
    )
}

/// The record of a motion: its version, what it says of itself, its curves.
pub open spec fn motion3_record(m: MotionCurveDocumentView) -> DatumView {
    DatumView::Record(
        seq![
            ("version"@, DatumView::Int(m.version)),
            ("meta"@, meta_record(m.meta)),
            ("curves"@, curve_records(m.curves)),
        ],
    )
}

/// A point or an extent as a pair of scalars.
pub open spec fn vector_record(v: Vector2) -> DatumView {
    DatumView::List(seq![DatumView::Scalar(v.x), DatumView::Scalar(v.y)])
}

/// A list of pairs of scalars.
pub open spec fn vector_records(vectors: Seq<Vector2>) -> DatumView {
    DatumView::List(vectors.map_values(|v: Vector2| vector_record(v)))
}

/// The record of a drawable. Each set of flags stands in it four times: as
/// the raw value, by the names of its flags, in binary and in hex.
pub open spec fn drawable_record(d: DrawableView) -> DatumView {
    DatumView::Record(
        seq![
            ("index"@, DatumView::Count(d.index)),
            ("render_order"@, DatumView::Int(d.render_order as i64)),
            ("draw_order"@, DatumView::Int(d.draw_order as i64)),
            ("texture_index"@, DatumView::Int(d.texture_index as i64)),
            ("indices"@, index_list(d.indices)),
            ("vertex_positions"@, vector_records(d.vertex_positions)),
            ("vertex_uvs"@, vector_records(d.vertex_uvs)),
            ("opacity"@, DatumView::Scalar(d.opacity)),
            ("masks"@, int_list(d.masks)),
            ("constant_flags"@, DatumView::Count(d.constant_flags.bits as u64)),
            (
                "constant_flags_string"@,
                DatumView::Text(names_text(FlagKind::Constant, d.constant_flags.bits)),
            ),
            (
                "constant_flags_binary"@,
                DatumView::Text(rendered(d.constant_flags.bits, Radix::Binary)),
            ),
            ("constant_flags_hex"@, DatumView::Text(rendered(d.constant_flags.bits, Radix::Hex))),
            ("dynamic_flags"@, DatumView::Count(d.dynamic_flags.bits as u64)),
            (
                "dynamic_flags_string"@,
                DatumView::Text(names_text(FlagKind::Dynamic, d.dynamic_flags.bits)),
            ),
            (
                "dynamic_flags_binary"@,
                DatumView::Text(rendered(d.dynamic_flags.bits, Radix::Binary)),
            ),
            ("dynamic_flags_hex"@, DatumView::Text(rendered(d.dynamic_flags.bits, Radix::Hex))),
        ],
    )
}

/// The points of a Bezier segment, each as its record.
pub fn create_list_from_points(points: &Vec<SegmentPoint>) -> (d: Datum)
    ensures
        d.deep_view() == point_records(points@),
{
    let mut out: Vec<Datum> = Vec::new();
    let mut i: usize = 0;
    while i < points.len()
        invariant
            i <= points.len(),
            out.len() == i,
            forall|k: int|
                0 <= k < i ==> (#[trigger] out[k]).deep_view() == segment_point_record(points[k]),
        decreases points.len() - i,
    {
        out.push(create_dict_from_segment_point(&points[i]));
        i += 1;
    }
    assert(out.deep_view() =~= point_records(points@)->List_0);
    Datum::list(out)
}

pub fn create_dict_from_segment(s: &Segment) -> (d: Datum)
    ensures
        d.deep_view() == segment_record(s.deep_view()),
{
    match s {
        Segment::Linear(sp_a, sp_b) => {
            let inner = vec![
                Field::new("segment_point_a", create_dict_from_segment_point(sp_a)),
                Field::new("segment_point_b", create_dict_from_segment_point(sp_b)),
            ];
            let ghost inner_view = inner.deep_view();
            assert(inner_view =~= seq![
                ("segment_point_a"@, segment_point_record(*sp_a)),
                ("segment_point_b"@, segment_point_record(*sp_b)),
            ]);
            let fields = vec![
                Field::new("type", Datum::literal("linear")),
                Field::new("value", Datum::record(inner)),
            ];
            assert(fields.deep_view() =~= segment_record(s.deep_view())->Record_0);
            Datum::record(fields)
        },
        Segment::Bezier(a) => {
            let fields = vec![
                Field::new("type", Datum::literal("bezier")),
                Field::new("value", create_list_from_points(a)),
            ];
            assert(fields.deep_view() =~= segment_record(s.deep_view())->Record_0);
            Datum::record(fields)
        },
        Segment::Stepped(sp, f) => {
            let inner = vec![
                Field::new("segment_point", create_dict_from_segment_point(sp)),
                Field::new("value", Datum::Scalar(*f)),
            ];
            let ghost inner_view = inner.deep_view();
            assert(inner_view =~= seq![
                ("segment_point"@, segment_point_record(*sp)),
                ("value"@, DatumView::Scalar(*f)),
            ]);
            let fields = vec![
                Field::new("type", Datum::literal("stepped")),
                Field::new("value", Datum::record(inner)),
            ];
            assert(fields.deep_view() =~= segment_record(s.deep_view())->Record_0);
            Datum::record(fields)
        },
        Segment::InverseStepped(f, sp) => {
            let inner = vec![
                Field::new("value", Datum::Scalar(*f)),
                Field::new("segment_point", create_dict_from_segment_point(sp)),
            ];
            let ghost inner_view = inner.deep_view();
            assert(inner_view =~= seq![
                ("value"@, DatumView::Scalar(*f)),
                ("segment_point"@, segment_point_record(*sp)),
            ]);
            let fields = vec![
                Field::new("type", Datum::literal("inverse_stepped")),
                Field::new("value", Datum::record(inner)),
            ];
            assert(fields.deep_view() =~= segment_record(s.deep_view())->Record_0);
            Datum::record(fields)
        },
    }
}

/// The segments of a curve, each as its record.
pub fn create_list_from_segments(segments: &Vec<Segment>) -> (d: Datum)
    ensures
        d.deep_view() == segment_records(segments.deep_view()),
{
    let mut out: Vec<Datum> = Vec::new();
    let mut i: usize = 0;
    while i < segments.len()
        invariant
            i <= segments.len(),
            out.len() == i,
            forall|k: int|
                0 <= k < i ==> (#[trigger] out[k]).deep_view() == segment_record(
                    segments[k].deep_view(),
                ),
        decreases segments.len() - i,
    {
        out.push(create_dict_from_segment(&segments[i]));
        i += 1;
    }
    assert(out.deep_view() =~= segment_records(segments.deep_view())->List_0);
    Datum::list(out)
}

pub fn create_dict_from_curve(c: &Curve) -> (d: Datum)
    ensures
        d.deep_view() == curve_record(c.deep_view()),
{
    let fields = vec![
        Field::new("target", Datum::text(&c.target)),
        Field::new("id", Datum::text(&c.id)),
        Field::new("segments", create_list_from_segments(&c.segments)),
    ];
    assert(fields.deep_view() =~= curve_record(c.deep_view())->Record_0);
    Datum::record(fields)
}

/// The curves of a motion, each as its record.
pub fn create_list_from_curves(curves: &Vec<Curve>) -> (d: Datum)
    ensures
        d.deep_view() == curve_records(curves.deep_view()),
{
    let mut out: Vec<Datum> = Vec::new();
    let mut i: usize = 0;
    while i < curves.len()
        invariant
            i <= curves.len(),
            out.len() == i,
            forall|k: int|
                0 <= k < i ==> (#[trigger] out[k]).deep_view() ==
                    curve_record(curves[k].deep_view()),
        decreases curves.len() - i,
    {
        out.push(create_dict_from_curve(&curves[i]));
        i += 1;
    }
    assert(out.deep_view() =~= curve_records(curves.deep_view())->List_0);
    Datum::list(out)
}

pub fn create_dict_from_meta(meta: &Meta) -> (d: Datum)
    ensures
        d.deep_view() == meta_record(*meta),
{
    let fields = vec![
        Field::new("duration", Datum::Scalar(meta.duration)),
        Field::new("fps", Datum::Scalar(meta.fps)),
        Field::new("looped", Datum::Bool(meta.looped)),
        Field::new("restricted_beziers", Datum::Bool(meta.restricted_beziers)),
        Field::new("curve_count", Datum::Count(meta.curve_count)),
        Field::new("total_segment_count", Datum::Count(meta.total_segment_count)),
        Field::new("total_point_count", Datum::Count(meta.total_point_count)),
        Field::new("user_data_count", Datum::Count(meta.user_data_count)),
        Field::new("total_user_data_size", Datum::Count(meta.total_user_data_size)),
    ];
    assert(fields.deep_view() =~= meta_record(*meta)->Record_0);
    Datum::record(fields)
}

pub fn create_dict_from_motion3(m: &MotionCurveDocument) -> (d: Datum)
    ensures
        d.deep_view() == motion3_record(m.deep_view()),
{
    let fields = vec![
        Field::new("version", Datum::Int(m.version)),
        Field::new("meta", create_dict_from_meta(&m.meta)),
        Field::new("curves", create_list_from_curves(&m.curves)),
    ];
    assert(fields.deep_view() =~= motion3_record(m.deep_view())->Record_0);
    Datum::record(fields)
}

pub fn create_pair_from_vector(v: &Vector2) -> (d: Datum)
    ensures
        d.deep_view() == vector_record(*v),
{
    let items = vec![Datum::Scalar(v.x), Datum::Scalar(v.y)];
    assert(items.deep_view() =~= vector_record(*v)->List_0);
    Datum::list(items)
}

/// The positions of the vertices of a mesh, each as a pair.
pub fn create_list_from_vectors(vectors: &Vec<Vector2>) -> (d: Datum)
    ensures
        d.deep_view() == vector_records(vectors@),
{
    let mut out: Vec<Datum> = Vec::new();
    let mut i: usize = 0;
    while i < vectors.len()
        invariant
            i <= vectors.len(),
            out.len() == i,
            forall|k: int| 0 <= k < i ==>
                (#[trigger] out[k]).deep_view() == vector_record(vectors[k]),
        decreases vectors.len() - i,
    {
        out.push(create_pair_from_vector(&vectors[i]));
        i += 1;
    }
    assert(out.deep_view() =~= vector_records(vectors@)->List_0);
    Datum::list(out)
}

pub fn create_dict_from_drawable(drawable: &Drawable) -> (d: Datum)
    ensures
        d.deep_view() == drawable_record(drawable.deep_view()),
{
    let constant = drawable.constant_flags.bits;
    let dynamic = drawable.dynamic_flags.bits;
    let fields = vec![
        Field::new("index", Datum::Count(drawable.index)),
        Field::new("render_order", Datum::Int(drawable.render_order as i64)),
        Field::new("draw_order", Datum::Int(drawable.draw_order as i64)),
        Field::new("texture_index", Datum::Int(drawable.texture_index as i64)),
        Field::new("indices", Datum::indices(&drawable.indices)),
        Field::new("vertex_positions", create_list_from_vectors(&drawable.vertex_positions)),
        Field::new("vertex_uvs", create_list_from_vectors(&drawable.vertex_uvs)),
        Field::new("opacity", Datum::Scalar(drawable.opacity)),
        Field::new("masks", Datum::ints(&drawable.masks)),
        Field::new("constant_flags", Datum::Count(constant as u64)),
        Field::new("constant_flags_string", Datum::Text(names(FlagKind::Constant, constant))),
        Field::new(
            "constant_flags_binary",
            Datum::Text(crate::flags::format(constant, Radix::Binary)),
        ),
        Field::new("constant_flags_hex", Datum::Text(crate::flags::format(constant, Radix::Hex))),
        Field::new("dynamic_flags", Datum::Count(dynamic as u64)),
        Field::new("dynamic_flags_string", Datum::Text(names(FlagKind::Dynamic, dynamic))),
        Field::new(
            "dynamic_flags_binary",
            Datum::Text(crate::flags::format(dynamic, Radix::Binary)),
        ),
        Field::new("dynamic_flags_hex", Datum::Text(crate::flags::format(dynamic, Radix::Hex))),
    ];
    assert(fields.deep_view() =~= drawable_record(drawable.deep_view())->Record_0);
    Datum::record(fields)
}

} // verus!
