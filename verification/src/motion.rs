use vstd::prelude::*;
use crate::decode::{
    lemma_deep_view_push, lemma_sum_prefix, lemma_sum_step, lemma_try_map_fails,
    lemma_try_map_step, outcome_view, sum, try_map,
};
use crate::error::LoadError;
use crate::json::{
    count_field, json_text, or_default, or_value, require, required, Json, JsonView,
};
use crate::scalar::{lemma_scalar_order, Scalar};

verus! {

/// A point of a curve: a value at a time.
#[derive(Clone, Copy, Debug, PartialEq, Eq, Structural)]
pub struct SegmentPoint {
    pub time: Scalar,
    pub value: Scalar,
}

/// One interpolation span of a curve.
#[derive(Clone, Debug, PartialEq, Eq)]
pub enum Segment {
    /// A straight line from the first point to the second.
    Linear(SegmentPoint, SegmentPoint),
    /// A curve through control points, first to last.
    Bezier(Vec<SegmentPoint>),
    /// The point's value, held until the time given.
    Stepped(SegmentPoint, Scalar),
    /// From the time given, the value of the point that ends the span.
    InverseStepped(Scalar, SegmentPoint),
}

pub ghost enum SegmentView {
    Linear(SegmentPoint, SegmentPoint),
    Bezier(Seq<SegmentPoint>),
    Stepped(SegmentPoint, Scalar),
    InverseStepped(Scalar, SegmentPoint),
}

impl DeepView for Segment {
    type V = SegmentView;

    open spec fn deep_view(&self) -> SegmentView {
        match *self {
            Segment::Linear(a, b) => SegmentView::Linear(a, b),
            Segment::Bezier(points) => SegmentView::Bezier(points@),
            Segment::Stepped(p, until) => SegmentView::Stepped(p, until),
            Segment::InverseStepped(from, p) => SegmentView::InverseStepped(from, p),
        }
    }
}

impl SegmentView {
    /// How many points the segment counts for.
    pub open spec fn point_count(self) -> nat {
        match self {
            SegmentView::Linear(_, _) => 2,
            SegmentView::Bezier(points) => points.len(),
            SegmentView::Stepped(_, _) => 1,
            SegmentView::InverseStepped(_, _) => 1,
        }
    }

    /// A Bezier segment needs a first and a last point.
    pub open spec fn well_formed(self) -> bool {
        match self {
            SegmentView::Bezier(points) => points.len() >= 2,
            _ => true,
        }
    }

    /// The time at which the segment begins.
    pub open spec fn start_time(self) -> Scalar {
        match self {
            SegmentView::Linear(a, _) => a.time,
            SegmentView::Bezier(points) => points[0].time,
            SegmentView::Stepped(p, _) => p.time,
            SegmentView::InverseStepped(from, _) => from,
        }
    }

    /// The time at which the segment ends.
    pub open spec fn end_time(self) -> Scalar {
        match self {
            SegmentView::Linear(_, b) => b.time,
            SegmentView::Bezier(points) => points[points.len() - 1].time,
            SegmentView::Stepped(_, until) => until,
            SegmentView::InverseStepped(_, p) => p.time,
        }
    }
}

/// A point is an object with a `Time` and a `Value`.
pub open spec fn point_of(j: JsonView) -> Result<SegmentPoint, LoadError> {
    match required(j.scalar_field("Time"@)) {
        Err(e) => Err(e),
        Ok(time) => match required(j.scalar_field("Value"@)) {
            Err(e) => Err(e),
            Ok(value) => Ok(SegmentPoint { time, value }),
        },
    }
}

pub open spec fn point_decoder() -> spec_fn(JsonView) -> Result<SegmentPoint, LoadError> {
    |j: JsonView| point_of(j)
}

pub open spec fn points_of(items: Seq<JsonView>) -> Result<Seq<SegmentPoint>, LoadError> {
    try_map(items, point_decoder())
}

/// The payload of a `Linear` tag: two points.
pub open spec fn linear_of(payload: JsonView) -> Result<SegmentView, LoadError> {
    match payload.items() {
        Some(items) => if items.len() != 2 {
            Err(LoadError::Parse)
        } else {
            match point_of(items[0]) {
                Err(e) => Err(e),
                Ok(a) => match point_of(items[1]) {
                    Err(e) => Err(e),
                    Ok(b) => Ok(SegmentView::Linear(a, b)),
                },
            }
        },
        None => Err(LoadError::Parse),
    }
}

/// The payload of a `Bezier` tag: two points or more, their number held to
/// no grouping.
pub open spec fn bezier_of(payload: JsonView) -> Result<SegmentView, LoadError> {
    match payload.items() {
        Some(items) => if items.len() < 2 {
            Err(LoadError::Parse)
        } else {
            match points_of(items) {
                Err(e) => Err(e),
                Ok(points) => Ok(SegmentView::Bezier(points)),
            }
        },
        None => Err(LoadError::Parse),
    }
}

/// The payload of a `Stepped` tag: a point, then the time the step lasts to.
pub open spec fn stepped_of(payload: JsonView) -> Result<SegmentView, LoadError> {
    match payload.items() {
        Some(items) => if items.len() != 2 {
            Err(LoadError::Parse)
        } else {
            match point_of(items[0]) {
                Err(e) => Err(e),
                Ok(p) => match items[1].scalar() {
                    None => Err(LoadError::Parse),
                    Some(until) => Ok(SegmentView::Stepped(p, until)),
                },
            }
        },
        None => Err(LoadError::Parse),
    }
}

/// The payload of an `InverseStepped` tag: the time the span begins at, then
/// the point that ends it.
pub open spec fn inverse_stepped_of(payload: JsonView) -> Result<SegmentView, LoadError> {
    match payload.items() {
        Some(items) => if items.len() != 2 {
            Err(LoadError::Parse)
        } else {
            match items[0].scalar() {
                None => Err(LoadError::Parse),
                Some(from) => match point_of(items[1]) {
                    Err(e) => Err(e),
                    Ok(p) => Ok(SegmentView::InverseStepped(from, p)),
                },
            }
        },
        None => Err(LoadError::Parse),
    }
}

/// A segment is an object with one entry, named by its kind, that holds its
/// payload. Where several kinds are named, the first of `Linear`, `Bezier`,
/// `Stepped`, `InverseStepped` decides.
pub open spec fn segment_of(j: JsonView) -> Result<SegmentView, LoadError> {
    if j.field("Linear"@) is Some {
        linear_of(j.field("Linear"@)->0)
    } else if j.field("Bezier"@) is Some {
        bezier_of(j.field("Bezier"@)->0)
    } else if j.field("Stepped"@) is Some {
        stepped_of(j.field("Stepped"@)->0)
    } else if j.field("InverseStepped"@) is Some {
        inverse_stepped_of(j.field("InverseStepped"@)->0)
    } else {
        Err(LoadError::Parse)
    }
}

impl SegmentPoint {
    pub fn from_json(j: &Json) -> (r: Result<SegmentPoint, LoadError>)
        ensures
            r == point_of(j.deep_view()),
    {
        let time = require(j.scalar_field("Time"))?;
        let value = require(j.scalar_field("Value"))?;
        Ok(SegmentPoint { time, value })
    }

    /// Decodes a list of points, all or none.
    pub fn list_from_json(items: &Vec<Json>) -> (r: Result<Vec<SegmentPoint>, LoadError>)
        ensures
            match r {
                Ok(points) => points_of(items.deep_view()) == Ok::<Seq<SegmentPoint>, LoadError>(
                    points@,
                ),
                Err(e) => points_of(items.deep_view()) == Err::<Seq<SegmentPoint>, LoadError>(e),
            },
    {
        let mut out: Vec<SegmentPoint> = Vec::new();
        let mut i: usize = 0;
        let ghost all = items.deep_view();
        while i < items.len()
            invariant
                i <= items.len(),
                all == items.deep_view(),
                try_map(all.take(i as int), point_decoder()) == Ok::<Seq<SegmentPoint>, LoadError>(
                    out@,
                ),
            decreases items.len() - i,
        {
            proof {
                lemma_try_map_step(all, point_decoder(), i as int);
            }
            match SegmentPoint::from_json(&items[i]) {
                Ok(p) => {
                    out.push(p);
                },
                Err(e) => {
                    proof {
                        lemma_try_map_fails(all, point_decoder(), i + 1, all.len() as int);
                        assert(all.take(all.len() as int) =~= all);
                    }
                    return Err(e);
                },
            }
            i += 1;
        }
        assert(all.take(all.len() as int) =~= all);
        Ok(out)
    }
}

impl Segment {
    pub fn from_json(j: &Json) -> (r: Result<Segment, LoadError>)
        ensures
            outcome_view(r) == segment_of(j.deep_view()),
    {
        if let Some(payload) = j.field("Linear") {
            match payload.as_items() {
                Some(items) => {
                    if items.len() != 2 {
                        return Err(LoadError::Parse);
                    }
                    let a = SegmentPoint::from_json(&items[0])?;
                    let b = SegmentPoint::from_json(&items[1])?;
                    Ok(Segment::Linear(a, b))
                },
                None => Err(LoadError::Parse),
            }
        } else if let Some(payload) = j.field("Bezier") {
            match payload.as_items() {
                Some(items) => {
                    if items.len() < 2 {
                        return Err(LoadError::Parse);
                    }
                    let points = SegmentPoint::list_from_json(items)?;
                    Ok(Segment::Bezier(points))
                },
                None => Err(LoadError::Parse),
            }
        } else if let Some(payload) = j.field("Stepped") {
            match payload.as_items() {
                Some(items) => {
                    if items.len() != 2 {
                        return Err(LoadError::Parse);
                    }
                    let p = SegmentPoint::from_json(&items[0])?;
                    match items[1].as_scalar() {
                        Some(until) => Ok(Segment::Stepped(p, until)),
                        None => Err(LoadError::Parse),
                    }
                },
                None => Err(LoadError::Parse),
            }
        } else if let Some(payload) = j.field("InverseStepped") {
            match payload.as_items() {
                Some(items) => {
                    if items.len() != 2 {
                        return Err(LoadError::Parse);
                    }
                    match items[0].as_scalar() {
                        Some(from) => {
                            let p = SegmentPoint::from_json(&items[1])?;
                            Ok(Segment::InverseStepped(from, p))
                        },
                        None => Err(LoadError::Parse),
                    }
                },
                None => Err(LoadError::Parse),
            }
        } else {
            Err(LoadError::Parse)
        }
    }
}

/// A curve: the segments that drive one target, in the order of time.
#[derive(Clone, Debug, PartialEq, Eq)]
pub struct Curve {
    pub target: String,
    pub id: String,
    pub segments: Vec<Segment>,
}

pub ghost struct CurveView {
    pub target: Seq<char>,
    pub id: Seq<char>,
    pub segments: Seq<SegmentView>,
}

impl DeepView for Curve {
    type V = CurveView;

    open spec fn deep_view(&self) -> CurveView {
        CurveView {
            target: self.target@,
            id: self.id@,
            segments: self.segments.deep_view(),
        }
    }
}

/// What a motion document says of itself.
#[derive(Clone, Copy, Debug, PartialEq, Eq)]
pub struct Meta {
    pub duration: Scalar,
    pub fps: Scalar,
    pub looped: bool,
    pub restricted_beziers: bool,
    pub curve_count: u64,
    pub total_segment_count: u64,
    pub total_point_count: u64,
    pub user_data_count: u64,
    pub total_user_data_size: u64,
}

/// A motion: curves over time, one per target.
#[derive(Clone, Debug, PartialEq, Eq)]
pub struct MotionCurveDocument {
    pub version: i64,
    pub meta: Meta,
    pub curves: Vec<Curve>,
}

pub ghost struct MotionCurveDocumentView {
    pub version: i64,
    pub meta: Meta,
    pub curves: Seq<CurveView>,
}

impl DeepView for MotionCurveDocument {
    type V = MotionCurveDocumentView;

    open spec fn deep_view(&self) -> MotionCurveDocumentView {
        MotionCurveDocumentView {
            version: self.version,
            meta: self.meta,
            curves: self.curves.deep_view(),
        }
    }
}

/// Whether `next` takes over where `prev` ends: it starts no earlier than
/// `prev` started, at the time at which `prev` ends.
pub open spec fn follows(prev: SegmentView, next: SegmentView) -> bool {
    prev.start_time().le(next.start_time()) && prev.end_time().same(next.start_time())
}

pub open spec fn point_weight() -> spec_fn(SegmentView) -> nat {
    |s: SegmentView| s.point_count()
}

pub open spec fn segment_weight() -> spec_fn(CurveView) -> nat {
    |c: CurveView| c.segments.len()
}

pub open spec fn curve_point_weight() -> spec_fn(CurveView) -> nat {
    |c: CurveView| c.point_total()
}

impl CurveView {
    pub open spec fn well_formed(self) -> bool {
        forall|i: int| 0 <= i < self.segments.len() ==> (#[trigger] self.segments[i]).well_formed()
    }

    /// The points of all segments, counted.
    pub open spec fn point_total(self) -> nat {
        sum(self.segments, point_weight())
    }

    /// Each segment takes over from the one before it.
    pub open spec fn chained(self) -> bool {
        forall|i: int|
            0 <= i && i + 1 < self.segments.len() ==> follows(
                #[trigger] self.segments[i],
                self.segments[i + 1],
            )
    }
}

impl MotionCurveDocumentView {
    pub open spec fn well_formed(self) -> bool {
        forall|c: int| 0 <= c < self.curves.len() ==> (#[trigger] self.curves[c]).well_formed()
    }

    /// The segments of all curves, counted.
    pub open spec fn segment_total(self) -> nat {
        sum(self.curves, segment_weight())
    }

    /// The points of all curves, counted.
    pub open spec fn point_total(self) -> nat {
        sum(self.curves, curve_point_weight())
    }

    /// The counts declared are the counts held.
    pub open spec fn counts_match(self) -> bool {
        &&& self.meta.curve_count == self.curves.len()
        &&& self.meta.total_segment_count == self.segment_total()
        &&& self.meta.total_point_count == self.point_total()
    }

    pub open spec fn chained(self) -> bool {
        forall|c: int| 0 <= c < self.curves.len() ==> (#[trigger] self.curves[c]).chained()
    }

    /// What validation says of a decoded document.
    pub open spec fn check(self) -> Result<(), LoadError> {
        if !self.well_formed() {
            Err(LoadError::Parse)
        } else if !self.counts_match() {
            Err(LoadError::CountMismatch)
        } else if !self.chained() {
            Err(LoadError::OutOfOrderSegments)
        } else {
            Ok(())
        }
    }
}

impl Segment {
    /// How many points the segment counts for.
    pub fn point_count(&self) -> (n: usize)
        ensures
            n == self.deep_view().point_count(),
    {
        match self {
            Segment::Linear(_, _) => 2,
            Segment::Bezier(points) => points.len(),
            Segment::Stepped(_, _) => 1,
            Segment::InverseStepped(_, _) => 1,
        }
    }

    pub fn is_well_formed(&self) -> (r: bool)
        ensures
            r == self.deep_view().well_formed(),
    {
        match self {
            Segment::Bezier(points) => points.len() >= 2,
            _ => true,
        }
    }

    /// The time at which the segment begins, where it has one.
    pub fn start_time(&self) -> (r: Option<Scalar>)
        ensures
            r == if self.deep_view().well_formed() {
                Some(self.deep_view().start_time())
            } else {
                None
            },
    {
        match self {
            Segment::Linear(a, _) => Some(a.time),
            Segment::Bezier(points) => if points.len() >= 2 {
                Some(points[0].time)
            } else {
                None
            },
            Segment::Stepped(p, _) => Some(p.time),
            Segment::InverseStepped(from, _) => Some(*from),
        }
    }

    /// The time at which the segment ends, where it has one.
    pub fn end_time(&self) -> (r: Option<Scalar>)
        ensures
            r == if self.deep_view().well_formed() {
                Some(self.deep_view().end_time())
            } else {
                None
            },
    {
        match self {
            Segment::Linear(_, b) => Some(b.time),
            Segment::Bezier(points) => if points.len() >= 2 {
                Some(points[points.len() - 1].time)
            } else {
                None
            },
            Segment::Stepped(_, until) => Some(*until),
            Segment::InverseStepped(_, p) => Some(p.time),
        }
    }
}

impl Curve {
    pub fn is_well_formed(&self) -> (r: bool)
        ensures
            r == self.deep_view().well_formed(),
    {
        let mut i: usize = 0;
        while i < self.segments.len()
            invariant
                i <= self.segments.len(),
                forall|k: int| 0 <= k < i ==>
                    (#[trigger] self.deep_view().segments[k]).well_formed(),
            decreases self.segments.len() - i,
        {
            if !self.segments[i].is_well_formed() {
                assert(!self.deep_view().segments[i as int].well_formed());
                return false;
            }
            i += 1;
        }
        true
    }

    /// Whether each segment takes over from the one before it; `false` also
    /// where a segment has no start or end.
    pub fn is_chained(&self) -> (r: bool)
        ensures
            r == (self.deep_view().well_formed() && self.deep_view().chained()),
    {
        if !self.is_well_formed() {
            return false;
        }
        if self.segments.len() == 0 {
            return true;
        }
        let mut i: usize = 0;
        while i < self.segments.len() - 1
            invariant
                i < self.segments.len(),
                self.deep_view().well_formed(),
                forall|k: int|
                    0 <= k < i && k + 1 < self.segments.len() ==> follows(
                        #[trigger] self.deep_view().segments[k],
                        self.deep_view().segments[k + 1],
                    ),
            decreases self.segments.len() - i,
        {
            let ghost prev = self.deep_view().segments[i as int];
            let ghost next = self.deep_view().segments[i + 1];
            assert(prev.well_formed() && next.well_formed());
            let taken = match (
                self.segments[i].start_time(),
                self.segments[i].end_time(),
                self.segments[i + 1].start_time(),
            ) {
                (Some(start), Some(end), Some(next_start)) => start.precedes(next_start)
                    && end.equals(next_start),
                _ => false,
            };
            if !taken {
                assert(!follows(prev, next));
                return false;
            }
            i += 1;
        }
        true
    }

    /// The points of all segments, counted, where they are no more than
    /// `limit`.
    pub fn point_total(&self, limit: u64) -> (r: Option<u64>)
        ensures
            match r {
                Some(n) => n == self.deep_view().point_total() && n <= limit,
                None => self.deep_view().point_total() > limit,
            },
    {
        let ghost all = self.deep_view().segments;
        let mut total: u64 = 0;
        let mut i: usize = 0;
        while i < self.segments.len()
            invariant
                i <= self.segments.len(),
                all == self.deep_view().segments,
                total == sum(all.take(i as int), point_weight()),
                total <= limit,
            decreases self.segments.len() - i,
        {
            let n = self.segments[i].point_count() as u64;
            proof {
                lemma_sum_step(all, point_weight(), i as int);
                lemma_sum_prefix(all, point_weight(), i + 1);
            }
            if n > limit - total {
                return None;
            }
            total = total + n;
            i += 1;
        }
        assert(all.take(all.len() as int) =~= all);
        Some(total)
    }
}

pub open spec fn segment_decoder() -> spec_fn(JsonView) -> Result<SegmentView, LoadError> {
    |j: JsonView| segment_of(j)
}

pub open spec fn segments_of(items: Seq<JsonView>) -> Result<Seq<SegmentView>, LoadError> {
    try_map(items, segment_decoder())
}

/// A curve is an object with a `Target`, an `Id` and its `Segments`.
pub open spec fn curve_of(j: JsonView) -> Result<CurveView, LoadError> {
    match required(j.text_field("Target"@)) {
        Err(e) => Err(e),
        Ok(target) => match required(j.text_field("Id"@)) {
            Err(e) => Err(e),
            Ok(id) => match j.items_field("Segments"@) {
                Err(e) => Err(e),
                Ok(items) => match segments_of(items) {
                    Err(e) => Err(e),
                    Ok(segments) => Ok(CurveView { target, id, segments }),
                },
            },
        },
    }
}

pub open spec fn curve_decoder() -> spec_fn(JsonView) -> Result<CurveView, LoadError> {
    |j: JsonView| curve_of(j)
}

pub open spec fn curves_of(items: Seq<JsonView>) -> Result<Seq<CurveView>, LoadError> {
    try_map(items, curve_decoder())
}

/// The `Meta` block. `Duration`, `Fps` and the three counts that validation
/// holds the document to must be there; `Loop` and `AreBeziersRestricted`
/// are false and the two counts of user data zero where they are left out.
pub open spec fn meta_of(j: JsonView) -> Result<Meta, LoadError> {
    let duration = required(j.scalar_field("Duration"@));
    let fps = required(j.scalar_field("Fps"@));
    let looped = or_default(j.flag_field("Loop"@), false);
    let restricted_beziers = or_default(j.flag_field("AreBeziersRestricted"@), false);
    let curve_count = required(count_field(j, "CurveCount"@));
    let total_segment_count = required(count_field(j, "TotalSegmentCount"@));
    let total_point_count = required(count_field(j, "TotalPointCount"@));
    let user_data_count = or_default(count_field(j, "UserDataCount"@), 0u64);
    let total_user_data_size = or_default(count_field(j, "TotalUserDataSize"@), 0u64);
    if duration is Ok && fps is Ok && looped is Ok && restricted_beziers is Ok && curve_count is Ok
        && total_segment_count is Ok && total_point_count is Ok && user_data_count is Ok
        && total_user_data_size is Ok {
        Ok(
            Meta {
                duration: duration->Ok_0,
                fps: fps->Ok_0,
                looped: looped->Ok_0,
                restricted_beziers: restricted_beziers->Ok_0,
                curve_count: curve_count->Ok_0,
                total_segment_count: total_segment_count->Ok_0,
                total_point_count: total_point_count->Ok_0,
                user_data_count: user_data_count->Ok_0,
                total_user_data_size: total_user_data_size->Ok_0,
            },
        )
    } else {
        Err(LoadError::Parse)
    }
}

/// What a document holds, not yet held to what it declares: a `Version`, the
/// `Meta` block and the `Curves`.
pub open spec fn document_of(j: JsonView) -> Result<MotionCurveDocumentView, LoadError> {
    match required(j.integer_field("Version"@)) {
        Err(e) => Err(e),
        Ok(version) => match required(j.object_field("Meta"@)) {
            Err(e) => Err(e),
            Ok(block) => match meta_of(block) {
                Err(e) => Err(e),
                Ok(meta) => match j.items_field("Curves"@) {
                    Err(e) => Err(e),
                    Ok(items) => match curves_of(items) {
                        Err(e) => Err(e),
                        Ok(curves) => Ok(MotionCurveDocumentView { version, meta, curves }),
                    },
                },
            },
        },
    }
}

/// The motion that a parsed document describes: what it holds, where that
/// passes validation.
pub open spec fn motion_of(j: JsonView) -> Result<MotionCurveDocumentView, LoadError> {
    match document_of(j) {
        Err(e) => Err(e),
        Ok(document) => match document.check() {
            Err(e) => Err(e),
            Ok(_) => Ok(document),
        },
    }
}

/// The motion that a text describes.
pub open spec fn motion_text(bytes: Seq<u8>) -> Result<MotionCurveDocumentView, LoadError> {
    match json_text(bytes) {
        None => Err(LoadError::Parse),
        Some(j) => motion_of(j),
    }
}

impl Segment {
    /// Decodes a list of segments, all or none.
    pub fn list_from_json(items: &Vec<Json>) -> (r: Result<Vec<Segment>, LoadError>)
        ensures
            outcome_view(r) == segments_of(items.deep_view()),
    {
        let mut out: Vec<Segment> = Vec::new();
        let mut i: usize = 0;
        let ghost all = items.deep_view();
        assert(out.deep_view() =~= Seq::<SegmentView>::empty());
        while i < items.len()
            invariant
                i <= items.len(),
                all == items.deep_view(),
                try_map(all.take(i as int), segment_decoder()) == Ok::<Seq<SegmentView>, LoadError>(
                    out.deep_view(),
                ),
            decreases items.len() - i,
        {
            proof {
                lemma_try_map_step(all, segment_decoder(), i as int);
            }
            match Segment::from_json(&items[i]) {
                Ok(segment) => {
                    let ghost before = out;
                    out.push(segment);
                    proof {
                        lemma_deep_view_push(before, out, segment);
                    }
                },
                Err(e) => {
                    proof {
                        lemma_try_map_fails(all, segment_decoder(), i + 1, all.len() as int);
                        assert(all.take(all.len() as int) =~= all);
                    }
                    return Err(e);
                },
            }
            i += 1;
        }
        assert(all.take(all.len() as int) =~= all);
        Ok(out)
    }
}

impl Curve {
    pub fn from_json(j: &Json) -> (r: Result<Curve, LoadError>)
        ensures
            outcome_view(r) == curve_of(j.deep_view()),
    {
        let target = require(j.text_field("Target"))?;
        let id = require(j.text_field("Id"))?;
        let segments = match j.items_field("Segments")? {
            Some(items) => Segment::list_from_json(items)?,
            None => Vec::new(),
        };
        assert(segments.len() == 0 ==> segments.deep_view() =~= Seq::<SegmentView>::empty());
        Ok(Curve { target, id, segments })
    }

    /// Decodes a list of curves, all or none.
    pub fn list_from_json(items: &Vec<Json>) -> (r: Result<Vec<Curve>, LoadError>)
        ensures
            outcome_view(r) == curves_of(items.deep_view()),
    {
        let mut out: Vec<Curve> = Vec::new();
        let mut i: usize = 0;
        let ghost all = items.deep_view();
        assert(out.deep_view() =~= Seq::<CurveView>::empty());
        while i < items.len()
            invariant
                i <= items.len(),
                all == items.deep_view(),
                try_map(all.take(i as int), curve_decoder()) == Ok::<Seq<CurveView>, LoadError>(
                    out.deep_view(),
                ),
            decreases items.len() - i,
        {
            proof {
                lemma_try_map_step(all, curve_decoder(), i as int);
            }
            match Curve::from_json(&items[i]) {
                Ok(curve) => {
                    let ghost before = out;
                    out.push(curve);
                    proof {
                        lemma_deep_view_push(before, out, curve);
                    }
                },
                Err(e) => {
                    proof {
                        lemma_try_map_fails(all, curve_decoder(), i + 1, all.len() as int);
                        assert(all.take(all.len() as int) =~= all);
                    }
                    return Err(e);
                },
            }
            i += 1;
        }
        assert(all.take(all.len() as int) =~= all);
        Ok(out)
    }
}

impl Meta {
    pub fn from_json(j: &Json) -> (r: Result<Meta, LoadError>)
        ensures
            r == meta_of(j.deep_view()),
    {
        let duration = require(j.scalar_field("Duration"))?;
        let fps = require(j.scalar_field("Fps"))?;
        let looped = or_value(j.flag_field("Loop"), false)?;
        let restricted_beziers = or_value(j.flag_field("AreBeziersRestricted"), false)?;
        let curve_count = require(j.count_field("CurveCount"))?;
        let total_segment_count = require(j.count_field("TotalSegmentCount"))?;
        let total_point_count = require(j.count_field("TotalPointCount"))?;
        let user_data_count = or_value(j.count_field("UserDataCount"), 0)?;
        let total_user_data_size = or_value(j.count_field("TotalUserDataSize"), 0)?;
        Ok(
            Meta {
                duration,
                fps,
                looped,
                restricted_beziers,
                curve_count,
                total_segment_count,
                total_point_count,
                user_data_count,
                total_user_data_size,
            },
        )
    }
}

impl MotionCurveDocument {
    pub fn is_well_formed(&self) -> (r: bool)
        ensures
            r == self.deep_view().well_formed(),
    {
        let mut c: usize = 0;
        while c < self.curves.len()
            invariant
                c <= self.curves.len(),
                forall|k: int| 0 <= k < c ==> (#[trigger] self.deep_view().curves[k]).well_formed(),
            decreases self.curves.len() - c,
        {
            if !self.curves[c].is_well_formed() {
                assert(!self.deep_view().curves[c as int].well_formed());
                return false;
            }
            c += 1;
        }
        true
    }

    /// Whether, in every curve, each segment takes over from the one before
    /// it; `false` also where a segment has no start or end.
    pub fn is_chained(&self) -> (r: bool)
        ensures
            r == (self.deep_view().well_formed() && self.deep_view().chained()),
    {
        let mut c: usize = 0;
        while c < self.curves.len()
            invariant
                c <= self.curves.len(),
                forall|k: int| 0 <= k < c ==> (#[trigger] self.deep_view().curves[k]).well_formed(),
                forall|k: int| 0 <= k < c ==> (#[trigger] self.deep_view().curves[k]).chained(),
            decreases self.curves.len() - c,
        {
            if !self.curves[c].is_chained() {
                let ghost curve = self.deep_view().curves[c as int];
                assert(!curve.well_formed() || !curve.chained());
                return false;
            }
            c += 1;
        }
        true
    }

    /// The segments of all curves, counted, where they are no more than
    /// `limit`.
    pub fn segment_total(&self, limit: u64) -> (r: Option<u64>)
        ensures
            match r {
                Some(n) => n == self.deep_view().segment_total() && n <= limit,
                None => self.deep_view().segment_total() > limit,
            },
    {
        let ghost all = self.deep_view().curves;
        let mut total: u64 = 0;
        let mut c: usize = 0;
        while c < self.curves.len()
            invariant
                c <= self.curves.len(),
                all == self.deep_view().curves,
                total == sum(all.take(c as int), segment_weight()),
                total <= limit,
            decreases self.curves.len() - c,
        {
            let n = self.curves[c].segments.len() as u64;
            proof {
                lemma_sum_step(all, segment_weight(), c as int);
                lemma_sum_prefix(all, segment_weight(), c + 1);
            }
            if n > limit - total {
                return None;
            }
            total = total + n;
            c += 1;
        }
        assert(all.take(all.len() as int) =~= all);
        Some(total)
    }

    /// The points of all curves, counted, where they are no more than
    /// `limit`.
    pub fn point_total(&self, limit: u64) -> (r: Option<u64>)
        ensures
            match r {
                Some(n) => n == self.deep_view().point_total() && n <= limit,
                None => self.deep_view().point_total() > limit,
            },
    {
        let ghost all = self.deep_view().curves;
        let mut total: u64 = 0;
        let mut c: usize = 0;
        while c < self.curves.len()
            invariant
                c <= self.curves.len(),
                all == self.deep_view().curves,
                total == sum(all.take(c as int), curve_point_weight()),
                total <= limit,
            decreases self.curves.len() - c,
        {
            proof {
                lemma_sum_step(all, curve_point_weight(), c as int);
                lemma_sum_prefix(all, curve_point_weight(), c + 1);
            }
            match self.curves[c].point_total(limit - total) {
                None => {
                    return None;
                },
                Some(n) => {
                    total = total + n;
                },
            }
            c += 1;
        }
        assert(all.take(all.len() as int) =~= all);
        Some(total)
    }

    /// Whether the counts declared are the counts held.
    pub fn counts_match(&self) -> (r: bool)
        ensures
            r == self.deep_view().counts_match(),
    {
        if self.meta.curve_count != self.curves.len() as u64 {
            return false;
        }
        let segments = self.segment_total(self.meta.total_segment_count);
        let points = self.point_total(self.meta.total_point_count);
        match (segments, points) {
            (Some(s), Some(p)) => s == self.meta.total_segment_count && p
                == self.meta.total_point_count,
            _ => false,
        }
    }

    /// Holds the document to what it declares and to the order of time.
    pub fn validate(&self) -> (r: Result<(), LoadError>)
        ensures
            r == self.deep_view().check(),
    {
        if !self.is_well_formed() {
            Err(LoadError::Parse)
        } else if !self.counts_match() {
            Err(LoadError::CountMismatch)
        } else if !self.is_chained() {
            Err(LoadError::OutOfOrderSegments)
        } else {
            Ok(())
        }
    }

    /// Reads what a parsed document holds, without validating it.
    pub fn decode(j: &Json) -> (r: Result<MotionCurveDocument, LoadError>)
        ensures
            outcome_view(r) == document_of(j.deep_view()),
    {
        let version = require(j.integer_field("Version"))?;
        let block = require(j.object_field("Meta"))?;
        let meta = Meta::from_json(block)?;
        let curves = match j.items_field("Curves")? {
            Some(items) => Curve::list_from_json(items)?,
            None => Vec::new(),
        };
        assert(curves.len() == 0 ==> curves.deep_view() =~= Seq::<CurveView>::empty());
        Ok(MotionCurveDocument { version, meta, curves })
    }

    /// Reads a motion from a parsed document and validates it.
    pub fn from_json(j: &Json) -> (r: Result<MotionCurveDocument, LoadError>)
        ensures
            outcome_view(r) == motion_of(j.deep_view()),
    {
        let document = MotionCurveDocument::decode(j)?;
        match document.validate() {
            Ok(_) => Ok(document),
            Err(e) => Err(e),
        }
    }

    /// Reads a motion from its text.
    pub fn parse(bytes: &[u8]) -> (r: Result<MotionCurveDocument, LoadError>)
        ensures
            outcome_view(r) == motion_text(bytes@),
    {
        match Json::parse(bytes) {
            Some(j) => MotionCurveDocument::from_json(&j),
            None => Err(LoadError::Parse),
        }
    }
}

/// A document that passes validation holds as many curves, segments and
/// points as it declares.
pub proof fn lemma_valid_counts(document: MotionCurveDocumentView)
    requires
        document.check() is Ok,
    ensures
        document.curves.len() == document.meta.curve_count,
        sum(document.curves, segment_weight()) == document.meta.total_segment_count,
        sum(document.curves, curve_point_weight()) == document.meta.total_point_count,
{
}

/// A document whose segments all have a start and an end, and that holds
/// another number of curves, segments or points than it declares, is refused
/// for its counts.
pub proof fn lemma_count_mismatch(document: MotionCurveDocumentView)
    requires
        document.well_formed(),
        document.curves.len() != document.meta.curve_count || document.segment_total()
            != document.meta.total_segment_count || document.point_total()
            != document.meta.total_point_count,
    ensures
        document.check() == Err::<(), LoadError>(LoadError::CountMismatch),
{
}

/// In a document that passes validation, a later segment of a curve starts
/// no earlier than an earlier one.
pub proof fn lemma_valid_order(document: MotionCurveDocumentView, c: int, i: int, j: int)
    requires
        document.check() is Ok,
        0 <= c < document.curves.len(),
        0 <= i < j < document.curves[c].segments.len(),
    ensures
        document.curves[c].segments[i].start_time().le(document.curves[c].segments[j].start_time()),
    decreases j - i,
{
    let curve = document.curves[c];
    assert(curve.chained());
    if i + 1 < j {
        lemma_valid_order(document, c, i, j - 1);
        assert(follows(curve.segments[j - 1], curve.segments[j - 1 + 1]));
        lemma_scalar_order(
            curve.segments[i].start_time(),
            curve.segments[j - 1].start_time(),
            curve.segments[j].start_time(),
        );
    } else {
        assert(follows(curve.segments[i], curve.segments[i + 1]));
    }
}

/// A document that holds the counts it declares, and in which a segment does
/// not take over from the one before it, is refused for its order.
pub proof fn lemma_out_of_order(document: MotionCurveDocumentView, c: int, i: int)
    requires
        document.well_formed(),
        document.counts_match(),
        0 <= c < document.curves.len(),
        0 <= i && i + 1 < document.curves[c].segments.len(),
        !follows(document.curves[c].segments[i], document.curves[c].segments[i + 1]),
    ensures
        document.check() == Err::<(), LoadError>(LoadError::OutOfOrderSegments),
{
    assert(!document.curves[c].chained());
}

} // verus!
