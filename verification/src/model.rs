use vstd::prelude::*;
use vstd::string::StringExecFns;
use crate::datum::{
    bool_list, document_or_absent, index_list, int_list, scalar_list, scalar_or_absent,
    text_list, text_or_absent, Datum, DatumView, Field,
};
use crate::decode::{first_index, first_index_from, lemma_first_index_from, outcome_view};
use crate::dict_helpers::{
    create_dict_from_drawable, create_dict_from_motion, create_dict_from_motion3,
    create_dict_from_parameter, create_dict_from_part, create_pair_from_vector, drawable_record,
    motion3_record, motion_record, parameter_record, part_record, vector_record,
};
use crate::error::LoadError;
use crate::expression::{
    Blend, Expression, ExpressionParameter, ExpressionParameterView, ExpressionView,
};
use crate::group::{ByGroup, ByGroupView, MotionGroup};
use crate::json::{Json, JsonView};
use crate::manifest::{
    ExpressionReference, ExpressionReferenceView, FileReferences, FileReferencesView, Group,
    GroupTarget, GroupView, HitArea, HitAreaView, Layout, ModelManifest, ModelManifestView,
    MotionReference, MotionReferenceView, Motions, MotionsView,
};
use crate::motion::{MotionCurveDocument, MotionCurveDocumentView};
use crate::scalar::Scalar;
use crate::solver::{
    CanvasInfo, Drawable, DrawableView, Moc, MocView, Parameter, ParameterView, Part, PartView,
    Solver, SolverView,
};

verus! {

/// An expression that a manifest declares, with what its file held. The
/// content is absent where the file could not be read or made no sense.
#[derive(Clone, Debug, PartialEq, Eq)]
pub struct ExpressionEntry {
    pub name: String,
    pub content: Option<Expression>,
}

pub ghost struct ExpressionEntryView {
    pub name: Seq<char>,
    pub content: Option<ExpressionView>,
}

impl DeepView for ExpressionEntry {
    type V = ExpressionEntryView;

    open spec fn deep_view(&self) -> ExpressionEntryView {
        ExpressionEntryView { name: self.name@, content: self.content.deep_view() }
    }
}

/// The motions of a model, by group, each in the place of its reference. A
/// motion is absent where its file could not be read or made no sense.
pub type MotionData = ByGroup<Vec<Option<MotionCurveDocument>>>;

pub type MotionDataView = ByGroupView<Seq<Option<MotionCurveDocumentView>>>;

/// A loaded model: the manifest, the solver's side of it, and what the files
/// that the manifest refers to held.
#[derive(Debug, PartialEq, Eq)]
pub struct CubismModel {
    pub res_path: String,
    pub solver: Solver,
    pub json: ModelManifest,
    pub expressions: Vec<ExpressionEntry>,
    pub pose: Option<Json>,
    pub physics: Option<Json>,
    pub user_data: Option<Json>,
    pub motions: MotionData,
}

pub ghost struct CubismModelView {
    pub res_path: Seq<char>,
    pub solver: SolverView,
    pub json: ModelManifestView,
    pub expressions: Seq<ExpressionEntryView>,
    pub pose: Option<JsonView>,
    pub physics: Option<JsonView>,
    pub user_data: Option<JsonView>,
    pub motions: MotionDataView,
}

impl DeepView for CubismModel {
    type V = CubismModelView;

    open spec fn deep_view(&self) -> CubismModelView {
        CubismModelView {
            res_path: self.res_path@,
            solver: self.solver.deep_view(),
            json: self.json.deep_view(),
            expressions: self.expressions.deep_view(),
            pose: self.pose.deep_view(),
            physics: self.physics.deep_view(),
            user_data: self.user_data.deep_view(),
            motions: self.motions.deep_view(),
        }
    }
}

/// One change that an expression makes: to the parameter at an index of the
/// solver, by a blend, with a value.
#[derive(Clone, Copy, Debug, PartialEq, Eq)]
pub struct BlendStep {
    pub parameter: usize,
    pub blend: Blend,
    pub value: Scalar,
}

/// What applying an expression comes to.
#[derive(Clone, Debug, PartialEq, Eq)]
pub enum ExpressionPlan {
    /// The expression is declared but its content is absent: nothing is to
    /// be done.
    Empty,
    /// The changes to make, in the order in which the expression lists them.
    Steps(Vec<BlendStep>),
}

pub ghost enum ExpressionPlanView {
    Empty,
    Steps(Seq<BlendStep>),
}

impl DeepView for ExpressionPlan {
    type V = ExpressionPlanView;

    open spec fn deep_view(&self) -> ExpressionPlanView {
        match self {
            ExpressionPlan::Empty => ExpressionPlanView::Empty,
            ExpressionPlan::Steps(steps) => ExpressionPlanView::Steps(steps@),
        }
    }
}

pub open spec fn parameter_ids(parameters: Seq<ParameterView>) -> Seq<Seq<char>> {
    parameters.map_values(|p: ParameterView| p.id)
}

pub open spec fn part_ids(parts: Seq<PartView>) -> Seq<Seq<char>> {
    parts.map_values(|p: PartView| p.id)
}

pub open spec fn drawable_ids(drawables: Seq<DrawableView>) -> Seq<Seq<char>> {
    drawables.map_values(|d: DrawableView| d.id)
}

pub open spec fn expression_names(entries: Seq<ExpressionEntryView>) -> Seq<Seq<char>> {
    entries.map_values(|e: ExpressionEntryView| e.name)
}

/// A record without fields: what a lookup hands out where nothing has the
/// name asked for.
pub open spec fn empty_record() -> DatumView {
    DatumView::Record(Seq::empty())
}

/// The record of the first parameter with that id.
pub open spec fn found_parameter(parameters: Seq<ParameterView>, name: Seq<char>) -> DatumView {
    match first_index(parameter_ids(parameters), name) {
        Some(i) => parameter_record(parameters[i]),
        None => empty_record(),
    }
}

/// The record of the first part with that id.
pub open spec fn found_part(parts: Seq<PartView>, name: Seq<char>) -> DatumView {
    match first_index(part_ids(parts), name) {
        Some(i) => part_record(parts[i]),
        None => empty_record(),
    }
}

/// The record of the first drawable with that id.
pub open spec fn found_drawable(drawables: Seq<DrawableView>, name: Seq<char>) -> DatumView {
    match first_index(drawable_ids(drawables), name) {
        Some(i) => drawable_record(drawables[i]),
        None => empty_record(),
    }
}

pub open spec fn parameter_records(parameters: Seq<ParameterView>) -> DatumView {
    DatumView::List(parameters.map_values(|p: ParameterView| parameter_record(p)))
}

pub open spec fn part_records(parts: Seq<PartView>) -> DatumView {
    DatumView::List(parts.map_values(|p: PartView| part_record(p)))
}

pub open spec fn drawable_records(drawables: Seq<DrawableView>) -> DatumView {
    DatumView::List(drawables.map_values(|d: DrawableView| drawable_record(d)))
}

/// The record of the canvas: its size, its origin, its pixels per unit.
pub open spec fn canvas_record(c: CanvasInfo) -> DatumView {
    DatumView::Record(
        seq![
            ("size"@, vector_record(c.size)),
            ("origin"@, vector_record(c.origin)),
            ("ppu"@, DatumView::Scalar(c.pixels_per_unit)),
        ],
    )
}

pub open spec fn index_lists(lists: Seq<Seq<u16>>) -> DatumView {
    DatumView::List(lists.map_values(|l: Seq<u16>| index_list(l)))
}

pub open spec fn int_lists(lists: Seq<Seq<i32>>) -> DatumView {
    DatumView::List(lists.map_values(|l: Seq<i32>| int_list(l)))
}

/// The record of the compiled model: each of its lists, and after the ids of
/// a kind how many there are.
pub open spec fn moc_record(m: MocView) -> DatumView {
    DatumView::Record(
        seq![
            ("parameter_ids"@, text_list(m.parameter_ids)),
            ("parameter_max"@, scalar_list(m.parameter_max)),
            ("parameter_min"@, scalar_list(m.parameter_min)),
            ("parameter_default"@, scalar_list(m.parameter_default)),
            ("parameter_count"@, DatumView::Count(m.parameter_ids.len() as u64)),
            ("part_ids"@, text_list(m.part_ids)),
            ("part_count"@, DatumView::Count(m.part_ids.len() as u64)),
            ("drawable_ids"@, text_list(m.drawable_ids)),
            ("drawable_indices"@, index_lists(m.drawable_indices)),
            ("drawable_masks"@, int_lists(m.drawable_masks)),
            ("is_masked"@, bool_list(m.is_masked)),
            ("drawable_texture_indices"@, int_list(m.drawable_texture_indices)),
            ("drawable_vertex_counts"@, int_list(m.drawable_vertex_counts)),
            ("drawable_count"@, DatumView::Count(m.drawable_ids.len() as u64)),
        ],
    )
}

pub open spec fn expression_reference_record(e: ExpressionReferenceView) -> DatumView {
    DatumView::Record(seq![("name"@, DatumView::Text(e.name)), ("file"@, DatumView::Text(e.file))])
}

pub open spec fn expression_reference_records(es: Seq<ExpressionReferenceView>) -> DatumView {
    DatumView::List(es.map_values(|e: ExpressionReferenceView| expression_reference_record(e)))
}

pub open spec fn motion_records(ms: Seq<MotionReferenceView>) -> DatumView {
    DatumView::List(ms.map_values(|m: MotionReferenceView| motion_record(m)))
}

/// The motions that a manifest declares for a group, under the name of the
/// group.
pub open spec fn motion_group_field(group: MotionGroup, m: MotionsView) -> (Seq<char>, DatumView) {
    (group.name(), motion_records(m.group(group)))
}

/// The record of the motions that a manifest declares: one list a group.
pub open spec fn motions_record(m: MotionsView) -> DatumView {
    DatumView::Record(
        seq![
            motion_group_field(MotionGroup::Idle, m),
            motion_group_field(MotionGroup::TapBody, m),
            motion_group_field(MotionGroup::PinchIn, m),
            motion_group_field(MotionGroup::PinchOut, m),
            motion_group_field(MotionGroup::Shake, m),
            motion_group_field(MotionGroup::FlickHead, m),
        ],
    )
}

/// The record of the files that a manifest refers to. A path that the
/// manifest leaves out is absent.
pub open spec fn file_references_record(f: FileReferencesView) -> DatumView {
    DatumView::Record(
        seq![
            ("moc"@, text_or_absent(f.moc)),
            ("textures"@, text_list(f.textures)),
            ("pose"@, text_or_absent(f.pose)),
            ("physics"@, text_or_absent(f.physics)),
            ("expressions"@, expression_reference_records(f.expressions)),
            ("motions"@, motions_record(f.motions)),
            ("user_data"@, text_or_absent(f.user_data)),
        ],
    )
}

pub open spec fn target_name(t: GroupTarget) -> Seq<char> {
    match t {
        GroupTarget::Parameter => "Parameter"@,
        GroupTarget::Part => "Part"@,
    }
}

pub open spec fn group_record(g: GroupView) -> DatumView {
    DatumView::Record(
        seq![
            ("target"@, DatumView::Text(target_name(g.target))),
            ("name"@, DatumView::Text(g.name)),
            ("ids"@, text_list(g.ids)),
        ],
    )
}

pub open spec fn group_records(gs: Seq<GroupView>) -> DatumView {
    DatumView::List(gs.map_values(|g: GroupView| group_record(g)))
}

pub open spec fn hit_area_record(h: HitAreaView) -> DatumView {
    DatumView::Record(seq![("name"@, DatumView::Text(h.name)), ("id"@, DatumView::Text(h.id))])
}

pub open spec fn hit_area_records(hs: Seq<HitAreaView>) -> DatumView {
    DatumView::List(hs.map_values(|h: HitAreaView| hit_area_record(h)))
}

pub open spec fn layout_record(l: Layout) -> DatumView {
    DatumView::Record(
        seq![
            ("center_x"@, scalar_or_absent(l.center_x)),
            ("center_y"@, scalar_or_absent(l.center_y)),
            ("x"@, scalar_or_absent(l.x)),
            ("y"@, scalar_or_absent(l.y)),
            ("width"@, scalar_or_absent(l.width)),
            ("height"@, scalar_or_absent(l.height)),
        ],
    )
}

/// The fields that the record of every manifest has.
pub open spec fn manifest_fields(m: ModelManifestView) -> Seq<(Seq<char>, DatumView)> {
    seq![
        ("version"@, DatumView::Int(m.version)),
        ("file_references"@, file_references_record(m.file_references)),
        ("groups"@, group_records(m.groups)),
        ("hit_area"@, hit_area_records(m.hit_areas)),
    ]
}

/// The record of a manifest. The layout is its last field where the manifest
/// has one, and no field of it where it has none.
pub open spec fn manifest_record(m: ModelManifestView) -> DatumView {
    match m.layout {
        Some(l) => DatumView::Record(manifest_fields(m).push(("layout"@, layout_record(l)))),
        None => DatumView::Record(manifest_fields(m)),
    }
}

/// The record of a declared expression: its name, and whether its content is
/// there.
pub open spec fn expression_entry_record(e: ExpressionEntryView) -> DatumView {
    DatumView::Record(
        seq![("name"@, DatumView::Text(e.name)), ("loaded"@, DatumView::Bool(e.content is Some))],
    )
}

pub open spec fn expression_entry_records(es: Seq<ExpressionEntryView>) -> DatumView {
    DatumView::List(es.map_values(|e: ExpressionEntryView| expression_entry_record(e)))
}

/// The record of a motion that may not be there.
pub open spec fn motion3_or_absent(m: Option<MotionCurveDocumentView>) -> DatumView {
    match m {
        Some(document) => motion3_record(document),
        None => DatumView::Absent,
    }
}

pub open spec fn motion3_records(ms: Seq<Option<MotionCurveDocumentView>>) -> DatumView {
    DatumView::List(ms.map_values(|m: Option<MotionCurveDocumentView>| motion3_or_absent(m)))
}

/// The changes that an expression makes to the parameters that the solver
/// has, in the order of the expression. A change to a parameter that the
/// solver does not have is passed over.
pub open spec fn blend_steps(changes: Seq<ExpressionParameterView>, ids: Seq<Seq<char>>) -> Seq<
    BlendStep,
>
    decreases changes.len(),
{
    if changes.len() == 0 {
        Seq::empty()
    } else {
        let rest = blend_steps(changes.drop_last(), ids);
        let last = changes.last();
        match first_index(ids, last.id) {
            Some(i) => rest.push(
                BlendStep { parameter: i as usize, blend: last.blend, value: last.value },
            ),
            None => rest,
        }
    }
}

/// What applying the expression of that name comes to.
pub open spec fn expression_plan(model: CubismModelView, name: Seq<char>) -> Result<
    ExpressionPlanView,
    LoadError,
> {
    match first_index(expression_names(model.expressions), name) {
        None => Err(LoadError::UnknownExpression),
        Some(i) => match model.expressions[i].content {
            None => Ok(ExpressionPlanView::Empty),
            Some(e) => Ok(
                ExpressionPlanView::Steps(
                    blend_steps(e.parameters, parameter_ids(model.solver.parameters)),
                ),
            ),
        },
    }
}

/// The place of the first parameter with that id.
pub fn find_parameter(items: &Vec<Parameter>, name: &str) -> (r: Option<usize>)
    ensures
        match r {
            Some(i) => i < items.len() &&
                first_index(parameter_ids(items.deep_view()), name@) == Some(i as int),
            None => first_index(parameter_ids(items.deep_view()), name@) is None,
        },
{
    let wanted = String::from_str(name);
    let ghost names = parameter_ids(items.deep_view());
    let mut i: usize = 0;
    proof {
        lemma_first_index_from(names, name@, 0);
    }
    while i < items.len()
        invariant
            i <= items.len(),
            wanted@ == name@,
            names == parameter_ids(items.deep_view()),
            first_index(names, name@) == first_index_from(names, name@, i as int),
        decreases items.len() - i,
    {
        proof {
            lemma_first_index_from(names, name@, i as int);
        }
        if items[i].id == wanted {
            return Some(i);
        }
        i += 1;
    }
    proof {
        lemma_first_index_from(names, name@, i as int);
    }
    None
}

/// The place of the first part with that id.
pub fn find_part(items: &Vec<Part>, name: &str) -> (r: Option<usize>)
    ensures
        match r {
            Some(i) => i < items.len() &&
                first_index(part_ids(items.deep_view()), name@) == Some(i as int),
            None => first_index(part_ids(items.deep_view()), name@) is None,
        },
{
    let wanted = String::from_str(name);
    let ghost names = part_ids(items.deep_view());
    let mut i: usize = 0;
    proof {
        lemma_first_index_from(names, name@, 0);
    }
    while i < items.len()
        invariant
            i <= items.len(),
            wanted@ == name@,
            names == part_ids(items.deep_view()),
            first_index(names, name@) == first_index_from(names, name@, i as int),
        decreases items.len() - i,
    {
        proof {
            lemma_first_index_from(names, name@, i as int);
        }
        if items[i].id == wanted {
            return Some(i);
        }
        i += 1;
    }
    proof {
        lemma_first_index_from(names, name@, i as int);
    }
    None
}

/// The place of the first drawable with that id.
pub fn find_drawable(items: &Vec<Drawable>, name: &str) -> (r: Option<usize>)
    ensures
        match r {
            Some(i) => i < items.len() &&
                first_index(drawable_ids(items.deep_view()), name@) == Some(i as int),
            None => first_index(drawable_ids(items.deep_view()), name@) is None,
        },
{
    let wanted = String::from_str(name);
    let ghost names = drawable_ids(items.deep_view());
    let mut i: usize = 0;
    proof {
        lemma_first_index_from(names, name@, 0);
    }
    while i < items.len()
        invariant
            i <= items.len(),
            wanted@ == name@,
            names == drawable_ids(items.deep_view()),
            first_index(names, name@) == first_index_from(names, name@, i as int),
        decreases items.len() - i,
    {
        proof {
            lemma_first_index_from(names, name@, i as int);
        }
        if items[i].id == wanted {
            return Some(i);
        }
        i += 1;
    }
    proof {
        lemma_first_index_from(names, name@, i as int);
    }
    None
}

/// The place of the first declared expression with that name.
pub fn find_expression(items: &Vec<ExpressionEntry>, name: &str) -> (r: Option<usize>)
    ensures
        match r {
            Some(i) => i < items.len() &&
                first_index(expression_names(items.deep_view()), name@) == Some(i as int),
            None => first_index(expression_names(items.deep_view()), name@) is None,
        },
{
    let wanted = String::from_str(name);
    let ghost names = expression_names(items.deep_view());
    let mut i: usize = 0;
    proof {
        lemma_first_index_from(names, name@, 0);
    }
    while i < items.len()
        invariant
            i <= items.len(),
            wanted@ == name@,
            names == expression_names(items.deep_view()),
            first_index(names, name@) == first_index_from(names, name@, i as int),
        decreases items.len() - i,
    {
        proof {
            lemma_first_index_from(names, name@, i as int);
        }
        if items[i].name == wanted {
            return Some(i);
        }
        i += 1;
    }
    proof {
        lemma_first_index_from(names, name@, i as int);
    }
    None
}

/// The parameters, each as its record.
pub fn create_list_from_parameters(items: &Vec<Parameter>) -> (d: Datum)
    ensures
        d.deep_view() == parameter_records(items.deep_view()),
{
    let mut out: Vec<Datum> = Vec::new();
    let mut i: usize = 0;
    while i < items.len()
        invariant
            i <= items.len(),
            out.len() == i,
            forall|k: int|
                0 <= k < i ==> (#[trigger] out[k]).deep_view() ==
                    parameter_record(items[k].deep_view()),
        decreases items.len() - i,
    {
        out.push(create_dict_from_parameter(&items[i]));
        i += 1;
    }
    assert(out.deep_view() =~= parameter_records(items.deep_view())->List_0);
    Datum::list(out)
}

/// The parts, each as its record.
pub fn create_list_from_parts(items: &Vec<Part>) -> (d: Datum)
    ensures
        d.deep_view() == part_records(items.deep_view()),
{
    let mut out: Vec<Datum> = Vec::new();
    let mut i: usize = 0;
    while i < items.len()
        invariant
            i <= items.len(),
            out.len() == i,
            forall|k: int|
                0 <= k < i ==> (#[trigger] out[k]).deep_view() == part_record(items[k].deep_view()),
        decreases items.len() - i,
    {
        out.push(create_dict_from_part(&items[i]));
        i += 1;
    }
    assert(out.deep_view() =~= part_records(items.deep_view())->List_0);
    Datum::list(out)
}

/// The drawables, each as its record.
pub fn create_list_from_drawables(items: &Vec<Drawable>) -> (d: Datum)
    ensures
        d.deep_view() == drawable_records(items.deep_view()),
{
    let mut out: Vec<Datum> = Vec::new();
    let mut i: usize = 0;
    while i < items.len()
        invariant
            i <= items.len(),
            out.len() == i,
            forall|k: int|
                0 <= k < i ==> (#[trigger] out[k]).deep_view() ==
                    drawable_record(items[k].deep_view()),
        decreases items.len() - i,
    {
        out.push(create_dict_from_drawable(&items[i]));
        i += 1;
    }
    assert(out.deep_view() =~= drawable_records(items.deep_view())->List_0);
    Datum::list(out)
}

/// The motion references of a group, each as its record.
pub fn create_list_from_motions(items: &Vec<MotionReference>) -> (d: Datum)
    ensures
        d.deep_view() == motion_records(items.deep_view()),
{
    let mut out: Vec<Datum> = Vec::new();
    let mut i: usize = 0;
    while i < items.len()
        invariant
            i <= items.len(),
            out.len() == i,
            forall|k: int|
                0 <= k < i ==> (#[trigger] out[k]).deep_view() ==
                    motion_record(items[k].deep_view()),
        decreases items.len() - i,
    {
        out.push(create_dict_from_motion(&items[i]));
        i += 1;
    }
    assert(out.deep_view() =~= motion_records(items.deep_view())->List_0);
    Datum::list(out)
}

pub fn create_dict_from_expression_reference(e: &ExpressionReference) -> (d: Datum)
    ensures
        d.deep_view() == expression_reference_record(e.deep_view()),
{
    let fields = vec![
        Field::new("name", Datum::text(&e.name)),
        Field::new("file", Datum::text(&e.file)),
    ];
    assert(fields.deep_view() =~= expression_reference_record(e.deep_view())->Record_0);
    Datum::record(fields)
}

/// The expression references, each as its record.
pub fn create_list_from_expression_references(items: &Vec<ExpressionReference>) -> (d: Datum)
    ensures
        d.deep_view() == expression_reference_records(items.deep_view()),
{
    let mut out: Vec<Datum> = Vec::new();
    let mut i: usize = 0;
    while i < items.len()
        invariant
            i <= items.len(),
            out.len() == i,
            forall|k: int|
                0 <= k < i ==> (#[trigger] out[k]).deep_view() ==
                    expression_reference_record(items[k].deep_view()),
        decreases items.len() - i,
    {
        out.push(create_dict_from_expression_reference(&items[i]));
        i += 1;
    }
    assert(out.deep_view() =~= expression_reference_records(items.deep_view())->List_0);
    Datum::list(out)
}

pub fn create_dict_from_group(g: &Group) -> (d: Datum)
    ensures
        d.deep_view() == group_record(g.deep_view()),
{
    let target = match g.target {
        GroupTarget::Parameter => "Parameter",
        GroupTarget::Part => "Part",
    };
    let fields = vec![
        Field::new("target", Datum::literal(target)),
        Field::new("name", Datum::text(&g.name)),
        Field::new("ids", Datum::texts(&g.ids)),
    ];
    assert(fields.deep_view() =~= group_record(g.deep_view())->Record_0);
    Datum::record(fields)
}

/// The groups, each as its record.
pub fn create_list_from_groups(items: &Vec<Group>) -> (d: Datum)
    ensures
        d.deep_view() == group_records(items.deep_view()),
{
    let mut out: Vec<Datum> = Vec::new();
    let mut i: usize = 0;
    while i < items.len()
        invariant
            i <= items.len(),
            out.len() == i,
            forall|k: int|
                0 <= k < i ==> (#[trigger] out[k]).deep_view() ==
                    group_record(items[k].deep_view()),
        decreases items.len() - i,
    {
        out.push(create_dict_from_group(&items[i]));
        i += 1;
    }
    assert(out.deep_view() =~= group_records(items.deep_view())->List_0);
    Datum::list(out)
}

pub fn create_dict_from_hit_area(ha: &HitArea) -> (d: Datum)
    ensures
        d.deep_view() == hit_area_record(ha.deep_view()),
{
    let fields = vec![
        Field::new("name", Datum::text(&ha.name)),
        Field::new("id", Datum::text(&ha.id)),
    ];
    assert(fields.deep_view() =~= hit_area_record(ha.deep_view())->Record_0);
    Datum::record(fields)
}

/// The hit areas, each as its record.
pub fn create_list_from_hit_areas(items: &Vec<HitArea>) -> (d: Datum)
    ensures
        d.deep_view() == hit_area_records(items.deep_view()),
{
    let mut out: Vec<Datum> = Vec::new();
    let mut i: usize = 0;
    while i < items.len()
        invariant
            i <= items.len(),
            out.len() == i,
            forall|k: int|
                0 <= k < i ==> (#[trigger] out[k]).deep_view() ==
                    hit_area_record(items[k].deep_view()),
        decreases items.len() - i,
    {
        out.push(create_dict_from_hit_area(&items[i]));
        i += 1;
    }
    assert(out.deep_view() =~= hit_area_records(items.deep_view())->List_0);
    Datum::list(out)
}

pub fn create_dict_from_layout(data: &Layout) -> (d: Datum)
    ensures
        d.deep_view() == layout_record(*data),
{
    let fields = vec![
        Field::new("center_x", Datum::optional_scalar(data.center_x)),
        Field::new("center_y", Datum::optional_scalar(data.center_y)),
        Field::new("x", Datum::optional_scalar(data.x)),
        Field::new("y", Datum::optional_scalar(data.y)),
        Field::new("width", Datum::optional_scalar(data.width)),
        Field::new("height", Datum::optional_scalar(data.height)),
    ];
    assert(fields.deep_view() =~= layout_record(*data)->Record_0);
    Datum::record(fields)
}

/// The motions of one group, as a field under the name of the group.
pub fn create_field_from_motion_group(group: MotionGroup, data: &Motions) -> (f: Field)
    ensures
        f.deep_view() == motion_group_field(group, data.deep_view()),
{
    Field::new(group.record_name(), create_list_from_motions(data.group(group)))
}

pub fn create_dict_from_motions(data: &Motions) -> (d: Datum)
    ensures
        d.deep_view() == motions_record(data.deep_view()),
{
    let fields = vec![
        create_field_from_motion_group(MotionGroup::Idle, data),
        create_field_from_motion_group(MotionGroup::TapBody, data),
        create_field_from_motion_group(MotionGroup::PinchIn, data),
        create_field_from_motion_group(MotionGroup::PinchOut, data),
        create_field_from_motion_group(MotionGroup::Shake, data),
        create_field_from_motion_group(MotionGroup::FlickHead, data),
    ];
    assert(fields.deep_view() =~= motions_record(data.deep_view())->Record_0);
    Datum::record(fields)
}

pub fn create_dict_from_file_references(data: &FileReferences) -> (d: Datum)
    ensures
        d.deep_view() == file_references_record(data.deep_view()),
{
    let fields = vec![
        Field::new("moc", Datum::optional_text(&data.moc)),
        Field::new("textures", Datum::texts(&data.textures)),
        Field::new("pose", Datum::optional_text(&data.pose)),
        Field::new("physics", Datum::optional_text(&data.physics)),
        Field::new("expressions", create_list_from_expression_references(&data.expressions)),
        Field::new("motions", create_dict_from_motions(&data.motions)),
        Field::new("user_data", Datum::optional_text(&data.user_data)),
    ];
    assert(fields.deep_view() =~= file_references_record(data.deep_view())->Record_0);
    Datum::record(fields)
}

pub fn create_dict_from_canvas(canvas: &CanvasInfo) -> (d: Datum)
    ensures
        d.deep_view() == canvas_record(*canvas),
{
    let fields = vec![
        Field::new("size", create_pair_from_vector(&canvas.size)),
        Field::new("origin", create_pair_from_vector(&canvas.origin)),
        Field::new("ppu", Datum::Scalar(canvas.pixels_per_unit)),
    ];
    assert(fields.deep_view() =~= canvas_record(*canvas)->Record_0);
    Datum::record(fields)
}

/// The indices of each drawable, a list a drawable.
pub fn create_list_from_index_lists(lists: &Vec<Vec<u16>>) -> (d: Datum)
    ensures
        d.deep_view() == index_lists(lists.deep_view()),
{
    let mut out: Vec<Datum> = Vec::new();
    let mut i: usize = 0;
    while i < lists.len()
        invariant
            i <= lists.len(),
            out.len() == i,
            forall|k: int| 0 <= k < i ==> (#[trigger] out[k]).deep_view() == index_list(lists[k]@),
        decreases lists.len() - i,
    {
        out.push(Datum::indices(&lists[i]));
        i += 1;
    }
    assert forall|k: int| 0 <= k < lists.len() implies #[trigger] lists.deep_view()[k]
        == lists[k]@ by {
        assert(lists[k].deep_view() =~= lists[k]@);
    }
    assert(out.deep_view() =~= index_lists(lists.deep_view())->List_0);
    Datum::list(out)
}

/// The masks of each drawable, a list a drawable.
pub fn create_list_from_int_lists(lists: &Vec<Vec<i32>>) -> (d: Datum)
    ensures
        d.deep_view() == int_lists(lists.deep_view()),
{
    let mut out: Vec<Datum> = Vec::new();
    let mut i: usize = 0;
    while i < lists.len()
        invariant
            i <= lists.len(),
            out.len() == i,
            forall|k: int| 0 <= k < i ==> (#[trigger] out[k]).deep_view() == int_list(lists[k]@),
        decreases lists.len() - i,
    {
        out.push(Datum::ints(&lists[i]));
        i += 1;
    }
    assert forall|k: int| 0 <= k < lists.len() implies #[trigger] lists.deep_view()[k]
        == lists[k]@ by {
        assert(lists[k].deep_view() =~= lists[k]@);
    }
    assert(out.deep_view() =~= int_lists(lists.deep_view())->List_0);
    Datum::list(out)
}

pub fn create_dict_from_moc(moc: &Moc) -> (d: Datum)
    ensures
        d.deep_view() == moc_record(moc.deep_view()),
{
    let fields = vec![
        Field::new("parameter_ids", Datum::texts(&moc.parameter_ids)),
        Field::new("parameter_max", Datum::scalars(&moc.parameter_max)),
        Field::new("parameter_min", Datum::scalars(&moc.parameter_min)),
        Field::new("parameter_default", Datum::scalars(&moc.parameter_default)),
        Field::new("parameter_count", Datum::Count(moc.parameter_ids.len() as u64)),
        Field::new("part_ids", Datum::texts(&moc.part_ids)),
        Field::new("part_count", Datum::Count(moc.part_ids.len() as u64)),
        Field::new("drawable_ids", Datum::texts(&moc.drawable_ids)),
        Field::new("drawable_indices", create_list_from_index_lists(&moc.drawable_indices)),
        Field::new("drawable_masks", create_list_from_int_lists(&moc.drawable_masks)),
        Field::new("is_masked", Datum::bools(&moc.is_masked)),
        Field::new("drawable_texture_indices", Datum::ints(&moc.drawable_texture_indices)),
        Field::new("drawable_vertex_counts", Datum::ints(&moc.drawable_vertex_counts)),
        Field::new("drawable_count", Datum::Count(moc.drawable_ids.len() as u64)),
    ];
    assert(fields.deep_view() =~= moc_record(moc.deep_view())->Record_0);
    Datum::record(fields)
}

pub fn create_dict_from_expression_entry(e: &ExpressionEntry) -> (d: Datum)
    ensures
        d.deep_view() == expression_entry_record(e.deep_view()),
{
    let fields = vec![
        Field::new("name", Datum::text(&e.name)),
        Field::new("loaded", Datum::Bool(e.content.is_some())),
    ];
    assert(fields.deep_view() =~= expression_entry_record(e.deep_view())->Record_0);
    Datum::record(fields)
}

/// The declared expressions, each as its record.
pub fn create_list_from_expression_entries(items: &Vec<ExpressionEntry>) -> (d: Datum)
    ensures
        d.deep_view() == expression_entry_records(items.deep_view()),
{
    let mut out: Vec<Datum> = Vec::new();
    let mut i: usize = 0;
    while i < items.len()
        invariant
            i <= items.len(),
            out.len() == i,
            forall|k: int|
                0 <= k < i ==> (#[trigger] out[k]).deep_view() == expression_entry_record(
                    items[k].deep_view(),
                ),
        decreases items.len() - i,
    {
        out.push(create_dict_from_expression_entry(&items[i]));
        i += 1;
    }
    assert(out.deep_view() =~= expression_entry_records(items.deep_view())->List_0);
    Datum::list(out)
}

/// The motions of a group, each as its record or absent.
pub fn create_list_from_motion3s(items: &Vec<Option<MotionCurveDocument>>) -> (d: Datum)
    ensures
        d.deep_view() == motion3_records(items.deep_view()),
{
    let mut out: Vec<Datum> = Vec::new();
    let mut i: usize = 0;
    while i < items.len()
        invariant
            i <= items.len(),
            out.len() == i,
            forall|k: int|
                0 <= k < i ==> (#[trigger] out[k]).deep_view() == motion3_or_absent(
                    items[k].deep_view(),
                ),
        decreases items.len() - i,
    {
        let record = match &items[i] {
            Some(document) => create_dict_from_motion3(document),
            None => Datum::Absent,
        };
        out.push(record);
        i += 1;
    }
    assert(out.deep_view() =~= motion3_records(items.deep_view())->List_0);
    Datum::list(out)
}

/// The changes that an expression makes to the parameters that the solver
/// has.
pub fn create_steps(changes: &Vec<ExpressionParameter>, parameters: &Vec<Parameter>) -> (r: Vec<
    BlendStep,
>)
    ensures
        r@ == blend_steps(changes.deep_view(), parameter_ids(parameters.deep_view())),
{
    let ghost all = changes.deep_view();
    let ghost ids = parameter_ids(parameters.deep_view());
    let mut out: Vec<BlendStep> = Vec::new();
    let mut i: usize = 0;
    while i < changes.len()
        invariant
            i <= changes.len(),
            all == changes.deep_view(),
            ids == parameter_ids(parameters.deep_view()),
            out@ == blend_steps(all.take(i as int), ids),
        decreases changes.len() - i,
    {
        assert(all.take(i + 1).drop_last() =~= all.take(i as int));
        assert(all.take(i + 1).last() == all[i as int]);
        match find_parameter(parameters, changes[i].id.as_str()) {
            Some(k) => {
                out.push(
                    BlendStep { parameter: k, blend: changes[i].blend, value: changes[i].value },
                );
            },
            None => {},
        }
        i += 1;
    }
    assert(all.take(all.len() as int) =~= all);
    out
}

impl CubismModel {
    /// The manifest, as a record.
    pub fn json(&self) -> (d: Datum)
        ensures
            d.deep_view() == manifest_record(self.deep_view().json),
    {
        let json = &self.json;
        let mut fields = vec![
            Field::new("version", Datum::Int(json.version)),
            Field::new("file_references", create_dict_from_file_references(&json.file_references)),
            Field::new("groups", create_list_from_groups(&json.groups)),
            Field::new("hit_area", create_list_from_hit_areas(&json.hit_areas)),
        ];
        assert(fields.deep_view() =~= manifest_fields(json.deep_view()));
        match &json.layout {
            Some(data) => {
                let ghost before = fields.deep_view();
                fields.push(Field::new("layout", create_dict_from_layout(data)));
                assert(fields.deep_view() =~= before.push(("layout"@, layout_record(*data))));
            },
            None => {},
        }
        Datum::record(fields)
    }

    /// The directory that holds the manifest.
    pub fn res_path(&self) -> (r: &str)
        ensures
            r@ == self.deep_view().res_path,
    {
        self.res_path.as_str()
    }

    /// The compiled model, as a record.
    pub fn moc(&self) -> (d: Datum)
        ensures
            d.deep_view() == moc_record(self.deep_view().solver.moc),
    {
        create_dict_from_moc(&self.solver.moc)
    }

    /// The canvas, as a record.
    pub fn canvas_info(&self) -> (d: Datum)
        ensures
            d.deep_view() == canvas_record(self.deep_view().solver.canvas),
    {
        create_dict_from_canvas(&self.solver.canvas)
    }

    /// The record of the parameter of that id, without fields where there is
    /// none.
    pub fn parameter(&self, param_name: &str) -> (d: Datum)
        ensures
            d.deep_view() == found_parameter(self.deep_view().solver.parameters, param_name@),
    {
        match find_parameter(&self.solver.parameters, param_name) {
            Some(i) => create_dict_from_parameter(&self.solver.parameters[i]),
            None => Datum::empty_record(),
        }
    }

    /// All parameters, in the order of the solver.
    pub fn parameters(&self) -> (d: Datum)
        ensures
            d.deep_view() == parameter_records(self.deep_view().solver.parameters),
    {
        create_list_from_parameters(&self.solver.parameters)
    }

    /// The record of the part of that id, without fields where there is none.
    pub fn part(&self, part_name: &str) -> (d: Datum)
        ensures
            d.deep_view() == found_part(self.deep_view().solver.parts, part_name@),
    {
        match find_part(&self.solver.parts, part_name) {
            Some(i) => create_dict_from_part(&self.solver.parts[i]),
            None => Datum::empty_record(),
        }
    }

    /// All parts, in the order of the solver.
    pub fn parts(&self) -> (d: Datum)
        ensures
            d.deep_view() == part_records(self.deep_view().solver.parts),
    {
        create_list_from_parts(&self.solver.parts)
    }

    /// The record of the drawable of that id, without fields where there is
    /// none.
    pub fn drawable(&self, drawable_name: &str) -> (d: Datum)
        ensures
            d.deep_view() == found_drawable(self.deep_view().solver.drawables, drawable_name@),
    {
        match find_drawable(&self.solver.drawables, drawable_name) {
            Some(i) => create_dict_from_drawable(&self.solver.drawables[i]),
            None => Datum::empty_record(),
        }
    }

    /// All drawables, in the order of the solver.
    pub fn drawables(&self) -> (d: Datum)
        ensures
            d.deep_view() == drawable_records(self.deep_view().solver.drawables),
    {
        create_list_from_drawables(&self.solver.drawables)
    }

    /// The declared expressions, each with whether its content is there.
    pub fn expressions(&self) -> (d: Datum)
        ensures
            d.deep_view() == expression_entry_records(self.deep_view().expressions),
    {
        create_list_from_expression_entries(&self.expressions)
    }

    /// The pose document, absent where none was loaded.
    pub fn pose(&self) -> (d: Datum)
        ensures
            d.deep_view() == document_or_absent(self.deep_view().pose),
    {
        Datum::optional_document(&self.pose)
    }

    /// The physics document, absent where none was loaded.
    pub fn physics(&self) -> (d: Datum)
        ensures
            d.deep_view() == document_or_absent(self.deep_view().physics),
    {
        Datum::optional_document(&self.physics)
    }

    /// The user data document, absent where none was loaded.
    pub fn user_data(&self) -> (d: Datum)
        ensures
            d.deep_view() == document_or_absent(self.deep_view().user_data),
    {
        Datum::optional_document(&self.user_data)
    }

    /// The motions of a group, each as its record, absent where its file
    /// could not be read or made no sense.
    pub fn motions(&self, group: MotionGroup) -> (d: Datum)
        ensures
            d.deep_view() == motion3_records(self.deep_view().motions.group(group)),
    {
        create_list_from_motion3s(self.motions.group(group))
    }

    /// Takes over the state of the solver after it has advanced.
    pub fn update(&mut self, solver: Solver)
        ensures
            final(self).solver == solver,
            final(self).res_path == old(self).res_path,
            final(self).json == old(self).json,
            final(self).expressions == old(self).expressions,
            final(self).pose == old(self).pose,
            final(self).physics == old(self).physics,
            final(self).user_data == old(self).user_data,
            final(self).motions == old(self).motions,
    {
        self.solver = solver;
    }

    /// Works out what applying the expression of that name comes to. The
    /// model is left as it is: the changes are the caller's to make.
    pub fn apply_expression(&self, expression_id: &str) -> (r: Result<ExpressionPlan, LoadError>)
        ensures
            outcome_view(r) == expression_plan(self.deep_view(), expression_id@),
    {
        match find_expression(&self.expressions, expression_id) {
            None => Err(LoadError::UnknownExpression),
            Some(i) => match &self.expressions[i].content {
                None => Ok(ExpressionPlan::Empty),
                Some(e) => Ok(
                    ExpressionPlan::Steps(create_steps(&e.parameters, &self.solver.parameters)),
                ),
            },
        }
    }
}

/// Applying an expression that was never declared fails.
pub proof fn lemma_unknown_expression(model: CubismModelView, name: Seq<char>)
    requires
        forall|i: int| 0 <= i < model.expressions.len() ==> model.expressions[i].name != name,
    ensures
        expression_plan(model, name) == Err::<ExpressionPlanView, LoadError>(
            LoadError::UnknownExpression,
        ),
{
    let names = expression_names(model.expressions);
    crate::decode::lemma_first_index(names, name);
    if first_index(names, name) is Some {
        let i = first_index(names, name)->0;
        assert(names[i] == model.expressions[i].name);
    }
}

/// Applying an expression that is declared, but whose content is absent,
/// comes to nothing: no parameter is to be changed.
pub proof fn lemma_empty_expression(model: CubismModelView, name: Seq<char>, i: int)
    requires
        0 <= i < model.expressions.len(),
        model.expressions[i].name == name,
        forall|k: int| 0 <= k < i ==> model.expressions[k].name != name,
        model.expressions[i].content is None,
    ensures
        expression_plan(model, name) == Ok::<ExpressionPlanView, LoadError>(
            ExpressionPlanView::Empty,
        ),
{
    let names = expression_names(model.expressions);
    crate::decode::lemma_first_index(names, name);
    assert(names[i] == name);
    let found = first_index(names, name)->0;
    assert(names[found] == model.expressions[found].name);
}

} // verus!
