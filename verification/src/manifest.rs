use vstd::prelude::*;
use crate::decode::{
    lemma_deep_view_push, lemma_try_map_fails, lemma_try_map_step, outcome_view, try_map,
};
use crate::error::LoadError;
use crate::group::{ByGroup, ByGroupView, MotionGroup};
use crate::json::{
    json_text, or_default, or_value, require, required, text_is, texts_of, Json, JsonView,
};
use crate::scalar::Scalar;

verus! {

/// The one version of the manifest format that this library reads.
pub const SUPPORTED_VERSION: i64 = 3;

pub open spec fn supported(version: i64) -> bool {
    version == SUPPORTED_VERSION
}

/// What the ids of a group name.
#[derive(Clone, Copy, Debug, PartialEq, Eq, Structural)]
pub enum GroupTarget {
    Parameter,
    Part,
}

/// A motion file with the times over which it fades in and out.
#[derive(Clone, Debug, PartialEq, Eq)]
pub struct MotionReference {
    pub file: String,
    pub fade_in_time: Option<Scalar>,
    pub fade_out_time: Option<Scalar>,
}

pub ghost struct MotionReferenceView {
    pub file: Seq<char>,
    pub fade_in_time: Option<Scalar>,
    pub fade_out_time: Option<Scalar>,
}

impl DeepView for MotionReference {
    type V = MotionReferenceView;

    open spec fn deep_view(&self) -> MotionReferenceView {
        MotionReferenceView {
            file: self.file@,
            fade_in_time: self.fade_in_time,
            fade_out_time: self.fade_out_time,
        }
    }
}

/// An expression file under the name it is applied by.
#[derive(Clone, Debug, PartialEq, Eq)]
pub struct ExpressionReference {
    pub name: String,
    pub file: String,
}

pub ghost struct ExpressionReferenceView {
    pub name: Seq<char>,
    pub file: Seq<char>,
}

impl DeepView for ExpressionReference {
    type V = ExpressionReferenceView;

    open spec fn deep_view(&self) -> ExpressionReferenceView {
        ExpressionReferenceView { name: self.name@, file: self.file@ }
    }
}

/// The motions of a model, by group.
pub type Motions = ByGroup<Vec<MotionReference>>;

pub type MotionsView = ByGroupView<Seq<MotionReferenceView>>;

/// The files that a manifest refers to, each by a path relative to the
/// directory that holds the manifest.
#[derive(Clone, Debug, PartialEq, Eq)]
pub struct FileReferences {
    pub moc: Option<String>,
    pub textures: Vec<String>,
    pub pose: Option<String>,
    pub physics: Option<String>,
    pub user_data: Option<String>,
    pub expressions: Vec<ExpressionReference>,
    pub motions: Motions,
}

pub ghost struct FileReferencesView {
    pub moc: Option<Seq<char>>,
    pub textures: Seq<Seq<char>>,
    pub pose: Option<Seq<char>>,
    pub physics: Option<Seq<char>>,
    pub user_data: Option<Seq<char>>,
    pub expressions: Seq<ExpressionReferenceView>,
    pub motions: MotionsView,
}

impl DeepView for FileReferences {
    type V = FileReferencesView;

    open spec fn deep_view(&self) -> FileReferencesView {
        FileReferencesView {
            moc: self.moc.deep_view(),
            textures: self.textures.deep_view(),
            pose: self.pose.deep_view(),
            physics: self.physics.deep_view(),
            user_data: self.user_data.deep_view(),
            expressions: self.expressions.deep_view(),
            motions: self.motions.deep_view(),
        }
    }
}

/// A named list of parameter ids or of part ids.
#[derive(Clone, Debug, PartialEq, Eq)]
pub struct Group {
    pub target: GroupTarget,
    pub name: String,
    pub ids: Vec<String>,
}

pub ghost struct GroupView {
    pub target: GroupTarget,
    pub name: Seq<char>,
    pub ids: Seq<Seq<char>>,
}

impl DeepView for Group {
    type V = GroupView;

    open spec fn deep_view(&self) -> GroupView {
        GroupView { target: self.target, name: self.name@, ids: self.ids.deep_view() }
    }
}

/// A region of the model that answers to a touch.
#[derive(Clone, Debug, PartialEq, Eq)]
pub struct HitArea {
    pub name: String,
    pub id: String,
}

pub ghost struct HitAreaView {
    pub name: Seq<char>,
    pub id: Seq<char>,
}

impl DeepView for HitArea {
    type V = HitAreaView;

    open spec fn deep_view(&self) -> HitAreaView {
        HitAreaView { name: self.name@, id: self.id@ }
    }
}

/// Where the model sits on its canvas. What the manifest leaves out is
/// absent here.
#[derive(Clone, Copy, Debug, PartialEq, Eq)]
pub struct Layout {
    pub center_x: Option<Scalar>,
    pub center_y: Option<Scalar>,
    pub x: Option<Scalar>,
    pub y: Option<Scalar>,
    pub width: Option<Scalar>,
    pub height: Option<Scalar>,
}

/// The root document of a model.
#[derive(Clone, Debug, PartialEq, Eq)]
pub struct ModelManifest {
    pub version: i64,
    pub file_references: FileReferences,
    pub groups: Vec<Group>,
    pub hit_areas: Vec<HitArea>,
    pub layout: Option<Layout>,
}

pub ghost struct ModelManifestView {
    pub version: i64,
    pub file_references: FileReferencesView,
    pub groups: Seq<GroupView>,
    pub hit_areas: Seq<HitAreaView>,
    pub layout: Option<Layout>,
}

impl DeepView for ModelManifest {
    type V = ModelManifestView;

    open spec fn deep_view(&self) -> ModelManifestView {
        ModelManifestView {
            version: self.version,
            file_references: self.file_references.deep_view(),
            groups: self.groups.deep_view(),
            hit_areas: self.hit_areas.deep_view(),
            layout: self.layout,
        }
    }
}

/// A motion reference is an object with a `File` and, where it says so, a
/// `FadeInTime` and a `FadeOutTime`. A file that is left out is the empty
/// path.
pub open spec fn motion_reference_of(j: JsonView) -> Result<MotionReferenceView, LoadError> {
    let file = or_default(j.text_field("File"@), Seq::empty());
    let fade_in_time = j.scalar_field("FadeInTime"@);
    let fade_out_time = j.scalar_field("FadeOutTime"@);
    if j is Object && file is Ok && fade_in_time is Ok && fade_out_time is Ok {
        Ok(
            MotionReferenceView {
                file: file->Ok_0,
                fade_in_time: fade_in_time->Ok_0,
                fade_out_time: fade_out_time->Ok_0,
            },
        )
    } else {
        Err(LoadError::Parse)
    }
}

pub open spec fn motion_reference_decoder() -> spec_fn(JsonView) -> Result<
    MotionReferenceView,
    LoadError,
> {
    |j: JsonView| motion_reference_of(j)
}

pub open spec fn motion_references_of(items: Seq<JsonView>) -> Result<
    Seq<MotionReferenceView>,
    LoadError,
> {
    try_map(items, motion_reference_decoder())
}

/// The motion references of a group, listed under its key, none where the
/// key is left out.
pub open spec fn motion_group_of(block: JsonView, group: MotionGroup) -> Result<
    Seq<MotionReferenceView>,
    LoadError,
> {
    match block.items_field(group.key()) {
        Err(e) => Err(e),
        Ok(items) => motion_references_of(items),
    }
}

/// The `Motions` block: one optional list for each of the six groups.
pub open spec fn motions_of(block: JsonView) -> Result<MotionsView, LoadError> {
    match motion_group_of(block, MotionGroup::Idle) {
        Err(e) => Err(e),
        Ok(idle) => match motion_group_of(block, MotionGroup::TapBody) {
            Err(e) => Err(e),
            Ok(tap_body) => match motion_group_of(block, MotionGroup::PinchIn) {
                Err(e) => Err(e),
                Ok(pinch_in) => match motion_group_of(block, MotionGroup::PinchOut) {
                    Err(e) => Err(e),
                    Ok(pinch_out) => match motion_group_of(block, MotionGroup::Shake) {
                        Err(e) => Err(e),
                        Ok(shake) => match motion_group_of(block, MotionGroup::FlickHead) {
                            Err(e) => Err(e),
                            Ok(flick_head) => Ok(
                                ByGroupView {
                                    idle,
                                    tap_body,
                                    pinch_in,
                                    pinch_out,
                                    shake,
                                    flick_head,
                                },
                            ),
                        },
                    },
                },
            },
        },
    }
}

/// An expression reference is an object with a `Name` and a `File`, each
/// empty where it is left out.
pub open spec fn expression_reference_of(j: JsonView) -> Result<
    ExpressionReferenceView,
    LoadError,
> {
    let name = or_default(j.text_field("Name"@), Seq::empty());
    let file = or_default(j.text_field("File"@), Seq::empty());
    if j is Object && name is Ok && file is Ok {
        Ok(ExpressionReferenceView { name: name->Ok_0, file: file->Ok_0 })
    } else {
        Err(LoadError::Parse)
    }
}

pub open spec fn expression_reference_decoder() -> spec_fn(JsonView) -> Result<
    ExpressionReferenceView,
    LoadError,
> {
    |j: JsonView| expression_reference_of(j)
}

pub open spec fn expression_references_of(items: Seq<JsonView>) -> Result<
    Seq<ExpressionReferenceView>,
    LoadError,
> {
    try_map(items, expression_reference_decoder())
}

/// The `FileReferences` block. Every entry of it may be left out.
pub open spec fn file_references_of(block: JsonView) -> Result<FileReferencesView, LoadError> {
    match block.text_field("Moc"@) {
        Err(e) => Err(e),
        Ok(moc) => match block.items_field("Textures"@) {
            Err(e) => Err(e),
            Ok(texture_items) => match texts_of(texture_items) {
                Err(e) => Err(e),
                Ok(textures) => match block.text_field("Pose"@) {
                    Err(e) => Err(e),
                    Ok(pose) => match block.text_field("Physics"@) {
                        Err(e) => Err(e),
                        Ok(physics) => match block.text_field("UserData"@) {
                            Err(e) => Err(e),
                            Ok(user_data) => match block.items_field("Expressions"@) {
                                Err(e) => Err(e),
                                Ok(expression_items) => match expression_references_of(
                                    expression_items,
                                ) {
                                    Err(e) => Err(e),
                                    Ok(expressions) => match block.object_field("Motions"@) {
                                        Err(e) => Err(e),
                                        Ok(None) => Ok(
                                            FileReferencesView {
                                                moc,
                                                textures,
                                                pose,
                                                physics,
                                                user_data,
                                                expressions,
                                                motions: MotionsView::all(Seq::empty()),
                                            },
                                        ),
                                        Ok(Some(motion_block)) => match motions_of(motion_block) {
                                            Err(e) => Err(e),
                                            Ok(motions) => Ok(
                                                FileReferencesView {
                                                    moc,
                                                    textures,
                                                    pose,
                                                    physics,
                                                    user_data,
                                                    expressions,
                                                    motions,
                                                },
                                            ),
                                        },
                                    },
                                },
                            },
                        },
                    },
                },
            },
        },
    }
}

/// The target that the `Target` of a group names. Whatever is not the text
/// `Parameter` or the text `Part`, a target left out too, makes the group
/// malformed.
pub open spec fn target_of(target: Option<JsonView>) -> Result<GroupTarget, LoadError> {
    match target {
        Some(JsonView::Text(text)) => if text == "Parameter"@ {
            Ok(GroupTarget::Parameter)
        } else if text == "Part"@ {
            Ok(GroupTarget::Part)
        } else {
            Err(LoadError::MalformedGroup)
        },
        _ => Err(LoadError::MalformedGroup),
    }
}

/// A group is an object with a `Target`, a `Name` and its `Ids`. The target
/// is judged first; the name is empty and the ids are none where they are
/// left out.
pub open spec fn group_of(j: JsonView) -> Result<GroupView, LoadError> {
    if !(j is Object) {
        Err(LoadError::Parse)
    } else {
        match target_of(j.member("Target"@)) {
            Err(e) => Err(e),
            Ok(target) => match or_default(j.text_field("Name"@), Seq::empty()) {
                Err(e) => Err(e),
                Ok(name) => match j.items_field("Ids"@) {
                    Err(e) => Err(e),
                    Ok(items) => match texts_of(items) {
                        Err(e) => Err(e),
                        Ok(ids) => Ok(GroupView { target, name, ids }),
                    },
                },
            },
        }
    }
}

pub open spec fn group_decoder() -> spec_fn(JsonView) -> Result<GroupView, LoadError> {
    |j: JsonView| group_of(j)
}

pub open spec fn groups_of(items: Seq<JsonView>) -> Result<Seq<GroupView>, LoadError> {
    try_map(items, group_decoder())
}

/// A hit area is an object with a `Name` and an `Id`, each empty where it
/// is left out.
pub open spec fn hit_area_of(j: JsonView) -> Result<HitAreaView, LoadError> {
    let name = or_default(j.text_field("Name"@), Seq::empty());
    let id = or_default(j.text_field("Id"@), Seq::empty());
    if j is Object && name is Ok && id is Ok {
        Ok(HitAreaView { name: name->Ok_0, id: id->Ok_0 })
    } else {
        Err(LoadError::Parse)
    }
}

pub open spec fn hit_area_decoder() -> spec_fn(JsonView) -> Result<HitAreaView, LoadError> {
    |j: JsonView| hit_area_of(j)
}

pub open spec fn hit_areas_of(items: Seq<JsonView>) -> Result<Seq<HitAreaView>, LoadError> {
    try_map(items, hit_area_decoder())
}

/// The `Layout` block: six scalars, each of which may be left out.
pub open spec fn layout_of(block: JsonView) -> Result<Layout, LoadError> {
    let center_x = block.scalar_field("CenterX"@);
    let center_y = block.scalar_field("CenterY"@);
    let x = block.scalar_field("X"@);
    let y = block.scalar_field("Y"@);
    let width = block.scalar_field("Width"@);
    let height = block.scalar_field("Height"@);
    if center_x is Ok && center_y is Ok && x is Ok && y is Ok && width is Ok && height is Ok {
        Ok(
            Layout {
                center_x: center_x->Ok_0,
                center_y: center_y->Ok_0,
                x: x->Ok_0,
                y: y->Ok_0,
                width: width->Ok_0,
                height: height->Ok_0,
            },
        )
    } else {
        Err(LoadError::Parse)
    }
}

/// The optional `Layout` of a manifest.
pub open spec fn layout_field(j: JsonView) -> Result<Option<Layout>, LoadError> {
    match j.object_field("Layout"@) {
        Err(e) => Err(e),
        Ok(None) => Ok(None),
        Ok(Some(block)) => match layout_of(block) {
            Err(e) => Err(e),
            Ok(layout) => Ok(Some(layout)),
        },
    }
}

/// The manifest that a parsed document describes. `Version` and
/// `FileReferences` must be there, all else may be left out. The version is
/// judged before anything else is read; after it, what is wrong first in the
/// order `FileReferences`, `Groups`, `HitAreas`, `Layout` decides the error.
pub open spec fn manifest_of(j: JsonView) -> Result<ModelManifestView, LoadError> {
    match required(j.integer_field("Version"@)) {
        Err(e) => Err(e),
        Ok(version) => if !supported(version) {
            Err(LoadError::UnsupportedVersion)
        } else {
            match required(j.object_field("FileReferences"@)) {
                Err(e) => Err(e),
                Ok(block) => match file_references_of(block) {
                    Err(e) => Err(e),
                    Ok(file_references) => match j.items_field("Groups"@) {
                        Err(e) => Err(e),
                        Ok(group_items) => match groups_of(group_items) {
                            Err(e) => Err(e),
                            Ok(groups) => match j.items_field("HitAreas"@) {
                                Err(e) => Err(e),
                                Ok(area_items) => match hit_areas_of(area_items) {
                                    Err(e) => Err(e),
                                    Ok(hit_areas) => match layout_field(j) {
                                        Err(e) => Err(e),
                                        Ok(layout) => Ok(
                                            ModelManifestView {
                                                version,
                                                file_references,
                                                groups,
                                                hit_areas,
                                                layout,
                                            },
                                        ),
                                    },
                                },
                            },
                        },
                    },
                },
            }
        },
    }
}

/// The manifest that a text describes.
pub open spec fn manifest_text(bytes: Seq<u8>) -> Result<ModelManifestView, LoadError> {
    match json_text(bytes) {
        None => Err(LoadError::Parse),
        Some(j) => manifest_of(j),
    }
}

impl GroupTarget {
    /// Reads a target from the `Target` of a group.
    pub fn from_json(target: Option<&Json>) -> (r: Result<GroupTarget, LoadError>)
        ensures
            r == target_of(target.deep_view()),
    {
        match target {
            Some(Json::Text(text)) => if text_is(text, "Parameter") {
                Ok(GroupTarget::Parameter)
            } else if text_is(text, "Part") {
                Ok(GroupTarget::Part)
            } else {
                Err(LoadError::MalformedGroup)
            },
            _ => Err(LoadError::MalformedGroup),
        }
    }
}

impl MotionReference {
    pub fn from_json(j: &Json) -> (r: Result<MotionReference, LoadError>)
        ensures
            outcome_view(r) == motion_reference_of(j.deep_view()),
    {
        if !j.is_object() {
            return Err(LoadError::Parse);
        }
        let file = or_value(j.text_field("File"), String::new())?;
        let fade_in_time = j.scalar_field("FadeInTime")?;
        let fade_out_time = j.scalar_field("FadeOutTime")?;
        Ok(MotionReference { file, fade_in_time, fade_out_time })
    }

    /// Decodes a list of motion references, all or none.
    pub fn list_from_json(items: &Vec<Json>) -> (r: Result<Vec<MotionReference>, LoadError>)
        ensures
            outcome_view(r) == motion_references_of(items.deep_view()),
    {
        let mut out: Vec<MotionReference> = Vec::new();
        let mut i: usize = 0;
        let ghost all = items.deep_view();
        assert(out.deep_view() =~= Seq::<MotionReferenceView>::empty());
        while i < items.len()
            invariant
                i <= items.len(),
                all == items.deep_view(),
                try_map(all.take(i as int), motion_reference_decoder()) ==
                    Ok::<Seq<MotionReferenceView>, LoadError>(
                    out.deep_view(),
                ),
            decreases items.len() - i,
        {
            proof {
                lemma_try_map_step(all, motion_reference_decoder(), i as int);
            }
            match MotionReference::from_json(&items[i]) {
                Ok(item) => {
                    let ghost before = out;
                    out.push(item);
                    proof {
                        lemma_deep_view_push(before, out, item);
                    }
                },
                Err(e) => {
                    proof {
                        lemma_try_map_fails(
                            all,
                            motion_reference_decoder(),
                            i + 1,
                            all.len() as int,
                        );
                        assert(all.take(all.len() as int) =~= all);
                    }
                    return Err(e);
                },
            }
            i += 1;
        }
        assert(all.take(all.len() as int) =~= all);
        Ok(out)
    }

    /// The motion references of a group, none where its key is left out.
    pub fn group_from_json(block: &Json, group: MotionGroup) -> (r: Result<
        Vec<MotionReference>,
        LoadError,
    >)
        ensures
            outcome_view(r) == motion_group_of(block.deep_view(), group),
    {
        match block.items_field(group.manifest_key())? {
            Some(items) => MotionReference::list_from_json(items),
            None => {
                let none: Vec<MotionReference> = Vec::new();
                assert(none.deep_view() =~= Seq::<MotionReferenceView>::empty());
                Ok(none)
            },
        }
    }
}

/// No motion in any group.
pub fn no_motions() -> (r: Motions)
    ensures
        r.deep_view() == MotionsView::all(Seq::empty()),
{
    let r = ByGroup {
        idle: Vec::new(),
        tap_body: Vec::new(),
        pinch_in: Vec::new(),
        pinch_out: Vec::new(),
        shake: Vec::new(),
        flick_head: Vec::new(),
    };
    assert(r.idle.deep_view() =~= Seq::<MotionReferenceView>::empty());
    assert(r.tap_body.deep_view() =~= Seq::<MotionReferenceView>::empty());
    assert(r.pinch_in.deep_view() =~= Seq::<MotionReferenceView>::empty());
    assert(r.pinch_out.deep_view() =~= Seq::<MotionReferenceView>::empty());
    assert(r.shake.deep_view() =~= Seq::<MotionReferenceView>::empty());
    assert(r.flick_head.deep_view() =~= Seq::<MotionReferenceView>::empty());
    r
}

/// Reads the `Motions` block of a manifest.
pub fn motions_from_json(block: &Json) -> (r: Result<Motions, LoadError>)
    ensures
        outcome_view(r) == motions_of(block.deep_view()),
{
    let idle = MotionReference::group_from_json(block, MotionGroup::Idle)?;
    let tap_body = MotionReference::group_from_json(block, MotionGroup::TapBody)?;
    let pinch_in = MotionReference::group_from_json(block, MotionGroup::PinchIn)?;
    let pinch_out = MotionReference::group_from_json(block, MotionGroup::PinchOut)?;
    let shake = MotionReference::group_from_json(block, MotionGroup::Shake)?;
    let flick_head = MotionReference::group_from_json(block, MotionGroup::FlickHead)?;
    Ok(ByGroup { idle, tap_body, pinch_in, pinch_out, shake, flick_head })
}

impl ExpressionReference {
    pub fn from_json(j: &Json) -> (r: Result<ExpressionReference, LoadError>)
        ensures
            outcome_view(r) == expression_reference_of(j.deep_view()),
    {
        if !j.is_object() {
            return Err(LoadError::Parse);
        }
        let name = or_value(j.text_field("Name"), String::new())?;
        let file = or_value(j.text_field("File"), String::new())?;
        Ok(ExpressionReference { name, file })
    }

    /// Decodes a list of expression references, all or none.
    pub fn list_from_json(items: &Vec<Json>) -> (r: Result<Vec<ExpressionReference>, LoadError>)
        ensures
            outcome_view(r) == expression_references_of(items.deep_view()),
    {
        let mut out: Vec<ExpressionReference> = Vec::new();
        let mut i: usize = 0;
        let ghost all = items.deep_view();
        assert(out.deep_view() =~= Seq::<ExpressionReferenceView>::empty());
        while i < items.len()
            invariant
                i <= items.len(),
                all == items.deep_view(),
                try_map(all.take(i as int), expression_reference_decoder()) ==
                    Ok::<Seq<ExpressionReferenceView>, LoadError>(
                    out.deep_view(),
                ),
            decreases items.len() - i,
        {
            proof {
                lemma_try_map_step(all, expression_reference_decoder(), i as int);
            }
            match ExpressionReference::from_json(&items[i]) {
                Ok(item) => {
                    let ghost before = out;
                    out.push(item);
                    proof {
                        lemma_deep_view_push(before, out, item);
                    }
                },
                Err(e) => {
                    proof {
                        lemma_try_map_fails(
                            all,
                            expression_reference_decoder(),
                            i + 1,
                            all.len() as int,
                        );
                        assert(all.take(all.len() as int) =~= all);
                    }
                    return Err(e);
                },
            }
            i += 1;
        }
        assert(all.take(all.len() as int) =~= all);
        Ok(out)
    }
}

impl FileReferences {
    pub fn from_json(block: &Json) -> (r: Result<FileReferences, LoadError>)
        ensures
            outcome_view(r) == file_references_of(block.deep_view()),
    {
        let moc = block.text_field("Moc")?;
        let textures = block.texts_field("Textures")?;
        let pose = block.text_field("Pose")?;
        let physics = block.text_field("Physics")?;
        let user_data = block.text_field("UserData")?;
        let expressions = match block.items_field("Expressions")? {
            Some(items) => ExpressionReference::list_from_json(items)?,
            None => Vec::new(),
        };
        assert(expressions.len() == 0 ==> expressions.deep_view() =~= Seq::<
            ExpressionReferenceView,
        >::empty());
        let motions = match block.object_field("Motions")? {
            Some(motion_block) => motions_from_json(motion_block)?,
            None => no_motions(),
        };
        Ok(FileReferences { moc, textures, pose, physics, user_data, expressions, motions })
    }
}

impl Group {
    pub fn from_json(j: &Json) -> (r: Result<Group, LoadError>)
        ensures
            outcome_view(r) == group_of(j.deep_view()),
    {
        if !j.is_object() {
            return Err(LoadError::Parse);
        }
        let target = GroupTarget::from_json(j.member("Target"))?;
        let name = or_value(j.text_field("Name"), String::new())?;
        let ids = j.texts_field("Ids")?;
        Ok(Group { target, name, ids })
    }

    /// Decodes a list of groups, all or none.
    pub fn list_from_json(items: &Vec<Json>) -> (r: Result<Vec<Group>, LoadError>)
        ensures
            outcome_view(r) == groups_of(items.deep_view()),
    {
        let mut out: Vec<Group> = Vec::new();
        let mut i: usize = 0;
        let ghost all = items.deep_view();
        assert(out.deep_view() =~= Seq::<GroupView>::empty());
        while i < items.len()
            invariant
                i <= items.len(),
                all == items.deep_view(),
                try_map(all.take(i as int), group_decoder()) == Ok::<Seq<GroupView>, LoadError>(
                    out.deep_view(),
                ),
            decreases items.len() - i,
        {
            proof {
                lemma_try_map_step(all, group_decoder(), i as int);
            }
            match Group::from_json(&items[i]) {
                Ok(item) => {
                    let ghost before = out;
                    out.push(item);
                    proof {
                        lemma_deep_view_push(before, out, item);
                    }
                },
                Err(e) => {
                    proof {
                        lemma_try_map_fails(all, group_decoder(), i + 1, all.len() as int);
                        assert(all.take(all.len() as int) =~= all);
                    }
                    return Err(e);
                },
            }
            i += 1;
        }
        assert(all.take(all.len() as int) =~= all);
        Ok(out)
    }
}

impl HitArea {
    pub fn from_json(j: &Json) -> (r: Result<HitArea, LoadError>)
        ensures
            outcome_view(r) == hit_area_of(j.deep_view()),
    {
        if !j.is_object() {
            return Err(LoadError::Parse);
        }
        let name = or_value(j.text_field("Name"), String::new())?;
        let id = or_value(j.text_field("Id"), String::new())?;
        Ok(HitArea { name, id })
    }

    /// Decodes a list of hit areas, all or none.
    pub fn list_from_json(items: &Vec<Json>) -> (r: Result<Vec<HitArea>, LoadError>)
        ensures
            outcome_view(r) == hit_areas_of(items.deep_view()),
    {
        let mut out: Vec<HitArea> = Vec::new();
        let mut i: usize = 0;
        let ghost all = items.deep_view();
        assert(out.deep_view() =~= Seq::<HitAreaView>::empty());
        while i < items.len()
            invariant
                i <= items.len(),
                all == items.deep_view(),
                try_map(all.take(i as int), hit_area_decoder()) ==
                    Ok::<Seq<HitAreaView>, LoadError>(
                    out.deep_view(),
                ),
            decreases items.len() - i,
        {
            proof {
                lemma_try_map_step(all, hit_area_decoder(), i as int);
            }
            match HitArea::from_json(&items[i]) {
                Ok(item) => {
                    let ghost before = out;
                    out.push(item);
                    proof {
                        lemma_deep_view_push(before, out, item);
                    }
                },
                Err(e) => {
                    proof {
                        lemma_try_map_fails(all, hit_area_decoder(), i + 1, all.len() as int);
                        assert(all.take(all.len() as int) =~= all);
                    }
                    return Err(e);
                },
            }
            i += 1;
        }
        assert(all.take(all.len() as int) =~= all);
        Ok(out)
    }
}

impl Layout {
    pub fn from_json(block: &Json) -> (r: Result<Layout, LoadError>)
        ensures
            r == layout_of(block.deep_view()),
    {
        let center_x = block.scalar_field("CenterX")?;
        let center_y = block.scalar_field("CenterY")?;
        let x = block.scalar_field("X")?;
        let y = block.scalar_field("Y")?;
        let width = block.scalar_field("Width")?;
        let height = block.scalar_field("Height")?;
        Ok(Layout { center_x, center_y, x, y, width, height })
    }
}

impl ModelManifest {
    /// Reads a manifest from a parsed document.
    pub fn from_json(j: &Json) -> (r: Result<ModelManifest, LoadError>)
        ensures
            outcome_view(r) == manifest_of(j.deep_view()),
    {
        let version = require(j.integer_field("Version"))?;
        if version != SUPPORTED_VERSION {
            return Err(LoadError::UnsupportedVersion);
        }
        let block = require(j.object_field("FileReferences"))?;
        let file_references = FileReferences::from_json(block)?;
        let groups = match j.items_field("Groups")? {
            Some(items) => Group::list_from_json(items)?,
            None => Vec::new(),
        };
        assert(groups.len() == 0 ==> groups.deep_view() =~= Seq::<GroupView>::empty());
        let hit_areas = match j.items_field("HitAreas")? {
            Some(items) => HitArea::list_from_json(items)?,
            None => Vec::new(),
        };
        assert(hit_areas.len() == 0 ==> hit_areas.deep_view() =~= Seq::<HitAreaView>::empty());
        let layout = match j.object_field("Layout")? {
            Some(layout_block) => Some(Layout::from_json(layout_block)?),
            None => None,
        };
        Ok(ModelManifest { version, file_references, groups, hit_areas, layout })
    }

    /// Reads a manifest from its text.
    pub fn parse(bytes: &[u8]) -> (r: Result<ModelManifest, LoadError>)
        ensures
            outcome_view(r) == manifest_text(bytes@),
    {
        match Json::parse(bytes) {
            Some(j) => ModelManifest::from_json(&j),
            None => Err(LoadError::Parse),
        }
    }
}

/// A manifest is read only where its version is the supported one; any other
/// version is refused as unsupported, whatever else the document holds.
pub proof fn lemma_version_decides(j: JsonView)
    ensures
        manifest_of(j) is Ok ==> j.integer_field("Version"@) == Ok::<Option<i64>, LoadError>(
            Some(SUPPORTED_VERSION),
        ),
        forall|version: i64|
            j.integer_field("Version"@) == Ok::<Option<i64>, LoadError>(Some(version)) && version
                != SUPPORTED_VERSION ==> manifest_of(j) == Err::<ModelManifestView, LoadError>(
                LoadError::UnsupportedVersion,
            ),
{
}

} // verus!
