use vstd::prelude::*;
use crate::error::{IoFailure, LoadError};
use crate::expression::{expression_text, Expression, ExpressionView};
use crate::group::{ByGroup, ByGroupView};
use crate::json::{json_text, Json, JsonView};
use crate::manifest::{
    manifest_text, ExpressionReference, ExpressionReferenceView, ModelManifest,
    ModelManifestView, MotionReference, MotionReferenceView,
};
use crate::model::{
    CubismModel, CubismModelView, ExpressionEntry, ExpressionEntryView, MotionDataView,
};
use crate::motion::{motion_text, MotionCurveDocument, MotionCurveDocumentView};
use crate::resolver::{requests, requests_of, Requests, RequestsView};
use crate::solver::{Solver, SolverView};

verus! {

/// What came of reading one file.
#[derive(Clone, Debug, PartialEq, Eq)]
pub enum Fetched {
    Bytes(Vec<u8>),
    Failed(IoFailure),
}

pub ghost enum FetchedView {
    Bytes(Seq<u8>),
    Failed(IoFailure),
}

impl DeepView for Fetched {
    type V = FetchedView;

    open spec fn deep_view(&self) -> FetchedView {
        match self {
            Fetched::Bytes(bytes) => FetchedView::Bytes(bytes@),
            Fetched::Failed(failure) => FetchedView::Failed(*failure),
        }
    }
}

/// What came of reading the files that a manifest refers to: one outcome for
/// each reference, in the place of the reference. An outcome that is missing
/// counts as a file that could not be read.
#[derive(Clone, Debug, PartialEq, Eq)]
pub struct Resources {
    pub expressions: Vec<Fetched>,
    pub pose: Option<Fetched>,
    pub physics: Option<Fetched>,
    pub user_data: Option<Fetched>,
    pub motions: ByGroup<Vec<Fetched>>,
}

pub ghost struct ResourcesView {
    pub expressions: Seq<FetchedView>,
    pub pose: Option<FetchedView>,
    pub physics: Option<FetchedView>,
    pub user_data: Option<FetchedView>,
    pub motions: ByGroupView<Seq<FetchedView>>,
}

impl DeepView for Resources {
    type V = ResourcesView;

    open spec fn deep_view(&self) -> ResourcesView {
        ResourcesView {
            expressions: self.expressions.deep_view(),
            pose: self.pose.deep_view(),
            physics: self.physics.deep_view(),
            user_data: self.user_data.deep_view(),
            motions: self.motions.deep_view(),
        }
    }
}

/// The two steps of a load without which there is no model.
#[derive(Clone, Copy, Debug, PartialEq, Eq, Structural)]
pub enum LoadStep {
    /// Reading the manifest.
    Manifest,
    /// Handing the compiled model to the solver.
    Solver,
}

/// Why a load was given up: the step that failed, the file it failed on and
/// the reason.
#[derive(Clone, Debug, PartialEq, Eq)]
pub struct LoadFailure {
    pub step: LoadStep,
    pub path: String,
    pub reason: LoadError,
}

pub ghost struct LoadFailureView {
    pub step: LoadStep,
    pub path: Seq<char>,
    pub reason: LoadError,
}

impl DeepView for LoadFailure {
    type V = LoadFailureView;

    open spec fn deep_view(&self) -> LoadFailureView {
        LoadFailureView { step: self.step, path: self.path@, reason: self.reason }
    }
}

/// A load with the model or the failure replaced by its mathematical value.
pub open spec fn load_view(r: Result<CubismModel, LoadFailure>) -> Result<
    CubismModelView,
    LoadFailureView,
> {
    match r {
        Ok(model) => Ok(model.deep_view()),
        Err(failure) => Err(failure.deep_view()),
    }
}

/// The expression that the file in place `i` held, if it was read and made
/// sense.
pub open spec fn expression_content(fetched: Seq<FetchedView>, i: int) -> Option<ExpressionView> {
    if 0 <= i < fetched.len() {
        match fetched[i] {
            FetchedView::Bytes(bytes) => match expression_text(bytes) {
                Ok(expression) => Some(expression),
                Err(_) => None,
            },
            FetchedView::Failed(_) => None,
        }
    } else {
        None
    }
}

/// One entry for each declared expression, under its name, with what its
/// file held.
pub open spec fn loaded_expressions(
    references: Seq<ExpressionReferenceView>,
    fetched: Seq<FetchedView>,
) -> Seq<ExpressionEntryView> {
    Seq::new(
        references.len(),
        |i: int|
            ExpressionEntryView {
                name: references[i].name,
                content: expression_content(fetched, i),
            },
    )
}

/// The motion that the file in place `i` held, if it was read, made sense
/// and passed validation.
pub open spec fn motion_content(fetched: Seq<FetchedView>, i: int) -> Option<
    MotionCurveDocumentView,
> {
    if 0 <= i < fetched.len() {
        match fetched[i] {
            FetchedView::Bytes(bytes) => match motion_text(bytes) {
                Ok(motion) => Some(motion),
                Err(_) => None,
            },
            FetchedView::Failed(_) => None,
        }
    } else {
        None
    }
}

/// One motion, or none, for each motion that a group declares.
pub open spec fn loaded_motions(
    references: Seq<MotionReferenceView>,
    fetched: Seq<FetchedView>,
) -> Seq<Option<MotionCurveDocumentView>> {
    Seq::new(references.len(), |i: int| motion_content(fetched, i))
}

/// The motions of all six groups.
pub open spec fn loaded_motion_data(
    references: ByGroupView<Seq<MotionReferenceView>>,
    fetched: ByGroupView<Seq<FetchedView>>,
) -> MotionDataView {
    ByGroupView {
        idle: loaded_motions(references.idle, fetched.idle),
        tap_body: loaded_motions(references.tap_body, fetched.tap_body),
        pinch_in: loaded_motions(references.pinch_in, fetched.pinch_in),
        pinch_out: loaded_motions(references.pinch_out, fetched.pinch_out),
        shake: loaded_motions(references.shake, fetched.shake),
        flick_head: loaded_motions(references.flick_head, fetched.flick_head),
    }
}

/// The document of an optional file: there where the manifest declares the
/// file, the file was read and its text is a document.
pub open spec fn loaded_document(declared: Option<Seq<char>>, fetched: Option<FetchedView>) ->
    Option<
    JsonView,
> {
    match (declared, fetched) {
        (Some(_), Some(FetchedView::Bytes(bytes))) => json_text(bytes),
        _ => None,
    }
}

/// The model that a manifest, the solver's side and the files read make.
pub open spec fn assembled(
    path: Seq<char>,
    manifest: ModelManifestView,
    solver: SolverView,
    resources: ResourcesView,
) -> CubismModelView {
    CubismModelView {
        res_path: path,
        solver,
        json: manifest,
        expressions: loaded_expressions(
            manifest.file_references.expressions,
            resources.expressions,
        ),
        pose: loaded_document(manifest.file_references.pose, resources.pose),
        physics: loaded_document(manifest.file_references.physics, resources.physics),
        user_data: loaded_document(manifest.file_references.user_data, resources.user_data),
        motions: loaded_motion_data(manifest.file_references.motions, resources.motions),
    }
}

/// The files that a load asks for once the manifest is in hand: those that
/// the references of the manifest name, or none at all where the manifest
/// could not be read or is refused.
pub open spec fn planned(path: Seq<char>, manifest: FetchedView) -> Option<RequestsView> {
    match manifest {
        FetchedView::Bytes(bytes) => match manifest_text(bytes) {
            Ok(document) => Some(requests_of(path, document.file_references)),
            Err(_) => None,
        },
        FetchedView::Failed(_) => None,
    }
}

/// What a load comes to. Without a manifest that reads, and without a
/// solver for the compiled model that it names, there is no model. Every
/// other file that fails leaves its one place in the model absent.
pub open spec fn loaded(
    path: Seq<char>,
    file_name: Seq<char>,
    manifest: FetchedView,
    solver: Result<SolverView, LoadError>,
    resources: ResourcesView,
) -> Result<CubismModelView, LoadFailureView> {
    match manifest {
        FetchedView::Failed(failure) => Err(
            LoadFailureView {
                step: LoadStep::Manifest,
                path: file_name,
                reason: LoadError::Io(failure),
            },
        ),
        FetchedView::Bytes(bytes) => match manifest_text(bytes) {
            Err(reason) => Err(
                LoadFailureView { step: LoadStep::Manifest, path: file_name, reason },
            ),
            Ok(document) => match document.file_references.moc {
                None => Err(
                    LoadFailureView {
                        step: LoadStep::Solver,
                        path: Seq::empty(),
                        reason: LoadError::Io(IoFailure::NotFound),
                    },
                ),
                Some(moc) => match solver {
                    Err(reason) => Err(
                        LoadFailureView { step: LoadStep::Solver, path: moc, reason },
                    ),
                    Ok(state) => Ok(assembled(path, document, state, resources)),
                },
            },
        },
    }
}

/// The solver's side of a load, with the state replaced by its mathematical
/// value.
pub open spec fn solver_view(solver: Result<Solver, LoadError>) -> Result<SolverView, LoadError> {
    match solver {
        Ok(state) => Ok(state.deep_view()),
        Err(reason) => Err(reason),
    }
}

/// Reads the expression that the file in place `i` held.
pub fn load_expression(fetched: &Vec<Fetched>, i: usize) -> (r: Option<Expression>)
    ensures
        r.deep_view() == expression_content(fetched.deep_view(), i as int),
{
    if i < fetched.len() {
        match &fetched[i] {
            Fetched::Bytes(bytes) => match Expression::parse(bytes.as_slice()) {
                Ok(expression) => Some(expression),
                Err(_) => None,
            },
            Fetched::Failed(_) => None,
        }
    } else {
        None
    }
}

/// Reads the declared expressions, each from the file in its place.
pub fn load_expressions(references: &Vec<ExpressionReference>, fetched: &Vec<Fetched>) -> (r: Vec<
    ExpressionEntry,
>)
    ensures
        r.deep_view() == loaded_expressions(references.deep_view(), fetched.deep_view()),
{
    let mut out: Vec<ExpressionEntry> = Vec::new();
    let mut i: usize = 0;
    while i < references.len()
        invariant
            i <= references.len(),
            out.len() == i,
            forall|k: int|
                0 <= k < i ==> (#[trigger] out[k]).deep_view() == (ExpressionEntryView {
                    name: references[k].name@,
                    content: expression_content(fetched.deep_view(), k),
                }),
        decreases references.len() - i,
    {
        let content = load_expression(fetched, i);
        out.push(ExpressionEntry { name: references[i].name.clone(), content });
        i += 1;
    }
    out
}

/// Reads the motion that the file in place `i` held.
pub fn load_motion(fetched: &Vec<Fetched>, i: usize) -> (r: Option<MotionCurveDocument>)
    ensures
        r.deep_view() == motion_content(fetched.deep_view(), i as int),
{
    if i < fetched.len() {
        match &fetched[i] {
            Fetched::Bytes(bytes) => match MotionCurveDocument::parse(bytes.as_slice()) {
                Ok(motion) => Some(motion),
                Err(_) => None,
            },
            Fetched::Failed(_) => None,
        }
    } else {
        None
    }
}

/// Reads the motions of one group, each from the file in its place.
pub fn load_motions(references: &Vec<MotionReference>, fetched: &Vec<Fetched>) -> (r: Vec<
    Option<MotionCurveDocument>,
>)
    ensures
        r.deep_view() == loaded_motions(references.deep_view(), fetched.deep_view()),
{
    let mut out: Vec<Option<MotionCurveDocument>> = Vec::new();
    let mut i: usize = 0;
    while i < references.len()
        invariant
            i <= references.len(),
            out.len() == i,
            forall|k: int|
                0 <= k < i ==> (#[trigger] out[k]).deep_view() == motion_content(
                    fetched.deep_view(),
                    k,
                ),
        decreases references.len() - i,
    {
        out.push(load_motion(fetched, i));
        i += 1;
    }
    out
}

/// Reads the document of an optional file.
pub fn load_document(declared: &Option<String>, fetched: &Option<Fetched>) -> (r: Option<Json>)
    ensures
        r.deep_view() == loaded_document(declared.deep_view(), fetched.deep_view()),
{
    match (declared, fetched) {
        (Some(_), Some(Fetched::Bytes(bytes))) => Json::parse(bytes.as_slice()),
        _ => None,
    }
}

/// Makes models.
#[derive(Clone, Copy, Debug, Default, PartialEq, Eq)]
pub struct CubismModelFactory;

impl CubismModelFactory {
    pub fn new() -> (r: CubismModelFactory)
        ensures
            r == CubismModelFactory,
    {
        CubismModelFactory
    }

    /// Lists the files to read for the manifest that lies in `path`, once the
    /// manifest is in hand. Nothing is asked for where the manifest could
    /// not be read or is refused.
    pub fn plan(&self, path: &str, manifest: &Fetched) -> (r: Option<Requests>)
        ensures
            r.deep_view() == planned(path@, manifest.deep_view()),
    {
        match manifest {
            Fetched::Bytes(bytes) => match ModelManifest::parse(bytes.as_slice()) {
                Ok(document) => Some(requests(path, &document.file_references)),
                Err(_) => None,
            },
            Fetched::Failed(_) => None,
        }
    }

    /// Makes a model of what was read: the manifest `file_name` in the
    /// directory `path`, the solver's side of the compiled model that the
    /// manifest names, and the files that the manifest refers to.
    pub fn cubism_loader(
        &self,
        path: String,
        file_name: String,
        manifest: &Fetched,
        solver: Result<Solver, LoadError>,
        resources: &Resources,
    ) -> (r: Result<CubismModel, LoadFailure>)
        ensures
            load_view(r) == loaded(
                path@,
                file_name@,
                manifest.deep_view(),
                solver_view(solver),
                resources.deep_view(),
            ),
    {
        let bytes = match manifest {
            Fetched::Failed(failure) => {
                return Err(
                    LoadFailure {
                        step: LoadStep::Manifest,
                        path: file_name,
                        reason: LoadError::Io(*failure),
                    },
                );
            },
            Fetched::Bytes(bytes) => bytes,
        };
        let json3 = match ModelManifest::parse(bytes.as_slice()) {
            Err(reason) => {
                return Err(LoadFailure { step: LoadStep::Manifest, path: file_name, reason });
            },
            Ok(document) => document,
        };
        let moc = match &json3.file_references.moc {
            None => {
                return Err(
                    LoadFailure {
                        step: LoadStep::Solver,
                        path: String::new(),
                        reason: LoadError::Io(IoFailure::NotFound),
                    },
                );
            },
            Some(moc) => moc.clone(),
        };
        let model = match solver {
            Err(reason) => {
                return Err(LoadFailure { step: LoadStep::Solver, path: moc, reason });
            },
            Ok(state) => state,
        };
        let references = &json3.file_references;
        let expressions = load_expressions(&references.expressions, &resources.expressions);
        let pose = load_document(&references.pose, &resources.pose);
        let physics = load_document(&references.physics, &resources.physics);
        let user_data = load_document(&references.user_data, &resources.user_data);
        let motion_files = &references.motions;
        let motions = ByGroup {
            idle: load_motions(&motion_files.idle, &resources.motions.idle),
            tap_body: load_motions(&motion_files.tap_body, &resources.motions.tap_body),
            pinch_in: load_motions(&motion_files.pinch_in, &resources.motions.pinch_in),
            pinch_out: load_motions(&motion_files.pinch_out, &resources.motions.pinch_out),
            shake: load_motions(&motion_files.shake, &resources.motions.shake),
            flick_head: load_motions(&motion_files.flick_head, &resources.motions.flick_head),
        };
        Ok(
            CubismModel {
                res_path: path,
                solver: model,
                json: json3,
                expressions,
                pose,
                physics,
                user_data,
                motions,
            },
        )
    }
}

/// A manifest of an unsupported version ends the load at the manifest: no
/// file is asked for, and whatever the solver and the other files hold,
/// nothing of them is made part of anything.
pub proof fn lemma_unsupported_version(
    path: Seq<char>,
    file_name: Seq<char>,
    bytes: Seq<u8>,
    solver: Result<SolverView, LoadError>,
    resources: ResourcesView,
)
    requires
        manifest_text(bytes) == Err::<ModelManifestView, LoadError>(LoadError::UnsupportedVersion),
    ensures
        planned(path, FetchedView::Bytes(bytes)) is None,
        loaded(path, file_name, FetchedView::Bytes(bytes), solver, resources) == Err::<
            CubismModelView,
            LoadFailureView,
        >(
            LoadFailureView {
                step: LoadStep::Manifest,
                path: file_name,
                reason: LoadError::UnsupportedVersion,
            },
        ),
{
}

/// A physics file that could not be read leaves the physics of the model
/// absent and nothing else changed: the load succeeds exactly where it would
/// with the file in hand, and the model differs in its physics alone.
pub proof fn lemma_missing_physics(
    path: Seq<char>,
    file_name: Seq<char>,
    manifest: FetchedView,
    solver: Result<SolverView, LoadError>,
    resources: ResourcesView,
    failure: IoFailure,
)
    ensures
        ({
            let missing = ResourcesView {
                physics: Some(FetchedView::Failed(failure)),
                ..resources
            };
            let with = loaded(path, file_name, manifest, solver, resources);
            let without = loaded(path, file_name, manifest, solver, missing);
            match without {
                Ok(model) => with is Ok && model.physics is None && model == (CubismModelView {
                    physics: None,
                    ..with->Ok_0
                }),
                Err(failure) => with == Err::<CubismModelView, LoadFailureView>(failure),
            }
        }),
{
}

} // verus!
