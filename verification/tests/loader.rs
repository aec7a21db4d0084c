use cubism_model::error::{IoFailure, LoadError};
use cubism_model::expression::Blend;
use cubism_model::flags::{ConstantFlags, DynamicFlags};
use cubism_model::group::{ByGroup, MotionGroup};
use cubism_model::json::Json;
use cubism_model::datum::Datum;
use cubism_model::loader::{
    load_document, load_expression, load_expressions, load_motion, load_motions,
    CubismModelFactory, Fetched, LoadFailure, LoadStep, Resources,
};
use cubism_model::manifest::ModelManifest;
use cubism_model::model::CubismModel;
use cubism_model::motion::Segment;
use cubism_model::scalar::Scalar;
use cubism_model::solver::{CanvasInfo, Drawable, Moc, Parameter, Part, Solver, Vector2};

fn scalar(x: f64) -> Scalar {
    Scalar { bits: x.to_bits() }
}

const MANIFEST: &str = r#"{
  "Version": 3,
  "FileReferences": {
    "Moc": "model.moc3",
    "Textures": ["texture_00.png"],
    "Physics": "model.physics3.json",
    "Pose": "model.pose3.json",
    "Expressions": [
      {"Name": "smile", "File": "smile.exp3.json"},
      {"Name": "angry", "File": "angry.exp3.json"}
    ],
    "Motions": {
      "Idle": [{"File": "idle.motion3.json"}],
      "Shake": [{"File": "shake_a.motion3.json"}, {"File": "shake_b.motion3.json"}]
    }
  }
}"#;

const IDLE: &str = r#"{
  "Version": 3,
  "Meta": {"Duration": 2.0, "Fps": 30.0, "CurveCount": 1, "TotalSegmentCount": 3, "TotalPointCount": 7},
  "Curves": [{"Target": "Parameter", "Id": "ParamAngleX", "Segments": [
    {"Linear": [{"Time": 0.0, "Value": 0.0}, {"Time": 0.25, "Value": 1.0}]},
    {"Bezier": [{"Time": 0.25, "Value": 1.0}, {"Time": 0.3, "Value": 2.0},
                {"Time": 0.35, "Value": 2.0}, {"Time": 0.4, "Value": 1.0}]},
    {"Stepped": [{"Time": 0.4, "Value": 1.0}, 0.5]}
  ]}]
}"#;

const SMILE: &str = r#"{"Parameters": [{"Id": "ParamMouthForm", "Value": 1.0, "Blend": "Add"}]}"#;

fn bytes(text: &str) -> Fetched {
    Fetched::Bytes(text.as_bytes().to_vec())
}

fn solver() -> Solver {
    Solver {
        moc: Moc {
            parameter_ids: vec!["ParamAngleX".to_string(), "ParamMouthForm".to_string()],
            parameter_max: vec![scalar(30.0), scalar(1.0)],
            parameter_min: vec![scalar(-30.0), scalar(-1.0)],
            parameter_default: vec![scalar(0.0), scalar(0.0)],
            part_ids: vec!["PartArmA".to_string()],
            drawable_ids: vec!["ArtMesh1".to_string()],
            drawable_indices: vec![vec![0, 1, 2]],
            drawable_masks: vec![vec![]],
            is_masked: vec![false],
            drawable_texture_indices: vec![0],
            drawable_vertex_counts: vec![3],
        },
        canvas: CanvasInfo {
            size: Vector2 { x: scalar(1024.0), y: scalar(2048.0) },
            origin: Vector2 { x: scalar(512.0), y: scalar(1024.0) },
            pixels_per_unit: scalar(1024.0),
        },
        parameters: vec![
            Parameter {
                id: "ParamAngleX".to_string(),
                value: scalar(0.0),
                min_value: scalar(-30.0),
                max_value: scalar(30.0),
                default_value: scalar(0.0),
            },
            Parameter {
                id: "ParamMouthForm".to_string(),
                value: scalar(0.0),
                min_value: scalar(-1.0),
                max_value: scalar(1.0),
                default_value: scalar(0.0),
            },
        ],
        parts: vec![Part { id: "PartArmA".to_string(), opacity: scalar(1.0) }],
        drawables: vec![Drawable {
            id: "ArtMesh1".to_string(),
            index: 0,
            render_order: 0,
            draw_order: 0,
            texture_index: 0,
            indices: vec![0, 1, 2],
            vertex_positions: vec![Vector2 { x: scalar(0.0), y: scalar(0.0) }; 3],
            vertex_uvs: vec![Vector2 { x: scalar(0.0), y: scalar(0.0) }; 3],
            opacity: scalar(1.0),
            masks: vec![],
            constant_flags: ConstantFlags { bits: 0 },
            dynamic_flags: DynamicFlags { bits: 1 },
        }],
    }
}

fn resources() -> Resources {
    Resources {
        expressions: vec![bytes(SMILE), bytes("{}")],
        pose: Some(bytes(r#"{"Type": "Live2D Pose", "Groups": []}"#)),
        physics: Some(bytes(r#"{"Version": 3}"#)),
        user_data: None,
        motions: ByGroup {
            idle: vec![bytes(IDLE)],
            tap_body: vec![],
            pinch_in: vec![],
            pinch_out: vec![],
            shake: vec![bytes(IDLE), bytes(IDLE)],
            flick_head: vec![],
        },
    }
}

fn load(manifest: &Fetched, solver: Result<Solver, LoadError>, resources: &Resources) -> Result<CubismModel, LoadFailure> {
    CubismModelFactory::new().cubism_loader(
        "res/model".to_string(),
        "model.model3.json".to_string(),
        manifest,
        solver,
        resources,
    )
}

#[test]
fn a_load_with_every_file_in_hand_fills_every_place() {
    let model = load(&bytes(MANIFEST), Ok(solver()), &resources()).unwrap();
    assert_eq!(model.res_path, "res/model");
    assert_eq!(model.res_path(), "res/model");
    assert_eq!(model.json, ModelManifest::parse(MANIFEST.as_bytes()).unwrap());
    assert_eq!(model.solver, solver());
    assert_eq!(model.expressions.len(), 2);
    assert_eq!(model.expressions[0].name, "smile");
    assert_eq!(model.expressions[0].content.as_ref().unwrap().parameters[0].blend, Blend::Add);
    assert_eq!(model.expressions[1].name, "angry");
    assert_eq!(model.expressions[1].content.as_ref().unwrap().parameters.len(), 0);
    assert_eq!(model.pose, Json::parse(br#"{"Type": "Live2D Pose", "Groups": []}"#));
    assert_eq!(model.physics, Json::parse(br#"{"Version": 3}"#));
    assert_eq!(model.user_data, None);
    assert_eq!(model.motions.idle.len(), 1);
    assert_eq!(model.motions.shake.len(), 2);
    assert_eq!(model.motions.tap_body.len(), 0);
    let idle = model.motions.idle[0].as_ref().unwrap();
    assert_eq!(idle.curves[0].segments.len(), 3);
    assert!(matches!(idle.curves[0].segments[0], Segment::Linear(_, _)));
    assert!(matches!(&idle.curves[0].segments[1], Segment::Bezier(points) if points.len() == 4));
    assert!(matches!(idle.curves[0].segments[2], Segment::Stepped(_, _)));
}

#[test]
fn a_manifest_of_an_unsupported_version_ends_the_load() {
    let manifest = bytes(&MANIFEST.replace("\"Version\": 3", "\"Version\": 2"));
    let expected = Err(LoadFailure {
        step: LoadStep::Manifest,
        path: "model.model3.json".to_string(),
        reason: LoadError::UnsupportedVersion,
    });
    assert_eq!(load(&manifest, Ok(solver()), &resources()), expected);
    assert_eq!(load(&manifest, Err(LoadError::Parse), &resources()), expected);
}

#[test]
fn a_plan_asks_for_the_files_of_a_manifest_that_reads() {
    let factory = CubismModelFactory::new();
    let asked = factory.plan("res/model", &bytes(MANIFEST)).unwrap();
    assert_eq!(asked.moc, Some("res/model/model.moc3".to_string()));
    assert_eq!(asked.physics, Some("res/model/model.physics3.json".to_string()));
    assert_eq!(asked.pose, Some("res/model/model.pose3.json".to_string()));
    assert_eq!(asked.user_data, None);
    assert_eq!(
        asked.expressions,
        vec!["res/model/smile.exp3.json".to_string(), "res/model/angry.exp3.json".to_string()]
    );
    assert_eq!(asked.motions.idle, vec!["res/model/idle.motion3.json".to_string()]);
    assert_eq!(asked.motions.shake.len(), 2);
    assert_eq!(asked.motions.tap_body.len(), 0);
}

#[test]
fn a_plan_asks_for_nothing_where_the_manifest_is_refused() {
    let factory = CubismModelFactory::new();
    let old = bytes(&MANIFEST.replace("\"Version\": 3", "\"Version\": 2"));
    assert_eq!(factory.plan("res/model", &old), None);
    assert_eq!(factory.plan("res/model", &bytes("{")), None);
    assert_eq!(factory.plan("res/model", &Fetched::Failed(IoFailure::NotFound)), None);
}

#[test]
fn a_manifest_that_cannot_be_read_ends_the_load() {
    assert_eq!(
        load(&Fetched::Failed(IoFailure::NotFound), Ok(solver()), &resources()),
        Err(LoadFailure {
            step: LoadStep::Manifest,
            path: "model.model3.json".to_string(),
            reason: LoadError::Io(IoFailure::NotFound),
        })
    );
    assert_eq!(
        load(&Fetched::Failed(IoFailure::AccessDenied), Ok(solver()), &resources()),
        Err(LoadFailure {
            step: LoadStep::Manifest,
            path: "model.model3.json".to_string(),
            reason: LoadError::Io(IoFailure::AccessDenied),
        })
    );
    assert_eq!(
        load(&bytes("{"), Ok(solver()), &resources()),
        Err(LoadFailure {
            step: LoadStep::Manifest,
            path: "model.model3.json".to_string(),
            reason: LoadError::Parse,
        })
    );
}

#[test]
fn a_solver_that_fails_ends_the_load() {
    assert_eq!(
        load(&bytes(MANIFEST), Err(LoadError::Io(IoFailure::Other)), &resources()),
        Err(LoadFailure {
            step: LoadStep::Solver,
            path: "model.moc3".to_string(),
            reason: LoadError::Io(IoFailure::Other),
        })
    );
}

#[test]
fn a_manifest_that_names_no_compiled_model_ends_the_load() {
    let manifest = bytes(r#"{"Version": 3, "FileReferences": {}}"#);
    assert_eq!(
        load(&manifest, Ok(solver()), &resources()),
        Err(LoadFailure {
            step: LoadStep::Solver,
            path: String::new(),
            reason: LoadError::Io(IoFailure::NotFound),
        })
    );
}

#[test]
fn a_physics_file_that_is_missing_leaves_the_physics_absent() {
    let mut missing = resources();
    missing.physics = Some(Fetched::Failed(IoFailure::NotFound));
    let model = load(&bytes(MANIFEST), Ok(solver()), &missing).unwrap();
    let full = load(&bytes(MANIFEST), Ok(solver()), &resources()).unwrap();
    assert_eq!(model.physics, None);
    assert_eq!(model.physics(), Datum::Absent);
    assert_eq!(model.solver, full.solver);
    assert_eq!(model.parameters(), full.parameters());
    assert_eq!(model.parts(), full.parts());
    assert_eq!(model.drawables(), full.drawables());
    assert_eq!(model.motions, full.motions);
    assert_eq!(model.expressions, full.expressions);
    assert_eq!(model.pose, full.pose);
    assert_eq!(model.json, full.json);
    assert!(model.motions.idle[0].is_some());
}

#[test]
fn optional_documents_degrade_one_by_one() {
    let mut partial = resources();
    partial.pose = Some(bytes("not a document"));
    partial.physics = None;
    partial.user_data = Some(bytes(r#"{"Version": 3}"#));
    let model = load(&bytes(MANIFEST), Ok(solver()), &partial).unwrap();
    assert_eq!(model.pose, None);
    assert_eq!(model.physics, None);
    // The manifest declares no user data: what was read for it is not used.
    assert_eq!(model.user_data, None);
}

#[test]
fn an_expression_that_fails_keeps_its_name_and_loses_its_content() {
    let mut partial = resources();
    partial.expressions = vec![Fetched::Failed(IoFailure::NotFound), bytes("[]")];
    let model = load(&bytes(MANIFEST), Ok(solver()), &partial).unwrap();
    assert_eq!(model.expressions.len(), 2);
    assert_eq!(model.expressions[0].name, "smile");
    assert_eq!(model.expressions[0].content, None);
    assert_eq!(model.expressions[1].name, "angry");
    assert_eq!(model.expressions[1].content, None);
}

#[test]
fn outcomes_that_are_missing_count_as_files_not_read() {
    let mut partial = resources();
    partial.expressions = vec![bytes(SMILE)];
    partial.motions.shake = vec![];
    let model = load(&bytes(MANIFEST), Ok(solver()), &partial).unwrap();
    assert!(model.expressions[0].content.is_some());
    assert_eq!(model.expressions[1].content, None);
    assert_eq!(model.motions.shake, vec![None, None]);
}

#[test]
fn a_motion_that_fails_leaves_its_one_place_absent() {
    let mut partial = resources();
    partial.motions.shake = vec![
        bytes(&IDLE.replace("\"TotalSegmentCount\": 3", "\"TotalSegmentCount\": 4")),
        bytes(IDLE),
    ];
    partial.motions.idle = vec![Fetched::Failed(IoFailure::AccessDenied)];
    let model = load(&bytes(MANIFEST), Ok(solver()), &partial).unwrap();
    assert_eq!(model.motions.idle, vec![None]);
    assert_eq!(model.motions.shake[0], None);
    assert!(model.motions.shake[1].is_some());
    assert_eq!(model.motions.group(MotionGroup::Shake).len(), 2);
}

#[test]
fn outcomes_beyond_what_the_manifest_declares_are_not_used() {
    let mut more = resources();
    more.motions.tap_body = vec![bytes(IDLE)];
    more.expressions.push(bytes(SMILE));
    let model = load(&bytes(MANIFEST), Ok(solver()), &more).unwrap();
    assert_eq!(model.motions.tap_body, vec![]);
    assert_eq!(model.expressions.len(), 2);
}

#[test]
fn the_parts_of_a_load_one_by_one() {
    let fetched = vec![bytes(SMILE), Fetched::Failed(IoFailure::Other), bytes("{")];
    assert!(load_expression(&fetched, 0).is_some());
    assert_eq!(load_expression(&fetched, 1), None);
    assert_eq!(load_expression(&fetched, 2), None);
    assert_eq!(load_expression(&fetched, 3), None);
    let motions = vec![bytes(IDLE), bytes(SMILE)];
    assert!(load_motion(&motions, 0).is_some());
    assert_eq!(load_motion(&motions, 1), None);
    assert_eq!(load_motion(&motions, 2), None);
    assert_eq!(load_document(&Some("a".to_string()), &Some(bytes("[1]"))), Json::parse(b"[1]"));
    assert_eq!(load_document(&None, &Some(bytes("[1]"))), None);
    assert_eq!(load_document(&Some("a".to_string()), &None), None);
    assert_eq!(
        load_document(&Some("a".to_string()), &Some(Fetched::Failed(IoFailure::NotFound))),
        None
    );
    let manifest = ModelManifest::parse(MANIFEST.as_bytes()).unwrap();
    assert_eq!(load_expressions(&manifest.file_references.expressions, &vec![]).len(), 2);
    assert_eq!(load_motions(&manifest.file_references.motions.shake, &motions).len(), 2);
}
