use cubism_model::group::MotionGroup;
use cubism_model::manifest::ModelManifest;
use cubism_model::resolver::{requests, resolve, resolve_option};

#[test]
fn resolve_joins_with_one_separator() {
    assert_eq!(resolve("res/model", "haru.moc3"), "res/model/haru.moc3");
    assert_eq!(resolve("res/model/", "haru.moc3"), "res/model/haru.moc3");
    assert_eq!(resolve("res", "motions/idle.motion3.json"), "res/motions/idle.motion3.json");
    assert_eq!(resolve("/", "a"), "/a");
    assert_eq!(resolve("res", ""), "res/");
    assert_eq!(resolve("r\u{e9}s", "mod\u{e8}le.json"), "r\u{e9}s/mod\u{e8}le.json");
}

#[test]
fn resolve_leaves_a_reference_alone_where_there_is_nothing_to_join() {
    assert_eq!(resolve("", "haru.moc3"), "haru.moc3");
    assert_eq!(resolve("", ""), "");
    assert_eq!(resolve("res/model", "/abs/haru.moc3"), "/abs/haru.moc3");
}

#[test]
fn resolve_option_joins_what_is_there() {
    assert_eq!(resolve_option("res", &Some("a".to_string())), Some("res/a".to_string()));
    assert_eq!(resolve_option("res", &None), None);
}

#[test]
fn requests_list_a_path_for_each_reference() {
    let manifest = ModelManifest::parse(
        br#"{"Version": 3, "FileReferences": {
            "Moc": "m.moc3", "Physics": "p.json",
            "Expressions": [{"Name": "a", "File": "e/a.json"}, {"Name": "b", "File": "e/b.json"}],
            "Motions": {"Idle": [{"File": "i.json"}], "FlickHead": [{"File": "f.json"}, {"File": "/g.json"}]}}}"#,
    )
    .unwrap();
    let asked = requests("res", &manifest.file_references);
    assert_eq!(asked.moc, Some("res/m.moc3".to_string()));
    assert_eq!(asked.physics, Some("res/p.json".to_string()));
    assert_eq!(asked.pose, None);
    assert_eq!(asked.user_data, None);
    assert_eq!(asked.expressions, vec!["res/e/a.json".to_string(), "res/e/b.json".to_string()]);
    assert_eq!(asked.motions.idle, vec!["res/i.json".to_string()]);
    assert_eq!(
        asked.motions.group(MotionGroup::FlickHead),
        &vec!["res/f.json".to_string(), "/g.json".to_string()]
    );
    assert_eq!(asked.motions.shake, Vec::<String>::new());
}
