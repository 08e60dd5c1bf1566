use openai_rs_types::files::ReplayableMultipartSource;
use openai_rs_types::json::JsonObject;
use openai_rs_types::skills::{
    CreateSkillRequest, CreateSkillVersionRequest, SafeRelativeSkillPath, SkillListLimit,
    SkillListOrder, SkillListParams, SkillListResource, SkillObject, SetDefaultSkillVersionBody, SkillContent,
};
use openai_rs_types::wire::{Nullable, Omittable};

#[test]
fn skill_content_is_raw_not_json_and_has_safe_debug() {
    let content = SkillContent::new(Vec::from(b"PK\x03\x04secret").into_boxed_slice());
    assert_eq!(content.as_bytes(), b"PK\x03\x04secret");
    let debug = format!("{content:?}");
    assert!(debug.contains("len"));
    assert!(!debug.contains("secret"));
}


fn source(secret: &[u8]) -> ReplayableMultipartSource {
    ReplayableMultipartSource::from_bytes(secret.to_vec().into_boxed_slice())
}

#[test]
fn list_params_validate_limit_and_preserve_open_order() {
    assert_eq!(SkillListLimit::new(0).expect("zero").get(), 0);
    assert_eq!(SkillListLimit::new(100).expect("hundred").get(), 100);
    assert!(SkillListLimit::new(101).is_err());
    assert_eq!(SkillListLimit::new(101).expect_err("too big").actual(), 101);
    let mut params = SkillListParams::default();
    params.order = Omittable::Value(SkillListOrder::from_raw("future"));
    match &params.order {
        Omittable::Value(order) => assert_eq!(order.as_str(), "future"),
        Omittable::Omitted => panic!("order was set"),
    }
}

#[test]
fn skill_and_list_responses_preserve_null_cursors_and_extras() {
    let page = SkillListResource {
        object: SkillObject::from_raw("list"),
        data: vec![],
        first_id: Nullable::Value("skill_1".to_owned()),
        last_id: Nullable::Value("skill_1".to_owned()),
        has_more: true,
        extra: JsonObject::new(),
    };
    assert_eq!(page.next_after(), Some("skill_1"));
    let last = SkillListResource {
        object: SkillObject::from_raw("list"),
        data: vec![],
        first_id: Nullable::Null,
        last_id: Nullable::Null,
        has_more: false,
        extra: JsonObject::new(),
    };
    assert_eq!(last.next_after(), None);
    assert!(last.first_id.is_null());
}

#[test]
fn multipart_skill_uploads_are_bounded_replayable_and_redacted() {
    assert!(CreateSkillRequest::from_files(Vec::new()).is_err());
    assert!(CreateSkillRequest::from_files((0..501).map(|_| source(b"file")).collect()).is_err());
    let request = CreateSkillRequest::from_files(vec![source(b"secret-skill-a"), source(b"secret-skill-b")])
        .expect("two files");
    assert_eq!(request.files().len(), 2);
    assert_eq!(request.files_field_name(), "files[]");
    assert_eq!(CreateSkillRequest::new(source(b"zip")).files_field_name(), "files");
    assert_eq!(
        CreateSkillRequest::from_files(vec![source(b"one")]).expect("one file").files_field_name(),
        "files[]"
    );
    let debug = format!("{request:?}");
    assert!(!debug.contains("secret-skill"));
    let version = CreateSkillVersionRequest::new(source(b"secret-zip")).set_default(true);
    assert_eq!(version.files().len(), 1);
    assert!(!format!("{version:?}").contains("secret-zip"));
}

#[test]
fn relative_skill_paths_stay_inside_the_bundle() {
    assert_eq!(SafeRelativeSkillPath::new("docs/guide.md").expect("safe").as_str(), "docs/guide.md");
    for unsafe_path in ["", "/etc/passwd", "../escape", "a/../b", "a//b", "a/./b", "a\\b", "trailing/"] {
        assert!(SafeRelativeSkillPath::new(unsafe_path).is_err(), "{unsafe_path:?} must be refused");
    }
    let paths = vec![
        (SafeRelativeSkillPath::new("a.md").expect("safe"), source(b"1")),
        (SafeRelativeSkillPath::new("a.md").expect("safe"), source(b"2")),
    ];
    assert!(CreateSkillRequest::from_directory_files(paths).is_err());
    let paths = vec![
        (SafeRelativeSkillPath::new("a.md").expect("safe"), source(b"1")),
        (SafeRelativeSkillPath::new("b/c.md").expect("safe"), source(b"2")),
    ];
    let request = CreateSkillRequest::from_directory_files(paths).expect("distinct paths");
    let relative = request.relative_paths().expect("directory upload keeps paths");
    assert_eq!(relative.iter().map(|p| p.as_str()).collect::<Vec<_>>(), vec!["a.md", "b/c.md"]);
    assert_eq!(SetDefaultSkillVersionBody::new("2").default_version.as_str(), "2");
}
