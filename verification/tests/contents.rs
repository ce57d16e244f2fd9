use loom_mcp::access::{UserInfo, WeaverInfo, WeaverStatus};
use loom_mcp::contents::{
    check_thread_owner, repo_content, repo_found, repo_lookup, repos_content, start_repo_listing,
    start_repo_lookup, start_thread_lookup, start_weaver_read, thread_content, thread_found,
    thread_messages_content, threads_content, weaver_content, weavers_content, RepoRecord,
    ThreadRecord,
};
use loom_mcp::error::McpError;
use loom_mcp::ids::uuid_text;
use loom_mcp::json::JsonValue;
use loom_mcp::string_map::StringMap;
use loom_mcp::tools::require_provisioner;

fn user(id: &str, uuid: u128, admin: bool, support: bool) -> UserInfo {
    UserInfo { id: id.to_string(), uuid, is_system_admin: admin, is_support: support }
}

fn s(t: &str) -> JsonValue {
    JsonValue::Str(t.to_string())
}

fn n(t: &str) -> JsonValue {
    JsonValue::Num(t.to_string())
}

fn obj(members: Vec<(&str, JsonValue)>) -> JsonValue {
    JsonValue::Object(members.into_iter().map(|(k, v)| (k.to_string(), v)).collect())
}

fn thread(id: &str, title: Option<&str>) -> ThreadRecord {
    ThreadRecord {
        id: id.to_string(),
        title: title.map(|t| t.to_string()),
        created_at: "c".to_string(),
        updated_at: "u".to_string(),
        message_count: 2,
        workspace_root: None,
        messages: vec![s("hi"), s("there")],
    }
}

fn repo(owner_id: u128) -> RepoRecord {
    RepoRecord {
        id: "r1".to_string(),
        name: "loom".to_string(),
        owned_by_user: true,
        owner_type: "User".to_string(),
        owner_id,
        visibility: "Private".to_string(),
        default_branch: "main".to_string(),
        created_at: "c".to_string(),
        updated_at: "u".to_string(),
    }
}

fn weaver(owner: &str) -> WeaverInfo {
    let mut tags = StringMap::new();
    tags.insert("team".to_string(), "a".to_string());
    WeaverInfo {
        id: "w1".to_string(),
        image: "node:20".to_string(),
        status: WeaverStatus::Running,
        pod_name: "pod-w1".to_string(),
        owner_user_id: owner.to_string(),
        org_id: "org-a".to_string(),
        age_hours_text: "2.3".to_string(),
        age_hours_number: "2.25".to_string(),
        created_at: "c".to_string(),
        lifetime_hours: 8,
        tags,
    }
}

#[test]
fn uuid_text_is_hyphenated_lowercase() {
    assert_eq!(uuid_text(0x550e8400_e29b_41d4_a716_446655440000u128), "550e8400-e29b-41d4-a716-446655440000");
    assert_eq!(uuid_text(0), "00000000-0000-0000-0000-000000000000");
    assert_eq!(uuid_text(0xABCDEFu128), "00000000-0000-0000-0000-000000abcdef");
    let v = 0x0123_4567_89ab_cdef_fedc_ba98_7654_3210u128;
    assert_eq!(start_repo_lookup(true, &uuid_text(v)).unwrap(), v);
}

#[test]
fn repo_lookup_from_parsed_id() {
    match repo_lookup(false, "r", Some(1)) {
        Err(McpError::Internal(m)) => assert_eq!(m, "SCM repository store not configured"),
        _ => panic!("expected internal"),
    }
    match repo_lookup(true, "r", None) {
        Err(McpError::InvalidParams(m)) => assert_eq!(m, "Invalid repo_id: r"),
        _ => panic!("expected invalid params"),
    }
    assert_eq!(repo_lookup(true, "r", Some(42)).unwrap(), 42);
}

#[test]
fn threads_listing_content() {
    match threads_content(Err("db down".to_string())) {
        Err(McpError::Internal(m)) => assert_eq!(m, "Failed to list threads: db down"),
        _ => panic!("expected internal"),
    }
    let v = threads_content(Ok(vec![thread("t1", Some("Hello")), thread("t2", None)])).unwrap();
    let summary = |id: &str, title: JsonValue| {
        obj(vec![
            ("id", s(id)),
            ("title", title),
            ("created_at", s("c")),
            ("updated_at", s("u")),
            ("message_count", n("2")),
            ("workspace_root", JsonValue::Null),
        ])
    };
    assert_eq!(
        v,
        obj(vec![
            ("threads", JsonValue::Array(vec![summary("t1", s("Hello")), summary("t2", JsonValue::Null)])),
            ("count", n("2")),
        ])
    );
}

#[test]
fn thread_lookup_steps() {
    assert!(start_thread_lookup("t1", true).is_ok());
    match start_thread_lookup("x", false) {
        Err(McpError::InvalidParams(m)) => assert_eq!(m, "Invalid thread_id format: x"),
        _ => panic!("expected invalid params"),
    }
    match thread_found("t9", Ok(None)) {
        Err(McpError::InvalidParams(m)) => assert_eq!(m, "Thread not found: t9"),
        _ => panic!("expected invalid params"),
    }
    match thread_found("t9", Err("boom".to_string())) {
        Err(McpError::Internal(m)) => assert_eq!(m, "Failed to get thread: boom"),
        _ => panic!("expected internal"),
    }
    assert_eq!(thread_found("t1", Ok(Some(thread("t1", None)))).unwrap().id, "t1");
    let me = user("u1", 1, false, false);
    assert!(check_thread_owner(&me, Ok(Some("u1".to_string()))).is_ok());
    match check_thread_owner(&me, Ok(Some("u2".to_string()))) {
        Err(McpError::Forbidden(m)) => assert_eq!(m, "You don't have access to this thread"),
        _ => panic!("expected forbidden"),
    }
    match check_thread_owner(&me, Err("gone".to_string())) {
        Err(McpError::Internal(m)) => assert_eq!(m, "Failed to get thread owner: gone"),
        _ => panic!("expected internal"),
    }
    assert!(check_thread_owner(&user("a", 2, true, false), Ok(None)).is_ok());
}

#[test]
fn thread_contents() {
    let v = thread_content(thread("t1", Some("Hello")));
    assert_eq!(
        v,
        obj(vec![
            ("id", s("t1")),
            ("title", s("Hello")),
            ("created_at", s("c")),
            ("updated_at", s("u")),
            ("workspace_root", JsonValue::Null),
            ("message_count", n("2")),
            ("messages", JsonValue::Array(vec![s("hi"), s("there")])),
        ])
    );
    let v = thread_messages_content(thread("t1", None));
    assert_eq!(
        v,
        obj(vec![
            ("thread_id", s("t1")),
            ("messages", JsonValue::Array(vec![s("hi"), s("there")])),
            ("count", n("2")),
        ])
    );
}

#[test]
fn repo_steps_and_contents() {
    match start_repo_listing(false) {
        Err(McpError::Internal(m)) => assert_eq!(m, "SCM repository store not configured"),
        _ => panic!("expected internal"),
    }
    assert!(start_repo_listing(true).is_ok());
    match repos_content(Err("e".to_string())) {
        Err(McpError::Internal(m)) => assert_eq!(m, "Failed to list repositories: e"),
        _ => panic!("expected internal"),
    }
    let listing = repos_content(Ok(vec![repo(1)])).unwrap();
    let summary = obj(vec![
        ("id", s("r1")),
        ("name", s("loom")),
        ("owner_type", s("User")),
        ("owner_id", s("00000000-0000-0000-0000-000000000001")),
        ("visibility", s("Private")),
        ("default_branch", s("main")),
        ("created_at", s("c")),
    ]);
    assert_eq!(listing, obj(vec![("repositories", JsonValue::Array(vec![summary])), ("count", n("1"))]));
    match start_repo_lookup(false, "x") {
        Err(McpError::Internal(m)) => assert_eq!(m, "SCM repository store not configured"),
        _ => panic!("expected internal"),
    }
    match start_repo_lookup(true, "nope") {
        Err(McpError::InvalidParams(m)) => assert_eq!(m, "Invalid repo_id: nope"),
        _ => panic!("expected invalid params"),
    }
    assert_eq!(
        start_repo_lookup(true, "550e8400-e29b-41d4-a716-446655440000").unwrap(),
        0x550e8400_e29b_41d4_a716_446655440000u128
    );
    match repo_found("r9", Ok(None)) {
        Err(McpError::InvalidParams(m)) => assert_eq!(m, "Repository not found: r9"),
        _ => panic!("expected invalid params"),
    }
    match repo_found("r9", Err("x".to_string())) {
        Err(McpError::Internal(m)) => assert_eq!(m, "Failed to get repository: x"),
        _ => panic!("expected internal"),
    }
    let r = repo_found("r1", Ok(Some(repo(1)))).unwrap();
    match repo_content(&r) {
        JsonValue::Object(m) => {
            assert_eq!(m.len(), 8);
            assert_eq!(m[7], ("updated_at".to_string(), s("u")));
        }
        _ => panic!("expected object"),
    }
}

#[test]
fn weaver_steps_and_contents() {
    match require_provisioner(false) {
        Err(McpError::Internal(m)) => assert_eq!(m, "Weaver provisioner not configured on this server"),
        _ => panic!("expected internal"),
    }
    match start_weaver_read(true, "bad", false) {
        Err(McpError::InvalidParams(m)) => assert_eq!(m, "Invalid weaver_id: bad"),
        _ => panic!("expected invalid params"),
    }
    assert!(start_weaver_read(true, "w1", true).is_ok());
    let listing = weavers_content(&vec![weaver("u1")]);
    let summary = obj(vec![
        ("id", s("w1")),
        ("image", s("node:20")),
        ("status", s("Running")),
        ("pod_name", s("pod-w1")),
        ("age_hours", n("2.25")),
        ("lifetime_hours", n("8")),
    ]);
    assert_eq!(listing, obj(vec![("weavers", JsonValue::Array(vec![summary])), ("count", n("1"))]));
    match weaver_content(&user("u2", 2, false, false), &weaver("u1")) {
        Err(McpError::Forbidden(m)) => assert_eq!(m, "You don't have access to this weaver"),
        _ => panic!("expected forbidden"),
    }
    let v = weaver_content(&user("s", 3, false, true), &weaver("u1")).unwrap();
    assert_eq!(
        v,
        obj(vec![
            ("id", s("w1")),
            ("image", s("node:20")),
            ("status", s("Running")),
            ("pod_name", s("pod-w1")),
            ("owner_user_id", s("u1")),
            ("age_hours", n("2.25")),
            ("lifetime_hours", n("8")),
            ("tags", obj(vec![("team", s("a"))])),
            ("created_at", s("c")),
        ])
    );
}

#[test]
fn json_number_and_optional_string() {
    assert_eq!(JsonValue::number(1200), n("1200"));
    assert_eq!(JsonValue::opt_string(&None), JsonValue::Null);
    assert_eq!(JsonValue::opt_string(&Some("x".to_string())), s("x"));
}
