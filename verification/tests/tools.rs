use loom_mcp::access::{UserInfo, WeaverInfo, WeaverStatus};
use loom_mcp::error::McpError;
use loom_mcp::json::JsonValue;
use loom_mcp::string_map::StringMap;
use loom_mcp::tools::create_weaver::{self, MembershipOutcome};
use loom_mcp::tools::{
    attach_weaver, delete_weaver, format_weaver, get_weaver, list_tools, list_weavers,
    execute_tool, start_weaver_lookup, AuditEvent, ToolKind,
};
use loom_mcp::types::{CreateWeaverArgs, ListWeaversArgs, ToolContent, ToolsCallResult};

fn text(r: &ToolsCallResult) -> &str {
    assert!(!r.is_error);
    match &r.content[0] {
        ToolContent::Text { text } => text.as_str(),
    }
}

fn user(id: &str, admin: bool, support: bool) -> UserInfo {
    UserInfo { id: id.to_string(), uuid: 7, is_system_admin: admin, is_support: support }
}

fn weaver(id: &str, owner: &str, status: WeaverStatus, tags: &[(&str, &str)]) -> WeaverInfo {
    let mut t = StringMap::new();
    for (k, v) in tags {
        t.insert(k.to_string(), v.to_string());
    }
    WeaverInfo {
        id: id.to_string(),
        image: "python:3.12".to_string(),
        status,
        pod_name: format!("pod-{}", id),
        owner_user_id: owner.to_string(),
        org_id: "org-a".to_string(),
        age_hours_text: "1.5".to_string(),
        age_hours_number: "1.5".to_string(),
        created_at: "2025-01-01T00:00:00+00:00".to_string(),
        lifetime_hours: 24,
        tags: t,
    }
}

fn has_key(members: &Vec<(String, JsonValue)>, key: &str) -> bool {
    members.iter().any(|(k, _)| k == key)
}

#[test]
fn tools_test_list_tools() {
    let result = list_tools();
    assert_eq!(result.tools.len(), 5);
    let tool_names: Vec<&str> = result.tools.iter().map(|t| t.name.as_str()).collect();
    assert!(tool_names.contains(&"create_weaver"));
    assert!(tool_names.contains(&"list_weavers"));
    assert!(tool_names.contains(&"get_weaver"));
    assert!(tool_names.contains(&"delete_weaver"));
    assert!(tool_names.contains(&"attach_weaver"));
}

#[test]
fn mod_test_list_tools() {
    let result = list_tools();
    assert_eq!(result.tools.len(), 5);
    let tool_names: Vec<&str> = result.tools.iter().map(|t| t.name.as_str()).collect();
    assert!(tool_names.contains(&"create_weaver"));
    assert!(tool_names.contains(&"list_weavers"));
    assert!(tool_names.contains(&"get_weaver"));
    assert!(tool_names.contains(&"delete_weaver"));
    assert!(tool_names.contains(&"attach_weaver"));
}

fn check_create_weaver_schema() {
    let tool = create_weaver::definition();
    let schema = &tool.input_schema;

    // Check required fields
    let required = schema.get("required").unwrap().as_array().unwrap();
    assert!(required.contains(&JsonValue::Str("image".to_string())));
    assert!(required.contains(&JsonValue::Str("org_id".to_string())));

    // Check properties exist
    let props = schema.get("properties").unwrap().as_object().unwrap();
    assert!(has_key(props, "image"));
    assert!(has_key(props, "org_id"));
    assert!(has_key(props, "env"));
    assert!(has_key(props, "memory_limit"));
    assert!(has_key(props, "cpu_limit"));
    assert!(has_key(props, "lifetime_hours"));
    assert!(has_key(props, "tags"));
}

#[test]
fn tools_test_create_weaver_tool_schema() {
    check_create_weaver_schema();
}

#[test]
fn mod_test_create_weaver_tool_schema() {
    check_create_weaver_schema();
}

#[test]
fn weaver_id_tools_require_weaver_id() {
    for tool in [get_weaver::definition(), delete_weaver::definition(), attach_weaver::definition()] {
        let required = tool.input_schema.get("required").unwrap().as_array().unwrap();
        assert_eq!(required, &vec![JsonValue::Str("weaver_id".to_string())]);
    }
    let list = list_weavers::definition();
    assert!(list.input_schema.get("required").is_none());
    let status = list.input_schema.get("properties").unwrap().get("status").unwrap();
    assert_eq!(status.get("enum").unwrap().as_array().unwrap().len(), 5);
}

#[test]
fn tool_calls_are_routed() {
    assert_eq!(execute_tool("create_weaver", true).ok(), Some(ToolKind::CreateWeaver));
    assert_eq!(execute_tool("list_weavers", false).ok(), Some(ToolKind::ListWeavers));
    assert_eq!(execute_tool("attach_weaver", true).ok(), Some(ToolKind::AttachWeaver));
    match execute_tool("get_weaver", false) {
        Err(McpError::InvalidParams(m)) => assert_eq!(m, "get_weaver requires arguments"),
        _ => panic!("expected invalid params"),
    }
    match execute_tool("frobnicate", true) {
        Err(McpError::ToolNotFound(m)) => assert_eq!(m, "frobnicate"),
        _ => panic!("expected tool not found"),
    }
    match ToolKind::DeleteWeaver.invalid_arguments("missing field `weaver_id`") {
        McpError::InvalidParams(m) => assert_eq!(m, "Invalid delete_weaver arguments: missing field `weaver_id`"),
        _ => panic!("expected invalid params"),
    }
    for t in list_tools().tools {
        assert!(execute_tool(&t.name, true).is_ok());
    }
}

#[test]
fn weaver_lookup_checks() {
    match start_weaver_lookup(false, "w", true) {
        Err(McpError::Internal(m)) => assert_eq!(m, "Weaver provisioner not configured on this server"),
        _ => panic!("expected internal"),
    }
    match start_weaver_lookup(true, "bad id", false) {
        Err(McpError::InvalidParams(m)) => assert_eq!(m, "Invalid weaver_id format: bad id"),
        _ => panic!("expected invalid params"),
    }
    assert!(start_weaver_lookup(true, "w", true).is_ok());
}

#[test]
fn format_weaver_text() {
    let w = weaver("w1", "u1", WeaverStatus::Running, &[]);
    assert_eq!(
        format_weaver(&w),
        "ID: w1\nImage: python:3.12\nStatus: Running\nPod: pod-w1\nAge: 1.5 hours\nLifetime: 24 hours\nTags: (none)"
    );
    let w = weaver("w2", "u1", WeaverStatus::Pending, &[("team", "a"), ("env", "dev")]);
    assert!(format_weaver(&w).ends_with("Lifetime: 24 hours\nTags: team=a, env=dev"));
}

#[test]
fn get_weaver_access() {
    let w = weaver("w1", "u1", WeaverStatus::Running, &[]);
    assert!(get_weaver::execute(&user("u1", false, false), &w).is_ok());
    assert!(get_weaver::execute(&user("s", false, true), &w).is_ok());
    assert!(get_weaver::execute(&user("a", true, false), &w).is_ok());
    match get_weaver::execute(&user("u2", false, false), &w) {
        Err(McpError::Forbidden(m)) => assert_eq!(m, "You don't have access to this weaver"),
        _ => panic!("expected forbidden"),
    }
    let r = get_weaver::execute(&user("u1", false, false), &w).unwrap();
    assert_eq!(text(&r), format_weaver(&w));
}

#[test]
fn delete_weaver_access_and_answer() {
    let w = weaver("w1", "u1", WeaverStatus::Running, &[]);
    assert!(delete_weaver::execute(&user("u1", false, false), &w).is_ok());
    assert!(delete_weaver::execute(&user("a", true, false), &w).is_ok());
    match delete_weaver::execute(&user("s", false, true), &w) {
        Err(McpError::Forbidden(m)) => assert_eq!(m, "Only the owner or system admin can delete this weaver"),
        _ => panic!("expected forbidden"),
    }
    let (audit, r) = delete_weaver::finish(&user("u1", false, false), "w1", &w);
    assert_eq!(audit.event, AuditEvent::WeaverDeleted);
    assert_eq!(audit.actor, 7);
    assert_eq!(audit.weaver_id, "w1");
    assert_eq!(audit.details.get("pod_name"), Some(&JsonValue::Str("pod-w1".to_string())));
    assert_eq!(text(&r), "Deleted weaver w1\n\nPod pod-w1 has been terminated.");
}

#[test]
fn attach_weaver_urls_and_access() {
    let w = weaver("w1", "u1", WeaverStatus::Running, &[]);
    let (audit, r) = attach_weaver::execute(&user("u1", false, false), &w, "w1", "https://loom.example").unwrap();
    assert_eq!(audit.event, AuditEvent::WeaverAttached);
    assert_eq!(audit.actor, 7);
    assert_eq!(audit.details.get("read_only"), Some(&JsonValue::Bool(false)));
    assert_eq!(
        text(&r),
        "Weaver w1 connection info:\n\nStatus: Running\nWebSocket URL: wss://loom.example/api/weaver/w1/attach\nAccess: Full access\n\nTo attach, connect to the WebSocket URL with your authentication token."
    );
    let (audit, r) = attach_weaver::execute(&user("s", false, true), &w, "w1", "http://localhost:8080").unwrap();
    assert_eq!(audit.details.get("read_only"), Some(&JsonValue::Bool(true)));
    assert!(text(&r).contains("WebSocket URL: ws://localhost:8080/api/weaver/w1/attach\nAccess: Read-only"));
    assert!(attach_weaver::execute(&user("u2", false, false), &w, "w1", "http://x").is_err());
}

fn create_args(org: &str) -> CreateWeaverArgs {
    CreateWeaverArgs {
        image: "python:3.12".to_string(),
        org_id: org.to_string(),
        env: StringMap::new(),
        memory_limit: Some("2Gi".to_string()),
        cpu_limit: None,
        lifetime_hours: Some(12),
        tags: StringMap::new(),
    }
}

#[test]
fn create_weaver_checks() {
    let org = "550e8400-e29b-41d4-a716-446655440000";
    match create_weaver::execute(false, &user("u1", false, false), &create_args(org)) {
        Err(McpError::Internal(m)) => assert_eq!(m, "Weaver provisioner not configured on this server"),
        _ => panic!("expected internal"),
    }
    match create_weaver::execute(true, &user("u1", false, false), &create_args("not-a-uuid")) {
        Err(McpError::InvalidParams(m)) => assert_eq!(m, "Invalid org_id format: not-a-uuid"),
        _ => panic!("expected invalid params"),
    }
    let plan = create_weaver::execute(true, &user("u1", false, false), &create_args(org)).unwrap();
    assert_eq!(plan.org_uuid, 0x550e8400_e29b_41d4_a716_446655440000u128);
    assert!(plan.check_membership);
    let plan = create_weaver::execute(true, &user("a", true, false), &create_args(org)).unwrap();
    assert!(!plan.check_membership);
    assert!(create_weaver::check_membership(org, MembershipOutcome::Member).is_ok());
    match create_weaver::check_membership("o1", MembershipOutcome::NotMember) {
        Err(McpError::Forbidden(m)) => assert_eq!(m, "Not a member of organization o1"),
        _ => panic!("expected forbidden"),
    }
    match create_weaver::check_membership("o1", MembershipOutcome::LookupFailed) {
        Err(McpError::Internal(m)) => assert_eq!(m, "Failed to verify organization membership"),
        _ => panic!("expected internal"),
    }
}

#[test]
fn create_weaver_request_and_answer() {
    let req = create_weaver::request(&user("u1", false, false), create_args("o"));
    assert_eq!(req.owner_user_id.as_deref(), Some("u1"));
    assert_eq!(req.image, "python:3.12");
    assert_eq!(req.lifetime_hours, Some(12));
    let w = weaver("w9", "u1", WeaverStatus::Pending, &[]);
    let (audit, r) = create_weaver::finish(&user("u1", false, false), &w, "python:3.12", "o");
    assert_eq!(audit.event, AuditEvent::WeaverCreated);
    assert_eq!(audit.actor, 7);
    assert_eq!(audit.weaver_id, "w9");
    assert_eq!(audit.details.get("org_id"), Some(&JsonValue::Str("o".to_string())));
    assert_eq!(text(&r), "Created weaver w9 with image python:3.12");
}

fn list_args(status: Option<&str>, tags: &[(&str, &str)]) -> ListWeaversArgs {
    let mut t = StringMap::new();
    for (k, v) in tags {
        t.insert(k.to_string(), v.to_string());
    }
    ListWeaversArgs { org_id: None, status: status.map(|s| s.to_string()), tags: t }
}

#[test]
fn list_weavers_filters_and_text() {
    let ws = vec![
        weaver("w1", "u1", WeaverStatus::Running, &[("team", "a")]),
        weaver("w2", "u1", WeaverStatus::Failed, &[("team", "b")]),
    ];
    let me = user("u1", false, false);
    let r = list_weavers::execute(&me, &list_args(None, &[]), &ws);
    assert_eq!(
        text(&r),
        "Found 2 weaver(s):\n\n- w1 (Running) - python:3.12 [1.5h old]\n- w2 (Failed) - python:3.12 [1.5h old]"
    );
    let r = list_weavers::execute(&me, &list_args(Some("RUNNING"), &[]), &ws);
    assert_eq!(text(&r), "Found 1 weaver(s):\n\n- w1 (Running) - python:3.12 [1.5h old]");
    let r = list_weavers::execute(&me, &list_args(None, &[("team", "b")]), &ws);
    assert_eq!(text(&r), "Found 1 weaver(s):\n\n- w2 (Failed) - python:3.12 [1.5h old]");
    let admin = user("a", true, false);
    let r = list_weavers::execute(&admin, &list_args(None, &[("team", "b")]), &ws);
    assert!(text(&r).starts_with("Found 2 weaver(s)"));
    let r = list_weavers::execute(&me, &list_args(Some("pending"), &[]), &ws);
    assert_eq!(text(&r), "No weavers found.");
}

#[test]
fn list_weavers_org_filter() {
    let mut other = weaver("w2", "u1", WeaverStatus::Running, &[]);
    other.org_id = "org-b".to_string();
    let ws = vec![weaver("w1", "u1", WeaverStatus::Running, &[]), other];
    let mut args = list_args(None, &[]);
    args.org_id = Some("org-b".to_string());
    let r = list_weavers::execute(&user("a", true, false), &args, &ws);
    assert_eq!(text(&r), "Found 1 weaver(s):\n\n- w2 (Running) - python:3.12 [1.5h old]");
    args.org_id = Some("org-c".to_string());
    let r = list_weavers::execute(&user("u1", false, false), &args, &ws);
    assert_eq!(text(&r), "No weavers found.");
}

#[test]
fn list_weavers_queries() {
    let q = list_weavers::query(&user("u1", false, false), &list_args(None, &[("team", "a")]));
    assert!(matches!(q, list_weavers::WeaverQuery::OwnedBy { user_id } if user_id == "u1"));
    let q = list_weavers::query(&user("s", false, true), &list_args(None, &[]));
    assert!(matches!(q, list_weavers::WeaverQuery::All { tags: None }));
    let q = list_weavers::query(&user("a", true, false), &list_args(None, &[("team", "a")]));
    match q {
        list_weavers::WeaverQuery::All { tags: Some(t) } => assert_eq!(t.get("team").map(|s| s.as_str()), Some("a")),
        _ => panic!("expected all with tags"),
    }
}

#[test]
fn list_weavers_default_arguments_filter_nothing() {
    let args = ListWeaversArgs::default();
    assert!(args.org_id.is_none() && args.status.is_none() && args.tags.is_empty());
    let ws = vec![weaver("w1", "u1", WeaverStatus::Running, &[])];
    let r = list_weavers::execute(&user("u1", false, false), &args, &ws);
    assert_eq!(text(&r), "Found 1 weaver(s):\n\n- w1 (Running) - python:3.12 [1.5h old]");
}
