use loom_mcp::access::UserInfo;
use loom_mcp::error::McpError;
use loom_mcp::resources::{
    check_repo_access, check_thread_access, list_resource_templates, list_resources, read_resource,
    ResourceRoute, ThreadSummary,
};

fn user(id: &str, uuid: u128, admin: bool, support: bool) -> UserInfo {
    UserInfo { id: id.to_string(), uuid, is_system_admin: admin, is_support: support }
}

#[test]
fn test_list_resource_templates() {
    let result = list_resource_templates();
    assert_eq!(result.resource_templates.len(), 4);

    let templates: Vec<&str> = result
        .resource_templates
        .iter()
        .map(|t| t.uri_template.as_str())
        .collect();
    assert!(templates.contains(&"loom://threads/{thread_id}"));
    assert!(templates.contains(&"loom://threads/{thread_id}/messages"));
    assert!(templates.contains(&"loom://repos/{repo_id}"));
    assert!(templates.contains(&"loom://weavers/{weaver_id}"));
}

#[test]
fn list_resources_adds_one_resource_per_thread() {
    let threads = vec![
        ThreadSummary { id: "t1".to_string(), title: Some("Hello".to_string()) },
        ThreadSummary { id: "t2".to_string(), title: None },
    ];
    let r = list_resources(Ok(threads));
    let uris: Vec<&str> = r.resources.iter().map(|r| r.uri.as_str()).collect();
    assert_eq!(uris, vec!["loom://threads", "loom://repos", "loom://weavers", "loom://threads/t1", "loom://threads/t2"]);
    assert_eq!(r.resources[3].name, "Hello");
    assert_eq!(r.resources[4].name, "Thread t2");
    assert_eq!(r.resources[4].description.as_deref(), Some("Conversation thread"));
    assert_eq!(r.resources[0].mime_type.as_deref(), Some("application/json"));
    assert_eq!(list_resources(Ok(vec![])).resources.len(), 3);
}

#[test]
fn failed_thread_listing_still_offers_the_listings() {
    let r = list_resources(Err("store down".to_string()));
    let uris: Vec<&str> = r.resources.iter().map(|r| r.uri.as_str()).collect();
    assert_eq!(uris, vec!["loom://threads", "loom://repos", "loom://weavers"]);
}

fn route(uri: &str) -> Result<ResourceRoute, McpError> {
    read_resource(uri)
}

#[test]
fn resource_uris_route() {
    assert!(matches!(route("loom://threads"), Ok(ResourceRoute::Threads)));
    assert!(matches!(route("loom://threads/abc"), Ok(ResourceRoute::Thread(id)) if id == "abc"));
    assert!(matches!(route("loom://threads/abc/messages"), Ok(ResourceRoute::ThreadMessages(id)) if id == "abc"));
    assert!(matches!(route("loom://repos"), Ok(ResourceRoute::Repos)));
    assert!(matches!(route("loom://repos/r1"), Ok(ResourceRoute::Repo(id)) if id == "r1"));
    assert!(matches!(route("loom://weavers"), Ok(ResourceRoute::Weavers)));
    assert!(matches!(route("loom://weavers/w1"), Ok(ResourceRoute::Weaver(id)) if id == "w1"));
    assert!(matches!(route("loom://threads/"), Ok(ResourceRoute::Thread(id)) if id.is_empty()));
}

#[test]
fn bad_resource_uris_are_invalid() {
    match route("http://threads") {
        Err(McpError::InvalidParams(m)) => assert_eq!(m, "Invalid resource URI: http://threads"),
        _ => panic!("expected invalid params"),
    }
    match route("loom://threads/a/b") {
        Err(McpError::InvalidParams(m)) => assert_eq!(m, "Unknown resource path: threads/a/b"),
        _ => panic!("expected invalid params"),
    }
    match route("loom://") {
        Err(McpError::InvalidParams(m)) => assert_eq!(m, "Unknown resource path: "),
        _ => panic!("expected invalid params"),
    }
    assert!(route("loom:/").is_err());
}

#[test]
fn thread_and_repo_access() {
    let owner = user("u1", 1, false, false);
    let other = user("u2", 2, false, true);
    let admin = user("u3", 3, true, false);
    assert!(check_thread_access(&owner, &Some("u1".to_string())).is_ok());
    assert!(check_thread_access(&admin, &None).is_ok());
    match check_thread_access(&other, &Some("u1".to_string())) {
        Err(McpError::Forbidden(m)) => assert_eq!(m, "You don't have access to this thread"),
        _ => panic!("expected forbidden"),
    }
    assert!(check_repo_access(&owner, true, 1).is_ok());
    assert!(check_repo_access(&owner, false, 1).is_err());
    assert!(check_repo_access(&admin, true, 1).is_ok());
    match check_repo_access(&other, true, 1) {
        Err(McpError::Forbidden(m)) => assert_eq!(m, "You don't have access to this repository"),
        _ => panic!("expected forbidden"),
    }
}
