use loom_mcp::error::McpError;
use loom_mcp::prompts::{get_code_review_prompt, get_prompt, list_prompts};
use loom_mcp::string_map::StringMap;
use loom_mcp::types::{PromptContent, PromptRole, PromptsGetResult};

fn text_of(r: &PromptsGetResult) -> String {
    match &r.messages[0].content {
        PromptContent::Text { text } => text.clone(),
    }
}

fn args(pairs: &[(&str, &str)]) -> StringMap {
    let mut m = StringMap::new();
    for (k, v) in pairs {
        m.insert(k.to_string(), v.to_string());
    }
    m
}

#[test]
fn test_list_prompts() {
    let result = list_prompts();
    assert_eq!(result.prompts.len(), 5);

    let prompt_names: Vec<&str> = result.prompts.iter().map(|p| p.name.as_str()).collect();
    assert!(prompt_names.contains(&"create-weaver"));
    assert!(prompt_names.contains(&"code-review"));
    assert!(prompt_names.contains(&"debug-session"));
    assert!(prompt_names.contains(&"explain-code"));
    assert!(prompt_names.contains(&"write-tests"));
}

#[test]
fn test_get_create_weaver_prompt() {
    let mut args = StringMap::new();
    args.insert("language".to_string(), "python".to_string());
    args.insert("org_id".to_string(), "test-org-123".to_string());

    let result = get_prompt("create-weaver", &args).unwrap();
    assert!(result.description.is_some());
    assert_eq!(result.messages.len(), 1);
}

#[test]
fn test_get_create_weaver_prompt_missing_args() {
    let args = StringMap::new();
    let result = get_prompt("create-weaver", &args);
    assert!(result.is_err());
}

#[test]
fn test_get_code_review_prompt() {
    let args = StringMap::new();
    let result = get_prompt("code-review", &args).unwrap();
    assert_eq!(result.messages.len(), 1);
}

#[test]
fn test_get_unknown_prompt() {
    let args = StringMap::new();
    let result = get_prompt("unknown-prompt", &args);
    assert!(result.is_err());
}

#[test]
fn unknown_prompt_names_the_prompt() {
    match get_prompt("unknown-prompt", &StringMap::new()) {
        Err(McpError::InvalidParams(m)) => assert_eq!(m, "Unknown prompt: unknown-prompt"),
        _ => panic!("expected invalid params"),
    }
}

#[test]
fn create_weaver_prompt_reports_each_missing_argument() {
    match get_prompt("create-weaver", &args(&[("org_id", "o")])) {
        Err(McpError::InvalidParams(m)) => assert_eq!(m, "Missing required argument: language"),
        _ => panic!("expected invalid params"),
    }
    match get_prompt("create-weaver", &args(&[("language", "rust")])) {
        Err(McpError::InvalidParams(m)) => assert_eq!(m, "Missing required argument: org_id"),
        _ => panic!("expected invalid params"),
    }
}

#[test]
fn create_weaver_prompt_exact_text() {
    let r = get_prompt("create-weaver", &args(&[("language", "Python"), ("org_id", "org-1")])).unwrap();
    assert_eq!(r.description.as_deref(), Some("Create a Python development environment"));
    assert_eq!(r.messages[0].role, PromptRole::User);
    let expected = "Create an ephemeral execution environment for Python development.\n\n\
Recommended configuration:\n- Image: python:3.12-slim\n- Memory: 2Gi\n- CPU: 1 core(s)\n- Organization: org-1\n\n\
Use the create_weaver tool with these settings to spin up the environment. \
The environment will be automatically cleaned up after 24 hours.\n\n\
Example tool call:\n```json\n{\n\"name\": \"create_weaver\",\n\"arguments\": {\n\
\"image\": \"python:3.12-slim\",\n\"org_id\": \"org-1\",\n\"memory_limit\": \"2Gi\",\n\
\"cpu_limit\": \"1\",\n\"lifetime_hours\": 24\n}\n}\n```";
    assert_eq!(text_of(&r), expected);
}

#[test]
fn create_weaver_prompt_language_profiles() {
    let cases = [
        ("rust", "rust:1.75-slim", "4Gi", "2"),
        ("TS", "node:20-slim", "2Gi", "1"),
        ("golang", "golang:1.22-alpine", "2Gi", "1"),
        ("ruby", "ruby:3.3-slim", "2Gi", "1"),
        ("Java", "eclipse-temurin:21-jdk", "4Gi", "2"),
        ("C#", "mcr.microsoft.com/dotnet/sdk:8.0", "4Gi", "2"),
        ("cobol", "ubuntu:22.04", "2Gi", "1"),
    ];
    for (lang, image, memory, cpu) in cases {
        let r = get_prompt("create-weaver", &args(&[("language", lang), ("org_id", "o")])).unwrap();
        let t = text_of(&r);
        assert!(t.contains(&format!("- Image: {}\n- Memory: {}\n- CPU: {} core(s)", image, memory, cpu)), "{}", lang);
    }
}

#[test]
fn code_review_prompt_focus() {
    let r = get_prompt("code-review", &StringMap::new()).unwrap();
    assert_eq!(r.description.as_deref(), Some("Code review with all focus"));
    assert!(text_of(&r).starts_with("I need you to review my code changes.\n\nReview for:\n1. **Correctness**"));
    let r = get_prompt("code-review", &args(&[("focus", "SECURITY")])).unwrap();
    assert_eq!(r.description.as_deref(), Some("Code review with SECURITY focus"));
    assert!(text_of(&r).contains("Focus specifically on:\n- Input validation and sanitization"));
    assert!(text_of(&r).ends_with("I'll share the code in my next message."));
}

#[test]
fn unknown_focus_reviews_everything() {
    let default = get_prompt("code-review", &StringMap::new()).unwrap();
    let r = get_prompt("code-review", &args(&[("focus", "everything")])).unwrap();
    assert_eq!(text_of(&r), text_of(&default));
    assert_eq!(r.description.as_deref(), Some("Code review with everything focus"));
    let direct = get_code_review_prompt(&args(&[("focus", "Everything")]));
    assert_eq!(text_of(&direct), text_of(&get_code_review_prompt(&StringMap::new())));
}

#[test]
fn debug_session_prompt_contexts() {
    let r = get_prompt("debug-session", &StringMap::new()).unwrap();
    assert_eq!(r.description.as_deref(), Some("Start a debugging session"));
    assert!(text_of(&r).starts_with("I need help debugging an issue in my code.\n\nPlease help me:"));
    let r = get_prompt("debug-session", &args(&[("error_message", "boom"), ("language", "go")])).unwrap();
    assert!(text_of(&r).starts_with(
        "I need help debugging an issue in my code.\n\nProgramming language: go\n\nThe error I'm seeing:\n```\nboom\n```\n\nPlease help me:"
    ));
}

#[test]
fn explain_code_prompt_levels() {
    let r = get_prompt("explain-code", &StringMap::new()).unwrap();
    assert_eq!(r.description.as_deref(), Some("detailed code explanation"));
    assert!(text_of(&r).contains("Provide a detailed explanation:"));
    let r = get_prompt("explain-code", &args(&[("detail_level", "Expert")])).unwrap();
    assert_eq!(r.description.as_deref(), Some("Expert code explanation"));
    assert!(text_of(&r).contains("Provide an expert-level analysis:"));
}

#[test]
fn write_tests_prompt_type_and_framework() {
    let r = get_prompt("write-tests", &StringMap::new()).unwrap();
    assert_eq!(r.description.as_deref(), Some("Generate unit tests"));
    assert!(text_of(&r).contains("Write unit tests that:"));
    let r = get_prompt("write-tests", &args(&[("test_type", "end-to-end"), ("framework", "jest")])).unwrap();
    assert_eq!(r.description.as_deref(), Some("Generate end-to-end tests"));
    let t = text_of(&r);
    assert!(t.contains("Write end-to-end tests that:"));
    assert!(t.contains("- Test critical user journeys\n\nUse the jest testing framework.\n\nFor each test:"));
}

#[test]
fn listed_prompts_can_be_filled_with_required_arguments() {
    let full = args(&[("language", "python"), ("org_id", "o")]);
    for p in list_prompts().prompts {
        assert!(get_prompt(&p.name, &full).is_ok(), "{}", p.name);
    }
}
