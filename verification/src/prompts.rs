//! The prompt catalogue: predefined prompt templates for common workflows,
//! and how each is filled from the arguments a client sends.

use vstd::prelude::*;

use crate::error::{result_view, ErrorView, McpError};
use crate::string_map::StringMap;
use crate::text::{lemma_ascii_lower_keeps, lowercase_of, owned, str_eq, to_lowercase};
use crate::types::{
    ArgumentView, MessageView, Prompt, PromptArgument, PromptContent, PromptMessage, PromptRole,
    PromptView, PromptsGetResult, PromptsGetView, PromptsListResult,
};

verus! {

/// Name of the prompt that sets up a weaver for a language.
pub const CREATE_WEAVER: &'static str = "create-weaver";
/// Name of the code review prompt.
pub const CODE_REVIEW: &'static str = "code-review";
/// Name of the debugging prompt.
pub const DEBUG_SESSION: &'static str = "debug-session";
/// Name of the code explanation prompt.
pub const EXPLAIN_CODE: &'static str = "explain-code";
/// Name of the test writing prompt.
pub const WRITE_TESTS: &'static str = "write-tests";

pub const ARG_LANGUAGE: &'static str = "language";
pub const ARG_ORG_ID: &'static str = "org_id";
pub const ARG_FOCUS: &'static str = "focus";
pub const ARG_ERROR_MESSAGE: &'static str = "error_message";
pub const ARG_DETAIL_LEVEL: &'static str = "detail_level";
pub const ARG_TEST_TYPE: &'static str = "test_type";
pub const ARG_FRAMEWORK: &'static str = "framework";

pub const CREATE_WEAVER_DESCRIPTION: &'static str = "Create a weaver (ephemeral execution environment) with recommended settings for a specific programming language or use case.";
pub const LANGUAGE_DESCRIPTION: &'static str = "Programming language (python, node, rust, go, etc.)";
pub const ORG_ID_DESCRIPTION: &'static str = "Organization ID for billing";
pub const CODE_REVIEW_DESCRIPTION: &'static str = "Get help reviewing code changes for bugs, security issues, and best practices.";
pub const FOCUS_DESCRIPTION: &'static str = "Focus area: security, performance, style, or all (default: all)";
pub const DEBUG_SESSION_DESCRIPTION: &'static str = "Start a debugging session to investigate an issue in your code.";
pub const ERROR_MESSAGE_DESCRIPTION: &'static str = "The error message or symptom you're seeing";
pub const DEBUG_LANGUAGE_DESCRIPTION: &'static str = "Programming language of the code";
pub const EXPLAIN_CODE_DESCRIPTION: &'static str = "Get a detailed explanation of how a piece of code works.";
pub const DETAIL_LEVEL_DESCRIPTION: &'static str = "Level of detail: overview, detailed, or expert (default: detailed)";
pub const WRITE_TESTS_DESCRIPTION: &'static str = "Generate test cases for your code.";
pub const TEST_TYPE_DESCRIPTION: &'static str = "Type of tests: unit, integration, e2e, or property (default: unit)";
pub const FRAMEWORK_DESCRIPTION: &'static str = "Testing framework to use (e.g., pytest, jest, etc.)";

pub const UNKNOWN_PROMPT: &'static str = "Unknown prompt: ";
pub const MISSING_LANGUAGE: &'static str = "Missing required argument: language";
pub const MISSING_ORG_ID: &'static str = "Missing required argument: org_id";

pub const CW_TEXT_0: &'static str = "Create an ephemeral execution environment for ";
pub const CW_TEXT_1: &'static str = " development.\n\nRecommended configuration:\n- Image: ";
pub const CW_TEXT_2: &'static str = "\n- Memory: ";
pub const CW_TEXT_3: &'static str = "\n- CPU: ";
pub const CW_TEXT_4: &'static str = " core(s)\n- Organization: ";
pub const CW_TEXT_5: &'static str = "\n\nUse the create_weaver tool with these settings to spin up the environment. The environment will be automatically cleaned up after 24 hours.\n\nExample tool call:\n```json\n{\n\"name\": \"create_weaver\",\n\"arguments\": {\n\"image\": \"";
pub const CW_TEXT_6: &'static str = "\",\n\"org_id\": \"";
pub const CW_TEXT_7: &'static str = "\",\n\"memory_limit\": \"";
pub const CW_TEXT_8: &'static str = "\",\n\"cpu_limit\": \"";
pub const CW_TEXT_9: &'static str = "\",\n\"lifetime_hours\": 24\n}\n}\n```";
pub const CW_DESC_0: &'static str = "Create a ";
pub const CW_DESC_1: &'static str = " development environment";

pub const FOCUS_SECURITY: &'static str = "Focus specifically on:\n- Input validation and sanitization\n- Authentication and authorization\n- SQL injection, XSS, CSRF vulnerabilities\n- Secrets handling and exposure\n- Cryptographic best practices";
pub const FOCUS_PERFORMANCE: &'static str = "Focus specifically on:\n- Algorithm complexity (Big O)\n- Memory allocation patterns\n- Database query efficiency\n- Caching opportunities\n- Unnecessary computations";
pub const FOCUS_STYLE: &'static str = "Focus specifically on:\n- Code readability and clarity\n- Naming conventions\n- Code organization and structure\n- Comments and documentation\n- Consistency with project patterns";
pub const FOCUS_ALL: &'static str = "Review for:\n1. **Correctness**: Logic errors, edge cases, null handling\n2. **Security**: Input validation, authentication, data exposure\n3. **Performance**: Efficiency, resource usage, scalability\n4. **Maintainability**: Readability, structure, documentation";
pub const CR_TEXT_0: &'static str = "I need you to review my code changes.\n\n";
pub const CR_TEXT_1: &'static str = "\n\nPlease provide:\n- A summary of what the code does\n- Specific issues found with line numbers\n- Suggestions for improvement\n- Any questions about intent or requirements\n\nI'll share the code in my next message.";
pub const CR_DESC_0: &'static str = "Code review with ";
pub const CR_DESC_1: &'static str = " focus";
pub const DEFAULT_FOCUS: &'static str = "all";

pub const DS_ERROR_0: &'static str = "The error I'm seeing:\n```\n";
pub const DS_ERROR_1: &'static str = "\n```\n\n";
pub const DS_LANGUAGE_0: &'static str = "Programming language: ";
pub const DS_LANGUAGE_1: &'static str = "\n\n";
pub const DS_TEXT_0: &'static str = "I need help debugging an issue in my code.\n\n";
pub const DS_TEXT_1: &'static str = "Please help me:\n1. Understand what might be causing this issue\n2. Identify potential root causes\n3. Suggest debugging steps or diagnostic code\n4. Propose fixes once we identify the problem\n\nI'll share the relevant code and any additional context.";
pub const DS_DESC: &'static str = "Start a debugging session";

pub const DETAIL_OVERVIEW: &'static str = "Provide a high-level overview:\n- What the code does in 2-3 sentences\n- The main purpose and functionality\n- Key inputs and outputs";
pub const DETAIL_EXPERT: &'static str = "Provide an expert-level analysis:\n- Detailed algorithm explanation with complexity analysis\n- Design patterns and architectural decisions\n- Memory and performance characteristics\n- Trade-offs and alternative approaches\n- Edge cases and potential issues";
pub const DETAIL_DETAILED: &'static str = "Provide a detailed explanation:\n- What the code does, step by step\n- The purpose of each major section\n- Important variables and data structures\n- Any complex logic or algorithms\n- How different parts interact";
pub const EC_TEXT_0: &'static str = "I'd like you to explain some code to me.\n\n";
pub const EC_TEXT_1: &'static str = "\n\nI'll share the code in my next message.";
pub const EC_DESC_1: &'static str = " code explanation";
pub const DEFAULT_DETAIL_LEVEL: &'static str = "detailed";

pub const TESTS_INTEGRATION: &'static str = "Write integration tests that:\n- Test interactions between components\n- Verify data flow through the system\n- Test with real (or realistic mock) dependencies\n- Cover happy paths and error scenarios";
pub const TESTS_E2E: &'static str = "Write end-to-end tests that:\n- Test the full user workflow\n- Simulate real user interactions\n- Verify the complete system behavior\n- Test critical user journeys";
pub const TESTS_PROPERTY: &'static str = "Write property-based tests that:\n- Define properties the code should satisfy\n- Generate random inputs to test those properties\n- Find edge cases automatically\n- Test invariants that should always hold";
pub const TESTS_UNIT: &'static str = "Write unit tests that:\n- Test individual functions/methods in isolation\n- Cover normal cases, edge cases, and error cases\n- Use mocks/stubs for dependencies\n- Are fast and deterministic";
pub const WT_FRAMEWORK_0: &'static str = "\n\nUse the ";
pub const WT_FRAMEWORK_1: &'static str = " testing framework.";
pub const WT_TEXT_0: &'static str = "I need you to write tests for my code.\n\n";
pub const WT_TEXT_1: &'static str = "\n\nFor each test:\n- Give it a descriptive name\n- Arrange the test data\n- Act on the system under test\n- Assert the expected outcomes\n\nI'll share the code to test in my next message.";
pub const WT_DESC_0: &'static str = "Generate ";
pub const WT_DESC_1: &'static str = " tests";
pub const DEFAULT_TEST_TYPE: &'static str = "unit";

/// An argument declaration.
pub open spec fn argument_view(name: Seq<char>, description: Seq<char>, required: bool) -> ArgumentView {
    ArgumentView { name, description: Some(description), required: Some(required) }
}

/// A prompt declaration.
pub open spec fn prompt_view(name: Seq<char>, description: Seq<char>, arguments: Seq<ArgumentView>) -> PromptView {
    PromptView { name, description: Some(description), arguments: Some(arguments) }
}

/// The catalogue that `prompts/list` answers with, in order.
pub open spec fn prompt_catalogue() -> Seq<PromptView> {
    seq![
        prompt_view(CREATE_WEAVER@, CREATE_WEAVER_DESCRIPTION@, seq![
            argument_view(ARG_LANGUAGE@, LANGUAGE_DESCRIPTION@, true),
            argument_view(ARG_ORG_ID@, ORG_ID_DESCRIPTION@, true),
        ]),
        prompt_view(CODE_REVIEW@, CODE_REVIEW_DESCRIPTION@, seq![
            argument_view(ARG_FOCUS@, FOCUS_DESCRIPTION@, false),
        ]),
        prompt_view(DEBUG_SESSION@, DEBUG_SESSION_DESCRIPTION@, seq![
            argument_view(ARG_ERROR_MESSAGE@, ERROR_MESSAGE_DESCRIPTION@, false),
            argument_view(ARG_LANGUAGE@, DEBUG_LANGUAGE_DESCRIPTION@, false),
        ]),
        prompt_view(EXPLAIN_CODE@, EXPLAIN_CODE_DESCRIPTION@, seq![
            argument_view(ARG_DETAIL_LEVEL@, DETAIL_LEVEL_DESCRIPTION@, false),
        ]),
        prompt_view(WRITE_TESTS@, WRITE_TESTS_DESCRIPTION@, seq![
            argument_view(ARG_TEST_TYPE@, TEST_TYPE_DESCRIPTION@, false),
            argument_view(ARG_FRAMEWORK@, FRAMEWORK_DESCRIPTION@, false),
        ]),
    ]
}

fn argument(name: &str, description: &str, required: bool) -> (r: PromptArgument)
    ensures
        r@ == argument_view(name@, description@, required),
{
    PromptArgument { name: owned(name), description: Some(owned(description)), required: Some(required) }
}

fn prompt(name: &str, description: &str, arguments: Vec<PromptArgument>) -> (r: Prompt)
    ensures
        r@ == prompt_view(name@, description@, arguments@.map_values(|a: PromptArgument| a@)),
{
    Prompt { name: owned(name), description: Some(owned(description)), arguments: Some(arguments) }
}

/// The available prompts.
pub fn list_prompts() -> (r: PromptsListResult)
    ensures
        r@ == prompt_catalogue(),
{
    let mut prompts: Vec<Prompt> = Vec::new();
    prompts.push(create_weaver_prompt());
    prompts.push(code_review_prompt());
    prompts.push(debug_session_prompt());
    prompts.push(explain_code_prompt());
    prompts.push(write_tests_prompt());
    let r = PromptsListResult { prompts };
    assert(r@ =~= prompt_catalogue());
    r
}

/// Prompt for creating a weaver with recommended settings.
fn create_weaver_prompt() -> (r: Prompt)
    ensures
        r@ == prompt_catalogue()[0],
{
    let mut args: Vec<PromptArgument> = Vec::new();
    args.push(argument(ARG_LANGUAGE, LANGUAGE_DESCRIPTION, true));
    args.push(argument(ARG_ORG_ID, ORG_ID_DESCRIPTION, true));
    let r = prompt(CREATE_WEAVER, CREATE_WEAVER_DESCRIPTION, args);
    assert(r@.arguments->0 =~= prompt_catalogue()[0].arguments->0);
    r
}

/// Prompt for code review assistance.
fn code_review_prompt() -> (r: Prompt)
    ensures
        r@ == prompt_catalogue()[1],
{
    let mut args: Vec<PromptArgument> = Vec::new();
    args.push(argument(ARG_FOCUS, FOCUS_DESCRIPTION, false));
    let r = prompt(CODE_REVIEW, CODE_REVIEW_DESCRIPTION, args);
    assert(r@.arguments->0 =~= prompt_catalogue()[1].arguments->0);
    r
}

/// Prompt for debugging assistance.
fn debug_session_prompt() -> (r: Prompt)
    ensures
        r@ == prompt_catalogue()[2],
{
    let mut args: Vec<PromptArgument> = Vec::new();
    args.push(argument(ARG_ERROR_MESSAGE, ERROR_MESSAGE_DESCRIPTION, false));
    args.push(argument(ARG_LANGUAGE, DEBUG_LANGUAGE_DESCRIPTION, false));
    let r = prompt(DEBUG_SESSION, DEBUG_SESSION_DESCRIPTION, args);
    assert(r@.arguments->0 =~= prompt_catalogue()[2].arguments->0);
    r
}

/// Prompt for explaining code.
fn explain_code_prompt() -> (r: Prompt)
    ensures
        r@ == prompt_catalogue()[3],
{
    let mut args: Vec<PromptArgument> = Vec::new();
    args.push(argument(ARG_DETAIL_LEVEL, DETAIL_LEVEL_DESCRIPTION, false));
    let r = prompt(EXPLAIN_CODE, EXPLAIN_CODE_DESCRIPTION, args);
    assert(r@.arguments->0 =~= prompt_catalogue()[3].arguments->0);
    r
}

/// Prompt for writing tests.
fn write_tests_prompt() -> (r: Prompt)
    ensures
        r@ == prompt_catalogue()[4],
{
    let mut args: Vec<PromptArgument> = Vec::new();
    args.push(argument(ARG_TEST_TYPE, TEST_TYPE_DESCRIPTION, false));
    args.push(argument(ARG_FRAMEWORK, FRAMEWORK_DESCRIPTION, false));
    let r = prompt(WRITE_TESTS, WRITE_TESTS_DESCRIPTION, args);
    assert(r@.arguments->0 =~= prompt_catalogue()[4].arguments->0);
    r
}


/// A filled prompt: one user message with `text`, described by `description`.
pub open spec fn user_text(description: Seq<char>, text: Seq<char>) -> PromptsGetView {
    PromptsGetView {
        description: Some(description),
        messages: seq![MessageView { role: PromptRole::User, text }],
    }
}

fn user_prompt(description: String, text: String) -> (r: PromptsGetResult)
    ensures
        r@ == user_text(description@, text@),
{
    let ghost t = text@;
    let mut messages: Vec<PromptMessage> = Vec::new();
    messages.push(PromptMessage { role: PromptRole::User, content: PromptContent::Text { text } });
    let r = PromptsGetResult { description: Some(description), messages };
    assert(r@.messages =~= seq![MessageView { role: PromptRole::User, text: t }]);
    r
}

/// The image, memory limit and CPU limit recommended for a language, given
/// its lowercased name.
pub open spec fn language_profile_spec(lowered: Seq<char>) -> (Seq<char>, Seq<char>, Seq<char>) {
    if lowered == "python"@ || lowered == "py"@ {
        ("python:3.12-slim"@, "2Gi"@, "1"@)
    } else if lowered == "node"@ || lowered == "nodejs"@ || lowered == "javascript"@ || lowered == "js"@
        || lowered == "typescript"@ || lowered == "ts"@ {
        ("node:20-slim"@, "2Gi"@, "1"@)
    } else if lowered == "rust"@ {
        ("rust:1.75-slim"@, "4Gi"@, "2"@)
    } else if lowered == "go"@ || lowered == "golang"@ {
        ("golang:1.22-alpine"@, "2Gi"@, "1"@)
    } else if lowered == "ruby"@ {
        ("ruby:3.3-slim"@, "2Gi"@, "1"@)
    } else if lowered == "java"@ {
        ("eclipse-temurin:21-jdk"@, "4Gi"@, "2"@)
    } else if lowered == "dotnet"@ || lowered == "csharp"@ || lowered == "c#"@ {
        ("mcr.microsoft.com/dotnet/sdk:8.0"@, "4Gi"@, "2"@)
    } else {
        ("ubuntu:22.04"@, "2Gi"@, "1"@)
    }
}

/// The recommended image, memory limit and CPU limit for a language whose
/// name has already been lowercased; unknown languages get a general image.
pub fn language_profile(lowered: &str) -> (r: (&'static str, &'static str, &'static str))
    ensures
        (r.0@, r.1@, r.2@) == language_profile_spec(lowered@),
{
    if str_eq(lowered, "python") || str_eq(lowered, "py") {
        ("python:3.12-slim", "2Gi", "1")
    } else if str_eq(lowered, "node") || str_eq(lowered, "nodejs") || str_eq(lowered, "javascript")
        || str_eq(lowered, "js") || str_eq(lowered, "typescript") || str_eq(lowered, "ts") {
        ("node:20-slim", "2Gi", "1")
    } else if str_eq(lowered, "rust") {
        ("rust:1.75-slim", "4Gi", "2")
    } else if str_eq(lowered, "go") || str_eq(lowered, "golang") {
        ("golang:1.22-alpine", "2Gi", "1")
    } else if str_eq(lowered, "ruby") {
        ("ruby:3.3-slim", "2Gi", "1")
    } else if str_eq(lowered, "java") {
        ("eclipse-temurin:21-jdk", "4Gi", "2")
    } else if str_eq(lowered, "dotnet") || str_eq(lowered, "csharp") || str_eq(lowered, "c#") {
        ("mcr.microsoft.com/dotnet/sdk:8.0", "4Gi", "2")
    } else {
        ("ubuntu:22.04", "2Gi", "1")
    }
}

/// The text of the create-weaver prompt.
pub open spec fn create_weaver_text(
    language: Seq<char>,
    image: Seq<char>,
    memory: Seq<char>,
    cpu: Seq<char>,
    org_id: Seq<char>,
) -> Seq<char> {
    CW_TEXT_0@ + language + CW_TEXT_1@ + image + CW_TEXT_2@ + memory + CW_TEXT_3@ + cpu + CW_TEXT_4@
        + org_id + CW_TEXT_5@ + image + CW_TEXT_6@ + org_id + CW_TEXT_7@ + memory + CW_TEXT_8@ + cpu
        + CW_TEXT_9@
}

/// The filled create-weaver prompt, or the missing argument.
pub open spec fn create_weaver_result(args: Map<Seq<char>, Seq<char>>) -> Result<PromptsGetView, ErrorView> {
    if !args.contains_key(ARG_LANGUAGE@) {
        Err(ErrorView::InvalidParams(MISSING_LANGUAGE@))
    } else if !args.contains_key(ARG_ORG_ID@) {
        Err(ErrorView::InvalidParams(MISSING_ORG_ID@))
    } else {
        let language = args[ARG_LANGUAGE@];
        let org_id = args[ARG_ORG_ID@];
        let profile = language_profile_spec(lowercase_of(language));
        Ok(user_text(
            CW_DESC_0@ + language + CW_DESC_1@,
            create_weaver_text(language, profile.0, profile.1, profile.2, org_id),
        ))
    }
}

/// The review instructions for a focus area, given its lowercased name.
pub open spec fn focus_instructions_spec(lowered: Seq<char>) -> Seq<char> {
    if lowered == "security"@ {
        FOCUS_SECURITY@
    } else if lowered == "performance"@ {
        FOCUS_PERFORMANCE@
    } else if lowered == "style"@ {
        FOCUS_STYLE@
    } else {
        FOCUS_ALL@
    }
}

/// The review instructions for a focus area whose name has already been
/// lowercased; any other focus gets the general checklist.
pub fn focus_instructions(lowered: &str) -> (r: &'static str)
    ensures
        r@ == focus_instructions_spec(lowered@),
{
    if str_eq(lowered, "security") {
        FOCUS_SECURITY
    } else if str_eq(lowered, "performance") {
        FOCUS_PERFORMANCE
    } else if str_eq(lowered, "style") {
        FOCUS_STYLE
    } else {
        FOCUS_ALL
    }
}

/// The lowercase of an optional argument, or its default (which is its own
/// lowercase).
pub open spec fn lowered_or(args: Map<Seq<char>, Seq<char>>, key: Seq<char>, default: Seq<char>) -> Seq<char> {
    if args.contains_key(key) {
        lowercase_of(args[key])
    } else {
        default
    }
}

/// The value of an optional argument, or its default.
pub open spec fn arg_or(args: Map<Seq<char>, Seq<char>>, key: Seq<char>, default: Seq<char>) -> Seq<char> {
    if args.contains_key(key) {
        args[key]
    } else {
        default
    }
}

/// The filled code-review prompt.
pub open spec fn code_review_result(args: Map<Seq<char>, Seq<char>>) -> PromptsGetView {
    let focus = arg_or(args, ARG_FOCUS@, DEFAULT_FOCUS@);
    user_text(
        CR_DESC_0@ + focus + CR_DESC_1@,
        CR_TEXT_0@ + focus_instructions_spec(lowered_or(args, ARG_FOCUS@, DEFAULT_FOCUS@)) + CR_TEXT_1@,
    )
}

/// The filled debug-session prompt.
pub open spec fn debug_session_result(args: Map<Seq<char>, Seq<char>>) -> PromptsGetView {
    let error_context = if args.contains_key(ARG_ERROR_MESSAGE@) {
        DS_ERROR_0@ + args[ARG_ERROR_MESSAGE@] + DS_ERROR_1@
    } else {
        Seq::empty()
    };
    let language_context = if args.contains_key(ARG_LANGUAGE@) {
        DS_LANGUAGE_0@ + args[ARG_LANGUAGE@] + DS_LANGUAGE_1@
    } else {
        Seq::empty()
    };
    user_text(DS_DESC@, DS_TEXT_0@ + language_context + error_context + DS_TEXT_1@)
}

/// The explanation instructions for a detail level, given its lowercased name.
pub open spec fn detail_instructions_spec(lowered: Seq<char>) -> Seq<char> {
    if lowered == "overview"@ {
        DETAIL_OVERVIEW@
    } else if lowered == "expert"@ {
        DETAIL_EXPERT@
    } else {
        DETAIL_DETAILED@
    }
}

/// The explanation instructions for a detail level whose name has already
/// been lowercased; any other level gets the detailed instructions.
pub fn detail_instructions(lowered: &str) -> (r: &'static str)
    ensures
        r@ == detail_instructions_spec(lowered@),
{
    if str_eq(lowered, "overview") {
        DETAIL_OVERVIEW
    } else if str_eq(lowered, "expert") {
        DETAIL_EXPERT
    } else {
        DETAIL_DETAILED
    }
}

/// The filled explain-code prompt.
pub open spec fn explain_code_result(args: Map<Seq<char>, Seq<char>>) -> PromptsGetView {
    let level = arg_or(args, ARG_DETAIL_LEVEL@, DEFAULT_DETAIL_LEVEL@);
    user_text(level + EC_DESC_1@, EC_TEXT_0@ + detail_instructions_spec(lowered_or(args, ARG_DETAIL_LEVEL@, DEFAULT_DETAIL_LEVEL@)) + EC_TEXT_1@)
}

/// The test-writing instructions for a kind of test, given its lowercased name.
pub open spec fn test_type_instructions_spec(lowered: Seq<char>) -> Seq<char> {
    if lowered == "integration"@ {
        TESTS_INTEGRATION@
    } else if lowered == "e2e"@ || lowered == "end-to-end"@ {
        TESTS_E2E@
    } else if lowered == "property"@ || lowered == "property-based"@ {
        TESTS_PROPERTY@
    } else {
        TESTS_UNIT@
    }
}

/// The test-writing instructions for a kind of test whose name has already
/// been lowercased; any other kind gets the unit test instructions.
pub fn test_type_instructions(lowered: &str) -> (r: &'static str)
    ensures
        r@ == test_type_instructions_spec(lowered@),
{
    if str_eq(lowered, "integration") {
        TESTS_INTEGRATION
    } else if str_eq(lowered, "e2e") || str_eq(lowered, "end-to-end") {
        TESTS_E2E
    } else if str_eq(lowered, "property") || str_eq(lowered, "property-based") {
        TESTS_PROPERTY
    } else {
        TESTS_UNIT
    }
}

/// The filled write-tests prompt.
pub open spec fn write_tests_result(args: Map<Seq<char>, Seq<char>>) -> PromptsGetView {
    let test_type = arg_or(args, ARG_TEST_TYPE@, DEFAULT_TEST_TYPE@);
    let framework_note = if args.contains_key(ARG_FRAMEWORK@) {
        WT_FRAMEWORK_0@ + args[ARG_FRAMEWORK@] + WT_FRAMEWORK_1@
    } else {
        Seq::empty()
    };
    user_text(
        WT_DESC_0@ + test_type + WT_DESC_1@,
        WT_TEXT_0@ + test_type_instructions_spec(lowered_or(args, ARG_TEST_TYPE@, DEFAULT_TEST_TYPE@)) + framework_note + WT_TEXT_1@,
    )
}

/// What `prompts/get` answers for a prompt name and its arguments.
pub open spec fn prompt_result(name: Seq<char>, args: Map<Seq<char>, Seq<char>>) -> Result<PromptsGetView, ErrorView> {
    if name == CREATE_WEAVER@ {
        create_weaver_result(args)
    } else if name == CODE_REVIEW@ {
        Ok(code_review_result(args))
    } else if name == DEBUG_SESSION@ {
        Ok(debug_session_result(args))
    } else if name == EXPLAIN_CODE@ {
        Ok(explain_code_result(args))
    } else if name == WRITE_TESTS@ {
        Ok(write_tests_result(args))
    } else {
        Err(ErrorView::InvalidParams(UNKNOWN_PROMPT@ + name))
    }
}

/// Fills the prompt `name` from `arguments`. Unknown names and missing
/// required arguments are rejected as invalid parameters.
pub fn get_prompt(name: &str, arguments: &StringMap) -> (r: Result<PromptsGetResult, McpError>)
    ensures
        result_view(r) == prompt_result(name@, arguments@),
{
    if str_eq(name, CREATE_WEAVER) {
        get_create_weaver_prompt(arguments)
    } else if str_eq(name, CODE_REVIEW) {
        Ok(get_code_review_prompt(arguments))
    } else if str_eq(name, DEBUG_SESSION) {
        Ok(get_debug_session_prompt(arguments))
    } else if str_eq(name, EXPLAIN_CODE) {
        Ok(get_explain_code_prompt(arguments))
    } else if str_eq(name, WRITE_TESTS) {
        Ok(get_write_tests_prompt(arguments))
    } else {
        let mut message = owned(UNKNOWN_PROMPT);
        message.append(name);
        Err(McpError::InvalidParams(message))
    }
}

/// Fills the create-weaver prompt; a missing `language` or `org_id` is an
/// invalid parameter.
pub fn get_create_weaver_prompt(arguments: &StringMap) -> (r: Result<PromptsGetResult, McpError>)
    ensures
        result_view(r) == create_weaver_result(arguments@),
{
    let language = match arguments.get(ARG_LANGUAGE) {
        Some(l) => l,
        None => {
            return Err(McpError::InvalidParams(owned(MISSING_LANGUAGE)));
        },
    };
    let org_id = match arguments.get(ARG_ORG_ID) {
        Some(o) => o,
        None => {
            return Err(McpError::InvalidParams(owned(MISSING_ORG_ID)));
        },
    };
    let lowered = to_lowercase(language.as_str());
    let (image, memory, cpu) = language_profile(lowered.as_str());
    let mut text = owned(CW_TEXT_0);
    text.append(language.as_str());
    text.append(CW_TEXT_1);
    text.append(image);
    text.append(CW_TEXT_2);
    text.append(memory);
    text.append(CW_TEXT_3);
    text.append(cpu);
    text.append(CW_TEXT_4);
    text.append(org_id.as_str());
    text.append(CW_TEXT_5);
    text.append(image);
    text.append(CW_TEXT_6);
    text.append(org_id.as_str());
    text.append(CW_TEXT_7);
    text.append(memory);
    text.append(CW_TEXT_8);
    text.append(cpu);
    text.append(CW_TEXT_9);
    let mut description = owned(CW_DESC_0);
    description.append(language.as_str());
    description.append(CW_DESC_1);
    Ok(user_prompt(description, text))
}

/// Fills the code-review prompt (focus `all` by default).
pub fn get_code_review_prompt(arguments: &StringMap) -> (r: PromptsGetResult)
    ensures
        r@ == code_review_result(arguments@),
{
    let focus: &str = match arguments.get(ARG_FOCUS) {
        Some(f) => f.as_str(),
        None => DEFAULT_FOCUS,
    };
    let lowered = to_lowercase(focus);
    proof {
        reveal_strlit("all");
        assert(DEFAULT_FOCUS@.len() == 3);
        lemma_ascii_lower_keeps(DEFAULT_FOCUS@);
    }
    let instructions = focus_instructions(lowered.as_str());
    let mut text = owned(CR_TEXT_0);
    text.append(instructions);
    text.append(CR_TEXT_1);
    let mut description = owned(CR_DESC_0);
    description.append(focus);
    description.append(CR_DESC_1);
    user_prompt(description, text)
}

/// Fills the debug-session prompt.
pub fn get_debug_session_prompt(arguments: &StringMap) -> (r: PromptsGetResult)
    ensures
        r@ == debug_session_result(arguments@),
{
    let mut error_context = String::new();
    match arguments.get(ARG_ERROR_MESSAGE) {
        Some(e) => {
            error_context.append(DS_ERROR_0);
            error_context.append(e.as_str());
            error_context.append(DS_ERROR_1);
        },
        None => {},
    }
    let mut language_context = String::new();
    match arguments.get(ARG_LANGUAGE) {
        Some(l) => {
            language_context.append(DS_LANGUAGE_0);
            language_context.append(l.as_str());
            language_context.append(DS_LANGUAGE_1);
        },
        None => {},
    }
    let mut text = owned(DS_TEXT_0);
    text.append(language_context.as_str());
    text.append(error_context.as_str());
    text.append(DS_TEXT_1);
    proof {
        assert(Seq::<char>::empty() + DS_ERROR_0@ =~= DS_ERROR_0@);
        assert(Seq::<char>::empty() + DS_LANGUAGE_0@ =~= DS_LANGUAGE_0@);
    }
    user_prompt(owned(DS_DESC), text)
}

/// Fills the explain-code prompt (detail level `detailed` by default).
pub fn get_explain_code_prompt(arguments: &StringMap) -> (r: PromptsGetResult)
    ensures
        r@ == explain_code_result(arguments@),
{
    let level: &str = match arguments.get(ARG_DETAIL_LEVEL) {
        Some(d) => d.as_str(),
        None => DEFAULT_DETAIL_LEVEL,
    };
    let lowered = to_lowercase(level);
    proof {
        reveal_strlit("detailed");
        assert(DEFAULT_DETAIL_LEVEL@.len() == 8);
        lemma_ascii_lower_keeps(DEFAULT_DETAIL_LEVEL@);
    }
    let instructions = detail_instructions(lowered.as_str());
    let mut text = owned(EC_TEXT_0);
    text.append(instructions);
    text.append(EC_TEXT_1);
    let mut description = owned(level);
    description.append(EC_DESC_1);
    user_prompt(description, text)
}

/// Fills the write-tests prompt (unit tests by default).
pub fn get_write_tests_prompt(arguments: &StringMap) -> (r: PromptsGetResult)
    ensures
        r@ == write_tests_result(arguments@),
{
    let test_type: &str = match arguments.get(ARG_TEST_TYPE) {
        Some(t) => t.as_str(),
        None => DEFAULT_TEST_TYPE,
    };
    let lowered = to_lowercase(test_type);
    proof {
        reveal_strlit("unit");
        assert(DEFAULT_TEST_TYPE@.len() == 4);
        lemma_ascii_lower_keeps(DEFAULT_TEST_TYPE@);
    }
    let instructions = test_type_instructions(lowered.as_str());
    let mut framework_note = String::new();
    match arguments.get(ARG_FRAMEWORK) {
        Some(f) => {
            framework_note.append(WT_FRAMEWORK_0);
            framework_note.append(f.as_str());
            framework_note.append(WT_FRAMEWORK_1);
        },
        None => {},
    }
    let mut text = owned(WT_TEXT_0);
    text.append(instructions);
    text.append(framework_note.as_str());
    text.append(WT_TEXT_1);
    proof {
        assert(Seq::<char>::empty() + WT_FRAMEWORK_0@ =~= WT_FRAMEWORK_0@);
    }
    let mut description = owned(WT_DESC_0);
    description.append(test_type);
    description.append(WT_DESC_1);
    user_prompt(description, text)
}


/// The names of the catalogue's prompts are distinct texts.
proof fn lemma_prompt_names_distinct()
    ensures
        CREATE_WEAVER@ != CODE_REVIEW@,
        CREATE_WEAVER@ != DEBUG_SESSION@,
        CREATE_WEAVER@ != EXPLAIN_CODE@,
        CREATE_WEAVER@ != WRITE_TESTS@,
        CODE_REVIEW@ != DEBUG_SESSION@,
        CODE_REVIEW@ != EXPLAIN_CODE@,
        CODE_REVIEW@ != WRITE_TESTS@,
        DEBUG_SESSION@ != EXPLAIN_CODE@,
        DEBUG_SESSION@ != WRITE_TESTS@,
        EXPLAIN_CODE@ != WRITE_TESTS@,
{
    reveal_strlit("create-weaver");
    reveal_strlit("code-review");
    reveal_strlit("debug-session");
    reveal_strlit("explain-code");
    reveal_strlit("write-tests");
    assert(CREATE_WEAVER@.len() == 13);
    assert(CODE_REVIEW@.len() == 11);
    assert(DEBUG_SESSION@.len() == 13);
    assert(EXPLAIN_CODE@.len() == 12);
    assert(WRITE_TESTS@.len() == 11);
    assert(CREATE_WEAVER@[0] != DEBUG_SESSION@[0]);
    assert(CODE_REVIEW@[0] != WRITE_TESTS@[0]);
}

/// Every prompt that `prompts/list` offers can be filled: `prompts/get` with
/// its name succeeds whenever the arguments it declares as required are
/// given.
pub proof fn law_listed_prompts_can_be_filled(i: int, args: Map<Seq<char>, Seq<char>>)
    requires
        0 <= i < prompt_catalogue().len(),
        forall|j: int|
            0 <= j < prompt_catalogue()[i].arguments->0.len()
                && #[trigger] prompt_catalogue()[i].arguments->0[j].required == Some(true)
                ==> args.contains_key(prompt_catalogue()[i].arguments->0[j].name),
    ensures
        prompt_result(prompt_catalogue()[i].name, args) is Ok,
{
    lemma_prompt_names_distinct();
    if i == 0 {
        assert(prompt_catalogue()[0].arguments->0[0].required == Some(true));
        assert(prompt_catalogue()[0].arguments->0[1].required == Some(true));
    }
}

/// A name that `prompts/list` does not offer is refused as an invalid
/// parameter naming the prompt.
pub proof fn law_unlisted_prompts_are_refused(name: Seq<char>, args: Map<Seq<char>, Seq<char>>)
    requires
        forall|i: int| 0 <= i < prompt_catalogue().len() ==> #[trigger] prompt_catalogue()[i].name != name,
    ensures
        prompt_result(name, args) == Err::<PromptsGetView, ErrorView>(
            ErrorView::InvalidParams(UNKNOWN_PROMPT@ + name),
        ),
{
    assert(prompt_catalogue()[0].name != name);
    assert(prompt_catalogue()[1].name != name);
    assert(prompt_catalogue()[2].name != name);
    assert(prompt_catalogue()[3].name != name);
    assert(prompt_catalogue()[4].name != name);
}

/// The create-weaver prompt is refused when one of its required arguments
/// is missing.
pub proof fn law_missing_required_argument_is_refused(args: Map<Seq<char>, Seq<char>>)
    requires
        !args.contains_key(ARG_LANGUAGE@) || !args.contains_key(ARG_ORG_ID@),
    ensures
        prompt_result(CREATE_WEAVER@, args) is Err,
        prompt_result(CREATE_WEAVER@, args)->Err_0 is InvalidParams,
{
}

/// A filled prompt is one message, spoken by the user, with a description.
pub proof fn law_filled_prompt_is_one_user_message(name: Seq<char>, args: Map<Seq<char>, Seq<char>>)
    ensures
        prompt_result(name, args) matches Ok(v) ==> v.messages.len() == 1 && v.messages[0].role
            == PromptRole::User && v.description is Some,
{
}

/// A code-review focus other than security, performance or style (compared
/// in lowercase) gets the same review text as no focus at all: the general
/// checklist. Only the description names the focus that was given.
pub proof fn law_unknown_focus_reviews_everything(args: Map<Seq<char>, Seq<char>>)
    requires
        args.contains_key(ARG_FOCUS@),
        lowercase_of(args[ARG_FOCUS@]) != "security"@,
        lowercase_of(args[ARG_FOCUS@]) != "performance"@,
        lowercase_of(args[ARG_FOCUS@]) != "style"@,
    ensures
        prompt_result(CODE_REVIEW@, args) matches Ok(v) && prompt_result(
            CODE_REVIEW@,
            args.remove(ARG_FOCUS@),
        ) matches Ok(d) && v.messages == d.messages && v.description == Some(
            CR_DESC_0@ + args[ARG_FOCUS@] + CR_DESC_1@,
        ),
        code_review_result(args).messages == code_review_result(args.remove(ARG_FOCUS@)).messages,
        code_review_result(args).description == Some(CR_DESC_0@ + args[ARG_FOCUS@] + CR_DESC_1@),
{
    lemma_prompt_names_distinct();
    reveal_strlit("all");
    reveal_strlit("security");
    reveal_strlit("performance");
    reveal_strlit("style");
    assert(DEFAULT_FOCUS@.len() == 3);
    assert("security"@.len() == 8);
    assert("performance"@.len() == 11);
    assert("style"@.len() == 5);
    assert(DEFAULT_FOCUS@ != "security"@);
    assert(DEFAULT_FOCUS@ != "performance"@);
    assert(DEFAULT_FOCUS@ != "style"@);
    assert(!args.remove(ARG_FOCUS@).contains_key(ARG_FOCUS@));
}

/// The create-weaver prompt filled for `args` recommends `image`, `memory`
/// and `cpu`.
pub open spec fn suggests_profile(args: Map<Seq<char>, Seq<char>>, image: Seq<char>, memory: Seq<char>, cpu: Seq<char>) -> bool {
    prompt_result(CREATE_WEAVER@, args) == Ok::<PromptsGetView, ErrorView>(
        user_text(
            CW_DESC_0@ + args[ARG_LANGUAGE@] + CW_DESC_1@,
            create_weaver_text(args[ARG_LANGUAGE@], image, memory, cpu, args[ARG_ORG_ID@]),
        ),
    )
}

/// The language table of the create-weaver prompt, by the lowercase of the
/// language given: python and py get `python:3.12-slim`; node, nodejs,
/// javascript, js, typescript and ts get `node:20-slim`; rust gets
/// `rust:1.75-slim` with 4Gi and 2 CPUs; go and golang get
/// `golang:1.22-alpine`; ruby gets `ruby:3.3-slim`; java gets
/// `eclipse-temurin:21-jdk` with 4Gi and 2 CPUs; dotnet, csharp and c# get
/// the .NET 8 SDK with 4Gi and 2 CPUs; any other language gets
/// `ubuntu:22.04`. Images not named otherwise come with 2Gi and 1 CPU.
pub proof fn law_language_table(args: Map<Seq<char>, Seq<char>>)
    requires
        args.contains_key(ARG_LANGUAGE@),
        args.contains_key(ARG_ORG_ID@),
    ensures
        ({
            let l = lowercase_of(args[ARG_LANGUAGE@]);
            &&& (l == "python"@ || l == "py"@) ==> suggests_profile(args, "python:3.12-slim"@, "2Gi"@, "1"@)
            &&& (l == "node"@ || l == "nodejs"@ || l == "javascript"@ || l == "js"@ || l == "typescript"@
                || l == "ts"@) ==> suggests_profile(args, "node:20-slim"@, "2Gi"@, "1"@)
            &&& l == "rust"@ ==> suggests_profile(args, "rust:1.75-slim"@, "4Gi"@, "2"@)
            &&& (l == "go"@ || l == "golang"@) ==> suggests_profile(args, "golang:1.22-alpine"@, "2Gi"@, "1"@)
            &&& l == "ruby"@ ==> suggests_profile(args, "ruby:3.3-slim"@, "2Gi"@, "1"@)
            &&& l == "java"@ ==> suggests_profile(args, "eclipse-temurin:21-jdk"@, "4Gi"@, "2"@)
            &&& (l == "dotnet"@ || l == "csharp"@ || l == "c#"@) ==> suggests_profile(
                args,
                "mcr.microsoft.com/dotnet/sdk:8.0"@,
                "4Gi"@,
                "2"@,
            )
            &&& !(l == "python"@ || l == "py"@ || l == "node"@ || l == "nodejs"@ || l == "javascript"@
                || l == "js"@ || l == "typescript"@ || l == "ts"@ || l == "rust"@ || l == "go"@ || l
                == "golang"@ || l == "ruby"@ || l == "java"@ || l == "dotnet"@ || l == "csharp"@ || l
                == "c#"@) ==> suggests_profile(args, "ubuntu:22.04"@, "2Gi"@, "1"@)
        }),
{
    let l = lowercase_of(args[ARG_LANGUAGE@]);
    assert(language_profile_spec("python"@) == ("python:3.12-slim"@, "2Gi"@, "1"@)) by {
        reveal_strlit("python");
        assert("python"@.len() == 6);
    }
    assert(language_profile_spec("py"@) == ("python:3.12-slim"@, "2Gi"@, "1"@)) by {
        reveal_strlit("py");
        assert("py"@.len() == 2);
        reveal_strlit("python");
        assert("python"@.len() == 6);
    }
    assert(language_profile_spec("node"@) == ("node:20-slim"@, "2Gi"@, "1"@)) by {
        reveal_strlit("node");
        assert("node"@.len() == 4);
        reveal_strlit("python");
        assert("python"@.len() == 6);
        reveal_strlit("py");
        assert("py"@.len() == 2);
    }
    assert(language_profile_spec("nodejs"@) == ("node:20-slim"@, "2Gi"@, "1"@)) by {
        reveal_strlit("nodejs");
        assert("nodejs"@.len() == 6);
        reveal_strlit("python");
        assert("python"@.len() == 6);
        assert("nodejs"@[0] != "python"@[0]);
        reveal_strlit("py");
        assert("py"@.len() == 2);
        reveal_strlit("node");
        assert("node"@.len() == 4);
    }
    assert(language_profile_spec("javascript"@) == ("node:20-slim"@, "2Gi"@, "1"@)) by {
        reveal_strlit("javascript");
        assert("javascript"@.len() == 10);
        reveal_strlit("python");
        assert("python"@.len() == 6);
        reveal_strlit("py");
        assert("py"@.len() == 2);
        reveal_strlit("node");
        assert("node"@.len() == 4);
        reveal_strlit("nodejs");
        assert("nodejs"@.len() == 6);
    }
    assert(language_profile_spec("js"@) == ("node:20-slim"@, "2Gi"@, "1"@)) by {
        reveal_strlit("js");
        assert("js"@.len() == 2);
        reveal_strlit("python");
        assert("python"@.len() == 6);
        reveal_strlit("py");
        assert("py"@.len() == 2);
        assert("js"@[0] != "py"@[0]);
        reveal_strlit("node");
        assert("node"@.len() == 4);
        reveal_strlit("nodejs");
        assert("nodejs"@.len() == 6);
        reveal_strlit("javascript");
        assert("javascript"@.len() == 10);
    }
    assert(language_profile_spec("typescript"@) == ("node:20-slim"@, "2Gi"@, "1"@)) by {
        reveal_strlit("typescript");
        assert("typescript"@.len() == 10);
        reveal_strlit("python");
        assert("python"@.len() == 6);
        reveal_strlit("py");
        assert("py"@.len() == 2);
        reveal_strlit("node");
        assert("node"@.len() == 4);
        reveal_strlit("nodejs");
        assert("nodejs"@.len() == 6);
        reveal_strlit("javascript");
        assert("javascript"@.len() == 10);
        assert("typescript"@[0] != "javascript"@[0]);
        reveal_strlit("js");
        assert("js"@.len() == 2);
    }
    assert(language_profile_spec("ts"@) == ("node:20-slim"@, "2Gi"@, "1"@)) by {
        reveal_strlit("ts");
        assert("ts"@.len() == 2);
        reveal_strlit("python");
        assert("python"@.len() == 6);
        reveal_strlit("py");
        assert("py"@.len() == 2);
        assert("ts"@[0] != "py"@[0]);
        reveal_strlit("node");
        assert("node"@.len() == 4);
        reveal_strlit("nodejs");
        assert("nodejs"@.len() == 6);
        reveal_strlit("javascript");
        assert("javascript"@.len() == 10);
        reveal_strlit("js");
        assert("js"@.len() == 2);
        assert("ts"@[0] != "js"@[0]);
        reveal_strlit("typescript");
        assert("typescript"@.len() == 10);
    }
    assert(language_profile_spec("rust"@) == ("rust:1.75-slim"@, "4Gi"@, "2"@)) by {
        reveal_strlit("rust");
        assert("rust"@.len() == 4);
        reveal_strlit("python");
        assert("python"@.len() == 6);
        reveal_strlit("py");
        assert("py"@.len() == 2);
        reveal_strlit("node");
        assert("node"@.len() == 4);
        assert("rust"@[0] != "node"@[0]);
        reveal_strlit("nodejs");
        assert("nodejs"@.len() == 6);
        reveal_strlit("javascript");
        assert("javascript"@.len() == 10);
        reveal_strlit("js");
        assert("js"@.len() == 2);
        reveal_strlit("typescript");
        assert("typescript"@.len() == 10);
        reveal_strlit("ts");
        assert("ts"@.len() == 2);
    }
    assert(language_profile_spec("go"@) == ("golang:1.22-alpine"@, "2Gi"@, "1"@)) by {
        reveal_strlit("go");
        assert("go"@.len() == 2);
        reveal_strlit("python");
        assert("python"@.len() == 6);
        reveal_strlit("py");
        assert("py"@.len() == 2);
        assert("go"@[0] != "py"@[0]);
        reveal_strlit("node");
        assert("node"@.len() == 4);
        reveal_strlit("nodejs");
        assert("nodejs"@.len() == 6);
        reveal_strlit("javascript");
        assert("javascript"@.len() == 10);
        reveal_strlit("js");
        assert("js"@.len() == 2);
        assert("go"@[0] != "js"@[0]);
        reveal_strlit("typescript");
        assert("typescript"@.len() == 10);
        reveal_strlit("ts");
        assert("ts"@.len() == 2);
        assert("go"@[0] != "ts"@[0]);
        reveal_strlit("rust");
        assert("rust"@.len() == 4);
    }
    assert(language_profile_spec("golang"@) == ("golang:1.22-alpine"@, "2Gi"@, "1"@)) by {
        reveal_strlit("golang");
        assert("golang"@.len() == 6);
        reveal_strlit("python");
        assert("python"@.len() == 6);
        assert("golang"@[0] != "python"@[0]);
        reveal_strlit("py");
        assert("py"@.len() == 2);
        reveal_strlit("node");
        assert("node"@.len() == 4);
        reveal_strlit("nodejs");
        assert("nodejs"@.len() == 6);
        assert("golang"@[0] != "nodejs"@[0]);
        reveal_strlit("javascript");
        assert("javascript"@.len() == 10);
        reveal_strlit("js");
        assert("js"@.len() == 2);
        reveal_strlit("typescript");
        assert("typescript"@.len() == 10);
        reveal_strlit("ts");
        assert("ts"@.len() == 2);
        reveal_strlit("rust");
        assert("rust"@.len() == 4);
        reveal_strlit("go");
        assert("go"@.len() == 2);
    }
    assert(language_profile_spec("ruby"@) == ("ruby:3.3-slim"@, "2Gi"@, "1"@)) by {
        reveal_strlit("ruby");
        assert("ruby"@.len() == 4);
        reveal_strlit("python");
        assert("python"@.len() == 6);
        reveal_strlit("py");
        assert("py"@.len() == 2);
        reveal_strlit("node");
        assert("node"@.len() == 4);
        assert("ruby"@[0] != "node"@[0]);
        reveal_strlit("nodejs");
        assert("nodejs"@.len() == 6);
        reveal_strlit("javascript");
        assert("javascript"@.len() == 10);
        reveal_strlit("js");
        assert("js"@.len() == 2);
        reveal_strlit("typescript");
        assert("typescript"@.len() == 10);
        reveal_strlit("ts");
        assert("ts"@.len() == 2);
        reveal_strlit("rust");
        assert("rust"@.len() == 4);
        assert("ruby"@[2] != "rust"@[2]);
        reveal_strlit("go");
        assert("go"@.len() == 2);
        reveal_strlit("golang");
        assert("golang"@.len() == 6);
    }
    assert(language_profile_spec("java"@) == ("eclipse-temurin:21-jdk"@, "4Gi"@, "2"@)) by {
        reveal_strlit("java");
        assert("java"@.len() == 4);
        reveal_strlit("python");
        assert("python"@.len() == 6);
        reveal_strlit("py");
        assert("py"@.len() == 2);
        reveal_strlit("node");
        assert("node"@.len() == 4);
        assert("java"@[0] != "node"@[0]);
        reveal_strlit("nodejs");
        assert("nodejs"@.len() == 6);
        reveal_strlit("javascript");
        assert("javascript"@.len() == 10);
        reveal_strlit("js");
        assert("js"@.len() == 2);
        reveal_strlit("typescript");
        assert("typescript"@.len() == 10);
        reveal_strlit("ts");
        assert("ts"@.len() == 2);
        reveal_strlit("rust");
        assert("rust"@.len() == 4);
        assert("java"@[0] != "rust"@[0]);
        reveal_strlit("go");
        assert("go"@.len() == 2);
        reveal_strlit("golang");
        assert("golang"@.len() == 6);
        reveal_strlit("ruby");
        assert("ruby"@.len() == 4);
        assert("java"@[0] != "ruby"@[0]);
    }
    assert(language_profile_spec("dotnet"@) == ("mcr.microsoft.com/dotnet/sdk:8.0"@, "4Gi"@, "2"@)) by {
        reveal_strlit("dotnet");
        assert("dotnet"@.len() == 6);
        reveal_strlit("python");
        assert("python"@.len() == 6);
        assert("dotnet"@[0] != "python"@[0]);
        reveal_strlit("py");
        assert("py"@.len() == 2);
        reveal_strlit("node");
        assert("node"@.len() == 4);
        reveal_strlit("nodejs");
        assert("nodejs"@.len() == 6);
        assert("dotnet"@[0] != "nodejs"@[0]);
        reveal_strlit("javascript");
        assert("javascript"@.len() == 10);
        reveal_strlit("js");
        assert("js"@.len() == 2);
        reveal_strlit("typescript");
        assert("typescript"@.len() == 10);
        reveal_strlit("ts");
        assert("ts"@.len() == 2);
        reveal_strlit("rust");
        assert("rust"@.len() == 4);
        reveal_strlit("go");
        assert("go"@.len() == 2);
        reveal_strlit("golang");
        assert("golang"@.len() == 6);
        assert("dotnet"@[0] != "golang"@[0]);
        reveal_strlit("ruby");
        assert("ruby"@.len() == 4);
        reveal_strlit("java");
        assert("java"@.len() == 4);
    }
    assert(language_profile_spec("csharp"@) == ("mcr.microsoft.com/dotnet/sdk:8.0"@, "4Gi"@, "2"@)) by {
        reveal_strlit("csharp");
        assert("csharp"@.len() == 6);
        reveal_strlit("python");
        assert("python"@.len() == 6);
        assert("csharp"@[0] != "python"@[0]);
        reveal_strlit("py");
        assert("py"@.len() == 2);
        reveal_strlit("node");
        assert("node"@.len() == 4);
        reveal_strlit("nodejs");
        assert("nodejs"@.len() == 6);
        assert("csharp"@[0] != "nodejs"@[0]);
        reveal_strlit("javascript");
        assert("javascript"@.len() == 10);
        reveal_strlit("js");
        assert("js"@.len() == 2);
        reveal_strlit("typescript");
        assert("typescript"@.len() == 10);
        reveal_strlit("ts");
        assert("ts"@.len() == 2);
        reveal_strlit("rust");
        assert("rust"@.len() == 4);
        reveal_strlit("go");
        assert("go"@.len() == 2);
        reveal_strlit("golang");
        assert("golang"@.len() == 6);
        assert("csharp"@[0] != "golang"@[0]);
        reveal_strlit("ruby");
        assert("ruby"@.len() == 4);
        reveal_strlit("java");
        assert("java"@.len() == 4);
        reveal_strlit("dotnet");
        assert("dotnet"@.len() == 6);
        assert("csharp"@[0] != "dotnet"@[0]);
    }
    assert(language_profile_spec("c#"@) == ("mcr.microsoft.com/dotnet/sdk:8.0"@, "4Gi"@, "2"@)) by {
        reveal_strlit("c#");
        assert("c#"@.len() == 2);
        reveal_strlit("python");
        assert("python"@.len() == 6);
        reveal_strlit("py");
        assert("py"@.len() == 2);
        assert("c#"@[0] != "py"@[0]);
        reveal_strlit("node");
        assert("node"@.len() == 4);
        reveal_strlit("nodejs");
        assert("nodejs"@.len() == 6);
        reveal_strlit("javascript");
        assert("javascript"@.len() == 10);
        reveal_strlit("js");
        assert("js"@.len() == 2);
        assert("c#"@[0] != "js"@[0]);
        reveal_strlit("typescript");
        assert("typescript"@.len() == 10);
        reveal_strlit("ts");
        assert("ts"@.len() == 2);
        assert("c#"@[0] != "ts"@[0]);
        reveal_strlit("rust");
        assert("rust"@.len() == 4);
        reveal_strlit("go");
        assert("go"@.len() == 2);
        assert("c#"@[0] != "go"@[0]);
        reveal_strlit("golang");
        assert("golang"@.len() == 6);
        reveal_strlit("ruby");
        assert("ruby"@.len() == 4);
        reveal_strlit("java");
        assert("java"@.len() == 4);
        reveal_strlit("dotnet");
        assert("dotnet"@.len() == 6);
        reveal_strlit("csharp");
        assert("csharp"@.len() == 6);
    }
    if !(l == "python"@ || l == "py"@ || l == "node"@ || l == "nodejs"@ || l == "javascript"@
        || l == "js"@ || l == "typescript"@ || l == "ts"@ || l == "rust"@ || l == "go"@ || l
        == "golang"@ || l == "ruby"@ || l == "java"@ || l == "dotnet"@ || l == "csharp"@ || l
        == "c#"@) {
        assert(language_profile_spec(l) == ("ubuntu:22.04"@, "2Gi"@, "1"@));
    }
}

/// An argument that `prompts/list` declares as required is needed: without
/// it, `prompts/get` refuses the prompt.
pub proof fn law_required_arguments_are_needed(i: int, j: int, args: Map<Seq<char>, Seq<char>>)
    requires
        0 <= i < prompt_catalogue().len(),
        0 <= j < prompt_catalogue()[i].arguments->0.len(),
        prompt_catalogue()[i].arguments->0[j].required == Some(true),
        !args.contains_key(prompt_catalogue()[i].arguments->0[j].name),
    ensures
        prompt_result(prompt_catalogue()[i].name, args) is Err,
{
    lemma_prompt_names_distinct();
}

/// The review instructions by the lowercase of the focus given: security,
/// performance and style get their own checklist; any other focus, and no
/// focus, the general one.
pub proof fn law_focus_table(args: Map<Seq<char>, Seq<char>>)
    ensures
        ({
            let f = arg_or(args, ARG_FOCUS@, DEFAULT_FOCUS@);
            let l = lowered_or(args, ARG_FOCUS@, DEFAULT_FOCUS@);
            let reviewed = |x: Seq<char>| prompt_result(CODE_REVIEW@, args) == Ok::<PromptsGetView, ErrorView>(
                user_text(CR_DESC_0@ + f + CR_DESC_1@, CR_TEXT_0@ + x + CR_TEXT_1@),
            );
            &&& l == "security"@ ==> reviewed(FOCUS_SECURITY@)
            &&& l == "performance"@ ==> reviewed(FOCUS_PERFORMANCE@)
            &&& l == "style"@ ==> reviewed(FOCUS_STYLE@)
            &&& !(l == "security"@ || l == "performance"@ || l == "style"@) ==> reviewed(FOCUS_ALL@)
            &&& !args.contains_key(ARG_FOCUS@) ==> reviewed(FOCUS_ALL@)
        }),
{
    lemma_prompt_names_distinct();
    reveal_strlit("all");
    reveal_strlit("security");
    reveal_strlit("performance");
    reveal_strlit("style");
    assert(DEFAULT_FOCUS@.len() == 3);
    assert("security"@.len() == 8);
    assert("performance"@.len() == 11);
    assert("style"@.len() == 5);
}

/// The explanation instructions by the lowercase of the detail level
/// given: overview and expert get their own; any other level, and none, the
/// detailed explanation.
pub proof fn law_detail_level_table(args: Map<Seq<char>, Seq<char>>)
    ensures
        ({
            let d = arg_or(args, ARG_DETAIL_LEVEL@, DEFAULT_DETAIL_LEVEL@);
            let l = lowered_or(args, ARG_DETAIL_LEVEL@, DEFAULT_DETAIL_LEVEL@);
            let explained = |x: Seq<char>| prompt_result(EXPLAIN_CODE@, args) == Ok::<PromptsGetView, ErrorView>(
                user_text(d + EC_DESC_1@, EC_TEXT_0@ + x + EC_TEXT_1@),
            );
            &&& l == "overview"@ ==> explained(DETAIL_OVERVIEW@)
            &&& l == "expert"@ ==> explained(DETAIL_EXPERT@)
            &&& !(l == "overview"@ || l == "expert"@) ==> explained(DETAIL_DETAILED@)
            &&& !args.contains_key(ARG_DETAIL_LEVEL@) ==> explained(DETAIL_DETAILED@)
        }),
{
    lemma_prompt_names_distinct();
    reveal_strlit("detailed");
    reveal_strlit("overview");
    reveal_strlit("expert");
    assert(DEFAULT_DETAIL_LEVEL@.len() == 8);
    assert("overview"@.len() == 8);
    assert("expert"@.len() == 6);
    assert(DEFAULT_DETAIL_LEVEL@[0] != "overview"@[0]);
}

/// The test-writing instructions by the lowercase of the test type given,
/// when no framework is named: integration gets integration tests; e2e and
/// end-to-end get end-to-end tests; property and property-based get
/// property-based tests; any other type, and none, unit tests.
pub proof fn law_test_type_table(args: Map<Seq<char>, Seq<char>>)
    requires
        !args.contains_key(ARG_FRAMEWORK@),
    ensures
        ({
            let t = arg_or(args, ARG_TEST_TYPE@, DEFAULT_TEST_TYPE@);
            let l = lowered_or(args, ARG_TEST_TYPE@, DEFAULT_TEST_TYPE@);
            let written = |x: Seq<char>| prompt_result(WRITE_TESTS@, args) == Ok::<PromptsGetView, ErrorView>(
                user_text(WT_DESC_0@ + t + WT_DESC_1@, WT_TEXT_0@ + x + WT_TEXT_1@),
            );
            &&& l == "integration"@ ==> written(TESTS_INTEGRATION@)
            &&& (l == "e2e"@ || l == "end-to-end"@) ==> written(TESTS_E2E@)
            &&& (l == "property"@ || l == "property-based"@) ==> written(TESTS_PROPERTY@)
            &&& !(l == "integration"@ || l == "e2e"@ || l == "end-to-end"@ || l == "property"@ || l
                == "property-based"@) ==> written(TESTS_UNIT@)
            &&& !args.contains_key(ARG_TEST_TYPE@) ==> written(TESTS_UNIT@)
        }),
{
    lemma_prompt_names_distinct();
    reveal_strlit("unit");
    reveal_strlit("integration");
    reveal_strlit("e2e");
    reveal_strlit("end-to-end");
    reveal_strlit("property");
    reveal_strlit("property-based");
    assert(DEFAULT_TEST_TYPE@.len() == 4);
    assert("integration"@.len() == 11);
    assert("e2e"@.len() == 3);
    assert("end-to-end"@.len() == 10);
    assert("property"@.len() == 8);
    assert("property-based"@.len() == 14);
    assert(WT_TEXT_0@ + TESTS_UNIT@ + Seq::<char>::empty() + WT_TEXT_1@ =~= WT_TEXT_0@ + TESTS_UNIT@ + WT_TEXT_1@);
}

} // verus!
