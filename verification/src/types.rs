//! Protocol values handed back to MCP clients, each with a view over
//! character sequences that the contracts speak of.

use vstd::prelude::*;

use crate::json::{json_view, JsonValue, JsonView};
use crate::string_map::StringMap;

verus! {

/// The text view of an optional string.
pub open spec fn opt_text(o: Option<String>) -> Option<Seq<char>> {
    match o {
        Some(s) => Some(s@),
        None => None,
    }
}

/// An argument that a prompt accepts.
#[derive(Debug)]
pub struct PromptArgument {
    pub name: String,
    pub description: Option<String>,
    pub required: Option<bool>,
}

/// What a prompt argument says: its name, description and whether it is required.
pub struct ArgumentView {
    pub name: Seq<char>,
    pub description: Option<Seq<char>>,
    pub required: Option<bool>,
}

impl View for PromptArgument {
    type V = ArgumentView;

    open spec fn view(&self) -> ArgumentView {
        ArgumentView {
            name: self.name@,
            description: opt_text(self.description),
            required: self.required,
        }
    }
}

/// A prompt template offered to clients.
#[derive(Debug)]
pub struct Prompt {
    pub name: String,
    pub description: Option<String>,
    pub arguments: Option<Vec<PromptArgument>>,
}

/// What a prompt says: its name, description and arguments.
pub struct PromptView {
    pub name: Seq<char>,
    pub description: Option<Seq<char>>,
    pub arguments: Option<Seq<ArgumentView>>,
}

impl View for Prompt {
    type V = PromptView;

    open spec fn view(&self) -> PromptView {
        PromptView {
            name: self.name@,
            description: opt_text(self.description),
            arguments: match self.arguments {
                Some(v) => Some(v@.map_values(|a: PromptArgument| a@)),
                None => None,
            },
        }
    }
}

/// The answer to `prompts/list`.
#[derive(Debug)]
pub struct PromptsListResult {
    pub prompts: Vec<Prompt>,
}

impl View for PromptsListResult {
    type V = Seq<PromptView>;

    open spec fn view(&self) -> Seq<PromptView> {
        self.prompts@.map_values(|p: Prompt| p@)
    }
}

/// Who speaks a prompt message.
#[derive(PartialEq, Eq, Structural, Clone, Copy, Debug)]
pub enum PromptRole {
    User,
    Assistant,
}

/// The body of a prompt message.
#[derive(Debug)]
pub enum PromptContent {
    Text { text: String },
}

/// One message of a filled prompt.
#[derive(Debug)]
pub struct PromptMessage {
    pub role: PromptRole,
    pub content: PromptContent,
}

/// What a prompt message says: its speaker and its text.
pub struct MessageView {
    pub role: PromptRole,
    pub text: Seq<char>,
}

impl View for PromptMessage {
    type V = MessageView;

    open spec fn view(&self) -> MessageView {
        MessageView {
            role: self.role,
            text: match self.content {
                PromptContent::Text { text } => text@,
            },
        }
    }
}

/// The answer to `prompts/get`.
#[derive(Debug)]
pub struct PromptsGetResult {
    pub description: Option<String>,
    pub messages: Vec<PromptMessage>,
}

/// What a filled prompt says: its description and its messages.
pub struct PromptsGetView {
    pub description: Option<Seq<char>>,
    pub messages: Seq<MessageView>,
}

impl View for PromptsGetResult {
    type V = PromptsGetView;

    open spec fn view(&self) -> PromptsGetView {
        PromptsGetView {
            description: opt_text(self.description),
            messages: self.messages@.map_values(|m: PromptMessage| m@),
        }
    }
}

/// A resource that clients can read.
#[derive(Debug)]
pub struct Resource {
    pub uri: String,
    pub name: String,
    pub description: Option<String>,
    pub mime_type: Option<String>,
}

/// What a resource or resource template says: its URI (or URI template),
/// name, description and MIME type.
pub struct ResourceView {
    pub uri: Seq<char>,
    pub name: Seq<char>,
    pub description: Option<Seq<char>>,
    pub mime_type: Option<Seq<char>>,
}

impl View for Resource {
    type V = ResourceView;

    open spec fn view(&self) -> ResourceView {
        ResourceView {
            uri: self.uri@,
            name: self.name@,
            description: opt_text(self.description),
            mime_type: opt_text(self.mime_type),
        }
    }
}

/// The answer to `resources/list`.
#[derive(Debug)]
pub struct ResourcesListResult {
    pub resources: Vec<Resource>,
}

impl View for ResourcesListResult {
    type V = Seq<ResourceView>;

    open spec fn view(&self) -> Seq<ResourceView> {
        self.resources@.map_values(|r: Resource| r@)
    }
}

/// A parameterised resource URI.
#[derive(Debug)]
pub struct ResourceTemplate {
    pub uri_template: String,
    pub name: String,
    pub description: Option<String>,
    pub mime_type: Option<String>,
}

impl View for ResourceTemplate {
    type V = ResourceView;

    open spec fn view(&self) -> ResourceView {
        ResourceView {
            uri: self.uri_template@,
            name: self.name@,
            description: opt_text(self.description),
            mime_type: opt_text(self.mime_type),
        }
    }
}

/// The answer to `resources/templates/list`.
#[derive(Debug)]
pub struct ResourceTemplatesListResult {
    pub resource_templates: Vec<ResourceTemplate>,
}

impl View for ResourceTemplatesListResult {
    type V = Seq<ResourceView>;

    open spec fn view(&self) -> Seq<ResourceView> {
        self.resource_templates@.map_values(|r: ResourceTemplate| r@)
    }
}

/// A piece of a resource's contents.
#[derive(Debug)]
pub enum ResourceContent {
    Text { text: String, mime_type: Option<String> },
}

/// The answer to `resources/read`.
#[derive(Debug)]
pub struct ResourcesReadResult {
    pub contents: Vec<ResourceContent>,
}

/// A tool that clients can call.
#[derive(Debug)]
pub struct Tool {
    pub name: String,
    pub description: String,
    pub input_schema: JsonValue,
}

/// What a tool declaration says: its name, description and input schema.
pub struct ToolView {
    pub name: Seq<char>,
    pub description: Seq<char>,
    pub input_schema: JsonView,
}

impl View for Tool {
    type V = ToolView;

    open spec fn view(&self) -> ToolView {
        ToolView {
            name: self.name@,
            description: self.description@,
            input_schema: json_view(self.input_schema),
        }
    }
}

/// The answer to `tools/list`.
#[derive(Debug)]
pub struct ToolsListResult {
    pub tools: Vec<Tool>,
}

impl View for ToolsListResult {
    type V = Seq<ToolView>;

    open spec fn view(&self) -> Seq<ToolView> {
        self.tools@.map_values(|t: Tool| t@)
    }
}

/// One piece of a tool's answer.
#[derive(Debug)]
pub enum ToolContent {
    Text { text: String },
}

/// The answer to `tools/call`.
#[derive(Debug)]
pub struct ToolsCallResult {
    pub content: Vec<ToolContent>,
    pub is_error: bool,
}

impl ToolsCallResult {
    /// The texts of the answer's pieces.
    pub open spec fn texts(&self) -> Seq<Seq<char>> {
        self.content@.map_values(|c: ToolContent| match c {
            ToolContent::Text { text } => text@,
        })
    }

    /// The answer is the single text `t`, and no error.
    pub open spec fn is_text(&self, t: Seq<char>) -> bool {
        &&& self.texts() == seq![t]
        &&& !self.is_error
    }

    /// A successful answer made of one text.
    pub fn text(text: String) -> (r: Self)
        ensures
            r.is_text(text@),
    {
        let ghost t = text@;
        let mut content: Vec<ToolContent> = Vec::new();
        content.push(ToolContent::Text { text });
        let r = ToolsCallResult { content, is_error: false };
        assert(r.texts() =~= seq![t]);
        r
    }
}

/// Arguments of the `create_weaver` tool.
#[derive(Debug)]
pub struct CreateWeaverArgs {
    pub image: String,
    pub org_id: String,
    pub env: StringMap,
    pub memory_limit: Option<String>,
    pub cpu_limit: Option<String>,
    pub lifetime_hours: Option<u32>,
    pub tags: StringMap,
}

/// Arguments of the `list_weavers` tool; all are optional.
#[derive(Debug)]
pub struct ListWeaversArgs {
    pub org_id: Option<String>,
    pub status: Option<String>,
    pub tags: StringMap,
}

impl Default for ListWeaversArgs {
    /// No filter at all: the arguments of a list_weavers call that gives none.
    fn default() -> (r: Self)
        ensures
            r.org_id is None,
            r.status is None,
            r.tags@ == Map::<Seq<char>, Seq<char>>::empty(),
            r.tags.pairs() == Seq::<(Seq<char>, Seq<char>)>::empty(),
    {
        ListWeaversArgs { org_id: None, status: None, tags: StringMap::new() }
    }
}

/// Arguments of the `get_weaver` tool.
#[derive(Debug)]
pub struct GetWeaverArgs {
    pub weaver_id: String,
}

/// Arguments of the `delete_weaver` tool.
#[derive(Debug)]
pub struct DeleteWeaverArgs {
    pub weaver_id: String,
}

/// Arguments of the `attach_weaver` tool.
#[derive(Debug)]
pub struct AttachWeaverArgs {
    pub weaver_id: String,
}

} // verus!
