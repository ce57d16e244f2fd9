//! The tools capability: tool definitions, the dispatch of a tool call, and
//! what the weaver tools decide around the provisioner's work.

pub mod attach_weaver;
pub mod create_weaver;
pub mod delete_weaver;
pub mod get_weaver;
pub mod list_weavers;
pub mod schema;

use vstd::prelude::*;

use crate::access::{status_name, WeaverInfo};
use crate::error::McpError;
use crate::json::{JsonValue, JsonView};
use crate::string_map::{lemma_map_of, StringMap};
use crate::text::{decimal, joined, owned, push_decimal, str_eq};
use crate::types::{Tool, ToolView, ToolsListResult};

verus! {

/// The tools that `tools/list` declares, in order.
pub open spec fn tool_catalogue() -> Seq<ToolView> {
    seq![
        create_weaver::definition_view(),
        list_weavers::definition_view(),
        get_weaver::definition_view(),
        delete_weaver::definition_view(),
        attach_weaver::definition_view(),
    ]
}

/// The available tools.
pub fn list_tools() -> (r: ToolsListResult)
    ensures
        r@ == tool_catalogue(),
{
    let mut tools: Vec<Tool> = Vec::new();
    tools.push(create_weaver::definition());
    tools.push(list_weavers::definition());
    tools.push(get_weaver::definition());
    tools.push(delete_weaver::definition());
    tools.push(attach_weaver::definition());
    let r = ToolsListResult { tools };
    assert(r@ =~= tool_catalogue());
    r
}


/// The tools a call can name.
#[derive(PartialEq, Eq, Structural, Clone, Copy, Debug)]
pub enum ToolKind {
    CreateWeaver,
    ListWeavers,
    GetWeaver,
    DeleteWeaver,
    AttachWeaver,
}

/// The tool a name designates, if any.
pub open spec fn tool_named(name: Seq<char>) -> Option<ToolKind> {
    if name == create_weaver::NAME@ {
        Some(ToolKind::CreateWeaver)
    } else if name == list_weavers::NAME@ {
        Some(ToolKind::ListWeavers)
    } else if name == get_weaver::NAME@ {
        Some(ToolKind::GetWeaver)
    } else if name == delete_weaver::NAME@ {
        Some(ToolKind::DeleteWeaver)
    } else if name == attach_weaver::NAME@ {
        Some(ToolKind::AttachWeaver)
    } else {
        None
    }
}

/// The name of a tool.
pub open spec fn tool_name(kind: ToolKind) -> Seq<char> {
    match kind {
        ToolKind::CreateWeaver => create_weaver::NAME@,
        ToolKind::ListWeavers => list_weavers::NAME@,
        ToolKind::GetWeaver => get_weaver::NAME@,
        ToolKind::DeleteWeaver => delete_weaver::NAME@,
        ToolKind::AttachWeaver => attach_weaver::NAME@,
    }
}

/// Whether a call of the tool must carry arguments; list_weavers falls back
/// to its defaults.
pub open spec fn needs_arguments(kind: ToolKind) -> bool {
    kind != ToolKind::ListWeavers
}

pub const REQUIRES_ARGUMENTS: &'static str = " requires arguments";
pub const INVALID_ARGUMENTS_0: &'static str = "Invalid ";
pub const INVALID_ARGUMENTS_1: &'static str = " arguments: ";

impl ToolKind {
    /// The name of the tool.
    pub fn name(&self) -> (r: &'static str)
        ensures
            r@ == tool_name(*self),
    {
        match self {
            ToolKind::CreateWeaver => create_weaver::NAME,
            ToolKind::ListWeavers => list_weavers::NAME,
            ToolKind::GetWeaver => get_weaver::NAME,
            ToolKind::DeleteWeaver => delete_weaver::NAME,
            ToolKind::AttachWeaver => attach_weaver::NAME,
        }
    }

    /// The error for arguments of this tool that do not decode, with the
    /// decoder's explanation.
    pub fn invalid_arguments(&self, explanation: &str) -> (r: McpError)
        ensures
            r.is_invalid_params(INVALID_ARGUMENTS_0@ + tool_name(*self) + INVALID_ARGUMENTS_1@
                + explanation@),
    {
        let mut m = owned(INVALID_ARGUMENTS_0);
        m.append(self.name());
        m.append(INVALID_ARGUMENTS_1);
        m.append(explanation);
        McpError::InvalidParams(m)
    }
}

/// The first step of `tools/call`: decides which tool runs. An unknown name is answered with
/// `ToolNotFound`; a call without arguments of a tool that needs them is
/// invalid. Decoding the arguments that are present is left to the caller.
pub fn execute_tool(name: &str, has_arguments: bool) -> (r: Result<ToolKind, McpError>)
    ensures
        match tool_named(name@) {
            None => r matches Err(e) && e.is_tool_not_found(name@),
            Some(k) => if !has_arguments && needs_arguments(k) {
                r matches Err(e) && e.is_invalid_params(tool_name(k) + REQUIRES_ARGUMENTS@)
            } else {
                r == Ok::<ToolKind, McpError>(k)
            },
        },
{
    let kind = if str_eq(name, create_weaver::NAME) {
        ToolKind::CreateWeaver
    } else if str_eq(name, list_weavers::NAME) {
        ToolKind::ListWeavers
    } else if str_eq(name, get_weaver::NAME) {
        ToolKind::GetWeaver
    } else if str_eq(name, delete_weaver::NAME) {
        ToolKind::DeleteWeaver
    } else if str_eq(name, attach_weaver::NAME) {
        ToolKind::AttachWeaver
    } else {
        return Err(McpError::ToolNotFound(owned(name)));
    };
    if !has_arguments && kind != ToolKind::ListWeavers {
        let mut m = owned(kind.name());
        m.append(REQUIRES_ARGUMENTS);
        return Err(McpError::InvalidParams(m));
    }
    Ok(kind)
}

pub const NO_PROVISIONER: &'static str = "Weaver provisioner not configured on this server";
pub const INVALID_WEAVER_ID: &'static str = "Invalid weaver_id format: ";

/// The check that comes before any call to the weaver provisioner: the
/// server must have one.
pub fn require_provisioner(provisioner_configured: bool) -> (r: Result<(), McpError>)
    ensures
        provisioner_configured ==> r is Ok,
        !provisioner_configured ==> (r matches Err(e) && e.is_internal(NO_PROVISIONER@)),
{
    if !provisioner_configured {
        return Err(McpError::Internal(owned(NO_PROVISIONER)));
    }
    Ok(())
}
pub const NO_READ_ACCESS: &'static str = "You don't have access to this weaver";

/// The checks that come before a weaver is fetched by id: the server must
/// have a provisioner, and the id must be a weaver id (`id_is_valid`, as the
/// weaver id parser decided).
pub fn start_weaver_lookup(provisioner_configured: bool, weaver_id: &str, id_is_valid: bool) -> (r: Result<(), McpError>)
    ensures
        !provisioner_configured ==> (r matches Err(e) && e.is_internal(NO_PROVISIONER@)),
        provisioner_configured && !id_is_valid ==> (r matches Err(e) && e.is_invalid_params(
            INVALID_WEAVER_ID@ + weaver_id@,
        )),
        provisioner_configured && id_is_valid ==> r is Ok,
{
    if !provisioner_configured {
        return Err(McpError::Internal(owned(NO_PROVISIONER)));
    }
    if !id_is_valid {
        let mut m = owned(INVALID_WEAVER_ID);
        m.append(weaver_id);
        return Err(McpError::InvalidParams(m));
    }
    Ok(())
}

/// The names of the tools are distinct texts.
proof fn lemma_tool_names_distinct()
    ensures
        create_weaver::NAME@ != list_weavers::NAME@,
        create_weaver::NAME@ != get_weaver::NAME@,
        create_weaver::NAME@ != delete_weaver::NAME@,
        create_weaver::NAME@ != attach_weaver::NAME@,
        list_weavers::NAME@ != get_weaver::NAME@,
        list_weavers::NAME@ != delete_weaver::NAME@,
        list_weavers::NAME@ != attach_weaver::NAME@,
        get_weaver::NAME@ != delete_weaver::NAME@,
        get_weaver::NAME@ != attach_weaver::NAME@,
        delete_weaver::NAME@ != attach_weaver::NAME@,
{
    reveal_strlit("create_weaver");
    reveal_strlit("list_weavers");
    reveal_strlit("get_weaver");
    reveal_strlit("delete_weaver");
    reveal_strlit("attach_weaver");
    assert(create_weaver::NAME@.len() == 13);
    assert(list_weavers::NAME@.len() == 12);
    assert(get_weaver::NAME@.len() == 10);
    assert(delete_weaver::NAME@.len() == 13);
    assert(attach_weaver::NAME@.len() == 13);
    assert(create_weaver::NAME@[0] != delete_weaver::NAME@[0]);
    assert(create_weaver::NAME@[0] != attach_weaver::NAME@[0]);
    assert(delete_weaver::NAME@[0] != attach_weaver::NAME@[0]);
}

/// Every tool that `tools/list` declares can be called by its name: the
/// call is routed to that tool, and it names the tool back.
pub proof fn law_listed_tools_are_callable(i: int)
    requires
        0 <= i < tool_catalogue().len(),
    ensures
        tool_named(tool_catalogue()[i].name) matches Some(k) && tool_name(k) == tool_catalogue()[i].name,
{
    lemma_tool_names_distinct();
}

/// A name that `tools/list` does not declare designates no tool, so its
/// call is answered with `ToolNotFound`.
pub proof fn law_unlisted_tools_are_not_found(name: Seq<char>)
    requires
        forall|i: int| 0 <= i < tool_catalogue().len() ==> #[trigger] tool_catalogue()[i].name != name,
    ensures
        tool_named(name) is None,
{
    assert(tool_catalogue()[0].name != name);
    assert(tool_catalogue()[1].name != name);
    assert(tool_catalogue()[2].name != name);
    assert(tool_catalogue()[3].name != name);
    assert(tool_catalogue()[4].name != name);
}

/// The schema is an object with a `required` member.
pub open spec fn schema_has_required(v: JsonView) -> bool {
    v matches JsonView::Object(m) && exists|j: int| 0 <= j < m.len() && #[trigger] m[j].0 == "required"@
}

/// A tool needs arguments exactly when its input schema declares required ones.
pub proof fn law_arguments_needed_when_schema_requires_them(i: int)
    requires
        0 <= i < tool_catalogue().len(),
    ensures
        tool_named(tool_catalogue()[i].name) matches Some(k) && (needs_arguments(k)
            <==> schema_has_required(tool_catalogue()[i].input_schema)),
{
    lemma_tool_names_distinct();
    reveal_strlit("required");
    reveal_strlit("type");
    reveal_strlit("properties");
    assert("required"@.len() == 8);
    assert("type"@.len() == 4);
    assert("properties"@.len() == 10);
    let c = tool_catalogue();
    if i == 1 {
        if let JsonView::Object(m) = c[1].input_schema {
            assert(m.len() == 2);
            assert(m[0].0 != "required"@);
            assert(m[1].0 != "required"@);
        }
    } else {
        if let JsonView::Object(m) = c[i].input_schema {
            assert(m[2].0 == "required"@);
        }
    }
}

/// What an audit log entry records of an MCP action (the actor is the caller).
#[derive(PartialEq, Eq, Structural, Clone, Copy, Debug)]
pub enum AuditEvent {
    WeaverCreated,
    WeaverDeleted,
    WeaverAttached,
}

/// An audit log entry about a weaver.
#[derive(Debug)]
pub struct AuditRecord {
    pub event: AuditEvent,
    /// The UUID of the user who acted.
    pub actor: u128,
    /// The id of the weaver concerned.
    pub weaver_id: String,
    pub details: JsonValue,
}

/// The `key=value` texts of a sequence of tags.
pub open spec fn tag_texts(p: Seq<(Seq<char>, Seq<char>)>) -> Seq<Seq<char>> {
    p.map_values(|e: (Seq<char>, Seq<char>)| e.0 + "="@ + e.1)
}

/// How the tags of a weaver are shown.
pub open spec fn tags_text(p: Seq<(Seq<char>, Seq<char>)>) -> Seq<char> {
    if p.len() == 0 {
        "(none)"@
    } else {
        joined(tag_texts(p), ", "@)
    }
}

/// How a weaver is shown in full.
pub open spec fn weaver_text(w: WeaverInfo) -> Seq<char> {
    "ID: "@ + w.id@ + "\nImage: "@ + w.image@ + "\nStatus: "@ + status_name(w.status) + "\nPod: "@
        + w.pod_name@ + "\nAge: "@ + w.age_hours_text@ + " hours\nLifetime: "@ + decimal(
        w.lifetime_hours as nat,
    ) + " hours\nTags: "@ + tags_text(w.tags.pairs())
}

fn tags_display(tags: &StringMap) -> (r: String)
    ensures
        r@ == tags_text(tags.pairs()),
{
    let n = tags.len();
    if n == 0 {
        return owned("(none)");
    }
    let ghost items = tag_texts(tags.pairs());
    let mut out = String::new();
    let mut i: usize = 0;
    while i < n
        invariant
            n == tags.pairs().len(),
            n > 0,
            items == tag_texts(tags.pairs()),
            i <= n,
            i == 0 ==> out@ == Seq::<char>::empty(),
            i > 0 ==> out@ == joined(items.take(i as int), ", "@),
        decreases n - i,
    {
        let (k, v) = tags.entry(i);
        if i > 0 {
            out.append(", ");
        }
        out.append(k.as_str());
        out.append("=");
        out.append(v.as_str());
        proof {
            let t = items.take(i + 1);
            assert(t.drop_last() =~= items.take(i as int));
            assert(t.last() == items[i as int]);
            if i == 0 {
                assert(t.len() == 1);
                assert(joined(t, ", "@) == t[0]);
                assert(out@ =~= items[0]);
            } else {
                assert(out@ =~= joined(items.take(i as int), ", "@) + ", "@ + items[i as int]);
            }
        }
        i = i + 1;
    }
    assert(items.take(n as int) =~= items);
    out
}

/// The weaver shown in full.
pub fn format_weaver(weaver: &WeaverInfo) -> (r: String)
    ensures
        r@ == weaver_text(*weaver),
{
    let mut out = owned("ID: ");
    out.append(weaver.id.as_str());
    out.append("\nImage: ");
    out.append(weaver.image.as_str());
    out.append("\nStatus: ");
    out.append(weaver.status.name());
    out.append("\nPod: ");
    out.append(weaver.pod_name.as_str());
    out.append("\nAge: ");
    out.append(weaver.age_hours_text.as_str());
    out.append(" hours\nLifetime: ");
    push_decimal(&mut out, weaver.lifetime_hours as u64);
    out.append(" hours\nTags: ");
    let tags = tags_display(&weaver.tags);
    out.append(tags.as_str());
    out
}

} // verus!
