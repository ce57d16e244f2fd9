//! The attach_weaver tool.

use vstd::prelude::*;

use crate::access::{
    can_read_weaver, is_weaver_owner_or_admin, may_read_weaver, owns_or_administers, status_name,
    UserInfo, WeaverInfo,
};
use crate::error::McpError;
use crate::json::{json_view, JsonValue, JsonView};
use crate::text::{owned, replace_all, replaced};
use crate::tools::{AuditEvent, AuditRecord, NO_READ_ACCESS};
use crate::tools::schema::{weaver_id_schema, weaver_id_schema_view};
use crate::types::{Tool, ToolView, ToolsCallResult};

verus! {

pub const NAME: &'static str = "attach_weaver";
pub const DESCRIPTION: &'static str = "Get connection information for attaching to a weaver's terminal. Returns the WebSocket URL and connection details.";
pub const WEAVER_ID_DESCRIPTION: &'static str = "The unique identifier of the weaver to attach to";

/// The declaration of the attach_weaver tool.
pub open spec fn definition_view() -> ToolView {
    ToolView {
        name: NAME@,
        description: DESCRIPTION@,
        input_schema: weaver_id_schema_view(WEAVER_ID_DESCRIPTION@),
    }
}

/// The attach_weaver tool definition.
pub fn definition() -> (r: Tool)
    ensures
        r@ == definition_view(),
{
    Tool {
        name: owned(NAME),
        description: owned(DESCRIPTION),
        input_schema: weaver_id_schema(WEAVER_ID_DESCRIPTION),
    }
}


/// The WebSocket address of a weaver's terminal: the server's base URL with
/// `http://` turned into `ws://` and `https://` into `wss://`, then
/// `/api/weaver/<id>/attach`.
pub open spec fn attach_url(base_url: Seq<char>, weaver_id: Seq<char>) -> Seq<char> {
    replaced(replaced(base_url, "http://"@, "ws://"@), "https://"@, "wss://"@) + "/api/weaver/"@
        + weaver_id + "/attach"@
}

/// How the access granted is named.
pub open spec fn access_text(read_only: bool) -> Seq<char> {
    if read_only {
        "Read-only"@
    } else {
        "Full access"@
    }
}

/// The answer to attach_weaver.
pub open spec fn attach_text(weaver_id: Seq<char>, w: WeaverInfo, url: Seq<char>, read_only: bool) -> Seq<char> {
    "Weaver "@ + weaver_id + " connection info:\n\nStatus: "@ + status_name(w.status)
        + "\nWebSocket URL: "@ + url + "\nAccess: "@ + access_text(read_only)
        + "\n\nTo attach, connect to the WebSocket URL with your authentication token."@
}

/// The details recorded when a client attaches.
pub open spec fn audit_details_view(pod_name: Seq<char>, read_only: bool) -> JsonView {
    JsonView::Object(seq![
        ("source"@, JsonView::Str("mcp"@)),
        ("pod_name"@, JsonView::Str(pod_name)),
        ("read_only"@, JsonView::Bool(read_only)),
    ])
}

/// Answers attach_weaver once the weaver requested as `weaver_id` has been
/// fetched. A caller who may read the weaver gets its terminal address;
/// the access is read-only unless the caller owns the weaver or is an
/// administrator.
pub fn execute(user: &UserInfo, weaver: &WeaverInfo, weaver_id: &str, base_url: &str) -> (r: Result<(AuditRecord, ToolsCallResult), McpError>)
    ensures
        !may_read_weaver(*user, weaver.owner_user_id@) ==> (r matches Err(e) && e.is_forbidden(
            NO_READ_ACCESS@,
        )),
        may_read_weaver(*user, weaver.owner_user_id@) ==> (r matches Ok(p) && {
            let read_only = !owns_or_administers(*user, weaver.owner_user_id@);
            &&& p.0.event == AuditEvent::WeaverAttached
            &&& p.0.actor == user.uuid
            &&& p.0.weaver_id@ == weaver_id@
            &&& json_view(p.0.details) == audit_details_view(weaver.pod_name@, read_only)
            &&& p.1.is_text(attach_text(weaver_id@, *weaver, attach_url(base_url@, weaver_id@), read_only))
        }),
{
    if !can_read_weaver(user, weaver) {
        return Err(McpError::Forbidden(owned(NO_READ_ACCESS)));
    }
    let read_only = !is_weaver_owner_or_admin(user, weaver);
    proof {
        reveal_strlit("http://");
        reveal_strlit("https://");
    }
    let insecure = replace_all(base_url, "http://", "ws://");
    let scheme_fixed = replace_all(insecure.as_str(), "https://", "wss://");
    let mut url = scheme_fixed;
    url.append("/api/weaver/");
    url.append(weaver_id);
    url.append("/attach");
    let details = JsonValue::empty_object().with("source", JsonValue::string("mcp")).with(
        "pod_name",
        JsonValue::string(weaver.pod_name.as_str()),
    ).with("read_only", JsonValue::Bool(read_only));
    assert(json_view(details) == audit_details_view(weaver.pod_name@, read_only)) by {
        if let JsonView::Object(m) = json_view(details) {
            if let JsonView::Object(n) = audit_details_view(weaver.pod_name@, read_only) {
                assert(m =~= n);
            }
        }
    }
    let mut text = owned("Weaver ");
    text.append(weaver_id);
    text.append(" connection info:\n\nStatus: ");
    text.append(weaver.status.name());
    text.append("\nWebSocket URL: ");
    text.append(url.as_str());
    text.append("\nAccess: ");
    if read_only {
        text.append("Read-only");
    } else {
        text.append("Full access");
    }
    text.append("\n\nTo attach, connect to the WebSocket URL with your authentication token.");
    let audit = AuditRecord { event: AuditEvent::WeaverAttached, actor: user.uuid, weaver_id: owned(weaver_id), details };
    Ok((audit, ToolsCallResult::text(text)))
}

} // verus!
