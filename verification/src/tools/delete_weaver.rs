//! The delete_weaver tool.

use vstd::prelude::*;

use crate::access::{is_weaver_owner_or_admin, owns_or_administers, UserInfo, WeaverInfo};
use crate::error::McpError;
use crate::json::{json_view, JsonValue, JsonView};
use crate::text::owned;
use crate::tools::{AuditEvent, AuditRecord};
use crate::tools::schema::{weaver_id_schema, weaver_id_schema_view};
use crate::types::{Tool, ToolView, ToolsCallResult};

verus! {

pub const NAME: &'static str = "delete_weaver";
pub const DESCRIPTION: &'static str = "Delete a weaver and terminate its Kubernetes pod. Only the owner or system admins can delete a weaver.";
pub const WEAVER_ID_DESCRIPTION: &'static str = "The unique identifier of the weaver to delete";

/// The declaration of the delete_weaver tool.
pub open spec fn definition_view() -> ToolView {
    ToolView {
        name: NAME@,
        description: DESCRIPTION@,
        input_schema: weaver_id_schema_view(WEAVER_ID_DESCRIPTION@),
    }
}

/// The delete_weaver tool definition.
pub fn definition() -> (r: Tool)
    ensures
        r@ == definition_view(),
{
    Tool {
        name: owned(NAME),
        description: owned(DESCRIPTION),
        input_schema: weaver_id_schema(WEAVER_ID_DESCRIPTION),
    }
}


pub const NOT_OWNER: &'static str = "Only the owner or system admin can delete this weaver";

/// Whether the caller may delete the fetched weaver: only its owner or a
/// system administrator may.
pub fn execute(user: &UserInfo, weaver: &WeaverInfo) -> (r: Result<(), McpError>)
    ensures
        owns_or_administers(*user, weaver.owner_user_id@) ==> r is Ok,
        !owns_or_administers(*user, weaver.owner_user_id@) ==> (r matches Err(e) && e.is_forbidden(
            NOT_OWNER@,
        )),
{
    if !is_weaver_owner_or_admin(user, weaver) {
        return Err(McpError::Forbidden(owned(NOT_OWNER)));
    }
    Ok(())
}

/// The details recorded when a weaver is deleted.
pub open spec fn audit_details_view(pod_name: Seq<char>) -> JsonView {
    JsonView::Object(seq![("source"@, JsonView::Str("mcp"@)), ("pod_name"@, JsonView::Str(pod_name))])
}

/// The answer once the weaver's pod is gone.
pub open spec fn deleted_text(weaver_id: Seq<char>, pod_name: Seq<char>) -> Seq<char> {
    "Deleted weaver "@ + weaver_id + "\n\nPod "@ + pod_name + " has been terminated."@
}

/// The audit entry, with the caller as the actor, and the answer once the
/// weaver requested as `weaver_id` has been deleted.
pub fn finish(user: &UserInfo, weaver_id: &str, weaver: &WeaverInfo) -> (r: (AuditRecord, ToolsCallResult))
    ensures
        r.0.event == AuditEvent::WeaverDeleted,
        r.0.actor == user.uuid,
        r.0.weaver_id@ == weaver_id@,
        json_view(r.0.details) == audit_details_view(weaver.pod_name@),
        r.1.is_text(deleted_text(weaver_id@, weaver.pod_name@)),
{
    let details = JsonValue::empty_object().with("source", JsonValue::string("mcp")).with(
        "pod_name",
        JsonValue::string(weaver.pod_name.as_str()),
    );
    assert(json_view(details) == audit_details_view(weaver.pod_name@)) by {
        if let JsonView::Object(m) = json_view(details) {
            if let JsonView::Object(n) = audit_details_view(weaver.pod_name@) {
                assert(m =~= n);
            }
        }
    }
    let mut text = owned("Deleted weaver ");
    text.append(weaver_id);
    text.append("\n\nPod ");
    text.append(weaver.pod_name.as_str());
    text.append(" has been terminated.");
    let audit = AuditRecord { event: AuditEvent::WeaverDeleted, actor: user.uuid, weaver_id: owned(weaver_id), details };
    (audit, ToolsCallResult::text(text))
}

} // verus!
