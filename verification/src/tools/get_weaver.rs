//! The get_weaver tool.

use vstd::prelude::*;

use crate::access::{can_read_weaver, may_read_weaver, UserInfo, WeaverInfo};
use crate::error::McpError;
use crate::text::owned;
use crate::tools::{format_weaver, weaver_text, NO_READ_ACCESS};
use crate::tools::schema::{weaver_id_schema, weaver_id_schema_view};
use crate::types::{Tool, ToolView, ToolsCallResult};

verus! {

pub const NAME: &'static str = "get_weaver";
pub const DESCRIPTION: &'static str = "Get detailed information about a specific weaver including status, resource usage, and connection details.";
pub const WEAVER_ID_DESCRIPTION: &'static str = "The unique identifier of the weaver";

/// The declaration of the get_weaver tool.
pub open spec fn definition_view() -> ToolView {
    ToolView {
        name: NAME@,
        description: DESCRIPTION@,
        input_schema: weaver_id_schema_view(WEAVER_ID_DESCRIPTION@),
    }
}

/// The get_weaver tool definition.
pub fn definition() -> (r: Tool)
    ensures
        r@ == definition_view(),
{
    Tool {
        name: owned(NAME),
        description: owned(DESCRIPTION),
        input_schema: weaver_id_schema(WEAVER_ID_DESCRIPTION),
    }
}


/// Answers get_weaver once the weaver has been fetched: the weaver in full,
/// if the caller may read it.
pub fn execute(user: &UserInfo, weaver: &WeaverInfo) -> (r: Result<ToolsCallResult, McpError>)
    ensures
        may_read_weaver(*user, weaver.owner_user_id@) ==> (r matches Ok(t) && t.is_text(
            weaver_text(*weaver),
        )),
        !may_read_weaver(*user, weaver.owner_user_id@) ==> (r matches Err(e) && e.is_forbidden(
            NO_READ_ACCESS@,
        )),
{
    if !can_read_weaver(user, weaver) {
        return Err(McpError::Forbidden(owned(NO_READ_ACCESS)));
    }
    Ok(ToolsCallResult::text(format_weaver(weaver)))
}

} // verus!
