//! The create_weaver tool.

use vstd::prelude::*;

use crate::access::{UserInfo, WeaverInfo};
use crate::error::McpError;
use crate::ids::{parse_uuid, parsed_uuid};
use crate::json::{json_view, JsonValue, JsonView};
use crate::string_map::StringMap;
use crate::text::owned;
use crate::tools::{AuditEvent, AuditRecord, NO_PROVISIONER};
use crate::tools::schema::{
    integer_property, integer_property_view, string_map_property, string_map_property_view,
    string_property, string_property_view,
};
use crate::types::{CreateWeaverArgs, Tool, ToolView, ToolsCallResult};

verus! {

pub const NAME: &'static str = "create_weaver";
pub const DESCRIPTION: &'static str = "Create an ephemeral Kubernetes pod for code execution. The pod will be automatically cleaned up after the specified lifetime.";
pub const IMAGE_DESCRIPTION: &'static str = "Container image to run (e.g., 'python:3.12', 'node:20', 'ubuntu:22.04')";
pub const ORG_ID_DESCRIPTION: &'static str = "Organization ID (UUID) that will own this weaver for billing and isolation";
pub const ENV_DESCRIPTION: &'static str = "Environment variables to set in the container";
pub const MEMORY_LIMIT_DESCRIPTION: &'static str = "Memory limit for the container (e.g., '512Mi', '2Gi', '8Gi')";
pub const CPU_LIMIT_DESCRIPTION: &'static str = "CPU limit for the container (e.g., '0.5', '1', '4')";
pub const LIFETIME_HOURS_DESCRIPTION: &'static str = "How long the weaver should run before automatic cleanup (max 48 hours)";
pub const TAGS_DESCRIPTION: &'static str = "Custom tags/labels for organizing and filtering weavers";

/// The properties of the create_weaver schema.
pub open spec fn properties_view() -> Seq<(Seq<char>, JsonView)> {
    seq![
        ("image"@, string_property_view(IMAGE_DESCRIPTION@)),
        ("org_id"@, string_property_view(ORG_ID_DESCRIPTION@)),
        ("env"@, string_map_property_view(ENV_DESCRIPTION@)),
        ("memory_limit"@, string_property_view(MEMORY_LIMIT_DESCRIPTION@)),
        ("cpu_limit"@, string_property_view(CPU_LIMIT_DESCRIPTION@)),
        ("lifetime_hours"@, integer_property_view(LIFETIME_HOURS_DESCRIPTION@)),
        ("tags"@, string_map_property_view(TAGS_DESCRIPTION@)),
    ]
}

/// The declaration of the create_weaver tool: `image` and `org_id` are required.
pub open spec fn definition_view() -> ToolView {
    ToolView {
        name: NAME@,
        description: DESCRIPTION@,
        input_schema: JsonView::Object(seq![
            ("type"@, JsonView::Str("object"@)),
            ("properties"@, JsonView::Object(properties_view())),
            ("required"@, JsonView::Array(seq![JsonView::Str("image"@), JsonView::Str("org_id"@)])),
        ]),
    }
}

/// The create_weaver tool definition.
pub fn definition() -> (r: Tool)
    ensures
        r@ == definition_view(),
{
    let props = JsonValue::empty_object().with("image", string_property(IMAGE_DESCRIPTION)).with(
        "org_id",
        string_property(ORG_ID_DESCRIPTION),
    ).with("env", string_map_property(ENV_DESCRIPTION)).with(
        "memory_limit",
        string_property(MEMORY_LIMIT_DESCRIPTION),
    ).with("cpu_limit", string_property(CPU_LIMIT_DESCRIPTION)).with(
        "lifetime_hours",
        integer_property(LIFETIME_HOURS_DESCRIPTION),
    ).with("tags", string_map_property(TAGS_DESCRIPTION));
    let ghost pv = json_view(props);
    assert(pv == JsonView::Object(properties_view())) by {
        if let JsonView::Object(m) = pv {
            assert(m =~= properties_view());
        }
    }
    let required = JsonValue::empty_array().and(JsonValue::string("image")).and(
        JsonValue::string("org_id"),
    );
    let ghost rv = json_view(required);
    assert(rv == JsonView::Array(seq![JsonView::Str("image"@), JsonView::Str("org_id"@)])) by {
        if let JsonView::Array(a) = rv {
            assert(a =~= seq![JsonView::Str("image"@), JsonView::Str("org_id"@)]);
        }
    }
    let schema = JsonValue::empty_object().with("type", JsonValue::string("object")).with(
        "properties",
        props,
    ).with("required", required);
    let r = Tool { name: owned(NAME), description: owned(DESCRIPTION), input_schema: schema };
    assert(r@.input_schema == definition_view().input_schema) by {
        if let JsonView::Object(m) = r@.input_schema {
            if let JsonView::Object(n) = definition_view().input_schema {
                assert(m =~= n);
            }
        }
    }
    r
}


pub const INVALID_ORG_ID: &'static str = "Invalid org_id format: ";
pub const NOT_A_MEMBER: &'static str = "Not a member of organization ";
pub const MEMBERSHIP_LOOKUP_FAILED: &'static str = "Failed to verify organization membership";

/// What comes after the checks of a create_weaver call.
#[derive(Debug)]
pub struct CreatePlan {
    /// The organization that will own the weaver.
    pub org_uuid: u128,
    /// Whether the caller's membership of the organization must be looked up
    /// before the weaver is created.
    pub check_membership: bool,
}

/// The checks of a create_weaver call, given what the UUID parser made of
/// `org_id`: the server must have a provisioner, the organization id must
/// parse, and everyone but a system administrator must then be shown to be a
/// member of the organization.
pub fn plan(provisioner_configured: bool, user: &UserInfo, org_id: &str, parsed: Option<u128>) -> (r: Result<CreatePlan, McpError>)
    ensures
        !provisioner_configured ==> (r matches Err(e) && e.is_internal(NO_PROVISIONER@)),
        provisioner_configured && parsed is None ==> (r matches Err(e) && e.is_invalid_params(
            INVALID_ORG_ID@ + org_id@,
        )),
        provisioner_configured && parsed is Some ==> (r matches Ok(p) && p.org_uuid == parsed->0
            && p.check_membership == !user.is_system_admin),
{
    if !provisioner_configured {
        return Err(McpError::Internal(owned(NO_PROVISIONER)));
    }
    match parsed {
        Some(org_uuid) => Ok(CreatePlan { org_uuid, check_membership: !user.is_system_admin }),
        None => {
            let mut m = owned(INVALID_ORG_ID);
            m.append(org_id);
            Err(McpError::InvalidParams(m))
        },
    }
}

/// The checks of a create_weaver call, parsing the organization id with
/// `uuid::Uuid::parse_str`.
pub fn execute(provisioner_configured: bool, user: &UserInfo, args: &CreateWeaverArgs) -> (r: Result<CreatePlan, McpError>)
    ensures
        !provisioner_configured ==> (r matches Err(e) && e.is_internal(NO_PROVISIONER@)),
        provisioner_configured && parsed_uuid(args.org_id@) is None ==> (r matches Err(e)
            && e.is_invalid_params(INVALID_ORG_ID@ + args.org_id@)),
        provisioner_configured && parsed_uuid(args.org_id@) is Some ==> (r matches Ok(p)
            && p.org_uuid == parsed_uuid(args.org_id@)->0 && p.check_membership
            == !user.is_system_admin),
{
    if !provisioner_configured {
        return plan(false, user, args.org_id.as_str(), None);
    }
    let parsed = parse_uuid(args.org_id.as_str());
    plan(true, user, args.org_id.as_str(), parsed)
}

/// What the organization membership lookup found.
#[derive(PartialEq, Eq, Structural, Clone, Copy, Debug)]
pub enum MembershipOutcome {
    Member,
    NotMember,
    LookupFailed,
}

/// The decision on the membership lookup for the organization `org_id`: a
/// member goes on, anyone else is refused, and a failed lookup is an
/// internal error.
pub fn check_membership(org_id: &str, outcome: MembershipOutcome) -> (r: Result<(), McpError>)
    ensures
        outcome == MembershipOutcome::Member ==> r is Ok,
        outcome == MembershipOutcome::NotMember ==> (r matches Err(e) && e.is_forbidden(
            NOT_A_MEMBER@ + org_id@,
        )),
        outcome == MembershipOutcome::LookupFailed ==> (r matches Err(e) && e.is_internal(
            MEMBERSHIP_LOOKUP_FAILED@,
        )),
{
    match outcome {
        MembershipOutcome::Member => Ok(()),
        MembershipOutcome::NotMember => {
            let mut m = owned(NOT_A_MEMBER);
            m.append(org_id);
            Err(McpError::Forbidden(m))
        },
        MembershipOutcome::LookupFailed => Err(McpError::Internal(owned(MEMBERSHIP_LOOKUP_FAILED))),
    }
}

/// What the provisioner is asked to create. The command, arguments, working
/// directory and repository of the pod are left unset.
#[derive(Debug)]
pub struct CreateWeaverRequest {
    pub image: String,
    pub env: StringMap,
    pub memory_limit: Option<String>,
    pub cpu_limit: Option<String>,
    pub tags: StringMap,
    pub lifetime_hours: Option<u32>,
    pub owner_user_id: Option<String>,
    pub org_id: String,
}

/// The request for the weaver a create_weaver call describes, owned by the caller.
pub fn request(user: &UserInfo, args: CreateWeaverArgs) -> (r: CreateWeaverRequest)
    ensures
        r.image == args.image,
        r.env == args.env,
        r.memory_limit == args.memory_limit,
        r.cpu_limit == args.cpu_limit,
        r.tags == args.tags,
        r.lifetime_hours == args.lifetime_hours,
        r.owner_user_id matches Some(o) && o@ == user.id@,
        r.org_id == args.org_id,
{
    CreateWeaverRequest {
        image: args.image,
        env: args.env,
        memory_limit: args.memory_limit,
        cpu_limit: args.cpu_limit,
        tags: args.tags,
        lifetime_hours: args.lifetime_hours,
        owner_user_id: Some(user.id.clone()),
        org_id: args.org_id,
    }
}

/// The answer once the weaver exists: its id and its image.
pub open spec fn created_text(w: WeaverInfo) -> Seq<char> {
    "Created weaver "@ + w.id@ + " with image "@ + w.image@
}

/// The details recorded when a weaver is created.
pub open spec fn audit_details_view(image: Seq<char>, org_id: Seq<char>, pod_name: Seq<char>) -> JsonView {
    JsonView::Object(seq![
        ("source"@, JsonView::Str("mcp"@)),
        ("image"@, JsonView::Str(image)),
        ("org_id"@, JsonView::Str(org_id)),
        ("pod_name"@, JsonView::Str(pod_name)),
    ])
}

/// The audit entry, with the caller as the actor, and the answer once the
/// weaver requested with `image` for the organization `org_id` has been
/// created.
pub fn finish(user: &UserInfo, weaver: &WeaverInfo, image: &str, org_id: &str) -> (r: (AuditRecord, ToolsCallResult))
    ensures
        r.0.event == AuditEvent::WeaverCreated,
        r.0.actor == user.uuid,
        r.0.weaver_id@ == weaver.id@,
        json_view(r.0.details) == audit_details_view(image@, org_id@, weaver.pod_name@),
        r.1.is_text(created_text(*weaver)),
{
    let details = JsonValue::empty_object().with("source", JsonValue::string("mcp")).with(
        "image",
        JsonValue::string(image),
    ).with("org_id", JsonValue::string(org_id)).with(
        "pod_name",
        JsonValue::string(weaver.pod_name.as_str()),
    );
    assert(json_view(details) == audit_details_view(image@, org_id@, weaver.pod_name@)) by {
        if let JsonView::Object(m) = json_view(details) {
            if let JsonView::Object(n) = audit_details_view(image@, org_id@, weaver.pod_name@) {
                assert(m =~= n);
            }
        }
    }
    let mut text = owned("Created weaver ");
    text.append(weaver.id.as_str());
    text.append(" with image ");
    text.append(weaver.image.as_str());
    let audit = AuditRecord { event: AuditEvent::WeaverCreated, actor: user.uuid, weaver_id: weaver.id.clone(), details };
    (audit, ToolsCallResult::text(text))
}

} // verus!
