//! The caller and the weavers as the access rules see them, and the rules
//! themselves.

use vstd::prelude::*;

use crate::string_map::StringMap;

verus! {

/// The authenticated caller.
#[derive(Debug)]
pub struct UserInfo {
    /// The user's id as it is written in text (the form owner ids are stored in).
    pub id: String,
    /// The user's id as a UUID.
    pub uuid: u128,
    /// Whether the user is a system administrator.
    pub is_system_admin: bool,
    /// Whether the user is a support engineer.
    pub is_support: bool,
}

/// The phase a weaver's pod is in.
#[derive(PartialEq, Eq, Structural, Clone, Copy, Debug)]
pub enum WeaverStatus {
    Pending,
    Running,
    Succeeded,
    Failed,
    Terminating,
}

/// The name of a status as `{:?}` writes it.
pub open spec fn status_name(s: WeaverStatus) -> Seq<char> {
    match s {
        WeaverStatus::Pending => "Pending"@,
        WeaverStatus::Running => "Running"@,
        WeaverStatus::Succeeded => "Succeeded"@,
        WeaverStatus::Failed => "Failed"@,
        WeaverStatus::Terminating => "Terminating"@,
    }
}

impl WeaverStatus {
    /// The name of the status as `{:?}` writes it.
    pub fn name(&self) -> (r: &'static str)
        ensures
            r@ == status_name(*self),
    {
        match self {
            WeaverStatus::Pending => "Pending",
            WeaverStatus::Running => "Running",
            WeaverStatus::Succeeded => "Succeeded",
            WeaverStatus::Failed => "Failed",
            WeaverStatus::Terminating => "Terminating",
        }
    }
}

/// Each status is named as `{:?}` writes its variant, and no two statuses
/// share a name.
pub proof fn law_status_names(a: WeaverStatus, b: WeaverStatus)
    ensures
        status_name(WeaverStatus::Pending) == "Pending"@,
        status_name(WeaverStatus::Running) == "Running"@,
        status_name(WeaverStatus::Succeeded) == "Succeeded"@,
        status_name(WeaverStatus::Failed) == "Failed"@,
        status_name(WeaverStatus::Terminating) == "Terminating"@,
        a != b ==> status_name(a) != status_name(b),
{
    reveal_strlit("Pending");
    reveal_strlit("Running");
    reveal_strlit("Succeeded");
    reveal_strlit("Failed");
    reveal_strlit("Terminating");
    assert("Pending"@.len() == 7);
    assert("Running"@.len() == 7);
    assert("Succeeded"@.len() == 9);
    assert("Failed"@.len() == 6);
    assert("Terminating"@.len() == 11);
    assert("Pending"@[0] != "Running"@[0]);
}

/// An ephemeral execution environment as the provisioner reports it.
#[derive(Debug)]
pub struct WeaverInfo {
    /// The weaver's id, written as text.
    pub id: String,
    pub image: String,
    pub status: WeaverStatus,
    pub pod_name: String,
    /// The id of the user who owns the weaver.
    pub owner_user_id: String,
    /// The id of the organization the weaver belongs to.
    pub org_id: String,
    /// The weaver's age in hours, written with one decimal.
    pub age_hours_text: String,
    /// The weaver's age in hours as a JSON number, with its full precision.
    pub age_hours_number: String,
    /// When the weaver was created (RFC 3339).
    pub created_at: String,
    pub lifetime_hours: u32,
    /// The weaver's tags, in the order the provisioner listed them.
    pub tags: StringMap,
}

/// The caller may read the weaver: administrators and support engineers
/// read every weaver, other users their own.
pub open spec fn may_read_weaver(user: UserInfo, weaver_owner: Seq<char>) -> bool {
    user.is_system_admin || user.is_support || weaver_owner == user.id@
}

/// The caller owns the weaver or is an administrator; only such callers may
/// delete a weaver or attach to it with full access.
pub open spec fn owns_or_administers(user: UserInfo, weaver_owner: Seq<char>) -> bool {
    user.is_system_admin || weaver_owner == user.id@
}

/// The weaver access table: system administrators may read, delete and
/// fully attach to any weaver; support engineers may read any weaver but,
/// on a weaver they do not own, may neither delete it nor attach with full
/// access; other users reach only their own weavers, with full access.
pub proof fn law_weaver_access_table(user: UserInfo, owner: Seq<char>)
    ensures
        owns_or_administers(user, owner) ==> may_read_weaver(user, owner),
        user.is_system_admin ==> may_read_weaver(user, owner) && owns_or_administers(user, owner),
        user.is_support ==> may_read_weaver(user, owner),
        user.is_support && !user.is_system_admin && owner != user.id@ ==> !owns_or_administers(
            user,
            owner,
        ),
        !user.is_system_admin && !user.is_support ==> (may_read_weaver(user, owner) <==> owner
            == user.id@) && (owns_or_administers(user, owner) <==> owner == user.id@),
{
}

/// Whether the caller may read the weaver.
pub fn can_read_weaver(user: &UserInfo, weaver: &WeaverInfo) -> (r: bool)
    ensures
        r == may_read_weaver(*user, weaver.owner_user_id@),
{
    user.is_system_admin || user.is_support || weaver.owner_user_id == user.id
}

/// Whether the caller owns the weaver or is an administrator.
pub fn is_weaver_owner_or_admin(user: &UserInfo, weaver: &WeaverInfo) -> (r: bool)
    ensures
        r == owns_or_administers(*user, weaver.owner_user_id@),
{
    user.is_system_admin || weaver.owner_user_id == user.id
}

} // verus!
