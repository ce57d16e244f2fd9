//! What `resources/read` answers for each resource, and the checks taken
//! around fetching it from the thread store, the SCM repository store and
//! the weaver provisioner. The fetches themselves are the caller's; these
//! functions take what they returned.

use vstd::prelude::*;

use crate::access::{may_read_weaver, status_name, UserInfo, WeaverInfo};
use crate::error::McpError;
use crate::ids::{parse_uuid, parsed_uuid, uuid_text, uuid_text_of};
use crate::json::{items_view, json_view, opt_str_view, JsonValue, JsonView};
use crate::resources::{check_thread_access, may_read_thread};
use crate::text::{decimal, owned};
use crate::tools::NO_READ_ACCESS;

verus! {

pub const LIST_THREADS_FAILED: &'static str = "Failed to list threads: ";
pub const INVALID_THREAD_ID: &'static str = "Invalid thread_id format: ";
pub const GET_THREAD_FAILED: &'static str = "Failed to get thread: ";
pub const THREAD_NOT_FOUND: &'static str = "Thread not found: ";
pub const GET_THREAD_OWNER_FAILED: &'static str = "Failed to get thread owner: ";
pub const NO_REPO_STORE: &'static str = "SCM repository store not configured";
pub const LIST_REPOS_FAILED: &'static str = "Failed to list repositories: ";
pub const INVALID_REPO_ID: &'static str = "Invalid repo_id: ";
pub const GET_REPO_FAILED: &'static str = "Failed to get repository: ";
pub const REPO_NOT_FOUND: &'static str = "Repository not found: ";
pub const INVALID_WEAVER_ID: &'static str = "Invalid weaver_id: ";

/// A conversation thread as the thread store keeps it.
#[derive(Debug)]
pub struct ThreadRecord {
    pub id: String,
    pub title: Option<String>,
    /// RFC 3339.
    pub created_at: String,
    /// RFC 3339.
    pub updated_at: String,
    /// The message count the store records for the thread.
    pub message_count: u64,
    pub workspace_root: Option<String>,
    /// The conversation's messages, as JSON.
    pub messages: Vec<JsonValue>,
}

/// A repository as the SCM store keeps it.
#[derive(Debug)]
pub struct RepoRecord {
    pub id: String,
    pub name: String,
    /// Whether the owner is a user rather than an organization.
    pub owned_by_user: bool,
    /// The owner's kind, as its name is written.
    pub owner_type: String,
    pub owner_id: u128,
    /// The visibility, as its name is written.
    pub visibility: String,
    pub default_branch: String,
    /// RFC 3339.
    pub created_at: String,
    /// RFC 3339.
    pub updated_at: String,
}

/// A thread as `loom://threads` lists it.
pub open spec fn thread_summary_view(t: ThreadRecord) -> JsonView {
    JsonView::Object(seq![
        ("id"@, JsonView::Str(t.id@)),
        ("title"@, opt_str_view(t.title)),
        ("created_at"@, JsonView::Str(t.created_at@)),
        ("updated_at"@, JsonView::Str(t.updated_at@)),
        ("message_count"@, JsonView::Num(decimal(t.message_count as nat))),
        ("workspace_root"@, opt_str_view(t.workspace_root)),
    ])
}

/// The content of `loom://threads`.
pub open spec fn threads_view(ts: Seq<ThreadRecord>) -> JsonView {
    JsonView::Object(seq![
        ("threads"@, JsonView::Array(ts.map_values(|t: ThreadRecord| thread_summary_view(t)))),
        ("count"@, JsonView::Num(decimal(ts.len()))),
    ])
}

/// The content of `loom://threads/{id}`.
pub open spec fn thread_view(t: ThreadRecord) -> JsonView {
    JsonView::Object(seq![
        ("id"@, JsonView::Str(t.id@)),
        ("title"@, opt_str_view(t.title)),
        ("created_at"@, JsonView::Str(t.created_at@)),
        ("updated_at"@, JsonView::Str(t.updated_at@)),
        ("workspace_root"@, opt_str_view(t.workspace_root)),
        ("message_count"@, JsonView::Num(decimal(t.messages@.len()))),
        ("messages"@, JsonView::Array(items_view(t.messages@))),
    ])
}

/// The content of `loom://threads/{id}/messages`.
pub open spec fn thread_messages_view(t: ThreadRecord) -> JsonView {
    JsonView::Object(seq![
        ("thread_id"@, JsonView::Str(t.id@)),
        ("messages"@, JsonView::Array(items_view(t.messages@))),
        ("count"@, JsonView::Num(decimal(t.messages@.len()))),
    ])
}

fn thread_summary(t: &ThreadRecord) -> (r: JsonValue)
    ensures
        json_view(r) == thread_summary_view(*t),
{
    let r = JsonValue::empty_object().with("id", JsonValue::string(t.id.as_str())).with(
        "title",
        JsonValue::opt_string(&t.title),
    ).with("created_at", JsonValue::string(t.created_at.as_str())).with("updated_at", JsonValue::string(t.updated_at.as_str())).with(
        "message_count",
        JsonValue::number(t.message_count),
    ).with("workspace_root", JsonValue::opt_string(&t.workspace_root));
    assert(json_view(r) == thread_summary_view(*t)) by {
        if let JsonView::Object(m) = json_view(r) {
            if let JsonView::Object(n) = thread_summary_view(*t) {
                assert(m =~= n);
            }
        }
    }
    r
}

/// The answer to `loom://threads` once the thread store has listed the
/// caller's threads, or failed with the message `e`.
pub fn threads_content(listed: Result<Vec<ThreadRecord>, String>) -> (r: Result<JsonValue, McpError>)
    ensures
        match listed {
            Err(e) => r matches Err(x) && x.is_internal(LIST_THREADS_FAILED@ + e@),
            Ok(ts) => r matches Ok(v) && json_view(v) == threads_view(ts@),
        },
{
    let ts = match listed {
        Err(e) => {
            let mut m = owned(LIST_THREADS_FAILED);
            m.append(e.as_str());
            return Err(McpError::Internal(m));
        },
        Ok(ts) => ts,
    };
    let n = ts.len();
    let mut list = JsonValue::empty_array();
    assert(ts@.take(0).map_values(|t: ThreadRecord| thread_summary_view(t)) =~= Seq::<JsonView>::empty());
    let mut i: usize = 0;
    while i < n
        invariant
            n == ts@.len(),
            i <= n,
            json_view(list) == JsonView::Array(
                ts@.take(i as int).map_values(|t: ThreadRecord| thread_summary_view(t)),
            ),
        decreases n - i,
    {
        let item = thread_summary(&ts[i]);
        list = list.and(item);
        assert(ts@.take(i + 1).map_values(|t: ThreadRecord| thread_summary_view(t)) =~= ts@.take(
            i as int,
        ).map_values(|t: ThreadRecord| thread_summary_view(t)).push(thread_summary_view(ts@[i as int])));
        i = i + 1;
    }
    assert(ts@.take(n as int) =~= ts@);
    let r = JsonValue::empty_object().with("threads", list).with("count", JsonValue::number(n as u64));
    assert(json_view(r) == threads_view(ts@)) by {
        if let JsonView::Object(m) = json_view(r) {
            if let JsonView::Object(k) = threads_view(ts@) {
                assert(m =~= k);
            }
        }
    }
    Ok(r)
}

/// The check before a thread is fetched: the id must be a thread id
/// (`id_is_valid`, as the thread id parser decided).
pub fn start_thread_lookup(thread_id: &str, id_is_valid: bool) -> (r: Result<(), McpError>)
    ensures
        id_is_valid ==> r is Ok,
        !id_is_valid ==> (r matches Err(e) && e.is_invalid_params(INVALID_THREAD_ID@ + thread_id@)),
{
    if !id_is_valid {
        let mut m = owned(INVALID_THREAD_ID);
        m.append(thread_id);
        return Err(McpError::InvalidParams(m));
    }
    Ok(())
}

/// The thread the store returned for `thread_id`: a failed fetch is an
/// internal error and a missing thread an invalid parameter.
pub fn thread_found(thread_id: &str, fetched: Result<Option<ThreadRecord>, String>) -> (r: Result<ThreadRecord, McpError>)
    ensures
        match fetched {
            Err(e) => r matches Err(x) && x.is_internal(GET_THREAD_FAILED@ + e@),
            Ok(None) => r matches Err(x) && x.is_invalid_params(THREAD_NOT_FOUND@ + thread_id@),
            Ok(Some(t)) => r == Ok::<ThreadRecord, McpError>(t),
        },
{
    match fetched {
        Err(e) => {
            let mut m = owned(GET_THREAD_FAILED);
            m.append(e.as_str());
            Err(McpError::Internal(m))
        },
        Ok(None) => {
            let mut m = owned(THREAD_NOT_FOUND);
            m.append(thread_id);
            Err(McpError::InvalidParams(m))
        },
        Ok(Some(t)) => Ok(t),
    }
}

/// The access decision once the store has looked up a thread's owner (or
/// failed with the message `e`): the owner and system administrators may
/// read it.
pub fn check_thread_owner(user: &UserInfo, owner: Result<Option<String>, String>) -> (r: Result<(), McpError>)
    ensures
        match owner {
            Err(e) => r matches Err(x) && x.is_internal(GET_THREAD_OWNER_FAILED@ + e@),
            Ok(o) => (r is Ok <==> may_read_thread(*user, crate::types::opt_text(o))) && (r is Err ==> (
            r matches Err(x) && x.is_forbidden(crate::resources::NO_THREAD_ACCESS@))),
        },
{
    match owner {
        Err(e) => {
            let mut m = owned(GET_THREAD_OWNER_FAILED);
            m.append(e.as_str());
            Err(McpError::Internal(m))
        },
        Ok(o) => check_thread_access(user, &o),
    }
}

/// The answer to `loom://threads/{id}`.
pub fn thread_content(t: ThreadRecord) -> (r: JsonValue)
    ensures
        json_view(r) == thread_view(t),
{
    let ghost t0 = t;
    let n = t.messages.len();
    let r = JsonValue::empty_object().with("id", JsonValue::Str(t.id)).with(
        "title",
        JsonValue::opt_string(&t.title),
    ).with("created_at", JsonValue::Str(t.created_at)).with("updated_at", JsonValue::Str(t.updated_at)).with(
        "workspace_root",
        JsonValue::opt_string(&t.workspace_root),
    ).with("message_count", JsonValue::number(n as u64)).with(
        "messages",
        JsonValue::Array(t.messages),
    );
    assert(json_view(r) == thread_view(t0)) by {
        if let JsonView::Object(m) = json_view(r) {
            if let JsonView::Object(k) = thread_view(t0) {
                assert(m =~= k);
            }
        }
    }
    r
}

/// The answer to `loom://threads/{id}/messages`.
pub fn thread_messages_content(t: ThreadRecord) -> (r: JsonValue)
    ensures
        json_view(r) == thread_messages_view(t),
{
    let ghost t0 = t;
    let n = t.messages.len();
    let r = JsonValue::empty_object().with("thread_id", JsonValue::Str(t.id)).with(
        "messages",
        JsonValue::Array(t.messages),
    ).with("count", JsonValue::number(n as u64));
    assert(json_view(r) == thread_messages_view(t0)) by {
        if let JsonView::Object(m) = json_view(r) {
            if let JsonView::Object(k) = thread_messages_view(t0) {
                assert(m =~= k);
            }
        }
    }
    r
}

/// A repository as `loom://repos` lists it.
pub open spec fn repo_summary_view(r: RepoRecord) -> JsonView {
    JsonView::Object(seq![
        ("id"@, JsonView::Str(r.id@)),
        ("name"@, JsonView::Str(r.name@)),
        ("owner_type"@, JsonView::Str(r.owner_type@)),
        ("owner_id"@, JsonView::Str(uuid_text_of(r.owner_id))),
        ("visibility"@, JsonView::Str(r.visibility@)),
        ("default_branch"@, JsonView::Str(r.default_branch@)),
        ("created_at"@, JsonView::Str(r.created_at@)),
    ])
}

/// The content of `loom://repos`.
pub open spec fn repos_view(rs: Seq<RepoRecord>) -> JsonView {
    JsonView::Object(seq![
        ("repositories"@, JsonView::Array(rs.map_values(|r: RepoRecord| repo_summary_view(r)))),
        ("count"@, JsonView::Num(decimal(rs.len()))),
    ])
}

/// The content of `loom://repos/{id}`: the listing's fields and when the
/// repository was last updated.
pub open spec fn repo_view(r: RepoRecord) -> JsonView {
    match repo_summary_view(r) {
        JsonView::Object(m) => JsonView::Object(m.push(("updated_at"@, JsonView::Str(r.updated_at@)))),
        other => other,
    }
}

/// The check before the repositories are read: the server must have an SCM
/// repository store.
pub fn start_repo_listing(store_configured: bool) -> (r: Result<(), McpError>)
    ensures
        store_configured ==> r is Ok,
        !store_configured ==> (r matches Err(e) && e.is_internal(NO_REPO_STORE@)),
{
    if !store_configured {
        return Err(McpError::Internal(owned(NO_REPO_STORE)));
    }
    Ok(())
}

fn repo_summary(r: &RepoRecord) -> (v: JsonValue)
    ensures
        json_view(v) == repo_summary_view(*r),
{
    let owner = uuid_text(r.owner_id);
    let v = JsonValue::empty_object().with("id", JsonValue::string(r.id.as_str())).with(
        "name",
        JsonValue::string(r.name.as_str()),
    ).with("owner_type", JsonValue::string(r.owner_type.as_str())).with(
        "owner_id",
        JsonValue::Str(owner),
    ).with("visibility", JsonValue::string(r.visibility.as_str())).with(
        "default_branch",
        JsonValue::string(r.default_branch.as_str()),
    ).with("created_at", JsonValue::string(r.created_at.as_str()));
    assert(json_view(v) == repo_summary_view(*r)) by {
        if let JsonView::Object(m) = json_view(v) {
            if let JsonView::Object(k) = repo_summary_view(*r) {
                assert(m =~= k);
            }
        }
    }
    v
}

/// The answer to `loom://repos` once the store has listed the repositories
/// the caller owns, or failed with the message `e`.
pub fn repos_content(listed: Result<Vec<RepoRecord>, String>) -> (r: Result<JsonValue, McpError>)
    ensures
        match listed {
            Err(e) => r matches Err(x) && x.is_internal(LIST_REPOS_FAILED@ + e@),
            Ok(rs) => r matches Ok(v) && json_view(v) == repos_view(rs@),
        },
{
    let rs = match listed {
        Err(e) => {
            let mut m = owned(LIST_REPOS_FAILED);
            m.append(e.as_str());
            return Err(McpError::Internal(m));
        },
        Ok(rs) => rs,
    };
    let n = rs.len();
    let mut list = JsonValue::empty_array();
    assert(rs@.take(0).map_values(|r: RepoRecord| repo_summary_view(r)) =~= Seq::<JsonView>::empty());
    let mut i: usize = 0;
    while i < n
        invariant
            n == rs@.len(),
            i <= n,
            json_view(list) == JsonView::Array(
                rs@.take(i as int).map_values(|r: RepoRecord| repo_summary_view(r)),
            ),
        decreases n - i,
    {
        let item = repo_summary(&rs[i]);
        list = list.and(item);
        assert(rs@.take(i + 1).map_values(|r: RepoRecord| repo_summary_view(r)) =~= rs@.take(
            i as int,
        ).map_values(|r: RepoRecord| repo_summary_view(r)).push(repo_summary_view(rs@[i as int])));
        i = i + 1;
    }
    assert(rs@.take(n as int) =~= rs@);
    let v = JsonValue::empty_object().with("repositories", list).with("count", JsonValue::number(n as u64));
    assert(json_view(v) == repos_view(rs@)) by {
        if let JsonView::Object(m) = json_view(v) {
            if let JsonView::Object(k) = repos_view(rs@) {
                assert(m =~= k);
            }
        }
    }
    Ok(v)
}

/// The checks before a repository is fetched, given what the UUID parser
/// made of `repo_id`: the server must have an SCM repository store, and the
/// id must parse; its value is the key to fetch.
pub fn repo_lookup(store_configured: bool, repo_id: &str, parsed: Option<u128>) -> (r: Result<u128, McpError>)
    ensures
        !store_configured ==> (r matches Err(e) && e.is_internal(NO_REPO_STORE@)),
        store_configured && parsed is None ==> (r matches Err(e) && e.is_invalid_params(
            INVALID_REPO_ID@ + repo_id@,
        )),
        store_configured && parsed is Some ==> r == Ok::<u128, McpError>(parsed->0),
{
    if !store_configured {
        return Err(McpError::Internal(owned(NO_REPO_STORE)));
    }
    match parsed {
        Some(u) => Ok(u),
        None => {
            let mut m = owned(INVALID_REPO_ID);
            m.append(repo_id);
            Err(McpError::InvalidParams(m))
        },
    }
}

/// The checks before a repository is fetched, parsing the id with
/// `uuid::Uuid::parse_str`.
pub fn start_repo_lookup(store_configured: bool, repo_id: &str) -> (r: Result<u128, McpError>)
    ensures
        !store_configured ==> (r matches Err(e) && e.is_internal(NO_REPO_STORE@)),
        store_configured && parsed_uuid(repo_id@) is None ==> (r matches Err(e)
            && e.is_invalid_params(INVALID_REPO_ID@ + repo_id@)),
        store_configured && parsed_uuid(repo_id@) is Some ==> r == Ok::<u128, McpError>(
            parsed_uuid(repo_id@)->0,
        ),
{
    if !store_configured {
        return repo_lookup(false, repo_id, None);
    }
    let parsed = parse_uuid(repo_id);
    repo_lookup(true, repo_id, parsed)
}

/// The repository the store returned for `repo_id`: a failed fetch is an
/// internal error and a missing repository an invalid parameter.
pub fn repo_found(repo_id: &str, fetched: Result<Option<RepoRecord>, String>) -> (r: Result<RepoRecord, McpError>)
    ensures
        match fetched {
            Err(e) => r matches Err(x) && x.is_internal(GET_REPO_FAILED@ + e@),
            Ok(None) => r matches Err(x) && x.is_invalid_params(REPO_NOT_FOUND@ + repo_id@),
            Ok(Some(v)) => r == Ok::<RepoRecord, McpError>(v),
        },
{
    match fetched {
        Err(e) => {
            let mut m = owned(GET_REPO_FAILED);
            m.append(e.as_str());
            Err(McpError::Internal(m))
        },
        Ok(None) => {
            let mut m = owned(REPO_NOT_FOUND);
            m.append(repo_id);
            Err(McpError::InvalidParams(m))
        },
        Ok(Some(v)) => Ok(v),
    }
}

/// The answer to `loom://repos/{id}`.
pub fn repo_content(r: &RepoRecord) -> (v: JsonValue)
    ensures
        json_view(v) == repo_view(*r),
{
    let v = repo_summary(r).with("updated_at", JsonValue::string(r.updated_at.as_str()));
    v
}

/// A weaver as `loom://weavers` lists it.
pub open spec fn weaver_summary_view(w: WeaverInfo) -> JsonView {
    JsonView::Object(seq![
        ("id"@, JsonView::Str(w.id@)),
        ("image"@, JsonView::Str(w.image@)),
        ("status"@, JsonView::Str(status_name(w.status))),
        ("pod_name"@, JsonView::Str(w.pod_name@)),
        ("age_hours"@, JsonView::Num(w.age_hours_number@)),
        ("lifetime_hours"@, JsonView::Num(decimal(w.lifetime_hours as nat))),
    ])
}

/// The content of `loom://weavers`.
pub open spec fn weavers_view(ws: Seq<WeaverInfo>) -> JsonView {
    JsonView::Object(seq![
        ("weavers"@, JsonView::Array(ws.map_values(|w: WeaverInfo| weaver_summary_view(w)))),
        ("count"@, JsonView::Num(decimal(ws.len()))),
    ])
}

/// The tags of a weaver as a JSON object of strings, in their order.
pub open spec fn tags_view(p: Seq<(Seq<char>, Seq<char>)>) -> JsonView {
    JsonView::Object(p.map_values(|e: (Seq<char>, Seq<char>)| (e.0, JsonView::Str(e.1))))
}

/// The content of `loom://weavers/{id}`.
pub open spec fn weaver_view(w: WeaverInfo) -> JsonView {
    JsonView::Object(seq![
        ("id"@, JsonView::Str(w.id@)),
        ("image"@, JsonView::Str(w.image@)),
        ("status"@, JsonView::Str(status_name(w.status))),
        ("pod_name"@, JsonView::Str(w.pod_name@)),
        ("owner_user_id"@, JsonView::Str(w.owner_user_id@)),
        ("age_hours"@, JsonView::Num(w.age_hours_number@)),
        ("lifetime_hours"@, JsonView::Num(decimal(w.lifetime_hours as nat))),
        ("tags"@, tags_view(w.tags.pairs())),
        ("created_at"@, JsonView::Str(w.created_at@)),
    ])
}

fn weaver_summary(w: &WeaverInfo) -> (v: JsonValue)
    ensures
        json_view(v) == weaver_summary_view(*w),
{
    let v = JsonValue::empty_object().with("id", JsonValue::string(w.id.as_str())).with(
        "image",
        JsonValue::string(w.image.as_str()),
    ).with("status", JsonValue::string(w.status.name())).with(
        "pod_name",
        JsonValue::string(w.pod_name.as_str()),
    ).with("age_hours", JsonValue::Num(w.age_hours_number.clone())).with(
        "lifetime_hours",
        JsonValue::number(w.lifetime_hours as u64),
    );
    assert(json_view(v) == weaver_summary_view(*w)) by {
        if let JsonView::Object(m) = json_view(v) {
            if let JsonView::Object(k) = weaver_summary_view(*w) {
                assert(m =~= k);
            }
        }
    }
    v
}

/// The answer to `loom://weavers` once the provisioner has returned the
/// weavers the caller sees.
pub fn weavers_content(ws: &Vec<WeaverInfo>) -> (r: JsonValue)
    ensures
        json_view(r) == weavers_view(ws@),
{
    let n = ws.len();
    let mut list = JsonValue::empty_array();
    assert(ws@.take(0).map_values(|w: WeaverInfo| weaver_summary_view(w)) =~= Seq::<JsonView>::empty());
    let mut i: usize = 0;
    while i < n
        invariant
            n == ws@.len(),
            i <= n,
            json_view(list) == JsonView::Array(
                ws@.take(i as int).map_values(|w: WeaverInfo| weaver_summary_view(w)),
            ),
        decreases n - i,
    {
        let item = weaver_summary(&ws[i]);
        list = list.and(item);
        assert(ws@.take(i + 1).map_values(|w: WeaverInfo| weaver_summary_view(w)) =~= ws@.take(
            i as int,
        ).map_values(|w: WeaverInfo| weaver_summary_view(w)).push(weaver_summary_view(ws@[i as int])));
        i = i + 1;
    }
    assert(ws@.take(n as int) =~= ws@);
    let r = JsonValue::empty_object().with("weavers", list).with("count", JsonValue::number(n as u64));
    assert(json_view(r) == weavers_view(ws@)) by {
        if let JsonView::Object(m) = json_view(r) {
            if let JsonView::Object(k) = weavers_view(ws@) {
                assert(m =~= k);
            }
        }
    }
    r
}

/// The checks before a weaver is read as a resource: the server must have a
/// provisioner, and the id must be a weaver id (`id_is_valid`, as the weaver
/// id parser decided).
pub fn start_weaver_read(provisioner_configured: bool, weaver_id: &str, id_is_valid: bool) -> (r: Result<(), McpError>)
    ensures
        !provisioner_configured ==> (r matches Err(e) && e.is_internal(crate::tools::NO_PROVISIONER@)),
        provisioner_configured && !id_is_valid ==> (r matches Err(e) && e.is_invalid_params(
            INVALID_WEAVER_ID@ + weaver_id@,
        )),
        provisioner_configured && id_is_valid ==> r is Ok,
{
    crate::tools::require_provisioner(provisioner_configured)?;
    if !id_is_valid {
        let mut m = owned(INVALID_WEAVER_ID);
        m.append(weaver_id);
        return Err(McpError::InvalidParams(m));
    }
    Ok(())
}

fn tags_object(w: &WeaverInfo) -> (v: JsonValue)
    ensures
        json_view(v) == tags_view(w.tags.pairs()),
{
    let n = w.tags.len();
    let ghost p = w.tags.pairs();
    let mut v = JsonValue::empty_object();
    assert(p.take(0).map_values(|e: (Seq<char>, Seq<char>)| (e.0, JsonView::Str(e.1))) =~= Seq::<
        (Seq<char>, JsonView),
    >::empty());
    let mut i: usize = 0;
    while i < n
        invariant
            n == p.len(),
            p == w.tags.pairs(),
            i <= n,
            json_view(v) == JsonView::Object(
                p.take(i as int).map_values(|e: (Seq<char>, Seq<char>)| (e.0, JsonView::Str(e.1))),
            ),
        decreases n - i,
    {
        let (k, t) = w.tags.entry(i);
        v = v.with(k.as_str(), JsonValue::string(t.as_str()));
        assert(p.take(i + 1).map_values(|e: (Seq<char>, Seq<char>)| (e.0, JsonView::Str(e.1)))
            =~= p.take(i as int).map_values(|e: (Seq<char>, Seq<char>)| (e.0, JsonView::Str(e.1))).push(
            (p[i as int].0, JsonView::Str(p[i as int].1)),
        ));
        i = i + 1;
    }
    assert(p.take(n as int) =~= p);
    v
}

/// The answer to `loom://weavers/{id}` once the weaver has been fetched: a
/// caller who may not read the weaver is refused.
pub fn weaver_content(user: &UserInfo, w: &WeaverInfo) -> (r: Result<JsonValue, McpError>)
    ensures
        !may_read_weaver(*user, w.owner_user_id@) ==> (r matches Err(e) && e.is_forbidden(
            NO_READ_ACCESS@,
        )),
        may_read_weaver(*user, w.owner_user_id@) ==> (r matches Ok(v) && json_view(v)
            == weaver_view(*w)),
{
    if !crate::access::can_read_weaver(user, w) {
        return Err(McpError::Forbidden(owned(NO_READ_ACCESS)));
    }
    let v = JsonValue::empty_object().with("id", JsonValue::string(w.id.as_str())).with(
        "image",
        JsonValue::string(w.image.as_str()),
    ).with("status", JsonValue::string(w.status.name())).with(
        "pod_name",
        JsonValue::string(w.pod_name.as_str()),
    ).with("owner_user_id", JsonValue::string(w.owner_user_id.as_str())).with(
        "age_hours",
        JsonValue::Num(w.age_hours_number.clone()),
    ).with("lifetime_hours", JsonValue::number(w.lifetime_hours as u64)).with(
        "tags",
        tags_object(w),
    ).with("created_at", JsonValue::string(w.created_at.as_str()));
    assert(json_view(v) == weaver_view(*w)) by {
        if let JsonView::Object(m) = json_view(v) {
            if let JsonView::Object(k) = weaver_view(*w) {
                assert(m =~= k);
            }
        }
    }
    Ok(v)
}

} // verus!
