//! The resources capability: the resources and URI templates offered to
//! clients, the routing of a `loom://` URI, and who may read what.

use vstd::prelude::*;

use crate::access::UserInfo;
use crate::error::McpError;
use crate::text::{
    lemma_split_on_concat, lemma_split_on_without_separator, owned, split, split_on, str_eq,
};
use crate::types::{
    Resource, ResourceContent, ResourceTemplate, ResourceTemplatesListResult, ResourceView,
    ResourcesListResult, ResourcesReadResult,
};

verus! {

pub const JSON_MIME: &'static str = "application/json";
pub const SCHEME: &'static str = "loom://";
pub const THREADS: &'static str = "threads";
pub const REPOS: &'static str = "repos";
pub const WEAVERS: &'static str = "weavers";
pub const MESSAGES: &'static str = "messages";
pub const INVALID_URI: &'static str = "Invalid resource URI: ";
pub const UNKNOWN_PATH: &'static str = "Unknown resource path: ";
pub const THREAD_URI_PREFIX: &'static str = "loom://threads/";
pub const THREAD_NAME_PREFIX: &'static str = "Thread ";
pub const THREAD_DESCRIPTION: &'static str = "Conversation thread";
pub const NO_THREAD_ACCESS: &'static str = "You don't have access to this thread";
pub const NO_REPO_ACCESS: &'static str = "You don't have access to this repository";

/// A resource described as JSON.
pub open spec fn json_resource(uri: Seq<char>, name: Seq<char>, description: Seq<char>) -> ResourceView {
    ResourceView { uri, name, description: Some(description), mime_type: Some(JSON_MIME@) }
}

/// The resources every user is offered, before their threads.
pub open spec fn fixed_resources() -> Seq<ResourceView> {
    seq![
        json_resource("loom://threads"@, "Threads"@, "List of your conversation threads"@),
        json_resource("loom://repos"@, "Repositories"@, "List of your repositories"@),
        json_resource(
            "loom://weavers"@,
            "Weavers"@,
            "List of your active weavers (execution environments)"@,
        ),
    ]
}

/// A conversation thread of the caller, as the thread store lists it.
#[derive(Debug)]
pub struct ThreadSummary {
    pub id: String,
    pub title: Option<String>,
}

/// The resource offered for one of the caller's threads: named by its title,
/// or by its id where it has none.
pub open spec fn thread_resource(t: ThreadSummary) -> ResourceView {
    json_resource(
        THREAD_URI_PREFIX@ + t.id@,
        match t.title {
            Some(title) => title@,
            None => THREAD_NAME_PREFIX@ + t.id@,
        },
        THREAD_DESCRIPTION@,
    )
}

/// The resources offered to a user whose threads are `threads`.
pub open spec fn offered_resources(threads: Seq<ThreadSummary>) -> Seq<ResourceView> {
    fixed_resources() + threads.map_values(|t: ThreadSummary| thread_resource(t))
}

fn json_resource_of(uri: String, name: String, description: &str) -> (r: Resource)
    ensures
        r@ == json_resource(uri@, name@, description@),
{
    Resource { uri, name, description: Some(owned(description)), mime_type: Some(owned(JSON_MIME)) }
}

/// How many of the caller's threads `resources/list` asks the thread store for.
pub const OFFERED_THREADS: u32 = 50;

/// How many of the caller's threads `loom://threads` asks the thread store for.
pub const LISTED_THREADS: u32 = 100;

/// The threads offered once the thread store has answered: none where the
/// listing failed.
pub open spec fn listed_threads(listed: Result<Vec<ThreadSummary>, String>) -> Seq<ThreadSummary> {
    match listed {
        Ok(ts) => ts@,
        Err(_) => Seq::empty(),
    }
}

/// The resources offered to the caller once the thread store has listed the
/// caller's threads (at most `OFFERED_THREADS` of them) or failed: the
/// thread, repository and weaver listings, then one resource per listed
/// thread. A failed listing is no error: the three listings are offered
/// alone.
pub fn list_resources(listed: Result<Vec<ThreadSummary>, String>) -> (r: ResourcesListResult)
    ensures
        r@ == offered_resources(listed_threads(listed)),
        listed is Err ==> r@ == fixed_resources(),
{
    let threads = match listed {
        Ok(ts) => ts,
        Err(_) => Vec::new(),
    };
    let r = offer_threads(&threads);
    proof {
        if listed is Err {
            assert(offered_resources(Seq::<ThreadSummary>::empty()) =~= fixed_resources());
        }
    }
    r
}

fn offer_threads(threads: &Vec<ThreadSummary>) -> (r: ResourcesListResult)
    ensures
        r@ == offered_resources(threads@),
{
    let mut resources: Vec<Resource> = Vec::new();
    resources.push(
        json_resource_of(owned("loom://threads"), owned("Threads"), "List of your conversation threads"),
    );
    resources.push(json_resource_of(owned("loom://repos"), owned("Repositories"), "List of your repositories"));
    resources.push(
        json_resource_of(
            owned("loom://weavers"),
            owned("Weavers"),
            "List of your active weavers (execution environments)",
        ),
    );
    assert(resources@.map_values(|r: Resource| r@) =~= fixed_resources());
    let n = threads.len();
    let mut i: usize = 0;
    while i < n
        invariant
            n == threads@.len(),
            i <= n,
            resources@.map_values(|r: Resource| r@) == offered_resources(threads@.take(i as int)),
        decreases n - i,
    {
        let t = &threads[i];
        let mut uri = owned(THREAD_URI_PREFIX);
        uri.append(t.id.as_str());
        let name = match &t.title {
            Some(title) => title.clone(),
            None => {
                let mut n = owned(THREAD_NAME_PREFIX);
                n.append(t.id.as_str());
                n
            },
        };
        let ghost before = resources@.map_values(|r: Resource| r@);
        resources.push(json_resource_of(uri, name, THREAD_DESCRIPTION));
        assert(resources@.map_values(|r: Resource| r@) =~= before.push(thread_resource(threads@[i as int])));
        assert(offered_resources(threads@.take(i + 1)) =~= offered_resources(threads@.take(i as int)).push(
            thread_resource(threads@[i as int]),
        ));
        i = i + 1;
    }
    assert(threads@.take(n as int) =~= threads@);
    ResourcesListResult { resources }
}

/// The URI templates that clients may fill in, in order.
pub open spec fn template_catalogue() -> Seq<ResourceView> {
    seq![
        json_resource("loom://threads/{thread_id}"@, "Thread"@, "A conversation thread by ID"@),
        json_resource(
            "loom://threads/{thread_id}/messages"@,
            "Thread Messages"@,
            "Messages in a conversation thread"@,
        ),
        json_resource("loom://repos/{repo_id}"@, "Repository"@, "A repository by ID"@),
        json_resource("loom://weavers/{weaver_id}"@, "Weaver"@, "An active weaver by ID"@),
    ]
}

fn json_template(uri_template: &str, name: &str, description: &str) -> (r: ResourceTemplate)
    ensures
        r@ == json_resource(uri_template@, name@, description@),
{
    ResourceTemplate {
        uri_template: owned(uri_template),
        name: owned(name),
        description: Some(owned(description)),
        mime_type: Some(owned(JSON_MIME)),
    }
}

/// The resource URI templates.
pub fn list_resource_templates() -> (r: ResourceTemplatesListResult)
    ensures
        r@ == template_catalogue(),
{
    let mut resource_templates: Vec<ResourceTemplate> = Vec::new();
    resource_templates.push(json_template("loom://threads/{thread_id}", "Thread", "A conversation thread by ID"));
    resource_templates.push(
        json_template(
            "loom://threads/{thread_id}/messages",
            "Thread Messages",
            "Messages in a conversation thread",
        ),
    );
    resource_templates.push(json_template("loom://repos/{repo_id}", "Repository", "A repository by ID"));
    resource_templates.push(json_template("loom://weavers/{weaver_id}", "Weaver", "An active weaver by ID"));
    let r = ResourceTemplatesListResult { resource_templates };
    assert(r@ =~= template_catalogue());
    r
}

/// What a `loom://` URI designates.
#[derive(Debug)]
pub enum ResourceRoute {
    Threads,
    Thread(String),
    ThreadMessages(String),
    Repos,
    Repo(String),
    Weavers,
    Weaver(String),
}

/// What a route says, with its id as characters.
pub enum RouteView {
    Threads,
    Thread(Seq<char>),
    ThreadMessages(Seq<char>),
    Repos,
    Repo(Seq<char>),
    Weavers,
    Weaver(Seq<char>),
}

impl View for ResourceRoute {
    type V = RouteView;

    open spec fn view(&self) -> RouteView {
        match self {
            ResourceRoute::Threads => RouteView::Threads,
            ResourceRoute::Thread(id) => RouteView::Thread(id@),
            ResourceRoute::ThreadMessages(id) => RouteView::ThreadMessages(id@),
            ResourceRoute::Repos => RouteView::Repos,
            ResourceRoute::Repo(id) => RouteView::Repo(id@),
            ResourceRoute::Weavers => RouteView::Weavers,
            ResourceRoute::Weaver(id) => RouteView::Weaver(id@),
        }
    }
}

/// The route of a path made of `parts` (the pieces between slashes).
pub open spec fn route_of_parts(parts: Seq<Seq<char>>) -> Option<RouteView> {
    if parts.len() == 1 && parts[0] == THREADS@ {
        Some(RouteView::Threads)
    } else if parts.len() == 2 && parts[0] == THREADS@ {
        Some(RouteView::Thread(parts[1]))
    } else if parts.len() == 3 && parts[0] == THREADS@ && parts[2] == MESSAGES@ {
        Some(RouteView::ThreadMessages(parts[1]))
    } else if parts.len() == 1 && parts[0] == REPOS@ {
        Some(RouteView::Repos)
    } else if parts.len() == 2 && parts[0] == REPOS@ {
        Some(RouteView::Repo(parts[1]))
    } else if parts.len() == 1 && parts[0] == WEAVERS@ {
        Some(RouteView::Weavers)
    } else if parts.len() == 2 && parts[0] == WEAVERS@ {
        Some(RouteView::Weaver(parts[1]))
    } else {
        None
    }
}

/// The URI starts with `loom://`.
pub open spec fn has_scheme(uri: Seq<char>) -> bool {
    uri.len() >= SCHEME@.len() && uri.take(SCHEME@.len() as int) == SCHEME@
}

/// Where `resources/read` of a URI leads: a URI outside `loom://` is
/// invalid, as is a path that names no resource.
pub open spec fn route_result(uri: Seq<char>) -> Result<RouteView, crate::error::ErrorView> {
    if !has_scheme(uri) {
        Err(crate::error::ErrorView::InvalidParams(INVALID_URI@ + uri))
    } else {
        let path = uri.skip(SCHEME@.len() as int);
        match route_of_parts(split_on(path, '/')) {
            Some(route) => Ok(route),
            None => Err(crate::error::ErrorView::InvalidParams(UNKNOWN_PATH@ + path)),
        }
    }
}

/// The first step of `resources/read`: decides which resource a URI
/// designates. Fetching that resource and checking the caller's access to
/// it are the steps that follow.
pub fn read_resource(uri: &str) -> (r: Result<ResourceRoute, McpError>)
    ensures
        crate::error::result_view(r) == route_result(uri@),
{
    proof {
        reveal_strlit("loom://");
    }
    let n = uri.unicode_len();
    if n < 7 || !str_eq(uri.substring_char(0, 7), SCHEME) {
        let mut m = owned(INVALID_URI);
        m.append(uri);
        return Err(McpError::InvalidParams(m));
    }
    let path = uri.substring_char(7, n);
    assert(path@ =~= uri@.skip(7));
    let parts = split(path, '/');
    let ghost pv = parts@.map_values(|p: String| p@);
    let k = parts.len();
    assert(pv.len() == k);
    let route = if k == 1 && str_eq(parts[0].as_str(), THREADS) {
        ResourceRoute::Threads
    } else if k == 2 && str_eq(parts[0].as_str(), THREADS) {
        ResourceRoute::Thread(parts[1].clone())
    } else if k == 3 && str_eq(parts[0].as_str(), THREADS) && str_eq(parts[2].as_str(), MESSAGES) {
        ResourceRoute::ThreadMessages(parts[1].clone())
    } else if k == 1 && str_eq(parts[0].as_str(), REPOS) {
        ResourceRoute::Repos
    } else if k == 2 && str_eq(parts[0].as_str(), REPOS) {
        ResourceRoute::Repo(parts[1].clone())
    } else if k == 1 && str_eq(parts[0].as_str(), WEAVERS) {
        ResourceRoute::Weavers
    } else if k == 2 && str_eq(parts[0].as_str(), WEAVERS) {
        ResourceRoute::Weaver(parts[1].clone())
    } else {
        let mut m = owned(UNKNOWN_PATH);
        m.append(path);
        return Err(McpError::InvalidParams(m));
    };
    Ok(route)
}

/// The caller may read a thread whose stored owner is `owner_user_id`: the
/// owner and system administrators may.
pub open spec fn may_read_thread(user: UserInfo, owner_user_id: Option<Seq<char>>) -> bool {
    owner_user_id == Some(user.id@) || user.is_system_admin
}

/// Whether the caller may read a thread owned by `owner_user_id` (`None`
/// where the thread records no owner).
pub fn check_thread_access(user: &UserInfo, owner_user_id: &Option<String>) -> (r: Result<(), McpError>)
    ensures
        may_read_thread(*user, crate::types::opt_text(*owner_user_id)) ==> r is Ok,
        !may_read_thread(*user, crate::types::opt_text(*owner_user_id)) ==> (r matches Err(e)
            && e.is_forbidden(NO_THREAD_ACCESS@)),
{
    let is_owner = match owner_user_id {
        Some(o) => *o == user.id,
        None => false,
    };
    if !is_owner && !user.is_system_admin {
        return Err(McpError::Forbidden(owned(NO_THREAD_ACCESS)));
    }
    Ok(())
}

/// The caller may read a repository owned by a user (not an organization)
/// whose UUID is `owner_id` when it is the caller, or when the caller is a
/// system administrator.
pub open spec fn may_read_repo(user: UserInfo, owned_by_user: bool, owner_id: u128) -> bool {
    (owned_by_user && owner_id == user.uuid) || user.is_system_admin
}

/// Whether the caller may read a repository; `owned_by_user` says whether
/// its owner is a user rather than an organization.
pub fn check_repo_access(user: &UserInfo, owned_by_user: bool, owner_id: u128) -> (r: Result<(), McpError>)
    ensures
        may_read_repo(*user, owned_by_user, owner_id) ==> r is Ok,
        !may_read_repo(*user, owned_by_user, owner_id) ==> (r matches Err(e) && e.is_forbidden(
            NO_REPO_ACCESS@,
        )),
{
    let is_owner = owned_by_user && owner_id == user.uuid;
    if !is_owner && !user.is_system_admin {
        return Err(McpError::Forbidden(owned(NO_REPO_ACCESS)));
    }
    Ok(())
}

/// The answer to `resources/read`: one JSON text.
pub fn json_contents(text: String) -> (r: ResourcesReadResult)
    ensures
        r.contents@.len() == 1,
        r.contents@[0] matches ResourceContent::Text { text: t, mime_type: Some(m) } && t@ == text@
            && m@ == JSON_MIME@,
{
    let mut contents: Vec<ResourceContent> = Vec::new();
    contents.push(ResourceContent::Text { text, mime_type: Some(owned(JSON_MIME)) });
    ResourcesReadResult { contents }
}


proof fn lemma_segment_facts()
    ensures
        !THREADS@.contains('/'),
        !REPOS@.contains('/'),
        !WEAVERS@.contains('/'),
        !MESSAGES@.contains('/'),
        THREADS@ != REPOS@,
        THREADS@ != WEAVERS@,
        REPOS@ != WEAVERS@,
        SCHEME@.len() == 7,
{
    reveal_strlit("threads");
    reveal_strlit("repos");
    reveal_strlit("weavers");
    reveal_strlit("messages");
    reveal_strlit("loom://");
    assert(THREADS@.len() == 7);
    assert(REPOS@.len() == 5);
    assert(WEAVERS@.len() == 7);
    assert(MESSAGES@.len() == 8);
    assert(THREADS@[0] != WEAVERS@[0]);
}

proof fn lemma_route_of_path(path: Seq<char>)
    requires
        SCHEME@.len() == 7,
    ensures
        route_result(SCHEME@ + path) == (match route_of_parts(split_on(path, '/')) {
            Some(route) => Ok(route),
            None => Err(crate::error::ErrorView::InvalidParams(UNKNOWN_PATH@ + path)),
        }),
{
    let uri = SCHEME@ + path;
    assert(uri.take(7) =~= SCHEME@);
    assert(uri.skip(7) =~= path);
}

/// The listing URIs route to their listings: `loom://threads`,
/// `loom://repos` and `loom://weavers`.
pub proof fn law_listing_uris_route_to_listings()
    ensures
        route_result(SCHEME@ + THREADS@) == Ok::<RouteView, crate::error::ErrorView>(RouteView::Threads),
        route_result(SCHEME@ + REPOS@) == Ok::<RouteView, crate::error::ErrorView>(RouteView::Repos),
        route_result(SCHEME@ + WEAVERS@) == Ok::<RouteView, crate::error::ErrorView>(RouteView::Weavers),
{
    lemma_segment_facts();
    lemma_route_of_path(THREADS@);
    lemma_route_of_path(REPOS@);
    lemma_route_of_path(WEAVERS@);
    lemma_split_on_without_separator(THREADS@, '/');
    lemma_split_on_without_separator(REPOS@, '/');
    lemma_split_on_without_separator(WEAVERS@, '/');
}

/// Each URI template, filled with an id that holds no slash, routes to the
/// resource it describes: `loom://threads/{id}`, `loom://threads/{id}/messages`,
/// `loom://repos/{id}` and `loom://weavers/{id}`.
pub proof fn law_filled_templates_route_to_their_resource(id: Seq<char>)
    requires
        !id.contains('/'),
    ensures
        route_result(SCHEME@ + THREADS@ + seq!['/'] + id) == Ok::<RouteView, crate::error::ErrorView>(
            RouteView::Thread(id),
        ),
        route_result(SCHEME@ + THREADS@ + seq!['/'] + id + seq!['/'] + MESSAGES@) == Ok::<
            RouteView,
            crate::error::ErrorView,
        >(RouteView::ThreadMessages(id)),
        route_result(SCHEME@ + REPOS@ + seq!['/'] + id) == Ok::<RouteView, crate::error::ErrorView>(
            RouteView::Repo(id),
        ),
        route_result(SCHEME@ + WEAVERS@ + seq!['/'] + id) == Ok::<RouteView, crate::error::ErrorView>(
            RouteView::Weaver(id),
        ),
{
    lemma_segment_facts();
    lemma_split_on_without_separator(THREADS@, '/');
    lemma_split_on_without_separator(REPOS@, '/');
    lemma_split_on_without_separator(WEAVERS@, '/');
    lemma_split_on_without_separator(MESSAGES@, '/');
    lemma_split_on_without_separator(id, '/');

    let p1 = THREADS@ + seq!['/'] + id;
    lemma_split_on_concat(THREADS@, id, '/');
    lemma_route_of_path(p1);
    assert(SCHEME@ + THREADS@ + seq!['/'] + id =~= SCHEME@ + p1);
    assert(split_on(p1, '/') =~= seq![THREADS@, id]);

    let p2 = THREADS@ + seq!['/'] + id + seq!['/'] + MESSAGES@;
    lemma_split_on_concat(THREADS@ + seq!['/'] + id, MESSAGES@, '/');
    lemma_route_of_path(p2);
    assert(SCHEME@ + THREADS@ + seq!['/'] + id + seq!['/'] + MESSAGES@ =~= SCHEME@ + p2);
    assert(split_on(p2, '/') =~= seq![THREADS@, id, MESSAGES@]);

    let p3 = REPOS@ + seq!['/'] + id;
    lemma_split_on_concat(REPOS@, id, '/');
    lemma_route_of_path(p3);
    assert(SCHEME@ + REPOS@ + seq!['/'] + id =~= SCHEME@ + p3);
    assert(split_on(p3, '/') =~= seq![REPOS@, id]);

    let p4 = WEAVERS@ + seq!['/'] + id;
    lemma_split_on_concat(WEAVERS@, id, '/');
    lemma_route_of_path(p4);
    assert(SCHEME@ + WEAVERS@ + seq!['/'] + id =~= SCHEME@ + p4);
    assert(split_on(p4, '/') =~= seq![WEAVERS@, id]);
}

/// Every resource that `resources/list` offers routes to a resource: the
/// listings to their listings, and each thread entry to its thread, as long
/// as the thread ids hold no slash.
pub proof fn law_offered_resources_route(ts: Seq<ThreadSummary>)
    requires
        forall|j: int| 0 <= j < ts.len() ==> !(#[trigger] ts[j].id@).contains('/'),
    ensures
        forall|i: int| 0 <= i < offered_resources(ts).len() ==> #[trigger] route_result(
            offered_resources(ts)[i].uri,
        ) is Ok,
        forall|j: int| 0 <= j < ts.len() ==> route_result(#[trigger] offered_resources(ts)[3 + j].uri)
            == Ok::<RouteView, crate::error::ErrorView>(RouteView::Thread(ts[j].id@)),
{
    reveal_strlit("loom://");
    reveal_strlit("threads");
    reveal_strlit("repos");
    reveal_strlit("weavers");
    reveal_strlit("loom://threads");
    reveal_strlit("loom://repos");
    reveal_strlit("loom://weavers");
    reveal_strlit("loom://threads/");
    law_listing_uris_route_to_listings();
    assert(SCHEME@ + THREADS@ =~= "loom://threads"@);
    assert(SCHEME@ + REPOS@ =~= "loom://repos"@);
    assert(SCHEME@ + WEAVERS@ =~= "loom://weavers"@);
    let o = offered_resources(ts);
    assert forall|j: int| 0 <= j < ts.len() implies route_result(#[trigger] o[3 + j].uri)
        == Ok::<RouteView, crate::error::ErrorView>(RouteView::Thread(ts[j].id@)) by {
        let id = ts[j].id@;
        law_filled_templates_route_to_their_resource(id);
        assert(o[3 + j] == thread_resource(ts[j]));
        assert(THREAD_URI_PREFIX@ + id =~= SCHEME@ + THREADS@ + seq!['/'] + id);
    }
    assert forall|i: int| 0 <= i < o.len() implies #[trigger] route_result(o[i].uri) is Ok by {
        if i >= 3 {
            assert(route_result(o[3 + (i - 3)].uri) is Ok);
        }
    }
}

/// Who may read a thread: a system administrator reads every thread,
/// whatever owner it records (or none); the recorded owner reads it; and a
/// caller who is neither is refused.
pub proof fn law_thread_access_table(user: UserInfo, owner: Option<Seq<char>>)
    ensures
        user.is_system_admin ==> may_read_thread(user, owner),
        may_read_thread(user, Some(user.id@)),
        !user.is_system_admin ==> (may_read_thread(user, owner) <==> owner == Some(user.id@)),
{
}

/// Who may read a repository: a system administrator reads every
/// repository; the user who owns it reads it; and no one else, so not the
/// members of an organization that owns it.
pub proof fn law_repo_access_table(user: UserInfo, owned_by_user: bool, owner_id: u128)
    ensures
        user.is_system_admin ==> may_read_repo(user, owned_by_user, owner_id),
        may_read_repo(user, true, user.uuid),
        !user.is_system_admin ==> (may_read_repo(user, owned_by_user, owner_id) <==> owned_by_user
            && owner_id == user.uuid),
{
}

/// Threads and repositories are read by their owner or a system
/// administrator only: unlike weavers, support engineers get no access to
/// other users' threads or repositories.
pub proof fn law_threads_and_repos_are_private(user: UserInfo, thread_owner: Seq<char>, repo_owner: u128)
    requires
        !user.is_system_admin,
        thread_owner != user.id@,
        repo_owner != user.uuid,
    ensures
        !may_read_thread(user, Some(thread_owner)),
        !may_read_thread(user, None),
        !may_read_repo(user, true, repo_owner),
        !may_read_repo(user, false, user.uuid),
{
}

} // verus!
