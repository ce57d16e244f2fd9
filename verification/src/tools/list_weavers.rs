//! The list_weavers tool.

use vstd::prelude::*;

use crate::access::{status_name, UserInfo, WeaverInfo, WeaverStatus};
use crate::json::{json_view, JsonValue, JsonView};
use crate::string_map::StringMap;
use crate::text::{ascii_lower, decimal, join, joined, lowercase_of, owned, push_decimal, str_eq, to_lowercase};
use crate::tools::schema::{
    string_map_property, string_map_property_view, string_property, string_property_view,
};
use crate::types::{ListWeaversArgs, Tool, ToolView, ToolsCallResult};

verus! {

pub const NAME: &'static str = "list_weavers";
pub const DESCRIPTION: &'static str = "List weavers (ephemeral Kubernetes pods) owned by the current user. System admins can see all weavers.";
pub const ORG_ID_DESCRIPTION: &'static str = "Filter by organization ID (optional)";
pub const STATUS_DESCRIPTION: &'static str = "Filter by weaver status (optional)";
pub const TAGS_DESCRIPTION: &'static str = "Filter by tags (optional)";

/// The status names a client may filter by.
pub open spec fn status_values_view() -> Seq<JsonView> {
    seq![
        JsonView::Str("pending"@),
        JsonView::Str("running"@),
        JsonView::Str("succeeded"@),
        JsonView::Str("failed"@),
        JsonView::Str("terminating"@),
    ]
}

/// The `status` property of the list_weavers schema.
pub open spec fn status_property_view() -> JsonView {
    JsonView::Object(seq![
        ("type"@, JsonView::Str("string"@)),
        ("enum"@, JsonView::Array(status_values_view())),
        ("description"@, JsonView::Str(STATUS_DESCRIPTION@)),
    ])
}

/// The values a client may filter by are the status names in lowercase,
/// one per status, in the order of the statuses.
pub proof fn law_status_values_are_lowercase_status_names()
    ensures
        status_values_view() == seq![
            JsonView::Str(status_name(WeaverStatus::Pending).map_values(|c: char| ascii_lower(c))),
            JsonView::Str(status_name(WeaverStatus::Running).map_values(|c: char| ascii_lower(c))),
            JsonView::Str(status_name(WeaverStatus::Succeeded).map_values(|c: char| ascii_lower(c))),
            JsonView::Str(status_name(WeaverStatus::Failed).map_values(|c: char| ascii_lower(c))),
            JsonView::Str(status_name(WeaverStatus::Terminating).map_values(|c: char| ascii_lower(c))),
        ],
{
    reveal_strlit("Pending");
    reveal_strlit("Running");
    reveal_strlit("Succeeded");
    reveal_strlit("Failed");
    reveal_strlit("Terminating");
    reveal_strlit("pending");
    reveal_strlit("running");
    reveal_strlit("succeeded");
    reveal_strlit("failed");
    reveal_strlit("terminating");
    assert("Pending"@.map_values(|c: char| ascii_lower(c)) =~= "pending"@);
    assert("Running"@.map_values(|c: char| ascii_lower(c)) =~= "running"@);
    assert("Succeeded"@.map_values(|c: char| ascii_lower(c)) =~= "succeeded"@);
    assert("Failed"@.map_values(|c: char| ascii_lower(c)) =~= "failed"@);
    assert("Terminating"@.map_values(|c: char| ascii_lower(c)) =~= "terminating"@);
}

/// The declaration of the list_weavers tool: every argument is optional.
pub open spec fn definition_view() -> ToolView {
    ToolView {
        name: NAME@,
        description: DESCRIPTION@,
        input_schema: JsonView::Object(seq![
            ("type"@, JsonView::Str("object"@)),
            ("properties"@, JsonView::Object(seq![
                ("org_id"@, string_property_view(ORG_ID_DESCRIPTION@)),
                ("status"@, status_property_view()),
                ("tags"@, string_map_property_view(TAGS_DESCRIPTION@)),
            ])),
        ]),
    }
}

fn status_property() -> (r: JsonValue)
    ensures
        json_view(r) == status_property_view(),
{
    let values = JsonValue::empty_array().and(JsonValue::string("pending")).and(
        JsonValue::string("running"),
    ).and(JsonValue::string("succeeded")).and(JsonValue::string("failed")).and(
        JsonValue::string("terminating"),
    );
    let ghost vv = json_view(values);
    assert(vv == JsonView::Array(status_values_view())) by {
        if let JsonView::Array(a) = vv {
            assert(a =~= status_values_view());
        }
    }
    let r = JsonValue::empty_object().with("type", JsonValue::string("string")).with(
        "enum",
        values,
    ).with("description", JsonValue::string(STATUS_DESCRIPTION));
    assert(json_view(r) == status_property_view()) by {
        if let JsonView::Object(m) = json_view(r) {
            if let JsonView::Object(n) = status_property_view() {
                assert(m =~= n);
            }
        }
    }
    r
}

/// The list_weavers tool definition.
pub fn definition() -> (r: Tool)
    ensures
        r@ == definition_view(),
{
    let props = JsonValue::empty_object().with("org_id", string_property(ORG_ID_DESCRIPTION)).with(
        "status",
        status_property(),
    ).with("tags", string_map_property(TAGS_DESCRIPTION));
    let ghost pv = json_view(props);
    let ghost expected = seq![
        ("org_id"@, string_property_view(ORG_ID_DESCRIPTION@)),
        ("status"@, status_property_view()),
        ("tags"@, string_map_property_view(TAGS_DESCRIPTION@)),
    ];
    assert(pv == JsonView::Object(expected)) by {
        if let JsonView::Object(m) = pv {
            assert(m =~= expected);
        }
    }
    let schema = JsonValue::empty_object().with("type", JsonValue::string("object")).with(
        "properties",
        props,
    );
    let r = Tool { name: owned(NAME), description: owned(DESCRIPTION), input_schema: schema };
    assert(r@.input_schema == definition_view().input_schema) by {
        if let JsonView::Object(m) = r@.input_schema {
            if let JsonView::Object(n) = definition_view().input_schema {
                assert(m =~= n);
            }
        }
    }
    r
}


/// Administrators and support engineers see every weaver; other users only
/// their own.
pub open spec fn sees_all_weavers(user: UserInfo) -> bool {
    user.is_system_admin || user.is_support
}

/// Which weavers the provisioner is asked for.
#[derive(Debug)]
pub enum WeaverQuery {
    /// Every weaver, narrowed by the provisioner to those carrying the tags
    /// given, if any.
    All { tags: Option<StringMap> },
    /// The weavers owned by this user.
    OwnedBy { user_id: String },
}

/// The provisioner query for a list_weavers call.
pub fn query(user: &UserInfo, args: &ListWeaversArgs) -> (r: WeaverQuery)
    ensures
        sees_all_weavers(*user) ==> (r matches WeaverQuery::All { tags } && if args.tags@ == Map::<Seq<char>, Seq<char>>::empty() {
            tags is None
        } else {
            tags matches Some(t) && t@ == args.tags@ && t.pairs() == args.tags.pairs()
        }),
        !sees_all_weavers(*user) ==> (r matches WeaverQuery::OwnedBy { user_id } && user_id@
            == user.id@),
{
    if user.is_system_admin || user.is_support {
        if args.tags.is_empty() {
            WeaverQuery::All { tags: None }
        } else {
            WeaverQuery::All { tags: Some(args.tags.duplicate()) }
        }
    } else {
        WeaverQuery::OwnedBy { user_id: user.id.clone() }
    }
}

/// The filters of a list_weavers call: organization, tags and status.
pub struct ListFilter {
    pub org: Option<Seq<char>>,
    pub tags: Map<Seq<char>, Seq<char>>,
    pub status: Option<Seq<char>>,
}

/// The filters that a list_weavers call's arguments give.
pub open spec fn filter_of(args: ListWeaversArgs) -> ListFilter {
    ListFilter { org: opt_arg(args.org_id), tags: args.tags@, status: opt_arg(args.status) }
}

/// Whether a fetched weaver is listed: an organization filter keeps the
/// weavers of that organization; a caller who sees only their own weavers
/// has the tag filter applied here (administrators had it applied by the
/// provisioner); and a status filter keeps the weavers whose status has the
/// same lowercase name.
pub open spec fn listed(user: UserInfo, f: ListFilter, w: WeaverInfo) -> bool {
    &&& f.org matches Some(o) ==> w.org_id@ == o
    &&& sees_all_weavers(user) || f.tags.submap_of(w.tags@)
    &&& f.status matches Some(s) ==> lowercase_of(status_name(w.status)) == lowercase_of(s)
}

/// How a weaver is shown in a listing.
pub open spec fn weaver_line(w: WeaverInfo) -> Seq<char> {
    "- "@ + w.id@ + " ("@ + status_name(w.status) + ") - "@ + w.image@ + " ["@ + w.age_hours_text@
        + "h old]"@
}

/// The lines of the listed weavers, in the order they were fetched.
pub open spec fn listed_lines(user: UserInfo, f: ListFilter, ws: Seq<WeaverInfo>) -> Seq<Seq<char>>
    decreases ws.len(),
{
    if ws.len() == 0 {
        Seq::empty()
    } else {
        let rest = listed_lines(user, f, ws.drop_last());
        if listed(user, f, ws.last()) {
            rest.push(weaver_line(ws.last()))
        } else {
            rest
        }
    }
}

/// The answer to list_weavers for the listed lines.
pub open spec fn listing_text(lines: Seq<Seq<char>>) -> Seq<char> {
    if lines.len() == 0 {
        "No weavers found."@
    } else {
        "Found "@ + decimal(lines.len()) + " weaver(s):\n\n"@ + joined(lines, "\n"@)
    }
}

/// The filters only ever narrow a listing: no more lines than weavers fetched.
pub proof fn law_listing_only_narrows(user: UserInfo, f: ListFilter, ws: Seq<WeaverInfo>)
    ensures
        listed_lines(user, f, ws).len() <= ws.len(),
    decreases ws.len(),
{
    if ws.len() > 0 {
        law_listing_only_narrows(user, f, ws.drop_last());
    }
}

/// Without an organization or status filter, every weaver fetched is
/// listed, in order, when the caller sees all weavers (the provisioner
/// applied the tags) or gave no tags.
pub proof fn law_unfiltered_listing_shows_every_weaver(user: UserInfo, f: ListFilter, ws: Seq<WeaverInfo>)
    requires
        f.org is None,
        f.status is None,
        sees_all_weavers(user) || f.tags == Map::<Seq<char>, Seq<char>>::empty(),
    ensures
        listed_lines(user, f, ws) == ws.map_values(|w: WeaverInfo| weaver_line(w)),
    decreases ws.len(),
{
    if ws.len() > 0 {
        law_unfiltered_listing_shows_every_weaver(user, f, ws.drop_last());
        assert(listed(user, f, ws.last()));
        assert(ws.map_values(|w: WeaverInfo| weaver_line(w)) =~= ws.drop_last().map_values(
            |w: WeaverInfo| weaver_line(w),
        ).push(weaver_line(ws.last())));
    } else {
        assert(ws.map_values(|w: WeaverInfo| weaver_line(w)) =~= Seq::<Seq<char>>::empty());
    }
}

/// The listing of a single fetched weaver.
proof fn lemma_listed_single(user: UserInfo, f: ListFilter, w: WeaverInfo)
    ensures
        listed_lines(user, f, seq![w]) == (if listed(user, f, w) {
            seq![weaver_line(w)]
        } else {
            Seq::<Seq<char>>::empty()
        }),
{
    assert(seq![w].drop_last() =~= Seq::<WeaverInfo>::empty());
    assert(listed_lines(user, f, Seq::<WeaverInfo>::empty()) == Seq::<Seq<char>>::empty());
    assert(seq![w].last() == w);
    if listed(user, f, w) {
        assert(Seq::<Seq<char>>::empty().push(weaver_line(w)) =~= seq![weaver_line(w)]);
    }
}

/// Every tag of the filter is carried by the weaver, with the same value.
pub open spec fn carries_tags(filter: Map<Seq<char>, Seq<char>>, weaver_tags: Map<Seq<char>, Seq<char>>) -> bool {
    forall|k: Seq<char>| #[trigger] filter.contains_key(k) ==> weaver_tags.contains_key(k)
        && weaver_tags[k] == filter[k]
}

/// For a caller who sees only their own weavers, with no organization or
/// status filter, a fetched weaver is listed exactly when it carries every
/// tag of the filter with the same value (whatever other tags it has); for
/// administrators and support engineers the provisioner applied the tags,
/// and every fetched weaver is listed.
pub proof fn law_tag_filter_keeps_weavers_carrying_the_tags(user: UserInfo, f: ListFilter, w: WeaverInfo)
    requires
        f.org is None,
        f.status is None,
    ensures
        !sees_all_weavers(user) ==> (listed_lines(user, f, seq![w]) == seq![weaver_line(w)]
            <==> carries_tags(f.tags, w.tags@)),
        !sees_all_weavers(user) ==> (listed_lines(user, f, seq![w]).len() == 0 <==> !carries_tags(
            f.tags,
            w.tags@,
        )),
        sees_all_weavers(user) ==> listed_lines(user, f, seq![w]) == seq![weaver_line(w)],
{
    lemma_listed_single(user, f, w);
    assert(seq![weaver_line(w)].len() == 1);
    assert(f.tags.submap_of(w.tags@) <==> carries_tags(f.tags, w.tags@)) by {
        if carries_tags(f.tags, w.tags@) {
            assert forall|k: Seq<char>| #[trigger] f.tags.dom().contains(k) implies w.tags@.dom().contains(
                k,
            ) && f.tags[k] == w.tags@[k] by {
                assert(f.tags.contains_key(k));
            }
        }
        if f.tags.submap_of(w.tags@) {
            assert forall|k: Seq<char>| #[trigger] f.tags.contains_key(k) implies w.tags@.contains_key(k)
                && w.tags@[k] == f.tags[k] by {
                assert(f.tags.dom().contains(k));
            }
        }
    }
}

/// A fetched weaver is listed exactly when it passes every filter given: it
/// belongs to the organization asked for, its status has the lowercase name
/// asked for, and, for a caller who sees only their own weavers, it carries
/// every tag asked for.
pub proof fn law_listing_applies_every_filter(user: UserInfo, f: ListFilter, w: WeaverInfo)
    ensures
        listed_lines(user, f, seq![w]).len() == 1 <==> {
            &&& (f.org matches Some(o) ==> w.org_id@ == o)
            &&& (f.status matches Some(s) ==> lowercase_of(status_name(w.status)) == lowercase_of(s))
            &&& (!sees_all_weavers(user) ==> carries_tags(f.tags, w.tags@))
        },
        listed_lines(user, f, seq![w]).len() <= 1,
{
    lemma_listed_single(user, f, w);
    assert(seq![weaver_line(w)].len() == 1);
    assert(f.tags.submap_of(w.tags@) <==> carries_tags(f.tags, w.tags@)) by {
        if carries_tags(f.tags, w.tags@) {
            assert forall|k: Seq<char>| #[trigger] f.tags.dom().contains(k) implies w.tags@.dom().contains(
                k,
            ) && f.tags[k] == w.tags@[k] by {
                assert(f.tags.contains_key(k));
            }
        }
        if f.tags.submap_of(w.tags@) {
            assert forall|k: Seq<char>| #[trigger] f.tags.contains_key(k) implies w.tags@.contains_key(k)
                && w.tags@[k] == f.tags[k] by {
                assert(f.tags.dom().contains(k));
            }
        }
    }
}

/// Tags only ever add to what a weaver carries: a weaver that is listed
/// stays listed when it carries more tags, its organization and status
/// unchanged.
pub proof fn law_more_tags_never_hide_a_weaver(user: UserInfo, f: ListFilter, w: WeaverInfo, v: WeaverInfo)
    requires
        listed_lines(user, f, seq![w]).len() == 1,
        w.tags@.submap_of(v.tags@),
        v.org_id@ == w.org_id@,
        v.status == w.status,
    ensures
        listed_lines(user, f, seq![v]).len() == 1,
{
    lemma_listed_single(user, f, w);
    lemma_listed_single(user, f, v);
    assert(seq![weaver_line(w)].len() == 1);
    if !listed(user, f, w) {
        assert(listed_lines(user, f, seq![w]).len() == 0);
    }
    assert(listed(user, f, w));
    if !sees_all_weavers(user) {
        assert(f.tags.submap_of(v.tags@)) by {
            assert forall|k: Seq<char>| #[trigger] f.tags.dom().contains(k) implies v.tags@.dom().contains(
                k,
            ) && f.tags[k] == v.tags@[k] by {
                assert(w.tags@.dom().contains(k));
                assert(f.tags[k] == w.tags@[k]);
                assert(w.tags@.dom().contains(k) && v.tags@.dom().contains(k) ==> w.tags@[k] == v.tags@[k]);
            }
        }
    }
    assert(listed(user, f, v));
}

/// The text of an optional string argument.
pub open spec fn opt_arg(o: Option<String>) -> Option<Seq<char>> {
    match o {
        Some(s) => Some(s@),
        None => None,
    }
}

fn is_listed(user: &UserInfo, args: &ListWeaversArgs, w: &WeaverInfo) -> (r: bool)
    ensures
        r == listed(*user, filter_of(*args), *w),
{
    if let Some(o) = &args.org_id {
        if !str_eq(w.org_id.as_str(), o.as_str()) {
            return false;
        }
    }
    if !(user.is_system_admin || user.is_support) && !args.tags.is_included_in(&w.tags) {
        return false;
    }
    match &args.status {
        Some(s) => {
            let a = to_lowercase(w.status.name());
            let b = to_lowercase(s.as_str());
            str_eq(a.as_str(), b.as_str())
        },
        None => true,
    }
}

fn weaver_line_of(w: &WeaverInfo) -> (r: String)
    ensures
        r@ == weaver_line(*w),
{
    let mut line = owned("- ");
    line.append(w.id.as_str());
    line.append(" (");
    line.append(w.status.name());
    line.append(") - ");
    line.append(w.image.as_str());
    line.append(" [");
    line.append(w.age_hours_text.as_str());
    line.append("h old]");
    line
}

/// Answers list_weavers once the provisioner has returned `weavers` for the
/// caller's query.
pub fn execute(user: &UserInfo, args: &ListWeaversArgs, weavers: &Vec<WeaverInfo>) -> (r: ToolsCallResult)
    ensures
        r.is_text(listing_text(listed_lines(*user, filter_of(*args), weavers@))),
{
    let ghost f = filter_of(*args);
    let n = weavers.len();
    let mut lines: Vec<String> = Vec::new();
    let mut i: usize = 0;
    while i < n
        invariant
            n == weavers@.len(),
            i <= n,
            f == filter_of(*args),
            lines@.map_values(|s: String| s@) == listed_lines(*user, f, weavers@.take(i as int)),
        decreases n - i,
    {
        let w = &weavers[i];
        let ghost before = lines@;
        proof {
            assert(weavers@.take(i + 1).drop_last() =~= weavers@.take(i as int));
            assert(weavers@.take(i + 1).last() == weavers@[i as int]);
        }
        if is_listed(user, args, w) {
            let line = weaver_line_of(w);
            lines.push(line);
            assert(lines@.map_values(|s: String| s@) =~= before.map_values(|s: String| s@).push(
                weaver_line(weavers@[i as int]),
            ));
        }
        i = i + 1;
    }
    assert(weavers@.take(n as int) =~= weavers@);
    if lines.len() == 0 {
        return ToolsCallResult::text(owned("No weavers found."));
    }
    let mut text = owned("Found ");
    push_decimal(&mut text, lines.len() as u64);
    text.append(" weaver(s):\n\n");
    let body = join(&lines, "\n");
    text.append(body.as_str());
    ToolsCallResult::text(text)
}

} // verus!
