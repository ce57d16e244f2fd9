//! JSON values built by the library: tool input schemas, audit details and
//! the contents of resources.

use vstd::prelude::*;

use crate::text::{decimal, decimal_string, str_eq};

verus! {

/// A JSON value. Object members keep the order in which they are written.
#[derive(Debug, PartialEq)]
pub enum JsonValue {
    Null,
    Bool(bool),
    /// A number, by its JSON text.
    Num(String),
    Str(String),
    Array(Vec<JsonValue>),
    Object(Vec<(String, JsonValue)>),
}

/// What a JSON value says, with its strings as character sequences.
pub enum JsonView {
    Null,
    Bool(bool),
    Num(Seq<char>),
    Str(Seq<char>),
    Array(Seq<JsonView>),
    Object(Seq<(Seq<char>, JsonView)>),
}

/// The view of a JSON value.
pub open spec fn json_view(v: JsonValue) -> JsonView
    decreases v, 1int,
{
    match v {
        JsonValue::Null => JsonView::Null,
        JsonValue::Bool(b) => JsonView::Bool(b),
        JsonValue::Num(t) => JsonView::Num(t@),
        JsonValue::Str(s) => JsonView::Str(s@),
        JsonValue::Array(a) => JsonView::Array(items_view(a@)),
        JsonValue::Object(m) => JsonView::Object(members_view(m@)),
    }
}

/// The views of a sequence of JSON values.
pub open spec fn items_view(s: Seq<JsonValue>) -> Seq<JsonView>
    decreases s, 0int,
{
    if s.len() == 0 {
        Seq::empty()
    } else {
        seq![json_view(s[0])] + items_view(s.subrange(1, s.len() as int))
    }
}

/// The views of a sequence of object members.
pub open spec fn members_view(s: Seq<(String, JsonValue)>) -> Seq<(Seq<char>, JsonView)>
    decreases s, 0int,
{
    if s.len() == 0 {
        Seq::empty()
    } else {
        seq![(s[0].0@, json_view(s[0].1))] + members_view(s.subrange(1, s.len() as int))
    }
}


/// Viewing a sequence with one more value appends that value's view.
pub proof fn lemma_items_view_push(s: Seq<JsonValue>, x: JsonValue)
    ensures
        items_view(s.push(x)) == items_view(s).push(json_view(x)),
    decreases s.len(),
{
    let t = s.push(x);
    if s.len() == 0 {
        assert(t.subrange(1, t.len() as int) =~= Seq::<JsonValue>::empty());
        assert(items_view(Seq::<JsonValue>::empty()) == Seq::<JsonView>::empty());
        assert(items_view(s) == Seq::<JsonView>::empty());
        assert(t[0] == x);
        assert(items_view(t) =~= items_view(s).push(json_view(x)));
    } else {
        let tail = s.subrange(1, s.len() as int);
        lemma_items_view_push(tail, x);
        assert(t.subrange(1, t.len() as int) =~= tail.push(x));
        assert(t[0] == s[0]);
        assert(items_view(t) == seq![json_view(t[0])] + items_view(t.subrange(1, t.len() as int)));
        assert(items_view(s) == seq![json_view(s[0])] + items_view(tail));
        assert(items_view(t) =~= items_view(s).push(json_view(x)));
    }
}

/// Viewing a member sequence with one more member appends that member's view.
pub proof fn lemma_members_view_push(s: Seq<(String, JsonValue)>, x: (String, JsonValue))
    ensures
        members_view(s.push(x)) == members_view(s).push((x.0@, json_view(x.1))),
    decreases s.len(),
{
    let t = s.push(x);
    if s.len() == 0 {
        assert(t.subrange(1, t.len() as int) =~= Seq::<(String, JsonValue)>::empty());
        assert(members_view(Seq::<(String, JsonValue)>::empty()) == Seq::<(Seq<char>, JsonView)>::empty());
        assert(members_view(s) == Seq::<(Seq<char>, JsonView)>::empty());
        assert(t[0] == x);
        assert(members_view(t) =~= members_view(s).push((x.0@, json_view(x.1))));
    } else {
        let tail = s.subrange(1, s.len() as int);
        lemma_members_view_push(tail, x);
        assert(t.subrange(1, t.len() as int) =~= tail.push(x));
        assert(t[0] == s[0]);
        assert(members_view(t) == seq![(t[0].0@, json_view(t[0].1))] + members_view(
            t.subrange(1, t.len() as int),
        ));
        assert(members_view(s) == seq![(s[0].0@, json_view(s[0].1))] + members_view(tail));
        assert(members_view(t) =~= members_view(s).push((x.0@, json_view(x.1))));
    }
}

/// The JSON string of an optional text, `null` where there is none.
pub open spec fn opt_str_view(s: Option<String>) -> JsonView {
    match s {
        Some(t) => JsonView::Str(t@),
        None => JsonView::Null,
    }
}

/// `i` is the position of the first member of `m` named `key`.
pub open spec fn first_member(m: Seq<(String, JsonValue)>, key: Seq<char>, i: int) -> bool {
    &&& 0 <= i < m.len()
    &&& m[i].0@ == key
    &&& forall|j: int| 0 <= j < i ==> m[j].0@ != key
}

impl JsonValue {
    /// The JSON string `s`.
    pub fn string(s: &str) -> (r: JsonValue)
        ensures
            json_view(r) == JsonView::Str(s@),
    {
        JsonValue::Str(String::from_str(s))
    }

    /// The JSON string `s`, or `null` where there is none.
    pub fn opt_string(s: &Option<String>) -> (r: JsonValue)
        ensures
            json_view(r) == opt_str_view(*s),
    {
        match s {
            Some(t) => JsonValue::Str(t.clone()),
            None => JsonValue::Null,
        }
    }

    /// The JSON number `n`.
    pub fn number(n: u64) -> (r: JsonValue)
        ensures
            json_view(r) == JsonView::Num(decimal(n as nat)),
    {
        JsonValue::Num(decimal_string(n))
    }

    /// An empty JSON object.
    pub fn empty_object() -> (r: JsonValue)
        ensures
            json_view(r) == JsonView::Object(Seq::empty()),
    {
        let r = JsonValue::Object(Vec::new());
        assert(members_view(Seq::<(String, JsonValue)>::empty()) =~= Seq::empty());
        r
    }

    /// An empty JSON array.
    pub fn empty_array() -> (r: JsonValue)
        ensures
            json_view(r) == JsonView::Array(Seq::empty()),
    {
        let r = JsonValue::Array(Vec::new());
        assert(items_view(Seq::<JsonValue>::empty()) =~= Seq::empty());
        r
    }

    /// Appends the member `key: value` to an object; other values are left alone.
    pub fn with(self, key: &str, value: JsonValue) -> (r: JsonValue)
        ensures
            json_view(self) matches JsonView::Object(m) ==> json_view(r) == JsonView::Object(
                m.push((key@, json_view(value))),
            ),
            !(json_view(self) is Object) ==> r == self,
    {
        match self {
            JsonValue::Object(mut members) => {
                let ghost old_members = members@;
                let k = String::from_str(key);
                let ghost kv = k@;
                let ghost vv = json_view(value);
                members.push((k, value));
                proof {
                    lemma_members_view_push(old_members, members@.last());
                    assert(old_members.push(members@.last()) =~= members@);
                }
                JsonValue::Object(members)
            },
            other => other,
        }
    }

    /// Appends `item` to an array; other values are left alone.
    pub fn and(self, item: JsonValue) -> (r: JsonValue)
        ensures
            json_view(self) matches JsonView::Array(a) ==> json_view(r) == JsonView::Array(
                a.push(json_view(item)),
            ),
            !(json_view(self) is Array) ==> r == self,
    {
        match self {
            JsonValue::Array(mut items) => {
                let ghost old_items = items@;
                items.push(item);
                proof {
                    lemma_items_view_push(old_items, items@.last());
                    assert(old_items.push(items@.last()) =~= items@);
                }
                JsonValue::Array(items)
            },
            other => other,
        }
    }

    /// The first member of an object named `key`, if the value is an object
    /// that has one.
    pub fn get(&self, key: &str) -> (r: Option<&JsonValue>)
        ensures
            match r {
                Some(v) => self matches JsonValue::Object(m) && exists|i: int|
                    #[trigger] first_member(m@, key@, i) && m@[i].1 == *v,
                None => !(self matches JsonValue::Object(m) && exists|i: int|
                    0 <= i < m@.len() && #[trigger] m@[i].0@ == key@),
            },
    {
        match self {
            JsonValue::Object(members) => {
                let n = members.len();
                let mut i: usize = 0;
                while i < n
                    invariant
                        *self == JsonValue::Object(*members),
                        n == members@.len(),
                        i <= n,
                        forall|j: int| 0 <= j < i ==> members@[j].0@ != key@,
                    decreases n - i,
                {
                    if str_eq(members[i].0.as_str(), key) {
                        assert(first_member(members@, key@, i as int));
                        let r = &members[i].1;
                        assert(members@[i as int].1 == *r);
                        assert(self matches JsonValue::Object(m) && first_member(m@, key@, i as int) && m@[i as int].1 == *r);
                        return Some(&members[i].1);
                    }
                    i = i + 1;
                }
                None
            },
            _ => None,
        }
    }

    /// The items, if the value is an array.
    pub fn as_array(&self) -> (r: Option<&Vec<JsonValue>>)
        ensures
            match r {
                Some(a) => *self == JsonValue::Array(*a),
                None => !(self is Array),
            },
    {
        match self {
            JsonValue::Array(a) => Some(a),
            _ => None,
        }
    }

    /// The members, if the value is an object.
    pub fn as_object(&self) -> (r: Option<&Vec<(String, JsonValue)>>)
        ensures
            match r {
                Some(m) => *self == JsonValue::Object(*m),
                None => !(self is Object),
            },
    {
        match self {
            JsonValue::Object(m) => Some(m),
            _ => None,
        }
    }
}

} // verus!
