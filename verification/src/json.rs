//! JSON values as the library reads and writes them: a tree of plain
//! values. Reading and writing JSON text is left to the `serde_json` crate.

use crate::text::str_eq;
use vstd::prelude::*;
use vstd::string::*;

verus! {

/// A JSON value.
#[derive(Debug)]
pub enum Json {
    Null,
    Bool(bool),
    /// A number, as JSON text writes it.
    Number(String),
    Text(String),
    Array(Vec<Json>),
    /// The members of an object, in their order.
    Object(Vec<Member>),
}

/// A member of an object: a value under a name.
#[derive(Debug)]
pub struct Member {
    pub name: String,
    pub value: Json,
}

/// A JSON value with its texts as sequences of characters.
pub ghost enum JsonView {
    Null,
    Bool(bool),
    Number(Seq<char>),
    Text(Seq<char>),
    Array(Seq<JsonView>),
    Object(Seq<MemberView>),
}

/// A member of an object with its name as a sequence of characters.
pub ghost struct MemberView {
    pub name: Seq<char>,
    pub value: JsonView,
}

impl View for Json {
    type V = JsonView;

    open spec fn view(&self) -> JsonView
        decreases self,
    {
        match self {
            Json::Null => JsonView::Null,
            Json::Bool(b) => JsonView::Bool(*b),
            Json::Number(n) => JsonView::Number(n@),
            Json::Text(t) => JsonView::Text(t@),
            Json::Array(items) => JsonView::Array(
                Seq::new(
                    items@.len(),
                    |i: int|
                        if 0 <= i < items@.len() {
                            items@[i].view()
                        } else {
                            JsonView::Null
                        },
                ),
            ),
            Json::Object(members) => JsonView::Object(
                Seq::new(
                    members@.len(),
                    |i: int|
                        if 0 <= i < members@.len() {
                            MemberView {
                                name: members@[i].name@,
                                value: members@[i].value.view(),
                            }
                        } else {
                            MemberView { name: Seq::empty(), value: JsonView::Null }
                        },
                ),
            ),
        }
    }
}

/// The views of a list of values, in order.
pub open spec fn items_view(items: Seq<Json>) -> Seq<JsonView> {
    Seq::new(items.len(), |i: int| items[i]@)
}

/// The views of a list of members, in order.
pub open spec fn members_view(members: Seq<Member>) -> Seq<MemberView> {
    Seq::new(members.len(), |i: int| MemberView { name: members[i].name@, value: members[i].value@ })
}

/// A member with a name.
pub open spec fn named(name: Seq<char>, value: JsonView) -> MemberView {
    MemberView { name, value }
}

/// The value of the first member with a name.
pub open spec fn member_of(members: Seq<MemberView>, name: Seq<char>) -> Option<JsonView>
    decreases members.len(),
{
    if members.len() == 0 {
        None
    } else if members.first().name == name {
        Some(members.first().value)
    } else {
        member_of(members.drop_first(), name)
    }
}

impl JsonView {
    /// The member of an object under a name; none for any other value.
    pub open spec fn member(self, name: Seq<char>) -> Option<JsonView> {
        match self {
            JsonView::Object(members) => member_of(members, name),
            _ => None,
        }
    }

    /// The items of an array; none for any other value.
    pub open spec fn items(self) -> Option<Seq<JsonView>> {
        match self {
            JsonView::Array(items) => Some(items),
            _ => None,
        }
    }

    /// The text of a string; none for any other value.
    pub open spec fn text(self) -> Option<Seq<char>> {
        match self {
            JsonView::Text(t) => Some(t),
            _ => None,
        }
    }

    /// The number of members of an object; none for any other value.
    pub open spec fn size(self) -> Option<nat> {
        match self {
            JsonView::Object(members) => Some(members.len()),
            _ => None,
        }
    }

    /// The member under `second` of the member under `first`.
    pub open spec fn member2(self, first: Seq<char>, second: Seq<char>) -> Option<JsonView> {
        match self.member(first) {
            Some(j) => j.member(second),
            None => None,
        }
    }

    /// The number of items of the array under a name; zero where there is
    /// no array under it.
    pub open spec fn count(self, name: Seq<char>) -> nat {
        match self.member(name) {
            Some(j) => match j.items() {
                Some(items) => items.len(),
                None => 0,
            },
            None => 0,
        }
    }

    /// The number of items of the array under `second` of the member under
    /// `first`; zero where there is no such array.
    pub open spec fn count2(self, first: Seq<char>, second: Seq<char>) -> nat {
        match self.member(first) {
            Some(j) => j.count(second),
            None => 0,
        }
    }

    /// The text under a name; none where there is no string under it.
    pub open spec fn text_at(self, name: Seq<char>) -> Option<Seq<char>> {
        match self.member(name) {
            Some(j) => j.text(),
            None => None,
        }
    }
}

/// `serde_json::Value`, the tree that the parser of `serde_json` builds.
#[verifier::external_type_specification]
#[verifier::external_body]
pub struct ExValue(serde_json::Value);

/// The value that `serde_json::from_str` reads from a text, or `None` where
/// the text is no JSON.
pub uninterp spec fn json_of(text: Seq<char>) -> Option<JsonView>;

/// What `{:?}` shows for the member `name` of the value that
/// `serde_json::from_str` reads from a text, where a text that is no JSON
/// counts as `null`.
pub uninterp spec fn member_debug_of(text: Seq<char>, name: Seq<char>) -> Seq<char>;

/// One `serde_json::Value` as a `Json`, variant for variant. A number is
/// kept as the text that `serde_json::Number` displays. Nothing is claimed
/// here; `parse` names what the two together return.
#[verifier::external_body]
fn from_value(value: serde_json::Value) -> (r: Json) {
    match value {
        serde_json::Value::Null => Json::Null,
        serde_json::Value::Bool(b) => Json::Bool(b),
        serde_json::Value::Number(n) => Json::Number(n.to_string()),
        serde_json::Value::String(s) => Json::Text(s),
        serde_json::Value::Array(a) => Json::Array(a.into_iter().map(from_value).collect()),
        serde_json::Value::Object(o) => Json::Object(
            o.into_iter().map(|(k, v)| Member { name: k, value: from_value(v) }).collect(),
        ),
    }
}

/// The text that `serde_json::to_string_pretty` writes for a value, or the
/// message of its error.
pub uninterp spec fn pretty_text_of(json: JsonView) -> Result<Seq<char>, Seq<char>>;

/// One `Json` as a `serde_json::Value`, variant for variant. A number is
/// read back from its text with `str::parse` for `serde_json::Number`, and
/// a text that is no number stands for `null`. Nothing is claimed here;
/// `pretty` names what the two together return.
#[verifier::external_body]
fn to_value(json: &Json) -> (r: serde_json::Value) {
    match json {
        Json::Null => serde_json::Value::Null,
        Json::Bool(b) => serde_json::Value::Bool(*b),
        Json::Number(n) => n.parse().map(serde_json::Value::Number).unwrap_or_default(),
        Json::Text(t) => serde_json::Value::String(t.clone()),
        Json::Array(a) => serde_json::Value::Array(a.iter().map(to_value).collect()),
        Json::Object(o) => serde_json::Value::Object(
            o.iter().map(|m| (m.name.clone(), to_value(&m.value))).collect(),
        ),
    }
}

/// `serde_json::to_string_pretty` for `serde_json::Value`: the value as
/// indented text, or the message of the error. The outcome depends on the
/// value alone.
#[verifier::external_body]
pub(crate) fn pretty(json: &Json) -> (r: Result<String, String>)
    ensures
        match r {
            Ok(text) => pretty_text_of(json@) == Ok::<Seq<char>, Seq<char>>(text@),
            Err(e) => pretty_text_of(json@) == Err::<Seq<char>, Seq<char>>(e@),
        },
{
    serde_json::to_string_pretty(&to_value(json)).map_err(|e| e.to_string())
}

/// The text that `serde_json::to_string` writes for a value, or the message
/// of its error.
pub uninterp spec fn compact_text_of(json: JsonView) -> Result<Seq<char>, Seq<char>>;

/// `serde_json::to_string` for `serde_json::Value`: the value as text
/// without white space, or the message of the error. The outcome depends
/// on the value alone.
#[verifier::external_body]
pub(crate) fn compact(json: &Json) -> (r: Result<String, String>)
    ensures
        match r {
            Ok(text) => compact_text_of(json@) == Ok::<Seq<char>, Seq<char>>(text@),
            Err(e) => compact_text_of(json@) == Err::<Seq<char>, Seq<char>>(e@),
        },
{
    serde_json::to_string(&to_value(json)).map_err(|e| e.to_string())
}

/// `serde_json::from_str` for `serde_json::Value`: the value that the text
/// holds, or `None` where it is no JSON. The outcome depends on the text
/// alone.
#[verifier::external_body]
pub(crate) fn parse(text: &str) -> (r: Option<Json>)
    ensures
        match r {
            Some(j) => json_of(text@) == Some(j@),
            None => json_of(text@) is None,
        },
{
    serde_json::from_str::<serde_json::Value>(text).ok().map(from_value)
}

/// `serde_json::Value::get` shown with `{:?}`, after `serde_json::from_str`
/// with `null` for a text that is no JSON.
#[verifier::external_body]
pub(crate) fn member_debug(text: &str, name: &str) -> (r: String)
    ensures
        r@ == member_debug_of(text@, name@),
{
    format!("{:?}", serde_json::from_str::<serde_json::Value>(text).unwrap_or_default().get(name))
}

/// The value that a text holds, where a text that is no JSON counts as
/// `null`.
pub open spec fn json_or_null(text: Seq<char>) -> JsonView {
    match json_of(text) {
        Some(j) => j,
        None => JsonView::Null,
    }
}

/// The value that a text holds, where a text that is no JSON counts as
/// `null`.
pub fn parse_or_null(text: &str) -> (r: Json)
    ensures
        r@ == json_or_null(text@),
{
    Json::or_null(parse(text))
}

impl Json {
    /// The value that was read, or `null` where none was.
    pub fn or_null(read: Option<Json>) -> (r: Json)
        ensures
            r@ == (match read {
                Some(j) => j@,
                None => JsonView::Null,
            }),
    {
        match read {
            Some(j) => j,
            None => Json::Null,
        }
    }
}

proof fn lemma_object_view(members: Vec<Member>)
    ensures
        Json::Object(members)@ == JsonView::Object(members_view(members@)),
{
    let j = Json::Object(members);
    assert(j@->Object_0 =~= members_view(members@));
}

proof fn lemma_array_view(items: Vec<Json>)
    ensures
        Json::Array(items)@ == JsonView::Array(items_view(items@)),
{
    let j = Json::Array(items);
    assert(j@->Array_0 =~= items_view(items@));
}

/// A text where there is one, else `null`.
pub open spec fn optional_text(text: Option<Seq<char>>) -> JsonView {
    match text {
        Some(t) => JsonView::Text(t),
        None => JsonView::Null,
    }
}

impl Json {
    /// The value as indented text, as `serde_json` writes it, or the
    /// message of the writer's error.
    pub fn pretty_text(&self) -> (r: Result<String, String>)
        ensures
            match r {
                Ok(text) => pretty_text_of(self@) == Ok::<Seq<char>, Seq<char>>(text@),
                Err(e) => pretty_text_of(self@) == Err::<Seq<char>, Seq<char>>(e@),
            },
    {
        pretty(self)
    }

    /// The value as text without white space, as `serde_json` writes it,
    /// or the message of the writer's error.
    pub fn compact_text(&self) -> (r: Result<String, String>)
        ensures
            match r {
                Ok(text) => compact_text_of(self@) == Ok::<Seq<char>, Seq<char>>(text@),
                Err(e) => compact_text_of(self@) == Err::<Seq<char>, Seq<char>>(e@),
            },
    {
        compact(self)
    }

    /// A text where there is one, else `null`.
    pub fn optional_text(text: &Option<String>) -> (r: Json)
        ensures
            r@ == optional_text(crate::text::opt_view(*text)),
    {
        match text {
            Some(t) => Json::Text(t.clone()),
            None => Json::Null,
        }
    }

    /// A truth value.
    pub fn boolean(b: bool) -> (r: Json)
        ensures
            r@ == JsonView::Bool(b),
    {
        Json::Bool(b)
    }

    /// A string.
    pub fn text(s: &str) -> (r: Json)
        ensures
            r@ == JsonView::Text(s@),
    {
        Json::Text(s.to_owned())
    }

    /// A number.
    pub fn number(n: u64) -> (r: Json)
        ensures
            r@ == JsonView::Number(crate::text::decimal(n as nat)),
    {
        Json::Number(crate::text::u64_to_decimal(n))
    }

    /// An object with the given members.
    pub fn object(members: Vec<Member>) -> (r: Json)
        ensures
            r@ == JsonView::Object(members_view(members@)),
    {
        proof {
            lemma_object_view(members);
        }
        Json::Object(members)
    }

    /// An array with the given items.
    pub fn array(items: Vec<Json>) -> (r: Json)
        ensures
            r@ == JsonView::Array(items_view(items@)),
    {
        proof {
            lemma_array_view(items);
        }
        Json::Array(items)
    }

    /// The member of an object under a name.
    pub fn get(&self, name: &str) -> (r: Option<&Json>)
        ensures
            match r {
                Some(j) => self@.member(name@) == Some(j@),
                None => self@.member(name@) is None,
            },
    {
        match self {
            Json::Object(members) => {
                proof {
                    lemma_object_view(*members);
                }
                let ghost all = members_view(members@);
                let mut i: usize = 0;
                assert(all.skip(0) =~= all);
                while i < members.len()
                    invariant
                        i <= members.len(),
                        all == members_view(members@),
                        self@.member(name@) == member_of(all, name@),
                        member_of(all, name@) == member_of(all.skip(i as int), name@),
                    decreases members.len() - i,
                {
                    assert(all.skip(i as int).drop_first() =~= all.skip(i + 1));
                    assert(all.skip(i as int).first() == all[i as int]);
                    if str_eq(members[i].name.as_str(), name) {
                        return Some(&members[i].value);
                    }
                    i += 1;
                }
                None
            },
            _ => None,
        }
    }

    /// The items of an array.
    pub fn as_array(&self) -> (r: Option<&Vec<Json>>)
        ensures
            match r {
                Some(v) => self@.items() == Some(items_view(v@)),
                None => self@.items() is None,
            },
    {
        match self {
            Json::Array(items) => {
                proof {
                    lemma_array_view(*items);
                }
                Some(items)
            },
            _ => None,
        }
    }

    /// The text of a string.
    pub fn as_str(&self) -> (r: Option<&str>)
        ensures
            match r {
                Some(t) => self@.text() == Some(t@),
                None => self@.text() is None,
            },
    {
        match self {
            Json::Text(t) => Some(t.as_str()),
            _ => None,
        }
    }

    /// The number of members of an object.
    pub fn object_len(&self) -> (r: Option<usize>)
        ensures
            match r {
                Some(n) => self@.size() == Some(n as nat),
                None => self@.size() is None,
            },
    {
        match self {
            Json::Object(members) => {
                proof {
                    lemma_object_view(*members);
                }
                Some(members.len())
            },
            _ => None,
        }
    }

    /// The member under `second` of the member under `first`.
    pub fn get2(&self, first: &str, second: &str) -> (r: Option<&Json>)
        ensures
            match r {
                Some(j) => self@.member2(first@, second@) == Some(j@),
                None => self@.member2(first@, second@) is None,
            },
    {
        match self.get(first) {
            Some(j) => j.get(second),
            None => None,
        }
    }

    /// The number of items of the array under a name; zero where there is
    /// no array under it.
    pub fn count(&self, name: &str) -> (r: usize)
        ensures
            r == self@.count(name@),
    {
        match self.get(name) {
            Some(j) => match j.as_array() {
                Some(items) => items.len(),
                None => 0,
            },
            None => 0,
        }
    }

    /// The number of items of the array under `second` of the member under
    /// `first`; zero where there is no such array.
    pub fn count2(&self, first: &str, second: &str) -> (r: usize)
        ensures
            r == self@.count2(first@, second@),
    {
        match self.get(first) {
            Some(j) => j.count(second),
            None => 0,
        }
    }

    /// The text under a name; none where there is no string under it.
    pub fn text_at(&self, name: &str) -> (r: Option<&str>)
        ensures
            match r {
                Some(t) => self@.text_at(name@) == Some(t@),
                None => self@.text_at(name@) is None,
            },
    {
        match self.get(name) {
            Some(j) => j.as_str(),
            None => None,
        }
    }
}

/// A member of an object.
pub fn member(name: &str, value: Json) -> (r: Member)
    ensures
        r.name@ == name@,
        r.value == value,
{
    Member { name: name.to_owned(), value }
}

} // verus!
