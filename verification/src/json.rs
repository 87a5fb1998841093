//! JSON documents, read by the `serde_json` crate and held as plain values.

use crate::progress::opt_text;
use crate::text::same_text;
use serde_json::Value;
use vstd::prelude::*;

verus! {

/// A JSON value. The members of an object stand in the order in which the
/// parser hands them out.
#[derive(Debug)]
pub enum Json {
    Null,
    Bool(bool),
    /// A number: as an unsigned integer where it is one, and as text.
    Number { unsigned: Option<u64>, text: String },
    Text(String),
    Array(Vec<Json>),
    Object(Vec<(String, Json)>),
}

/// What a [`Json`] holds, as plain values.
pub enum JsonView {
    Null,
    Bool(bool),
    Number { unsigned: Option<u64>, text: Seq<char> },
    Text(Seq<char>),
    Array(Seq<JsonView>),
    Object(Seq<(Seq<char>, JsonView)>),
}

/// What a value holds, part by part.
pub open spec fn json_view(j: Json) -> JsonView
    decreases j,
{
    match j {
        Json::Null => JsonView::Null,
        Json::Bool(b) => JsonView::Bool(b),
        Json::Number { unsigned, text } => JsonView::Number { unsigned, text: text@ },
        Json::Text(s) => JsonView::Text(s@),
        Json::Array(items) => JsonView::Array(
            Seq::new(
                items@.len(),
                |i: int|
                    if 0 <= i < items@.len() {
                        json_view(items@[i])
                    } else {
                        JsonView::Null
                    },
            ),
        ),
        Json::Object(members) => JsonView::Object(
            Seq::new(
                members@.len(),
                |i: int|
                    if 0 <= i < members@.len() {
                        (members@[i].0@, json_view(members@[i].1))
                    } else {
                        (Seq::empty(), JsonView::Null)
                    },
            ),
        ),
    }
}

impl View for Json {
    type V = JsonView;

    open spec fn view(&self) -> JsonView {
        json_view(*self)
    }
}

/// The view of an array or an object shows its items or members one for one.
pub proof fn lemma_view_shows_parts(j: Json)
    ensures
        match j {
            Json::Array(items) => j@ matches JsonView::Array(shown) && shown.len() == items@.len()
                && forall|k: int| 0 <= k < shown.len() ==> #[trigger] shown[k] == items@[k]@,
            Json::Object(members) => j@ matches JsonView::Object(shown) && shown.len()
                == members@.len() && forall|k: int|
                0 <= k < shown.len() ==> #[trigger] shown[k] == (members@[k].0@, members@[k].1@),
            _ => true,
        },
{
    reveal_with_fuel(json_view, 2);
}

/// The view of a document that may be missing.
pub open spec fn document_view(doc: Option<Json>) -> Option<JsonView> {
    match doc {
        Some(j) => Some(j@),
        None => None,
    }
}

#[verifier::external_type_specification]
#[verifier::external_body]
pub struct ExValue(serde_json::Value);

/// What `serde_json::from_str` reads from a text, if it is JSON.
pub uninterp spec fn parsed_json(text: Seq<char>) -> Option<JsonView>;

/// Copies a `serde_json::Value` into a [`Json`], variant by variant. A
/// number is copied as what `Number::as_u64` and its `Display` give.
#[verifier::external_body]
fn json_of(v: &Value) -> Json {
    match v {
        Value::Null => Json::Null,
        Value::Bool(b) => Json::Bool(*b),
        Value::Number(n) => Json::Number { unsigned: n.as_u64(), text: n.to_string() },
        Value::String(s) => Json::Text(s.clone()),
        Value::Array(a) => Json::Array(a.iter().map(json_of).collect()),
        Value::Object(o) => Json::Object(o.iter().map(|(k, v)| (k.clone(), json_of(v))).collect()),
    }
}

/// Reads a text with `serde_json::from_str`; `None` where it is no JSON. The
/// contract only names the result.
#[verifier::external_body]
pub(crate) fn parse_json(text: &str) -> (doc: Option<Json>)
    ensures
        document_view(doc) == parsed_json(text@),
{
    serde_json::from_str::<Value>(text).ok().map(|v| json_of(&v))
}

/// The position of the first member named `key`.
pub open spec fn member_position(
    members: Seq<(Seq<char>, JsonView)>,
    key: Seq<char>,
    from: int,
) -> Option<int>
    decreases members.len() - from,
{
    if from < 0 || from >= members.len() {
        None
    } else if members[from].0 == key {
        Some(from)
    } else {
        member_position(members, key, from + 1)
    }
}

impl JsonView {
    /// The member `key` of an object; absent on anything else.
    pub open spec fn member(self, key: Seq<char>) -> Option<JsonView> {
        match self {
            JsonView::Object(members) => match member_position(members, key, 0) {
                Some(i) => Some(members[i].1),
                None => None,
            },
            _ => None,
        }
    }

    /// The value reached by going from member to member along `path`.
    pub open spec fn at(self, path: Seq<Seq<char>>) -> Option<JsonView>
        decreases path.len(),
    {
        if path.len() == 0 {
            Some(self)
        } else {
            match self.member(path[0]) {
                Some(next) => next.at(path.drop_first()),
                None => None,
            }
        }
    }

    /// The text of a string value.
    pub open spec fn text(self) -> Option<Seq<char>> {
        match self {
            JsonView::Text(s) => Some(s),
            _ => None,
        }
    }

    /// The value of a number that is an unsigned integer.
    pub open spec fn unsigned(self) -> Option<u64> {
        match self {
            JsonView::Number { unsigned, .. } => unsigned,
            _ => None,
        }
    }

    /// The text of the string reached along `path`.
    pub open spec fn text_at(self, path: Seq<Seq<char>>) -> Option<Seq<char>> {
        match self.at(path) {
            Some(v) => v.text(),
            None => None,
        }
    }

    /// The unsigned integer reached along `path`.
    pub open spec fn unsigned_at(self, path: Seq<Seq<char>>) -> Option<u64> {
        match self.at(path) {
            Some(v) => v.unsigned(),
            None => None,
        }
    }
}

impl Json {
    /// The member `key` of an object.
    pub fn member(&self, key: &str) -> (m: Option<&Json>)
        ensures
            match m {
                Some(v) => self@.member(key@) == Some(v@),
                None => self@.member(key@).is_none(),
            },
    {
        proof {
            lemma_view_shows_parts(*self);
        }
        match self {
            Json::Object(members) => {
                let mut i: usize = 0;
                while i < members.len()
                    invariant
                        i <= members.len(),
                        self matches Json::Object(m) && m == members,
                        self@ matches JsonView::Object(shown) && shown.len() == members.len()
                            && (forall|k: int|
                            0 <= k < shown.len() ==> #[trigger] shown[k] == (
                                members@[k].0@,
                                members@[k].1@,
                            )) && member_position(shown, key@, 0) == member_position(
                            shown,
                            key@,
                            i as int,
                        ),
                    decreases members.len() - i,
                {
                    if same_text(members[i].0.as_str(), key) {
                        assert(self@->Object_0[i as int].0 == key@);
                        assert(member_position(self@->Object_0, key@, i as int) == Some(i as int));
                        return Some(&members[i].1);
                    }
                    i += 1;
                }
                None
            },
            _ => None,
        }
    }

    /// The value reached by going from member to member along `path`.
    pub fn at(&self, path: &[&str]) -> (v: Option<&Json>)
        ensures
            match v {
                Some(found) => self@.at(path_view(path@)) == Some(found@),
                None => self@.at(path_view(path@)).is_none(),
            },
    {
        let mut current: &Json = self;
        let mut i: usize = 0;
        let ghost keys = path_view(path@);
        assert(keys.skip(0) =~= keys);
        while i < path.len()
            invariant
                i <= path.len(),
                keys == path_view(path@),
                self@.at(keys) == current@.at(keys.skip(i as int)),
            decreases path.len() - i,
        {
            assert(keys.skip(i as int)[0] == path@[i as int]@);
            assert(keys.skip(i as int).drop_first() =~= keys.skip(i + 1));
            match current.member(path[i]) {
                Some(next) => {
                    current = next;
                },
                None => {
                    return None;
                },
            }
            i += 1;
        }
        Some(current)
    }

    /// The text of the string reached along `path`.
    pub fn text_at(&self, path: &[&str]) -> (t: Option<String>)
        ensures
            opt_text(t) == self@.text_at(path_view(path@)),
    {
        match self.at(path) {
            Some(Json::Text(s)) => Some(s.clone()),
            _ => None,
        }
    }

    /// The unsigned integer reached along `path`.
    pub fn unsigned_at(&self, path: &[&str]) -> (n: Option<u64>)
        ensures
            n == self@.unsigned_at(path_view(path@)),
    {
        match self.at(path) {
            Some(Json::Number { unsigned, .. }) => *unsigned,
            _ => None,
        }
    }
}

/// The characters of each key of a path.
pub open spec fn path_view(path: Seq<&str>) -> Seq<Seq<char>> {
    path.map_values(|k: &str| k@)
}

} // verus!
