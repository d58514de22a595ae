//! JSON as the stores read it: parsed by `serde_json`, then held in a tree of
//! plain values that the verified decoders walk.
use vstd::prelude::*;
use vstd::string::*;
use crate::text::{parse_signed, parse_unsigned, same_text, signed_of, text_view, unsigned_of};

verus! {

/// A JSON document. A number keeps the text that `serde_json` prints for it;
/// an object keeps its members in the order `serde_json` hands them out.
#[derive(Debug, PartialEq)]
pub enum Json {
    Null,
    Bool(bool),
    Number(String),
    Text(String),
    List(Vec<Json>),
    Object(Vec<(String, Json)>),
}

/// The mathematical value of a [`Json`].
pub enum JsonView {
    Null,
    Bool(bool),
    Number(Seq<char>),
    Text(Seq<char>),
    List(Seq<JsonView>),
    Object(Seq<(Seq<char>, JsonView)>),
}

/// What a [`Json`] stands for.
pub open spec fn json_view(j: Json) -> JsonView
    decreases j,
{
    match j {
        Json::Null => JsonView::Null,
        Json::Bool(b) => JsonView::Bool(b),
        Json::Number(n) => JsonView::Number(n@),
        Json::Text(t) => JsonView::Text(t@),
        Json::List(items) => JsonView::List(
            Seq::new(
                items.len() as nat,
                |i: int|
                    if 0 <= i < items.len() {
                        json_view(items[i])
                    } else {
                        JsonView::Null
                    },
            ),
        ),
        Json::Object(members) => JsonView::Object(
            Seq::new(
                members.len() as nat,
                |i: int|
                    if 0 <= i < members.len() {
                        (members[i].0@, json_view(members[i].1))
                    } else {
                        (Seq::<char>::empty(), JsonView::Null)
                    },
            ),
        ),
    }
}

impl View for Json {
    type V = JsonView;

    open spec fn view(&self) -> JsonView {
        json_view(*self)
    }
}

/// The document that `serde_json` reads from a text, or `None` where it
/// refuses the text.
pub uninterp spec fn json_parse(text: Seq<char>) -> Option<JsonView>;

/// A text written as a JSON string by `serde_json`, quotes and escapes
/// included, or `None` where it reports an error.
pub uninterp spec fn json_quote(text: Seq<char>) -> Option<Seq<char>>;

/// `serde_json::Value`, a parsed document.
#[verifier::external_type_specification]
#[verifier::external_body]
pub struct ExJsonValue(serde_json::Value);

/// `serde_json::Error`, what parsing and writing report when they fail.
#[verifier::external_type_specification]
#[verifier::external_body]
pub struct ExJsonError(serde_json::Error);

/// The document that a `serde_json::Value` holds: a number as the text its
/// `Display` prints, an object as its members in the order its iterator
/// yields them.
pub uninterp spec fn value_view(value: serde_json::Value) -> JsonView;

/// `serde_json::from_str` at the type `serde_json::Value`. Which texts are
/// accepted and what they stand for is left to `serde_json`: the contract
/// only gives the outcome its name.
#[verifier::external_body]
fn parse_value(text: &str) -> (r: Result<serde_json::Value, serde_json::Error>)
    ensures
        match r {
            Ok(value) => json_parse(text@) == Some(value_view(value)),
            Err(_) => json_parse(text@) is None,
        },
{
    serde_json::from_str::<serde_json::Value>(text)
}

/// Rebuilds a `serde_json::Value` as a [`Json`], variant by variant, with
/// `Number::to_string` for a number and `Map::iter` for the members of an
/// object.
#[verifier::external_body]
fn json_of_value(value: &serde_json::Value) -> (r: Json)
    ensures
        r@ == value_view(*value),
{
    match value {
        serde_json::Value::Null => Json::Null,
        serde_json::Value::Bool(b) => Json::Bool(*b),
        serde_json::Value::Number(n) => Json::Number(n.to_string()),
        serde_json::Value::String(s) => Json::Text(s.clone()),
        serde_json::Value::Array(items) => Json::List(items.iter().map(json_of_value).collect()),
        serde_json::Value::Object(members) => Json::Object(
            members.iter().map(|(k, v)| (k.clone(), json_of_value(v))).collect(),
        ),
    }
}

/// `serde_json::to_string` at the type `str`: the text as a JSON string.
#[verifier::external_body]
fn quote_value(text: &str) -> (r: Result<String, serde_json::Error>)
    ensures
        match r {
            Ok(q) => json_quote(text@) == Some(q@),
            Err(_) => json_quote(text@) is None,
        },
{
    serde_json::to_string(text)
}

/// The first member called `name` among `members`.
pub open spec fn first_named(members: Seq<(Seq<char>, JsonView)>, name: Seq<char>) -> Option<
    JsonView,
>
    decreases members.len(),
{
    if members.len() == 0 {
        None
    } else if members[0].0 == name {
        Some(members[0].1)
    } else {
        first_named(members.drop_first(), name)
    }
}

/// The texts of a list whose items are all strings; `None` if one is not.
pub open spec fn texts_of(items: Seq<JsonView>) -> Option<Seq<Seq<char>>>
    decreases items.len(),
{
    if items.len() == 0 {
        Some(Seq::empty())
    } else {
        match (texts_of(items.drop_last()), items.last()) {
            (Some(head), JsonView::Text(t)) => Some(head.push(t)),
            _ => None,
        }
    }
}

impl JsonView {
    /// The member called `name` of an object; `None` for a missing member and
    /// for a document that is no object.
    pub open spec fn member(self, name: Seq<char>) -> Option<JsonView> {
        match self {
            JsonView::Object(members) => first_named(members, name),
            _ => None,
        }
    }

    /// A member that has to be a string.
    pub open spec fn text_member(self, name: Seq<char>) -> Option<Seq<char>> {
        match self.member(name) {
            Some(JsonView::Text(t)) => Some(t),
            _ => None,
        }
    }

    /// A member that may be missing or `null` (both read as `Some(None)`), and
    /// otherwise has to be a string. `None` where it is anything else.
    pub open spec fn optional_text_member(self, name: Seq<char>) -> Option<Option<Seq<char>>> {
        match self.member(name) {
            None => Some(None),
            Some(JsonView::Null) => Some(None),
            Some(JsonView::Text(t)) => Some(Some(t)),
            _ => None,
        }
    }

    /// A member that has to be a whole number from 0 to `u128::MAX`.
    pub open spec fn unsigned_member(self, name: Seq<char>) -> Option<u128> {
        match self.member(name) {
            Some(JsonView::Number(n)) => unsigned_of(n),
            _ => None,
        }
    }

    /// A member that has to be a whole number that fits in an `i32`.
    pub open spec fn signed_member(self, name: Seq<char>) -> Option<i32> {
        match self.member(name) {
            Some(JsonView::Number(n)) => signed_of(n),
            _ => None,
        }
    }

    /// A member that has to be a list of strings.
    pub open spec fn text_list_member(self, name: Seq<char>) -> Option<Seq<Seq<char>>> {
        match self.member(name) {
            Some(JsonView::List(items)) => texts_of(items),
            _ => None,
        }
    }
}

/// An optional text written as JSON: `null` for none, the quoted text
/// otherwise.
pub open spec fn json_quote_optional(text: Option<Seq<char>>) -> Option<Seq<char>> {
    match text {
        Some(t) => json_quote(t),
        None => Some("null"@),
    }
}

/// The quoted items of a list, separated by commas.
pub open spec fn json_quote_items(items: Seq<Seq<char>>) -> Option<Seq<char>>
    decreases items.len(),
{
    if items.len() == 0 {
        Some(Seq::empty())
    } else {
        match (json_quote_items(items.drop_last()), json_quote(items.last())) {
            (Some(head), Some(q)) => if items.len() == 1 {
                Some(q)
            } else {
                Some(head + ","@ + q)
            },
            _ => None,
        }
    }
}

/// A list of texts written as a JSON array of strings, without spaces.
pub open spec fn json_quote_list(items: Seq<Seq<char>>) -> Option<Seq<char>> {
    match json_quote_items(items) {
        Some(inner) => Some("["@ + inner + "]"@),
        None => None,
    }
}

/// A list cannot be written if one of its prefixes cannot.
proof fn lemma_quote_items_prefix(items: Seq<Seq<char>>, k: int)
    requires
        0 <= k <= items.len(),
        json_quote_items(items.subrange(0, k)) is None,
    ensures
        json_quote_items(items) is None,
    decreases items.len() - k,
{
    if k == items.len() {
        assert(items.subrange(0, k) =~= items);
    } else {
        let longer = items.subrange(0, k + 1);
        assert(longer.drop_last() =~= items.subrange(0, k));
        lemma_quote_items_prefix(items, k + 1);
    }
}

/// The views of a vector of strings.
pub open spec fn text_views(v: Seq<String>) -> Seq<Seq<char>> {
    Seq::new(v.len(), |i: int| v[i]@)
}

/// Skipping members that are not called `name` does not change which one is
/// found first.
proof fn lemma_first_named_skip(members: Seq<(Seq<char>, JsonView)>, name: Seq<char>, i: int)
    requires
        0 <= i <= members.len(),
        forall|k: int| 0 <= k < i ==> members[k].0 != name,
    ensures
        first_named(members, name) == first_named(members.skip(i), name),
    decreases i,
{
    if i == 0 {
        assert(members.skip(0) =~= members);
    } else {
        lemma_first_named_skip(members, name, i - 1);
        let rest = members.skip(i - 1);
        assert(rest[0] == members[i - 1]);
        assert(rest.drop_first() =~= members.skip(i));
    }
}

impl Json {
    /// Reads a text as JSON.
    pub fn parse(text: &str) -> (r: Option<Json>)
        ensures
            match r {
                Some(j) => json_parse(text@) == Some(j@),
                None => json_parse(text@) is None,
            },
    {
        match parse_value(text) {
            Ok(value) => Some(json_of_value(&value)),
            Err(_) => None,
        }
    }

    /// Writes a text as a JSON string, quotes and escapes included.
    pub fn quote(text: &str) -> (r: Option<String>)
        ensures
            text_view(r) == json_quote(text@),
    {
        match quote_value(text) {
            Ok(q) => Some(q),
            Err(_) => None,
        }
    }

    /// Writes an optional text as JSON: `null` for none.
    pub fn quote_optional(text: &Option<String>) -> (r: Option<String>)
        ensures
            text_view(r) == json_quote_optional(text_view(*text)),
    {
        match text {
            Some(t) => Json::quote(t.as_str()),
            None => Some(String::from_str("null")),
        }
    }

    /// Writes a list of texts as a JSON array of strings.
    pub fn quote_list(items: &Vec<String>) -> (r: Option<String>)
        ensures
            text_view(r) == json_quote_list(text_views(items@)),
    {
        let ghost all = text_views(items@);
        let mut out = String::from_str("[");
        let ghost mut inner = Seq::<char>::empty();
        let mut i: usize = 0;
        while i < items.len()
            invariant
                i <= items.len(),
                all == text_views(items@),
                json_quote_items(all.subrange(0, i as int)) == Some(inner),
                out@ == "["@ + inner,
            decreases items.len() - i,
        {
            let ghost next = all.subrange(0, i + 1);
            proof {
                assert(next.drop_last() =~= all.subrange(0, i as int));
                assert(next.last() == items[i as int]@);
            }
            match Json::quote(items[i].as_str()) {
                Some(q) => {
                    if i > 0 {
                        out.append(",");
                        out.append(q.as_str());
                        proof {
                            let grown = inner + ","@ + q@;
                            assert(out@ =~= "["@ + grown);
                            inner = grown;
                        }
                    } else {
                        out.append(q.as_str());
                        proof {
                            assert(inner =~= Seq::<char>::empty());
                            assert(out@ =~= "["@ + q@);
                            inner = q@;
                        }
                    }
                },
                None => {
                    proof {
                        lemma_quote_items_prefix(all, i + 1);
                    }
                    return None;
                },
            }
            i += 1;
        }
        assert(all.subrange(0, items.len() as int) =~= all);
        out.append("]");
        Some(out)
    }

    /// The member called `name`, if this is an object that has one.
    pub fn member(&self, name: &str) -> (r: Option<&Json>)
        ensures
            match r {
                Some(j) => self@.member(name@) == Some(j@),
                None => self@.member(name@) is None,
            },
    {
        match self {
            Json::Object(members) => {
                let ghost all = self@->Object_0;
                let mut i: usize = 0;
                while i < members.len()
                    invariant
                        i <= members.len(),
                        self@ == JsonView::Object(all),
                        all.len() == members.len(),
                        forall|k: int|
                            0 <= k < members.len() ==> #[trigger] all[k] == (
                                members[k].0@,
                                members[k].1@,
                            ),
                        forall|k: int| 0 <= k < i ==> all[k].0 != name@,
                    decreases members.len() - i,
                {
                    if same_text(members[i].0.as_str(), name) {
                        proof {
                            lemma_first_named_skip(all, name@, i as int);
                            assert(all.skip(i as int)[0] == all[i as int]);
                        }
                        return Some(&members[i].1);
                    }
                    i += 1;
                }
                proof {
                    lemma_first_named_skip(all, name@, all.len() as int);
                    assert(all.skip(all.len() as int).len() == 0);
                }
                None
            },
            _ => None,
        }
    }

    /// A member that has to be a string.
    pub fn text_member(&self, name: &str) -> (r: Option<String>)
        ensures
            text_view(r) == self@.text_member(name@),
    {
        match self.member(name) {
            Some(Json::Text(t)) => Some(t.clone()),
            _ => None,
        }
    }

    /// A member that may be missing or `null`, and otherwise has to be a
    /// string.
    pub fn optional_text_member(&self, name: &str) -> (r: Option<Option<String>>)
        ensures
            match r {
                Some(t) => self@.optional_text_member(name@) == Some(text_view(t)),
                None => self@.optional_text_member(name@) is None,
            },
    {
        match self.member(name) {
            None => Some(None),
            Some(Json::Null) => Some(None),
            Some(Json::Text(t)) => Some(Some(t.clone())),
            _ => None,
        }
    }

    /// A member that has to be a whole number from 0 to `u128::MAX`.
    pub fn unsigned_member(&self, name: &str) -> (r: Option<u128>)
        ensures
            r == self@.unsigned_member(name@),
    {
        match self.member(name) {
            Some(Json::Number(n)) => parse_unsigned(n.as_str()),
            _ => None,
        }
    }

    /// A member that has to be a whole number that fits in an `i32`.
    pub fn signed_member(&self, name: &str) -> (r: Option<i32>)
        ensures
            r == self@.signed_member(name@),
    {
        match self.member(name) {
            Some(Json::Number(n)) => parse_signed(n.as_str()),
            _ => None,
        }
    }

    /// A member that has to be a list of strings.
    pub fn text_list_member(&self, name: &str) -> (r: Option<Vec<String>>)
        ensures
            match r {
                Some(v) => self@.text_list_member(name@) == Some(text_views(v@)),
                None => self@.text_list_member(name@) is None,
            },
    {
        match self.member(name) {
            Some(Json::List(items)) => {
                let ghost all = Json::List(*items)@->List_0;
                let mut out: Vec<String> = Vec::new();
                let mut i: usize = 0;
                while i < items.len()
                    invariant
                        i <= items.len(),
                        all.len() == items.len(),
                        self@.member(name@) == Some(JsonView::List(all)),
                        forall|k: int| 0 <= k < items.len() ==> all[k] == #[trigger] items[k]@,
                        texts_of(all.subrange(0, i as int)) == Some(text_views(out@)),
                        out.len() == i,
                    decreases items.len() - i,
                {
                    let ghost next = all.subrange(0, i + 1);
                    proof {
                        assert(next.drop_last() =~= all.subrange(0, i as int));
                        assert(next.last() == items[i as int]@);
                    }
                    match &items[i] {
                        Json::Text(t) => {
                            let ghost before = out@;
                            out.push(t.clone());
                            assert(text_views(out@) =~= text_views(before).push(t@));
                        },
                        _ => {
                            proof {
                                lemma_texts_of_prefix(all, i + 1);
                            }
                            return None;
                        },
                    }
                    i += 1;
                }
                assert(all.subrange(0, items.len() as int) =~= all);
                Some(out)
            },
            _ => None,
        }
    }
}

/// A list holds only strings if each of its prefixes does.
proof fn lemma_texts_of_prefix(items: Seq<JsonView>, k: int)
    requires
        0 <= k <= items.len(),
        texts_of(items.subrange(0, k)) is None,
    ensures
        texts_of(items) is None,
    decreases items.len() - k,
{
    if k == items.len() {
        assert(items.subrange(0, k) =~= items);
    } else {
        let longer = items.subrange(0, k + 1);
        assert(longer.drop_last() =~= items.subrange(0, k));
        lemma_texts_of_prefix(items, k + 1);
    }
}

} // verus!
