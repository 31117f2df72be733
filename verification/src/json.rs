//! JSON documents as trees, read and written through `serde_json`.

use crate::text::{chars_of, str_eq};
use vstd::prelude::*;

verus! {

#[verifier::external_type_specification]
#[verifier::external_body]
pub struct ExValue(serde_json::Value);

/// A JSON value.
///
/// A number is kept as the text that stands for it in a document; the members of
/// an object are kept in the order in which the parser hands them out.
#[derive(Debug, PartialEq, Eq)]
pub enum Json {
    Null,
    Bool(bool),
    Number(String),
    Text(String),
    Array(Vec<Json>),
    Object(Vec<(String, Json)>),
}

/// What a [`Json`] holds.
pub enum JsonView {
    Null,
    Bool(bool),
    Number(Seq<char>),
    Text(Seq<char>),
    Array(Seq<JsonView>),
    Object(Seq<(Seq<char>, JsonView)>),
}

/// What `value` holds.
pub open spec fn json_view(value: Json) -> JsonView
    decreases value,
{
    match value {
        Json::Null => JsonView::Null,
        Json::Bool(b) => JsonView::Bool(b),
        Json::Number(n) => JsonView::Number(n@),
        Json::Text(s) => JsonView::Text(s@),
        Json::Array(items) => JsonView::Array(
            Seq::new(
                items@.len(),
                |i: int|
                    if 0 <= i < items@.len() {
                        json_view(items@[i])
                    } else {
                        JsonView::Null
                    },
            ),
        ),
        Json::Object(entries) => JsonView::Object(
            Seq::new(
                entries@.len(),
                |i: int|
                    if 0 <= i < entries@.len() {
                        (entries@[i].0@, json_view(entries@[i].1))
                    } else {
                        (Seq::empty(), JsonView::Null)
                    },
            ),
        ),
    }
}

impl DeepView for Json {
    type V = JsonView;

    open spec fn deep_view(&self) -> JsonView {
        json_view(*self)
    }
}

impl View for Json {
    type V = JsonView;

    open spec fn view(&self) -> JsonView {
        self.deep_view()
    }
}

/// The JSON value that `text` is a document of; `None` where `text` is no single
/// JSON document.
pub uninterp spec fn json_parse(text: Seq<char>) -> Option<JsonView>;

/// The compact document that stands for `value`; `None` where `value` holds a
/// number whose text is no JSON number.
pub uninterp spec fn json_print(value: JsonView) -> Option<Seq<char>>;

/// Moves a `serde_json::Value` into a [`Json`], variant by variant. A number is
/// rendered with its `Display`, which writes it as a document would.
#[verifier::external_body]
pub(crate) fn from_value(value: serde_json::Value) -> Json {
    match value {
        serde_json::Value::Null => Json::Null,
        serde_json::Value::Bool(b) => Json::Bool(b),
        serde_json::Value::Number(n) => Json::Number(n.to_string()),
        serde_json::Value::String(s) => Json::Text(s),
        serde_json::Value::Array(a) => Json::Array(a.into_iter().map(from_value).collect()),
        serde_json::Value::Object(m) => Json::Object(
            m.into_iter().map(|(k, v)| (k, from_value(v))).collect(),
        ),
    }
}

/// Builds the `serde_json::Value` that a [`Json`] stands for, variant by variant;
/// `None` where a number's text does not parse as a `serde_json::Number`.
#[verifier::external_body]
pub(crate) fn to_value(value: &Json) -> Option<serde_json::Value> {
    Some(
        match value {
            Json::Null => serde_json::Value::Null,
            Json::Bool(b) => serde_json::Value::Bool(*b),
            Json::Number(n) => serde_json::Value::Number(n.parse().ok()?),
            Json::Text(s) => serde_json::Value::String(s.clone()),
            Json::Array(a) => serde_json::Value::Array(
                a.iter().map(to_value).collect::<Option<_>>()?,
            ),
            Json::Object(m) => serde_json::Value::Object(
                m.iter().map(|(k, v)| Some((k.clone(), to_value(v)?))).collect::<Option<_>>()?,
            ),
        },
    )
}

/// `serde_json::from_str` at `serde_json::Value`: the value that the document
/// `text` holds, or `None` where the parser refuses `text`.
#[verifier::external_body]
pub(crate) fn parse_document(text: &str) -> (r: Option<Json>)
    ensures
        r.deep_view() == json_parse(text@),
{
    match serde_json::from_str::<serde_json::Value>(text) {
        Ok(value) => Some(from_value(value)),
        Err(_) => None,
    }
}

/// `serde_json::to_string` at `serde_json::Value`: the compact document of
/// `value`, or `None` where `value` stands for no `serde_json::Value`.
#[verifier::external_body]
pub(crate) fn print_document(value: &Json) -> (r: Option<String>)
    ensures
        r.deep_view() == json_print(value@),
{
    serde_json::to_string(&to_value(value)?).ok()
}

/// The first member called `key` among `entries`.
pub open spec fn find_member(entries: Seq<(Seq<char>, JsonView)>, key: Seq<char>) -> Option<
    JsonView,
>
    decreases entries.len(),
{
    if entries.len() == 0 {
        None
    } else if entries[0].0 == key {
        Some(entries[0].1)
    } else {
        find_member(entries.drop_first(), key)
    }
}

/// Whether `c` is one of the ten decimal digits.
pub open spec fn is_digit(c: char) -> bool {
    48 <= c as u32 <= 57
}

/// The number that a run of decimal digits stands for; `None` for an empty run
/// and for one that holds anything but digits.
pub open spec fn decimal(digits: Seq<char>) -> Option<nat>
    decreases digits.len(),
{
    if digits.len() == 0 || !is_digit(digits.last()) {
        None
    } else if digits.len() == 1 {
        Some((digits.last() as u32 - 48) as nat)
    } else {
        match decimal(digits.drop_last()) {
            Some(value) => Some(value * 10 + (digits.last() as u32 - 48) as nat),
            None => None,
        }
    }
}

impl JsonView {
    /// The member `key` of an object, the first where several carry the name;
    /// `None` for other values and for a key that the object lacks.
    pub open spec fn member(self, key: Seq<char>) -> Option<JsonView> {
        match self {
            JsonView::Object(entries) => find_member(entries, key),
            _ => None,
        }
    }

    /// The items of an array; `None` for other values.
    pub open spec fn items(self) -> Option<Seq<JsonView>> {
        match self {
            JsonView::Array(items) => Some(items),
            _ => None,
        }
    }

    /// The characters of a string; `None` for other values.
    pub open spec fn text(self) -> Option<Seq<char>> {
        match self {
            JsonView::Text(text) => Some(text),
            _ => None,
        }
    }

    /// The value of a number written with decimal digits alone that fits 64 bits;
    /// `None` for other values.
    pub open spec fn unsigned(self) -> Option<u64> {
        match self {
            JsonView::Number(digits) => match decimal(digits) {
                Some(value) => if value <= u64::MAX {
                    Some(value as u64)
                } else {
                    None
                },
                None => None,
            },
            _ => None,
        }
    }
}

/// A run of digits stands for at least as much as each of its beginnings.
pub proof fn lemma_decimal_grows(digits: Seq<char>, n: int)
    requires
        0 < n <= digits.len(),
        decimal(digits) is Some,
    ensures
        decimal(digits.take(n)) is Some,
        decimal(digits.take(n))->0 <= decimal(digits)->0,
    decreases digits.len() - n,
{
    if n == digits.len() {
        assert(digits.take(n) =~= digits);
    } else {
        assert(digits.len() > 1);
        let front = digits.drop_last();
        assert(front.take(n) =~= digits.take(n));
        lemma_decimal_grows(front, n);
    }
}

impl Json {
    /// The value that the JSON document `text` holds; `None` where `text` is no
    /// single JSON document.
    pub fn parse(text: &str) -> (r: Option<Json>)
        ensures
            r.deep_view() == json_parse(text@),
    {
        parse_document(text)
    }

    /// The compact JSON document of the value; `None` where a number in it is no
    /// JSON number.
    pub fn print(&self) -> (r: Option<String>)
        ensures
            r.deep_view() == json_print(self@),
    {
        print_document(self)
    }

    /// A JSON string with the characters of `text`.
    pub fn text(text: &str) -> (r: Json)
        ensures
            r@ == JsonView::Text(text@),
    {
        Json::Text(text.to_owned())
    }

    /// The member `key` of an object.
    pub fn member(&self, key: &str) -> (r: Option<&Json>)
        ensures
            r.deep_view() == self@.member(key@),
    {
        match self {
            Json::Object(entries) => {
                let mut i: usize = 0;
                let ghost all = self@->Object_0;
                proof {
                    assert(all.skip(0) =~= all);
                }
                while i < entries.len()
                    invariant
                        i <= entries@.len(),
                        all.len() == entries@.len(),
                        forall|k: int|
                            0 <= k < all.len() ==> #[trigger] all[k] == (
                                entries@[k].0@,
                                entries@[k].1.deep_view(),
                            ),
                        find_member(all, key@) == find_member(all.skip(i as int), key@),
                        self@.member(key@) == find_member(all, key@),
                    decreases entries@.len() - i,
                {
                    proof {
                        let rest = all.skip(i as int);
                        assert(rest.len() > 0);
                        assert(rest[0] == all[i as int]);
                        assert(rest.drop_first() =~= all.skip(i + 1));
                    }
                    if str_eq(entries[i].0.as_str(), key) {
                        return Some(&entries[i].1);
                    }
                    i = i + 1;
                }
                None
            },
            _ => None,
        }
    }

    /// The items of an array.
    pub fn items(&self) -> (r: Option<&Vec<Json>>)
        ensures
            r.deep_view() == self@.items(),
    {
        match self {
            Json::Array(items) => {
                proof {
                    assert(items.deep_view() =~= self@->Array_0);
                }
                Some(items)
            },
            _ => None,
        }
    }

    /// The characters of a string.
    pub fn as_text(&self) -> (r: Option<&String>)
        ensures
            r.deep_view() == self@.text(),
    {
        match self {
            Json::Text(text) => Some(text),
            _ => None,
        }
    }

    /// The value of a number written with decimal digits alone that fits 64 bits.
    pub fn as_unsigned(&self) -> (r: Option<u64>)
        ensures
            r == self@.unsigned(),
    {
        match self {
            Json::Number(text) => {
                let digits = chars_of(text.as_str());
                if digits.len() == 0 {
                    return None;
                }
                let mut value: u64 = 0;
                let mut i: usize = 0;
                while i < digits.len()
                    invariant
                        i <= digits@.len(),
                        digits@.len() > 0,
                        self@ == JsonView::Number(digits@),
                        i > 0 ==> decimal(digits@.take(i as int)) == Some(value as nat),
                        i == 0 ==> value == 0,
                    decreases digits@.len() - i,
                {
                    let c = digits[i];
                    let ghost upto = digits@.take(i + 1);
                    proof {
                        assert(upto.last() == c);
                        assert(upto.drop_last() =~= digits@.take(i as int));
                    }
                    let code: u32 = c as u32;
                    if code < 48 || code > 57 {
                        proof {
                            if decimal(digits@) is Some {
                                lemma_decimal_grows(digits@, i + 1);
                            }
                        }
                        return None;
                    }
                    let d: u64 = (code - 48) as u64;
                    assert(decimal(upto) == Some((value * 10 + d) as nat));
                    if value > (u64::MAX - d) / 10 {
                        proof {
                            assert(value * 10 + d > u64::MAX);
                            if decimal(digits@) is Some {
                                lemma_decimal_grows(digits@, i + 1);
                            }
                        }
                        return None;
                    }
                    value = value * 10 + d;
                    i = i + 1;
                }
                proof {
                    assert(digits@.take(i as int) =~= digits@);
                }
                Some(value)
            },
            _ => None,
        }
    }
}

impl Clone for Json {
    fn clone(&self) -> (r: Self)
        ensures
            r@ == self@,
        decreases self,
    {
        match self {
            Json::Null => Json::Null,
            Json::Bool(b) => Json::Bool(*b),
            Json::Number(n) => Json::Number(n.clone()),
            Json::Text(s) => Json::Text(s.clone()),
            Json::Array(items) => {
                let mut out: Vec<Json> = Vec::new();
                let mut i: usize = 0;
                while i < items.len()
                    invariant
                        i <= items@.len(),
                        *self == Json::Array(*items),
                        out@.len() == i,
                        forall|k: int| 0 <= k < i ==> (#[trigger] out@[k]).deep_view() == items@[k].deep_view(),
                    decreases items@.len() - i,
                {
                    proof {
                        assert(decreases_to!(*self => self->Array_0));
                        assert(decreases_to!(*items => items@));
                        assert(decreases_to!(items@ => items@[i as int]));
                    }
                    let item = items[i].clone();
                    out.push(item);
                    i = i + 1;
                }
                let r = Json::Array(out);
                proof {
                    assert(r@->Array_0 =~= self@->Array_0);
                }
                r
            },
            Json::Object(entries) => {
                let mut out: Vec<(String, Json)> = Vec::new();
                let mut i: usize = 0;
                while i < entries.len()
                    invariant
                        i <= entries@.len(),
                        *self == Json::Object(*entries),
                        out@.len() == i,
                        forall|k: int|
                            0 <= k < i ==> (#[trigger] out@[k]).0@ == entries@[k].0@ && out@[k].1.deep_view()
                                == entries@[k].1.deep_view(),
                    decreases entries@.len() - i,
                {
                    proof {
                        assert(decreases_to!(*self => self->Object_0));
                        assert(decreases_to!(*entries => entries@));
                        assert(decreases_to!(entries@ => entries@[i as int]));
                        assert(decreases_to!(entries@[i as int] => entries@[i as int].1));
                    }
                    let value = entries[i].1.clone();
                    out.push((entries[i].0.clone(), value));
                    i = i + 1;
                }
                let r = Json::Object(out);
                proof {
                    assert(r@->Object_0 =~= self@->Object_0);
                }
                r
            },
        }
    }
}

} // verus!
