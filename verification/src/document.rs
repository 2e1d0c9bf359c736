//! A JSON document as plain data.
//!
//! The files of the switcher are JSON. What a file must hold is said on
//! documents; turning text into a document and back is the caller's part.

use crate::text::optional_view;
use vstd::prelude::*;
use vstd::string::StringExecFns;

verus! {

/// A JSON value.
#[derive(Debug, PartialEq, Eq)]
pub enum Json {
    Null,
    Bool(bool),
    /// A number that is a 64-bit integer.
    Integer(i64),
    /// A number that is no 64-bit integer.
    OtherNumber,
    Text(String),
    List(Vec<Json>),
    /// An object: its members in order, each a key and a value.
    Object(Vec<(String, Json)>),
}

/// The mathematical value of a [`Json`].
pub enum JsonView {
    Null,
    Bool(bool),
    Integer(i64),
    OtherNumber,
    Text(Seq<char>),
    List(Seq<JsonView>),
    Object(Seq<(Seq<char>, JsonView)>),
}

/// The values of a list, as mathematical values.
pub open spec fn items_view(items: Vec<Json>) -> Seq<JsonView>
    decreases items, 0nat,
{
    Seq::new(
        items.len() as nat,
        |k: int|
            if 0 <= k < items.len() {
                items[k].view()
            } else {
                JsonView::Null
            },
    )
}

/// The members of an object, as mathematical values.
pub open spec fn members_view(members: Vec<(String, Json)>) -> Seq<(Seq<char>, JsonView)>
    decreases members, 0nat,
{
    Seq::new(
        members.len() as nat,
        |k: int|
            if 0 <= k < members.len() {
                (members[k].0@, members[k].1.view())
            } else {
                (Seq::empty(), JsonView::Null)
            },
    )
}

impl View for Json {
    type V = JsonView;

    open spec fn view(&self) -> JsonView
        decreases self, 1nat,
    {
        match self {
            Json::Null => JsonView::Null,
            Json::Bool(b) => JsonView::Bool(*b),
            Json::Integer(n) => JsonView::Integer(*n),
            Json::OtherNumber => JsonView::OtherNumber,
            Json::Text(s) => JsonView::Text(s@),
            Json::List(items) => JsonView::List(items_view(*items)),
            Json::Object(members) => JsonView::Object(members_view(*members)),
        }
    }
}

/// The view of a list goes item by item.
pub proof fn lemma_items_view(items: Vec<Json>)
    ensures
        items_view(items).len() == items.len(),
        forall|k: int| 0 <= k < items.len() ==> #[trigger] items_view(items)[k] == items[k]@,
{
}

/// The view of an object goes member by member.
pub proof fn lemma_members_view(members: Vec<(String, Json)>)
    ensures
        members_view(members).len() == members.len(),
        forall|k: int|
            0 <= k < members.len() ==> #[trigger] members_view(members)[k] == (
                members[k].0@,
                members[k].1@,
            ),
{
}

/// The value of the first member with this key.
pub open spec fn member_of(members: Seq<(Seq<char>, JsonView)>, key: Seq<char>) -> Option<JsonView>
    decreases members.len(),
{
    if members.len() == 0 {
        None
    } else if members[0].0 == key {
        Some(members[0].1)
    } else {
        member_of(members.skip(1), key)
    }
}

/// The member at `index` is the one that a key finds if it has the key and
/// no member before it has.
pub proof fn lemma_member_at(members: Seq<(Seq<char>, JsonView)>, index: int, key: Seq<char>)
    requires
        0 <= index < members.len(),
        members[index].0 == key,
        forall|k: int| 0 <= k < index ==> (#[trigger] members[k]).0 != key,
    ensures
        member_of(members, key) == Some(members[index].1),
    decreases index,
{
    if index > 0 {
        let rest = members.skip(1);
        assert(rest[index - 1] == members[index]);
        assert forall|k: int| 0 <= k < index - 1 implies (#[trigger] rest[k]).0 != key by {
            assert(rest[k] == members[k + 1]);
        }
        lemma_member_at(rest, index - 1, key);
    }
}

impl JsonView {
    /// The value of the member with this key, for an object that has one.
    pub open spec fn member(self, key: Seq<char>) -> Option<JsonView> {
        match self {
            JsonView::Object(members) => member_of(members, key),
            _ => None,
        }
    }
}

/// The value of the first member with this key.
pub fn find_member<'a>(members: &'a Vec<(String, Json)>, key: &str) -> (value: Option<&'a Json>)
    ensures
        match value {
            Some(found) => member_of(members_view(*members), key@) == Some(found@),
            None => member_of(members_view(*members), key@) is None,
        },
{
    let wanted = String::from_str(key);
    let ghost views = members_view(*members);
    let mut i: usize = 0;
    proof {
        lemma_members_view(*members);
        assert(views.skip(0) =~= views);
    }
    while i < members.len()
        invariant
            i <= members.len(),
            wanted@ == key@,
            views == members_view(*members),
            views.len() == members.len(),
            forall|k: int|
                0 <= k < members.len() ==> #[trigger] views[k] == (members[k].0@, members[k].1@),
            member_of(views, key@) == member_of(views.skip(i as int), key@),
        decreases members.len() - i,
    {
        assert(views.skip(i as int)[0] == views[i as int]);
        if members[i].0 == wanted {
            return Some(&members[i].1);
        }
        assert(views.skip(i as int).skip(1) =~= views.skip(i + 1));
        i += 1;
    }
    None
}

impl Json {
    /// The members, for an object.
    pub fn object(&self) -> (members: Option<&Vec<(String, Json)>>)
        ensures
            match self@ {
                JsonView::Object(views) => members is Some && members_view(*members->0) == views,
                _ => members is None,
            },
    {
        match self {
            Json::Object(members) => {
                assert(self@ == JsonView::Object(members_view(*members)));
                Some(members)
            },
            _ => None,
        }
    }

    /// The items, for a list.
    pub fn list(&self) -> (items: Option<&Vec<Json>>)
        ensures
            match self@ {
                JsonView::List(views) => items is Some && items_view(*items->0) == views,
                _ => items is None,
            },
    {
        match self {
            Json::List(items) => {
                assert(self@ == JsonView::List(items_view(*items)));
                Some(items)
            },
            _ => None,
        }
    }

    /// The number, for an integer.
    pub fn integer(&self) -> (number: Option<i64>)
        ensures
            match self@ {
                JsonView::Integer(n) => number == Some(n),
                _ => number is None,
            },
    {
        match self {
            Json::Integer(n) => Some(*n),
            _ => None,
        }
    }

    /// The text, for a string.
    pub fn text(&self) -> (text: Option<&String>)
        ensures
            match self@ {
                JsonView::Text(t) => text is Some && text->0@ == t,
                _ => text is None,
            },
    {
        match self {
            Json::Text(t) => Some(t),
            _ => None,
        }
    }

    /// Whether the value is `null`.
    pub fn is_null(&self) -> (null: bool)
        ensures
            null == (self@ is Null),
    {
        match self {
            Json::Null => true,
            _ => false,
        }
    }
}

/// An optional number as a value: the number, or `null`.
pub open spec fn number_or_null(number: Option<i64>) -> JsonView {
    match number {
        Some(n) => JsonView::Integer(n),
        None => JsonView::Null,
    }
}

/// An optional text as a value: the text, or `null`.
pub open spec fn text_or_null(text: Option<Seq<char>>) -> JsonView {
    match text {
        Some(t) => JsonView::Text(t),
        None => JsonView::Null,
    }
}

/// What an optional number reads as: nothing for `null` and for a missing
/// member, the number for a number; `None` for anything else.
pub open spec fn read_optional_number(value: Option<JsonView>) -> Option<Option<i64>> {
    match value {
        None => Some(None),
        Some(JsonView::Null) => Some(None),
        Some(JsonView::Integer(n)) => Some(Some(n)),
        Some(_) => None,
    }
}

/// What an optional text reads as: nothing for `null` and for a missing
/// member, the text for a text; `None` for anything else.
pub open spec fn read_optional_text(value: Option<JsonView>) -> Option<Option<Seq<char>>> {
    match value {
        None => Some(None),
        Some(JsonView::Null) => Some(None),
        Some(JsonView::Text(t)) => Some(Some(t)),
        Some(_) => None,
    }
}

/// What a required text reads as.
pub open spec fn read_text(value: Option<JsonView>) -> Option<Seq<char>> {
    match value {
        Some(JsonView::Text(t)) => Some(t),
        _ => None,
    }
}

/// What a required number reads as, if it lies in the range.
pub open spec fn read_number(value: Option<JsonView>, low: int, high: int) -> Option<i64> {
    match value {
        Some(JsonView::Integer(n)) => if low <= n <= high {
            Some(n)
        } else {
            None
        },
        _ => None,
    }
}

/// A member of an object.
pub fn member(key: &str, value: Json) -> (pair: (String, Json))
    ensures
        pair.0@ == key@,
        pair.1 == value,
{
    (String::from_str(key), value)
}

/// An optional number as a value.
pub fn number_json(number: &Option<i64>) -> (value: Json)
    ensures
        value@ == number_or_null(*number),
{
    match number {
        Some(n) => Json::Integer(*n),
        None => Json::Null,
    }
}

/// An optional text as a value.
pub fn text_json(text: &Option<String>) -> (value: Json)
    ensures
        value@ == text_or_null(optional_view(*text)),
{
    match text {
        Some(t) => Json::Text(t.clone()),
        None => Json::Null,
    }
}

/// Reads an optional number.
pub fn optional_number(value: Option<&Json>) -> (number: Option<Option<i64>>)
    ensures
        number == read_optional_number(
            match value {
                Some(v) => Some(v@),
                None => None,
            },
        ),
{
    match value {
        None => Some(None),
        Some(Json::Null) => Some(None),
        Some(Json::Integer(n)) => Some(Some(*n)),
        Some(_) => None,
    }
}

/// Reads an optional text.
pub fn optional_text(value: Option<&Json>) -> (text: Option<Option<String>>)
    ensures
        match text {
            Some(t) => read_optional_text(
                match value {
                    Some(v) => Some(v@),
                    None => None,
                },
            ) == Some(optional_view(t)),
            None => read_optional_text(
                match value {
                    Some(v) => Some(v@),
                    None => None,
                },
            ) is None,
        },
{
    match value {
        None => Some(None),
        Some(Json::Null) => Some(None),
        Some(Json::Text(t)) => Some(Some(t.clone())),
        Some(_) => None,
    }
}

/// Reads a required text.
pub fn required_text(value: Option<&Json>) -> (text: Option<String>)
    ensures
        optional_view(text) == read_text(
            match value {
                Some(v) => Some(v@),
                None => None,
            },
        ),
{
    match value {
        Some(Json::Text(t)) => Some(t.clone()),
        _ => None,
    }
}

/// Reads a required number within a range.
pub fn required_number(value: Option<&Json>, low: i64, high: i64) -> (number: Option<i64>)
    ensures
        number == read_number(
            match value {
                Some(v) => Some(v@),
                None => None,
            },
            low as int,
            high as int,
        ),
{
    match value {
        Some(Json::Integer(n)) => if low <= *n && *n <= high {
            Some(*n)
        } else {
            None
        },
        _ => None,
    }
}

/// The value of the member with this key, for an object that has one.
pub fn lookup<'a>(value: &'a Json, key: &str) -> (found: Option<&'a Json>)
    ensures
        match found {
            Some(v) => value@.member(key@) == Some(v@),
            None => value@.member(key@) is None,
        },
{
    match value.object() {
        Some(members) => find_member(members, key),
        None => None,
    }
}

/// What a required truth value reads as.
pub open spec fn read_bool(value: Option<JsonView>) -> Option<bool> {
    match value {
        Some(JsonView::Bool(b)) => Some(b),
        _ => None,
    }
}

/// What a required list reads as.
pub open spec fn read_list(value: Option<JsonView>) -> Option<Seq<JsonView>> {
    match value {
        Some(JsonView::List(items)) => Some(items),
        _ => None,
    }
}

/// What the items read as, in order, if `read` can read each of them.
pub open spec fn read_all<T>(items: Seq<JsonView>, read: spec_fn(JsonView) -> Option<T>) -> Option<
    Seq<T>,
>
    decreases items.len(),
{
    if items.len() == 0 {
        Some(Seq::empty())
    } else {
        match (read_all(items.drop_last(), read), read(items.last())) {
            (Some(before), Some(value)) => Some(before.push(value)),
            _ => None,
        }
    }
}

/// Items that cannot all be read up to some point cannot all be read.
pub proof fn lemma_read_all_fails<T>(
    items: Seq<JsonView>,
    read: spec_fn(JsonView) -> Option<T>,
    count: int,
)
    requires
        0 <= count <= items.len(),
        read_all(items.take(count), read) is None,
    ensures
        read_all(items, read) is None,
    decreases items.len(),
{
    if count < items.len() {
        assert(items.drop_last().take(count) =~= items.take(count));
        lemma_read_all_fails(items.drop_last(), read, count);
    } else {
        assert(items.take(count) =~= items);
    }
}

/// Items that each read as the value at their position read as the values.
pub proof fn lemma_read_all_reads<T>(
    items: Seq<JsonView>,
    read: spec_fn(JsonView) -> Option<T>,
    values: Seq<T>,
)
    requires
        items.len() == values.len(),
        forall|k: int| 0 <= k < items.len() ==> read(#[trigger] items[k]) == Some(values[k]),
    ensures
        read_all(items, read) == Some(values),
    decreases items.len(),
{
    if items.len() == 0 {
        assert(values =~= Seq::empty());
    } else {
        let front = items.drop_last();
        assert forall|k: int| 0 <= k < front.len() implies read(#[trigger] front[k]) == Some(
            values.drop_last()[k],
        ) by {
            assert(front[k] == items[k]);
        }
        lemma_read_all_reads(front, read, values.drop_last());
        assert(read(items[items.len() - 1]) == Some(values[items.len() - 1]));
        assert(values.drop_last().push(values.last()) =~= values);
    }
}

/// No member has the key, so the key finds nothing.
pub proof fn lemma_member_missing(members: Seq<(Seq<char>, JsonView)>, key: Seq<char>)
    requires
        forall|k: int| 0 <= k < members.len() ==> (#[trigger] members[k]).0 != key,
    ensures
        member_of(members, key) is None,
    decreases members.len(),
{
    if members.len() > 0 {
        let rest = members.skip(1);
        assert forall|k: int| 0 <= k < rest.len() implies (#[trigger] rest[k]).0 != key by {
            assert(rest[k] == members[k + 1]);
        }
        lemma_member_missing(rest, key);
    }
}

/// Reads a required truth value.
pub fn required_bool(value: Option<&Json>) -> (flag: Option<bool>)
    ensures
        flag == read_bool(
            match value {
                Some(v) => Some(v@),
                None => None,
            },
        ),
{
    match value {
        Some(Json::Bool(b)) => Some(*b),
        _ => None,
    }
}

/// Reads a required list.
pub fn required_list<'a>(value: Option<&'a Json>) -> (items: Option<&'a Vec<Json>>)
    ensures
        match items {
            Some(list) => read_list(
                match value {
                    Some(v) => Some(v@),
                    None => None,
                },
            ) == Some(items_view(*list)),
            None => read_list(
                match value {
                    Some(v) => Some(v@),
                    None => None,
                },
            ) is None,
        },
{
    match value {
        Some(json) => json.list(),
        None => None,
    }
}

} // verus!
