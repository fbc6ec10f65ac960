//! JSON values, and the reading and writing of JSON text with `serde_json`.
//!
//! [`Json`] is the value that the rest of the crate works on and [`JsonView`] is its mathematical
//! model. The parser and the printer are those of `serde_json`: what they compute is named by
//! [`parsed_json`] and [`json_text`].

use crate::text::same_text;
use serde_json::Value;
use vstd::prelude::*;
use vstd::string::*;

verus! {

/// A JSON value as mathematics: an object is a finite map from names to values.
pub enum JsonView {
    Null,
    Bool(bool),
    /// An integer from zero to `u64::MAX`.
    Unsigned(u64),
    /// An integer from `i64::MIN` to minus one.
    Negative(i64),
    /// Any other number, by the numeral that is printed for it.
    Decimal(Seq<char>),
    Text(Seq<char>),
    Array(Seq<JsonView>),
    Object(Map<Seq<char>, JsonView>),
}

/// The object with these members; of two members with one name the later one counts.
pub open spec fn object_of(members: Seq<(Seq<char>, JsonView)>) -> Map<Seq<char>, JsonView>
    decreases members.len(),
{
    if members.len() == 0 {
        Map::empty()
    } else {
        object_of(members.drop_last()).insert(members.last().0, members.last().1)
    }
}

/// The member `name` of an object; `None` for a value that is no object or has no such member.
pub open spec fn member(value: JsonView, name: Seq<char>) -> Option<JsonView> {
    match value {
        JsonView::Object(members) => if members.contains_key(name) {
            Some(members[name])
        } else {
            None
        },
        _ => None,
    }
}

/// The characters of a text value; `None` for any other value.
pub open spec fn as_text(value: JsonView) -> Option<Seq<char>> {
    match value {
        JsonView::Text(text) => Some(text),
        _ => None,
    }
}

/// The value of an integer that fits in an `i64`; `None` for any other value.
pub open spec fn as_integer(value: JsonView) -> Option<i64> {
    match value {
        JsonView::Unsigned(n) => if n <= i64::MAX {
            Some(n as i64)
        } else {
            None
        },
        JsonView::Negative(n) => Some(n),
        _ => None,
    }
}

/// The text member `name` of an object.
pub open spec fn text_member(value: JsonView, name: Seq<char>) -> Option<Seq<char>> {
    match member(value, name) {
        Some(inner) => as_text(inner),
        None => None,
    }
}

/// The text at `outer.inner` in an object of objects.
pub open spec fn text_at(value: JsonView, outer: Seq<char>, inner: Seq<char>) -> Option<Seq<char>> {
    match member(value, outer) {
        Some(held) => text_member(held, inner),
        None => None,
    }
}

/// Whether `value` holds only integers as numbers and nests arrays and objects at most
/// `depth` deep.
pub open spec fn plain_within(value: JsonView, depth: nat) -> bool
    decreases depth,
{
    match value {
        JsonView::Decimal(_) => false,
        JsonView::Negative(n) => n < 0,
        JsonView::Array(items) => depth > 0 && forall|i: int|
            0 <= i < items.len() ==> plain_within(#[trigger] items[i], (depth - 1) as nat),
        JsonView::Object(members) => depth > 0 && members.dom().finite() && forall|name: Seq<char>|
            members.contains_key(name) ==> plain_within(
                #[trigger] members[name],
                (depth - 1) as nat,
            ),
        _ => true,
    }
}

/// `serde_json::Value`, the value that the parser yields and the printer takes.
#[verifier::external_type_specification]
#[verifier::external_body]
pub struct ExValue(Value);

/// What a `serde_json::Value` holds.
pub uninterp spec fn json_view(value: serde_json::Value) -> JsonView;

/// What `serde_json::from_str` makes of `text`: the value, or `None` where it is no JSON text.
pub uninterp spec fn parsed_json(text: Seq<char>) -> Option<JsonView>;

/// The compact JSON text that `serde_json` prints for `value`.
pub uninterp spec fn json_text(value: JsonView) -> Seq<char>;

/// `serde_json::from_str`, its error dropped: the value that the text denotes, if there is one.
#[verifier::external_body]
fn parse_value(text: &str) -> (value: Option<Value>)
    ensures
        match value {
            Some(v) => parsed_json(text@) == Some(json_view(v)),
            None => parsed_json(text@) is None,
        },
{
    serde_json::from_str(text).ok()
}

/// `Display` of `serde_json::Value`: compact JSON text, in which every control character of a
/// string is escaped, so that the text holds no line feed. The parser reads the text back as the
/// value that was printed where all numbers are 64-bit integers and the nesting is at most the
/// 127 levels that the parser admits.
#[verifier::external_body]
fn value_text(value: &Value) -> (text: String)
    ensures
        text@ == json_text(json_view(*value)),
        !text@.contains('\n'),
        plain_within(json_view(*value), 127) ==> parsed_json(text@) == Some(json_view(*value)),
{
    value.to_string()
}

/// `Clone` of `serde_json::Value`: the copy holds what the value holds.
pub assume_specification[ <Value as Clone>::clone ](value: &Value) -> (copy: Value)
    ensures
        json_view(copy) == json_view(*value),
;

/// One level of a JSON value; what lies below is left in the form of `serde_json`.
enum Node {
    Null,
    Bool(bool),
    Unsigned(u64),
    Signed(i64),
    Decimal(Value),
    Text(String),
    Array(Vec<Value>),
    Object(Vec<(String, Value)>),
}

spec fn value_members(members: Seq<(String, Value)>) -> Seq<(Seq<char>, JsonView)> {
    members.map_values(|m: (String, Value)| (m.0@, json_view(m.1)))
}

spec fn distinct_names(members: Seq<(String, Value)>) -> bool {
    forall|i: int, j: int|
        0 <= i < j < members.len() ==> (#[trigger] members[i]).0@ != (#[trigger] members[j]).0@
}

spec fn signed_view(n: i64) -> JsonView {
    if n < 0 {
        JsonView::Negative(n)
    } else {
        JsonView::Unsigned(n as u64)
    }
}

spec fn node_view(node: Node) -> JsonView {
    match node {
        Node::Null => JsonView::Null,
        Node::Bool(b) => JsonView::Bool(b),
        Node::Unsigned(n) => JsonView::Unsigned(n),
        Node::Signed(n) => signed_view(n),
        Node::Decimal(value) => json_view(value),
        Node::Text(text) => JsonView::Text(text@),
        Node::Array(items) => JsonView::Array(items@.map_values(|v: Value| json_view(v))),
        Node::Object(members) => JsonView::Object(object_of(value_members(members@))),
    }
}

/// Takes a `serde_json::Value` apart by its variants. `Number::as_u64` and `Number::as_i64` tell
/// the integers from the other numbers; an object yields each of its names once.
#[verifier::external_body]
fn open_value(value: Value) -> (node: Node)
    ensures
        json_view(value) == node_view(node),
        node is Decimal ==> json_view(value) is Decimal,
        node matches Node::Object(members) ==> distinct_names(members@),
{
    match value {
        Value::Null => Node::Null,
        Value::Bool(b) => Node::Bool(b),
        Value::Number(n) => match (n.as_u64(), n.as_i64()) {
            (Some(n), _) => Node::Unsigned(n),
            (None, Some(n)) => Node::Signed(n),
            (None, None) => Node::Decimal(Value::Number(n)),
        },
        Value::String(text) => Node::Text(text),
        Value::Array(items) => Node::Array(items),
        Value::Object(members) => Node::Object(members.into_iter().collect()),
    }
}

/// Builds a `serde_json::Value` from its parts, an object from members with distinct names.
#[verifier::external_body]
fn close_value(node: Node) -> (value: Value)
    requires
        node matches Node::Object(members) ==> distinct_names(members@),
    ensures
        json_view(value) == node_view(node),
{
    match node {
        Node::Null => Value::Null,
        Node::Bool(b) => Value::Bool(b),
        Node::Unsigned(n) => Value::from(n),
        Node::Signed(n) => Value::from(n),
        Node::Decimal(value) => value,
        Node::Text(text) => Value::String(text),
        Node::Array(items) => Value::Array(items),
        Node::Object(members) => Value::Object(members.into_iter().collect()),
    }
}

/// A number that is no 64-bit integer, as the parser yielded it.
#[derive(Debug)]
pub struct Decimal {
    value: Value,
}

impl Decimal {
    #[verifier::type_invariant]
    spec fn is_decimal(self) -> bool {
        json_view(self.value) is Decimal
    }

    pub closed spec fn view(&self) -> JsonView {
        json_view(self.value)
    }
}

/// A named member of an object.
#[derive(Debug)]
pub struct Member {
    pub name: String,
    pub value: Json,
}

/// A JSON value. Of two members of an object with one name the later one counts.
#[derive(Debug)]
pub enum Json {
    Null,
    Bool(bool),
    Unsigned(u64),
    Signed(i64),
    Decimal(Decimal),
    Text(String),
    Array(Vec<Json>),
    Object(Vec<Member>),
}

/// The value that `json` stands for.
pub open spec fn json_tree(json: Json) -> JsonView
    decreases json,
{
    match json {
        Json::Null => JsonView::Null,
        Json::Bool(b) => JsonView::Bool(b),
        Json::Unsigned(n) => JsonView::Unsigned(n),
        Json::Signed(n) => if n < 0 {
            JsonView::Negative(n)
        } else {
            JsonView::Unsigned(n as u64)
        },
        Json::Decimal(number) => number@,
        Json::Text(text) => JsonView::Text(text@),
        Json::Array(items) => JsonView::Array(item_views(items@)),
        Json::Object(members) => JsonView::Object(object_of(member_views(members@))),
    }
}

/// The values of the elements of an array.
pub open spec fn item_views(items: Seq<Json>) -> Seq<JsonView>
    decreases items,
{
    Seq::new(
        items.len(),
        |i: int|
            if 0 <= i < items.len() {
                json_tree(items[i])
            } else {
                JsonView::Null
            },
    )
}

/// The names and values of the members of an object.
pub open spec fn member_views(members: Seq<Member>) -> Seq<(Seq<char>, JsonView)>
    decreases members,
{
    Seq::new(
        members.len(),
        |i: int|
            if 0 <= i < members.len() {
                (members[i].name@, json_tree(members[i].value))
            } else {
                (Seq::empty(), JsonView::Null)
            },
    )
}

impl View for Json {
    type V = JsonView;

    open spec fn view(&self) -> JsonView {
        json_tree(*self)
    }
}

/// What [`object_of`] holds: the names of the members, each with the value of a member.
proof fn lemma_object_of(members: Seq<(Seq<char>, JsonView)>)
    ensures
        object_of(members).dom().finite(),
        forall|name: Seq<char>| #[trigger]
            object_of(members).contains_key(name) ==> exists|i: int|
                0 <= i < members.len() && members[i].0 == name && object_of(members)[name]
                    == members[i].1,
        forall|i: int|
            0 <= i < members.len() ==> object_of(members).contains_key(#[trigger] members[i].0),
    decreases members.len(),
{
    if members.len() > 0 {
        let front = members.drop_last();
        lemma_object_of(front);
        assert forall|name: Seq<char>| #[trigger] object_of(members).contains_key(name) implies (
        exists|i: int|
            0 <= i < members.len() && members[i].0 == name && object_of(members)[name]
                == members[i].1) by {
            if name == members.last().0 {
                assert(members[members.len() - 1].0 == name);
            } else {
                assert(object_of(front).contains_key(name));
                let i = choose|i: int|
                    0 <= i < front.len() && front[i].0 == name && object_of(front)[name]
                        == front[i].1;
                assert(members[i] == front[i]);
            }
        }
        assert forall|i: int| 0 <= i < members.len() implies object_of(members).contains_key(
            #[trigger] members[i].0,
        ) by {
            if i < front.len() {
                assert(front[i] == members[i]);
            }
        }
    }
}

/// Replacing the value of one of several members with distinct names inserts it in the object.
proof fn lemma_object_replace(members: Seq<(Seq<char>, JsonView)>, k: int, value: JsonView)
    requires
        0 <= k < members.len(),
        forall|i: int, j: int|
            0 <= i < j < members.len() ==> (#[trigger] members[i]).0 != (#[trigger] members[j]).0,
    ensures
        object_of(members.update(k, (members[k].0, value))) == object_of(members).insert(
            members[k].0,
            value,
        ),
{
    let changed = members.update(k, (members[k].0, value));
    lemma_object_of(members);
    lemma_object_of(changed);
    let left = object_of(changed);
    let right = object_of(members).insert(members[k].0, value);
    assert forall|name: Seq<char>|
        #![trigger left.dom().contains(name)]
        #![trigger right.dom().contains(name)]
        left.dom().contains(name) == right.dom().contains(name) && (left.dom().contains(name)
            ==> left[name] == right[name]) by {
        if left.contains_key(name) {
            let i = choose|i: int|
                0 <= i < changed.len() && changed[i].0 == name && left[name] == changed[i].1;
            assert(members[i].0 == name);
            if i != k {
                let j = choose|j: int|
                    0 <= j < members.len() && members[j].0 == name && object_of(members)[name]
                        == members[j].1;
                assert(i == j);
                assert(name != members[k].0);
            }
        }
        if right.contains_key(name) {
            if name == members[k].0 {
                assert(changed[k].0 == name);
            } else {
                let j = choose|j: int|
                    0 <= j < members.len() && members[j].0 == name && object_of(members)[name]
                        == members[j].1;
                assert(changed[j].0 == name);
            }
        }
    }
    assert(left =~= right);
}

/// A member is found under its name, unless a later member has the same name.
pub proof fn lemma_member_found(members: Seq<(Seq<char>, JsonView)>, i: int)
    requires
        0 <= i < members.len(),
        forall|j: int| i < j < members.len() ==> (#[trigger] members[j]).0 != members[i].0,
    ensures
        member(JsonView::Object(object_of(members)), members[i].0) == Some(members[i].1),
    decreases members.len(),
{
    if i < members.len() - 1 {
        let front = members.drop_last();
        assert(front[i] == members[i]);
        assert forall|j: int| i < j < front.len() implies (#[trigger] front[j]).0 != front[i].0 by {
            assert(front[j] == members[j]);
        }
        lemma_member_found(front, i);
        assert(members.last() == members[members.len() - 1]);
    }
}

/// Nothing is found under a name that no member has.
pub proof fn lemma_member_missing(members: Seq<(Seq<char>, JsonView)>, name: Seq<char>)
    requires
        forall|j: int| 0 <= j < members.len() ==> (#[trigger] members[j]).0 != name,
    ensures
        member(JsonView::Object(object_of(members)), name) is None,
{
    lemma_object_of(members);
}

/// An object is plain where its members are.
pub proof fn lemma_plain_object(members: Seq<(Seq<char>, JsonView)>, depth: nat)
    requires
        depth > 0,
        forall|i: int|
            0 <= i < members.len() ==> plain_within(
                (#[trigger] members[i]).1,
                (depth - 1) as nat,
            ),
    ensures
        plain_within(JsonView::Object(object_of(members)), depth),
{
    lemma_object_of(members);
}

proof fn lemma_item_views_push(items: Seq<Json>, item: Json)
    ensures
        item_views(items.push(item)) == item_views(items).push(item@),
{
    assert(item_views(items.push(item)) =~= item_views(items).push(item@));
}

proof fn lemma_member_views_push(members: Seq<Member>, member: Member)
    ensures
        member_views(members.push(member)) == member_views(members).push(
            (member.name@, member.value@),
        ),
{
    assert(member_views(members.push(member)) =~= member_views(members).push(
        (member.name@, member.value@),
    ));
}

/// The value in the form of this crate.
fn from_value(value: Value) -> (json: Json)
    ensures
        json@ == json_view(value),
    decreases json_view(value),
{
    match open_value(value) {
        Node::Null => Json::Null,
        Node::Bool(b) => Json::Bool(b),
        Node::Unsigned(n) => Json::Unsigned(n),
        Node::Signed(n) => Json::Signed(n),
        Node::Decimal(value) => Json::Decimal(Decimal { value }),
        Node::Text(text) => Json::Text(text),
        Node::Array(values) => {
            let ghost views = values@.map_values(|v: Value| json_view(v));
            let mut items: Vec<Json> = Vec::new();
            for inner in it: values
                invariant
                    views == it.seq().map_values(|v: Value| json_view(v)),
                    json_view(value) == JsonView::Array(views),
                    item_views(items@) == views.take(it.index()),
            {
                assert(views[it.index()] == json_view(inner));
                assert(decreases_to!(json_view(value) => json_view(value)->Array_0));
                assert(decreases_to!(views => views[it.index()]));
                let item = from_value(inner);
                proof {
                    lemma_item_views_push(items@, item);
                }
                items.push(item);
                assert(views.take(it.index() + 1) == views.take(it.index()).push(
                    views[it.index()],
                ));
            }
            assert(views.take(views.len() as int) == views);
            Json::Array(items)
        },
        Node::Object(values) => {
            let ghost views = value_members(values@);
            proof {
                lemma_object_of(views);
            }
            let mut members: Vec<Member> = Vec::new();
            for entry in it: values
                invariant
                    views == value_members(it.seq()),
                    distinct_names(it.seq()),
                    json_view(value) == JsonView::Object(object_of(views)),
                    object_of(views).dom().finite(),
                    member_views(members@) == views.take(it.index()),
            {
                proof {
                    lemma_object_of(views);
                    let i = it.index();
                    let object = object_of(views);
                    let name = views[i].0;
                    assert(object.contains_key(name));
                    let j = choose|j: int|
                        0 <= j < views.len() && views[j].0 == name && object[name] == views[j].1;
                    assert(it.seq()[i].0@ == it.seq()[j].0@);
                    assert(i == j);
                    assert(object[name] == json_view(entry.1));
                    assert(decreases_to!(json_view(value) => json_view(value)->Object_0));
                    assert(decreases_to!(object => object[name]));
                }
                let named = Member { name: entry.0, value: from_value(entry.1) };
                proof {
                    lemma_member_views_push(members@, named);
                }
                members.push(named);
                assert(views.take(it.index() + 1) == views.take(it.index()).push(
                    views[it.index()],
                ));
            }
            assert(views.take(views.len() as int) == views);
            Json::Object(members)
        },
    }
}

/// The position of the member called `name`.
fn position_of(members: &Vec<(String, Value)>, name: &String) -> (position: Option<usize>)
    ensures
        match position {
            Some(k) => k < members@.len() && members@[k as int].0@ == name@,
            None => forall|i: int| 0 <= i < members@.len() ==> (#[trigger] members@[i]).0@ != name@,
        },
{
    let mut i: usize = 0;
    while i < members.len()
        invariant
            i <= members@.len(),
            forall|j: int| 0 <= j < i ==> (#[trigger] members@[j]).0@ != name@,
        decreases members@.len() - i,
    {
        if members[i].0 == *name {
            return Some(i);
        }
        i = i + 1;
    }
    None
}

/// The value in the form of `serde_json`.
fn to_value(json: &Json) -> (value: Value)
    ensures
        json_view(value) == json@,
    decreases *json,
{
    match json {
        Json::Null => close_value(Node::Null),
        Json::Bool(b) => close_value(Node::Bool(*b)),
        Json::Unsigned(n) => close_value(Node::Unsigned(*n)),
        Json::Signed(n) => close_value(Node::Signed(*n)),
        Json::Decimal(number) => number.value.clone(),
        Json::Text(text) => close_value(Node::Text(text.clone())),
        Json::Array(items) => {
            let mut values: Vec<Value> = Vec::new();
            let mut i: usize = 0;
            while i < items.len()
                invariant
                    *json == Json::Array(*items),
                    i <= items@.len(),
                    values@.map_values(|v: Value| json_view(v)) == item_views(items@).take(i as int),
                decreases items@.len() - i,
            {
                proof {
                    assert(decreases_to!(*json => json->Array_0));
                    assert(decreases_to!(items => items@));
                    assert(decreases_to!(items@ => items@[i as int]));
                }
                let value = to_value(&items[i]);
                let ghost before = values@;
                values.push(value);
                i = i + 1;
                assert(values@.map_values(|v: Value| json_view(v)) =~= before.map_values(
                    |v: Value| json_view(v),
                ).push(item_views(items@)[i - 1]));
                assert(item_views(items@).take(i as int) =~= item_views(items@).take(i - 1).push(
                    item_views(items@)[i - 1],
                ));
            }
            assert(item_views(items@).take(i as int) =~= item_views(items@));
            close_value(Node::Array(values))
        },
        Json::Object(members) => {
            let mut values: Vec<(String, Value)> = Vec::new();
            let ghost views = member_views(members@);
            assert(value_members(values@) =~= views.take(0));
            let mut i: usize = 0;
            while i < members.len()
                invariant
                    *json == Json::Object(*members),
                    views == member_views(members@),
                    i <= members@.len(),
                    distinct_names(values@),
                    object_of(value_members(values@)) == object_of(views.take(i as int)),
                decreases members@.len() - i,
            {
                let name = members[i].name.clone();
                proof {
                    assert(decreases_to!(*json => json->Object_0));
                    assert(decreases_to!(members => members@));
                    assert(decreases_to!(members@ => members@[i as int]));
                    assert(decreases_to!(members@[i as int] => members@[i as int].value));
                }
                let value = to_value(&members[i].value);
                let ghost before = value_members(values@);
                assert(views[i as int] == (name@, json_view(value)));
                assert(views.take(i + 1).drop_last() =~= views.take(i as int));
                match position_of(&values, &name) {
                    Some(k) => {
                        assert(before[k as int].0 == name@);
                        assert forall|a: int, b: int| 0 <= a < b < before.len() implies (
                        #[trigger] before[a]).0 != (#[trigger] before[b]).0 by {
                            assert(values@[a].0@ != values@[b].0@);
                        }
                        proof {
                            lemma_object_replace(before, k as int, json_view(value));
                        }
                        let ghost old_values = values@;
                        values[k] = (name, value);
                        assert(values@ == old_values.update(k as int, (name, value)));
                        assert(value_members(values@) =~= before.update(
                            k as int,
                            (name@, json_view(value)),
                        ));
                    },
                    None => {
                        values.push((name, value));
                        assert(value_members(values@) =~= before.push((name@, json_view(value))));
                        assert(value_members(values@).drop_last() =~= before);
                    },
                }
                i = i + 1;
            }
            assert(views.take(i as int) =~= views);
            close_value(Node::Object(values))
        },
    }
}

/// The member `name` with the value `value`.
pub fn named(name: &str, value: Json) -> (member: Member)
    ensures
        member.name@ == name@,
        member.value == value,
{
    Member { name: name.to_owned(), value }
}

/// A text value.
pub fn text_value(text: &str) -> (json: Json)
    ensures
        json@ == JsonView::Text(text@),
{
    Json::Text(text.to_owned())
}

/// An optional text: `null` where there is none.
pub open spec fn optional_text(text: Option<Seq<char>>) -> JsonView {
    match text {
        Some(s) => JsonView::Text(s),
        None => JsonView::Null,
    }
}

/// An optional text: `null` where there is none.
pub fn optional_text_value(text: &Option<String>) -> (json: Json)
    ensures
        json@ == optional_text(crate::text::text_view(*text)),
{
    match text {
        Some(s) => Json::Text(s.clone()),
        None => Json::Null,
    }
}

impl Json {
    /// Reads JSON text; `None` where `text` is no JSON text.
    pub fn parse(text: &str) -> (json: Option<Json>)
        ensures
            match json {
                Some(value) => parsed_json(text@) == Some(value@),
                None => parsed_json(text@) is None,
            },
    {
        match parse_value(text) {
            Some(value) => Some(from_value(value)),
            None => None,
        }
    }

    /// Writes the value as compact JSON text, which is a single line. The text reads back as the
    /// same value where the value is shallow and all its numbers are integers.
    pub fn to_text(&self) -> (text: String)
        ensures
            text@ == json_text(self@),
            !text@.contains('\n'),
            plain_within(self@, 127) ==> parsed_json(text@) == Some(self@),
    {
        let value = to_value(self);
        value_text(&value)
    }

    /// The member `name` of an object.
    pub fn get(&self, name: &str) -> (found: Option<&Json>)
        ensures
            match found {
                Some(value) => member(self@, name@) == Some(value@),
                None => member(self@, name@) is None,
            },
    {
        match self {
            Json::Object(members) => {
                let ghost views = member_views(members@);
                assert(views.take(views.len() as int) =~= views);
                let mut n: usize = members.len();
                while n > 0
                    invariant
                        *self == Json::Object(*members),
                        views == member_views(members@),
                        n <= members@.len(),
                        object_of(views).contains_key(name@) == object_of(
                            views.take(n as int),
                        ).contains_key(name@),
                        object_of(views).contains_key(name@) ==> object_of(views)[name@]
                            == object_of(views.take(n as int))[name@],
                    decreases n,
                {
                    assert(views.take(n as int).drop_last() =~= views.take(n - 1));
                    assert(views.take(n as int).last() == views[n - 1]);
                    if same_text(members[n - 1].name.as_str(), name) {
                        return Some(&members[n - 1].value);
                    }
                    n = n - 1;
                }
                assert(views.take(0) =~= Seq::empty());
                None
            },
            Json::Decimal(number) => {
                proof {
                    use_type_invariant(number);
                }
                None
            },
            _ => None,
        }
    }

    /// The characters of a text value.
    pub fn as_str(&self) -> (text: Option<&str>)
        ensures
            match text {
                Some(s) => as_text(self@) == Some(s@),
                None => as_text(self@) is None,
            },
    {
        match self {
            Json::Text(text) => Some(text.as_str()),
            Json::Decimal(number) => {
                proof {
                    use_type_invariant(number);
                }
                None
            },
            _ => None,
        }
    }

    /// The value of an integer from zero to `u64::MAX`.
    pub fn as_u64(&self) -> (number: Option<u64>)
        ensures
            match number {
                Some(n) => self@ == JsonView::Unsigned(n),
                None => !(self@ is Unsigned),
            },
    {
        match self {
            Json::Unsigned(n) => Some(*n),
            Json::Signed(n) => if *n >= 0 {
                Some(*n as u64)
            } else {
                None
            },
            Json::Decimal(number) => {
                proof {
                    use_type_invariant(number);
                }
                None
            },
            _ => None,
        }
    }

    /// The value of an integer that fits in an `i64`.
    pub fn as_i64(&self) -> (number: Option<i64>)
        ensures
            number == as_integer(self@),
    {
        match self {
            Json::Unsigned(n) => if *n <= i64::MAX as u64 {
                Some(*n as i64)
            } else {
                None
            },
            Json::Signed(n) => Some(*n),
            Json::Decimal(number) => {
                proof {
                    use_type_invariant(number);
                }
                None
            },
            _ => None,
        }
    }

    /// Whether the value is `null`.
    pub fn is_null(&self) -> (null: bool)
        ensures
            null == (self@ is Null),
    {
        match self {
            Json::Null => true,
            Json::Decimal(number) => {
                proof {
                    use_type_invariant(number);
                }
                false
            },
            _ => false,
        }
    }

    /// The elements of an array.
    pub fn as_array(&self) -> (items: Option<&Vec<Json>>)
        ensures
            match items {
                Some(items) => self@ == JsonView::Array(item_views(items@)),
                None => !(self@ is Array),
            },
    {
        match self {
            Json::Array(items) => Some(items),
            Json::Decimal(number) => {
                proof {
                    use_type_invariant(number);
                }
                None
            },
            _ => None,
        }
    }

    /// Whether the value is an object.
    pub fn is_object(&self) -> (object: bool)
        ensures
            object == (self@ is Object),
    {
        match self {
            Json::Object(_) => true,
            Json::Decimal(number) => {
                proof {
                    use_type_invariant(number);
                }
                false
            },
            _ => false,
        }
    }

    /// A copy of the value.
    pub fn duplicate(&self) -> (copy: Json)
        ensures
            copy@ == self@,
    {
        from_value(to_value(self))
    }

    /// The text member `name` of an object.
    pub fn text(&self, name: &str) -> (found: Option<&str>)
        ensures
            match found {
                Some(s) => text_member(self@, name@) == Some(s@),
                None => text_member(self@, name@) is None,
            },
    {
        match self.get(name) {
            Some(value) => value.as_str(),
            None => None,
        }
    }

    /// The text at `outer.inner` in an object of objects.
    pub fn text_in(&self, outer: &str, inner: &str) -> (found: Option<&str>)
        ensures
            match found {
                Some(s) => text_at(self@, outer@, inner@) == Some(s@),
                None => text_at(self@, outer@, inner@) is None,
            },
    {
        match self.get(outer) {
            Some(value) => value.text(inner),
            None => None,
        }
    }
}

} // verus!
