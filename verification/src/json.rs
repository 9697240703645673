//! JSON values as the library holds them, and the two trips between text and
//! value, which `serde_json` makes.

use crate::text::str_eq;
use serde_json::{Number, Value};
use vstd::prelude::*;

verus! {

/// `serde_json::Error`, carried as it is: nothing is known of what it holds.
#[verifier::external_type_specification]
#[verifier::external_body]
pub struct ExJsonError(serde_json::Error);

/// `serde_json::Number`, carried as it is. What one holds is `number_content`.
#[verifier::external_type_specification]
#[verifier::external_body]
pub struct ExJsonNumber(Number);

/// `serde_json::Value`, carried as it is. What one holds is `tree_content`.
#[verifier::external_type_specification]
#[verifier::external_body]
pub struct ExJsonTree(Value);

/// One member of a JSON object.
#[derive(Debug)]
pub struct Member {
    pub name: String,
    pub value: Json,
}

/// A JSON value.
///
/// A number is held as `serde_json` holds it. An object is held as the list
/// of its members, since a map of `serde_json` holds no values but those of
/// `serde_json`; a name that occurs twice stands for its last member, as it
/// does once the members are put into such a map.
#[derive(Debug)]
pub enum Json {
    Null,
    Bool(bool),
    Number(Number),
    Text(String),
    Array(Vec<Json>),
    Object(Vec<Member>),
}

/// What a JSON number is: an `Integer` where it is a whole number that fits
/// `i64`, else a `Real`, by the digits that it is displayed with.
pub ghost enum NumberValue {
    Integer(int),
    Real(Seq<char>),
}

/// What a JSON value is: the mathematical model of `Json`.
///
/// A number is an `Integer` where it is a whole number that fits `i64`; any
/// other number is a `Real`, by its digits.
pub ghost enum JsonValue {
    Null,
    Bool(bool),
    Integer(int),
    Real(Seq<char>),
    Text(Seq<char>),
    Array(Seq<JsonValue>),
    Object(Map<Seq<char>, JsonValue>),
}

/// The index of the last of `names` that equals `key`, or -1 if none does.
pub open spec fn last_named(names: Seq<Seq<char>>, key: Seq<char>) -> int
    decreases names.len(),
{
    if names.len() == 0 {
        -1
    } else if names.last() == key {
        names.len() - 1
    } else {
        last_named(names.drop_last(), key)
    }
}

/// The names of `members`, in order.
pub open spec fn member_names(members: Seq<Member>) -> Seq<Seq<char>> {
    Seq::new(members.len(), |i: int| members[i].name@)
}

impl View for Json {
    type V = JsonValue;

    open spec fn view(&self) -> JsonValue
        decreases self,
    {
        match self {
            Json::Null => JsonValue::Null,
            Json::Bool(b) => JsonValue::Bool(*b),
            Json::Number(number) => match number_content(*number) {
                NumberValue::Integer(n) => JsonValue::Integer(n),
                NumberValue::Real(digits) => JsonValue::Real(digits),
            },
            Json::Text(s) => JsonValue::Text(s@),
            Json::Array(items) => JsonValue::Array(
                Seq::new(
                    items@.len(),
                    |i: int|
                        if 0 <= i < items@.len() {
                            items@[i].view()
                        } else {
                            JsonValue::Null
                        },
                ),
            ),
            Json::Object(members) => JsonValue::Object(
                Map::new(
                    |k: Seq<char>| last_named(member_names(members@), k) >= 0,
                    |k: Seq<char>|
                        {
                            let i = last_named(member_names(members@), k);
                            if 0 <= i < members@.len() {
                                members@[i].value.view()
                            } else {
                                JsonValue::Null
                            }
                        },
                ),
            ),
        }
    }
}

impl JsonValue {
    /// The member called `key`, where this is an object that has one.
    pub open spec fn field(self, key: Seq<char>) -> Option<JsonValue> {
        match self {
            JsonValue::Object(fields) => if fields.contains_key(key) {
                Some(fields[key])
            } else {
                None
            },
            _ => None,
        }
    }

    /// The member called `key`, where there is one and it is not `null`.
    pub open spec fn present(self, key: Seq<char>) -> Option<JsonValue> {
        match self.field(key) {
            Some(JsonValue::Null) => None,
            other => other,
        }
    }

    /// The text of a JSON string.
    pub open spec fn text(self) -> Option<Seq<char>> {
        match self {
            JsonValue::Text(s) => Some(s),
            _ => None,
        }
    }

    /// The number, where it is a whole number that fits `i32`.
    pub open spec fn int32(self) -> Option<int> {
        match self {
            JsonValue::Integer(n) => if i32::MIN <= n <= i32::MAX {
                Some(n)
            } else {
                None
            },
            _ => None,
        }
    }

    /// The truth value of a JSON `true` or `false`.
    pub open spec fn boolean(self) -> Option<bool> {
        match self {
            JsonValue::Bool(b) => Some(b),
            _ => None,
        }
    }

    /// The items of a JSON array.
    pub open spec fn items(self) -> Option<Seq<JsonValue>> {
        match self {
            JsonValue::Array(items) => Some(items),
            _ => None,
        }
    }

    /// The text of the member `key`, which has to be there and be a string.
    pub open spec fn required_text(self, key: Seq<char>) -> Option<Seq<char>> {
        match self.field(key) {
            Some(v) => v.text(),
            None => None,
        }
    }

    /// The number of the member `key`, which has to be there and fit `i32`.
    pub open spec fn required_int32(self, key: Seq<char>) -> Option<int> {
        match self.field(key) {
            Some(v) => v.int32(),
            None => None,
        }
    }

    /// The text of the member `key`, which may be missing or `null`; `None`
    /// where it is there and is no string.
    pub open spec fn optional_text(self, key: Seq<char>) -> Option<Option<Seq<char>>> {
        match self.present(key) {
            None => Some(None),
            Some(v) => match v.text() {
                Some(s) => Some(Some(s)),
                None => None,
            },
        }
    }

    /// The number of the member `key`, which may be missing or `null`; `None`
    /// where it is there and is no number that fits `i32`.
    pub open spec fn optional_int32(self, key: Seq<char>) -> Option<Option<int>> {
        match self.present(key) {
            None => Some(None),
            Some(v) => match v.int32() {
                Some(n) => Some(Some(n)),
                None => None,
            },
        }
    }

    /// The truth value of the member `key`, which may be missing or `null`;
    /// `None` where it is there and is neither `true` nor `false`.
    pub open spec fn optional_boolean(self, key: Seq<char>) -> Option<Option<bool>> {
        match self.present(key) {
            None => Some(None),
            Some(v) => match v.boolean() {
                Some(b) => Some(Some(b)),
                None => None,
            },
        }
    }
}

/// What the members of an object stand for: each name that occurs, with the
/// value of its last member.
pub open spec fn fields_of(members: Seq<Member>) -> Map<Seq<char>, JsonValue> {
    Map::new(
        |k: Seq<char>| last_named(member_names(members), k) >= 0,
        |k: Seq<char>| members[last_named(member_names(members), k)].value@,
    )
}

/// An object is its members, read by `fields_of`.
pub proof fn lemma_object_view(j: Json)
    requires
        j is Object,
    ensures
        j@ == JsonValue::Object(fields_of(j->Object_0@)),
{
    let members = j->Object_0@;
    assert forall|k: Seq<char>| last_named(member_names(members), k) >= 0 implies 0
        <= last_named(member_names(members), k) < members.len() by {
        lemma_last_named(member_names(members), k);
    }
    assert(j@->Object_0 =~= fields_of(members));
}

/// One more member at the end of an object is an insertion into what the
/// object stands for.
pub proof fn lemma_fields_push(members: Seq<Member>, m: Member)
    ensures
        fields_of(members.push(m)) == fields_of(members).insert(m.name@, m.value@),
{
    let longer = members.push(m);
    assert(member_names(longer).drop_last() =~= member_names(members));
    assert forall|k: Seq<char>| k != m.name@ implies last_named(member_names(longer), k)
        == last_named(member_names(members), k) by {}
    assert forall|k: Seq<char>|
        k != m.name@ && last_named(member_names(members), k) >= 0 implies #[trigger] longer[last_named(
        member_names(members),
        k,
    )] == members[last_named(member_names(members), k)] by {
        lemma_last_named(member_names(members), k);
    }
    assert(fields_of(longer) =~= fields_of(members).insert(m.name@, m.value@));
}

/// No members stand for no fields.
pub proof fn lemma_fields_empty()
    ensures
        fields_of(Seq::<Member>::empty()) == no_fields(),
{
    assert(fields_of(Seq::<Member>::empty()) =~= no_fields());
}

/// An object without members.
pub open spec fn no_fields() -> Map<Seq<char>, JsonValue> {
    Map::empty()
}

/// `fields` with the text `value` under `key`, where there is a value.
pub open spec fn with_text(
    fields: Map<Seq<char>, JsonValue>,
    key: Seq<char>,
    value: Option<Seq<char>>,
) -> Map<Seq<char>, JsonValue> {
    match value {
        Some(s) => fields.insert(key, JsonValue::Text(s)),
        None => fields,
    }
}

/// `fields` with the number `value` under `key`, where there is a value.
pub open spec fn with_integer(
    fields: Map<Seq<char>, JsonValue>,
    key: Seq<char>,
    value: Option<int>,
) -> Map<Seq<char>, JsonValue> {
    match value {
        Some(n) => fields.insert(key, JsonValue::Integer(n)),
        None => fields,
    }
}

/// Adds the member `key` with the text `value`.
pub fn push_text(members: &mut Vec<Member>, key: &str, value: &str)
    ensures
        fields_of(final(members)@) == fields_of(old(members)@).insert(
            key@,
            JsonValue::Text(value@),
        ),
{
    let m = Member { name: String::from_str(key), value: Json::Text(String::from_str(value)) };
    proof {
        lemma_fields_push(members@, m);
    }
    members.push(m);
}

/// Adds the member `key` with the number `value`.
pub fn push_integer(members: &mut Vec<Member>, key: &str, value: i64)
    ensures
        fields_of(final(members)@) == fields_of(old(members)@).insert(
            key@,
            JsonValue::Integer(value as int),
        ),
{
    let m = Member { name: String::from_str(key), value: Json::integer(value) };
    proof {
        lemma_fields_push(members@, m);
    }
    members.push(m);
}

/// Adds the member `key` with the text `value`, where there is a value.
pub fn push_optional_text(members: &mut Vec<Member>, key: &str, value: &Option<String>)
    ensures
        fields_of(final(members)@) == with_text(
            fields_of(old(members)@),
            key@,
            match *value {
                Some(s) => Some(s@),
                None => None,
            },
        ),
{
    match value {
        Some(s) => push_text(members, key, s.as_str()),
        None => {},
    }
}

/// Adds the member `key` with the number `value`, where there is a value.
pub fn push_optional_integer(members: &mut Vec<Member>, key: &str, value: Option<i32>)
    ensures
        fields_of(final(members)@) == with_integer(
            fields_of(old(members)@),
            key@,
            match value {
                Some(n) => Some(n as int),
                None => None,
            },
        ),
{
    match value {
        Some(n) => push_integer(members, key, n as i64),
        None => {},
    }
}

/// Adds the member `key` with the value `value`.
pub fn push_value(members: &mut Vec<Member>, key: &str, value: Json)
    ensures
        fields_of(final(members)@) == fields_of(old(members)@).insert(key@, value@),
{
    let m = Member { name: String::from_str(key), value };
    proof {
        lemma_fields_push(members@, m);
    }
    members.push(m);
}

/// The object made of `members`.
pub fn object(members: Vec<Member>) -> (j: Json)
    ensures
        j@ == JsonValue::Object(fields_of(members@)),
{
    let j = Json::Object(members);
    proof {
        lemma_object_view(j);
    }
    j
}

/// Where the last of `names` equal to `key` stands.
pub proof fn lemma_last_named(names: Seq<Seq<char>>, key: Seq<char>)
    ensures
        -1 <= last_named(names, key) < names.len(),
        last_named(names, key) >= 0 ==> names[last_named(names, key)] == key,
        forall|j: int| last_named(names, key) < j < names.len() ==> names[j] != key,
    decreases names.len(),
{
    if names.len() > 0 && names.last() != key {
        let front = names.drop_last();
        lemma_last_named(front, key);
        assert forall|j: int| last_named(names, key) < j < names.len() implies names[j] != key by {
            if j < front.len() {
                assert(front[j] == names[j]);
            }
        }
    }
}

/// What `serde_json` reads from a text: the value, or nothing where the text
/// is no JSON.
pub uninterp spec fn parsed_json(text: Seq<char>) -> Option<JsonValue>;

/// What a number of `serde_json` holds: an `Integer` where `as_i64` gives
/// one, else a `Real` of the digits that the number is displayed with.
pub uninterp spec fn number_content(number: Number) -> NumberValue;

/// What a value of `serde_json` holds: variant by variant what `Json` holds,
/// a number as `number_content` has it, an object as the map from each key
/// to what its value holds.
pub uninterp spec fn tree_content(tree: Value) -> JsonValue;

/// The text that `serde_json` writes for a value.
pub uninterp spec fn json_text(value: JsonValue) -> Seq<char>;

/// `serde_json::from_str`, reading one `serde_json::Value`. It fails exactly on
/// the texts that are no JSON, and otherwise returns the value that the text
/// spells; both are named here, not defined.
#[verifier::external_body]
fn parse_tree(text: &str) -> (r: Result<Value, serde_json::Error>)
    ensures
        match r {
            Ok(tree) => parsed_json(text@) == Some(tree_content(tree)),
            Err(_) => parsed_json(text@) is None,
        },
{
    serde_json::from_str::<Value>(text)
}

/// `Number::as_i64`: the number as an `i64`, where it is a whole number that
/// fits one. That is what makes the number an `Integer` or a `Real`.
#[verifier::external_body]
fn number_as_i64(number: &Number) -> (r: Option<i64>)
    ensures
        match r {
            Some(n) => number_content(*number) == NumberValue::Integer(n as int),
            None => number_content(*number) is Real,
        },
{
    number.as_i64()
}

/// `Number::from` an `i64`: the number that holds `n`.
#[verifier::external_body]
fn number_of_i64(n: i64) -> (number: Number)
    ensures
        number_content(number) == NumberValue::Integer(n as int),
{
    Number::from(n)
}

/// Copies a `serde_json::Value` into a `Json`, variant by variant, each field
/// as it is. The copy's view is what the value is said to hold.
#[verifier::external_body]
fn json_of_tree(tree: &Value) -> (j: Json)
    ensures
        j@ == tree_content(*tree),
{
    match tree {
        Value::Null => Json::Null,
        Value::Bool(b) => Json::Bool(*b),
        Value::Number(n) => Json::Number(n.clone()),
        Value::String(s) => Json::Text(s.clone()),
        Value::Array(items) => Json::Array(items.iter().map(json_of_tree).collect()),
        Value::Object(fields) => Json::Object(
            fields.iter().map(|(k, v)| Member { name: k.clone(), value: json_of_tree(v) }).collect(),
        ),
    }
}

/// Copies a `Json` into a `serde_json::Value`, variant by variant, each field
/// as it is; the members of an object go in through `Map::insert`, in order,
/// so that of two with one name the later stays. The value holds what `j` is.
#[verifier::external_body]
fn tree_of_json(j: &Json) -> (tree: Value)
    ensures
        tree_content(tree) == j@,
{
    match j {
        Json::Null => Value::Null,
        Json::Bool(b) => Value::Bool(*b),
        Json::Number(n) => Value::Number(n.clone()),
        Json::Text(s) => Value::String(s.clone()),
        Json::Array(items) => Value::Array(items.iter().map(tree_of_json).collect()),
        Json::Object(members) => {
            let mut map = serde_json::Map::new();
            members.iter().for_each(|m| { map.insert(m.name.clone(), tree_of_json(&m.value)); });
            Value::Object(map)
        },
    }
}

/// `serde_json::to_string` on a `serde_json::Value`. The text it returns is a
/// function of what the value holds, and is named here, not defined.
///
/// It returns a text for every value. Its documentation names two ways to
/// fail: a `Serialize` impl that fails, and a map with a key that is no
/// string. The impl of `Value` raises no error of its own, the keys of its
/// maps are `String`s, and what is written goes into a `Vec`.
#[verifier::external_body]
fn tree_text(tree: &Value) -> (r: Result<String, serde_json::Error>)
    ensures
        match r {
            Ok(text) => text@ == json_text(tree_content(*tree)),
            Err(_) => false,
        },
{
    serde_json::to_string(tree)
}

/// `serde::de::Error::custom` for `serde_json::Error`: an error that carries
/// `message`. Nothing is claimed of it.
#[verifier::external_body]
pub(crate) fn shape_error(message: &str) -> serde_json::Error {
    serde::de::Error::custom(message)
}

impl Json {
    /// Reads a JSON text.
    pub fn parse(text: &str) -> (r: Result<Json, serde_json::Error>)
        ensures
            match r {
                Ok(j) => parsed_json(text@) == Some(j@),
                Err(_) => parsed_json(text@) is None,
            },
    {
        match parse_tree(text) {
            Ok(tree) => Ok(json_of_tree(&tree)),
            Err(e) => Err(e),
        }
    }

    /// The number `n` as a JSON value.
    pub fn integer(n: i64) -> (j: Json)
        ensures
            j@ == JsonValue::Integer(n as int),
    {
        Json::Number(number_of_i64(n))
    }

    /// The number that this value is, where it is a whole number that fits
    /// `i64`.
    pub fn as_integer(&self) -> (r: Option<i64>)
        ensures
            match r {
                Some(n) => self@ == JsonValue::Integer(n as int),
                None => !(self@ is Integer),
            },
    {
        match self {
            Json::Number(number) => number_as_i64(number),
            _ => None,
        }
    }

    /// Writes this value as JSON text: the text that `serde_json::to_string`
    /// writes for it, which it writes for every value.
    pub fn to_text(&self) -> (r: Result<String, serde_json::Error>)
        ensures
            r matches Ok(text) && text@ == json_text(self@),
    {
        let tree = tree_of_json(self);
        tree_text(&tree)
    }

    /// The member called `key`, where this is an object that has one.
    pub fn get(&self, key: &str) -> (r: Option<&Json>)
        ensures
            match r {
                Some(found) => self@.field(key@) == Some(found@),
                None => self@.field(key@) is None,
            },
    {
        match self {
            Json::Object(members) => {
                let ghost names = member_names(members@);
                let mut i: usize = members.len();
                while i > 0
                    invariant
                        i <= members.len(),
                        *self == Json::Object(*members),
                        names == member_names(members@),
                        forall|j: int| i <= j < members.len() ==> names[j] != key@,
                    decreases i,
                {
                    i = i - 1;
                    if str_eq(members[i].name.as_str(), key) {
                        proof {
                            lemma_last_named(names, key@);
                            assert(names[i as int] == key@);
                        }
                        return Some(&members[i].value);
                    }
                }
                proof {
                    lemma_last_named(names, key@);
                }
                None
            },
            _ => None,
        }
    }

    /// The text of the member `key`, which has to be there and be a string.
    pub fn required_text(&self, key: &str) -> (r: Option<String>)
        ensures
            match r {
                Some(s) => self@.required_text(key@) == Some(s@),
                None => self@.required_text(key@) is None,
            },
    {
        match self.get(key) {
            Some(Json::Text(s)) => Some(s.clone()),
            _ => None,
        }
    }

    /// The number of the member `key`, which has to be there and fit `i32`.
    pub fn required_int32(&self, key: &str) -> (r: Option<i32>)
        ensures
            match r {
                Some(n) => self@.required_int32(key@) == Some(n as int),
                None => self@.required_int32(key@) is None,
            },
    {
        match self.get(key) {
            Some(found) => match found.as_integer() {
                Some(n) => {
                    if -2147483648 <= n && n <= 2147483647 {
                        Some(n as i32)
                    } else {
                        None
                    }
                },
                None => None,
            },
            None => None,
        }
    }

    /// The text of the member `key`, which may be missing or `null`.
    pub fn optional_text(&self, key: &str) -> (r: Option<Option<String>>)
        ensures
            match r {
                Some(Some(s)) => self@.optional_text(key@) == Some(Some(s@)),
                Some(None) => self@.optional_text(key@) == Some(None::<Seq<char>>),
                None => self@.optional_text(key@) is None,
            },
    {
        match self.get_present(key) {
            None => Some(None),
            Some(Json::Text(s)) => Some(Some(s.clone())),
            Some(_) => None,
        }
    }

    /// The number of the member `key`, which may be missing or `null`.
    pub fn optional_int32(&self, key: &str) -> (r: Option<Option<i32>>)
        ensures
            match r {
                Some(Some(n)) => self@.optional_int32(key@) == Some(Some(n as int)),
                Some(None) => self@.optional_int32(key@) == Some(None::<int>),
                None => self@.optional_int32(key@) is None,
            },
    {
        match self.get_present(key) {
            None => Some(None),
            Some(found) => match found.as_integer() {
                Some(n) => {
                    if -2147483648 <= n && n <= 2147483647 {
                        Some(Some(n as i32))
                    } else {
                        None
                    }
                },
                None => None,
            },
        }
    }

    /// The truth value of the member `key`, which may be missing or `null`.
    pub fn optional_boolean(&self, key: &str) -> (r: Option<Option<bool>>)
        ensures
            match r {
                Some(Some(b)) => self@.optional_boolean(key@) == Some(Some(b)),
                Some(None) => self@.optional_boolean(key@) == Some(None::<bool>),
                None => self@.optional_boolean(key@) is None,
            },
    {
        match self.get_present(key) {
            None => Some(None),
            Some(Json::Bool(b)) => Some(Some(*b)),
            Some(_) => None,
        }
    }

    /// The member called `key`, where there is one and it is not `null`.
    pub fn get_present(&self, key: &str) -> (r: Option<&Json>)
        ensures
            match r {
                Some(found) => self@.present(key@) == Some(found@),
                None => self@.present(key@) is None,
            },
    {
        match self.get(key) {
            Some(Json::Null) => None,
            other => other,
        }
    }
}

} // verus!
