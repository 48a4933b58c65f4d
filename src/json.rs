//! JSON documents as the client sends and receives them.
//!
//! Turning bytes into a `JsonValue` and back is left to a JSON codec outside
//! the library; what each endpoint puts into a document and reads out of one is
//! stated and proved here.
use vstd::prelude::*;

verus! {

broadcast use vstd::std_specs::vec::axiom_vec_index_decreases;

/// The mathematical content of a JSON document.
pub enum Json {
    Null,
    Bool(bool),
    Number(int),
    /// A number that is not an integer (its value is not kept)
    Fraction,
    Text(Seq<char>),
    Array(Seq<Json>),
    Object(Seq<(Seq<char>, Json)>),
}

/// A JSON document.
#[derive(Debug)]
pub enum JsonValue {
    Null,
    Bool(bool),
    Integer(i128),
    /// A number with a fractional part or an exponent
    Fraction,
    Text(String),
    Array(Vec<JsonValue>),
    Object(Vec<(String, JsonValue)>),
}

/// The content of a JSON document.
pub open spec fn json_of(v: JsonValue) -> Json
    decreases v,
{
    match v {
        JsonValue::Null => Json::Null,
        JsonValue::Bool(b) => Json::Bool(b),
        JsonValue::Integer(n) => Json::Number(n as int),
        JsonValue::Fraction => Json::Fraction,
        JsonValue::Text(s) => Json::Text(s@),
        JsonValue::Array(items) => Json::Array(
            Seq::new(
                items@.len(),
                |i: int|
                    if 0 <= i < items@.len() {
                        json_of(items@[i])
                    } else {
                        Json::Null
                    },
            ),
        ),
        JsonValue::Object(members) => Json::Object(
            Seq::new(
                members@.len(),
                |i: int|
                    if 0 <= i < members@.len() {
                        (members@[i].0@, json_of(members@[i].1))
                    } else {
                        (Seq::empty(), Json::Null)
                    },
            ),
        ),
    }
}

impl View for JsonValue {
    type V = Json;

    open spec fn view(&self) -> Json {
        json_of(*self)
    }
}

/// The view of the members of an object.
pub open spec fn members_view(m: Seq<(String, JsonValue)>) -> Seq<(Seq<char>, Json)> {
    Seq::new(m.len(), |i: int| (m[i].0@, m[i].1@))
}

/// The view of an object is the view of its members.
pub proof fn lemma_object_view(members: Vec<(String, JsonValue)>)
    ensures
        JsonValue::Object(members)@ == Json::Object(members_view(members@)),
{
    let v = JsonValue::Object(members);
    assert(v@ is Object);
    assert(v@->Object_0.len() == members@.len());
    assert forall|i: int| 0 <= i < members@.len() implies v@->Object_0[i] == members_view(
        members@,
    )[i] by {
        assert(v@->Object_0[i].0 == members@[i].0@);
    }
    assert(v@->Object_0 =~= members_view(members@));
}

/// The view of an array is the view of its items.
pub proof fn lemma_array_view(items: Vec<JsonValue>)
    ensures
        JsonValue::Array(items)@ == Json::Array(Seq::new(items@.len(), |i: int| items@[i]@)),
{
    let v = JsonValue::Array(items);
    assert(v@ is Array);
    assert(v@->Array_0.len() == items@.len());
    assert forall|i: int| 0 <= i < items@.len() implies v@->Array_0[i] == items@[i]@ by {
        assert(v@->Array_0[i] == items@[i]@);
    }
    assert(v@->Array_0 =~= Seq::new(items@.len(), |i: int| items@[i]@));
}

/// The value of the first member named `key`, from position `i` on.
pub open spec fn member_from(m: Seq<(Seq<char>, Json)>, key: Seq<char>, i: int) -> Option<Json>
    decreases m.len() - i,
{
    if i < 0 || i >= m.len() {
        None
    } else if m[i].0 == key {
        Some(m[i].1)
    } else {
        member_from(m, key, i + 1)
    }
}

/// The value of the member named `key`, where `j` is an object that has one.
pub open spec fn field(j: Json, key: Seq<char>) -> Option<Json> {
    match j {
        Json::Object(m) => member_from(m, key, 0),
        _ => None,
    }
}

/// A string value.
pub open spec fn as_text(j: Option<Json>) -> Option<Seq<char>> {
    match j {
        Some(Json::Text(s)) => Some(s),
        _ => None,
    }
}

/// An integer value within `lo ..= hi`.
pub open spec fn as_int(j: Option<Json>, lo: int, hi: int) -> Option<int> {
    match j {
        Some(Json::Number(n)) => if lo <= n <= hi {
            Some(n)
        } else {
            None
        },
        _ => None,
    }
}

/// A boolean value.
pub open spec fn as_bool(j: Option<Json>) -> Option<bool> {
    match j {
        Some(Json::Bool(b)) => Some(b),
        _ => None,
    }
}

/// The member `key` as a string.
pub open spec fn text_field(j: Json, key: Seq<char>) -> Option<Seq<char>> {
    as_text(field(j, key))
}

/// The member `key` as an integer within `lo ..= hi`.
pub open spec fn int_field(j: Json, key: Seq<char>, lo: int, hi: int) -> Option<int> {
    as_int(field(j, key), lo, hi)
}

/// The member `key` as a boolean.
pub open spec fn bool_field(j: Json, key: Seq<char>) -> Option<bool> {
    as_bool(field(j, key))
}

/// The member `key` as a signed 64-bit integer.
pub open spec fn i64_field(j: Json, key: Seq<char>) -> Option<int> {
    int_field(j, key, i64::MIN as int, i64::MAX as int)
}

/// The member `key` as an unsigned 64-bit integer.
pub open spec fn u64_field(j: Json, key: Seq<char>) -> Option<int> {
    int_field(j, key, 0, u64::MAX as int)
}

/// The member `key` as an unsigned 32-bit integer.
pub open spec fn u32_field(j: Json, key: Seq<char>) -> Option<int> {
    int_field(j, key, 0, u32::MAX as int)
}

/// A type that can be read from a JSON document.
pub trait FromJson: Sized {
    /// Whether `j` describes a value of this type.
    spec fn json_decodes(j: Json) -> bool;

    /// Whether `j` describes the value `v`.
    spec fn json_describes(j: Json, v: Self) -> bool;

    /// Reads a value out of `j`, or `None` where `j` does not describe one.
    fn from_json(j: &JsonValue) -> (r: Option<Self>)
        ensures
            r is Some <==> Self::json_decodes(j@),
            r matches Some(v) ==> Self::json_describes(j@, v),
    ;
}

/// Whether `j` is an array each of whose items describes a `T`.
pub open spec fn list_decodes<T: FromJson>(j: Json) -> bool {
    match j {
        Json::Array(items) => forall|i: int| 0 <= i < items.len() ==> T::json_decodes(#[trigger] items[i]),
        _ => false,
    }
}

/// Whether `j` is an array whose items describe the items of `s`, in order.
pub open spec fn list_describes<T: FromJson>(j: Json, s: Seq<T>) -> bool {
    match j {
        Json::Array(items) => items.len() == s.len() && forall|i: int|
            0 <= i < items.len() ==> T::json_describes(#[trigger] items[i], s[i]),
        _ => false,
    }
}

/// Reads every item of the array `j`, or `None` where `j` is not an array
/// of `T`.
pub fn list_from_json<T: FromJson>(j: &JsonValue) -> (r: Option<Vec<T>>)
    ensures
        r is Some <==> list_decodes::<T>(j@),
        r matches Some(v) ==> list_describes::<T>(j@, v@),
{
    match j {
        JsonValue::Array(items) => {
            proof {
                lemma_array_view(*items);
            }
            let mut out: Vec<T> = Vec::new();
            let mut i: usize = 0;
            while i < items.len()
                invariant
                    0 <= i <= items@.len(),
                    out@.len() == i,
                    j@ == Json::Array(Seq::new(items@.len(), |k: int| items@[k]@)),
                    forall|k: int| 0 <= k < i ==> T::json_decodes(#[trigger] items@[k]@),
                    forall|k: int| 0 <= k < i ==> T::json_describes(#[trigger] items@[k]@, out@[k]),
                decreases items@.len() - i,
            {
                match T::from_json(&items[i]) {
                    Some(v) => {
                        out.push(v);
                    },
                    None => {
                        assert(!T::json_decodes(j@->Array_0[i as int]));
                        return None;
                    },
                }
                i = i + 1;
            }
            Some(out)
        },
        _ => None,
    }
}

/// Whether the member `key` of `j` is an array of `T`.
pub open spec fn list_field_decodes<T: FromJson>(j: Json, key: Seq<char>) -> bool {
    field(j, key) matches Some(l) && list_decodes::<T>(l)
}

/// Whether the member `key` of `j` is an array describing the items of `s`.
pub open spec fn list_field_describes<T: FromJson>(j: Json, key: Seq<char>, s: Seq<T>) -> bool {
    field(j, key) matches Some(l) && list_describes::<T>(l, s)
}

impl JsonValue {
    /// The member `key` as a list of `T`.
    pub fn list_member<T: FromJson>(&self, key: &str) -> (r: Option<Vec<T>>)
        ensures
            r is Some <==> list_field_decodes::<T>(self@, key@),
            r matches Some(v) ==> list_field_describes::<T>(self@, key@, v@),
    {
        match self.get(key) {
            Some(l) => list_from_json::<T>(l),
            None => None,
        }
    }

    /// The value of the first member named `key`, where this is an object
    /// that has one.
    pub fn get(&self, key: &str) -> (r: Option<&JsonValue>)
        ensures
            field(self@, key@) == match r {
                Some(v) => Some(v@),
                None => None::<Json>,
            },
    {
        match self {
            JsonValue::Object(members) => {
                let name = key.to_owned();
                proof {
                    lemma_object_view(*members);
                }
                let ghost m = self@->Object_0;
                let mut i: usize = 0;
                while i < members.len()
                    invariant
                        0 <= i <= members@.len(),
                        name@ == key@,
                        self@ == Json::Object(m),
                        m.len() == members@.len(),
                        forall|k: int| 0 <= k < m.len() ==> #[trigger] m[k] == (members@[k].0@, members@[k].1@),
                        member_from(m, key@, 0) == member_from(m, key@, i as int),
                    decreases members@.len() - i,
                {
                    if members[i].0 == name {
                        return Some(&members[i].1);
                    }
                    i = i + 1;
                }
                None
            },
            _ => None,
        }
    }

    /// The member `key` as a string.
    pub fn text_member(&self, key: &str) -> (r: Option<String>)
        ensures
            text_field(self@, key@) == match r {
                Some(s) => Some(s@),
                None => None::<Seq<char>>,
            },
    {
        match self.get(key) {
            Some(JsonValue::Text(s)) => Some(s.clone()),
            _ => None,
        }
    }

    /// The member `key` as a boolean.
    pub fn bool_member(&self, key: &str) -> (r: Option<bool>)
        ensures
            r == bool_field(self@, key@),
    {
        match self.get(key) {
            Some(JsonValue::Bool(b)) => Some(*b),
            _ => None,
        }
    }

    /// The member `key` as a signed 64-bit integer.
    pub fn i64_member(&self, key: &str) -> (r: Option<i64>)
        ensures
            i64_field(self@, key@) == match r {
                Some(n) => Some(n as int),
                None => None::<int>,
            },
    {
        match self.get(key) {
            Some(JsonValue::Integer(n)) => if i64::MIN as i128 <= *n && *n <= i64::MAX as i128 {
                Some(*n as i64)
            } else {
                None
            },
            _ => None,
        }
    }

    /// The member `key` as an unsigned 64-bit integer.
    pub fn u64_member(&self, key: &str) -> (r: Option<u64>)
        ensures
            u64_field(self@, key@) == match r {
                Some(n) => Some(n as int),
                None => None::<int>,
            },
    {
        match self.get(key) {
            Some(JsonValue::Integer(n)) => if 0 <= *n && *n <= u64::MAX as i128 {
                Some(*n as u64)
            } else {
                None
            },
            _ => None,
        }
    }

    /// The member `key` as an unsigned 32-bit integer.
    pub fn u32_member(&self, key: &str) -> (r: Option<u32>)
        ensures
            u32_field(self@, key@) == match r {
                Some(n) => Some(n as int),
                None => None::<int>,
            },
    {
        match self.get(key) {
            Some(JsonValue::Integer(n)) => if 0 <= *n && *n <= u32::MAX as i128 {
                Some(*n as u32)
            } else {
                None
            },
            _ => None,
        }
    }
}

/// The members of an empty object.
pub fn no_members() -> (r: Vec<(String, JsonValue)>)
    ensures
        members_view(r@) == Seq::<(Seq<char>, Json)>::empty(),
{
    let r: Vec<(String, JsonValue)> = Vec::new();
    assert(members_view(r@) =~= Seq::<(Seq<char>, Json)>::empty());
    r
}

/// Appends the member `key: value` to the members of an object.
pub fn push_member(members: &mut Vec<(String, JsonValue)>, key: &str, value: JsonValue)
    ensures
        members_view(final(members)@) == members_view(old(members)@).push((key@, value@)),
{
    members.push((key.to_owned(), value));
    assert(members_view(final(members)@) =~= members_view(old(members)@).push((key@, value@)));
}

/// An object with the given members.
pub fn object(members: Vec<(String, JsonValue)>) -> (r: JsonValue)
    ensures
        r@ == Json::Object(members_view(members@)),
{
    let r = JsonValue::Object(members);
    proof {
        lemma_object_view(members);
    }
    r
}

/// A string value.
pub fn text(s: &str) -> (r: JsonValue)
    ensures
        r@ == Json::Text(s@),
{
    JsonValue::Text(s.to_owned())
}

/// A type that can be written as a JSON document.
pub trait ToJson {
    /// The document that describes this value.
    spec fn json(&self) -> Json;

    /// Writes this value as a JSON document.
    fn to_json(&self) -> (r: JsonValue)
        ensures
            r@ == self.json(),
    ;
}

/// The array of the documents of the items of `s`.
pub open spec fn json_list<T: ToJson>(s: Seq<T>) -> Json {
    Json::Array(Seq::new(s.len(), |i: int| s[i].json()))
}

/// Writes every item of `v`, in order, as a JSON array.
pub fn list_to_json<T: ToJson>(v: &Vec<T>) -> (r: JsonValue)
    ensures
        r@ == json_list(v@),
{
    let mut items: Vec<JsonValue> = Vec::new();
    let mut i: usize = 0;
    while i < v.len()
        invariant
            0 <= i <= v@.len(),
            items@.len() == i,
            forall|k: int| 0 <= k < i ==> (#[trigger] items@[k])@ == v@[k].json(),
        decreases v@.len() - i,
    {
        items.push(v[i].to_json());
        i = i + 1;
    }
    proof {
        lemma_array_view(items);
    }
    let r = JsonValue::Array(items);
    assert(r@->Array_0 =~= json_list(v@)->Array_0);
    r
}

} // verus!
