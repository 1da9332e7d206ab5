//! JSON values, as the OVSDB protocol exchanges them.
use vstd::prelude::*;
use crate::ovsdb::assoc::{find_key, index_of_key, keys_of, lemma_index_of_key};

verus! {

/// A JSON value.
///
/// Numbers are kept as the wire has them: a non-negative integer, a negative
/// integer, or any other number by its decimal text. Object members keep
/// their order.
#[derive(Debug, PartialEq)]
pub enum Json {
    Null,
    Bool(bool),
    /// A non-negative integer
    UInt(u64),
    /// A negative integer
    Int(i64),
    /// A number that is not an integer, by its text
    Float(String),
    Str(String),
    Array(Vec<Json>),
    Object(Vec<(String, Json)>),
}

/// The abstract value of a JSON value.
pub enum JsonModel {
    Null,
    Bool(bool),
    UInt(u64),
    Int(i64),
    Float(Seq<char>),
    Str(Seq<char>),
    Array(Seq<JsonModel>),
    Object(Seq<(Seq<char>, JsonModel)>),
}

/// The models of the elements of an array.
pub open spec fn items_model(items: Seq<Json>) -> Seq<JsonModel>
    decreases items,
{
    if items.len() == 0 {
        Seq::empty()
    } else {
        items_model(items.drop_last()).push(json_model(items.last()))
    }
}

/// The models of the members of an object.
pub open spec fn members_model(members: Seq<(String, Json)>) -> Seq<(Seq<char>, JsonModel)>
    decreases members,
{
    if members.len() == 0 {
        Seq::empty()
    } else {
        members_model(members.drop_last()).push(
            (members.last().0@, json_model(members.last().1)),
        )
    }
}

/// The model of a JSON value.
pub open spec fn json_model(j: Json) -> JsonModel
    decreases j,
{
    match j {
        Json::Null => JsonModel::Null,
        Json::Bool(b) => JsonModel::Bool(b),
        Json::UInt(n) => JsonModel::UInt(n),
        Json::Int(n) => JsonModel::Int(n),
        Json::Float(t) => JsonModel::Float(t@),
        Json::Str(s) => JsonModel::Str(s@),
        Json::Array(items) => JsonModel::Array(items_model(items@)),
        Json::Object(members) => JsonModel::Object(members_model(members@)),
    }
}

impl View for Json {
    type V = JsonModel;

    open spec fn view(&self) -> JsonModel {
        json_model(*self)
    }
}

/// Appending an element appends its model.
pub proof fn lemma_items_model_push(items: Seq<Json>, j: Json)
    ensures
        items_model(items.push(j)) == items_model(items).push(j@),
{
    assert(items.push(j).drop_last() =~= items);
}

/// Appending a member appends its model.
pub proof fn lemma_members_model_push(members: Seq<(String, Json)>, m: (String, Json))
    ensures
        members_model(members.push(m)) == members_model(members).push((m.0@, m.1@)),
{
    assert(members.push(m).drop_last() =~= members);
}

/// The model of a sequence has its length.
pub proof fn lemma_items_model_len(items: Seq<Json>)
    ensures
        items_model(items).len() == items.len(),
    decreases items.len(),
{
    if items.len() > 0 {
        lemma_items_model_len(items.drop_last());
    }
}

/// The model of a member sequence has its length.
pub proof fn lemma_members_model_len(members: Seq<(String, Json)>)
    ensures
        members_model(members).len() == members.len(),
    decreases members.len(),
{
    if members.len() > 0 {
        lemma_members_model_len(members.drop_last());
    }
}

/// Each element's model stands at its index.
pub proof fn lemma_items_model_index(items: Seq<Json>, i: int)
    requires
        0 <= i < items.len(),
    ensures
        items_model(items)[i] == items[i]@,
        items_model(items).len() == items.len(),
    decreases items.len(),
{
    lemma_items_model_len(items);
    if i < items.len() - 1 {
        lemma_items_model_index(items.drop_last(), i);
    }
}

/// Each member's model stands at its index.
pub proof fn lemma_members_model_index(members: Seq<(String, Json)>, i: int)
    requires
        0 <= i < members.len(),
    ensures
        members_model(members)[i] == (members[i].0@, members[i].1@),
        members_model(members).len() == members.len(),
    decreases members.len(),
{
    lemma_members_model_len(members);
    if i < members.len() - 1 {
        lemma_members_model_index(members.drop_last(), i);
    }
}

impl Json {
    /// A copy of this value.
    pub fn deep_clone(&self) -> (r: Json)
        ensures
            r@ == self@,
        decreases self,
    {
        match self {
            Json::Null => Json::Null,
            Json::Bool(b) => Json::Bool(*b),
            Json::UInt(n) => Json::UInt(*n),
            Json::Int(n) => Json::Int(*n),
            Json::Float(t) => Json::Float(t.clone()),
            Json::Str(s) => Json::Str(s.clone()),
            Json::Array(items) => {
                let mut out: Vec<Json> = Vec::new();
                let mut i: usize = 0;
                while i < items.len()
                    invariant
                        i <= items.len(),
                        *self == Json::Array(*items),
                        items_model(out@) == items_model(items@.take(i as int)),
                    decreases items.len() - i,
                {
                    assert(decreases_to!(*self => items@[i as int])) by {
                        assert(decreases_to!(*self => (*self)->Array_0));
                        assert(decreases_to!(*items => items@));
                        assert(decreases_to!(items@ => items@[i as int]));
                    }
                    let c = items[i].deep_clone();
                    proof {
                        lemma_items_model_push(out@, c);
                        lemma_items_model_push(items@.take(i as int), items@[i as int]);
                        assert(items@.take(i as int).push(items@[i as int]) =~= items@.take(i + 1));
                    }
                    out.push(c);
                    i = i + 1;
                }
                assert(items@.take(items.len() as int) =~= items@);
                Json::Array(out)
            },
            Json::Object(members) => {
                let mut out: Vec<(String, Json)> = Vec::new();
                let mut i: usize = 0;
                while i < members.len()
                    invariant
                        i <= members.len(),
                        *self == Json::Object(*members),
                        members_model(out@) == members_model(members@.take(i as int)),
                    decreases members.len() - i,
                {
                    assert(decreases_to!(*self => members@[i as int].1)) by {
                        assert(decreases_to!(*self => (*self)->Object_0));
                        assert(decreases_to!(*members => members@));
                        assert(decreases_to!(members@ => members@[i as int]));
                        assert(decreases_to!(members@[i as int] => members@[i as int].1));
                    }
                    let c = members[i].1.deep_clone();
                    let k = members[i].0.clone();
                    proof {
                        lemma_members_model_push(out@, (k, c));
                        lemma_members_model_push(members@.take(i as int), members@[i as int]);
                        assert(members@.take(i as int).push(members@[i as int]) =~= members@.take(i + 1));
                    }
                    out.push((k, c));
                    i = i + 1;
                }
                assert(members@.take(members.len() as int) =~= members@);
                Json::Object(out)
            },
        }
    }
}

/// The keys of an object's members, in order.
pub open spec fn member_keys(ms: Seq<(Seq<char>, JsonModel)>) -> Seq<Seq<char>> {
    ms.map_values(|m: (Seq<char>, JsonModel)| m.0)
}

/// The member keys of a model are the keys of the members it models.
pub proof fn lemma_member_keys(members: Seq<(String, Json)>)
    ensures
        member_keys(members_model(members)) == keys_of(members),
{
    lemma_members_model_len(members);
    assert forall|i: int| 0 <= i < members.len() implies member_keys(members_model(members))[i]
        == keys_of(members)[i] by {
        lemma_members_model_index(members, i);
    }
    assert(member_keys(members_model(members)) =~= keys_of(members));
}

/// The value of member `k` of an object (its first member with that key);
/// `None` for a missing member or for a value that is not an object.
pub open spec fn object_get(j: JsonModel, k: Seq<char>) -> Option<JsonModel> {
    match j {
        JsonModel::Object(ms) => {
            let i = index_of_key(member_keys(ms), k);
            if i >= 0 {
                Some(ms[i].1)
            } else {
                None
            }
        },
        _ => None,
    }
}

/// Element `i` of an array; `None` past its end or for a value that is not
/// an array.
pub open spec fn array_at(j: JsonModel, i: int) -> Option<JsonModel> {
    match j {
        JsonModel::Array(items) => if 0 <= i < items.len() {
            Some(items[i])
        } else {
            None
        },
        _ => None,
    }
}

/// The text of a string value.
pub open spec fn str_of(j: JsonModel) -> Option<Seq<char>> {
    match j {
        JsonModel::Str(s) => Some(s),
        _ => None,
    }
}

/// The value of an integer that fits in an `i64`.
pub open spec fn i64_of(j: JsonModel) -> Option<i64> {
    match j {
        JsonModel::UInt(n) => if n <= i64::MAX {
            Some(n as i64)
        } else {
            None
        },
        JsonModel::Int(n) => Some(n),
        _ => None,
    }
}

/// The value of a non-negative integer.
pub open spec fn u64_of(j: JsonModel) -> Option<u64> {
    match j {
        JsonModel::UInt(n) => Some(n),
        _ => None,
    }
}

/// The value of a boolean.
pub open spec fn bool_of(j: JsonModel) -> Option<bool> {
    match j {
        JsonModel::Bool(b) => Some(b),
        _ => None,
    }
}

/// The model of a string value.
pub open spec fn jstr(s: Seq<char>) -> JsonModel {
    JsonModel::Str(s)
}

/// The model of an integer, in the form JSON gives it.
pub open spec fn jint(n: int) -> JsonModel {
    if n >= 0 {
        JsonModel::UInt(n as u64)
    } else {
        JsonModel::Int(n as i64)
    }
}

impl Json {
    /// A string value.
    pub fn string(s: &str) -> (r: Json)
        ensures
            r@ == jstr(s@),
    {
        Json::Str(s.to_owned())
    }

    /// An integer value.
    pub fn from_i64(n: i64) -> (r: Json)
        ensures
            r@ == jint(n as int),
    {
        if n >= 0 {
            Json::UInt(n as u64)
        } else {
            Json::Int(n)
        }
    }

    /// A non-negative integer value.
    pub fn from_u64(n: u64) -> (r: Json)
        ensures
            r@ == jint(n as int),
    {
        Json::UInt(n)
    }

    /// The member `key` of an object.
    pub fn get(&self, key: &str) -> (r: Option<&Json>)
        ensures
            match object_get(self@, key@) {
                Some(v) => r matches Some(x) && x@ == v,
                None => r is None,
            },
    {
        match self {
            Json::Object(members) => {
                proof {
                    lemma_member_keys(members@);
                    lemma_index_of_key(keys_of(members@), key@);
                }
                match find_key(members, key) {
                    Some(i) => {
                        proof {
                            lemma_members_model_index(members@, i as int);
                        }
                        Some(&members[i].1)
                    },
                    None => None,
                }
            },
            _ => None,
        }
    }

    /// Element `i` of an array.
    pub fn at(&self, i: usize) -> (r: Option<&Json>)
        ensures
            match array_at(self@, i as int) {
                Some(v) => r matches Some(x) && x@ == v,
                None => r is None,
            },
    {
        match self {
            Json::Array(items) => {
                proof {
                    lemma_items_model_len(items@);
                }
                if i < items.len() {
                    proof {
                        lemma_items_model_index(items@, i as int);
                    }
                    Some(&items[i])
                } else {
                    None
                }
            },
            _ => None,
        }
    }

    /// The elements of an array.
    pub fn as_array(&self) -> (r: Option<&Vec<Json>>)
        ensures
            match self@ {
                JsonModel::Array(items) => r matches Some(v) && items_model(v@) == items,
                _ => r is None,
            },
    {
        match self {
            Json::Array(items) => Some(items),
            _ => None,
        }
    }

    /// The members of an object.
    pub fn as_object(&self) -> (r: Option<&Vec<(String, Json)>>)
        ensures
            match self@ {
                JsonModel::Object(ms) => r matches Some(v) && members_model(v@) == ms,
                _ => r is None,
            },
    {
        match self {
            Json::Object(members) => Some(members),
            _ => None,
        }
    }

    /// The text of a string value.
    pub fn as_str(&self) -> (r: Option<&str>)
        ensures
            match str_of(self@) {
                Some(s) => r matches Some(x) && x@ == s,
                None => r is None,
            },
    {
        match self {
            Json::Str(s) => Some(s.as_str()),
            _ => None,
        }
    }

    /// The value of an integer that fits in an `i64`.
    pub fn as_i64(&self) -> (r: Option<i64>)
        ensures
            r == i64_of(self@),
    {
        match self {
            Json::UInt(n) => if *n <= i64::MAX as u64 {
                Some(*n as i64)
            } else {
                None
            },
            Json::Int(n) => Some(*n),
            _ => None,
        }
    }

    /// The value of a non-negative integer.
    pub fn as_u64(&self) -> (r: Option<u64>)
        ensures
            r == u64_of(self@),
    {
        match self {
            Json::UInt(n) => Some(*n),
            _ => None,
        }
    }

    /// The value of a boolean.
    pub fn as_bool(&self) -> (r: Option<bool>)
        ensures
            r == bool_of(self@),
    {
        match self {
            Json::Bool(b) => Some(*b),
            _ => None,
        }
    }

    /// Whether this is `null`.
    pub fn is_null(&self) -> (r: bool)
        ensures
            r == (self@ is Null),
    {
        match self {
            Json::Null => true,
            _ => false,
        }
    }
}

impl Clone for Json {
    fn clone(&self) -> (r: Json)
        ensures
            r@ == self@,
    {
        self.deep_clone()
    }
}

} // verus!
