//! A JSON document model: the exec value the library works on, its
//! mathematical model, and the lookups and updates the model output
//! normalisation needs.
use vstd::prelude::*;
use crate::text::{owned, str_eq};
use crate::workflow::strs_view;

verus! {

/// A JSON number: an integer that fits in `i64`, or any other number kept as
/// its decimal text.
pub enum JsonNumber {
    Int(i64),
    Other(String),
}

/// One member of a JSON object.
pub struct JsonMember {
    pub key: String,
    pub value: JsonValue,
}

/// A JSON value.
pub enum JsonValue {
    Null,
    Bool(bool),
    Number(JsonNumber),
    Str(String),
    Array(Vec<JsonValue>),
    Object(Vec<JsonMember>),
}

/// The mathematical model of a JSON value.
pub enum Json {
    Null,
    Bool(bool),
    Int(i64),
    OtherNum(Seq<char>),
    Str(Seq<char>),
    Arr(Seq<Json>),
    Obj(Seq<(Seq<char>, Json)>),
}

impl JsonValue {
    pub open spec fn model(self) -> Json
        decreases self,
    {
        match self {
            JsonValue::Null => Json::Null,
            JsonValue::Bool(b) => Json::Bool(b),
            JsonValue::Number(JsonNumber::Int(i)) => Json::Int(i),
            JsonValue::Number(JsonNumber::Other(t)) => Json::OtherNum(t@),
            JsonValue::Str(s) => Json::Str(s@),
            JsonValue::Array(items) => Json::Arr(
                Seq::new(
                    items@.len(),
                    |i: int|
                        if 0 <= i < items@.len() {
                            items@[i].model()
                        } else {
                            Json::Null
                        },
                ),
            ),
            JsonValue::Object(ms) => Json::Obj(
                Seq::new(
                    ms@.len(),
                    |i: int|
                        if 0 <= i < ms@.len() {
                            (ms@[i].key@, ms@[i].value.model())
                        } else {
                            (Seq::empty(), Json::Null)
                        },
                ),
            ),
        }
    }
}

/// The models of a list of values.
pub open spec fn seq_model(items: Seq<JsonValue>) -> Seq<Json> {
    Seq::new(items.len(), |i: int| items[i].model())
}

/// The models of a list of object members.
pub open spec fn members_model(ms: Seq<JsonMember>) -> Seq<(Seq<char>, Json)> {
    Seq::new(ms.len(), |i: int| (ms[i].key@, ms[i].value.model()))
}

pub proof fn lemma_array_model(items: Vec<JsonValue>)
    ensures
        JsonValue::Array(items).model() == Json::Arr(seq_model(items@)),
{
    assert(JsonValue::Array(items).model()->Arr_0 =~= seq_model(items@));
}

pub proof fn lemma_object_model(ms: Vec<JsonMember>)
    ensures
        JsonValue::Object(ms).model() == Json::Obj(members_model(ms@)),
{
    assert(JsonValue::Object(ms).model()->Obj_0 =~= members_model(ms@));
}

/// The value of the first member named `key`.
pub open spec fn obj_get(ms: Seq<(Seq<char>, Json)>, key: Seq<char>) -> Option<Json>
    decreases ms.len(),
{
    if ms.len() == 0 {
        None
    } else if ms[0].0 == key {
        Some(ms[0].1)
    } else {
        obj_get(ms.drop_first(), key)
    }
}

/// The index of the first member named `key`, if any.
pub open spec fn obj_index(ms: Seq<(Seq<char>, Json)>, key: Seq<char>) -> Option<int>
    decreases ms.len(),
{
    if ms.len() == 0 {
        None
    } else if ms[0].0 == key {
        Some(0)
    } else {
        match obj_index(ms.drop_first(), key) {
            Some(i) => Some(i + 1),
            None => None,
        }
    }
}

/// The members after setting `key` to `v`: the first member of that name is
/// replaced in place, or a new member is added at the end.
pub open spec fn obj_insert(ms: Seq<(Seq<char>, Json)>, key: Seq<char>, v: Json) -> Seq<
    (Seq<char>, Json),
> {
    match obj_index(ms, key) {
        Some(i) => ms.update(i, (key, v)),
        None => ms.push((key, v)),
    }
}

/// The keys of an object's members.
pub open spec fn obj_keys(ms: Seq<(Seq<char>, Json)>) -> Seq<Seq<char>> {
    ms.map_values(|m: (Seq<char>, Json)| m.0)
}

impl Json {
    /// `Value::get` with a string key: the member of an object, nothing for
    /// any other value.
    pub open spec fn get(self, key: Seq<char>) -> Option<Json> {
        match self {
            Json::Obj(ms) => obj_get(ms, key),
            _ => None,
        }
    }
}

/// `Option<&Value>` followed by `Value::as_str`.
pub open spec fn opt_str(j: Option<Json>) -> Option<Seq<char>> {
    match j {
        Some(Json::Str(s)) => Some(s),
        _ => None,
    }
}

/// `Option<&Value>` followed by `Value::as_array`.
pub open spec fn opt_arr(j: Option<Json>) -> Option<Seq<Json>> {
    match j {
        Some(Json::Arr(a)) => Some(a),
        _ => None,
    }
}

/// `Option<&Value>` followed by `Value::as_object`.
pub open spec fn opt_obj(j: Option<Json>) -> Option<Seq<(Seq<char>, Json)>> {
    match j {
        Some(Json::Obj(m)) => Some(m),
        _ => None,
    }
}

pub proof fn lemma_obj_index(ms: Seq<(Seq<char>, Json)>, key: Seq<char>)
    ensures
        obj_index(ms, key) matches Some(i) ==> 0 <= i < ms.len() && ms[i].0 == key && obj_get(ms, key)
            == Some(ms[i].1) && forall|j: int| 0 <= j < i ==> ms[j].0 != key,
        obj_index(ms, key) is None <==> obj_get(ms, key) is None,
        obj_index(ms, key) is None ==> forall|j: int| 0 <= j < ms.len() ==> ms[j].0 != key,
    decreases ms.len(),
{
    if ms.len() > 0 && ms[0].0 != key {
        lemma_obj_index(ms.drop_first(), key);
        assert forall|j: int| 0 <= j < ms.len() && obj_index(ms, key) is None implies ms[j].0
            != key by {
            if j > 0 {
                assert(ms[j] == ms.drop_first()[j - 1]);
            }
        }
        if let Some(i) = obj_index(ms, key) {
            assert forall|j: int| 0 <= j < i implies ms[j].0 != key by {
                if j > 0 {
                    assert(ms[j] == ms.drop_first()[j - 1]);
                }
            }
        }
    }
}

/// Looking up a key after setting it gives the value set; looking up any
/// other key gives what it gave before.
pub proof fn law_get_after_insert(ms: Seq<(Seq<char>, Json)>, key: Seq<char>, v: Json, other: Seq<char>)
    ensures
        obj_get(obj_insert(ms, key, v), key) == Some(v),
        other != key ==> obj_get(obj_insert(ms, key, v), other) == obj_get(ms, other),
{
    lemma_obj_index(ms, key);
    let r = obj_insert(ms, key, v);
    lemma_obj_index(r, key);
    lemma_obj_index(ms, other);
    lemma_obj_index(r, other);
    match obj_index(ms, key) {
        Some(i) => {
            assert(r[i].0 == key);
            if let Some(k) = obj_index(r, key) {
                if k < i {
                    assert(r[k] == ms[k]);
                }
                if k > i {
                    assert(r[i].0 == key);
                }
            }
            if other != key {
                match obj_index(ms, other) {
                    Some(j) => {
                        assert(r[j] == ms[j]);
                        if let Some(k) = obj_index(r, other) {
                            if k < j {
                                assert(r[k] == ms[k] || k == i);
                            }
                            if k > j {
                                assert(r[j].0 == other);
                            }
                        }
                    },
                    None => {
                        if let Some(k) = obj_index(r, other) {
                            assert(r[k] == ms[k] || k == i);
                        }
                    },
                }
            }
        },
        None => {
            assert(r[ms.len() as int].0 == key);
            if let Some(k) = obj_index(r, key) {
                if k < ms.len() {
                    assert(r[k] == ms[k]);
                }
            }
            if other != key {
                match obj_index(ms, other) {
                    Some(j) => {
                        assert(r[j] == ms[j]);
                        if let Some(k) = obj_index(r, other) {
                            if k < j {
                                assert(r[k] == ms[k]);
                            }
                            if k > j {
                                assert(r[j].0 == other);
                            }
                        }
                    },
                    None => {
                        if let Some(k) = obj_index(r, other) {
                            if k < ms.len() {
                                assert(r[k] == ms[k]);
                            }
                        }
                    },
                }
            }
        },
    }
}

/// Setting a key never introduces a second member of the same name.
pub proof fn law_insert_keeps_keys_distinct(ms: Seq<(Seq<char>, Json)>, key: Seq<char>, v: Json)
    requires
        obj_keys(ms).no_duplicates(),
    ensures
        obj_keys(obj_insert(ms, key, v)).no_duplicates(),
{
    lemma_obj_index(ms, key);
    let r = obj_insert(ms, key, v);
    assert forall|i: int, j: int|
        0 <= i < obj_keys(r).len() && 0 <= j < obj_keys(r).len() && i != j implies obj_keys(r)[i]
        != obj_keys(r)[j] by {
        assert(obj_keys(r)[i] == r[i].0);
        assert(obj_keys(r)[j] == r[j].0);
        match obj_index(ms, key) {
            Some(k) => {
                assert(obj_keys(ms)[k] == ms[k].0);
                if i != k {
                    assert(obj_keys(ms)[i] == ms[i].0);
                }
                if j != k {
                    assert(obj_keys(ms)[j] == ms[j].0);
                }
            },
            None => {
                if i < ms.len() {
                    assert(obj_keys(ms)[i] == ms[i].0);
                }
                if j < ms.len() {
                    assert(obj_keys(ms)[j] == ms[j].0);
                }
            },
        }
    }
}

impl JsonValue {
    /// A string value.
    pub fn string(s: String) -> (v: JsonValue)
        ensures
            v.model() == Json::Str(s@),
    {
        JsonValue::Str(s)
    }

    /// `Value::as_str`.
    pub fn as_str(&self) -> (r: Option<&String>)
        ensures
            match r {
                Some(s) => self.model() == Json::Str(s@),
                None => !(self.model() is Str),
            },
    {
        match self {
            JsonValue::Str(s) => Some(s),
            _ => None,
        }
    }

    /// `Value::as_array`.
    pub fn as_array(&self) -> (r: Option<&Vec<JsonValue>>)
        ensures
            match r {
                Some(items) => self.model() == Json::Arr(seq_model(items@)),
                None => !(self.model() is Arr),
            },
    {
        match self {
            JsonValue::Array(items) => {
                proof {
                    lemma_array_model(*items);
                }
                Some(items)
            },
            _ => None,
        }
    }

    /// `Value::as_object`.
    pub fn as_object(&self) -> (r: Option<&Vec<JsonMember>>)
        ensures
            match r {
                Some(ms) => self.model() == Json::Obj(members_model(ms@)),
                None => !(self.model() is Obj),
            },
    {
        match self {
            JsonValue::Object(ms) => {
                proof {
                    lemma_object_model(*ms);
                }
                Some(ms)
            },
            _ => None,
        }
    }

    /// `Value::as_i64`.
    pub fn as_i64(&self) -> (r: Option<i64>)
        ensures
            match r {
                Some(i) => self.model() == Json::Int(i),
                None => !(self.model() is Int),
            },
    {
        match self {
            JsonValue::Number(JsonNumber::Int(i)) => Some(*i),
            _ => None,
        }
    }

    /// `Value::get` with a string key.
    pub fn get(&self, key: &str) -> (r: Option<&JsonValue>)
        ensures
            match r {
                Some(v) => self.model().get(key@) == Some(v.model()),
                None => self.model().get(key@) is None,
            },
    {
        match self {
            JsonValue::Object(ms) => {
                proof {
                    lemma_object_model(*ms);
                }
                members_get(ms, key)
            },
            _ => None,
        }
    }

    /// A copy of the value, member for member.
    pub fn deep_clone(&self) -> (r: JsonValue)
        ensures
            r.model() == self.model(),
        decreases self,
    {
        match self {
            JsonValue::Null => JsonValue::Null,
            JsonValue::Bool(b) => JsonValue::Bool(*b),
            JsonValue::Number(JsonNumber::Int(i)) => JsonValue::Number(JsonNumber::Int(*i)),
            JsonValue::Number(JsonNumber::Other(t)) => JsonValue::Number(
                JsonNumber::Other(t.clone()),
            ),
            JsonValue::Str(s) => JsonValue::Str(s.clone()),
            JsonValue::Array(items) => {
                let mut out: Vec<JsonValue> = Vec::new();
                let mut i: usize = 0;
                while i < items.len()
                    invariant
                        i <= items@.len(),
                        out@.len() == i,
                        forall|j: int| 0 <= j < i ==> (#[trigger] out@[j]).model() == items@[j].model(),
                        forall|j: int| 0 <= j < items@.len() ==> decreases_to!(*self => #[trigger] items@[j]),
                    decreases items@.len() - i,
                {
                    let c = items[i].deep_clone();
                    out.push(c);
                    i = i + 1;
                }
                proof {
                    lemma_array_model(*items);
                    lemma_array_model(out);
                    assert(seq_model(out@) =~= seq_model(items@));
                }
                JsonValue::Array(out)
            },
            JsonValue::Object(ms) => {
                let mut out: Vec<JsonMember> = Vec::new();
                let mut i: usize = 0;
                while i < ms.len()
                    invariant
                        i <= ms@.len(),
                        out@.len() == i,
                        forall|j: int|
                            0 <= j < i ==> (#[trigger] out@[j]).key@ == ms@[j].key@ && out@[j].value.model()
                                == ms@[j].value.model(),
                        forall|j: int| 0 <= j < ms@.len() ==> decreases_to!(*self => #[trigger] ms@[j].value),
                    decreases ms@.len() - i,
                {
                    let v = ms[i].value.deep_clone();
                    out.push(JsonMember { key: ms[i].key.clone(), value: v });
                    i = i + 1;
                }
                proof {
                    lemma_object_model(*ms);
                    lemma_object_model(out);
                    assert(members_model(out@) =~= members_model(ms@));
                }
                JsonValue::Object(out)
            },
        }
    }
}

/// The value of the first member named `key` (`Map::get`).
pub fn members_get<'a>(ms: &'a Vec<JsonMember>, key: &str) -> (r: Option<&'a JsonValue>)
    ensures
        match r {
            Some(v) => obj_get(members_model(ms@), key@) == Some(v.model()),
            None => obj_get(members_model(ms@), key@) is None,
        },
{
    let ghost m = members_model(ms@);
    let mut i: usize = 0;
    assert(m.skip(0) =~= m);
    while i < ms.len()
        invariant
            i <= ms@.len(),
            m == members_model(ms@),
            obj_get(m, key@) == obj_get(m.skip(i as int), key@),
        decreases ms@.len() - i,
    {
        proof {
            assert(m.skip(i as int)[0] == m[i as int]);
            assert(m.skip(i as int).drop_first() =~= m.skip(i + 1));
        }
        if str_eq(ms[i].key.as_str(), key) {
            return Some(&ms[i].value);
        }
        i = i + 1;
    }
    None
}

/// The index of the first member named `key`.
fn members_index(ms: &Vec<JsonMember>, key: &str) -> (r: Option<usize>)
    ensures
        match r {
            Some(i) => obj_index(members_model(ms@), key@) == Some(i as int),
            None => obj_index(members_model(ms@), key@) is None,
        },
{
    let ghost m = members_model(ms@);
    let mut i: usize = 0;
    assert(m.skip(0) =~= m);
    while i < ms.len()
        invariant
            i <= ms@.len(),
            m == members_model(ms@),
            obj_index(m, key@) == match obj_index(m.skip(i as int), key@) {
                Some(j) => Some(j + i),
                None => None,
            },
        decreases ms@.len() - i,
    {
        proof {
            assert(m.skip(i as int)[0] == m[i as int]);
            assert(m.skip(i as int).drop_first() =~= m.skip(i + 1));
        }
        if str_eq(ms[i].key.as_str(), key) {
            return Some(i);
        }
        i = i + 1;
    }
    None
}

/// Sets member `key` to `value` (`Map::insert`).
pub fn members_insert(ms: &mut Vec<JsonMember>, key: &str, value: JsonValue)
    ensures
        members_model(final(ms)@) == obj_insert(members_model(old(ms)@), key@, value.model()),
{
    let ghost m0 = members_model(ms@);
    let ghost vm = value.model();
    match members_index(ms, key) {
        Some(i) => {
            proof {
                lemma_obj_index(m0, key@);
            }
            ms.set(i, JsonMember { key: owned(key), value });
            proof {
                assert(members_model(ms@) =~= m0.update(i as int, (key@, vm)));
            }
        },
        None => {
            ms.push(JsonMember { key: owned(key), value });
            proof {
                assert(members_model(ms@) =~= m0.push((key@, vm)));
            }
        },
    }
}

/// An array of string values.
pub fn string_array_value(items: &Vec<String>) -> (v: JsonValue)
    ensures
        v.model() == Json::Arr(items@.map_values(|s: String| Json::Str(s@))),
{
    let mut out: Vec<JsonValue> = Vec::new();
    let mut i: usize = 0;
    while i < items.len()
        invariant
            i <= items@.len(),
            out@.len() == i,
            forall|j: int| 0 <= j < i ==> (#[trigger] out@[j]).model() == Json::Str(items@[j]@),
        decreases items@.len() - i,
    {
        out.push(JsonValue::Str(items[i].clone()));
        i = i + 1;
    }
    proof {
        assert(seq_model(out@) =~= items@.map_values(|s: String| Json::Str(s@)));
        lemma_array_model(out);
    }
    JsonValue::Array(out)
}

/// The strings of a JSON array of strings, as
/// `serde_json::from_str::<Vec<String>>` reads them; `None` for any other
/// text.
pub uninterp spec fn json_string_array(text: Seq<char>) -> Option<Seq<Seq<char>>>;

/// `serde_json::from_str::<Vec<String>>`, its error dropped. The contract
/// names the result (`json_string_array`) and does not restate JSON.
#[verifier::external_body]
fn parse_string_array(text: &str) -> (r: Option<Vec<String>>)
    ensures
        match r {
            Some(v) => json_string_array(text@) == Some(strs_view(v@)),
            None => json_string_array(text@) is None,
        },
{
    serde_json::from_str::<Vec<String>>(text).ok()
}

/// The list of strings a stored JSON column holds: empty when there is no
/// value or the value is not a JSON array of strings.
pub open spec fn stored_strings(text: Option<Seq<char>>) -> Seq<Seq<char>> {
    match text {
        Some(t) => match json_string_array(t) {
            Some(v) => v,
            None => Seq::empty(),
        },
        None => Seq::empty(),
    }
}

/// A JSON column read back as a list of strings; anything unreadable is
/// empty.
pub fn strings_from_json(text: Option<&str>) -> (r: Vec<String>)
    ensures
        strs_view(r@) == stored_strings(
            match text {
                Some(t) => Some(t@),
                None => None,
            },
        ),
{
    match text {
        Some(t) => match parse_string_array(t) {
            Some(v) => v,
            None => {
                let v: Vec<String> = Vec::new();
                assert(strs_view(v@) =~= Seq::<Seq<char>>::empty());
                v
            },
        },
        None => {
            let v: Vec<String> = Vec::new();
            assert(strs_view(v@) =~= Seq::<Seq<char>>::empty());
            v
        },
    }
}

} // verus!
