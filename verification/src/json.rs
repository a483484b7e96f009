//! A JSON document model. `JsonValue` is the executable value that the
//! protocol and the search providers read and build; `Json` is its view,
//! over which every contract is stated. Reading follows `serde_json::Value`:
//! `get` finds a key of an object, `index` yields `Null` where `get` finds
//! nothing, `at` picks an array element, `as_str`/`as_array` select a kind.
use vstd::prelude::*;

verus! {

/// An executable JSON value. Numbers keep their textual form.
#[derive(Debug, PartialEq)]
pub enum JsonValue {
    Null,
    Bool(bool),
    Number(String),
    Str(String),
    Array(Vec<JsonValue>),
    Object(Vec<(String, JsonValue)>),
}

/// The mathematical JSON value: an object is its keys and, at the same
/// positions, their values.
#[verifier::ext_equal]
pub enum Json {
    Null,
    Bool(bool),
    Number(Seq<char>),
    Str(Seq<char>),
    Array(Seq<Json>),
    Object(Seq<Seq<char>>, Seq<Json>),
}

impl View for JsonValue {
    type V = Json;

    open spec fn view(&self) -> Json
        decreases self,
    {
        match self {
            JsonValue::Null => Json::Null,
            JsonValue::Bool(b) => Json::Bool(*b),
            JsonValue::Number(n) => Json::Number(n@),
            JsonValue::Str(s) => Json::Str(s@),
            JsonValue::Array(items) => Json::Array(
                Seq::new(
                    items.len() as nat,
                    |i: int|
                        if 0 <= i < items.len() {
                            items@[i].view()
                        } else {
                            Json::Null
                        },
                ),
            ),
            JsonValue::Object(fields) => Json::Object(
                Seq::new(fields.len() as nat, |i: int| fields@[i].0@),
                Seq::new(
                    fields.len() as nat,
                    |i: int|
                        if 0 <= i < fields.len() {
                            fields@[i].1.view()
                        } else {
                            Json::Null
                        },
                ),
            ),
        }
    }
}

/// The first position at or after `i` where `keys` holds `key`.
pub open spec fn key_position(keys: Seq<Seq<char>>, key: Seq<char>, i: int) -> Option<int>
    decreases keys.len() - i,
{
    if i < 0 || i >= keys.len() {
        None
    } else if keys[i] == key {
        Some(i)
    } else {
        key_position(keys, key, i + 1)
    }
}

impl Json {
    /// `Value::get` with a key: the value of `key` in an object.
    pub open spec fn get(self, key: Seq<char>) -> Option<Json> {
        match self {
            Json::Object(keys, vals) => match key_position(keys, key, 0) {
                Some(i) => Some(vals[i]),
                None => None,
            },
            _ => None,
        }
    }

    /// `value[key]`: the value of `key`, or `Null` where there is none.
    pub open spec fn index(self, key: Seq<char>) -> Json {
        match self.get(key) {
            Some(v) => v,
            None => Json::Null,
        }
    }

    /// `Value::get` with a position: the element `n` of an array.
    pub open spec fn at(self, n: int) -> Option<Json> {
        match self {
            Json::Array(items) => if 0 <= n < items.len() {
                Some(items[n])
            } else {
                None
            },
            _ => None,
        }
    }

    /// `Value::as_str`.
    pub open spec fn as_str(self) -> Option<Seq<char>> {
        match self {
            Json::Str(s) => Some(s),
            _ => None,
        }
    }

    /// `Value::as_array`.
    pub open spec fn as_array(self) -> Option<Seq<Json>> {
        match self {
            Json::Array(items) => Some(items),
            _ => None,
        }
    }
}

/// The JSON an optional reference stands for: `Null` where there is none.
pub open spec fn opt_view(o: Option<&JsonValue>) -> Json {
    match o {
        Some(v) => v@,
        None => Json::Null,
    }
}

/// The views of the elements of an array.
pub open spec fn item_views(items: Seq<JsonValue>) -> Seq<Json> {
    items.map_values(|v: JsonValue| v@)
}

/// The view of an array is the sequence of the views of its elements.
pub proof fn lemma_array_view(items: Vec<JsonValue>)
    ensures
        JsonValue::Array(items)@ == Json::Array(item_views(items@)),
{
    let v = JsonValue::Array(items)@;
    assert(v->Array_0 =~= item_views(items@));
}

/// The views of the keys of an object's fields.
pub open spec fn keys_of(fields: Seq<(String, JsonValue)>) -> Seq<Seq<char>> {
    fields.map_values(|f: (String, JsonValue)| f.0@)
}

/// The views of the values of an object's fields.
pub open spec fn vals_of(fields: Seq<(String, JsonValue)>) -> Seq<Json> {
    fields.map_values(|f: (String, JsonValue)| f.1@)
}

/// The view of an object lists the views of its keys and of its values.
pub proof fn lemma_object_view(fields: Vec<(String, JsonValue)>)
    ensures
        JsonValue::Object(fields)@ == Json::Object(keys_of(fields@), vals_of(fields@)),
{
    let v = JsonValue::Object(fields)@;
    assert(v->Object_0 =~= keys_of(fields@));
    assert(v->Object_1 =~= vals_of(fields@));
}

/// The object with the given fields.
pub fn object(fields: Vec<(String, JsonValue)>) -> (r: JsonValue)
    ensures
        r@ == Json::Object(keys_of(fields@), vals_of(fields@)),
{
    proof {
        lemma_object_view(fields);
    }
    JsonValue::Object(fields)
}

/// The array with the given elements.
pub fn array(items: Vec<JsonValue>) -> (r: JsonValue)
    ensures
        r@ == Json::Array(item_views(items@)),
{
    proof {
        lemma_array_view(items);
    }
    JsonValue::Array(items)
}

/// Appends the field `key: value` to an object's fields.
pub fn push_field(fields: &mut Vec<(String, JsonValue)>, key: &str, value: JsonValue)
    ensures
        keys_of(final(fields)@) == keys_of(old(fields)@).push(key@),
        vals_of(final(fields)@) == vals_of(old(fields)@).push(value@),
{
    fields.push((String::from_str(key), value));
    assert(keys_of(fields@) =~= keys_of(old(fields)@).push(key@));
    assert(vals_of(fields@) =~= vals_of(old(fields)@).push(value@));
}

/// A copy of `v` (the same JSON document).
#[verifier::loop_isolation(false)]
pub fn deep_clone(v: &JsonValue) -> (r: JsonValue)
    ensures
        r@ == v@,
    decreases v,
{
    match v {
        JsonValue::Null => JsonValue::Null,
        JsonValue::Bool(b) => JsonValue::Bool(*b),
        JsonValue::Number(n) => JsonValue::Number(n.clone()),
        JsonValue::Str(s) => JsonValue::Str(s.clone()),
        JsonValue::Array(items) => {
            let mut out: Vec<JsonValue> = Vec::new();
            let mut i: usize = 0;
            while i < items.len()
                invariant
                    i <= items.len(),
                    out.len() == i,
                    forall|j: int| 0 <= j < i ==> (#[trigger] out@[j])@ == items@[j]@,
                decreases items.len() - i,
            {
                proof {
                    assert(decreases_to!(*v => items@[i as int]));
                }
                out.push(deep_clone(&items[i]));
                i += 1;
            }
            let r = JsonValue::Array(out);
            proof {
                lemma_array_view(out);
                lemma_array_view(*items);
                assert(item_views(out@) =~= item_views(items@));
            }
            r
        },
        JsonValue::Object(fields) => {
            let mut out: Vec<(String, JsonValue)> = Vec::new();
            let mut i: usize = 0;
            while i < fields.len()
                invariant
                    i <= fields.len(),
                    out.len() == i,
                    forall|j: int|
                        0 <= j < i ==> (#[trigger] out@[j]).0@ == fields@[j].0@ && out@[j].1@
                            == fields@[j].1@,
                decreases fields.len() - i,
            {
                proof {
                    assert(decreases_to!(*v => fields@[i as int].1));
                }
                let k = fields[i].0.clone();
                let e = deep_clone(&fields[i].1);
                out.push((k, e));
                i += 1;
            }
            let r = JsonValue::Object(out);
            proof {
                lemma_object_view(out);
                lemma_object_view(*fields);
                assert(keys_of(out@) =~= keys_of(fields@));
                assert(vals_of(out@) =~= vals_of(fields@));
            }
            r
        },
    }
}

/// `o.and_then(|v| v.get(key))`: the value of `key` in the object `o`
/// refers to; `None` where `o` is not an object or lacks the key.
pub fn get_field<'a>(o: Option<&'a JsonValue>, key: &str) -> (r: Option<&'a JsonValue>)
    ensures
        match r {
            Some(v) => opt_view(o).get(key@) == Some(v@),
            None => opt_view(o).get(key@) is None,
        },
{
    match o {
        Some(JsonValue::Object(fields)) => {
            let k = String::from_str(key);
            let ghost keys = keys_of(fields@);
            let ghost vals = vals_of(fields@);
            proof {
                lemma_object_view(*fields);
            }
            let mut i: usize = 0;
            while i < fields.len()
                invariant
                    i <= fields.len(),
                    k@ == key@,
                    keys == keys_of(fields@),
                    vals == vals_of(fields@),
                    opt_view(o) == Json::Object(keys, vals),
                    key_position(keys, key@, 0) == key_position(keys, key@, i as int),
                decreases fields.len() - i,
            {
                if fields[i].0 == k {
                    return Some(&fields[i].1);
                }
                i += 1;
            }
            None
        },
        _ => None,
    }
}

/// `o[key]` as an optional reference: the value of `key`, where `None`
/// stands for `Null`.
pub fn index_field<'a>(o: Option<&'a JsonValue>, key: &str) -> (r: Option<&'a JsonValue>)
    ensures
        opt_view(r) == opt_view(o).index(key@),
{
    get_field(o, key)
}

/// `o.get(n)` on an array: its element `n`.
pub fn element<'a>(o: Option<&'a JsonValue>, n: usize) -> (r: Option<&'a JsonValue>)
    ensures
        match r {
            Some(v) => opt_view(o).at(n as int) == Some(v@),
            None => opt_view(o).at(n as int) is None,
        },
{
    match o {
        Some(JsonValue::Array(items)) => {
            proof {
                lemma_array_view(*items);
            }
            if n < items.len() {
                Some(&items[n])
            } else {
                None
            }
        },
        _ => None,
    }
}

/// `o.and_then(Value::as_str)`.
pub fn text_of<'a>(o: Option<&'a JsonValue>) -> (r: Option<&'a String>)
    ensures
        match r {
            Some(s) => opt_view(o).as_str() == Some(s@),
            None => opt_view(o).as_str() is None,
        },
{
    match o {
        Some(JsonValue::Str(s)) => Some(s),
        _ => None,
    }
}

/// `o.and_then(Value::as_array)`.
pub fn items_of<'a>(o: Option<&'a JsonValue>) -> (r: Option<&'a Vec<JsonValue>>)
    ensures
        match r {
            Some(items) => opt_view(o).as_array() == Some(item_views(items@)),
            None => opt_view(o).as_array() is None,
        },
{
    match o {
        Some(JsonValue::Array(items)) => {
            proof {
                lemma_array_view(*items);
            }
            Some(items)
        },
        _ => None,
    }
}

/// A JSON string holding the characters of `s`.
pub fn json_str(s: &str) -> (r: JsonValue)
    ensures
        r@ == Json::Str(s@),
{
    JsonValue::Str(String::from_str(s))
}

/// The text that `serde_json` writes back for the JSON document `text`,
/// or `None` where `text` is not a JSON document.
pub uninterp spec fn reformatted_json(text: Seq<char>) -> Option<Seq<char>>;

/// Parses `text` as a JSON document and writes it back in compact form.
/// Trusted: calls `serde_json::from_str::<serde_json::Value>`, and on success
/// the `Display` of the parsed value, which writes it in compact form. The
/// contract only names the result: it is `None` exactly where the parse
/// fails, and otherwise depends on `text` alone.
#[verifier::external_body]
pub(crate) fn reformat_json(text: &str) -> (r: Option<String>)
    ensures
        match r {
            Some(s) => reformatted_json(text@) == Some(s@),
            None => reformatted_json(text@) is None,
        },
{
    match serde_json::from_str::<serde_json::Value>(text) {
        Ok(v) => Some(v.to_string()),
        Err(_) => None,
    }
}

} // verus!
