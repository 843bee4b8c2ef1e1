//! A JSON document model of the library's own, with the parse and render
//! operations that `serde_json` performs on it.
use vstd::prelude::*;

use crate::text::{chars_of, copy_str};



verus! {

/// `serde_json::Value`, carried opaquely between the conversions below.
#[verifier::external_type_specification]
#[verifier::external_body]
pub struct ExJsonValue(serde_json::Value);

/// `serde_json::Number`, read only by the conversion below.
#[verifier::external_type_specification]
#[verifier::external_body]
pub struct ExJsonNumber(serde_json::Number);

/// A JSON value.  Integers are held exactly; other numbers keep the text that
/// `serde_json` writes for them.  An object lists its members in order.
#[derive(Debug)]
pub enum JsonValue {
    Null,
    Bool(bool),
    Int(i128),
    Float(String),
    Str(String),
    Array(Vec<JsonValue>),
    Object(Vec<(String, JsonValue)>),
}

/// The mathematical form of a JSON value.
#[verifier::ext_equal]
pub enum Json {
    Null,
    Bool(bool),
    Int(int),
    Float(Seq<char>),
    Str(Seq<char>),
    Array(Seq<Json>),
    Object(Seq<Seq<char>>, Seq<Json>),
}

impl View for JsonValue {
    type V = Json;

    open spec fn view(&self) -> Json
        decreases self,
    {
        match self {
            JsonValue::Null => Json::Null,
            JsonValue::Bool(b) => Json::Bool(*b),
            JsonValue::Int(n) => Json::Int(*n as int),
            JsonValue::Float(s) => Json::Float(s@),
            JsonValue::Str(s) => Json::Str(s@),
            JsonValue::Array(items) => Json::Array(
                Seq::new(items@.len(), |i: int| if 0 <= i < items@.len() { items@[i]@ } else { Json::Null }),
            ),
            JsonValue::Object(members) => Json::Object(
                Seq::new(members@.len(), |i: int| if 0 <= i < members@.len() { members@[i].0@ } else { Seq::empty() }),
                Seq::new(members@.len(), |i: int| if 0 <= i < members@.len() { members@[i].1@ } else { Json::Null }),
            ),
        }
    }
}


// ---------------------------------------------------------------------------
// Parsing and rendering through serde_json
// ---------------------------------------------------------------------------

/// The value `serde_json::from_str::<Value>` reads from a text, or `None` when
/// the text is not a JSON document.
pub uninterp spec fn json_parse(text: Seq<char>) -> Option<Json>;

/// The compact text `serde_json` writes for a value (`Value`'s `Display`).
/// An integer outside the `u64` and `i64` ranges, or a number text that is
/// not a number, is written as `null`; the values the library builds hold
/// neither.
pub uninterp spec fn json_render(v: Json) -> Seq<char>;

/// The indented text `serde_json::to_string_pretty` writes for a value,
/// with the same `null` for what `serde_json` cannot hold as `json_render`.
pub uninterp spec fn json_render_pretty(v: Json) -> Seq<char>;

/// Converts a `serde_json::Number` into the library's model: an integer when
/// it is one, else the text `serde_json` writes for it.
#[verifier::external_body]
fn number_to_json(n: &serde_json::Number) -> JsonValue {
    match (n.as_u64(), n.as_i64()) {
        (Some(u), _) => JsonValue::Int(u as i128),
        (None, Some(i)) => JsonValue::Int(i as i128),
        (None, None) => JsonValue::Float(n.to_string()),
    }
}

/// Converts a `serde_json::Value` into the library's model, one node for one node.
#[verifier::external_body]
fn value_to_json(v: &serde_json::Value) -> JsonValue {
    match v {
        serde_json::Value::Null => JsonValue::Null,
        serde_json::Value::Bool(b) => JsonValue::Bool(*b),
        serde_json::Value::Number(n) => number_to_json(n),
        serde_json::Value::String(s) => JsonValue::Str(s.clone()),
        serde_json::Value::Array(a) => JsonValue::Array(a.iter().map(value_to_json).collect()),
        serde_json::Value::Object(m) => {
            JsonValue::Object(m.iter().map(|(k, x)| (k.clone(), value_to_json(x))).collect())
        },
    }
}

/// Converts an integer of the model into a `serde_json::Value` (`null` when
/// it fits neither `u64` nor `i64`).
#[verifier::external_body]
fn int_to_value(n: i128) -> serde_json::Value {
    match (u64::try_from(n), i64::try_from(n)) {
        (Ok(u), _) => serde_json::Value::from(u),
        (Err(_), Ok(i)) => serde_json::Value::from(i),
        _ => serde_json::Value::Null,
    }
}

/// Converts the number text of the model into a `serde_json::Value` (`null`
/// when it is not a number).
#[verifier::external_body]
fn float_to_value(s: &String) -> serde_json::Value {
    s.parse::<serde_json::Number>().map(serde_json::Value::Number).unwrap_or(serde_json::Value::Null)
}

/// Converts the library's model into a `serde_json::Value`, one node for one node.
#[verifier::external_body]
fn json_to_value(v: &JsonValue) -> serde_json::Value {
    match v {
        JsonValue::Null => serde_json::Value::Null,
        JsonValue::Bool(b) => serde_json::Value::Bool(*b),
        JsonValue::Int(n) => int_to_value(*n),
        JsonValue::Float(s) => float_to_value(s),
        JsonValue::Str(s) => serde_json::Value::String(s.clone()),
        JsonValue::Array(a) => serde_json::Value::Array(a.iter().map(json_to_value).collect()),
        JsonValue::Object(m) => {
            serde_json::Value::Object(m.iter().map(|(k, x)| (k.clone(), json_to_value(x))).collect())
        },
    }
}

/// `serde_json::from_str::<Value>`: reads a JSON document.  Claimed: the
/// result is a function of the text alone (`json_parse`), `None` exactly when
/// `serde_json` refuses the text; nothing is claimed of which value a text
/// reads as.
#[verifier::external_body]
pub(crate) fn parse_json(text: &str) -> (r: Option<JsonValue>)
    ensures
        match r {
            Some(v) => json_parse(text@) == Some(v@),
            None => json_parse(text@) is None,
        },
{
    match serde_json::from_str::<serde_json::Value>(text) {
        Ok(v) => Some(value_to_json(&v)),
        Err(_) => None,
    }
}

/// `Value`'s `Display`: the compact JSON text of a value.  Claimed: the text
/// is a function of the value alone (`json_render`); nothing more.
#[verifier::external_body]
pub(crate) fn render_json(v: &JsonValue) -> (r: String)
    ensures
        r@ == json_render(v@),
{
    json_to_value(v).to_string()
}

/// `serde_json::to_string_pretty`: the indented JSON text of a value.
/// Claimed: the text is a function of the value alone (`json_render_pretty`);
/// nothing more.
#[verifier::external_body]
pub(crate) fn render_json_pretty(v: &JsonValue) -> (r: String)
    ensures
        r@ == json_render_pretty(v@),
{
    serde_json::to_string_pretty(&json_to_value(v)).unwrap_or_default()
}

// ---------------------------------------------------------------------------
// Reading values
// ---------------------------------------------------------------------------

/// The first member of an object named `key` (keys and values side by side).
pub open spec fn obj_get(keys: Seq<Seq<char>>, vals: Seq<Json>, key: Seq<char>) -> Option<Json>
    decreases keys.len(),
{
    if keys.len() == 0 || vals.len() == 0 {
        None
    } else if keys[0] == key {
        Some(vals[0])
    } else {
        obj_get(keys.drop_first(), vals.drop_first(), key)
    }
}

/// `Value::get` with a string key: the member of an object, `None` otherwise.
pub open spec fn get(v: Json, key: Seq<char>) -> Option<Json> {
    match v {
        Json::Object(ks, vs) => obj_get(ks, vs, key),
        _ => None,
    }
}

/// `value[key]`: the member, or `Null` when there is none.
pub open spec fn field(v: Json, key: Seq<char>) -> Json {
    match get(v, key) {
        Some(x) => x,
        None => Json::Null,
    }
}

/// `value[i]`: the element of an array, or `Null`.
pub open spec fn elem(v: Json, i: int) -> Json {
    match v {
        Json::Array(a) => if 0 <= i < a.len() {
            a[i]
        } else {
            Json::Null
        },
        _ => Json::Null,
    }
}

pub open spec fn as_str(v: Json) -> Option<Seq<char>> {
    match v {
        Json::Str(s) => Some(s),
        _ => None,
    }
}

pub open spec fn as_bool(v: Json) -> Option<bool> {
    match v {
        Json::Bool(b) => Some(b),
        _ => None,
    }
}

pub open spec fn as_u64(v: Json) -> Option<u64> {
    match v {
        Json::Int(n) => if 0 <= n <= u64::MAX {
            Some(n as u64)
        } else {
            None
        },
        _ => None,
    }
}

pub open spec fn is_null(v: Json) -> bool {
    v is Null
}

/// Equality of two string slices.
pub fn str_eq(a: &str, b: &str) -> (r: bool)
    ensures
        r == (a@ == b@),
{
    let x = chars_of(a);
    let y = chars_of(b);
    if x.len() != y.len() {
        return false;
    }
    let mut i: usize = 0;
    while i < x.len()
        invariant
            x@ == a@,
            y@ == b@,
            x@.len() == y@.len(),
            i <= x@.len(),
            forall|j: int| 0 <= j < i ==> x@[j] == y@[j],
        decreases x@.len() - i,
    {
        if x[i] != y[i] {
            assert(x@[i as int] != y@[i as int]);
            return false;
        }
        i = i + 1;
    }
    assert(x@ =~= y@);
    true
}

impl JsonValue {
    /// `Value::get`: the member named `key` of an object.
    pub fn get<'a>(&'a self, key: &str) -> (r: Option<&'a JsonValue>)
        ensures
            match r {
                Some(x) => get(self@, key@) == Some(x@),
                None => get(self@, key@) is None,
            },
    {
        match self {
            JsonValue::Object(members) => {
                let ghost ks = self@->Object_0;
                let ghost vs = self@->Object_1;
                let mut i: usize = 0;
                assert(ks.skip(0) =~= ks);
                assert(vs.skip(0) =~= vs);
                while i < members.len()
                    invariant
                        self@ == Json::Object(ks, vs),
                        ks.len() == members@.len(),
                        vs.len() == members@.len(),
                        forall|k: int| 0 <= k < members@.len() ==> #[trigger] ks[k] == members@[k].0@,
                        forall|k: int| 0 <= k < members@.len() ==> #[trigger] vs[k] == members@[k].1@,
                        i <= members@.len(),
                        obj_get(ks, vs, key@) == obj_get(ks.skip(i as int), vs.skip(i as int), key@),
                    decreases members@.len() - i,
                {
                    let (k, x) = &members[i];
                    assert(ks.skip(i as int)[0] == k@);
                    assert(vs.skip(i as int)[0] == x@);
                    if str_eq(k.as_str(), key) {
                        assert(ks.skip(i as int).len() > 0);
                        assert(vs.skip(i as int).len() > 0);
                        assert(k@ == key@);
                        assert(obj_get(ks.skip(i as int), vs.skip(i as int), key@) == Some(x@));
                        assert(self@ == Json::Object(ks, vs));
                        return Some(x);
                    }
                    assert(ks.skip(i as int).drop_first() =~= ks.skip(i + 1));
                    assert(vs.skip(i as int).drop_first() =~= vs.skip(i + 1));
                    i = i + 1;
                }
                None
            },
            _ => None,
        }
    }

    /// The string held by a `Str` value.
    pub fn as_str(&self) -> (r: Option<&str>)
        ensures
            match r {
                Some(s) => as_str(self@) == Some(s@),
                None => as_str(self@) is None,
            },
    {
        match self {
            JsonValue::Str(s) => Some(s.as_str()),
            _ => None,
        }
    }

    /// The value of a non-negative integer that fits in `u64`.
    pub fn as_u64(&self) -> (r: Option<u64>)
        ensures
            r == as_u64(self@),
    {
        match self {
            JsonValue::Int(n) => if 0 <= *n && *n <= 18446744073709551615i128 {
                Some(*n as u64)
            } else {
                None
            },
            _ => None,
        }
    }

    pub fn as_bool(&self) -> (r: Option<bool>)
        ensures
            r == as_bool(self@),
    {
        match self {
            JsonValue::Bool(b) => Some(*b),
            _ => None,
        }
    }

    pub fn is_null(&self) -> (r: bool)
        ensures
            r == is_null(self@),
    {
        match self {
            JsonValue::Null => true,
            _ => false,
        }
    }

    /// `value[i]` on an array.
    pub fn at<'a>(&'a self, i: usize) -> (r: Option<&'a JsonValue>)
        ensures
            match r {
                Some(x) => x@ == elem(self@, i as int) && self@ is Array,
                None => elem(self@, i as int) == Json::Null,
            },
    {
        match self {
            JsonValue::Array(items) => if i < items.len() {
                Some(&items[i])
            } else {
                None
            },
            _ => None,
        }
    }

    /// A deep copy.
    pub fn copy(&self) -> (r: JsonValue)
        ensures
            r@ == self@,
        decreases self,
    {
        match self {
            JsonValue::Null => JsonValue::Null,
            JsonValue::Bool(b) => JsonValue::Bool(*b),
            JsonValue::Int(n) => JsonValue::Int(*n),
            JsonValue::Float(s) => JsonValue::Float(copy_str(s.as_str())),
            JsonValue::Str(s) => JsonValue::Str(copy_str(s.as_str())),
            JsonValue::Array(items) => {
                let mut out: Vec<JsonValue> = Vec::new();
                let mut i: usize = 0;
                while i < items.len()
                    invariant
                        self is Array,
                        self->Array_0 == *items,
                        i <= items@.len(),
                        out@.len() == i,
                        forall|k: int| 0 <= k < i ==> #[trigger] out@[k]@ == items@[k]@,
                    decreases items@.len() - i,
                {
                    proof {
                        assert(decreases_to!(*items => items[i as int]));
                        assert(decreases_to!(self => self->Array_0));
                    }
                    out.push(items[i].copy());
                    i = i + 1;
                }
                let r = JsonValue::Array(out);
                assert(r@ == self@) by {
                    let a = r@->Array_0;
                    let b = self@->Array_0;
                    assert(a.len() == b.len());
                    assert forall|k: int| 0 <= k < a.len() implies a[k] == b[k] by {
                        assert(a[k] == out@[k]@);
                        assert(b[k] == items@[k]@);
                    }
                    assert(a =~= b);
                }
                r
            },
            JsonValue::Object(members) => {
                let mut out: Vec<(String, JsonValue)> = Vec::new();
                let mut i: usize = 0;
                while i < members.len()
                    invariant
                        self is Object,
                        self->Object_0 == *members,
                        i <= members@.len(),
                        out@.len() == i,
                        forall|k: int|
                            #![trigger out@[k]]
                            0 <= k < i ==> out@[k].0@ == members@[k].0@ && out@[k].1@
                                == members@[k].1@,
                    decreases members@.len() - i,
                {
                    let (k, x) = &members[i];
                    proof {
                        assert(decreases_to!(*members => members[i as int]));
                        assert(decreases_to!(self => self->Object_0));
                        assert(decreases_to!(members[i as int] => members[i as int].1));
                    }
                    out.push((copy_str(k.as_str()), x.copy()));
                    i = i + 1;
                }
                let r = JsonValue::Object(out);
                assert(r@ == self@) by {
                    let a = r@->Object_0;
                    let b = self@->Object_0;
                    let c = r@->Object_1;
                    let d = self@->Object_1;
                    assert forall|k: int| 0 <= k < a.len() implies a[k] == b[k] by {
                        assert(a[k] == out@[k].0@);
                        assert(b[k] == members@[k].0@);
                    }
                    assert forall|k: int| 0 <= k < c.len() implies c[k] == d[k] by {
                        assert(c[k] == out@[k].1@);
                        assert(d[k] == members@[k].1@);
                    }
                    assert(a =~= b);
                    assert(c =~= d);
                }
                r
            },
        }
    }
}

/// A string value.
pub fn jstr(s: &str) -> (r: JsonValue)
    ensures
        r@ == Json::Str(s@),
{
    JsonValue::Str(copy_str(s))
}

/// An integer value.
pub fn jint(n: i64) -> (r: JsonValue)
    ensures
        r@ == Json::Int(n as int),
{
    JsonValue::Int(n as i128)
}

/// An object member.
pub fn member(key: &str, v: JsonValue) -> (r: (String, JsonValue))
    ensures
        r.0@ == key@,
        r.1@ == v@,
{
    (copy_str(key), v)
}


// ---------------------------------------------------------------------------
// Objects as maps
// ---------------------------------------------------------------------------

/// The member keys of an object's member list.
pub open spec fn mkeys(m: Seq<(String, JsonValue)>) -> Seq<Seq<char>> {
    Seq::new(m.len(), |i: int| m[i].0@)
}

/// The member values of an object's member list.
pub open spec fn mvals(m: Seq<(String, JsonValue)>) -> Seq<Json> {
    Seq::new(m.len(), |i: int| m[i].1@)
}

/// The map from keys to values that a list of members with distinct keys denotes.
pub open spec fn kv_map(ks: Seq<Seq<char>>, vs: Seq<Json>) -> Map<Seq<char>, Json> {
    Map::new(|k: Seq<char>| ks.contains(k), |k: Seq<char>| vs[ks.index_of(k)])
}

/// The members of an object as a map (empty for other values).
pub open spec fn obj_map(v: Json) -> Map<Seq<char>, Json> {
    match v {
        Json::Object(ks, vs) => kv_map(ks, vs),
        _ => Map::empty(),
    }
}

/// An object whose member keys are distinct.
pub open spec fn obj_wf(v: Json) -> bool {
    match v {
        Json::Object(ks, vs) => ks.len() == vs.len() && ks.no_duplicates(),
        _ => false,
    }
}

/// A member list with distinct keys.
pub open spec fn members_wf(m: Seq<(String, JsonValue)>) -> bool {
    mkeys(m).no_duplicates()
}

pub open spec fn members_map(m: Seq<(String, JsonValue)>) -> Map<Seq<char>, Json> {
    kv_map(mkeys(m), mvals(m))
}

/// An object's view lists its members' keys and values side by side.
pub proof fn lemma_object_view(m: Vec<(String, JsonValue)>)
    ensures
        JsonValue::Object(m)@ == Json::Object(mkeys(m@), mvals(m@)),
{
    let v = JsonValue::Object(m);
    assert(v@->Object_0 =~= mkeys(m@));
    assert(v@->Object_1 =~= mvals(m@));
}

/// In a member list with distinct keys, each member's key maps to its value.
pub proof fn lemma_members_map_at(m: Seq<(String, JsonValue)>, i: int)
    requires
        members_wf(m),
        0 <= i < m.len(),
    ensures
        members_map(m).contains_key(m[i].0@),
        members_map(m)[m[i].0@] == m[i].1@,
{
    let ks = mkeys(m);
    assert(ks[i] == m[i].0@);
    assert(ks.contains(m[i].0@));
    let j = ks.index_of(m[i].0@);
    assert(0 <= j < ks.len() && ks[j] == m[i].0@);
    assert(j == i);
}

/// Position of the member named `key`.
pub fn members_find(m: &Vec<(String, JsonValue)>, key: &str) -> (r: Option<usize>)
    ensures
        match r {
            Some(i) => i < m@.len() && m@[i as int].0@ == key@,
            None => forall|j: int| 0 <= j < m@.len() ==> m@[j].0@ != key@,
        },
        r is None <==> !mkeys(m@).contains(key@),
{
    let mut i: usize = 0;
    while i < m.len()
        invariant
            i <= m@.len(),
            forall|j: int| 0 <= j < i ==> m@[j].0@ != key@,
        decreases m@.len() - i,
    {
        if str_eq(m[i].0.as_str(), key) {
            assert(mkeys(m@)[i as int] == key@);
            return Some(i);
        }
        i = i + 1;
    }
    assert forall|j: int| 0 <= j < mkeys(m@).len() implies mkeys(m@)[j] != key@ by {}
    None
}

/// The value of the member named `key`.
pub fn members_get<'a>(m: &'a Vec<(String, JsonValue)>, key: &str) -> (r: Option<&'a JsonValue>)
    requires
        members_wf(m@),
    ensures
        match r {
            Some(v) => members_map(m@).contains_key(key@) && members_map(m@)[key@] == v@,
            None => !members_map(m@).contains_key(key@),
        },
{
    match members_find(m, key) {
        Some(i) => {
            proof {
                lemma_members_map_at(m@, i as int);
            }
            Some(&m[i].1)
        },
        None => None,
    }
}

/// Sets the member `key` to `v`, replacing an existing member of that name.
pub fn members_insert(m: &mut Vec<(String, JsonValue)>, key: String, v: JsonValue)
    requires
        members_wf(old(m)@),
    ensures
        members_wf(final(m)@),
        members_map(final(m)@) == members_map(old(m)@).insert(key@, v@),
{
    let ghost om = m@;
    match members_find(m, key.as_str()) {
        Some(i) => {
            let ghost kv = key@;
            let ghost vv = v@;
            m.set(i, (key, v));
            proof {
                assert(mkeys(m@) =~= mkeys(om));
                assert forall|k: Seq<char>|
                    #[trigger] members_map(m@).contains_key(k)
                        == members_map(om).insert(kv, vv).contains_key(k) by {}
                assert forall|k: Seq<char>| members_map(m@).contains_key(k) implies #[trigger] members_map(
                    m@,
                )[k] == members_map(om).insert(kv, vv)[k] by {
                    let j = mkeys(m@).index_of(k);
                    assert(mkeys(m@)[j] == k);
                    lemma_members_map_at(m@, j);
                    if j != i {
                        assert(m@[j] == om[j]);
                        lemma_members_map_at(om, j);
                        assert(mkeys(om)[i as int] == kv);
                        assert(k != kv);
                    } else {
                        assert(m@[j] == (key, v));
                    }
                }
                assert(members_map(m@) =~= members_map(om).insert(kv, vv));
            }
        },
        None => {
            let ghost kv = key@;
            let ghost vv = v@;
            m.push((key, v));
            proof {
                assert(mkeys(m@) =~= mkeys(om).push(kv));
                assert forall|a: int, b: int|
                    0 <= a < mkeys(m@).len() && 0 <= b < mkeys(m@).len() && a != b implies mkeys(
                    m@,
                )[a] != mkeys(m@)[b] by {
                    if a < om.len() && b < om.len() {
                        assert(mkeys(om)[a] != mkeys(om)[b]);
                    } else if a == om.len() {
                        assert(mkeys(om)[b] == mkeys(m@)[b]);
                        assert(mkeys(om).contains(mkeys(m@)[b]));
                    } else {
                        assert(mkeys(om)[a] == mkeys(m@)[a]);
                        assert(mkeys(om).contains(mkeys(m@)[a]));
                    }
                }
                assert forall|k: Seq<char>|
                    #[trigger] members_map(m@).contains_key(k)
                        == members_map(om).insert(kv, vv).contains_key(k) by {
                    if mkeys(om).contains(k) {
                        let j = mkeys(om).index_of(k);
                        assert(mkeys(m@)[j] == k);
                    }
                    if k == kv {
                        assert(mkeys(m@)[om.len() as int] == k);
                    }
                    if mkeys(m@).contains(k) {
                        let j = mkeys(m@).index_of(k);
                        if j < om.len() {
                            assert(mkeys(om)[j] == k);
                        }
                    }
                }
                assert forall|k: Seq<char>| members_map(m@).contains_key(k) implies #[trigger] members_map(
                    m@,
                )[k] == members_map(om).insert(kv, vv)[k] by {
                    let j = mkeys(m@).index_of(k);
                    assert(mkeys(m@)[j] == k);
                    lemma_members_map_at(m@, j);
                    if j < om.len() {
                        lemma_members_map_at(om, j);
                    }
                }
                assert(members_map(m@) =~= members_map(om).insert(kv, vv));
            }
        },
    }
}

/// Removes the member named `key`, returning its value.
pub fn members_remove(m: &mut Vec<(String, JsonValue)>, key: &str) -> (r: Option<JsonValue>)
    requires
        members_wf(old(m)@),
    ensures
        members_wf(final(m)@),
        members_map(final(m)@) == members_map(old(m)@).remove(key@),
        match r {
            Some(v) => members_map(old(m)@).contains_key(key@) && members_map(old(m)@)[key@] == v@,
            None => !members_map(old(m)@).contains_key(key@),
        },
{
    let ghost om = m@;
    match members_find(m, key) {
        Some(i) => {
            proof {
                lemma_members_map_at(om, i as int);
            }
            let (_, v) = m.remove(i);
            proof {
                assert(mkeys(m@) =~= mkeys(om).remove(i as int));
                assert forall|a: int, b: int|
                    0 <= a < mkeys(m@).len() && 0 <= b < mkeys(m@).len() && a != b implies mkeys(
                    m@,
                )[a] != mkeys(m@)[b] by {
                    let a2 = if a < i {
                        a
                    } else {
                        a + 1
                    };
                    let b2 = if b < i {
                        b
                    } else {
                        b + 1
                    };
                    assert(mkeys(m@)[a] == mkeys(om)[a2]);
                    assert(mkeys(m@)[b] == mkeys(om)[b2]);
                }
                assert forall|k: Seq<char>|
                    #[trigger] members_map(m@).contains_key(k) == members_map(om).remove(
                        key@,
                    ).contains_key(k) by {
                    if mkeys(om).contains(k) && k != key@ {
                        let j = mkeys(om).index_of(k);
                        assert(j != i);
                        let j2 = if j < i {
                            j
                        } else {
                            j - 1
                        };
                        assert(mkeys(m@)[j2] == k);
                    }
                    if mkeys(m@).contains(k) {
                        let j = mkeys(m@).index_of(k);
                        let j2 = if j < i {
                            j
                        } else {
                            j + 1
                        };
                        assert(mkeys(om)[j2] == k);
                        assert(j2 != i);
                        assert(mkeys(om)[i as int] == key@);
                        assert(k != key@);
                    }
                }
                assert forall|k: Seq<char>| members_map(m@).contains_key(k) implies #[trigger] members_map(
                    m@,
                )[k] == members_map(om).remove(key@)[k] by {
                    let j = mkeys(m@).index_of(k);
                    assert(mkeys(m@)[j] == k);
                    lemma_members_map_at(m@, j);
                    let j2 = if j < i {
                        j
                    } else {
                        j + 1
                    };
                    assert(om[j2] == m@[j]);
                    lemma_members_map_at(om, j2);
                }
                assert(members_map(m@) =~= members_map(om).remove(key@));
            }
            Some(v)
        },
        None => {
            proof {
                assert(members_map(om) =~= members_map(om).remove(key@));
            }
            None
        },
    }
}


// ---------------------------------------------------------------------------
// Indexing paths, as `value["a"][0]["b"]` reads them
// ---------------------------------------------------------------------------

/// A possibly missing value, read as `Null` when missing.
pub open spec fn opt_json(v: Option<&JsonValue>) -> Json {
    match v {
        Some(x) => x@,
        None => Json::Null,
    }
}

/// The views of a list of values.
pub open spec fn item_views(s: Seq<JsonValue>) -> Seq<Json> {
    Seq::new(s.len(), |i: int| s[i]@)
}

/// An empty list of array items.
pub fn new_items() -> (r: Vec<JsonValue>)
    ensures
        item_views(r@) == Seq::<Json>::empty(),
{
    let r: Vec<JsonValue> = Vec::new();
    assert(item_views(r@) =~= Seq::<Json>::empty());
    r
}

/// Appends an item to an array under construction.
pub fn push_item(items: &mut Vec<JsonValue>, v: JsonValue)
    ensures
        item_views(final(items)@) == item_views(old(items)@).push(v@),
{
    let ghost vv = v@;
    items.push(v);
    assert(item_views(items@) =~= item_views(old(items)@).push(vv));
}

/// The array of the given items.
pub fn array_of(items: Vec<JsonValue>) -> (r: JsonValue)
    ensures
        r@ == Json::Array(item_views(items@)),
{
    let ghost iv = items@;
    let r = JsonValue::Array(items);
    assert(r@->Array_0 =~= item_views(iv));
    r
}

/// An empty member list.
pub fn new_members() -> (r: Vec<(String, JsonValue)>)
    ensures
        mkeys(r@) == Seq::<Seq<char>>::empty(),
        mvals(r@) == Seq::<Json>::empty(),
{
    let r: Vec<(String, JsonValue)> = Vec::new();
    assert(mkeys(r@) =~= Seq::<Seq<char>>::empty());
    assert(mvals(r@) =~= Seq::<Json>::empty());
    r
}

/// Appends a member to an object under construction.
pub fn add_member(ms: &mut Vec<(String, JsonValue)>, key: &str, v: JsonValue)
    ensures
        mkeys(final(ms)@) == mkeys(old(ms)@).push(key@),
        mvals(final(ms)@) == mvals(old(ms)@).push(v@),
{
    let ghost vv = v@;
    ms.push((copy_str(key), v));
    assert(mkeys(ms@) =~= mkeys(old(ms)@).push(key@));
    assert(mvals(ms@) =~= mvals(old(ms)@).push(vv));
}

/// The object with the given members, in order.
pub fn object_of(ms: Vec<(String, JsonValue)>) -> (r: JsonValue)
    ensures
        r@ == Json::Object(mkeys(ms@), mvals(ms@)),
{
    proof {
        lemma_object_view(ms);
    }
    JsonValue::Object(ms)
}

/// `value[key]` on a possibly missing value.
pub fn field_ref<'a>(v: Option<&'a JsonValue>, key: &str) -> (r: Option<&'a JsonValue>)
    ensures
        opt_json(r) == field(opt_json(v), key@),
{
    match v {
        Some(x) => x.get(key),
        None => None,
    }
}

/// `value[i]` on a possibly missing value.
pub fn elem_ref<'a>(v: Option<&'a JsonValue>, i: usize) -> (r: Option<&'a JsonValue>)
    ensures
        opt_json(r) == elem(opt_json(v), i as int),
{
    match v {
        Some(x) => x.at(i),
        None => None,
    }
}

/// The string a possibly missing value holds.
pub fn opt_as_str<'a>(v: Option<&'a JsonValue>) -> (r: Option<&'a str>)
    ensures
        match r {
            Some(s) => as_str(opt_json(v)) == Some(s@),
            None => as_str(opt_json(v)) is None,
        },
{
    match v {
        Some(x) => x.as_str(),
        None => None,
    }
}

/// The `u64` a possibly missing value holds.
pub fn opt_as_u64(v: Option<&JsonValue>) -> (r: Option<u64>)
    ensures
        r == as_u64(opt_json(v)),
{
    match v {
        Some(x) => x.as_u64(),
        None => None,
    }
}

} // verus!
