//! A JSON document as the library reads it: the value that `serde_json`
//! parses, held in plain fields. Object members keep the order in which
//! the parser hands them over; the parser's map holds each key once.
use vstd::prelude::*;
use crate::score::Score;

verus! {

/// A JSON number: its value as a `Score`, and its integer value when it is one.
#[derive(Debug, Clone, Copy, PartialEq, Eq, Structural)]
pub struct JsonNumber {
    pub value: Score,
    pub integer: Option<i64>,
}

/// A JSON value.
#[derive(Debug)]
pub enum JsonValue {
    Null,
    Bool(bool),
    Number(JsonNumber),
    Str(String),
    Array(Vec<JsonValue>),
    Object(Vec<(String, JsonValue)>),
}

/// Index of the first member named `key`.
#[verifier::opaque]
pub open spec fn member_index(members: Seq<(String, JsonValue)>, key: Seq<char>) -> Option<int> {
    if exists|i: int| 0 <= i < members.len() && members[i].0@ == key {
        Some(
            choose|i: int|
                0 <= i < members.len() && members[i].0@ == key && forall|j: int|
                    0 <= j < i ==> members[j].0@ != key,
        )
    } else {
        None
    }
}

/// The member named `key` of an object; `None` for any other value.
#[verifier::opaque]
pub open spec fn json_get(v: JsonValue, key: Seq<char>) -> Option<JsonValue> {
    match v {
        JsonValue::Object(members) => match member_index(members@, key) {
            Some(i) => Some(members@[i].1),
            None => None,
        },
        _ => None,
    }
}

/// The text of a string value.
pub open spec fn json_str(v: JsonValue) -> Option<Seq<char>> {
    match v {
        JsonValue::Str(s) => Some(s@),
        _ => None,
    }
}

/// The text of the string member named `key`.
#[verifier::opaque]
pub open spec fn str_member(v: JsonValue, key: Seq<char>) -> Option<Seq<char>> {
    match json_get(v, key) {
        Some(m) => json_str(m),
        None => None,
    }
}

/// The boolean member named `key`.
#[verifier::opaque]
pub open spec fn bool_member(v: JsonValue, key: Seq<char>) -> Option<bool> {
    match json_get(v, key) {
        Some(JsonValue::Bool(b)) => Some(b),
        _ => None,
    }
}

/// The numeric member named `key`, as a `Score`.
#[verifier::opaque]
pub open spec fn number_member(v: JsonValue, key: Seq<char>) -> Option<Score> {
    match json_get(v, key) {
        Some(JsonValue::Number(n)) => Some(n.value),
        _ => None,
    }
}

/// The elements of the array member named `key`.
#[verifier::opaque]
pub open spec fn array_member(v: JsonValue, key: Seq<char>) -> Option<Seq<JsonValue>> {
    match json_get(v, key) {
        Some(JsonValue::Array(items)) => Some(items@),
        _ => None,
    }
}

/// Whether a member named `key` is present (with any value, `null` included).
#[verifier::opaque]
pub open spec fn has_member(v: JsonValue, key: Seq<char>) -> bool {
    json_get(v, key) is Some
}

/// The string elements of `items`, in order, other elements left out.
pub open spec fn string_elements(items: Seq<JsonValue>) -> Seq<Seq<char>>
    decreases items.len(),
{
    if items.len() == 0 {
        Seq::empty()
    } else {
        let rest = string_elements(items.drop_last());
        match items.last() {
            JsonValue::Str(s) => rest.push(s@),
            _ => rest,
        }
    }
}

/// The string elements of the array member named `key`; empty when absent.
#[verifier::opaque]
pub open spec fn string_array_member(v: JsonValue, key: Seq<char>) -> Seq<Seq<char>> {
    match array_member(v, key) {
        Some(items) => string_elements(items),
        None => Seq::empty(),
    }
}

impl JsonValue {
    /// The member named `key` of an object (`serde_json::Value::get`).
    pub fn get(&self, key: &str) -> (r: Option<&JsonValue>)
        ensures
            match r {
                Some(m) => json_get(*self, key@) == Some(*m),
                None => json_get(*self, key@) is None,
            },
    {
        proof {
            reveal(json_get);
        }
        match self {
            JsonValue::Object(members) => match member_position(members, key) {
                Some(i) => Some(&members[i].1),
                None => None,
            },
            _ => None,
        }
    }

    /// The text of a string value (`serde_json::Value::as_str`).
    pub fn as_str(&self) -> (r: Option<&String>)
        ensures
            match r {
                Some(s) => json_str(*self) == Some(s@),
                None => json_str(*self) is None,
            },
    {
        proof {
            reveal(member_index);
            reveal(json_get);
            reveal(str_member);
            reveal(bool_member);
            reveal(number_member);
            reveal(array_member);
            reveal(has_member);
            reveal(string_array_member);
        }
        match self {
            JsonValue::Str(s) => Some(s),
            _ => None,
        }
    }

    /// Whether this is an object.
    pub fn is_object(&self) -> (r: bool)
        ensures
            r == (*self is Object),
    {
        proof {
            reveal(member_index);
            reveal(json_get);
            reveal(str_member);
            reveal(bool_member);
            reveal(number_member);
            reveal(array_member);
            reveal(has_member);
            reveal(string_array_member);
        }
        match self {
            JsonValue::Object(_) => true,
            _ => false,
        }
    }
}

/// Position of the first member named `key`.
pub fn member_position(members: &Vec<(String, JsonValue)>, key: &str) -> (r: Option<usize>)
    ensures
        match r {
            Some(i) => member_index(members@, key@) == Some(i as int) && i < members@.len(),
            None => member_index(members@, key@) is None,
        },
{
    proof {
        reveal(member_index);
        reveal(json_get);
        reveal(str_member);
        reveal(bool_member);
        reveal(number_member);
        reveal(array_member);
        reveal(has_member);
        reveal(string_array_member);
    }
    let mut i: usize = 0;
    while i < members.len()
        invariant
            i <= members@.len(),
            forall|j: int| 0 <= j < i ==> members@[j].0@ != key@,
        decreases members.len() - i,
    {
        if crate::text::str_eq(members[i].0.as_str(), key) {
            proof {
                reveal(member_index);
            }
            assert(0 <= i < members@.len() && members@[i as int].0@ == key@);
            let ghost w = choose|k: int|
                0 <= k < members@.len() && members@[k].0@ == key@ && forall|j: int|
                    0 <= j < k ==> members@[j].0@ != key@;
            proof {
                if w < i {
                } else if w > i {
                    assert(members@[i as int].0@ == key@);
                }
            }
            return Some(i);
        }
        i = i + 1;
    }
    None
}

/// Moves the member named `key` out of an object.
pub fn take_member(v: JsonValue, key: &str) -> (r: Option<JsonValue>)
    ensures
        r == json_get(v, key@),
{
    proof {
        reveal(member_index);
        reveal(json_get);
        reveal(str_member);
        reveal(bool_member);
        reveal(number_member);
        reveal(array_member);
        reveal(has_member);
        reveal(string_array_member);
    }
    match v {
        JsonValue::Object(mut members) => {
            let ghost before = members@;
            match member_position(&members, key) {
                Some(i) => {
                    let m = members.remove(i);
                    assert(m == before[i as int]);
                    Some(m.1)
                },
                None => None,
            }
        },
        _ => None,
    }
}

/// The text of the string member named `key`.
pub fn get_str<'a>(v: &'a JsonValue, key: &str) -> (r: Option<&'a String>)
    ensures
        match r {
            Some(s) => str_member(*v, key@) == Some(s@),
            None => str_member(*v, key@) is None,
        },
{
    proof {
        reveal(member_index);
        reveal(json_get);
        reveal(str_member);
        reveal(bool_member);
        reveal(number_member);
        reveal(array_member);
        reveal(has_member);
        reveal(string_array_member);
    }
    match v.get(key) {
        Some(m) => m.as_str(),
        None => None,
    }
}

/// The boolean member named `key`.
pub fn get_bool(v: &JsonValue, key: &str) -> (r: Option<bool>)
    ensures
        r == bool_member(*v, key@),
{
    proof {
        reveal(member_index);
        reveal(json_get);
        reveal(str_member);
        reveal(bool_member);
        reveal(number_member);
        reveal(array_member);
        reveal(has_member);
        reveal(string_array_member);
    }
    match v.get(key) {
        Some(JsonValue::Bool(b)) => Some(*b),
        _ => None,
    }
}

/// The numeric member named `key`.
pub fn get_number(v: &JsonValue, key: &str) -> (r: Option<Score>)
    ensures
        r == number_member(*v, key@),
{
    proof {
        reveal(member_index);
        reveal(json_get);
        reveal(str_member);
        reveal(bool_member);
        reveal(number_member);
        reveal(array_member);
        reveal(has_member);
        reveal(string_array_member);
    }
    match v.get(key) {
        Some(JsonValue::Number(n)) => Some(n.value),
        _ => None,
    }
}

/// The integer member named `key` (`serde_json::Value::as_i64`).
pub fn get_integer(v: &JsonValue, key: &str) -> (r: Option<i64>)
    ensures
        r == match json_get(*v, key@) {
            Some(JsonValue::Number(n)) => n.integer,
            _ => None,
        },
{
    proof {
        reveal(member_index);
        reveal(json_get);
        reveal(str_member);
        reveal(bool_member);
        reveal(number_member);
        reveal(array_member);
        reveal(has_member);
        reveal(string_array_member);
    }
    match v.get(key) {
        Some(JsonValue::Number(n)) => n.integer,
        _ => None,
    }
}

/// The elements of the array member named `key`.
pub fn get_array<'a>(v: &'a JsonValue, key: &str) -> (r: Option<&'a Vec<JsonValue>>)
    ensures
        match r {
            Some(items) => array_member(*v, key@) == Some(items@),
            None => array_member(*v, key@) is None,
        },
{
    proof {
        reveal(member_index);
        reveal(json_get);
        reveal(str_member);
        reveal(bool_member);
        reveal(number_member);
        reveal(array_member);
        reveal(has_member);
        reveal(string_array_member);
    }
    match v.get(key) {
        Some(JsonValue::Array(items)) => Some(items),
        _ => None,
    }
}

/// Whether a member named `key` is present.
pub fn has_key(v: &JsonValue, key: &str) -> (r: bool)
    ensures
        r == has_member(*v, key@),
{
    proof {
        reveal(member_index);
        reveal(json_get);
        reveal(str_member);
        reveal(bool_member);
        reveal(number_member);
        reveal(array_member);
        reveal(has_member);
        reveal(string_array_member);
    }
    v.get(key).is_some()
}

/// The string elements of `items`, in order.
pub fn collect_strings(items: &Vec<JsonValue>) -> (r: Vec<String>)
    ensures
        r@.map_values(|s: String| s@) == string_elements(items@),
{
    proof {
        reveal(member_index);
        reveal(json_get);
        reveal(str_member);
        reveal(bool_member);
        reveal(number_member);
        reveal(array_member);
        reveal(has_member);
        reveal(string_array_member);
    }
    let mut out: Vec<String> = Vec::new();
    let mut i: usize = 0;
    while i < items.len()
        invariant
            i <= items@.len(),
            out@.map_values(|s: String| s@) == string_elements(items@.subrange(0, i as int)),
        decreases items.len() - i,
    {
        let ghost before = out@;
        assert(items@.subrange(0, i + 1).drop_last() =~= items@.subrange(0, i as int));
        match &items[i] {
            JsonValue::Str(s) => {
                out.push(s.clone());
                assert(out@.map_values(|s: String| s@) =~= before.map_values(|s: String| s@).push(s@));
            },
            _ => {},
        }
        i = i + 1;
    }
    assert(items@.subrange(0, items@.len() as int) =~= items@);
    out
}

/// The string elements of the array member named `key`; empty when absent.
pub fn get_string_array(v: &JsonValue, key: &str) -> (r: Vec<String>)
    ensures
        r@.map_values(|s: String| s@) == string_array_member(*v, key@),
{
    proof {
        reveal(member_index);
        reveal(json_get);
        reveal(str_member);
        reveal(bool_member);
        reveal(number_member);
        reveal(array_member);
        reveal(has_member);
        reveal(string_array_member);
    }
    match get_array(v, key) {
        Some(items) => collect_strings(items),
        None => {
            let r: Vec<String> = Vec::new();
            assert(r@.map_values(|s: String| s@) =~= Seq::<Seq<char>>::empty());
            r
        },
    }
}


/// Whether `text` is one complete JSON document as `serde_json` reads it.
pub uninterp spec fn is_json_text(text: Seq<char>) -> bool;

/// `serde_json::from_str::<serde_json::Value>(text).is_ok()`: whether `text`
/// parses as a JSON document. The parser's grammar is not restated here; the
/// answer is named by `is_json_text` and depends on the text alone.
#[verifier::external_body]
pub(crate) fn parses_as_json(text: &str) -> (r: bool)
    ensures
        r == is_json_text(text@),
{
    serde_json::from_str::<serde_json::Value>(text).is_ok()
}


/// The string member named `key`, trimmed, when it is not blank.
pub open spec fn trimmed_str_member(v: JsonValue, key: Seq<char>) -> Option<Seq<char>> {
    match str_member(v, key) {
        Some(s) => if crate::text::trim(s).len() > 0 {
            Some(crate::text::trim(s))
        } else {
            None
        },
        None => None,
    }
}

/// The string member named `key`, trimmed, when it is not blank.
pub fn get_trimmed_str(v: &JsonValue, key: &str) -> (r: Option<String>)
    ensures
        match r {
            Some(s) => trimmed_str_member(*v, key@) == Some(s@),
            None => trimmed_str_member(*v, key@) is None,
        },
{
    match get_str(v, key) {
        Some(s) => {
            let t = crate::text::trim_str(s.as_str());
            if t.as_str().unicode_len() == 0 {
                None
            } else {
                Some(t)
            }
        },
        None => None,
    }
}


/// A JSON value with the text of a string member read as its characters.
pub enum JsonShallow {
    Null,
    Bool(bool),
    Number(JsonNumber),
    Str(Seq<char>),
    Array(Seq<JsonValue>),
    Object(Seq<(String, JsonValue)>),
}

/// The shallow view of a JSON value.
pub open spec fn shallow(v: JsonValue) -> JsonShallow {
    match v {
        JsonValue::Null => JsonShallow::Null,
        JsonValue::Bool(b) => JsonShallow::Bool(b),
        JsonValue::Number(n) => JsonShallow::Number(n),
        JsonValue::Str(s) => JsonShallow::Str(s@),
        JsonValue::Array(items) => JsonShallow::Array(items@),
        JsonValue::Object(m) => JsonShallow::Object(m@),
    }
}

/// The members of an object, each key and value by its shallow view.
pub open spec fn shallow_entries(m: Seq<(String, JsonValue)>) -> Seq<(Seq<char>, JsonShallow)> {
    m.map_values(|e: (String, JsonValue)| (e.0@, shallow(e.1)))
}

/// The members after setting `key` to `value`: the first member named `key`
/// takes the new value in place, or a new member is appended when there is
/// none (a map insert, as `serde_json::Map::insert` makes it).
pub open spec fn entries_inserted(es: Seq<(Seq<char>, JsonShallow)>, key: Seq<char>, value: JsonShallow) -> Seq<
    (Seq<char>, JsonShallow),
> {
    if exists|i: int| 0 <= i < es.len() && es[i].0 == key {
        let i = choose|i: int| 0 <= i < es.len() && es[i].0 == key && forall|j: int| 0 <= j < i ==> es[j].0 != key;
        es.update(i, (key, value))
    } else {
        es.push((key, value))
    }
}

proof fn lemma_first_member_exists(m: Seq<(String, JsonValue)>, key: Seq<char>, i0: int)
    requires
        0 <= i0 < m.len(),
        m[i0].0@ == key,
    ensures
        exists|i: int| 0 <= i < m.len() && m[i].0@ == key && forall|j: int| 0 <= j < i ==> m[j].0@ != key,
    decreases i0,
{
    if exists|j: int| 0 <= j < i0 && m[j].0@ == key {
        let j = choose|j: int| 0 <= j < i0 && m[j].0@ == key;
        lemma_first_member_exists(m, key, j);
    } else {
        assert(0 <= i0 < m.len() && m[i0].0@ == key && forall|j: int| 0 <= j < i0 ==> m[j].0@ != key);
    }
}

proof fn lemma_member_index_found(m: Seq<(String, JsonValue)>, key: Seq<char>, i: int)
    requires
        member_index(m, key) == Some(i),
    ensures
        0 <= i < m.len(),
        m[i].0@ == key,
        forall|j: int| 0 <= j < i ==> m[j].0@ != key,
{
    reveal(member_index);
    let i0 = choose|i: int| 0 <= i < m.len() && m[i].0@ == key;
    lemma_first_member_exists(m, key, i0);
}

proof fn lemma_member_index_absent(m: Seq<(String, JsonValue)>, key: Seq<char>)
    requires
        member_index(m, key) is None,
    ensures
        forall|j: int| 0 <= j < m.len() ==> m[j].0@ != key,
{
    reveal(member_index);
}

proof fn lemma_inserted_at(es: Seq<(Seq<char>, JsonShallow)>, key: Seq<char>, v: JsonShallow, i: int)
    requires
        0 <= i < es.len(),
        es[i].0 == key,
        forall|j: int| 0 <= j < i ==> es[j].0 != key,
    ensures
        entries_inserted(es, key, v) == es.update(i, (key, v)),
{
    let k = choose|k: int| 0 <= k < es.len() && es[k].0 == key && forall|j: int| 0 <= j < k ==> es[j].0 != key;
    if k < i {
        assert(es[k].0 != key);
    } else if k > i {
        assert(es[i].0 != key);
    }
}

proof fn lemma_inserted_new(es: Seq<(Seq<char>, JsonShallow)>, key: Seq<char>, v: JsonShallow)
    requires
        forall|j: int| 0 <= j < es.len() ==> es[j].0 != key,
    ensures
        entries_inserted(es, key, v) == es.push((key, v)),
{
}

/// Sets the member `key` of an object's members to `value`.
pub fn insert_member(members: &mut Vec<(String, JsonValue)>, key: &str, value: JsonValue)
    ensures
        shallow_entries(final(members)@) == entries_inserted(shallow_entries(old(members)@), key@, shallow(value)),
        members_str(final(members)@, key@) == json_str(value),
        forall|k: Seq<char>| k != key@ ==> #[trigger] members_str(final(members)@, k) == members_str(old(members)@, k),
{
    let ghost before = members@;
    let ghost es = shallow_entries(before);
    let ghost sv = shallow(value);
    match member_position(members, key) {
        Some(i) => {
            proof {
                lemma_member_index_found(before, key@, i as int);
                assert forall|j: int| 0 <= j < i implies es[j].0 != key@ by {
                    assert(es[j].0 == before[j].0@);
                }
                lemma_inserted_at(es, key@, sv, i as int);
            }
            members.set(i, (crate::text::owned(key), value));
            assert(shallow_entries(members@) =~= es.update(i as int, (key@, sv)));
        },
        None => {
            proof {
                lemma_member_index_absent(before, key@);
                assert forall|j: int| 0 <= j < es.len() implies es[j].0 != key@ by {
                    assert(es[j].0 == before[j].0@);
                }
                lemma_inserted_new(es, key@, sv);
            }
            members.push((crate::text::owned(key), value));
            assert(shallow_entries(members@) =~= es.push((key@, sv)));
        },
    }
    proof {
        lemma_insert_then_read(before, members@, key@, value);
        assert forall|k: Seq<char>| k != key@ implies #[trigger] members_str(members@, k) == members_str(before, k) by {
            lemma_insert_keeps_other(before, members@, key@, value, k);
        }
    }
}

/// The members after setting `key` to `value` only when no member has that
/// name (`serde_json::Map::entry(key).or_insert(value)`).
pub open spec fn entries_inserted_if_absent(es: Seq<(Seq<char>, JsonShallow)>, key: Seq<char>, value: JsonShallow) -> Seq<
    (Seq<char>, JsonShallow),
> {
    if exists|i: int| 0 <= i < es.len() && es[i].0 == key {
        es
    } else {
        es.push((key, value))
    }
}

/// Sets the member `key` of an object's members to `value` when it has none.
pub fn insert_member_if_absent(members: &mut Vec<(String, JsonValue)>, key: &str, value: JsonValue)
    ensures
        shallow_entries(final(members)@) == entries_inserted_if_absent(shallow_entries(old(members)@), key@, shallow(value)),
{
    let ghost before = members@;
    let ghost es = shallow_entries(before);
    match member_position(members, key) {
        Some(i) => {
            proof {
                lemma_member_index_found(before, key@, i as int);
                assert(es[i as int].0 == key@);
            }
        },
        None => {
            proof {
                lemma_member_index_absent(before, key@);
                assert forall|j: int| 0 <= j < es.len() implies es[j].0 != key@ by {
                    assert(es[j].0 == before[j].0@);
                }
            }
            members.push((crate::text::owned(key), value));
            assert(shallow_entries(members@) =~= es.push((key@, shallow(value))));
        },
    }
}

/// The text of the string member `key` among an object's members.
pub open spec fn members_str(members: Seq<(String, JsonValue)>, key: Seq<char>) -> Option<Seq<char>> {
    match member_index(members, key) {
        Some(i) => json_str(members[i].1),
        None => None,
    }
}

/// The string elements of the array member `key` among an object's members;
/// empty when it is absent or not an array.
pub open spec fn members_string_array(members: Seq<(String, JsonValue)>, key: Seq<char>) -> Seq<Seq<char>> {
    match member_index(members, key) {
        Some(i) => match members[i].1 {
            JsonValue::Array(items) => string_elements(items@),
            _ => Seq::empty(),
        },
        None => Seq::empty(),
    }
}

/// The text of the string member `key` among an object's members.
pub fn members_get_str<'a>(members: &'a Vec<(String, JsonValue)>, key: &str) -> (r: Option<&'a String>)
    ensures
        opt_ref_view(r) == members_str(members@, key@),
{
    match member_position(members, key) {
        Some(i) => match &members[i].1 {
            JsonValue::Str(s) => Some(s),
            _ => None,
        },
        None => None,
    }
}

/// The view of an optional borrowed string.
pub open spec fn opt_ref_view(r: Option<&String>) -> Option<Seq<char>> {
    match r {
        Some(s) => Some(s@),
        None => None,
    }
}

/// The string elements of the array member `key` among an object's members.
pub fn members_get_string_array(members: &Vec<(String, JsonValue)>, key: &str) -> (r: Vec<String>)
    ensures
        r@.map_values(|s: String| s@) == members_string_array(members@, key@),
{
    match member_position(members, key) {
        Some(i) => match &members[i].1 {
            JsonValue::Array(items) => collect_strings(items),
            _ => {
                let r: Vec<String> = Vec::new();
                assert(r@.map_values(|s: String| s@) =~= Seq::<Seq<char>>::empty());
                r
            },
        },
        None => {
            let r: Vec<String> = Vec::new();
            assert(r@.map_values(|s: String| s@) =~= Seq::<Seq<char>>::empty());
            r
        },
    }
}

/// What an insert sets reads back: after setting `key` to `v`, the first
/// member named `key` holds `v` (shallowly equal), so a string member reads
/// back as the string that was set.
pub proof fn lemma_insert_then_read(m1: Seq<(String, JsonValue)>, m2: Seq<(String, JsonValue)>, key: Seq<char>, v: JsonValue)
    requires
        shallow_entries(m2) == entries_inserted(shallow_entries(m1), key, shallow(v)),
    ensures
        member_index(m2, key) matches Some(i) && shallow(m2[i].1) == shallow(v),
        members_str(m2, key) == json_str(v),
{
    let es = shallow_entries(m1);
    let r = shallow_entries(m2);
    let sv = shallow(v);
    if exists|i: int| 0 <= i < m1.len() && m1[i].0@ == key {
        let i0 = choose|i: int| 0 <= i < m1.len() && m1[i].0@ == key;
        lemma_first_member_exists(m1, key, i0);
        let i = choose|i: int| 0 <= i < m1.len() && m1[i].0@ == key && forall|j: int| 0 <= j < i ==> m1[j].0@ != key;
        assert forall|j: int| 0 <= j < i implies es[j].0 != key by {
            assert(es[j].0 == m1[j].0@);
        }
        assert(es[i].0 == key);
        lemma_inserted_at(es, key, sv, i);
        assert(r == es.update(i, (key, sv)));
        assert(r[i] == (m2[i].0@, shallow(m2[i].1)));
        assert forall|j: int| 0 <= j < i implies m2[j].0@ != key by {
            assert(r[j] == (m2[j].0@, shallow(m2[j].1)));
            assert(r[j] == es[j]);
        }
        lemma_member_index_is(m2, key, i);
    } else {
        assert forall|j: int| 0 <= j < es.len() implies es[j].0 != key by {
            assert(es[j].0 == m1[j].0@);
        }
        lemma_inserted_new(es, key, sv);
        let n = es.len() as int;
        assert(r == es.push((key, sv)));
        assert(r[n] == (m2[n].0@, shallow(m2[n].1)));
        assert forall|j: int| 0 <= j < n implies m2[j].0@ != key by {
            assert(r[j] == (m2[j].0@, shallow(m2[j].1)));
            assert(r[j] == es[j]);
        }
        lemma_member_index_is(m2, key, n);
    }
    match v {
        JsonValue::Str(_) => {},
        _ => {},
    }
}

proof fn lemma_member_index_is(m: Seq<(String, JsonValue)>, key: Seq<char>, i: int)
    requires
        0 <= i < m.len(),
        m[i].0@ == key,
        forall|j: int| 0 <= j < i ==> m[j].0@ != key,
    ensures
        member_index(m, key) == Some(i),
{
    reveal(member_index);
    let k = choose|k: int| 0 <= k < m.len() && m[k].0@ == key && forall|j: int| 0 <= j < k ==> m[j].0@ != key;
    if k < i {
        assert(m[k].0@ != key);
    } else if k > i {
        assert(m[i].0@ != key);
    }
}

/// Setting one member leaves every other member as it reads: a string
/// member named otherwise reads the same after the insert.
pub proof fn lemma_insert_keeps_other(m1: Seq<(String, JsonValue)>, m2: Seq<(String, JsonValue)>, k2: Seq<char>, v: JsonValue, key: Seq<char>)
    requires
        shallow_entries(m2) == entries_inserted(shallow_entries(m1), k2, shallow(v)),
        k2 != key,
    ensures
        members_str(m2, key) == members_str(m1, key),
{
    let es = shallow_entries(m1);
    let r = shallow_entries(m2);
    let sv = shallow(v);
    if exists|i: int| 0 <= i < m1.len() && m1[i].0@ == k2 {
        let i0 = choose|i: int| 0 <= i < m1.len() && m1[i].0@ == k2;
        lemma_first_member_exists(m1, k2, i0);
        let i = choose|i: int| 0 <= i < m1.len() && m1[i].0@ == k2 && forall|j: int| 0 <= j < i ==> m1[j].0@ != k2;
        assert forall|j: int| 0 <= j < i implies es[j].0 != k2 by {
            assert(es[j].0 == m1[j].0@);
        }
        assert(es[i].0 == k2);
        lemma_inserted_at(es, k2, sv, i);
        assert(r == es.update(i, (k2, sv)));
        assert forall|j: int| 0 <= j < m1.len() implies m2[j].0@ == m1[j].0@ && (m1[j].0@ == key ==> shallow(
            m2[j].1,
        ) == shallow(m1[j].1)) by {
            assert(r[j] == (m2[j].0@, shallow(m2[j].1)));
            assert(es[j] == (m1[j].0@, shallow(m1[j].1)));
        }
        lemma_same_keys_same_read(m1, m2, key);
    } else {
        assert forall|j: int| 0 <= j < es.len() implies es[j].0 != k2 by {
            assert(es[j].0 == m1[j].0@);
        }
        lemma_inserted_new(es, k2, sv);
        let n = es.len() as int;
        assert(r == es.push((k2, sv)));
        assert(r[n] == (m2[n].0@, shallow(m2[n].1)));
        assert forall|j: int| 0 <= j < m1.len() implies m2[j].0@ == m1[j].0@ && (m1[j].0@ == key ==> shallow(
            m2[j].1,
        ) == shallow(m1[j].1)) by {
            assert(r[j] == (m2[j].0@, shallow(m2[j].1)));
            assert(es[j] == (m1[j].0@, shallow(m1[j].1)));
        }
        lemma_same_keys_same_read(m1, m2, key);
    }
}

proof fn lemma_same_keys_same_read(m1: Seq<(String, JsonValue)>, m2: Seq<(String, JsonValue)>, key: Seq<char>)
    requires
        m1.len() <= m2.len(),
        m2.len() <= m1.len() + 1,
        m2.len() == m1.len() + 1 ==> m2[m1.len() as int].0@ != key,
        forall|j: int| 0 <= j < m1.len() ==> m2[j].0@ == m1[j].0@ && (m1[j].0@ == key ==> shallow(m2[j].1) == shallow(m1[j].1)),
    ensures
        members_str(m2, key) == members_str(m1, key),
{
    match member_index(m1, key) {
        Some(i) => {
            lemma_member_index_found(m1, key, i);
            assert forall|j: int| 0 <= j < i implies m2[j].0@ != key by {
                assert(m2[j].0@ == m1[j].0@);
            }
            lemma_member_index_is(m2, key, i);
            assert(shallow(m2[i].1) == shallow(m1[i].1));
            match m1[i].1 {
                JsonValue::Str(_) => {},
                _ => {},
            }
        },
        None => {
            lemma_member_index_absent(m1, key);
            assert forall|j: int| 0 <= j < m2.len() implies m2[j].0@ != key by {
                if j < m1.len() {
                    assert(m2[j].0@ == m1[j].0@);
                }
            }
            reveal(member_index);
        },
    }
}

/// Whether two JSON values are the same document, member for member and
/// element for element.
pub open spec fn json_same(a: JsonValue, b: JsonValue) -> bool
    decreases a,
{
    match a {
        JsonValue::Array(xs) => match b {
            JsonValue::Array(ys) => xs@.len() == ys@.len() && forall|i: int|
                0 <= i < xs@.len() ==> json_same(#[trigger] xs@[i], ys@[i]),
            _ => false,
        },
        JsonValue::Object(xm) => match b {
            JsonValue::Object(ym) => xm@.len() == ym@.len() && forall|i: int|
                0 <= i < xm@.len() ==> (#[trigger] xm@[i]).0@ == ym@[i].0@ && json_same(xm@[i].1, ym@[i].1),
            _ => false,
        },
        _ => shallow(a) == shallow(b),
    }
}

/// A copy of a JSON document.
pub fn copy_json(v: &JsonValue) -> (r: JsonValue)
    ensures
        json_same(*v, r),
    decreases v,
{
    match v {
        JsonValue::Null => JsonValue::Null,
        JsonValue::Bool(b) => JsonValue::Bool(*b),
        JsonValue::Number(n) => JsonValue::Number(*n),
        JsonValue::Str(s) => JsonValue::Str(s.clone()),
        JsonValue::Array(items) => {
            let mut out: Vec<JsonValue> = Vec::new();
            let mut i: usize = 0;
            while i < items.len()
                invariant
                    *v == JsonValue::Array(*items),
                    i <= items@.len(),
                    out@.len() == i,
                    forall|k: int| 0 <= k < i ==> json_same(#[trigger] items@[k], out@[k]),
                decreases items.len() - i,
            {
                proof {
                    broadcast use vstd::std_specs::vec::axiom_vec_index_decreases;
                    assert(decreases_to!(*items => items[i as int]));
                    assert(decreases_to!(*v => (*v)->Array_0));
                }
                let c = copy_json(&items[i]);
                out.push(c);
                i = i + 1;
            }
            JsonValue::Array(out)
        },
        JsonValue::Object(members) => {
            let mut out: Vec<(String, JsonValue)> = Vec::new();
            let mut i: usize = 0;
            while i < members.len()
                invariant
                    *v == JsonValue::Object(*members),
                    i <= members@.len(),
                    out@.len() == i,
                    forall|k: int|
                        0 <= k < i ==> (#[trigger] members@[k]).0@ == out@[k].0@ && json_same(members@[k].1, out@[k].1),
                decreases members.len() - i,
            {
                proof {
                    broadcast use vstd::std_specs::vec::axiom_vec_index_decreases;
                    assert(decreases_to!(*members => members[i as int]));
                    assert(decreases_to!(members[i as int] => members[i as int].1));
                    assert(decreases_to!(*v => (*v)->Object_0));
                }
                let c = copy_json(&members[i].1);
                out.push((members[i].0.clone(), c));
                i = i + 1;
            }
            JsonValue::Object(out)
        },
    }
}

} // verus!
