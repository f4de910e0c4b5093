//! Reading a ledger claim's payload: the claim-type checks, the payload
//! object, fields that must not be there, and the typed fields the decision
//! layer takes from it.
use vstd::prelude::*;
use crate::json::{
    get_array, get_str, get_trimmed_str, has_key, has_member, json_str, str_member, trimmed_str_member,
    array_member, JsonValue,
};
use crate::outcome::check_view;
use crate::records::ClaimRecord;
use crate::text::{str_eq, str_in, str_is_blank, trim, trim_str, is_blank, views_of};

verus! {

/// The message for a claim of the wrong type.
pub open spec fn not_a_message(claim: ClaimRecord, domain: Seq<char>) -> Seq<char> {
    "claim "@ + claim.id@ + " is not a "@ + domain
}

fn not_a(claim: &ClaimRecord, domain: &str) -> (r: String)
    ensures
        r@ == not_a_message(*claim, domain@),
{
    let mut s = String::from_str("claim ");
    s.append(claim.id.as_str());
    s.append(" is not a ");
    s.append(domain);
    s
}

/// The claim has type `expected`.
pub fn ensure_claim_type(claim: &ClaimRecord, expected: &str, domain: &str) -> (r: Result<(), String>)
    ensures
        check_view(r) == if claim.claim_type@ == expected@ {
            Ok::<(), Seq<char>>(())
        } else {
            Err(not_a_message(*claim, domain@))
        },
{
    if !str_eq(claim.claim_type.as_str(), expected) {
        return Err(not_a(claim, domain));
    }
    Ok(())
}

/// The claim has one of the types in `expected`.
pub fn ensure_claim_type_in(claim: &ClaimRecord, expected: &[&str], domain: &str) -> (r: Result<(), String>)
    ensures
        check_view(r) == if views_of(expected@).contains(claim.claim_type@) {
            Ok::<(), Seq<char>>(())
        } else {
            Err(not_a_message(*claim, domain@))
        },
{
    if !str_in(claim.claim_type.as_str(), expected) {
        return Err(not_a(claim, domain));
    }
    Ok(())
}

/// The payload object of a claim. `parsed` is what parsing the claim's
/// `value_json` gave (the parser's message when it failed); it is not read
/// when the claim has no `value_json`.
pub open spec fn payload_object_spec(
    claim: ClaimRecord,
    parsed: Result<JsonValue, Seq<char>>,
    domain: Seq<char>,
) -> Result<JsonValue, Seq<char>> {
    if claim.value_json is None {
        Err(domain + " claim "@ + claim.id@ + " missing value_json"@)
    } else {
        match parsed {
            Err(e) => Err(e),
            Ok(v) => match v {
                JsonValue::Object(_) => Ok(v),
                _ => Err(domain + " claim "@ + claim.id@ + " value_json must be an object"@),
            },
        }
    }
}

/// The view of a parse outcome.
pub open spec fn parsed_view(r: Result<JsonValue, String>) -> Result<JsonValue, Seq<char>> {
    match r {
        Ok(v) => Ok(v),
        Err(e) => Err(e@),
    }
}

fn claim_message(domain: &str, claim: &ClaimRecord, tail: &str) -> (r: String)
    ensures
        r@ == domain@ + " claim "@ + claim.id@ + tail@,
{
    let mut s = String::from_str(domain);
    s.append(" claim ");
    s.append(claim.id.as_str());
    s.append(tail);
    s
}

/// The payload object of a claim: its `value_json` parsed, which must be an object.
pub fn claim_payload_object(claim: &ClaimRecord, parsed: Result<JsonValue, String>, domain: &str) -> (r: Result<
    JsonValue,
    String,
>)
    ensures
        parsed_view(r) == payload_object_spec(*claim, parsed_view(parsed), domain@),
{
    if claim.value_json.is_none() {
        return Err(claim_message(domain, claim, " missing value_json"));
    }
    match parsed {
        Err(e) => Err(e),
        Ok(v) => match v {
            JsonValue::Object(members) => Ok(JsonValue::Object(members)),
            _ => Err(claim_message(domain, claim, " value_json must be an object")),
        },
    }
}

/// The first of `fields` present in the object, as its index.
pub open spec fn first_present(object: JsonValue, fields: Seq<Seq<char>>, i: int) -> Option<int>
    decreases fields.len() - i,
{
    if i < 0 || i >= fields.len() {
        None
    } else if has_member(object, fields[i]) {
        Some(i)
    } else {
        first_present(object, fields, i + 1)
    }
}

/// The check that none of `fields` is present, failing on the first that is.
pub open spec fn forbidden_check(
    claim: ClaimRecord,
    object: JsonValue,
    domain: Seq<char>,
    field_label: Seq<char>,
    fields: Seq<Seq<char>>,
) -> Result<(), Seq<char>> {
    match first_present(object, fields, 0) {
        None => Ok(()),
        Some(i) => Err(
            domain + " claim "@ + claim.id@ + " contains "@ + field_label + " "@ + fields[i]
                + "; ledger payload must preserve source observation only"@,
        ),
    }
}

/// Fails when the object carries any of `fields`: a ledger payload keeps the
/// source observation only.
pub fn reject_forbidden_fields(
    claim: &ClaimRecord,
    object: &JsonValue,
    domain: &str,
    field_label: &str,
    fields: &[&str],
) -> (r: Result<(), String>)
    ensures
        check_view(r) == forbidden_check(*claim, *object, domain@, field_label@, views_of(fields@)),
{
    let ghost fs = views_of(fields@);
    let mut i: usize = 0;
    while i < fields.len()
        invariant
            i <= fields@.len(),
            fs == views_of(fields@),
            first_present(*object, fs, 0) == first_present(*object, fs, i as int),
        decreases fields.len() - i,
    {
        assert(fs[i as int] == fields@[i as int]@);
        if has_key(object, fields[i]) {
            let mut s = claim_message(domain, claim, " contains ");
            s.append(field_label);
            s.append(" ");
            s.append(fields[i]);
            s.append("; ledger payload must preserve source observation only");
            return Err(s);
        }
        i = i + 1;
    }
    Ok(())
}

/// The raw text of the string member `key`, or the error naming it.
pub fn required_raw_string_field(object: &JsonValue, domain: &str, key: &str) -> (r: Result<String, String>)
    ensures
        match r {
            Ok(s) => str_member(*object, key@) == Some(s@),
            Err(e) => str_member(*object, key@) is None && e@ == domain@ + " claim missing string field "@ + key@,
        },
{
    match get_str(object, key) {
        Some(s) => Ok(s.clone()),
        None => {
            let mut e = String::from_str(domain);
            e.append(" claim missing string field ");
            e.append(key);
            Err(e)
        },
    }
}

/// The trimmed text of the string member `key` when it is not blank.
pub fn optional_string(object: &JsonValue, key: &str) -> (r: Option<String>)
    ensures
        match r {
            Some(s) => trimmed_str_member(*object, key@) == Some(s@),
            None => trimmed_str_member(*object, key@) is None,
        },
{
    get_trimmed_str(object, key)
}

/// The trimmed text of the string member `key`, which must not be blank.
pub fn required_string(object: &JsonValue, domain: &str, key: &str) -> (r: Result<String, String>)
    ensures
        match r {
            Ok(s) => trimmed_str_member(*object, key@) == Some(s@),
            Err(e) => trimmed_str_member(*object, key@) is None && e@ == domain@ + " claim missing "@ + key@,
        },
{
    match get_trimmed_str(object, key) {
        Some(s) => Ok(s),
        None => {
            let mut e = String::from_str(domain);
            e.append(" claim missing ");
            e.append(key);
            Err(e)
        },
    }
}

/// The trimmed, non-blank string elements of `items`, in order.
pub open spec fn trimmed_strings(items: Seq<JsonValue>) -> Seq<Seq<char>>
    decreases items.len(),
{
    if items.len() == 0 {
        Seq::empty()
    } else {
        let rest = trimmed_strings(items.drop_last());
        match json_str(items.last()) {
            Some(s) => if is_blank(s) {
                rest
            } else {
                rest.push(trim(s))
            },
            None => rest,
        }
    }
}

/// The trimmed, non-blank strings of the array member `key`; empty when absent.
pub open spec fn trimmed_string_array(object: JsonValue, key: Seq<char>) -> Seq<Seq<char>> {
    match array_member(object, key) {
        Some(items) => trimmed_strings(items),
        None => Seq::empty(),
    }
}

/// The trimmed, non-blank strings of the array member `key`.
pub fn optional_string_array(object: &JsonValue, key: &str) -> (r: Vec<String>)
    ensures
        r@.map_values(|s: String| s@) == trimmed_string_array(*object, key@),
{
    let items = match get_array(object, key) {
        Some(items) => items,
        None => {
            let r: Vec<String> = Vec::new();
            assert(r@.map_values(|s: String| s@) =~= Seq::<Seq<char>>::empty());
            return r;
        },
    };
    let mut out: Vec<String> = Vec::new();
    let mut i: usize = 0;
    while i < items.len()
        invariant
            i <= items@.len(),
            out@.map_values(|s: String| s@) == trimmed_strings(items@.subrange(0, i as int)),
        decreases items.len() - i,
    {
        let ghost before = out@;
        assert(items@.subrange(0, i + 1).drop_last() =~= items@.subrange(0, i as int));
        match &items[i] {
            JsonValue::Str(s) => {
                if !str_is_blank(s.as_str()) {
                    out.push(trim_str(s.as_str()));
                    assert(out@.map_values(|s: String| s@) =~= before.map_values(|s: String| s@).push(trim(s@)));
                }
            },
            _ => {},
        }
        i = i + 1;
    }
    assert(items@.subrange(0, items@.len() as int) =~= items@);
    out
}


/// The numeric member `key`, if it is a number.
pub fn optional_f64(object: &JsonValue, key: &str) -> (r: Option<crate::score::Score>)
    ensures
        r == crate::json::number_member(*object, key@),
{
    crate::json::get_number(object, key)
}

} // verus!
