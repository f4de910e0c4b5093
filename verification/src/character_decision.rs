//! The character decision layer: a ledger claim about a character or its
//! profile becomes a typed write, a no-write, a quarantine or a rejection.
use vstd::prelude::*;
use crate::json::{get_str, get_string_array, str_member, string_array_member, JsonValue};
use crate::ledger_payload::parsed_view;
use crate::records::ClaimRecord;
use crate::score::Score;
use crate::text::{
    contains, first_index_of, join2, lowercase, opt_view, owned, starts_with, str_contains, str_eq,
    str_starts_with, text_or_empty, to_lowercase, trim, trim_str, chars_of, find_char, string_from,
};
use crate::write_commands::{single_evidence, views, CharacterWriteCommand, CharacterWriteProvenance};

verus! {

/// A ledger claim about a character, with its payload parsed.
#[derive(Debug)]
pub struct LedgerCharacterClaim {
    pub claim_id: String,
    pub book_id: String,
    pub chapter_index: i64,
    pub claim_type: String,
    pub subject_mention: Option<String>,
    pub object_mention: Option<String>,
    pub subject_entity_id: Option<String>,
    pub predicate: String,
    pub value_text: Option<String>,
    pub value_json: Option<JsonValue>,
    pub primary_source_span_id: String,
    pub confidence: Score,
    pub status: String,
    pub risk_level: String,
}

/// What the character decision layer decides for one claim.
#[derive(Debug)]
pub enum CharacterDecision {
    Invalid(CharacterDecisionRejection),
    NoWrite(CharacterNoWrite),
    Quarantine(CharacterQuarantine),
    Write(CharacterWriteCommand),
}

/// A claim refused as invalid, with the reason.
#[derive(Debug, Clone)]
pub struct CharacterDecisionRejection {
    pub claim_id: String,
    pub reason: String,
}

/// A claim that leads to no write.
#[derive(Debug, Clone)]
pub struct CharacterNoWrite {
    pub claim_id: String,
    pub status: CharacterNoWriteStatus,
    pub reason_code: String,
}

/// Why a claim leads to no write.
#[derive(Debug, Clone, Copy, PartialEq, Eq, Structural)]
pub enum CharacterNoWriteStatus {
    Rejected,
    Uncertain,
}

/// A claim held back for review, with the reason.
#[derive(Debug, Clone)]
pub struct CharacterQuarantine {
    pub claim_id: String,
    pub reason: String,
}

/// The claim types of the character domain.
pub open spec fn is_character_claim_type(t: Seq<char>) -> bool {
    t == "entity_introduction"@ || t == "alias"@ || t == "property_update"@
}

/// The ledger claim made from `claim`, or why none is: the claim type must be
/// of the character domain, and the payload, when present, must parse.
pub open spec fn ledger_character_claim_ok(
    claim: ClaimRecord,
    parsed: Result<JsonValue, Seq<char>>,
    r: Result<LedgerCharacterClaim, Seq<char>>,
) -> bool {
    if !is_character_claim_type(claim.claim_type@) {
        r == Err::<LedgerCharacterClaim, Seq<char>>(
            "claim "@ + claim.id@ + " is not a character/profile claim: "@ + claim.claim_type@,
        )
    } else if claim.value_json is Some && parsed is Err {
        r == Err::<LedgerCharacterClaim, Seq<char>>(
            "character claim "@ + claim.id@ + " has invalid value_json: "@ + parsed->Err_0,
        )
    } else {
        r matches Ok(c) && {
            &&& c.claim_id@ == claim.id@
            &&& c.book_id@ == claim.book_id@
            &&& c.chapter_index == claim.chapter_index
            &&& c.claim_type@ == claim.claim_type@
            &&& opt_view(c.subject_mention) == opt_view(claim.subject_mention)
            &&& opt_view(c.object_mention) == opt_view(claim.object_mention)
            &&& opt_view(c.subject_entity_id) == opt_view(claim.subject_entity_id)
            &&& c.predicate@ == claim.predicate@
            &&& opt_view(c.value_text) == opt_view(claim.value_text)
            &&& c.value_json == (if claim.value_json is Some { Some(parsed->Ok_0) } else { None::<JsonValue> })
            &&& c.primary_source_span_id@ == claim.primary_source_span_id@
            &&& c.confidence == claim.confidence
            &&& c.status@ == claim.status@
            &&& c.risk_level@ == claim.risk_level@
        }
    }
}

/// The view of a ledger claim result.
pub open spec fn ledger_view(r: Result<LedgerCharacterClaim, String>) -> Result<LedgerCharacterClaim, Seq<char>> {
    match r {
        Ok(c) => Ok(c),
        Err(e) => Err(e@),
    }
}

impl LedgerCharacterClaim {
    /// The ledger claim for a character claim. `parsed` is what parsing the
    /// claim's `value_json` gave; it is not read when there is none.
    pub fn from_claim(claim: &ClaimRecord, parsed: Result<JsonValue, String>) -> (r: Result<LedgerCharacterClaim, String>)
        ensures
            ledger_character_claim_ok(*claim, parsed_view(parsed), ledger_view(r)),
    {
        let t = claim.claim_type.as_str();
        if !(str_eq(t, "entity_introduction") || str_eq(t, "alias") || str_eq(t, "property_update")) {
            let mut e = String::from_str("claim ");
            e.append(claim.id.as_str());
            e.append(" is not a character/profile claim: ");
            e.append(t);
            return Err(e);
        }
        let value_json = match &claim.value_json {
            Some(_) => match parsed {
                Ok(v) => Some(v),
                Err(err) => {
                    let mut e = String::from_str("character claim ");
                    e.append(claim.id.as_str());
                    e.append(" has invalid value_json: ");
                    e.append(err.as_str());
                    return Err(e);
                },
            },
            None => None,
        };
        Ok(LedgerCharacterClaim {
            claim_id: claim.id.clone(),
            book_id: claim.book_id.clone(),
            chapter_index: claim.chapter_index,
            claim_type: claim.claim_type.clone(),
            subject_mention: crate::text::clone_opt(&claim.subject_mention),
            object_mention: crate::text::clone_opt(&claim.object_mention),
            subject_entity_id: crate::text::clone_opt(&claim.subject_entity_id),
            predicate: claim.predicate.clone(),
            value_text: crate::text::clone_opt(&claim.value_text),
            value_json,
            primary_source_span_id: claim.primary_source_span_id.clone(),
            confidence: claim.confidence,
            status: claim.status.clone(),
            risk_level: claim.risk_level.clone(),
        })
    }
}

/// Whether a high-risk claim is critical: a property update whose predicate
/// is a life status and whose value (lowercased) speaks of death, demise or
/// resurrection, or whose predicate is an identity and whose value speaks of
/// a true identity.
pub open spec fn critical_high_risk_spec(c: LedgerCharacterClaim) -> bool {
    let value = lowercase(text_or_empty(c.value_text));
    c.claim_type@ == "property_update"@ && ((starts_with(c.predicate@, "life_status"@) && (contains(value, "死"@)
        || contains(value, "亡"@) || contains(value, "复活"@))) || (starts_with(c.predicate@, "identity"@)
        && contains(value, "真实身份"@)))
}

/// Whether a high-risk claim is critical enough to be quarantined.
pub fn is_critical_high_risk_character_claim(claim: &LedgerCharacterClaim) -> (r: bool)
    ensures
        r == critical_high_risk_spec(*claim),
{
    if !str_eq(claim.claim_type.as_str(), "property_update") {
        return false;
    }
    let value = match &claim.value_text {
        Some(v) => to_lowercase(v.as_str()),
        None => {
            proof {
                reveal_strlit("");
                assert(""@ =~= Seq::<char>::empty());
            }
            to_lowercase("")
        },
    };
    let v = value.as_str();
    (str_starts_with(claim.predicate.as_str(), "life_status") && (str_contains(v, "死") || str_contains(v, "亡")
        || str_contains(v, "复活"))) || (str_starts_with(claim.predicate.as_str(), "identity") && str_contains(
        v,
        "真实身份",
    ))
}

/// How a failed write is classified: a missing resolved entity id sends the
/// claim to quarantine, any other failure marks it invalid.
pub open spec fn failure_classified(claim_id: Seq<char>, reason: Seq<char>, d: CharacterDecision) -> bool {
    if contains(reason, "missing resolved entity id"@) {
        d matches CharacterDecision::Quarantine(q) && q.claim_id@ == claim_id && q.reason@ == reason
    } else {
        d matches CharacterDecision::Invalid(x) && x.claim_id@ == claim_id && x.reason@ == reason
    }
}

/// Classifies the failure to build a write for a claim.
pub fn classify_character_write_failure(claim_id: String, reason: String) -> (r: CharacterDecision)
    ensures
        failure_classified(claim_id@, reason@, r),
{
    if str_contains(reason.as_str(), "missing resolved entity id") {
        return CharacterDecision::Quarantine(CharacterQuarantine { claim_id, reason });
    }
    CharacterDecision::Invalid(CharacterDecisionRejection { claim_id, reason })
}

/// The raw string member `key` of the payload, if any.
pub open spec fn string_field_spec(payload: Option<JsonValue>, key: Seq<char>) -> Option<Seq<char>> {
    match payload {
        Some(v) => str_member(v, key),
        None => None,
    }
}

/// The string elements of the array member `key` of the payload.
pub open spec fn string_array_field_spec(payload: Option<JsonValue>, key: Seq<char>) -> Seq<Seq<char>> {
    match payload {
        Some(v) => string_array_member(v, key),
        None => Seq::empty(),
    }
}

/// The raw string member `key` of the payload, if any.
pub fn string_field(payload: Option<&JsonValue>, key: &str) -> (r: Option<String>)
    ensures
        opt_view(r) == string_field_spec(crate::map_gate::deref_opt(payload), key@),
{
    match payload {
        Some(v) => match get_str(v, key) {
            Some(s) => Some(s.clone()),
            None => None,
        },
        None => None,
    }
}

/// The string elements of the array member `key` of the payload.
pub fn string_array_field(payload: Option<&JsonValue>, key: &str) -> (r: Vec<String>)
    ensures
        views(r@) == string_array_field_spec(crate::map_gate::deref_opt(payload), key@),
{
    match payload {
        Some(v) => get_string_array(v, key),
        None => {
            let r: Vec<String> = Vec::new();
            assert(views(r@) =~= Seq::<Seq<char>>::empty());
            r
        },
    }
}

/// The property dimension a predicate names: its text before the first `=`
/// (all of it when there is none), trimmed.
pub open spec fn dimension_of(predicate: Seq<char>) -> Seq<char> {
    match first_index_of(predicate, '=') {
        Some(i) => trim(predicate.subrange(0, i)),
        None => trim(predicate),
    }
}

/// The property dimension a predicate names; there always is one.
pub fn extract_dimension_from_predicate(predicate: &str) -> (r: Option<String>)
    ensures
        r matches Some(d) && d@ == dimension_of(predicate@),
{
    let v = chars_of(predicate);
    let head = match find_char(&v, '=') {
        Some(i) => string_from(&v, 0, i),
        None => string_from(&v, 0, v.len()),
    };
    assert(v@.subrange(0, v@.len() as int) =~= v@);
    Some(trim_str(head.as_str()))
}

/// Why no write can be built for the claim, if so.
pub open spec fn character_command_error(c: LedgerCharacterClaim) -> Option<Seq<char>> {
    if c.claim_type@ == "entity_introduction"@ {
        if c.subject_mention is None {
            Some("character claim "@ + c.claim_id@ + " missing subject mention for entity introduction"@)
        } else {
            None
        }
    } else if c.claim_type@ == "alias"@ {
        if c.subject_entity_id is None {
            Some("character claim "@ + c.claim_id@ + " missing resolved entity id for alias"@)
        } else if c.object_mention is None {
            Some("character claim "@ + c.claim_id@ + " missing alias object mention"@)
        } else {
            None
        }
    } else if c.claim_type@ == "property_update"@ {
        if c.subject_entity_id is None {
            Some("character claim "@ + c.claim_id@ + " missing resolved entity id for property update"@)
        } else {
            None
        }
    } else {
        Some("unsupported character claim type "@ + c.claim_type@)
    }
}

/// The provenance of a write from the claim: its id and its primary span.
pub open spec fn provenance_ok(p: CharacterWriteProvenance, c: LedgerCharacterClaim) -> bool {
    p.claim_id@ == c.claim_id@ && views(p.evidence_span_ids@) == seq![c.primary_source_span_id@]
}

/// The write built from the claim, when `character_command_error` is `None`.
pub open spec fn character_command_matches(c: LedgerCharacterClaim, cmd: CharacterWriteCommand) -> bool {
    if c.claim_type@ == "entity_introduction"@ {
        cmd matches CharacterWriteCommand::IntroduceEntity {
            book_id,
            entity_type,
            canonical_name,
            display_name,
            short_summary,
            aliases,
            chapter_index,
            confidence,
            provenance,
        } && {
            &&& book_id@ == c.book_id@
            &&& entity_type@ == match string_field_spec(c.value_json, "entity_type"@) {
                Some(t) => t,
                None => "character"@,
            }
            &&& canonical_name@ == c.subject_mention->0@
            &&& display_name@ == c.subject_mention->0@
            &&& opt_view(short_summary) == match string_field_spec(c.value_json, "short_summary"@) {
                Some(s) => Some(s),
                None => opt_view(c.value_text),
            }
            &&& views(aliases@) == string_array_field_spec(c.value_json, "aliases"@)
            &&& chapter_index == c.chapter_index
            &&& confidence == c.confidence
            &&& provenance_ok(provenance, c)
        }
    } else if c.claim_type@ == "alias"@ {
        cmd matches CharacterWriteCommand::AddAlias {
            book_id,
            entity_id,
            alias,
            alias_type,
            chapter_index,
            confidence,
            provenance,
        } && {
            &&& book_id@ == c.book_id@
            &&& entity_id@ == c.subject_entity_id->0@
            &&& alias@ == c.object_mention->0@
            &&& alias_type@ == match string_field_spec(c.value_json, "alias_type"@) {
                Some(t) => t,
                None => "ai_extracted"@,
            }
            &&& chapter_index == c.chapter_index
            &&& confidence == c.confidence
            &&& provenance_ok(provenance, c)
        }
    } else {
        cmd matches CharacterWriteCommand::UpdateProperty {
            book_id,
            entity_id,
            dimension_key,
            value_text,
            value_json,
            chapter_index,
            confidence,
            provenance,
        } && {
            &&& book_id@ == c.book_id@
            &&& entity_id@ == c.subject_entity_id->0@
            &&& dimension_key@ == dimension_of(c.predicate@)
            &&& opt_view(value_text) == opt_view(c.value_text)
            &&& value_json == c.value_json
            &&& chapter_index == c.chapter_index
            &&& confidence == c.confidence
            &&& provenance_ok(provenance, c)
        }
    }
}

/// The view of a built write: the error text, or the write itself.
pub open spec fn command_ok(c: LedgerCharacterClaim, r: Result<CharacterWriteCommand, String>) -> bool {
    match r {
        Ok(cmd) => character_command_error(c) is None && character_command_matches(c, cmd),
        Err(e) => character_command_error(c) == Some(e@),
    }
}

fn provenance(claim: &LedgerCharacterClaim) -> (p: CharacterWriteProvenance)
    ensures
        provenance_ok(p, *claim),
{
    CharacterWriteProvenance {
        claim_id: claim.claim_id.clone(),
        evidence_span_ids: single_evidence(&claim.primary_source_span_id),
    }
}

fn claim_error(claim_id: &String, tail: &str) -> (r: String)
    ensures
        r@ == "character claim "@ + claim_id@ + tail@,
{
    let mut e = String::from_str("character claim ");
    e.append(claim_id.as_str());
    e.append(tail);
    e
}

/// The write introducing the claim's entity.
fn entity_introduction_command(claim: LedgerCharacterClaim) -> (r: Result<CharacterWriteCommand, String>)
    requires
        claim.claim_type@ == "entity_introduction"@,
    ensures
        command_ok(claim, r),
{
    let canonical_name = match &claim.subject_mention {
        Some(name) => name.clone(),
        None => return Err(claim_error(&claim.claim_id, " missing subject mention for entity introduction")),
    };
    let payload = claim.value_json.as_ref();
    let entity_type = match string_field(payload, "entity_type") {
        Some(t) => t,
        None => owned("character"),
    };
    let short_summary = match string_field(payload, "short_summary") {
        Some(s) => Some(s),
        None => crate::text::clone_opt(&claim.value_text),
    };
    let aliases = string_array_field(payload, "aliases");
    let provenance = provenance(&claim);
    Ok(CharacterWriteCommand::IntroduceEntity {
        book_id: claim.book_id,
        entity_type,
        canonical_name: canonical_name.clone(),
        display_name: canonical_name,
        short_summary,
        aliases,
        chapter_index: claim.chapter_index,
        confidence: claim.confidence,
        provenance,
    })
}

/// The write adding the claim's alias to its resolved entity.
fn alias_command(claim: LedgerCharacterClaim) -> (r: Result<CharacterWriteCommand, String>)
    requires
        claim.claim_type@ == "alias"@,
        claim.claim_type@ != "entity_introduction"@,
    ensures
        command_ok(claim, r),
{
    let entity_id = match &claim.subject_entity_id {
        Some(id) => id.clone(),
        None => return Err(claim_error(&claim.claim_id, " missing resolved entity id for alias")),
    };
    let alias = match &claim.object_mention {
        Some(a) => a.clone(),
        None => return Err(claim_error(&claim.claim_id, " missing alias object mention")),
    };
    let alias_type = match string_field(claim.value_json.as_ref(), "alias_type") {
        Some(t) => t,
        None => owned("ai_extracted"),
    };
    let provenance = provenance(&claim);
    Ok(CharacterWriteCommand::AddAlias {
        book_id: claim.book_id,
        entity_id,
        alias,
        alias_type,
        chapter_index: claim.chapter_index,
        confidence: claim.confidence,
        provenance,
    })
}

/// The write updating a property of the claim's resolved entity.
fn property_update_command(claim: LedgerCharacterClaim) -> (r: Result<CharacterWriteCommand, String>)
    requires
        claim.claim_type@ == "property_update"@,
        claim.claim_type@ != "entity_introduction"@,
        claim.claim_type@ != "alias"@,
    ensures
        command_ok(claim, r),
{
    let entity_id = match &claim.subject_entity_id {
        Some(id) => id.clone(),
        None => return Err(claim_error(&claim.claim_id, " missing resolved entity id for property update")),
    };
    let dimension_key = match extract_dimension_from_predicate(claim.predicate.as_str()) {
        Some(d) => d,
        None => return Err(claim_error(&claim.claim_id, " missing property dimension in predicate")),
    };
    let provenance = provenance(&claim);
    Ok(CharacterWriteCommand::UpdateProperty {
        book_id: claim.book_id,
        entity_id,
        dimension_key,
        value_text: claim.value_text,
        value_json: claim.value_json,
        chapter_index: claim.chapter_index,
        confidence: claim.confidence,
        provenance,
    })
}

/// The write for the claim, by claim type.
fn character_write_command_from_ledger(claim: LedgerCharacterClaim) -> (r: Result<CharacterWriteCommand, String>)
    ensures
        command_ok(claim, r),
{
    if str_eq(claim.claim_type.as_str(), "entity_introduction") {
        entity_introduction_command(claim)
    } else if str_eq(claim.claim_type.as_str(), "alias") {
        alias_command(claim)
    } else if str_eq(claim.claim_type.as_str(), "property_update") {
        property_update_command(claim)
    } else {
        Err(join2("unsupported character claim type ", claim.claim_type.as_str()))
    }
}

/// What the decision layer decides for a character claim: a claim no longer
/// proposed is left alone as uncertain; a high-risk claim is quarantined
/// when critical and held as uncertain otherwise; any other claim becomes
/// its write, or its failure is classified.
pub open spec fn character_decision_ok(c: LedgerCharacterClaim, d: CharacterDecision) -> bool {
    if c.status@ != "proposed"@ {
        d matches CharacterDecision::NoWrite(n) && n.claim_id@ == c.claim_id@ && n.status
            == CharacterNoWriteStatus::Uncertain && n.reason_code@ == "ledger_status_"@ + c.status@
    } else if c.risk_level@ == "high"@ {
        if critical_high_risk_spec(c) {
            d matches CharacterDecision::Quarantine(q) && q.claim_id@ == c.claim_id@ && q.reason@
                == "high risk critical character claim"@
        } else {
            d matches CharacterDecision::NoWrite(n) && n.claim_id@ == c.claim_id@ && n.status
                == CharacterNoWriteStatus::Uncertain && n.reason_code@ == "high_risk_character_claim"@
        }
    } else {
        match character_command_error(c) {
            None => d matches CharacterDecision::Write(cmd) && character_command_matches(c, cmd),
            Some(e) => failure_classified(c.claim_id@, e, d),
        }
    }
}

/// Decides what a character ledger claim leads to; it always succeeds.
pub fn materialize_character_decision(claim: LedgerCharacterClaim) -> (r: Result<CharacterDecision, String>)
    ensures
        r matches Ok(d) && character_decision_ok(claim, d),
{
    if !str_eq(claim.status.as_str(), "proposed") {
        return Ok(
            CharacterDecision::NoWrite(
                CharacterNoWrite {
                    claim_id: claim.claim_id,
                    status: CharacterNoWriteStatus::Uncertain,
                    reason_code: join2("ledger_status_", claim.status.as_str()),
                },
            ),
        );
    }
    if str_eq(claim.risk_level.as_str(), "high") {
        if is_critical_high_risk_character_claim(&claim) {
            return Ok(
                CharacterDecision::Quarantine(
                    CharacterQuarantine { claim_id: claim.claim_id, reason: owned("high risk critical character claim") },
                ),
            );
        }
        return Ok(
            CharacterDecision::NoWrite(
                CharacterNoWrite {
                    claim_id: claim.claim_id,
                    status: CharacterNoWriteStatus::Uncertain,
                    reason_code: owned("high_risk_character_claim"),
                },
            ),
        );
    }
    let claim_id = claim.claim_id.clone();
    let ghost c = claim;
    match character_write_command_from_ledger(claim) {
        Ok(command) => Ok(CharacterDecision::Write(command)),
        Err(err) => Ok(classify_character_write_failure(claim_id, err)),
    }
}

/// A character claim is written only when it is proposed and not high risk:
/// a high-risk claim is quarantined when critical and left uncertain otherwise.
pub proof fn lemma_character_write_needs_low_risk(c: LedgerCharacterClaim, d: CharacterDecision)
    requires
        character_decision_ok(c, d),
        d is Write,
    ensures
        c.status@ == "proposed"@,
        c.risk_level@ != "high"@,
{
}

/// The predicate a property update is written with gives its dimension back:
/// reading the dimension from `dimension = value` returns the update's
/// dimension key, for any key without `=` and without surrounding whitespace
/// (every key that extraction admits is one).
pub proof fn lemma_predicate_gives_back_dimension(obs: crate::extractor::Observation)
    requires
        obs is PropertyUpdate,
        !crate::text::contains(obs->PropertyUpdate_dimension_key@, "="@),
        trim(obs->PropertyUpdate_dimension_key@) == obs->PropertyUpdate_dimension_key@,
    ensures
        dimension_of(crate::claim_writer::predicate_spec(obs)) == obs->PropertyUpdate_dimension_key@,
{
    let v = match obs->PropertyUpdate_value_text {
        Some(t) => t@,
        None => "unknown"@,
    };
    assert(crate::claim_writer::predicate_spec(obs) == obs->PropertyUpdate_dimension_key@ + " = "@ + v);
    lemma_dimension_of_assignment(obs->PropertyUpdate_dimension_key@, v);
}

proof fn lemma_dimension_of_assignment(d: Seq<char>, v: Seq<char>)
    requires
        !crate::text::contains(d, "="@),
        trim(d) == d,
    ensures
        dimension_of(d + " = "@ + v) == d,
{
    reveal_strlit(" = ");
    reveal_strlit("=");
    let p = d + " = "@ + v;
    let n = d.len() as int;
    assert(p[n] == ' ');
    assert(p[n + 1] == '=');
    assert forall|j: int| 0 <= j < n implies #[trigger] p[j] != '=' by {
        assert(p[j] == d[j]);
        if d[j] == '=' {
            assert(d.subrange(j, j + 1) =~= "="@);
            assert(crate::text::occurs_at(d, "="@, j));
        }
    }
    assert forall|j: int| 0 <= j < n + 1 implies #[trigger] p[j] != '=' by {
        if j < n {
            assert(p[j] != '=');
        }
    }
    crate::text::lemma_first_index_at(p, '=', n + 1);
    assert(p.subrange(0, n + 1) =~= d.push(' '));
    crate::text::lemma_trim_push_ws(d, ' ');
}

} // verus!
