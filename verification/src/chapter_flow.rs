//! The decisions of processing one chapter: which phase each new claim goes
//! to, how a segment's text is rebuilt from its spans, how claims pick up
//! entities created earlier in the chapter, and what the identity phase does
//! with gate and judge outcomes. Storage, extraction and the judges are the
//! caller's; it hands their outcomes to these steps.
use vstd::prelude::*;
use crate::claim_lifecycle::{is_transition, ClaimTransition, LifecycleStep};
use crate::identity_judge::{decision_spec, validate_judge_decision, IdentityGateResult, IdentityJudgeDecision, IdentityJudgeOutput};
use crate::json::{
    entries_inserted, get_str, insert_member, member_index, member_position, members_str, shallow_entries,
    str_member, JsonShallow, JsonValue,
};
use crate::outcome::GateView;
use crate::pipeline::{
    confidence_or_zero, confidence_value, identity_judge_fields, insert_if, inserted_if, is_identity_claim_type,
    is_text_array, merge_identity_gate_reason, merge_identity_judge_output, JudgeDecision, JudgeOutput,
};
use crate::score::Score;
use crate::identity_decision::is_identity_claim_type_spec;
use crate::records::ClaimRecord;
use crate::text::{is_blank, str_is_blank, clone_opt, join2, join3, joined, join_strings, opt_view, owned, str_eq, string_views};

verus! {

/// The phase of chapter processing a new claim goes to.
#[derive(Debug, Clone, Copy, PartialEq, Eq, Structural)]
pub enum ClaimRoute {
    /// Relationship claims: structural gate, then the relationship judge.
    Relationship,
    /// Identity claims, after the entity phase.
    Identity,
    /// Knowledge assertions.
    Knowledge,
    /// Location introductions and edges.
    Location,
    /// Everything else goes to the entity and property reducer first.
    Entity,
}

/// The phase of a claim type.
pub open spec fn route_spec(claim_type: Seq<char>) -> ClaimRoute {
    if claim_type == "relationship_update"@ {
        ClaimRoute::Relationship
    } else if is_identity_claim_type_spec(claim_type) {
        ClaimRoute::Identity
    } else if claim_type == "knowledge_assertion"@ {
        ClaimRoute::Knowledge
    } else if claim_type == "location_introduction"@ || claim_type == "location_edge"@ {
        ClaimRoute::Location
    } else {
        ClaimRoute::Entity
    }
}

/// The phase a new claim of `claim_type` goes to.
pub fn claim_route(claim_type: &str) -> (r: ClaimRoute)
    ensures
        r == route_spec(claim_type@),
{
    if str_eq(claim_type, "relationship_update") {
        ClaimRoute::Relationship
    } else if is_identity_claim_type(claim_type) {
        ClaimRoute::Identity
    } else if str_eq(claim_type, "knowledge_assertion") {
        ClaimRoute::Knowledge
    } else if str_eq(claim_type, "location_introduction") || str_eq(claim_type, "location_edge") {
        ClaimRoute::Location
    } else {
        ClaimRoute::Entity
    }
}

/// The text of a segment: its span excerpts, separated by blank lines.
pub fn segment_text(excerpts: &Vec<String>) -> (r: String)
    ensures
        r@ == joined(string_views(excerpts@), "\n\n"@),
{
    join_strings(excerpts, "\n\n")
}

/// Whether the chapter's stored segments can be reused: some segment was
/// cut from text with the chapter's current hash.
pub fn has_matching_segments(segment_hashes: &Vec<String>, text_hash: &str) -> (r: bool)
    ensures
        r == exists|i: int| 0 <= i < segment_hashes@.len() && #[trigger] segment_hashes@[i]@ == text_hash@,
{
    let mut i: usize = 0;
    while i < segment_hashes.len()
        invariant
            i <= segment_hashes@.len(),
            forall|k: int| 0 <= k < i ==> #[trigger] segment_hashes@[k]@ != text_hash@,
        decreases segment_hashes.len() - i,
    {
        if str_eq(segment_hashes[i].as_str(), text_hash) {
            return true;
        }
        i = i + 1;
    }
    false
}

/// The mention to look up for one side of a claim: the side's mention when
/// the side has no entity yet.
pub open spec fn lookup_spec(entity_id: Option<String>, mention: Option<String>) -> Option<String> {
    if entity_id is None {
        mention
    } else {
        None
    }
}

/// The mentions to look up for a claim's two sides before it is judged:
/// each side that has a mention and no entity yet.
pub fn pending_lookups(claim: &ClaimRecord) -> (r: (Option<String>, Option<String>))
    ensures
        r.0 == lookup_spec(claim.subject_entity_id, claim.subject_mention),
        r.1 == lookup_spec(claim.object_entity_id, claim.object_mention),
{
    let s = if claim.subject_entity_id.is_none() {
        clone_opt(&claim.subject_mention)
    } else {
        None
    };
    let o = if claim.object_entity_id.is_none() {
        clone_opt(&claim.object_mention)
    } else {
        None
    };
    (s, o)
}

/// A side's entity after its lookup: kept when it had one, else what the
/// lookup found (nothing when there was no mention to look up).
pub open spec fn resolved_side(entity_id: Option<String>, mention: Option<String>, found: Option<String>) -> Option<String> {
    if entity_id is Some {
        entity_id
    } else if mention is Some {
        found
    } else {
        None
    }
}

/// The claim with the entities that its pending lookups found.
pub fn with_found_entities(claim: &ClaimRecord, found_subject: Option<String>, found_object: Option<String>) -> (r: ClaimRecord)
    ensures
        r == (ClaimRecord {
            subject_entity_id: resolved_side(claim.subject_entity_id, claim.subject_mention, found_subject),
            object_entity_id: resolved_side(claim.object_entity_id, claim.object_mention, found_object),
            ..*claim
        }),
{
    let mut r = claim.copy();
    if claim.subject_entity_id.is_none() {
        r.subject_entity_id = if claim.subject_mention.is_some() {
            found_subject
        } else {
            None
        };
    }
    if claim.object_entity_id.is_none() {
        r.object_entity_id = if claim.object_mention.is_some() {
            found_object
        } else {
            None
        };
    }
    r
}

/// A relationship side after its lookup: whatever the lookup of its mention
/// found replaces it; it is kept when nothing was found.
pub open spec fn relinked_side(entity_id: Option<String>, mention: Option<String>, found: Option<String>) -> Option<String> {
    if mention is Some && found is Some {
        found
    } else {
        entity_id
    }
}

/// A relationship claim with the entities found for its mentions once the
/// chapter's new entities exist: each side that has a mention is looked up
/// again, and a found entity replaces the one it had.
pub fn with_relinked_entities(claim: &ClaimRecord, found_subject: Option<String>, found_object: Option<String>) -> (r: ClaimRecord)
    ensures
        r == (ClaimRecord {
            subject_entity_id: relinked_side(claim.subject_entity_id, claim.subject_mention, found_subject),
            object_entity_id: relinked_side(claim.object_entity_id, claim.object_mention, found_object),
            ..*claim
        }),
{
    let mut r = claim.copy();
    if claim.subject_mention.is_some() && found_subject.is_some() {
        r.subject_entity_id = found_subject;
    }
    if claim.object_mention.is_some() && found_object.is_some() {
        r.object_entity_id = found_object;
    }
    r
}

/// What the identity phase does with a claim next.
#[derive(Debug, Clone, Copy, PartialEq, Eq, Structural)]
pub enum IdentityPhaseStep {
    /// The claim goes to the identity reducer.
    Reduce,
    /// The claim's status changes and it goes no further.
    Settle(ClaimTransition),
}

/// What the identity gate leads to in the chapter's identity phase: a pass
/// goes to the judge (nothing recorded); a rejection or an uncertain outcome
/// is recorded in the payload with its reason and settles the claim.
pub fn identity_phase_gate(value: &mut Vec<(String, JsonValue)>, gate: &IdentityGateResult) -> (t: Option<ClaimTransition>)
    ensures
        gate@ is Pass ==> t is None && final(value)@ == old(value)@,
        gate@ matches GateView::Reject(reason) ==> t == Some(ClaimTransition::Reject) && shallow_entries(final(value)@)
            == entries_inserted(
            entries_inserted(shallow_entries(old(value)@), "judge_decision"@, JsonShallow::Str("rejected"@)),
            "gate_reason"@,
            JsonShallow::Str(reason),
        ),
        gate@ matches GateView::Uncertain(reason) ==> t == Some(ClaimTransition::MarkUncertain) && shallow_entries(
            final(value)@,
        ) == entries_inserted(
            entries_inserted(shallow_entries(old(value)@), "judge_decision"@, JsonShallow::Str("uncertain"@)),
            "gate_reason"@,
            JsonShallow::Str(reason),
        ),
        gate@ matches GateView::Reject(reason) ==> members_str(final(value)@, "judge_decision"@) == Some("rejected"@)
            && members_str(final(value)@, "gate_reason"@) == Some(reason),
        gate@ matches GateView::Uncertain(reason) ==> members_str(final(value)@, "judge_decision"@) == Some(
            "uncertain"@,
        ) && members_str(final(value)@, "gate_reason"@) == Some(reason),
{
    match gate {
        IdentityGateResult::Pass => None,
        IdentityGateResult::Reject(reason) => {
            merge_identity_gate_reason(value, "rejected", reason.as_str());
            Some(ClaimTransition::Reject)
        },
        IdentityGateResult::Uncertain(reason) => {
            merge_identity_gate_reason(value, "uncertain", reason.as_str());
            Some(ClaimTransition::MarkUncertain)
        },
    }
}

/// What the identity judge's answer leads to in the chapter's identity
/// phase. A failed judge rejects the claim. An answer whose decision does not
/// suit its link type or the pair's resolution rejects it, recorded as
/// `invalid judge output: <why>`. Otherwise the answer is recorded; a reject
/// or uncertain decision settles the claim, any other goes to the reducer.
pub fn identity_phase_judged(
    value: &mut Vec<(String, JsonValue)>,
    judged: Result<IdentityJudgeOutput, String>,
    pair_fully_resolved: bool,
) -> (s: IdentityPhaseStep)
    ensures
        match judged {
            Err(_) => s == IdentityPhaseStep::Settle(ClaimTransition::Reject) && final(value)@ == old(value)@,
            Ok(o) => match decision_spec(o, pair_fully_resolved) {
                Err(why) => s == IdentityPhaseStep::Settle(ClaimTransition::Reject) && shallow_entries(final(value)@)
                    == entries_inserted(
                    entries_inserted(shallow_entries(old(value)@), "judge_decision"@, JsonShallow::Str("rejected"@)),
                    "gate_reason"@,
                    JsonShallow::Str("invalid judge output: "@ + why),
                ),
                Ok(_) => {
                    &&& s == match o.decision {
                        IdentityJudgeDecision::Reject => IdentityPhaseStep::Settle(ClaimTransition::Reject),
                        IdentityJudgeDecision::Uncertain => IdentityPhaseStep::Settle(ClaimTransition::MarkUncertain),
                        _ => IdentityPhaseStep::Reduce,
                    }
                    &&& exists|j: JsonShallow|
                        is_text_array(j, string_views(o.property_conflicts@)) && shallow_entries(final(value)@)
                            == entries_inserted(
                            entries_inserted(
                                identity_judge_fields(shallow_entries(old(value)@), o),
                                "property_conflicts"@,
                                j,
                            ),
                            "relationship_migration_hint"@,
                            JsonShallow::Str(o.relationship_migration_hint@),
                        )
                },
            },
        },
{
    let output = match judged {
        Err(_) => return IdentityPhaseStep::Settle(ClaimTransition::Reject),
        Ok(o) => o,
    };
    match validate_judge_decision(&output, pair_fully_resolved) {
        Err(why) => {
            let reason = join2("invalid judge output: ", why.as_str());
            merge_identity_gate_reason(value, "rejected", reason.as_str());
            IdentityPhaseStep::Settle(ClaimTransition::Reject)
        },
        Ok(_) => {
            merge_identity_judge_output(value, &output);
            match output.decision {
                IdentityJudgeDecision::Reject => IdentityPhaseStep::Settle(ClaimTransition::Reject),
                IdentityJudgeDecision::Uncertain => IdentityPhaseStep::Settle(ClaimTransition::MarkUncertain),
                _ => IdentityPhaseStep::Reduce,
            }
        },
    }
}

/// What the relationship structural gate decides.
#[derive(Debug, Clone)]
pub enum RelationshipGateResult {
    Pass,
    Reject(String),
    /// The claim is not a relationship; it is redirected to `target`.
    Redirect { target: String, dimension_key: Option<String> },
    Uncertain(String),
}

/// A property claim derived from a relationship claim redirected to a property.
#[derive(Debug)]
pub struct DerivedPropertyClaim {
    pub subject_mention: Option<String>,
    pub object_mention: Option<String>,
    pub subject_entity_id: Option<String>,
    pub object_entity_id: Option<String>,
    pub predicate: String,
    pub value_text: String,
    pub value_json: JsonValue,
    pub primary_source_span_id: String,
    pub confidence: Score,
    pub risk_level: String,
}

/// The property claim derived from `claim` for `dimension_key`: its value is
/// the claim's object mention (empty when none), its predicate
/// `<dimension> = <value>`, its payload names the claim it came from, and it
/// is created at low risk.
pub open spec fn derived_ok(claim: ClaimRecord, dimension_key: Seq<char>, confidence: Score, d: DerivedPropertyClaim) -> bool {
    let value_text = match claim.object_mention {
        Some(m) => m@,
        None => Seq::empty(),
    };
    &&& opt_view(d.subject_mention) == opt_view(claim.subject_mention)
    &&& opt_view(d.object_mention) == opt_view(claim.object_mention)
    &&& opt_view(d.subject_entity_id) == opt_view(claim.subject_entity_id)
    &&& opt_view(d.object_entity_id) == opt_view(claim.object_entity_id)
    &&& d.value_text@ == value_text
    &&& d.predicate@ == dimension_key + " = "@ + value_text
    &&& d.value_json matches JsonValue::Object(m) && shallow_entries(m@) == seq![
        ("redirected_from_claim_id"@, JsonShallow::Str(claim.id@)),
    ]
    &&& d.primary_source_span_id@ == claim.primary_source_span_id@
    &&& d.confidence == confidence
    &&& d.risk_level@ == "low"@
}

/// The derivation of a redirect: a property claim when the redirect is to
/// `property_update` and names a dimension, else none.
pub open spec fn derivation_ok(
    claim: ClaimRecord,
    target: Seq<char>,
    dimension_key: Option<String>,
    confidence: Score,
    r: Option<DerivedPropertyClaim>,
) -> bool {
    if target == "property_update"@ && dimension_key is Some {
        r matches Some(d) && derived_ok(claim, dimension_key->0@, confidence, d)
    } else {
        r is None
    }
}

/// What a redirect derives: a property claim when it goes to a property and
/// names the dimension; a redirect elsewhere derives nothing (the claim stays
/// in the ledger only).
pub fn redirect_derivation(claim: &ClaimRecord, target: &str, dimension_key: &Option<String>, confidence: Score) -> (r:
    Option<DerivedPropertyClaim>)
    ensures
        derivation_ok(*claim, target@, *dimension_key, confidence, r),
{
    if !str_eq(target, "property_update") {
        return None;
    }
    let dim = match dimension_key {
        Some(d) => d,
        None => return None,
    };
    let value_text = match &claim.object_mention {
        Some(m) => m.clone(),
        None => String::new(),
    };
    let predicate = join3(dim.as_str(), " = ", value_text.as_str());
    let mut members: Vec<(String, JsonValue)> = Vec::new();
    members.push((owned("redirected_from_claim_id"), JsonValue::Str(claim.id.clone())));
    assert(shallow_entries(members@) =~= seq![("redirected_from_claim_id"@, JsonShallow::Str(claim.id@))]);
    Some(DerivedPropertyClaim {
        subject_mention: clone_opt(&claim.subject_mention),
        object_mention: clone_opt(&claim.object_mention),
        subject_entity_id: clone_opt(&claim.subject_entity_id),
        object_entity_id: clone_opt(&claim.object_entity_id),
        predicate,
        value_text,
        value_json: JsonValue::Object(members),
        primary_source_span_id: claim.primary_source_span_id.clone(),
        confidence,
        risk_level: owned("low"),
    })
}

/// What happens to a relationship claim next.
#[derive(Debug)]
pub enum RelationshipStep {
    /// It goes on to the relationship judge.
    ToJudge,
    /// Its status changes and it goes no further.
    Settle(ClaimTransition),
    /// Its status becomes `redirected`, with the property claim it derives, if any.
    Redirect(Option<DerivedPropertyClaim>),
}

/// What the relationship gate leads to: a pass goes to the judge; a
/// rejection or an uncertain outcome settles the claim; a redirect derives
/// at the claim's own confidence.
pub fn relationship_gate_step(claim: &ClaimRecord, gate: &RelationshipGateResult) -> (s: RelationshipStep)
    ensures
        match *gate {
            RelationshipGateResult::Pass => s is ToJudge,
            RelationshipGateResult::Reject(_) => s == RelationshipStep::Settle(ClaimTransition::Reject),
            RelationshipGateResult::Uncertain(_) => s == RelationshipStep::Settle(ClaimTransition::MarkUncertain),
            RelationshipGateResult::Redirect { target, dimension_key } => s matches RelationshipStep::Redirect(d)
                && derivation_ok(*claim, target@, dimension_key, claim.confidence, d),
        },
{
    match gate {
        RelationshipGateResult::Pass => RelationshipStep::ToJudge,
        RelationshipGateResult::Reject(_) => RelationshipStep::Settle(ClaimTransition::Reject),
        RelationshipGateResult::Uncertain(_) => RelationshipStep::Settle(ClaimTransition::MarkUncertain),
        RelationshipGateResult::Redirect { target, dimension_key } => RelationshipStep::Redirect(
            redirect_derivation(claim, target.as_str(), dimension_key, claim.confidence),
        ),
    }
}

/// Sets `key` to a recorded number when present.
pub open spec fn number_inserted_if(es: Seq<(Seq<char>, JsonShallow)>, key: Seq<char>, o: Option<Score>) -> Seq<(Seq<char>, JsonShallow)> {
    match o {
        Some(n) => entries_inserted(es, key, confidence_or_zero(n)),
        None => es,
    }
}

/// The payload members of an accepted relationship claim: the judge's
/// normalized fields it gives, its confidence and its reason code.
pub open spec fn accept_fields(es: Seq<(Seq<char>, JsonShallow)>, o: JudgeOutput) -> Seq<(Seq<char>, JsonShallow)> {
    let e1 = inserted_if(es, "normalized_relation_group"@, o.normalized_relation_group);
    let e2 = inserted_if(e1, "normalized_relation_label"@, o.normalized_relation_label);
    let e3 = inserted_if(e2, "directionality"@, o.directionality);
    let e4 = inserted_if(e3, "current_state"@, o.current_state);
    let e5 = number_inserted_if(e4, "strength"@, o.strength);
    let e6 = inserted_if(e5, "polarity"@, o.polarity);
    let e7 = number_inserted_if(e6, "importance_score"@, o.importance_score);
    let e8 = entries_inserted(e7, "judge_confidence"@, confidence_or_zero(o.confidence));
    entries_inserted(e8, "judge_reason_code"@, JsonShallow::Str(o.reason_code@))
}

fn insert_number_if(value: &mut Vec<(String, JsonValue)>, key: &str, o: Option<Score>)
    ensures
        shallow_entries(final(value)@) == number_inserted_if(shallow_entries(old(value)@), key@, o),
{
    match o {
        Some(n) => insert_member(value, key, confidence_value(n)),
        None => {},
    }
}

/// The payload of an accepted relationship claim. `payload` is its
/// `value_json` as parsed (`None` when missing or not JSON, which records
/// as `null`); only an object takes the judge's fields.
pub open spec fn accepted_payload_ok(payload: Option<JsonValue>, o: JudgeOutput, r: JsonValue) -> bool {
    match payload {
        Some(JsonValue::Object(m)) => r matches JsonValue::Object(m2) && shallow_entries(m2@) == accept_fields(
            shallow_entries(m@),
            o,
        ),
        Some(v) => r == v,
        None => r == JsonValue::Null,
    }
}

/// Records an accepting judge's answer in a relationship claim's payload.
pub fn accepted_payload(payload: Option<JsonValue>, o: &JudgeOutput) -> (r: JsonValue)
    ensures
        accepted_payload_ok(payload, *o, r),
{
    match payload {
        Some(JsonValue::Object(m)) => {
            let mut value = m;
            insert_if(&mut value, "normalized_relation_group", &o.normalized_relation_group);
            insert_if(&mut value, "normalized_relation_label", &o.normalized_relation_label);
            insert_if(&mut value, "directionality", &o.directionality);
            insert_if(&mut value, "current_state", &o.current_state);
            insert_number_if(&mut value, "strength", o.strength);
            insert_if(&mut value, "polarity", &o.polarity);
            insert_number_if(&mut value, "importance_score", o.importance_score);
            insert_member(&mut value, "judge_confidence", confidence_value(o.confidence));
            insert_member(&mut value, "judge_reason_code", JsonValue::Str(o.reason_code.clone()));
            JsonValue::Object(value)
        },
        Some(v) => v,
        None => JsonValue::Null,
    }
}

/// What happens to a relationship claim once judged.
#[derive(Debug)]
pub enum RelationshipJudgedStep {
    /// Accepted, with its new payload: it goes to the relationship reducer.
    Accept(JsonValue),
    /// Its status changes and it goes no further.
    Settle(ClaimTransition),
    /// Its status becomes `redirected`, with the property claim it derives, if any.
    Redirect(Option<DerivedPropertyClaim>),
}

/// What the relationship judge's answer leads to. A failed judge rejects the
/// claim. An acceptance records the judge's fields; a rejection or an
/// uncertain answer settles the claim; a redirect (to `minor_event` unless it
/// names a target) derives at the judge's confidence.
pub fn relationship_judged_step(
    claim: &ClaimRecord,
    payload: Option<JsonValue>,
    judged: Result<JudgeOutput, String>,
) -> (s: RelationshipJudgedStep)
    ensures
        match judged {
            Err(_) => s == RelationshipJudgedStep::Settle(ClaimTransition::Reject),
            Ok(o) => match o.decision {
                JudgeDecision::Accept => s matches RelationshipJudgedStep::Accept(v) && accepted_payload_ok(payload, o, v),
                JudgeDecision::Reject => s == RelationshipJudgedStep::Settle(ClaimTransition::Reject),
                JudgeDecision::Uncertain => s == RelationshipJudgedStep::Settle(ClaimTransition::MarkUncertain),
                JudgeDecision::Redirect => s matches RelationshipJudgedStep::Redirect(d) && derivation_ok(
                    *claim,
                    match o.redirect_to {
                        Some(t) => t@,
                        None => "minor_event"@,
                    },
                    o.redirect_dimension_key,
                    o.confidence,
                    d,
                ),
            },
        },
{
    let o = match judged {
        Err(_) => return RelationshipJudgedStep::Settle(ClaimTransition::Reject),
        Ok(o) => o,
    };
    match o.decision {
        JudgeDecision::Accept => RelationshipJudgedStep::Accept(accepted_payload(payload, &o)),
        JudgeDecision::Reject => RelationshipJudgedStep::Settle(ClaimTransition::Reject),
        JudgeDecision::Uncertain => RelationshipJudgedStep::Settle(ClaimTransition::MarkUncertain),
        JudgeDecision::Redirect => {
            let target = match &o.redirect_to {
                Some(t) => t.clone(),
                None => owned("minor_event"),
            };
            RelationshipJudgedStep::Redirect(
                redirect_derivation(claim, target.as_str(), &o.redirect_dimension_key, o.confidence),
            )
        },
    }
}

/// Whether a referenced entity mention already names a resolved entity.
pub open spec fn has_resolved_entity(m: JsonValue) -> bool {
    str_member(m, "resolved_entity_id"@) matches Some(id) && !is_blank(id)
}

/// Whether a referenced entity mention is still to be looked up: it names a
/// mention and no resolved entity.
pub open spec fn is_pending_reference(m: JsonValue) -> bool {
    !has_resolved_entity(m) && str_member(m, "mention"@) is Some
}

/// The position and mention of each pending reference among `items`, in order.
pub open spec fn pending_references_spec(items: Seq<JsonValue>) -> Seq<(int, Seq<char>)>
    decreases items.len(),
{
    if items.len() == 0 {
        Seq::empty()
    } else {
        let rest = pending_references_spec(items.drop_last());
        if is_pending_reference(items.last()) {
            rest.push(((items.len() - 1) as int, str_member(items.last(), "mention"@)->0))
        } else {
            rest
        }
    }
}

/// The referenced entity mentions among a knowledge payload's members.
pub open spec fn reference_items(members: Seq<(String, JsonValue)>) -> Option<Seq<JsonValue>> {
    match member_index(members, "referenced_entity_mentions"@) {
        Some(a) => match members[a].1 {
            JsonValue::Array(items) => Some(items@),
            _ => None,
        },
        None => None,
    }
}

/// The views of position-mention pairs.
pub open spec fn position_views(v: Seq<(usize, String)>) -> Seq<(int, Seq<char>)> {
    v.map_values(|p: (usize, String)| (p.0 as int, p.1@))
}

/// The references of a knowledge claim's payload still to be looked up: the
/// position and mention of each, in order.
pub fn pending_references(members: &Vec<(String, JsonValue)>) -> (r: Vec<(usize, String)>)
    ensures
        position_views(r@) == match reference_items(members@) {
            Some(items) => pending_references_spec(items),
            None => Seq::empty(),
        },
{
    let mut out: Vec<(usize, String)> = Vec::new();
    let a = match member_position(members, "referenced_entity_mentions") {
        Some(a) => a,
        None => {
            assert(position_views(out@) =~= Seq::<(int, Seq<char>)>::empty());
            return out;
        },
    };
    let items = match &members[a].1 {
        JsonValue::Array(items) => items,
        _ => {
            assert(position_views(out@) =~= Seq::<(int, Seq<char>)>::empty());
            return out;
        },
    };
    let mut i: usize = 0;
    while i < items.len()
        invariant
            i <= items@.len(),
            position_views(out@) == pending_references_spec(items@.subrange(0, i as int)),
        decreases items.len() - i,
    {
        let ghost pre = items@.subrange(0, i as int);
        assert(items@.subrange(0, i + 1).drop_last() =~= pre);
        assert(items@.subrange(0, i + 1).last() == items@[i as int]);
        let item = &items[i];
        let resolved = match get_str(item, "resolved_entity_id") {
            Some(id) => !str_is_blank(id.as_str()),
            None => false,
        };
        if !resolved {
            match get_str(item, "mention") {
                Some(name) => {
                    let ghost before = out@;
                    out.push((i, name.clone()));
                    assert(position_views(out@) =~= position_views(before).push((i as int, name@)));
                },
                None => {},
            }
        }
        i = i + 1;
    }
    assert(items@.subrange(0, items@.len() as int) =~= items@);
    out
}

/// A referenced entity mention with its resolved entity recorded.
pub open spec fn resolved_item_ok(old_item: JsonValue, entity_id: Seq<char>, new_item: JsonValue) -> bool {
    old_item matches JsonValue::Object(m) && new_item matches JsonValue::Object(m2) && shallow_entries(m2@)
        == entries_inserted(shallow_entries(m@), "resolved_entity_id"@, JsonShallow::Str(entity_id))
}

/// Whether `members` are `old` with the reference at `position` resolved to `entity_id`.
pub open spec fn reference_recorded(
    old: Seq<(String, JsonValue)>,
    position: int,
    entity_id: Seq<char>,
    members: Seq<(String, JsonValue)>,
) -> bool {
    match member_index(old, "referenced_entity_mentions"@) {
        Some(a) => old[a].1 matches JsonValue::Array(items) && 0 <= position < items@.len()
            && items@[position] is Object && {
            &&& members.len() == old.len()
            &&& forall|j: int| 0 <= j < old.len() && j != a ==> #[trigger] members[j] == old[j]
            &&& members[a].0 == old[a].0
            &&& members[a].1 matches JsonValue::Array(items2) && items2@.len() == items@.len() && (forall|k: int|
                0 <= k < items@.len() && k != position ==> #[trigger] items2@[k] == items@[k]) && resolved_item_ok(
                items@[position],
                entity_id,
                items2@[position],
            )
        },
        None => false,
    }
}

/// Records the entity found for the reference at `position` of a knowledge
/// payload. It is recorded only where the reference is an object in the
/// payload's list of referenced mentions; the answer says whether it was.
pub fn record_resolved_reference(members: &mut Vec<(String, JsonValue)>, position: usize, entity_id: &str) -> (r: bool)
    ensures
        r ==> reference_recorded(old(members)@, position as int, entity_id@, final(members)@),
        !r ==> final(members)@ == old(members)@,
        r <==> match reference_items(old(members)@) {
            Some(items) => 0 <= position < items.len() && items[position as int] is Object,
            None => false,
        },
{
    let ghost old_members = members@;
    let a = match member_position(members, "referenced_entity_mentions") {
        Some(a) => a,
        None => return false,
    };
    let fits = match &members[a].1 {
        JsonValue::Array(items) => position < items.len() && items[position].is_object(),
        _ => false,
    };
    if !fits {
        return false;
    }
    let (key, list) = members.remove(a);
    assert((key, list) == old_members[a as int]);
    let mut items = match list {
        JsonValue::Array(items) => items,
        _ => {
            assert(false);
            Vec::new()
        },
    };
    let ghost old_items = items@;
    let item = items.remove(position);
    let new_item = match item {
        JsonValue::Object(m) => {
            let mut m = m;
            insert_member(&mut m, "resolved_entity_id", JsonValue::Str(owned(entity_id)));
            JsonValue::Object(m)
        },
        other => other,
    };
    assert(resolved_item_ok(old_items[position as int], entity_id@, new_item));
    items.insert(position, new_item);
    assert(items@.len() == old_items.len());
    assert forall|k: int| 0 <= k < old_items.len() && k != position implies #[trigger] items@[k] == old_items[k] by {
        if k < position {
        } else {
        }
    }
    members.insert(a, (key, JsonValue::Array(items)));
    assert forall|j: int| 0 <= j < old_members.len() && j != a implies #[trigger] members@[j] == old_members[j] by {
        if j < a {
        } else {
        }
    }
    true
}

/// A completed processing run of a chapter: the text hash, prompt version
/// and schema version it ran with.
#[derive(Debug, Clone)]
pub struct CompletedRun {
    pub text_hash: String,
    pub prompt_version: String,
    pub schema_version: i64,
}

/// The prompt version of this pipeline.
pub open spec fn prompt_version_spec() -> Seq<char> {
    "v1"@
}

/// The prompt version of this pipeline.
pub fn prompt_version() -> (r: &'static str)
    ensures
        r@ == prompt_version_spec(),
{
    "v1"
}

/// The schema version of this pipeline.
pub const SCHEMA_VERSION: i64 = 1;

/// Whether a completed run already processed the chapter's current text with
/// the current prompt and schema.
pub open spec fn already_processed_spec(runs: Seq<CompletedRun>, text_hash: Seq<char>, prompt_version: Seq<char>, schema_version: i64) -> bool {
    exists|i: int|
        0 <= i < runs.len() && runs[i].text_hash@ == text_hash && runs[i].prompt_version@ == prompt_version
            && #[trigger] runs[i].schema_version == schema_version
}

/// Whether the chapter is to be processed: it is skipped, and its run ends at
/// once, when a completed run already processed the same text with the same
/// prompt and schema versions; any change of text, prompt or schema processes
/// it again.
pub fn chapter_needs_processing(runs: &[CompletedRun], text_hash: &str, prompt_version: &str, schema_version: i64) -> (r: bool)
    ensures
        r == !already_processed_spec(runs@, text_hash@, prompt_version@, schema_version),
{
    let mut i: usize = 0;
    while i < runs.len()
        invariant
            i <= runs@.len(),
            forall|j: int|
                0 <= j < i ==> !(runs@[j].text_hash@ == text_hash@ && runs@[j].prompt_version@ == prompt_version@
                    && #[trigger] runs@[j].schema_version == schema_version),
        decreases runs.len() - i,
    {
        if str_eq(runs[i].text_hash.as_str(), text_hash) && str_eq(runs[i].prompt_version.as_str(), prompt_version)
            && runs[i].schema_version == schema_version {
            assert(runs@[i as int].schema_version == schema_version);
            return false;
        }
        i = i + 1;
    }
    true
}

/// The steps after the map phase of a chapter: none when it succeeded; when
/// it failed, every location claim of the chapter is marked uncertain, and
/// the phases before it keep what they wrote.
pub open spec fn map_phase_steps_ok(claim_ids: Seq<String>, failed: bool, steps: Seq<LifecycleStep>) -> bool {
    if failed {
        steps.len() == claim_ids.len() && forall|i: int|
            0 <= i < steps.len() ==> is_transition(#[trigger] steps[i], claim_ids[i]@, ClaimTransition::MarkUncertain)
    } else {
        steps.len() == 0
    }
}

/// What the chapter does once its map phase has run, given its outcome.
pub fn after_map_phase(location_claim_ids: &[String], outcome: &Result<(), String>) -> (r: Vec<LifecycleStep>)
    ensures
        map_phase_steps_ok(location_claim_ids@, outcome is Err, r@),
{
    let mut steps: Vec<LifecycleStep> = Vec::new();
    if outcome.is_ok() {
        return steps;
    }
    let mut i: usize = 0;
    while i < location_claim_ids.len()
        invariant
            i <= location_claim_ids@.len(),
            steps@.len() == i,
            forall|j: int|
                0 <= j < i ==> is_transition(#[trigger] steps@[j], location_claim_ids@[j]@, ClaimTransition::MarkUncertain),
        decreases location_claim_ids.len() - i,
    {
        steps.push(LifecycleStep::Transition { claim_id: location_claim_ids[i].clone(), transition: ClaimTransition::MarkUncertain });
        i = i + 1;
    }
    steps
}

} // verus!
