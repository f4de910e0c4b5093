//! The decisions of the chapter pipeline that need no storage: the
//! relationship judges, the evidence a claim carries, and how judge and gate
//! outcomes are recorded in a claim's payload.
use vstd::prelude::*;
use crate::identity_decision::is_identity_claim_type_spec;
use crate::identity_judge::{IdentityJudgeDecision, IdentityJudgeOutput};
use crate::json::{
    entries_inserted, get_trimmed_str, insert_member, json_str, members_str, shallow, shallow_entries, trimmed_str_member, JsonNumber,
    JsonShallow, JsonValue,
};
use crate::knowledge_judge::{decision_debug_name, decision_name, KnowledgeCardAction, KnowledgeJudgeOutput};
use crate::ledger_payload::parsed_view;
use crate::map_conflict_judge::{MapConflictDecision, MapConflictJudgeOutput};
use crate::records::ClaimRecord;
use crate::score::{finite_key, Score};
use crate::text::{clone_opt, is_blank, opt_view, owned, str_eq, str_is_blank, trim, trim_str, string_views};
use crate::write_commands::views;

verus! {

/// The relationship judge's decision.
#[derive(Debug, Clone, Copy, PartialEq, Eq, Structural)]
pub enum JudgeDecision {
    Accept,
    Reject,
    Redirect,
    Uncertain,
}

/// What the relationship judge returns.
#[derive(Debug, Clone)]
pub struct JudgeOutput {
    pub decision: JudgeDecision,
    pub reason_code: String,
    pub confidence: Score,
    pub normalized_relation_group: Option<String>,
    pub normalized_relation_label: Option<String>,
    pub directionality: Option<String>,
    pub current_state: Option<String>,
    pub strength: Option<Score>,
    pub polarity: Option<String>,
    pub importance_score: Option<Score>,
    pub redirect_to: Option<String>,
    pub redirect_dimension_key: Option<String>,
    pub explanation_for_log: String,
}

/// A copy of a relationship judge output.
pub fn clone_judge_output(o: &JudgeOutput) -> (r: JudgeOutput)
    ensures
        r == *o,
{
    JudgeOutput {
        decision: o.decision,
        reason_code: o.reason_code.clone(),
        confidence: o.confidence,
        normalized_relation_group: clone_opt(&o.normalized_relation_group),
        normalized_relation_label: clone_opt(&o.normalized_relation_label),
        directionality: clone_opt(&o.directionality),
        current_state: clone_opt(&o.current_state),
        strength: o.strength,
        polarity: clone_opt(&o.polarity),
        importance_score: o.importance_score,
        redirect_to: clone_opt(&o.redirect_to),
        redirect_dimension_key: clone_opt(&o.redirect_dimension_key),
        explanation_for_log: o.explanation_for_log.clone(),
    }
}

/// A relationship judge: what it answers for a relationship claim.
pub trait Judge {
    fn judge(&self, claim: &ClaimRecord) -> Result<JudgeOutput, String>;
}

/// Relationship judge that holds every claim as uncertain.
pub struct DefaultJudge;

impl DefaultJudge {
    /// The default judge.
    pub fn new() -> (r: DefaultJudge) {
        DefaultJudge
    }
}

impl Judge for DefaultJudge {
    /// Its answer for any claim: uncertain, nothing normalized, confidence zero.
    fn judge(&self, claim: &ClaimRecord) -> (r: Result<JudgeOutput, String>)
        ensures
            r matches Ok(o) && {
                &&& o.decision == JudgeDecision::Uncertain
                &&& o.reason_code@ == "default_judge"@
                &&& o.confidence == Score::zero_value()
                &&& o.normalized_relation_group is None
                &&& o.normalized_relation_label is None
                &&& o.directionality is None
                &&& o.current_state is None
                &&& o.strength is None
                &&& o.polarity is None
                &&& o.importance_score is None
                &&& o.redirect_to is None
                &&& o.redirect_dimension_key is None
                &&& o.explanation_for_log@ == "Default judge: no real AI judge wired yet"@
            },
    {
        Ok(JudgeOutput {
            decision: JudgeDecision::Uncertain,
            reason_code: owned("default_judge"),
            confidence: Score::zero(),
            normalized_relation_group: None,
            normalized_relation_label: None,
            directionality: None,
            current_state: None,
            strength: None,
            polarity: None,
            importance_score: None,
            redirect_to: None,
            redirect_dimension_key: None,
            explanation_for_log: owned("Default judge: no real AI judge wired yet"),
        })
    }
}

/// Relationship judge that answers every claim with a configured output.
pub struct MockJudge {
    pub output: JudgeOutput,
}

impl MockJudge {
    /// A judge answering with `output`.
    pub fn new(output: JudgeOutput) -> (r: MockJudge)
        ensures
            r.output == output,
    {
        MockJudge { output }
    }
}

impl Judge for MockJudge {
    /// Its answer for any claim: the configured output.
    fn judge(&self, claim: &ClaimRecord) -> (r: Result<JudgeOutput, String>)
        ensures
            r == Ok::<JudgeOutput, String>(self.output),
    {
        Ok(clone_judge_output(&self.output))
    }
}

/// The evidence span ids of a claim: its primary span id, trimmed, when not blank.
pub open spec fn claim_evidence_spec(claim: ClaimRecord) -> Seq<Seq<char>> {
    if is_blank(claim.primary_source_span_id@) {
        Seq::empty()
    } else {
        seq![trim(claim.primary_source_span_id@)]
    }
}

/// The evidence span ids of a claim.
pub fn claim_evidence_span_ids(claim: &ClaimRecord) -> (r: Vec<String>)
    ensures
        views(r@) == claim_evidence_spec(*claim),
{
    let mut v: Vec<String> = Vec::new();
    if !str_is_blank(claim.primary_source_span_id.as_str()) {
        v.push(trim_str(claim.primary_source_span_id.as_str()));
    }
    assert(views(v@) =~= claim_evidence_spec(*claim));
    v
}

/// Whether a claim type is of the identity domain.
pub fn is_identity_claim_type(claim_type: &str) -> (r: bool)
    ensures
        r == is_identity_claim_type_spec(claim_type@),
{
    str_eq(claim_type, "identity_reveal") || str_eq(claim_type, "entity_merge_candidate") || str_eq(
        claim_type,
        "entity_split_candidate",
    ) || str_eq(claim_type, "not_same_identity")
}

/// The trimmed string member `key` when it is not blank.
pub fn required_json_string(value: &JsonValue, key: &str) -> (r: Option<String>)
    ensures
        opt_view(r) == trimmed_str_member(*value, key@),
{
    get_trimmed_str(value, key)
}

/// Whether `j` is an array of the strings `texts`.
pub open spec fn is_text_array(j: JsonShallow, texts: Seq<Seq<char>>) -> bool {
    j matches JsonShallow::Array(items) && items.len() == texts.len() && forall|i: int|
        0 <= i < items.len() ==> #[trigger] json_str(items[i]) == Some(texts[i])
}

fn text_array(texts: &Vec<String>) -> (r: JsonValue)
    ensures
        is_text_array(shallow(r), string_views(texts@)),
{
    let mut items: Vec<JsonValue> = Vec::new();
    let mut i: usize = 0;
    while i < texts.len()
        invariant
            i <= texts@.len(),
            items@.len() == i,
            forall|k: int| 0 <= k < i ==> #[trigger] json_str(items@[k]) == Some(texts@[k]@),
        decreases texts.len() - i,
    {
        items.push(JsonValue::Str(texts[i].clone()));
        i = i + 1;
    }
    JsonValue::Array(items)
}

/// Records the claim's evidence span ids in its payload members.
pub fn insert_claim_evidence_span_ids(value: &mut Vec<(String, JsonValue)>, claim: &ClaimRecord)
    ensures
        exists|j: JsonShallow|
            is_text_array(j, claim_evidence_spec(*claim)) && shallow_entries(final(value)@) == entries_inserted(
                shallow_entries(old(value)@),
                "evidence_span_ids"@,
                j,
            ),
{
    let ids = claim_evidence_span_ids(claim);
    let arr = text_array(&ids);
    assert(string_views(ids@) == views(ids@));
    let ghost j = shallow(arr);
    insert_member(value, "evidence_span_ids", arr);
    assert(is_text_array(j, claim_evidence_spec(*claim)));
}

/// Records a map gate outcome in a claim's payload members.
pub fn merge_map_gate_reason(value: &mut Vec<(String, JsonValue)>, decision: &str, reason: &str)
    ensures
        shallow_entries(final(value)@) == entries_inserted(
            entries_inserted(shallow_entries(old(value)@), "judge_decision"@, JsonShallow::Str(decision@)),
            "reason_code"@,
            JsonShallow::Str(reason@),
        ),
        members_str(final(value)@, "judge_decision"@) == Some(decision@),
        members_str(final(value)@, "reason_code"@) == Some(reason@),
{
    insert_member(value, "judge_decision", JsonValue::Str(owned(decision)));
    proof {
        reveal_strlit("judge_decision");
        reveal_strlit("reason_code");
        assert("reason_code"@.len() != "judge_decision"@.len());
    }
    insert_member(value, "reason_code", JsonValue::Str(owned(reason)));
}

/// The name a map decision is recorded under.
pub open spec fn map_decision_name(d: MapConflictDecision) -> Seq<char> {
    match d {
        MapConflictDecision::Accept => "accept"@,
        MapConflictDecision::Conflict => "conflict"@,
        MapConflictDecision::Uncertain => "uncertain"@,
        MapConflictDecision::Reject => "reject"@,
    }
}

fn map_decision_str(d: MapConflictDecision) -> (r: &'static str)
    ensures
        r@ == map_decision_name(d),
{
    match d {
        MapConflictDecision::Accept => "accept",
        MapConflictDecision::Conflict => "conflict",
        MapConflictDecision::Uncertain => "uncertain",
        MapConflictDecision::Reject => "reject",
    }
}

/// An optional string, or `null`.
pub open spec fn opt_shallow(o: Option<String>) -> JsonShallow {
    match o {
        Some(s) => JsonShallow::Str(s@),
        None => JsonShallow::Null,
    }
}

fn opt_json_value(o: &Option<String>) -> (r: JsonValue)
    ensures
        shallow(r) == opt_shallow(*o),
{
    match o {
        Some(s) => JsonValue::Str(s.clone()),
        None => JsonValue::Null,
    }
}

/// A number that is not an integer literal.
pub open spec fn float_shallow(s: Score) -> JsonShallow {
    JsonShallow::Number(JsonNumber { value: s, integer: None })
}

/// The map judge's output as its JSON serialization records it.
pub open spec fn map_output_json_ok(j: JsonShallow, o: MapConflictJudgeOutput) -> bool {
    j matches JsonShallow::Object(m) && shallow_entries(m) == seq![
        ("decision"@, JsonShallow::Str(map_decision_name(o.decision))),
        ("normalized_edge_type"@, opt_shallow(o.normalized_edge_type)),
        ("normalized_direction_hint"@, opt_shallow(o.normalized_direction_hint)),
        ("normalized_distance_hint"@, opt_shallow(o.normalized_distance_hint)),
        ("conflict_type"@, opt_shallow(o.conflict_type)),
        ("reason_code"@, JsonShallow::Str(o.reason_code@)),
        ("confidence"@, float_shallow(o.confidence)),
        ("explanation_for_log"@, JsonShallow::Str(o.explanation_for_log@)),
    ]
}

/// The map judge's output as a JSON object.
pub fn map_output_json(o: &MapConflictJudgeOutput) -> (r: JsonValue)
    ensures
        map_output_json_ok(shallow(r), *o),
{
    let mut m: Vec<(String, JsonValue)> = Vec::new();
    m.push((owned("decision"), JsonValue::Str(owned(map_decision_str(o.decision)))));
    m.push((owned("normalized_edge_type"), opt_json_value(&o.normalized_edge_type)));
    m.push((owned("normalized_direction_hint"), opt_json_value(&o.normalized_direction_hint)));
    m.push((owned("normalized_distance_hint"), opt_json_value(&o.normalized_distance_hint)));
    m.push((owned("conflict_type"), opt_json_value(&o.conflict_type)));
    m.push((owned("reason_code"), JsonValue::Str(o.reason_code.clone())));
    m.push((owned("confidence"), JsonValue::Number(JsonNumber { value: o.confidence, integer: None })));
    m.push((owned("explanation_for_log"), JsonValue::Str(o.explanation_for_log.clone())));
    assert(shallow_entries(m@) =~= seq![
        ("decision"@, JsonShallow::Str(map_decision_name(o.decision))),
        ("normalized_edge_type"@, opt_shallow(o.normalized_edge_type)),
        ("normalized_direction_hint"@, opt_shallow(o.normalized_direction_hint)),
        ("normalized_distance_hint"@, opt_shallow(o.normalized_distance_hint)),
        ("conflict_type"@, opt_shallow(o.conflict_type)),
        ("reason_code"@, JsonShallow::Str(o.reason_code@)),
        ("confidence"@, float_shallow(o.confidence)),
        ("explanation_for_log"@, JsonShallow::Str(o.explanation_for_log@)),
    ]);
    JsonValue::Object(m)
}

/// Sets `key` to the string when it is present.
pub open spec fn inserted_if(es: Seq<(Seq<char>, JsonShallow)>, key: Seq<char>, o: Option<String>) -> Seq<(Seq<char>, JsonShallow)> {
    match o {
        Some(s) => entries_inserted(es, key, JsonShallow::Str(s@)),
        None => es,
    }
}

/// Sets `key` to the string when it is present.
pub fn insert_if(value: &mut Vec<(String, JsonValue)>, key: &str, o: &Option<String>)
    ensures
        shallow_entries(final(value)@) == inserted_if(shallow_entries(old(value)@), key@, *o),
{
    match o {
        Some(s) => insert_member(value, key, JsonValue::Str(s.clone())),
        None => {},
    }
}

/// The payload members after the map judge's fields, up to its reason code.
pub open spec fn map_judge_fields(es: Seq<(Seq<char>, JsonShallow)>, o: MapConflictJudgeOutput) -> Seq<(Seq<char>, JsonShallow)> {
    let e1 = entries_inserted(es, "judge_decision"@, JsonShallow::Str(map_decision_name(o.decision)));
    let e2 = inserted_if(e1, "normalized_edge_type"@, o.normalized_edge_type);
    let e3 = inserted_if(e2, "normalized_direction_hint"@, o.normalized_direction_hint);
    let e4 = inserted_if(e3, "normalized_distance_hint"@, o.normalized_distance_hint);
    let e5 = inserted_if(e4, "conflict_type"@, o.conflict_type);
    entries_inserted(e5, "reason_code"@, JsonShallow::Str(o.reason_code@))
}

/// Records the map judge's answer in a claim's payload members: its decision,
/// the normalized fields it gives, its reason code, its confidence and the
/// whole answer. A confidence that is not finite fails, after the fields
/// before it are recorded.
pub fn merge_map_judge_output(value: &mut Vec<(String, JsonValue)>, output: &MapConflictJudgeOutput) -> (r: Result<(), String>)
    ensures
        finite_key(output.confidence) <==> r is Ok,
        r matches Err(e) ==> e@ == "invalid map judge confidence"@ && shallow_entries(final(value)@) == map_judge_fields(
            shallow_entries(old(value)@),
            *output,
        ),
        r is Ok ==> exists|j: JsonShallow|
            map_output_json_ok(j, *output) && shallow_entries(final(value)@) == entries_inserted(
                entries_inserted(
                    map_judge_fields(shallow_entries(old(value)@), *output),
                    "judge_confidence"@,
                    float_shallow(output.confidence),
                ),
                "judge_output"@,
                j,
            ),
{
    insert_member(value, "judge_decision", JsonValue::Str(owned(map_decision_str(output.decision))));
    insert_if(value, "normalized_edge_type", &output.normalized_edge_type);
    insert_if(value, "normalized_direction_hint", &output.normalized_direction_hint);
    insert_if(value, "normalized_distance_hint", &output.normalized_distance_hint);
    insert_if(value, "conflict_type", &output.conflict_type);
    insert_member(value, "reason_code", JsonValue::Str(output.reason_code.clone()));
    if !output.confidence.is_finite() {
        return Err(owned("invalid map judge confidence"));
    }
    insert_member(value, "judge_confidence", JsonValue::Number(JsonNumber { value: output.confidence, integer: None }));
    let j = map_output_json(output);
    let ghost js = shallow(j);
    insert_member(value, "judge_output", j);
    assert(map_output_json_ok(js, *output));
    Ok(())
}

/// The members of a payload object, or none when the payload is absent or
/// not an object.
pub open spec fn object_members_spec(parsed: Option<JsonValue>) -> Seq<(String, JsonValue)> {
    match parsed {
        Some(JsonValue::Object(m)) => m@,
        _ => Seq::empty(),
    }
}

/// The members of a claim's payload: `parsed` is the payload as parsed,
/// `None` when it is missing or does not parse; anything but an object
/// gives no members.
pub fn parse_value_json_object(parsed: Option<JsonValue>) -> (r: Vec<(String, JsonValue)>)
    ensures
        r@ == object_members_spec(parsed),
{
    match parsed {
        Some(JsonValue::Object(m)) => m,
        _ => Vec::new(),
    }
}

/// A confidence as recorded: the number itself when finite, else the integer zero.
pub open spec fn confidence_or_zero(s: Score) -> JsonShallow {
    if finite_key(s) {
        float_shallow(s)
    } else {
        JsonShallow::Number(JsonNumber { value: Score::zero_value(), integer: Some(0) })
    }
}

/// A confidence as recorded: the number itself when finite, else the integer zero.
pub fn confidence_value(s: Score) -> (r: JsonValue)
    ensures
        shallow(r) == confidence_or_zero(s),
{
    if s.is_finite() {
        JsonValue::Number(JsonNumber { value: s, integer: None })
    } else {
        JsonValue::Number(JsonNumber { value: Score::zero(), integer: Some(0) })
    }
}

/// The name a card action is recorded under.
pub open spec fn card_action_name(a: KnowledgeCardAction) -> Seq<char> {
    match a {
        KnowledgeCardAction::UseExistingCard => "UseExistingCard"@,
        KnowledgeCardAction::CreateNewCard => "CreateNewCard"@,
        KnowledgeCardAction::Uncertain => "Uncertain"@,
    }
}

fn card_action_str(a: KnowledgeCardAction) -> (r: &'static str)
    ensures
        r@ == card_action_name(a),
{
    match a {
        KnowledgeCardAction::UseExistingCard => "UseExistingCard",
        KnowledgeCardAction::CreateNewCard => "CreateNewCard",
        KnowledgeCardAction::Uncertain => "Uncertain",
    }
}

/// The payload members after recording the knowledge judge's answer.
pub open spec fn knowledge_judge_fields(es: Seq<(Seq<char>, JsonShallow)>, o: KnowledgeJudgeOutput) -> Seq<(Seq<char>, JsonShallow)> {
    let e1 = entries_inserted(es, "judge_decision"@, JsonShallow::Str(decision_name(o.decision)));
    let e2 = entries_inserted(e1, "card_action"@, JsonShallow::Str(card_action_name(o.card_action)));
    let e3 = inserted_if(e2, "target_card_id"@, o.target_card_id);
    let e4 = entries_inserted(e3, "assertion_status"@, JsonShallow::Str(o.assertion_status@));
    let e5 = entries_inserted(e4, "judge_confidence"@, confidence_or_zero(o.confidence));
    let e6 = entries_inserted(e5, "reason_code"@, JsonShallow::Str(o.reason_code@));
    entries_inserted(e6, "explanation_for_log"@, JsonShallow::Str(o.explanation_for_log@))
}

/// Records the knowledge judge's answer in a claim's payload members.
pub fn merge_knowledge_judge_output(value: &mut Vec<(String, JsonValue)>, output: &KnowledgeJudgeOutput)
    ensures
        shallow_entries(final(value)@) == knowledge_judge_fields(shallow_entries(old(value)@), *output),
{
    insert_member(value, "judge_decision", JsonValue::Str(owned(decision_debug_name(output.decision))));
    insert_member(value, "card_action", JsonValue::Str(owned(card_action_str(output.card_action))));
    insert_if(value, "target_card_id", &output.target_card_id);
    insert_member(value, "assertion_status", JsonValue::Str(output.assertion_status.clone()));
    insert_member(value, "judge_confidence", confidence_value(output.confidence));
    insert_member(value, "reason_code", JsonValue::Str(output.reason_code.clone()));
    insert_member(value, "explanation_for_log", JsonValue::Str(output.explanation_for_log.clone()));
}

/// The name an identity decision is recorded under.
pub open spec fn identity_decision_name(d: IdentityJudgeDecision) -> Seq<char> {
    match d {
        IdentityJudgeDecision::Merge => "merge"@,
        IdentityJudgeDecision::PossibleSameIdentity => "possible_same_identity"@,
        IdentityJudgeDecision::NotSameIdentity => "not_same_identity"@,
        IdentityJudgeDecision::Reject => "reject"@,
        IdentityJudgeDecision::Uncertain => "uncertain"@,
        IdentityJudgeDecision::SplitRequired => "split_required"@,
    }
}

fn identity_decision_str(d: IdentityJudgeDecision) -> (r: &'static str)
    ensures
        r@ == identity_decision_name(d),
{
    match d {
        IdentityJudgeDecision::Merge => "merge",
        IdentityJudgeDecision::PossibleSameIdentity => "possible_same_identity",
        IdentityJudgeDecision::NotSameIdentity => "not_same_identity",
        IdentityJudgeDecision::Reject => "reject",
        IdentityJudgeDecision::Uncertain => "uncertain",
        IdentityJudgeDecision::SplitRequired => "split_required",
    }
}

/// The payload members after recording the identity judge's answer, up to
/// its explanation; its property conflicts and migration hint follow.
pub open spec fn identity_judge_fields(es: Seq<(Seq<char>, JsonShallow)>, o: IdentityJudgeOutput) -> Seq<(Seq<char>, JsonShallow)> {
    let e1 = entries_inserted(es, "judge_decision"@, JsonShallow::Str(identity_decision_name(o.decision)));
    let e2 = entries_inserted(e1, "judge_confidence"@, confidence_or_zero(o.confidence));
    let e3 = entries_inserted(e2, "reason_code"@, JsonShallow::Str(o.reason_code@));
    let e4 = entries_inserted(e3, "link_type"@, JsonShallow::Str(o.link_type@));
    let e5 = entries_inserted(e4, "survivor_hint"@, JsonShallow::Str(o.survivor_hint@));
    entries_inserted(e5, "explanation_for_log"@, JsonShallow::Str(o.explanation_for_log@))
}

/// Records the identity judge's answer in a claim's payload members.
pub fn merge_identity_judge_output(value: &mut Vec<(String, JsonValue)>, output: &IdentityJudgeOutput)
    ensures
        exists|j: JsonShallow|
            is_text_array(j, string_views(output.property_conflicts@)) && shallow_entries(final(value)@)
                == entries_inserted(
                entries_inserted(identity_judge_fields(shallow_entries(old(value)@), *output), "property_conflicts"@, j),
                "relationship_migration_hint"@,
                JsonShallow::Str(output.relationship_migration_hint@),
            ),
{
    insert_member(value, "judge_decision", JsonValue::Str(owned(identity_decision_str(output.decision))));
    insert_member(value, "judge_confidence", confidence_value(output.confidence));
    insert_member(value, "reason_code", JsonValue::Str(output.reason_code.clone()));
    insert_member(value, "link_type", JsonValue::Str(output.link_type.clone()));
    insert_member(value, "survivor_hint", JsonValue::Str(output.survivor_hint.clone()));
    insert_member(value, "explanation_for_log", JsonValue::Str(output.explanation_for_log.clone()));
    let arr = text_array(&output.property_conflicts);
    let ghost j = shallow(arr);
    insert_member(value, "property_conflicts", arr);
    insert_member(value, "relationship_migration_hint", JsonValue::Str(output.relationship_migration_hint.clone()));
}

/// Records an identity gate outcome in a claim's payload members.
pub fn merge_identity_gate_reason(value: &mut Vec<(String, JsonValue)>, gate_decision: &str, reason: &str)
    ensures
        shallow_entries(final(value)@) == entries_inserted(
            entries_inserted(shallow_entries(old(value)@), "judge_decision"@, JsonShallow::Str(gate_decision@)),
            "gate_reason"@,
            JsonShallow::Str(reason@),
        ),
        members_str(final(value)@, "judge_decision"@) == Some(gate_decision@),
        members_str(final(value)@, "gate_reason"@) == Some(reason@),
{
    insert_member(value, "judge_decision", JsonValue::Str(owned(gate_decision)));
    proof {
        reveal_strlit("judge_decision");
        reveal_strlit("gate_reason");
        assert("gate_reason"@.len() != "judge_decision"@.len());
    }
    insert_member(value, "gate_reason", JsonValue::Str(owned(reason)));
}

/// The fields the pipeline reads of a knowledge claim.
#[derive(Debug, Clone)]
pub struct KnowledgePipelineClaimFields {
    pub category: String,
    pub topic: String,
    pub assertion_text: String,
    pub status_hint: Option<String>,
}

/// What reading a knowledge claim's fields gives: its category, its topic
/// (display, else raw), its assertion text (the payload's, else the claim's
/// value text) and its status hint.
pub open spec fn knowledge_fields_ok(
    claim: ClaimRecord,
    parsed: Result<JsonValue, Seq<char>>,
    r: Result<KnowledgePipelineClaimFields, String>,
) -> bool {
    if claim.value_json is None {
        r matches Err(e) && e@ == "knowledge claim missing value_json"@
    } else {
        match parsed {
            Err(e) => r matches Err(x) && x@ == e,
            Ok(v) => {
                let topic = match trimmed_str_member(v, "topic_display"@) {
                    Some(t) => Some(t),
                    None => trimmed_str_member(v, "raw_topic"@),
                };
                let text = match trimmed_str_member(v, "assertion_text"@) {
                    Some(t) => Some(t),
                    None => opt_view(claim.value_text),
                };
                if trimmed_str_member(v, "category"@) is None {
                    r matches Err(e) && e@ == "knowledge claim missing category"@
                } else if topic is None {
                    r matches Err(e) && e@ == "knowledge claim missing topic"@
                } else if text is None {
                    r matches Err(e) && e@ == "knowledge claim missing assertion_text"@
                } else {
                    r matches Ok(f) && {
                        &&& Some(f.category@) == trimmed_str_member(v, "category"@)
                        &&& Some(f.topic@) == topic
                        &&& Some(f.assertion_text@) == text
                        &&& opt_view(f.status_hint) == trimmed_str_member(v, "status_hint"@)
                    }
                }
            },
        }
    }
}

/// Reads the fields the pipeline needs of a knowledge claim. `parsed` is
/// what parsing the claim's `value_json` gave; it is not read when there is none.
pub fn parse_knowledge_claim_value(claim: &ClaimRecord, parsed: Result<JsonValue, String>) -> (r: Result<
    KnowledgePipelineClaimFields,
    String,
>)
    ensures
        knowledge_fields_ok(*claim, parsed_view(parsed), r),
{
    if claim.value_json.is_none() {
        return Err(owned("knowledge claim missing value_json"));
    }
    let value = match parsed {
        Ok(v) => v,
        Err(e) => return Err(e),
    };
    let category = match required_json_string(&value, "category") {
        Some(c) => c,
        None => return Err(owned("knowledge claim missing category")),
    };
    let topic = match required_json_string(&value, "topic_display") {
        Some(t) => t,
        None => match required_json_string(&value, "raw_topic") {
            Some(t) => t,
            None => return Err(owned("knowledge claim missing topic")),
        },
    };
    let assertion_text = match required_json_string(&value, "assertion_text") {
        Some(t) => t,
        None => match &claim.value_text {
            Some(t) => t.clone(),
            None => return Err(owned("knowledge claim missing assertion_text")),
        },
    };
    let status_hint = required_json_string(&value, "status_hint");
    Ok(KnowledgePipelineClaimFields { category, topic, assertion_text, status_hint })
}

} // verus!
