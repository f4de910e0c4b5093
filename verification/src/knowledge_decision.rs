//! The knowledge decision layer: a knowledge claim and the judge's answer
//! become a typed knowledge write, a no-write or a quarantine.
use vstd::prelude::*;
use crate::json::{get_array, get_number, get_trimmed_str, number_member, array_member, trimmed_str_member, JsonValue};
use crate::knowledge_judge::{KnowledgeCardAction, KnowledgeJudgeDecision, KnowledgeJudgeOutput};
use crate::ledger_payload::{
    claim_payload_object, ensure_claim_type, forbidden_check, not_a_message, parsed_view, payload_object_spec,
    reject_forbidden_fields, required_string,
};
use crate::records::ClaimRecord;
use crate::score::{Score, KEY_HALF};
use crate::text::{is_blank, join2, owned, str_eq, str_is_blank, views_of};
use crate::write_commands::{
    single_evidence, views, write_status_spec, KnowledgeAssertionStatus, KnowledgeWriteCardAction, KnowledgeWriteCommand,
    KnowledgeWriteDecision, KnowledgeWriteEntityRef, KnowledgeWriteProvenance,
};

verus! {

/// A ledger knowledge claim, with the fields of its payload read.
#[derive(Debug, Clone)]
pub struct LedgerKnowledgeClaim {
    pub claim_id: String,
    pub book_id: String,
    pub chapter_index: i64,
    pub category: String,
    pub topic_display: String,
    pub assertion_text: String,
    pub importance_score: Score,
    pub referenced_entities: Vec<KnowledgeWriteEntityRef>,
    pub primary_source_span_id: String,
    pub confidence: Score,
    pub status: String,
}

/// What the knowledge decision layer decides for one claim.
#[derive(Debug, Clone)]
pub enum KnowledgeDecision {
    Invalid(KnowledgeDecisionRejection),
    NoWrite(KnowledgeNoWrite),
    Quarantine(KnowledgeQuarantine),
    Write(KnowledgeWriteCommand),
}

/// A claim refused as invalid, with the reason.
#[derive(Debug, Clone)]
pub struct KnowledgeDecisionRejection {
    pub claim_id: String,
    pub reason: String,
}

/// A claim that leads to no write.
#[derive(Debug, Clone)]
pub struct KnowledgeNoWrite {
    pub claim_id: String,
    pub status: KnowledgeNoWriteStatus,
    pub reason_code: String,
}

/// Why a claim leads to no write.
#[derive(Debug, Clone, Copy, PartialEq, Eq, Structural)]
pub enum KnowledgeNoWriteStatus {
    Rejected,
    Uncertain,
}

/// A claim held back for review, with the reason.
#[derive(Debug, Clone)]
pub struct KnowledgeQuarantine {
    pub claim_id: String,
    pub reason: String,
}

/// Payload fields that belong to the judge, not to the ledger.
pub open spec fn knowledge_judge_fields() -> Seq<Seq<char>> {
    seq![
        "judge_decision"@, "card_action"@, "target_card_id"@, "assertion_status"@, "judge_confidence"@,
        "reason_code"@, "explanation_for_log"@,
    ]
}

/// The entity references of the payload: each mention with a resolved
/// entity id, and its role (`related` when none is given).
pub open spec fn referenced_entities_of(items: Seq<JsonValue>) -> Seq<(Seq<char>, Seq<char>)>
    decreases items.len(),
{
    if items.len() == 0 {
        Seq::empty()
    } else {
        let rest = referenced_entities_of(items.drop_last());
        let m = items.last();
        match trimmed_str_member(m, "resolved_entity_id"@) {
            Some(id) => rest.push(
                (
                    id,
                    match trimmed_str_member(m, "role"@) {
                        Some(role) => role,
                        None => "related"@,
                    },
                ),
            ),
            None => rest,
        }
    }
}

/// The entity references of a payload object.
pub open spec fn payload_references(object: JsonValue) -> Seq<(Seq<char>, Seq<char>)> {
    match array_member(object, "referenced_entity_mentions"@) {
        Some(items) => referenced_entities_of(items),
        None => Seq::empty(),
    }
}

/// The views of entity references.
pub open spec fn ref_views(refs: Seq<KnowledgeWriteEntityRef>) -> Seq<(Seq<char>, Seq<char>)> {
    refs.map_values(|r: KnowledgeWriteEntityRef| (r.entity_id@, r.role@))
}

/// The entity references of a payload object.
pub fn parse_referenced_entities(object: &JsonValue) -> (r: Vec<KnowledgeWriteEntityRef>)
    ensures
        ref_views(r@) == payload_references(*object),
{
    let items = match get_array(object, "referenced_entity_mentions") {
        Some(items) => items,
        None => {
            let r: Vec<KnowledgeWriteEntityRef> = Vec::new();
            assert(ref_views(r@) =~= Seq::<(Seq<char>, Seq<char>)>::empty());
            return r;
        },
    };
    let mut out: Vec<KnowledgeWriteEntityRef> = Vec::new();
    let mut i: usize = 0;
    while i < items.len()
        invariant
            i <= items@.len(),
            ref_views(out@) == referenced_entities_of(items@.subrange(0, i as int)),
        decreases items.len() - i,
    {
        let ghost before = out@;
        assert(items@.subrange(0, i + 1).drop_last() =~= items@.subrange(0, i as int));
        let mention = &items[i];
        match get_trimmed_str(mention, "resolved_entity_id") {
            Some(entity_id) => {
                let role = match get_trimmed_str(mention, "role") {
                    Some(role) => role,
                    None => owned("related"),
                };
                let r = KnowledgeWriteEntityRef { entity_id, role };
                out.push(r);
                assert(ref_views(out@) =~= ref_views(before).push((r.entity_id@, r.role@)));
            },
            None => {},
        }
        i = i + 1;
    }
    assert(items@.subrange(0, items@.len() as int) =~= items@);
    out
}

/// The topic of a payload: its `topic_display`, else its `raw_topic`.
pub open spec fn topic_of(object: JsonValue) -> Result<Seq<char>, Seq<char>> {
    match trimmed_str_member(object, "topic_display"@) {
        Some(t) => Ok(t),
        None => match trimmed_str_member(object, "raw_topic"@) {
            Some(t) => Ok(t),
            None => Err("knowledge"@ + " claim missing "@ + "raw_topic"@),
        },
    }
}

/// The assertion text: the payload's, else the claim's `value_text` when not blank.
pub open spec fn assertion_text_of(claim: ClaimRecord, object: JsonValue) -> Result<Seq<char>, Seq<char>> {
    match trimmed_str_member(object, "assertion_text"@) {
        Some(t) => Ok(t),
        None => match claim.value_text {
            Some(v) => if is_blank(v@) {
                Err("knowledge claim missing assertion_text"@)
            } else {
                Ok(v@)
            },
            None => Err("knowledge claim missing assertion_text"@),
        },
    }
}

/// The first failure in reading a knowledge claim's fields, if any: the
/// claim type, the payload object, the judge fields, the category, the topic
/// and the assertion text, in that order.
pub open spec fn knowledge_claim_error(claim: ClaimRecord, parsed: Result<JsonValue, Seq<char>>) -> Option<Seq<char>> {
    if claim.claim_type@ != "knowledge_assertion"@ {
        Some(not_a_message(claim, "knowledge_assertion"@))
    } else {
        match payload_object_spec(claim, parsed, "knowledge"@) {
            Err(e) => Some(e),
            Ok(object) => match forbidden_check(claim, object, "knowledge"@, "judge field"@, knowledge_judge_fields()) {
                Err(e) => Some(e),
                Ok(_) => if trimmed_str_member(object, "category"@) is None {
                    Some("knowledge"@ + " claim missing "@ + "category"@)
                } else if topic_of(object) is Err {
                    Some(topic_of(object)->Err_0)
                } else if assertion_text_of(claim, object) is Err {
                    Some(assertion_text_of(claim, object)->Err_0)
                } else {
                    None
                },
            },
        }
    }
}

/// The ledger claim read from a knowledge claim whose fields read without failure.
pub open spec fn knowledge_claim_matches(claim: ClaimRecord, object: JsonValue, c: LedgerKnowledgeClaim) -> bool {
    &&& c.claim_id@ == claim.id@
    &&& c.book_id@ == claim.book_id@
    &&& c.chapter_index == claim.chapter_index
    &&& Some(c.category@) == trimmed_str_member(object, "category"@)
    &&& Ok::<Seq<char>, Seq<char>>(c.topic_display@) == topic_of(object)
    &&& Ok::<Seq<char>, Seq<char>>(c.assertion_text@) == assertion_text_of(claim, object)
    &&& c.importance_score == match number_member(object, "importance_score"@) {
        Some(s) => s,
        None => Score { key: KEY_HALF },
    }
    &&& ref_views(c.referenced_entities@) == payload_references(object)
    &&& c.primary_source_span_id@ == claim.primary_source_span_id@
    &&& c.confidence == claim.confidence
    &&& c.status@ == claim.status@
}

impl LedgerKnowledgeClaim {
    /// The ledger claim for a knowledge claim. `parsed` is what parsing the
    /// claim's `value_json` gave; it is not read when there is none.
    pub fn from_claim(claim: &ClaimRecord, parsed: Result<JsonValue, String>) -> (r: Result<LedgerKnowledgeClaim, String>)
        ensures
            match r {
                Ok(c) => knowledge_claim_error(*claim, parsed_view(parsed)) is None && knowledge_claim_matches(
                    *claim,
                    parsed_view(parsed)->Ok_0,
                    c,
                ),
                Err(e) => knowledge_claim_error(*claim, parsed_view(parsed)) == Some(e@),
            },
    {
        let ghost pv = parsed_view(parsed);
        match ensure_claim_type(claim, "knowledge_assertion", "knowledge_assertion") {
            Err(e) => return Err(e),
            Ok(_) => {},
        }
        let object = match claim_payload_object(claim, parsed, "knowledge") {
            Err(e) => return Err(e),
            Ok(o) => o,
        };
        let fields = [
            "judge_decision", "card_action", "target_card_id", "assertion_status", "judge_confidence", "reason_code",
            "explanation_for_log",
        ];
        assert(views_of(fields@) =~= knowledge_judge_fields());
        match reject_forbidden_fields(claim, &object, "knowledge", "judge field", &fields) {
            Err(e) => return Err(e),
            Ok(_) => {},
        }
        let category = match required_string(&object, "knowledge", "category") {
            Err(e) => return Err(e),
            Ok(c) => c,
        };
        let topic_display = match required_string(&object, "knowledge", "topic_display") {
            Ok(t) => t,
            Err(_) => match required_string(&object, "knowledge", "raw_topic") {
                Ok(t) => t,
                Err(e) => return Err(e),
            },
        };
        let assertion_text = match required_string(&object, "knowledge", "assertion_text") {
            Ok(t) => t,
            Err(_) => match &claim.value_text {
                Some(v) => {
                    if str_is_blank(v.as_str()) {
                        return Err(owned("knowledge claim missing assertion_text"));
                    }
                    v.clone()
                },
                None => return Err(owned("knowledge claim missing assertion_text")),
            },
        };
        let importance_score = match get_number(&object, "importance_score") {
            Some(s) => s,
            None => Score::half(),
        };
        let referenced_entities = parse_referenced_entities(&object);
        Ok(LedgerKnowledgeClaim {
            claim_id: claim.id.clone(),
            book_id: claim.book_id.clone(),
            chapter_index: claim.chapter_index,
            category,
            topic_display,
            assertion_text,
            importance_score,
            referenced_entities,
            primary_source_span_id: claim.primary_source_span_id.clone(),
            confidence: claim.confidence,
            status: claim.status.clone(),
        })
    }
}

/// The write decision for a judge decision other than reject.
pub open spec fn write_decision_spec(d: KnowledgeJudgeDecision) -> KnowledgeWriteDecision {
    match d {
        KnowledgeJudgeDecision::AddNew => KnowledgeWriteDecision::AddNew,
        KnowledgeJudgeDecision::Supplement => KnowledgeWriteDecision::Supplement,
        KnowledgeJudgeDecision::ReviseExisting => KnowledgeWriteDecision::ReviseExisting,
        KnowledgeJudgeDecision::ContradictExisting => KnowledgeWriteDecision::ContradictExisting,
        KnowledgeJudgeDecision::MarkRumor => KnowledgeWriteDecision::MarkRumor,
        KnowledgeJudgeDecision::MarkUncertain => KnowledgeWriteDecision::MarkUncertain,
        _ => KnowledgeWriteDecision::MarkFalseInWorld,
    }
}

/// The write card action for a card action other than uncertain.
pub open spec fn write_card_action_spec(a: KnowledgeCardAction) -> KnowledgeWriteCardAction {
    match a {
        KnowledgeCardAction::CreateNewCard => KnowledgeWriteCardAction::CreateNewCard,
        _ => KnowledgeWriteCardAction::UseExistingCard,
    }
}

/// The write made of a claim and a judge's answer that writes.
pub open spec fn knowledge_command_matches(c: LedgerKnowledgeClaim, o: KnowledgeJudgeOutput, cmd: KnowledgeWriteCommand) -> bool {
    &&& cmd.book_id@ == c.book_id@
    &&& cmd.category@ == c.category@
    &&& cmd.topic_display@ == c.topic_display@
    &&& cmd.assertion_text@ == c.assertion_text@
    &&& cmd.importance_score == c.importance_score
    &&& cmd.referenced_entities == c.referenced_entities
    &&& cmd.card_action == write_card_action_spec(o.card_action)
    &&& cmd.target_card_id == o.target_card_id
    &&& cmd.decision == write_decision_spec(o.decision)
    &&& cmd.affected_assertion_ids == o.affected_assertion_ids
    &&& write_status_spec(o.assertion_status@) == Some(cmd.assertion_status)
    &&& cmd.current_summary == o.current_summary
    &&& cmd.confidence == o.confidence
    &&& cmd.chapter_index == c.chapter_index
    &&& cmd.provenance.claim_id@ == c.claim_id@
    &&& views(cmd.provenance.evidence_span_ids@) == seq![c.primary_source_span_id@]
}

/// A no-write for the claim with the given status and reason.
pub open spec fn is_knowledge_no_write(d: KnowledgeDecision, claim_id: Seq<char>, status: KnowledgeNoWriteStatus, reason: Seq<char>) -> bool {
    d matches KnowledgeDecision::NoWrite(n) && n.claim_id@ == claim_id && n.status == status && n.reason_code@ == reason
}

/// What the decision layer decides for a knowledge claim and the judge's
/// answer: a claim no longer proposed is left alone as uncertain; a reject is
/// a rejected no-write and an uncertain card action an uncertain one, both
/// with the judge's reason code; an assertion status the reducer does not
/// take sends the claim to quarantine; anything else becomes its write.
pub open spec fn knowledge_decision_ok(c: LedgerKnowledgeClaim, o: KnowledgeJudgeOutput, d: KnowledgeDecision) -> bool {
    if c.status@ != "proposed"@ {
        is_knowledge_no_write(d, c.claim_id@, KnowledgeNoWriteStatus::Uncertain, "ledger_status_"@ + c.status@)
    } else if o.decision == KnowledgeJudgeDecision::Reject {
        is_knowledge_no_write(d, c.claim_id@, KnowledgeNoWriteStatus::Rejected, o.reason_code@)
    } else if o.card_action == KnowledgeCardAction::Uncertain {
        is_knowledge_no_write(d, c.claim_id@, KnowledgeNoWriteStatus::Uncertain, o.reason_code@)
    } else if write_status_spec(o.assertion_status@) is None {
        d matches KnowledgeDecision::Quarantine(q) && q.claim_id@ == c.claim_id@ && q.reason@
            == "unsupported knowledge assertion status: "@ + o.assertion_status@
    } else {
        d matches KnowledgeDecision::Write(cmd) && knowledge_command_matches(c, o, cmd)
    }
}

fn knowledge_no_write(claim_id: String, status: KnowledgeNoWriteStatus, reason_code: String) -> (r: Result<KnowledgeDecision, String>)
    ensures
        r matches Ok(d) && is_knowledge_no_write(d, claim_id@, status, reason_code@),
{
    Ok(KnowledgeDecision::NoWrite(KnowledgeNoWrite { claim_id, status, reason_code }))
}

/// Decides what a knowledge claim leads to, given the judge's answer; it
/// always succeeds.
pub fn materialize_knowledge_decision(claim: LedgerKnowledgeClaim, judge_output: KnowledgeJudgeOutput) -> (r: Result<
    KnowledgeDecision,
    String,
>)
    ensures
        r matches Ok(d) && knowledge_decision_ok(claim, judge_output, d),
{
    if !str_eq(claim.status.as_str(), "proposed") {
        return knowledge_no_write(
            claim.claim_id,
            KnowledgeNoWriteStatus::Uncertain,
            join2("ledger_status_", claim.status.as_str()),
        );
    }
    if judge_output.decision == KnowledgeJudgeDecision::Reject {
        return knowledge_no_write(claim.claim_id, KnowledgeNoWriteStatus::Rejected, judge_output.reason_code);
    }
    if judge_output.card_action == KnowledgeCardAction::Uncertain {
        return knowledge_no_write(claim.claim_id, KnowledgeNoWriteStatus::Uncertain, judge_output.reason_code);
    }
    let card_action = match judge_output.card_action {
        KnowledgeCardAction::CreateNewCard => KnowledgeWriteCardAction::CreateNewCard,
        _ => KnowledgeWriteCardAction::UseExistingCard,
    };
    let decision = match judge_output.decision {
        KnowledgeJudgeDecision::AddNew => KnowledgeWriteDecision::AddNew,
        KnowledgeJudgeDecision::Supplement => KnowledgeWriteDecision::Supplement,
        KnowledgeJudgeDecision::ReviseExisting => KnowledgeWriteDecision::ReviseExisting,
        KnowledgeJudgeDecision::ContradictExisting => KnowledgeWriteDecision::ContradictExisting,
        KnowledgeJudgeDecision::MarkRumor => KnowledgeWriteDecision::MarkRumor,
        KnowledgeJudgeDecision::MarkUncertain => KnowledgeWriteDecision::MarkUncertain,
        _ => KnowledgeWriteDecision::MarkFalseInWorld,
    };
    let assertion_status = match KnowledgeAssertionStatus::from_write_status(judge_output.assertion_status.as_str()) {
        Ok(s) => s,
        Err(e) => {
            return Ok(KnowledgeDecision::Quarantine(KnowledgeQuarantine { claim_id: claim.claim_id, reason: e }));
        },
    };
    let provenance = KnowledgeWriteProvenance {
        claim_id: claim.claim_id.clone(),
        evidence_span_ids: single_evidence(&claim.primary_source_span_id),
    };
    Ok(
        KnowledgeDecision::Write(
            KnowledgeWriteCommand {
                book_id: claim.book_id,
                category: claim.category,
                topic_display: claim.topic_display,
                assertion_text: claim.assertion_text,
                importance_score: claim.importance_score,
                referenced_entities: claim.referenced_entities,
                card_action,
                target_card_id: judge_output.target_card_id,
                decision,
                affected_assertion_ids: judge_output.affected_assertion_ids,
                assertion_status,
                current_summary: judge_output.current_summary,
                confidence: judge_output.confidence,
                chapter_index: claim.chapter_index,
                provenance,
            },
        ),
    )
}

/// A knowledge claim is written only when it is proposed, the judge neither
/// rejects it nor leaves its card uncertain, and the judge's assertion status
/// is one that the knowledge reducer supports.
pub proof fn lemma_knowledge_write_needs_supported_status(c: LedgerKnowledgeClaim, o: KnowledgeJudgeOutput, d: KnowledgeDecision)
    requires
        knowledge_decision_ok(c, o, d),
        d is Write,
    ensures
        c.status@ == "proposed"@,
        o.decision != KnowledgeJudgeDecision::Reject,
        o.card_action != KnowledgeCardAction::Uncertain,
        write_status_spec(o.assertion_status@) is Some,
{
}

/// A knowledge write carries the judge's own decision: its write decision
/// has the name of the judge's decision, so two answers with different
/// decisions never lead to the same write decision.
pub proof fn lemma_write_keeps_judge_decision(
    c1: LedgerKnowledgeClaim,
    o1: KnowledgeJudgeOutput,
    d1: KnowledgeDecision,
    c2: LedgerKnowledgeClaim,
    o2: KnowledgeJudgeOutput,
    d2: KnowledgeDecision,
)
    requires
        knowledge_decision_ok(c1, o1, d1),
        knowledge_decision_ok(c2, o2, d2),
    ensures
        d1 matches KnowledgeDecision::Write(cmd) ==> crate::write_commands::write_decision_name(cmd.decision)
            == crate::knowledge_judge::decision_name(o1.decision),
        (d1 matches KnowledgeDecision::Write(w1)) && (d2 matches KnowledgeDecision::Write(w2)) && o1.decision
            != o2.decision ==> d1->Write_0.decision != d2->Write_0.decision,
{
    reveal_strlit("AddNew");
    reveal_strlit("Supplement");
    reveal_strlit("ReviseExisting");
    reveal_strlit("ContradictExisting");
    reveal_strlit("MarkRumor");
    reveal_strlit("MarkUncertain");
    reveal_strlit("MarkFalseInWorld");
}

} // verus!
