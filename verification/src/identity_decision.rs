//! The identity decision layer: an identity claim and the judge's answer
//! become a typed identity write, a no-write, a quarantine or a rejection.
use vstd::prelude::*;
use crate::identity_judge::{decision_spec, validate_judge_decision, IdentityJudgeDecision, IdentityJudgeOutput};
use crate::records::ClaimRecord;
use crate::score::Score;
use crate::text::{clone_opt, join2, opt_view, owned, str_eq};
use crate::write_commands::{single_evidence, views, IdentityWriteCommand, IdentityWriteProvenance};

verus! {

/// A ledger claim about identity.
#[derive(Debug, Clone)]
pub struct LedgerIdentityClaim {
    pub claim_id: String,
    pub book_id: String,
    pub chapter_index: i64,
    pub claim_type: String,
    pub subject_entity_id: Option<String>,
    pub object_entity_id: Option<String>,
    pub primary_source_span_id: String,
    pub confidence: Score,
    pub status: String,
}

/// What the identity decision layer decides for one claim.
#[derive(Debug, Clone)]
pub enum IdentityDecision {
    Invalid(IdentityDecisionRejection),
    NoWrite(IdentityNoWrite),
    Quarantine(IdentityQuarantine),
    Write(IdentityWriteCommand),
}

/// A claim refused as invalid, with the reason.
#[derive(Debug, Clone)]
pub struct IdentityDecisionRejection {
    pub claim_id: String,
    pub reason: String,
}

/// A claim that leads to no write.
#[derive(Debug, Clone)]
pub struct IdentityNoWrite {
    pub claim_id: String,
    pub status: IdentityNoWriteStatus,
    pub reason_code: String,
}

/// Why a claim leads to no write.
#[derive(Debug, Clone, Copy, PartialEq, Eq, Structural)]
pub enum IdentityNoWriteStatus {
    Rejected,
    Uncertain,
}

/// A claim held back for review, with the reason.
#[derive(Debug, Clone)]
pub struct IdentityQuarantine {
    pub claim_id: String,
    pub reason: String,
}

/// The claim types of the identity domain.
pub open spec fn is_identity_claim_type_spec(t: Seq<char>) -> bool {
    t == "identity_reveal"@ || t == "entity_merge_candidate"@ || t == "entity_split_candidate"@
        || t == "not_same_identity"@
}

/// The ledger claim made from `claim`: its type must be of the identity domain.
pub open spec fn ledger_identity_claim_ok(claim: ClaimRecord, r: Result<LedgerIdentityClaim, String>) -> bool {
    if !is_identity_claim_type_spec(claim.claim_type@) {
        r matches Err(e) && e@ == "claim "@ + claim.id@ + " is not an identity claim: "@ + claim.claim_type@
    } else {
        r matches Ok(c) && {
            &&& c.claim_id@ == claim.id@
            &&& c.book_id@ == claim.book_id@
            &&& c.chapter_index == claim.chapter_index
            &&& c.claim_type@ == claim.claim_type@
            &&& opt_view(c.subject_entity_id) == opt_view(claim.subject_entity_id)
            &&& opt_view(c.object_entity_id) == opt_view(claim.object_entity_id)
            &&& c.primary_source_span_id@ == claim.primary_source_span_id@
            &&& c.confidence == claim.confidence
            &&& c.status@ == claim.status@
        }
    }
}

impl LedgerIdentityClaim {
    /// The ledger claim for an identity claim.
    pub fn from_claim(claim: &ClaimRecord) -> (r: Result<LedgerIdentityClaim, String>)
        ensures
            ledger_identity_claim_ok(*claim, r),
    {
        let t = claim.claim_type.as_str();
        if !(str_eq(t, "identity_reveal") || str_eq(t, "entity_merge_candidate") || str_eq(t, "entity_split_candidate")
            || str_eq(t, "not_same_identity")) {
            let mut e = String::from_str("claim ");
            e.append(claim.id.as_str());
            e.append(" is not an identity claim: ");
            e.append(t);
            return Err(e);
        }
        Ok(LedgerIdentityClaim {
            claim_id: claim.id.clone(),
            book_id: claim.book_id.clone(),
            chapter_index: claim.chapter_index,
            claim_type: claim.claim_type.clone(),
            subject_entity_id: clone_opt(&claim.subject_entity_id),
            object_entity_id: clone_opt(&claim.object_entity_id),
            primary_source_span_id: claim.primary_source_span_id.clone(),
            confidence: claim.confidence,
            status: claim.status.clone(),
        })
    }
}

/// A no-write for the claim with the given status and reason.
pub open spec fn is_no_write(d: IdentityDecision, claim_id: Seq<char>, status: IdentityNoWriteStatus, reason: Seq<char>) -> bool {
    d matches IdentityDecision::NoWrite(n) && n.claim_id@ == claim_id && n.status == status && n.reason_code@ == reason
}

/// The write the judge's answer makes of a fully resolved claim.
pub open spec fn identity_command_matches(c: LedgerIdentityClaim, o: IdentityJudgeOutput, cmd: IdentityWriteCommand) -> bool {
    match o.decision {
        IdentityJudgeDecision::Merge => cmd matches IdentityWriteCommand::Merge {
            book_id,
            entity_a_id,
            entity_b_id,
            link_type,
            survivor_hint,
            confidence,
            reason_code,
            provenance,
        } && {
            &&& book_id@ == c.book_id@
            &&& entity_a_id@ == c.subject_entity_id->0@
            &&& entity_b_id@ == c.object_entity_id->0@
            &&& link_type@ == o.link_type@
            &&& survivor_hint@ == o.survivor_hint@
            &&& confidence == o.confidence
            &&& reason_code@ == o.reason_code@
            &&& provenance.claim_id@ == c.claim_id@
            &&& views(provenance.evidence_span_ids@) == seq![c.primary_source_span_id@]
        },
        _ => cmd matches IdentityWriteCommand::Link {
            book_id,
            entity_a_id,
            entity_b_id,
            link_type,
            confidence,
            provenance,
        } && {
            &&& book_id@ == c.book_id@
            &&& entity_a_id@ == c.subject_entity_id->0@
            &&& entity_b_id@ == c.object_entity_id->0@
            &&& link_type@ == o.link_type@
            &&& confidence == o.confidence
            &&& provenance.claim_id@ == c.claim_id@
            &&& views(provenance.evidence_span_ids@) == seq![c.primary_source_span_id@]
        },
    }
}

/// What the decision layer decides for an identity claim and the judge's
/// answer: a claim no longer proposed is left alone as uncertain; a reject
/// is a rejected no-write, an uncertain or split answer an uncertain one,
/// both with the judge's reason code; a merge or link needs both entities
/// resolved (else quarantine) and a consistent answer (else invalid), and
/// then becomes its write.
pub open spec fn identity_decision_ok(c: LedgerIdentityClaim, o: IdentityJudgeOutput, d: IdentityDecision) -> bool {
    if c.status@ != "proposed"@ {
        is_no_write(d, c.claim_id@, IdentityNoWriteStatus::Uncertain, "ledger_status_"@ + c.status@)
    } else {
        match o.decision {
            IdentityJudgeDecision::Reject => is_no_write(d, c.claim_id@, IdentityNoWriteStatus::Rejected, o.reason_code@),
            IdentityJudgeDecision::Uncertain | IdentityJudgeDecision::SplitRequired => is_no_write(
                d,
                c.claim_id@,
                IdentityNoWriteStatus::Uncertain,
                o.reason_code@,
            ),
            _ => if c.subject_entity_id is None || c.object_entity_id is None {
                d matches IdentityDecision::Quarantine(q) && q.claim_id@ == c.claim_id@ && q.reason@
                    == "identity write decision missing entity_a or entity_b id"@
            } else {
                match decision_spec(o, true) {
                    Err(e) => d matches IdentityDecision::Invalid(x) && x.claim_id@ == c.claim_id@ && x.reason@ == e,
                    Ok(_) => d matches IdentityDecision::Write(cmd) && identity_command_matches(c, o, cmd),
                }
            },
        }
    }
}

fn no_write(claim_id: String, status: IdentityNoWriteStatus, reason_code: String) -> (r: Result<IdentityDecision, String>)
    ensures
        r matches Ok(d) && is_no_write(d, claim_id@, status, reason_code@),
{
    Ok(IdentityDecision::NoWrite(IdentityNoWrite { claim_id, status, reason_code }))
}

/// Decides what an identity claim leads to, given the judge's answer; it
/// always succeeds.
pub fn materialize_identity_decision(claim: LedgerIdentityClaim, judge_output: IdentityJudgeOutput) -> (r: Result<
    IdentityDecision,
    String,
>)
    ensures
        r matches Ok(d) && identity_decision_ok(claim, judge_output, d),
{
    if !str_eq(claim.status.as_str(), "proposed") {
        return no_write(claim.claim_id, IdentityNoWriteStatus::Uncertain, join2("ledger_status_", claim.status.as_str()));
    }
    match judge_output.decision {
        IdentityJudgeDecision::Reject => {
            return no_write(claim.claim_id, IdentityNoWriteStatus::Rejected, judge_output.reason_code);
        },
        IdentityJudgeDecision::Uncertain | IdentityJudgeDecision::SplitRequired => {
            return no_write(claim.claim_id, IdentityNoWriteStatus::Uncertain, judge_output.reason_code);
        },
        _ => {},
    }
    let (entity_a_id, entity_b_id) = match (&claim.subject_entity_id, &claim.object_entity_id) {
        (Some(a), Some(b)) => (a.clone(), b.clone()),
        _ => {
            return Ok(
                IdentityDecision::Quarantine(
                    IdentityQuarantine {
                        claim_id: claim.claim_id,
                        reason: owned("identity write decision missing entity_a or entity_b id"),
                    },
                ),
            );
        },
    };
    match validate_judge_decision(&judge_output, true) {
        Err(e) => {
            return Ok(IdentityDecision::Invalid(IdentityDecisionRejection { claim_id: claim.claim_id, reason: e }));
        },
        Ok(_) => {},
    }
    let provenance = IdentityWriteProvenance {
        claim_id: claim.claim_id.clone(),
        evidence_span_ids: single_evidence(&claim.primary_source_span_id),
    };
    match judge_output.decision {
        IdentityJudgeDecision::Merge => Ok(
            IdentityDecision::Write(
                IdentityWriteCommand::Merge {
                    book_id: claim.book_id,
                    entity_a_id,
                    entity_b_id,
                    link_type: judge_output.link_type,
                    survivor_hint: judge_output.survivor_hint,
                    confidence: judge_output.confidence,
                    reason_code: judge_output.reason_code,
                    provenance,
                },
            ),
        ),
        _ => Ok(
            IdentityDecision::Write(
                IdentityWriteCommand::Link {
                    book_id: claim.book_id,
                    entity_a_id,
                    entity_b_id,
                    link_type: judge_output.link_type,
                    confidence: judge_output.confidence,
                    provenance,
                },
            ),
        ),
    }
}

/// A judge's reject never becomes a write, whatever the claim.
pub proof fn lemma_identity_reject_never_writes(c: LedgerIdentityClaim, o: IdentityJudgeOutput, d: IdentityDecision)
    requires
        o.decision == IdentityJudgeDecision::Reject,
        identity_decision_ok(c, o, d),
    ensures
        d is NoWrite,
{
}

/// A merge is only written between two resolved entities, with evidence.
pub proof fn lemma_identity_merge_needs_resolved_pair(c: LedgerIdentityClaim, o: IdentityJudgeOutput, d: IdentityDecision)
    requires
        identity_decision_ok(c, o, d),
        d matches IdentityDecision::Write(cmd) && cmd is Merge,
    ensures
        c.subject_entity_id is Some,
        c.object_entity_id is Some,
        o.decision == IdentityJudgeDecision::Merge,
        o.link_type@ != "not_same_identity"@,
{
}

} // verus!
