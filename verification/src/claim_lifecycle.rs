//! The lifecycle of a ledger claim once its domain has decided: which status
//! it moves to, what a quarantine records, and the per-segment counts.
use vstd::prelude::*;
use crate::character_decision::{CharacterDecision, CharacterNoWriteStatus};
use crate::identity_decision::{
    identity_decision_ok, materialize_identity_decision, IdentityDecision, IdentityNoWriteStatus, LedgerIdentityClaim,
};
use crate::identity_judge::{IdentityGateResult, IdentityJudgeOutput};
use crate::knowledge_decision::{
    knowledge_decision_ok, materialize_knowledge_decision, KnowledgeDecision, KnowledgeNoWriteStatus,
    LedgerKnowledgeClaim,
};
use crate::knowledge_judge::{
    context_spec, validate_judge_output_for_context, KnowledgeCardAction, KnowledgeGateResult, KnowledgeJudgeDecision,
    KnowledgeJudgeOutput,
};
use crate::text::owned;
use crate::write_commands::{CharacterWriteCommand, IdentityWriteCommand};

verus! {

/// A change of a claim's status.
#[derive(Debug, Clone, Copy, PartialEq, Eq, Structural)]
pub enum ClaimTransition {
    Accept,
    Reject,
    MarkUncertain,
    Quarantine,
    Redirect,
}

/// The status a transition moves a claim to.
pub open spec fn transition_status_spec(t: ClaimTransition) -> Seq<char> {
    match t {
        ClaimTransition::Accept => "accepted"@,
        ClaimTransition::Reject => "rejected"@,
        ClaimTransition::MarkUncertain => "uncertain"@,
        ClaimTransition::Quarantine => "quarantined"@,
        ClaimTransition::Redirect => "redirected"@,
    }
}

/// The status a transition moves a claim to.
pub fn transition_status(t: ClaimTransition) -> (r: &'static str)
    ensures
        r@ == transition_status_spec(t),
{
    match t {
        ClaimTransition::Accept => "accepted",
        ClaimTransition::Reject => "rejected",
        ClaimTransition::MarkUncertain => "uncertain",
        ClaimTransition::Quarantine => "quarantined",
        ClaimTransition::Redirect => "redirected",
    }
}

/// What the quarantine list records of a claim that a domain quarantined.
#[derive(Debug, Clone)]
pub struct QuarantineEntry {
    pub reason_code: String,
    pub reason_text: String,
    pub suggested_action: String,
    pub priority: i64,
}

/// The quarantine entry for a domain decision, with its reason.
pub fn quarantine_entry(reason_text: &str) -> (r: QuarantineEntry)
    ensures
        r.reason_code@ == "domain_decision_quarantine"@,
        r.reason_text@ == reason_text@,
        r.suggested_action@ == "needs_manual_review"@,
        r.priority == 50,
{
    QuarantineEntry {
        reason_code: owned("domain_decision_quarantine"),
        reason_text: owned(reason_text),
        suggested_action: owned("needs_manual_review"),
        priority: 50,
    }
}

/// What happens next to a claim: its write is applied, or its status changes.
#[derive(Debug, Clone)]
pub enum LifecycleStep {
    ApplyWrite { claim_id: String },
    Transition { claim_id: String, transition: ClaimTransition },
}

/// Whether `s` applies the write of claim `id`.
pub open spec fn is_apply(s: LifecycleStep, id: Seq<char>) -> bool {
    s matches LifecycleStep::ApplyWrite { claim_id } && claim_id@ == id
}

/// Whether `s` moves claim `id` by `t`.
pub open spec fn is_transition(s: LifecycleStep, id: Seq<char>, t: ClaimTransition) -> bool {
    s matches LifecycleStep::Transition { claim_id, transition } && claim_id@ == id && transition == t
}

/// The claim a character write comes from.
pub open spec fn character_command_claim(c: CharacterWriteCommand) -> Seq<char> {
    match c {
        CharacterWriteCommand::IntroduceEntity { provenance, .. } => provenance.claim_id@,
        CharacterWriteCommand::AddAlias { provenance, .. } => provenance.claim_id@,
        CharacterWriteCommand::UpdateProperty { provenance, .. } => provenance.claim_id@,
    }
}

/// The claim a character write comes from.
pub fn command_provenance_claim_id(command: &CharacterWriteCommand) -> (r: String)
    ensures
        r@ == character_command_claim(*command),
{
    match command {
        CharacterWriteCommand::IntroduceEntity { provenance, .. } => provenance.claim_id.clone(),
        CharacterWriteCommand::AddAlias { provenance, .. } => provenance.claim_id.clone(),
        CharacterWriteCommand::UpdateProperty { provenance, .. } => provenance.claim_id.clone(),
    }
}

/// The claim an identity write comes from.
pub open spec fn identity_command_claim(c: IdentityWriteCommand) -> Seq<char> {
    match c {
        IdentityWriteCommand::Merge { provenance, .. } => provenance.claim_id@,
        IdentityWriteCommand::Link { provenance, .. } => provenance.claim_id@,
    }
}

/// The claim an identity write comes from.
pub fn identity_command_claim_id(command: &IdentityWriteCommand) -> (r: String)
    ensures
        r@ == identity_command_claim(*command),
{
    match command {
        IdentityWriteCommand::Merge { provenance, .. } => provenance.claim_id.clone(),
        IdentityWriteCommand::Link { provenance, .. } => provenance.claim_id.clone(),
    }
}

/// The step for a character decision: a write is applied; a rejected
/// no-write or an invalid claim is rejected; an uncertain no-write is marked
/// uncertain; a quarantine is quarantined.
pub open spec fn character_step_ok(d: CharacterDecision, s: LifecycleStep) -> bool {
    match d {
        CharacterDecision::Write(c) => is_apply(s, character_command_claim(c)),
        CharacterDecision::NoWrite(n) => is_transition(
            s,
            n.claim_id@,
            if n.status == CharacterNoWriteStatus::Rejected {
                ClaimTransition::Reject
            } else {
                ClaimTransition::MarkUncertain
            },
        ),
        CharacterDecision::Invalid(x) => is_transition(s, x.claim_id@, ClaimTransition::Reject),
        CharacterDecision::Quarantine(q) => is_transition(s, q.claim_id@, ClaimTransition::Quarantine),
    }
}

fn transition(claim_id: &String, t: ClaimTransition) -> (s: LifecycleStep)
    ensures
        is_transition(s, claim_id@, t),
{
    LifecycleStep::Transition { claim_id: claim_id.clone(), transition: t }
}

/// The step for a character decision.
pub fn character_step(decision: &CharacterDecision) -> (s: LifecycleStep)
    ensures
        character_step_ok(*decision, s),
{
    match decision {
        CharacterDecision::Write(command) => LifecycleStep::ApplyWrite { claim_id: command_provenance_claim_id(command) },
        CharacterDecision::NoWrite(n) => match n.status {
            CharacterNoWriteStatus::Rejected => transition(&n.claim_id, ClaimTransition::Reject),
            CharacterNoWriteStatus::Uncertain => transition(&n.claim_id, ClaimTransition::MarkUncertain),
        },
        CharacterDecision::Invalid(x) => transition(&x.claim_id, ClaimTransition::Reject),
        CharacterDecision::Quarantine(q) => transition(&q.claim_id, ClaimTransition::Quarantine),
    }
}

/// The step for an identity decision, as for a character decision.
pub open spec fn identity_step_ok(d: IdentityDecision, s: LifecycleStep) -> bool {
    match d {
        IdentityDecision::Write(c) => is_apply(s, identity_command_claim(c)),
        IdentityDecision::NoWrite(n) => is_transition(
            s,
            n.claim_id@,
            if n.status == IdentityNoWriteStatus::Rejected {
                ClaimTransition::Reject
            } else {
                ClaimTransition::MarkUncertain
            },
        ),
        IdentityDecision::Invalid(x) => is_transition(s, x.claim_id@, ClaimTransition::Reject),
        IdentityDecision::Quarantine(q) => is_transition(s, q.claim_id@, ClaimTransition::Quarantine),
    }
}

/// The step for an identity decision.
pub fn identity_step(decision: &IdentityDecision) -> (s: LifecycleStep)
    ensures
        identity_step_ok(*decision, s),
{
    match decision {
        IdentityDecision::Write(command) => LifecycleStep::ApplyWrite { claim_id: identity_command_claim_id(command) },
        IdentityDecision::NoWrite(n) => match n.status {
            IdentityNoWriteStatus::Rejected => transition(&n.claim_id, ClaimTransition::Reject),
            IdentityNoWriteStatus::Uncertain => transition(&n.claim_id, ClaimTransition::MarkUncertain),
        },
        IdentityDecision::Invalid(x) => transition(&x.claim_id, ClaimTransition::Reject),
        IdentityDecision::Quarantine(q) => transition(&q.claim_id, ClaimTransition::Quarantine),
    }
}

/// The step for a knowledge decision, as for a character decision.
pub open spec fn knowledge_step_ok(d: KnowledgeDecision, s: LifecycleStep) -> bool {
    match d {
        KnowledgeDecision::Write(c) => is_apply(s, c.provenance.claim_id@),
        KnowledgeDecision::NoWrite(n) => is_transition(
            s,
            n.claim_id@,
            if n.status == KnowledgeNoWriteStatus::Rejected {
                ClaimTransition::Reject
            } else {
                ClaimTransition::MarkUncertain
            },
        ),
        KnowledgeDecision::Invalid(x) => is_transition(s, x.claim_id@, ClaimTransition::Reject),
        KnowledgeDecision::Quarantine(q) => is_transition(s, q.claim_id@, ClaimTransition::Quarantine),
    }
}

/// The step for a knowledge decision.
pub fn knowledge_step(decision: &KnowledgeDecision) -> (s: LifecycleStep)
    ensures
        knowledge_step_ok(*decision, s),
{
    match decision {
        KnowledgeDecision::Write(command) => LifecycleStep::ApplyWrite { claim_id: command.provenance.claim_id.clone() },
        KnowledgeDecision::NoWrite(n) => match n.status {
            KnowledgeNoWriteStatus::Rejected => transition(&n.claim_id, ClaimTransition::Reject),
            KnowledgeNoWriteStatus::Uncertain => transition(&n.claim_id, ClaimTransition::MarkUncertain),
        },
        KnowledgeDecision::Invalid(x) => transition(&x.claim_id, ClaimTransition::Reject),
        KnowledgeDecision::Quarantine(q) => transition(&q.claim_id, ClaimTransition::Quarantine),
    }
}

/// The step for an identity claim that passed its gate, given its ledger
/// claim and what the judge answered: a judge failure or a claim that makes
/// no ledger claim is rejected; otherwise the step of the decision made from
/// the answer.
pub fn identity_judged_step(
    claim_id: &String,
    ledger: Result<LedgerIdentityClaim, String>,
    judged: Result<IdentityJudgeOutput, String>,
) -> (s: LifecycleStep)
    ensures
        match (ledger, judged) {
            (Ok(c), Ok(o)) => exists|d: IdentityDecision| identity_decision_ok(c, o, d) && identity_step_ok(d, s),
            _ => is_transition(s, claim_id@, ClaimTransition::Reject),
        },
{
    match (ledger, judged) {
        (Ok(c), Ok(o)) => {
            let ghost gc = c;
            let ghost go = o;
            match materialize_identity_decision(c, o) {
                Ok(d) => {
                    let s = identity_step(&d);
                    assert(identity_decision_ok(gc, go, d) && identity_step_ok(d, s));
                    s
                },
                Err(_) => transition(claim_id, ClaimTransition::Reject),
            }
        },
        _ => transition(claim_id, ClaimTransition::Reject),
    }
}

/// The step for a knowledge claim that passed its gate, given what the
/// judge answered and how many candidate cards match its topic: a judge
/// failure or a reject decision is rejected; an answer that cannot settle on
/// a card (uncertain card action) leaves the claim uncertain, whatever status
/// it names; an answer that does not suit the candidates is rejected;
/// otherwise the step of the decision made from the answer.
pub fn knowledge_judged_step(
    ledger: LedgerKnowledgeClaim,
    judged: Result<KnowledgeJudgeOutput, String>,
    matching_candidate_count: usize,
) -> (s: LifecycleStep)
    ensures
        match judged {
            Err(_) => is_transition(s, ledger.claim_id@, ClaimTransition::Reject),
            Ok(o) => if o.decision == KnowledgeJudgeDecision::Reject {
                is_transition(s, ledger.claim_id@, ClaimTransition::Reject)
            } else if o.card_action == KnowledgeCardAction::Uncertain {
                is_transition(s, ledger.claim_id@, ClaimTransition::MarkUncertain)
            } else if context_spec(o, matching_candidate_count as nat, Seq::empty()) is Err {
                is_transition(s, ledger.claim_id@, ClaimTransition::Reject)
            } else {
                exists|d: KnowledgeDecision| knowledge_decision_ok(ledger, o, d) && knowledge_step_ok(d, s)
            },
        },
{
    let claim_id = ledger.claim_id.clone();
    match judged {
        Err(_) => transition(&claim_id, ClaimTransition::Reject),
        Ok(o) => {
            if o.decision == KnowledgeJudgeDecision::Reject {
                return transition(&claim_id, ClaimTransition::Reject);
            }
            if o.card_action == KnowledgeCardAction::Uncertain {
                return transition(&claim_id, ClaimTransition::MarkUncertain);
            }
            proof {
                reveal_strlit("");
                assert(""@ =~= Seq::<char>::empty());
            }
            if validate_judge_output_for_context(&o, matching_candidate_count, "").is_err() {
                return transition(&claim_id, ClaimTransition::Reject);
            }
            let ghost gl = ledger;
            let ghost go = o;
            match materialize_knowledge_decision(ledger, o) {
                Ok(d) => {
                    let s = knowledge_step(&d);
                    assert(knowledge_decision_ok(gl, go, d) && knowledge_step_ok(d, s));
                    s
                },
                Err(_) => transition(&claim_id, ClaimTransition::Reject),
            }
        },
    }
}

/// The transition once a claim's write has run: accepted when it was
/// applied, marked uncertain when the reducer failed.
pub fn after_write(applied: bool) -> (t: ClaimTransition)
    ensures
        t == if applied {
            ClaimTransition::Accept
        } else {
            ClaimTransition::MarkUncertain
        },
{
    if applied {
        ClaimTransition::Accept
    } else {
        ClaimTransition::MarkUncertain
    }
}

/// The transition a structural gate imposes: none when it passes; a
/// rejection or an uncertain mark with its reason otherwise.
pub fn identity_gate_transition(gate: &IdentityGateResult) -> (t: Option<ClaimTransition>)
    ensures
        t == match *gate {
            IdentityGateResult::Pass => None,
            IdentityGateResult::Reject(_) => Some(ClaimTransition::Reject),
            IdentityGateResult::Uncertain(_) => Some(ClaimTransition::MarkUncertain),
        },
{
    match gate {
        IdentityGateResult::Pass => None,
        IdentityGateResult::Reject(_) => Some(ClaimTransition::Reject),
        IdentityGateResult::Uncertain(_) => Some(ClaimTransition::MarkUncertain),
    }
}

/// The transition the knowledge gate imposes, as for the identity gate.
pub fn knowledge_gate_transition(gate: &KnowledgeGateResult) -> (t: Option<ClaimTransition>)
    ensures
        t == match *gate {
            KnowledgeGateResult::Pass => None,
            KnowledgeGateResult::Reject(_) => Some(ClaimTransition::Reject),
            KnowledgeGateResult::Uncertain(_) => Some(ClaimTransition::MarkUncertain),
        },
{
    match gate {
        KnowledgeGateResult::Pass => None,
        KnowledgeGateResult::Reject(_) => Some(ClaimTransition::Reject),
        KnowledgeGateResult::Uncertain(_) => Some(ClaimTransition::MarkUncertain),
    }
}

/// The four counts after one more transition: the count it belongs to grows
/// by one (a redirect counts nowhere).
pub open spec fn counted(
    accepted: usize,
    rejected: usize,
    quarantined: usize,
    uncertain: usize,
    t: ClaimTransition,
) -> (int, int, int, int) {
    match t {
        ClaimTransition::Accept => (accepted + 1, rejected as int, quarantined as int, uncertain as int),
        ClaimTransition::Reject => (accepted as int, rejected + 1, quarantined as int, uncertain as int),
        ClaimTransition::Quarantine => (accepted as int, rejected as int, quarantined + 1, uncertain as int),
        ClaimTransition::MarkUncertain => (accepted as int, rejected as int, quarantined as int, uncertain + 1),
        ClaimTransition::Redirect => (accepted as int, rejected as int, quarantined as int, uncertain as int),
    }
}

/// What processing the character claims of a segment did.
#[derive(Debug, Clone, Copy, PartialEq, Eq, Structural)]
pub struct CharacterSegmentProcessResult {
    pub claims_accepted: usize,
    pub claims_rejected: usize,
    pub claims_quarantined: usize,
    pub claims_uncertain: usize,
}

/// What processing the identity claims of a segment did.
#[derive(Debug, Clone, Copy, PartialEq, Eq, Structural)]
pub struct IdentitySegmentProcessResult {
    pub claims_accepted: usize,
    pub claims_rejected: usize,
    pub claims_quarantined: usize,
    pub claims_uncertain: usize,
}

/// What processing the knowledge claims of a segment did.
#[derive(Debug, Clone, Copy, PartialEq, Eq, Structural)]
pub struct KnowledgeSegmentProcessResult {
    pub claims_accepted: usize,
    pub claims_rejected: usize,
    pub claims_quarantined: usize,
    pub claims_uncertain: usize,
}

/// The counts after one more transition.
fn count(
    accepted: usize,
    rejected: usize,
    quarantined: usize,
    uncertain: usize,
    t: ClaimTransition,
) -> (r: (usize, usize, usize, usize))
    requires
        accepted < usize::MAX,
        rejected < usize::MAX,
        quarantined < usize::MAX,
        uncertain < usize::MAX,
    ensures
        (r.0 as int, r.1 as int, r.2 as int, r.3 as int) == counted(accepted, rejected, quarantined, uncertain, t),
{
    match t {
        ClaimTransition::Accept => (accepted + 1, rejected, quarantined, uncertain),
        ClaimTransition::Reject => (accepted, rejected + 1, quarantined, uncertain),
        ClaimTransition::Quarantine => (accepted, rejected, quarantined + 1, uncertain),
        ClaimTransition::MarkUncertain => (accepted, rejected, quarantined, uncertain + 1),
        ClaimTransition::Redirect => (accepted, rejected, quarantined, uncertain),
    }
}

impl CharacterSegmentProcessResult {
    /// No claim processed yet.
    pub fn new() -> (r: CharacterSegmentProcessResult)
        ensures
            r.claims_accepted == 0 && r.claims_rejected == 0 && r.claims_quarantined == 0 && r.claims_uncertain == 0,
    {
        CharacterSegmentProcessResult { claims_accepted: 0, claims_rejected: 0, claims_quarantined: 0, claims_uncertain: 0 }
    }

    /// Counts one transition.
    pub fn record(&mut self, t: ClaimTransition)
        requires
            old(self).claims_accepted < usize::MAX,
            old(self).claims_rejected < usize::MAX,
            old(self).claims_quarantined < usize::MAX,
            old(self).claims_uncertain < usize::MAX,
        ensures
            (final(self).claims_accepted as int, final(self).claims_rejected as int, final(self).claims_quarantined as int,
            final(self).claims_uncertain as int) == counted(
                old(self).claims_accepted,
                old(self).claims_rejected,
                old(self).claims_quarantined,
                old(self).claims_uncertain,
                t,
            ),
    {
        let (a, r, q, u) = count(self.claims_accepted, self.claims_rejected, self.claims_quarantined, self.claims_uncertain, t);
        self.claims_accepted = a;
        self.claims_rejected = r;
        self.claims_quarantined = q;
        self.claims_uncertain = u;
    }
}

impl IdentitySegmentProcessResult {
    /// No claim processed yet.
    pub fn new() -> (r: IdentitySegmentProcessResult)
        ensures
            r.claims_accepted == 0 && r.claims_rejected == 0 && r.claims_quarantined == 0 && r.claims_uncertain == 0,
    {
        IdentitySegmentProcessResult { claims_accepted: 0, claims_rejected: 0, claims_quarantined: 0, claims_uncertain: 0 }
    }

    /// Counts one transition.
    pub fn record(&mut self, t: ClaimTransition)
        requires
            old(self).claims_accepted < usize::MAX,
            old(self).claims_rejected < usize::MAX,
            old(self).claims_quarantined < usize::MAX,
            old(self).claims_uncertain < usize::MAX,
        ensures
            (final(self).claims_accepted as int, final(self).claims_rejected as int, final(self).claims_quarantined as int,
            final(self).claims_uncertain as int) == counted(
                old(self).claims_accepted,
                old(self).claims_rejected,
                old(self).claims_quarantined,
                old(self).claims_uncertain,
                t,
            ),
    {
        let (a, r, q, u) = count(self.claims_accepted, self.claims_rejected, self.claims_quarantined, self.claims_uncertain, t);
        self.claims_accepted = a;
        self.claims_rejected = r;
        self.claims_quarantined = q;
        self.claims_uncertain = u;
    }
}

impl KnowledgeSegmentProcessResult {
    /// No claim processed yet.
    pub fn new() -> (r: KnowledgeSegmentProcessResult)
        ensures
            r.claims_accepted == 0 && r.claims_rejected == 0 && r.claims_quarantined == 0 && r.claims_uncertain == 0,
    {
        KnowledgeSegmentProcessResult { claims_accepted: 0, claims_rejected: 0, claims_quarantined: 0, claims_uncertain: 0 }
    }

    /// Counts one transition.
    pub fn record(&mut self, t: ClaimTransition)
        requires
            old(self).claims_accepted < usize::MAX,
            old(self).claims_rejected < usize::MAX,
            old(self).claims_quarantined < usize::MAX,
            old(self).claims_uncertain < usize::MAX,
        ensures
            (final(self).claims_accepted as int, final(self).claims_rejected as int, final(self).claims_quarantined as int,
            final(self).claims_uncertain as int) == counted(
                old(self).claims_accepted,
                old(self).claims_rejected,
                old(self).claims_quarantined,
                old(self).claims_uncertain,
                t,
            ),
    {
        let (a, r, q, u) = count(self.claims_accepted, self.claims_rejected, self.claims_quarantined, self.claims_uncertain, t);
        self.claims_accepted = a;
        self.claims_rejected = r;
        self.claims_quarantined = q;
        self.claims_uncertain = u;
    }
}

/// A decision never accepts a claim without its write being applied: the
/// step of a write applies it, and every other step leaves the claim
/// unaccepted.
pub proof fn lemma_only_writes_accept(d: CharacterDecision, s: LifecycleStep)
    requires
        character_step_ok(d, s),
    ensures
        !(s matches LifecycleStep::Transition { transition, .. } && transition == ClaimTransition::Accept),
        s is ApplyWrite <==> d is Write,
{
}

} // verus!
