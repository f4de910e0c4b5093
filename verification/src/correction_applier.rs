//! Applying a stored correction: which canonical write a correction type
//! makes, what the applied event records, and what the caller is answered.
use vstd::prelude::*;
use crate::correction::{is_positive_canonical_fact, positive_canonical_facts};
use crate::text::{join2, owned, str_eq};

verus! {

/// How the application of a correction ended.
#[derive(Debug, Clone, Copy, PartialEq, Eq, Structural)]
pub enum CorrectionApplyStatus {
    Applied,
    AlreadyApplied,
    Failed,
}

/// What the caller is answered for one correction.
#[derive(Debug, Clone)]
pub struct CorrectionApplyResult {
    pub correction_id: String,
    pub status: CorrectionApplyStatus,
    pub message: Option<String>,
}

/// The canonical write that a correction makes.
#[derive(Debug, Clone)]
pub enum CorrectionAction {
    /// The claim's status becomes `rejected`.
    RejectClaim { claim_id: String },
    /// The relationship's status becomes `inactive`.
    DeactivateRelationship { book_id: String, relationship_id: String },
    /// The knowledge assertion's status becomes false in world.
    MarkKnowledgeAssertionFalse { book_id: String, assertion_id: String },
    /// The place edge's status becomes `deprecated`.
    DeprecatePlaceEdge { book_id: String, edge_id: String },
    /// The book's projection cache is dropped.
    InvalidateProjectionCache { book_id: String },
    /// Nothing canonical is written; the correction only moves through the workflow.
    WorkflowOnly,
}

/// A canonical write, over the texts of its ids.
pub enum PlannedWrite {
    RejectClaim(Seq<char>),
    DeactivateRelationship(Seq<char>, Seq<char>),
    MarkKnowledgeAssertionFalse(Seq<char>, Seq<char>),
    DeprecatePlaceEdge(Seq<char>, Seq<char>),
    InvalidateProjectionCache(Seq<char>),
    WorkflowOnly,
}

impl View for CorrectionAction {
    type V = PlannedWrite;

    open spec fn view(&self) -> PlannedWrite {
        match *self {
            CorrectionAction::RejectClaim { claim_id } => PlannedWrite::RejectClaim(claim_id@),
            CorrectionAction::DeactivateRelationship { book_id, relationship_id } => PlannedWrite::DeactivateRelationship(
                book_id@,
                relationship_id@,
            ),
            CorrectionAction::MarkKnowledgeAssertionFalse { book_id, assertion_id } => PlannedWrite::MarkKnowledgeAssertionFalse(
                book_id@,
                assertion_id@,
            ),
            CorrectionAction::DeprecatePlaceEdge { book_id, edge_id } => PlannedWrite::DeprecatePlaceEdge(book_id@, edge_id@),
            CorrectionAction::InvalidateProjectionCache { book_id } => PlannedWrite::InvalidateProjectionCache(book_id@),
            CorrectionAction::WorkflowOnly => PlannedWrite::WorkflowOnly,
        }
    }
}

/// The write of a correction and the JSON that its applied event records.
#[derive(Debug, Clone)]
pub struct CorrectionPlan {
    pub action: CorrectionAction,
    pub after_json: String,
}

/// The JSON recorded for an applied correction: `{"<key>":"<id>",<rest>}`.
pub open spec fn after_json(key: Seq<char>, id: Seq<char>, rest: Seq<char>) -> Seq<char> {
    "{\""@ + key + "\":\""@ + id + "\","@ + rest + "}"@
}

/// What a correction of `correction_type` on `target_id` in `book_id` writes
/// and records, or why it is not applied here.
#[verifier::opaque]
pub open spec fn correction_plan_spec(correction_type: Seq<char>, target_id: Seq<char>, book_id: Seq<char>) -> Result<
    (PlannedWrite, Seq<char>),
    Seq<char>,
> {
    if correction_type == "reject_claim"@ {
        Ok((PlannedWrite::RejectClaim(target_id), after_json("claimId"@, target_id, "\"status\":\"rejected\""@)))
    } else if correction_type == "retry_claim"@ || correction_type == "reprocess_scope"@ {
        Err("reprocess corrections must be routed through reprocess job service"@)
    } else if positive_canonical_facts().contains(correction_type) {
        Err("positive canonical correction requires domain reducer implementation"@)
    } else if correction_type == "mark_not_same_entity"@ || correction_type == "split_required"@ {
        Err("identity correction apply is handled by identity reducer in a later route"@)
    } else if correction_type == "deactivate_relationship"@ {
        Ok((
            PlannedWrite::DeactivateRelationship(book_id, target_id),
            after_json("relationshipId"@, target_id, "\"status\":\"inactive\""@),
        ))
    } else if correction_type == "mark_knowledge_assertion_false"@ {
        Ok((
            PlannedWrite::MarkKnowledgeAssertionFalse(book_id, target_id),
            after_json("assertionId"@, target_id, "\"status\":\"false_in_world\""@),
        ))
    } else if correction_type == "deactivate_place_edge"@ {
        Ok((
            PlannedWrite::DeprecatePlaceEdge(book_id, target_id),
            after_json("placeEdgeId"@, target_id, "\"status\":\"deprecated\""@),
        ))
    } else if correction_type == "mark_place_edge_conflict"@ {
        Err("mark_place_edge_conflict requires source claim context and map conflict route"@)
    } else if correction_type == "rebuild_projection"@ {
        Ok((
            PlannedWrite::InvalidateProjectionCache(book_id),
            after_json("bookId"@, book_id, "\"projectionCache\":\"invalidated\""@),
        ))
    } else if correction_type == "reclassify_claim"@ {
        Ok((PlannedWrite::WorkflowOnly, after_json("claimId"@, target_id, "\"status\":\"workflow-only\""@)))
    } else {
        Err("unsupported correction_type: "@ + correction_type)
    }
}

/// The view of a plan, or of the reason there is none.
pub open spec fn plan_view(r: Result<CorrectionPlan, String>) -> Result<(PlannedWrite, Seq<char>), Seq<char>> {
    match r {
        Ok(p) => Ok((p.action@, p.after_json@)),
        Err(e) => Err(e@),
    }
}

fn json_after(key: &str, id: &str, rest: &str) -> (r: String)
    ensures
        r@ == after_json(key@, id@, rest@),
{
    let mut s = String::from_str("{\"");
    s.append(key);
    s.append("\":\"");
    s.append(id);
    s.append("\",");
    s.append(rest);
    s.append("}");
    s
}

fn plan(action: CorrectionAction, after: String) -> (r: Result<CorrectionPlan, String>)
    ensures
        r matches Ok(p) && p.action == action && p.after_json == after,
{
    Ok(CorrectionPlan { action, after_json: after })
}

/// Plans the canonical write of a correction.
pub fn plan_correction(correction_type: &str, target_id: &str, book_id: &str) -> (r: Result<CorrectionPlan, String>)
    ensures
        plan_view(r) == correction_plan_spec(correction_type@, target_id@, book_id@),
{
    proof {
        reveal(correction_plan_spec);
    }
    let t = correction_type;
    if str_eq(t, "reject_claim") {
        let after = json_after("claimId", target_id, "\"status\":\"rejected\"");
        plan(CorrectionAction::RejectClaim { claim_id: owned(target_id) }, after)
    } else if str_eq(t, "retry_claim") || str_eq(t, "reprocess_scope") {
        Err(owned("reprocess corrections must be routed through reprocess job service"))
    } else if is_positive_canonical_fact(t) {
        Err(owned("positive canonical correction requires domain reducer implementation"))
    } else if str_eq(t, "mark_not_same_entity") || str_eq(t, "split_required") {
        Err(owned("identity correction apply is handled by identity reducer in a later route"))
    } else if str_eq(t, "deactivate_relationship") {
        let after = json_after("relationshipId", target_id, "\"status\":\"inactive\"");
        plan(
            CorrectionAction::DeactivateRelationship { book_id: owned(book_id), relationship_id: owned(target_id) },
            after,
        )
    } else if str_eq(t, "mark_knowledge_assertion_false") {
        let after = json_after("assertionId", target_id, "\"status\":\"false_in_world\"");
        plan(
            CorrectionAction::MarkKnowledgeAssertionFalse { book_id: owned(book_id), assertion_id: owned(target_id) },
            after,
        )
    } else if str_eq(t, "deactivate_place_edge") {
        let after = json_after("placeEdgeId", target_id, "\"status\":\"deprecated\"");
        plan(CorrectionAction::DeprecatePlaceEdge { book_id: owned(book_id), edge_id: owned(target_id) }, after)
    } else if str_eq(t, "mark_place_edge_conflict") {
        Err(owned("mark_place_edge_conflict requires source claim context and map conflict route"))
    } else if str_eq(t, "rebuild_projection") {
        let after = json_after("bookId", book_id, "\"projectionCache\":\"invalidated\"");
        plan(CorrectionAction::InvalidateProjectionCache { book_id: owned(book_id) }, after)
    } else if str_eq(t, "reclassify_claim") {
        let after = json_after("claimId", target_id, "\"status\":\"workflow-only\"");
        plan(CorrectionAction::WorkflowOnly, after)
    } else {
        Err(join2("unsupported correction_type: ", t))
    }
}

/// The answer for a correction whose stored status is `status`, when that
/// already settles it: a correction already applied is answered as such and
/// not applied again.
pub fn already_applied(correction_id: &str, status: &str) -> (r: Option<CorrectionApplyResult>)
    ensures
        status@ == "applied"@ <==> r is Some,
        r matches Some(res) ==> (res.correction_id@ == correction_id@
            && res.status == CorrectionApplyStatus::AlreadyApplied
            && (res.message matches Some(m) && m@ == "correction already applied"@)),
{
    if str_eq(status, "applied") {
        Some(CorrectionApplyResult {
            correction_id: owned(correction_id),
            status: CorrectionApplyStatus::AlreadyApplied,
            message: Some(owned("correction already applied")),
        })
    } else {
        None
    }
}

/// The answer once validation and the write have run: applied when both
/// succeeded (`outcome` holds the applied event's JSON), else failed with the
/// error's text.
pub fn apply_outcome(correction_id: &str, outcome: Result<String, String>) -> (r: CorrectionApplyResult)
    ensures
        r.correction_id@ == correction_id@,
        outcome is Ok ==> r.status == CorrectionApplyStatus::Applied && r.message is None,
        outcome matches Err(e) ==> r.status == CorrectionApplyStatus::Failed && r.message == Some(e),
{
    match outcome {
        Ok(_) => CorrectionApplyResult {
            correction_id: owned(correction_id),
            status: CorrectionApplyStatus::Applied,
            message: None,
        },
        Err(e) => CorrectionApplyResult {
            correction_id: owned(correction_id),
            status: CorrectionApplyStatus::Failed,
            message: Some(e),
        },
    }
}

/// The status a correction is stored with after an attempt: `applied` once
/// applied (also when it already was), `failed` when the attempt failed.
pub open spec fn stored_status_spec(status: CorrectionApplyStatus) -> Seq<char> {
    match status {
        CorrectionApplyStatus::Failed => "failed"@,
        _ => "applied"@,
    }
}

/// The status a correction is stored with after an attempt answered `status`.
pub fn stored_status(status: CorrectionApplyStatus) -> (r: &'static str)
    ensures
        r@ == stored_status_spec(status),
{
    match status {
        CorrectionApplyStatus::Failed => "failed",
        _ => "applied",
    }
}

/// A correction is applied at most once: an attempt that did not fail
/// stores the status `applied`, which is exactly the status on which
/// `already_applied` answers the next attempt without applying again.
pub proof fn lemma_applied_correction_is_not_applied_again(status: CorrectionApplyStatus)
    requires
        status != CorrectionApplyStatus::Failed,
    ensures
        stored_status_spec(status) == "applied"@,
{
}

/// A correction that asserts a positive canonical fact is never written by
/// this applier: its plan is the refusal that a domain reducer is needed.
pub proof fn lemma_positive_fact_not_applied(correction_type: Seq<char>, target_id: Seq<char>, book_id: Seq<char>)
    requires
        positive_canonical_facts().contains(correction_type),
    ensures
        correction_plan_spec(correction_type, target_id, book_id)
            == Err::<(PlannedWrite, Seq<char>), Seq<char>>(
            "positive canonical correction requires domain reducer implementation"@,
        ),
{
    reveal(correction_plan_spec);
    reveal(positive_canonical_facts);
    reveal_strlit("reject_claim");
    reveal_strlit("retry_claim");
    reveal_strlit("reprocess_scope");
    reveal_strlit("accept_quarantined_claim");
    reveal_strlit("merge_entities");
    reveal_strlit("create_entity_link");
    reveal_strlit("correct_property");
    reveal_strlit("correct_relationship_label");
    reveal_strlit("revise_knowledge_assertion");
    reveal_strlit("correct_place_parent");
    let facts = positive_canonical_facts();
    let i = choose|i: int| 0 <= i < facts.len() && facts[i] == correction_type;
    assert(correction_type != "reject_claim"@) by {
        if correction_type == "reject_claim"@ {
            assert(correction_type[0] == 'r');
            assert(correction_type.len() == 12);
        }
    }
    assert(correction_type != "retry_claim"@) by {
        if correction_type == "retry_claim"@ {
            assert(correction_type.len() == 11);
        }
    }
    assert(correction_type != "reprocess_scope"@) by {
        if correction_type == "reprocess_scope"@ {
            assert(correction_type.len() == 15);
            assert(correction_type[0] == 'r');
        }
    }
}

} // verus!
