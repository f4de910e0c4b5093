//! The steps of preparing a segment's location claims for the place reducer.
//! The caller resolves place mentions, runs the map gate and the map judge, and
//! stores what these steps decide; the steps themselves are plain functions
//! from what came back to what happens next.
use vstd::prelude::*;
use crate::json::{
    entries_inserted, entries_inserted_if_absent, insert_member, insert_member_if_absent, members_get_str,
    members_get_string_array, members_str, members_string_array, shallow_entries, JsonShallow,
    JsonValue,
};
use crate::map_conflict_judge::{MapConflictDecision, MapConflictJudgeInput, MapConflictJudgeOutput};
use crate::map_gate::MapGateResult;
use crate::outcome::GateView;
use crate::pipeline::{
    claim_evidence_span_ids, claim_evidence_spec, float_shallow, insert_claim_evidence_span_ids, insert_if,
    inserted_if, is_text_array, map_judge_fields, map_output_json_ok, merge_map_gate_reason, merge_map_judge_output,
};
use crate::write_commands::views;
use crate::records::ClaimRecord;
use crate::score::finite_key;
use crate::text::{clone_opt, opt_view, owned, str_eq, string_views};

verus! {

/// Whether a claim is of `claim_type`.
pub open spec fn has_type(claim: ClaimRecord, claim_type: Seq<char>) -> bool {
    claim.claim_type@ == claim_type
}

/// The claims of `claim_type`, in order.
pub open spec fn claims_of_type_spec(claims: Seq<ClaimRecord>, claim_type: Seq<char>) -> Seq<ClaimRecord>
    decreases claims.len(),
{
    if claims.len() == 0 {
        Seq::empty()
    } else if has_type(claims.last(), claim_type) {
        claims_of_type_spec(claims.drop_last(), claim_type).push(claims.last())
    } else {
        claims_of_type_spec(claims.drop_last(), claim_type)
    }
}

/// The claims of `claim_type`, in order: a segment's location introductions
/// are prepared before its location edges.
pub fn claims_of_type(claims: &[ClaimRecord], claim_type: &str) -> (r: Vec<ClaimRecord>)
    ensures
        r@ == claims_of_type_spec(claims@, claim_type@),
{
    let mut out: Vec<ClaimRecord> = Vec::new();
    let mut i: usize = 0;
    while i < claims.len()
        invariant
            i <= claims@.len(),
            out@ == claims_of_type_spec(claims@.subrange(0, i as int), claim_type@),
        decreases claims.len() - i,
    {
        let ghost pre = claims@.subrange(0, i as int);
        assert(claims@.subrange(0, i + 1).drop_last() =~= pre);
        assert(claims@.subrange(0, i + 1).last() == claims@[i as int]);
        if str_eq(claims[i].claim_type.as_str(), claim_type) {
            out.push(claims[i].copy());
        }
        i = i + 1;
    }
    assert(claims@.subrange(0, claims@.len() as int) =~= claims@);
    out
}

/// What a location introduction asks the place resolver.
#[derive(Debug)]
pub struct PlaceQuery {
    pub mention: String,
    pub place_type: String,
    pub parent_place_mention: Option<String>,
    pub aliases: Vec<String>,
}

/// The text, or `default` when there is none.
pub open spec fn text_or(o: Option<Seq<char>>, default: Seq<char>) -> Seq<char> {
    match o {
        Some(t) => t,
        None => default,
    }
}

/// What a location introduction asks the resolver: its subject mention, with
/// the payload's place type (`unknown` when absent), parent place mention and
/// aliases; nothing when the claim names no subject.
pub fn introduction_query(claim: &ClaimRecord, payload: &Vec<(String, JsonValue)>) -> (r: Option<PlaceQuery>)
    ensures
        claim.subject_mention is None <==> r is None,
        r matches Some(q) ==> {
            &&& Some(q.mention@) == opt_view(claim.subject_mention)
            &&& q.place_type@ == text_or(members_str(payload@, "place_type"@), "unknown"@)
            &&& opt_view(q.parent_place_mention) == members_str(payload@, "parent_place_mention"@)
            &&& string_views(q.aliases@) == members_string_array(payload@, "aliases"@)
        },
{
    let mention = match &claim.subject_mention {
        Some(m) => m.clone(),
        None => return None,
    };
    let place_type = match members_get_str(payload, "place_type") {
        Some(t) => t.clone(),
        None => owned("unknown"),
    };
    let parent_place_mention = match members_get_str(payload, "parent_place_mention") {
        Some(p) => Some(p.clone()),
        None => None,
    };
    let aliases = members_get_string_array(payload, "aliases");
    Some(PlaceQuery { mention, place_type, parent_place_mention, aliases })
}

/// What the place resolver answered for one mention.
#[derive(Debug)]
pub struct PlaceResolution {
    /// The resolver could not settle the place.
    pub uncertain: bool,
    pub place_entity_id: Option<String>,
    pub parent_place_id: Option<String>,
    pub organization_link_candidate_id: Option<String>,
}

/// The payload members of a resolved introduction, before its evidence:
/// the parent place id when resolved, and an organization link candidate
/// with the link type `organization_place_pair` unless the payload names one.
pub open spec fn introduction_entries(es: Seq<(Seq<char>, JsonShallow)>, res: PlaceResolution) -> Seq<(Seq<char>, JsonShallow)> {
    let e1 = inserted_if(es, "parent_place_id"@, res.parent_place_id);
    match res.organization_link_candidate_id {
        Some(o) => entries_inserted_if_absent(
            entries_inserted(e1, "organization_link_candidate_id"@, JsonShallow::Str(o@)),
            "entity_link_type"@,
            JsonShallow::Str("organization_place_pair"@),
        ),
        None => e1,
    }
}

/// A location introduction once its place is resolved: nothing when the
/// resolver was uncertain (the claim stays uncertain), else its payload with
/// the resolution and the claim's evidence recorded, and the resolved place
/// as its subject entity.
pub fn resolved_introduction(
    claim: &ClaimRecord,
    payload: Vec<(String, JsonValue)>,
    resolution: &PlaceResolution,
) -> (r: Option<(Vec<(String, JsonValue)>, Option<String>)>)
    ensures
        resolution.uncertain <==> r is None,
        r matches Some((m, subject)) ==> {
            &&& subject == resolution.place_entity_id
            &&& exists|j: JsonShallow|
                is_text_array(j, claim_evidence_spec(*claim)) && shallow_entries(m@) == entries_inserted(
                    introduction_entries(shallow_entries(payload@), *resolution),
                    "evidence_span_ids"@,
                    j,
                )
        },
{
    if resolution.uncertain {
        return None;
    }
    let mut value = payload;
    insert_if(&mut value, "parent_place_id", &resolution.parent_place_id);
    match &resolution.organization_link_candidate_id {
        Some(org) => {
            insert_member(&mut value, "organization_link_candidate_id", JsonValue::Str(org.clone()));
            insert_member_if_absent(&mut value, "entity_link_type", JsonValue::Str(owned("organization_place_pair")));
        },
        None => {},
    }
    insert_claim_evidence_span_ids(&mut value, claim);
    Some((value, clone_opt(&resolution.place_entity_id)))
}

/// The two place mentions of a location edge; nothing when either is missing
/// (the claim becomes uncertain).
pub fn edge_mentions(claim: &ClaimRecord) -> (r: Option<(String, String)>)
    ensures
        r is None <==> (claim.subject_mention is None || claim.object_mention is None),
        r matches Some((from, to)) ==> Some(from@) == opt_view(claim.subject_mention) && Some(to@) == opt_view(
            claim.object_mention,
        ),
{
    match (&claim.subject_mention, &claim.object_mention) {
        (Some(from), Some(to)) => Some((from.clone(), to.clone())),
        _ => None,
    }
}

/// The resolved places of a location edge's two ends; nothing unless both
/// resolved to a place (the claim becomes uncertain).
pub fn edge_endpoints(from: &PlaceResolution, to: &PlaceResolution) -> (r: Option<(String, String)>)
    ensures
        r is None <==> (from.place_entity_id is None || to.place_entity_id is None),
        r matches Some((f, t)) ==> Some(f@) == opt_view(from.place_entity_id) && Some(t@) == opt_view(to.place_entity_id),
{
    match (&from.place_entity_id, &to.place_entity_id) {
        (Some(f), Some(t)) => Some((f.clone(), t.clone())),
        _ => None,
    }
}

/// Records a location edge's resolved ends and the claim's evidence in its payload.
pub fn record_edge_endpoints(value: &mut Vec<(String, JsonValue)>, claim: &ClaimRecord, from_place_id: &str, to_place_id: &str)
    ensures
        exists|j: JsonShallow|
            is_text_array(j, claim_evidence_spec(*claim)) && shallow_entries(final(value)@) == entries_inserted(
                entries_inserted(
                    entries_inserted(shallow_entries(old(value)@), "from_place_id"@, JsonShallow::Str(from_place_id@)),
                    "to_place_id"@,
                    JsonShallow::Str(to_place_id@),
                ),
                "evidence_span_ids"@,
                j,
            ),
{
    insert_member(value, "from_place_id", JsonValue::Str(owned(from_place_id)));
    insert_member(value, "to_place_id", JsonValue::Str(owned(to_place_id)));
    insert_claim_evidence_span_ids(value, claim);
}

/// What follows the map gate or the map judge for a location edge.
#[derive(Debug, Clone, Copy, PartialEq, Eq, Structural)]
pub enum EdgeStep {
    /// The edge goes on to the map conflict judge.
    ToJudge,
    /// The edge goes to the place reducer, at medium risk.
    Reduce,
    /// The claim becomes uncertain and goes no further.
    Uncertain,
}

/// What follows the map gate: a pass goes to the judge; a rejection is
/// recorded and goes to the reducer (which turns it into a rejected no-write);
/// an uncertain outcome is recorded and stops there.
pub fn after_edge_gate(value: &mut Vec<(String, JsonValue)>, gate: &MapGateResult) -> (s: EdgeStep)
    ensures
        gate@ is Pass ==> s == EdgeStep::ToJudge && final(value)@ == old(value)@,
        gate@ matches GateView::Reject(reason) ==> s == EdgeStep::Reduce && shallow_entries(final(value)@)
            == entries_inserted(
            entries_inserted(shallow_entries(old(value)@), "judge_decision"@, JsonShallow::Str("reject"@)),
            "reason_code"@,
            JsonShallow::Str(reason),
        ),
        gate@ matches GateView::Uncertain(reason) ==> s == EdgeStep::Uncertain && shallow_entries(final(value)@)
            == entries_inserted(
            entries_inserted(shallow_entries(old(value)@), "judge_decision"@, JsonShallow::Str("uncertain"@)),
            "reason_code"@,
            JsonShallow::Str(reason),
        ),
        gate@ matches GateView::Reject(reason) ==> members_str(final(value)@, "judge_decision"@) == Some("reject"@)
            && members_str(final(value)@, "reason_code"@) == Some(reason),
        gate@ matches GateView::Uncertain(reason) ==> members_str(final(value)@, "judge_decision"@) == Some(
            "uncertain"@,
        ) && members_str(final(value)@, "reason_code"@) == Some(reason),
{
    match gate {
        MapGateResult::Pass => EdgeStep::ToJudge,
        MapGateResult::Reject(reason) => {
            merge_map_gate_reason(value, "reject", reason.as_str());
            EdgeStep::Reduce
        },
        MapGateResult::Uncertain(reason) => {
            merge_map_gate_reason(value, "uncertain", reason.as_str());
            EdgeStep::Uncertain
        },
    }
}

/// The map context line of an active place edge: `from edge_type to`.
pub fn map_context_line(from_place_id: &str, to_place_id: &str, edge_type: &str) -> (r: String)
    ensures
        r@ == from_place_id@ + " "@ + edge_type@ + " "@ + to_place_id@,
{
    let mut s = owned(from_place_id);
    s.append(" ");
    s.append(edge_type);
    s.append(" ");
    s.append(to_place_id);
    s
}

/// What the map conflict judge is asked about a location edge that passed
/// the map gate: its edge type is the payload's, `connected_to` when absent.
pub fn edge_judge_input(
    book_id: &str,
    chapter_index: i64,
    claim: &ClaimRecord,
    from_mention: &str,
    to_mention: &str,
    payload: &Vec<(String, JsonValue)>,
    existing_map_context: Vec<String>,
) -> (r: MapConflictJudgeInput)
    ensures
        r.book_id@ == book_id@,
        r.chapter_index == chapter_index,
        r.claim_id@ == claim.id@,
        r.claim_type@ == claim.claim_type@,
        r.from_place_mention@ == from_mention@,
        r.to_place_mention@ == to_mention@,
        r.edge_type@ == text_or(members_str(payload@, "edge_type"@), "connected_to"@),
        views(r.evidence_spans@) == claim_evidence_spec(*claim),
        r.existing_map_context@ == existing_map_context@,
        r.boundary_warnings@.len() == 0,
{
    let edge_type = match members_get_str(payload, "edge_type") {
        Some(t) => t.clone(),
        None => owned("connected_to"),
    };
    MapConflictJudgeInput {
        book_id: owned(book_id),
        chapter_index,
        claim_id: claim.id.clone(),
        claim_type: claim.claim_type.clone(),
        from_place_mention: owned(from_mention),
        to_place_mention: owned(to_mention),
        edge_type,
        evidence_spans: claim_evidence_span_ids(claim),
        existing_map_context,
        boundary_warnings: Vec::new(),
    }
}

/// What follows the map judge: its answer is recorded; an uncertain answer
/// makes the claim uncertain, any other sends it to the reducer at medium
/// risk. A confidence that is not finite fails.
pub fn after_edge_judge(value: &mut Vec<(String, JsonValue)>, output: &MapConflictJudgeOutput) -> (r: Result<EdgeStep, String>)
    ensures
        finite_key(output.confidence) <==> r is Ok,
        r matches Err(e) ==> e@ == "invalid map judge confidence"@ && shallow_entries(final(value)@) == map_judge_fields(
            shallow_entries(old(value)@),
            *output,
        ),
        r matches Ok(s) ==> {
            &&& (s == EdgeStep::Uncertain <==> output.decision == MapConflictDecision::Uncertain)
            &&& (s != EdgeStep::Uncertain ==> s == EdgeStep::Reduce)
            &&& exists|j: JsonShallow|
                map_output_json_ok(j, *output) && shallow_entries(final(value)@) == entries_inserted(
                    entries_inserted(
                        map_judge_fields(shallow_entries(old(value)@), *output),
                        "judge_confidence"@,
                        float_shallow(output.confidence),
                    ),
                    "judge_output"@,
                    j,
                )
        },
{
    merge_map_judge_output(value, output)?;
    if output.decision == MapConflictDecision::Uncertain {
        Ok(EdgeStep::Uncertain)
    } else {
        Ok(EdgeStep::Reduce)
    }
}

/// How far the preparation of a location edge has come.
#[derive(Debug, Clone, Copy, PartialEq, Eq, Structural)]
pub enum EdgeStage {
    /// Nothing is known yet.
    Start,
    /// Both place mentions are present; their places are being resolved.
    Resolving,
    /// Both ends resolved to places; the map gate is being run.
    Gating,
    /// The map gate passed; the map judge is consulted.
    Judging,
    /// The claim's preparation is over.
    Finished,
}

/// What came back from the work of a stage.
#[derive(Debug)]
pub enum EdgeEvent {
    /// The claim's mentions were read: whether both are present.
    MentionsRead { both_present: bool },
    /// The two mentions were resolved: whether both became places.
    EndpointsResolved { both_resolved: bool },
    /// The map gate ran; what `after_edge_gate` made of it.
    Gated { step: EdgeStep },
    /// The map judge answered; what `after_edge_judge` made of it.
    Judged { step: Result<EdgeStep, String> },
}

/// What the caller does next for a location edge.
#[derive(Debug, Clone, Copy, PartialEq, Eq, Structural)]
pub enum EdgeAction {
    /// Resolve the two place mentions.
    ResolveEndpoints,
    /// Run the map gate on the resolved claim.
    RunGate,
    /// Ask the map conflict judge.
    CallJudge,
    /// Store the claim as uncertain; it goes no further.
    MarkUncertain,
    /// Hand the claim to the place reducer at medium risk.
    Reduce,
    /// The judge's answer could not be recorded; the map phase fails.
    Fail,
    /// The event does not belong to the stage; nothing happens.
    Ignore,
}

/// The next stage and action of a location edge's preparation.
pub open spec fn edge_next(stage: EdgeStage, event: EdgeEvent) -> (EdgeStage, EdgeAction) {
    match (stage, event) {
        (EdgeStage::Start, EdgeEvent::MentionsRead { both_present }) => if both_present {
            (EdgeStage::Resolving, EdgeAction::ResolveEndpoints)
        } else {
            (EdgeStage::Finished, EdgeAction::MarkUncertain)
        },
        (EdgeStage::Resolving, EdgeEvent::EndpointsResolved { both_resolved }) => if both_resolved {
            (EdgeStage::Gating, EdgeAction::RunGate)
        } else {
            (EdgeStage::Finished, EdgeAction::MarkUncertain)
        },
        (EdgeStage::Gating, EdgeEvent::Gated { step }) => match step {
            EdgeStep::ToJudge => (EdgeStage::Judging, EdgeAction::CallJudge),
            EdgeStep::Reduce => (EdgeStage::Finished, EdgeAction::Reduce),
            EdgeStep::Uncertain => (EdgeStage::Finished, EdgeAction::MarkUncertain),
        },
        (EdgeStage::Judging, EdgeEvent::Judged { step }) => match step {
            Ok(EdgeStep::Uncertain) => (EdgeStage::Finished, EdgeAction::MarkUncertain),
            Ok(_) => (EdgeStage::Finished, EdgeAction::Reduce),
            Err(_) => (EdgeStage::Finished, EdgeAction::Fail),
        },
        _ => (stage, EdgeAction::Ignore),
    }
}

/// The step of a location edge's preparation: from its stage and what the
/// last piece of work gave, the next stage and what to do. Missing mentions,
/// an unresolved end, an uncertain gate or an uncertain judge make the claim
/// uncertain; a gate rejection and a judge answer other than uncertain hand it
/// to the reducer at medium risk; the judge is consulted only once the map gate passed.
pub fn edge_claim_step(stage: EdgeStage, event: &EdgeEvent) -> (r: (EdgeStage, EdgeAction))
    ensures
        r == edge_next(stage, *event),
{
    match (stage, event) {
        (EdgeStage::Start, EdgeEvent::MentionsRead { both_present }) => if *both_present {
            (EdgeStage::Resolving, EdgeAction::ResolveEndpoints)
        } else {
            (EdgeStage::Finished, EdgeAction::MarkUncertain)
        },
        (EdgeStage::Resolving, EdgeEvent::EndpointsResolved { both_resolved }) => if *both_resolved {
            (EdgeStage::Gating, EdgeAction::RunGate)
        } else {
            (EdgeStage::Finished, EdgeAction::MarkUncertain)
        },
        (EdgeStage::Gating, EdgeEvent::Gated { step }) => match step {
            EdgeStep::ToJudge => (EdgeStage::Judging, EdgeAction::CallJudge),
            EdgeStep::Reduce => (EdgeStage::Finished, EdgeAction::Reduce),
            EdgeStep::Uncertain => (EdgeStage::Finished, EdgeAction::MarkUncertain),
        },
        (EdgeStage::Judging, EdgeEvent::Judged { step }) => match step {
            Ok(EdgeStep::Uncertain) => (EdgeStage::Finished, EdgeAction::MarkUncertain),
            Ok(_) => (EdgeStage::Finished, EdgeAction::Reduce),
            Err(_) => (EdgeStage::Finished, EdgeAction::Fail),
        },
        _ => (stage, EdgeAction::Ignore),
    }
}

/// The stage reached after `events`, from the start.
pub open spec fn edge_stage_after(events: Seq<EdgeEvent>) -> EdgeStage
    decreases events.len(),
{
    if events.len() == 0 {
        EdgeStage::Start
    } else {
        edge_next(edge_stage_after(events.drop_last()), events.last()).0
    }
}

/// The action taken on the `i`-th of `events`.
pub open spec fn edge_action_at(events: Seq<EdgeEvent>, i: int) -> EdgeAction {
    edge_next(edge_stage_after(events.subrange(0, i)), events[i]).1
}

proof fn lemma_edge_stage_history(events: Seq<EdgeEvent>, k: int)
    requires
        0 <= k <= events.len(),
    ensures
        edge_stage_after(events.subrange(0, k)) == EdgeStage::Resolving ==> exists|a: int|
            0 <= a < k && #[trigger] events[a] matches EdgeEvent::MentionsRead { both_present: true },
        edge_stage_after(events.subrange(0, k)) == EdgeStage::Gating ==> exists|a: int, b: int|
            0 <= a < b < k && (#[trigger] events[a] matches EdgeEvent::MentionsRead { both_present: true })
                && (#[trigger] events[b] matches EdgeEvent::EndpointsResolved { both_resolved: true }),
    decreases k,
{
    if k > 0 {
        lemma_edge_stage_history(events, k - 1);
        assert(events.subrange(0, k).drop_last() =~= events.subrange(0, k - 1));
        assert(events.subrange(0, k).last() == events[k - 1]);
    }
}

proof fn lemma_edge_stage_late_stays_late(events: Seq<EdgeEvent>, k: int, m: int)
    requires
        0 <= k <= m <= events.len(),
        edge_stage_after(events.subrange(0, k)) == EdgeStage::Judging || edge_stage_after(events.subrange(0, k))
            == EdgeStage::Finished,
    ensures
        edge_stage_after(events.subrange(0, m)) == EdgeStage::Judging || edge_stage_after(events.subrange(0, m))
            == EdgeStage::Finished,
    decreases m - k,
{
    if k < m {
        assert(events.subrange(0, k + 1).drop_last() =~= events.subrange(0, k));
        assert(events.subrange(0, k + 1).last() == events[k]);
        lemma_edge_stage_late_stays_late(events, k + 1, m);
    }
}

/// The map judge is asked about a location edge at most once, and only after
/// both its mentions were present, both ends resolved to places, and the map
/// gate passed; every other outcome stops the claim without asking it.
pub proof fn lemma_edge_judge_called_once_after_gate(events: Seq<EdgeEvent>)
    ensures
        forall|i: int|
            0 <= i < events.len() && #[trigger] edge_action_at(events, i) == EdgeAction::CallJudge ==> {
                &&& events[i] matches EdgeEvent::Gated { step: EdgeStep::ToJudge }
                &&& exists|a: int, b: int|
                    0 <= a < b < i && (#[trigger] events[a] matches EdgeEvent::MentionsRead { both_present: true })
                        && (#[trigger] events[b] matches EdgeEvent::EndpointsResolved { both_resolved: true })
            },
        forall|i: int, j: int|
            0 <= i < j < events.len() && #[trigger] edge_action_at(events, i) == EdgeAction::CallJudge
                ==> #[trigger] edge_action_at(events, j) != EdgeAction::CallJudge,
{
    assert forall|i: int|
        0 <= i < events.len() && #[trigger] edge_action_at(events, i) == EdgeAction::CallJudge implies {
            &&& events[i] matches EdgeEvent::Gated { step: EdgeStep::ToJudge }
            &&& exists|a: int, b: int|
                0 <= a < b < i && (#[trigger] events[a] matches EdgeEvent::MentionsRead { both_present: true })
                    && (#[trigger] events[b] matches EdgeEvent::EndpointsResolved { both_resolved: true })
        } by {
        lemma_edge_stage_history(events, i);
    }
    assert forall|i: int, j: int|
        0 <= i < j < events.len() && #[trigger] edge_action_at(events, i) == EdgeAction::CallJudge
            implies #[trigger] edge_action_at(events, j) != EdgeAction::CallJudge by {
        assert(events.subrange(0, i + 1).drop_last() =~= events.subrange(0, i));
        assert(events.subrange(0, i + 1).last() == events[i]);
        assert(edge_stage_after(events.subrange(0, i + 1)) == EdgeStage::Judging);
        lemma_edge_stage_late_stays_late(events, i + 1, j);
    }
}

} // verus!
