//! The place decision layer: a location claim, its resolution, the map gate
//! and the map judge's answer become a typed place write, a no-write or a
//! quarantine.
use vstd::prelude::*;
use crate::json::{bool_member, get_bool, get_integer, get_number, has_key, has_member, json_get, number_member, trimmed_str_member, JsonValue};
use crate::ledger_payload::{
    claim_payload_object, ensure_claim_type_in, forbidden_check, not_a_message, optional_string,
    optional_string_array, parsed_view, payload_object_spec, reject_forbidden_fields, trimmed_string_array,
};
use crate::map_conflict_judge::{MapConflictDecision, MapConflictJudgeOutput};
use crate::records::ClaimRecord;
use crate::score::Score;
use crate::text::{is_blank, join2, opt_view, owned, str_eq, str_is_blank, views_of};
use crate::write_commands::{
    single_evidence, views, PlaceWriteAction, PlaceWriteCommand, PlaceWriteConflictAction, PlaceWriteEdgeAction,
    PlaceWriteOrganizationLink, PlaceWritePlaceAction, PlaceWriteProvenance,
};

verus! {

/// A ledger location claim, with the fields of its payload read.
#[derive(Debug, Clone)]
pub struct LedgerPlaceClaim {
    pub claim_id: String,
    pub book_id: String,
    pub chapter_index: i64,
    pub kind: LedgerPlaceClaimKind,
    pub primary_source_span_id: String,
    pub confidence: Score,
    pub status: String,
}

/// What a location claim states: a place, or an edge between two places.
#[derive(Debug, Clone)]
pub enum LedgerPlaceClaimKind {
    Introduction {
        display_name: String,
        place_type: String,
        aliases: Vec<String>,
        parent_place_mention: Option<String>,
        scale_level: i64,
        importance_score: Score,
        map_visible: bool,
    },
    Edge {
        from_mention: String,
        to_mention: String,
        edge_type: String,
        direction_hint: Option<String>,
        distance_hint: Option<String>,
    },
}

/// What the place decision layer decides for one claim.
#[derive(Debug, Clone)]
pub enum PlaceDecision {
    Invalid(PlaceDecisionRejection),
    NoWrite(PlaceNoWrite),
    Quarantine(PlaceQuarantine),
    Write(PlaceWriteCommand),
}

/// A claim refused as invalid, with the reason.
#[derive(Debug, Clone)]
pub struct PlaceDecisionRejection {
    pub claim_id: String,
    pub reason: String,
}

/// A claim that leads to no write.
#[derive(Debug, Clone)]
pub struct PlaceNoWrite {
    pub claim_id: String,
    pub status: PlaceNoWriteStatus,
    pub reason_code: String,
}

/// Why a claim leads to no write.
#[derive(Debug, Clone, Copy, PartialEq, Eq, Structural)]
pub enum PlaceNoWriteStatus {
    Rejected,
    Uncertain,
}

/// A claim held back for review, with the reason.
#[derive(Debug, Clone)]
pub struct PlaceQuarantine {
    pub claim_id: String,
    pub reason: String,
}

/// What the decision layer is told besides the claim: how it resolved, what
/// the map gate said, and the map judge's answer when it was asked.
#[derive(Debug, Clone)]
pub struct PlaceDecisionContext {
    pub resolution: PlaceResolutionForDecision,
    pub gate: PlaceGateDecision,
    pub judge_output: Option<MapConflictJudgeOutput>,
}

/// How a location claim resolved.
#[derive(Debug, Clone)]
pub enum PlaceResolutionForDecision {
    Place {
        resolved_place_entity_id: Option<String>,
        parent_place_id: Option<String>,
        organization_link: Option<PlaceWriteOrganizationLink>,
    },
    Edge { from_place_id: String, to_place_id: String },
}

/// What the map gate said of the claim.
#[derive(Debug, Clone)]
pub enum PlaceGateDecision {
    Pass,
    Reject(String),
    Uncertain(String),
}

/// Payload fields that belong to the map judge or to resolution, not to the ledger.
pub open spec fn place_judge_fields() -> Seq<Seq<char>> {
    seq![
        "judge_decision"@, "normalized_edge_type"@, "normalized_direction_hint"@, "normalized_distance_hint"@,
        "conflict_type"@, "reason_code"@, "judge_confidence"@, "judge_output"@, "from_place_id"@, "to_place_id"@,
        "parent_place_id"@, "organization_link_candidate_id"@,
    ]
}

/// A mention that is present and not blank.
pub open spec fn filled(m: Option<String>) -> bool {
    m is Some && !is_blank(m->0@)
}

/// The map visibility of a place: its `map_visible_hint` when that member is
/// present, else its `map_visible`; visible unless the member is `false`.
pub open spec fn map_visible_of(object: JsonValue) -> bool {
    let b = if has_member(object, "map_visible_hint"@) {
        bool_member(object, "map_visible_hint"@)
    } else {
        bool_member(object, "map_visible"@)
    };
    match b {
        Some(v) => v,
        None => true,
    }
}

/// The integer member `key`, if it is one.
pub open spec fn integer_member(object: JsonValue, key: Seq<char>) -> Option<i64> {
    match json_get(object, key) {
        Some(JsonValue::Number(n)) => n.integer,
        _ => None,
    }
}

/// The first failure in reading a location claim, if any: the claim type,
/// the payload object, the judge fields, then the mentions and edge type
/// that the claim's kind needs.
pub open spec fn place_claim_error(claim: ClaimRecord, parsed: Result<JsonValue, Seq<char>>) -> Option<Seq<char>> {
    if !(claim.claim_type@ == "location_introduction"@ || claim.claim_type@ == "location_edge"@) {
        Some(not_a_message(claim, "place claim"@))
    } else {
        match payload_object_spec(claim, parsed, "place"@) {
            Err(e) => Some(e),
            Ok(object) => match forbidden_check(claim, object, "place"@, "judge field"@, place_judge_fields()) {
                Err(e) => Some(e),
                Ok(_) => if claim.claim_type@ == "location_introduction"@ {
                    if !filled(claim.subject_mention) {
                        Some("location_introduction missing subject_mention"@)
                    } else {
                        None
                    }
                } else if !filled(claim.subject_mention) {
                    Some("location_edge missing subject_mention"@)
                } else if !filled(claim.object_mention) {
                    Some("location_edge missing object_mention"@)
                } else if trimmed_str_member(object, "edge_type"@) is None {
                    Some("location_edge missing edge_type"@)
                } else {
                    None
                },
            },
        }
    }
}

/// The ledger claim read from a location claim whose fields read without failure.
pub open spec fn place_claim_matches(claim: ClaimRecord, object: JsonValue, c: LedgerPlaceClaim) -> bool {
    &&& c.claim_id@ == claim.id@
    &&& c.book_id@ == claim.book_id@
    &&& c.chapter_index == claim.chapter_index
    &&& c.primary_source_span_id@ == claim.primary_source_span_id@
    &&& c.confidence == claim.confidence
    &&& c.status@ == claim.status@
    &&& if claim.claim_type@ == "location_introduction"@ {
        c.kind matches LedgerPlaceClaimKind::Introduction {
            display_name,
            place_type,
            aliases,
            parent_place_mention,
            scale_level,
            importance_score,
            map_visible,
        } && {
            &&& display_name@ == claim.subject_mention->0@
            &&& place_type@ == match trimmed_str_member(object, "place_type"@) {
                Some(t) => t,
                None => "unknown"@,
            }
            &&& views(aliases@) == trimmed_string_array(object, "aliases"@)
            &&& opt_view(parent_place_mention) == trimmed_str_member(object, "parent_place_mention"@)
            &&& scale_level == match integer_member(object, "scale_level"@) {
                Some(n) => n,
                None => 0i64,
            }
            &&& importance_score == match number_member(object, "importance_score"@) {
                Some(s) => s,
                None => claim.confidence.clamped_unit(),
            }
            &&& map_visible == map_visible_of(object)
        }
    } else {
        c.kind matches LedgerPlaceClaimKind::Edge { from_mention, to_mention, edge_type, direction_hint, distance_hint }
            && {
            &&& from_mention@ == claim.subject_mention->0@
            &&& to_mention@ == claim.object_mention->0@
            &&& Some(edge_type@) == trimmed_str_member(object, "edge_type"@)
            &&& opt_view(direction_hint) == trimmed_str_member(object, "direction_hint"@)
            &&& opt_view(distance_hint) == trimmed_str_member(object, "distance_hint"@)
        }
    }
}

fn filled_mention(m: &Option<String>, missing: &str) -> (r: Result<String, String>)
    ensures
        match r {
            Ok(s) => filled(*m) && s@ == m->0@,
            Err(e) => !filled(*m) && e@ == missing@,
        },
{
    match m {
        Some(s) => {
            if str_is_blank(s.as_str()) {
                Err(owned(missing))
            } else {
                Ok(s.clone())
            }
        },
        None => Err(owned(missing)),
    }
}

fn read_map_visible(object: &JsonValue) -> (r: bool)
    ensures
        r == map_visible_of(*object),
{
    let b = if has_key(object, "map_visible_hint") {
        get_bool(object, "map_visible_hint")
    } else {
        get_bool(object, "map_visible")
    };
    match b {
        Some(v) => v,
        None => true,
    }
}

fn introduction_kind(claim: &ClaimRecord, object: &JsonValue) -> (r: Result<LedgerPlaceClaimKind, String>)
    ensures
        match r {
            Ok(k) => filled(claim.subject_mention) && {
                let c = LedgerPlaceClaim {
                    claim_id: claim.id,
                    book_id: claim.book_id,
                    chapter_index: claim.chapter_index,
                    kind: k,
                    primary_source_span_id: claim.primary_source_span_id,
                    confidence: claim.confidence,
                    status: claim.status,
                };
                claim.claim_type@ == "location_introduction"@ ==> place_claim_matches(*claim, *object, c)
            },
            Err(e) => !filled(claim.subject_mention) && e@ == "location_introduction missing subject_mention"@,
        },
{
    let display_name = match filled_mention(&claim.subject_mention, "location_introduction missing subject_mention") {
        Ok(s) => s,
        Err(e) => return Err(e),
    };
    let place_type = match optional_string(object, "place_type") {
        Some(t) => t,
        None => owned("unknown"),
    };
    let scale_level: i64 = match get_integer(object, "scale_level") {
        Some(n) => n,
        None => 0,
    };
    let importance_score = match get_number(object, "importance_score") {
        Some(s) => s,
        None => claim.confidence.clamp_unit(),
    };
    Ok(LedgerPlaceClaimKind::Introduction {
        display_name,
        place_type,
        aliases: optional_string_array(object, "aliases"),
        parent_place_mention: optional_string(object, "parent_place_mention"),
        scale_level,
        importance_score,
        map_visible: read_map_visible(object),
    })
}

fn edge_kind(claim: &ClaimRecord, object: &JsonValue) -> (r: Result<LedgerPlaceClaimKind, String>)
    ensures
        match r {
            Ok(k) => filled(claim.subject_mention) && filled(claim.object_mention) && trimmed_str_member(
                *object,
                "edge_type"@,
            ) is Some && {
                let c = LedgerPlaceClaim {
                    claim_id: claim.id,
                    book_id: claim.book_id,
                    chapter_index: claim.chapter_index,
                    kind: k,
                    primary_source_span_id: claim.primary_source_span_id,
                    confidence: claim.confidence,
                    status: claim.status,
                };
                claim.claim_type@ != "location_introduction"@ ==> place_claim_matches(*claim, *object, c)
            },
            Err(e) => if !filled(claim.subject_mention) {
                e@ == "location_edge missing subject_mention"@
            } else if !filled(claim.object_mention) {
                e@ == "location_edge missing object_mention"@
            } else {
                trimmed_str_member(*object, "edge_type"@) is None && e@ == "location_edge missing edge_type"@
            },
        },
{
    let from_mention = match filled_mention(&claim.subject_mention, "location_edge missing subject_mention") {
        Ok(s) => s,
        Err(e) => return Err(e),
    };
    let to_mention = match filled_mention(&claim.object_mention, "location_edge missing object_mention") {
        Ok(s) => s,
        Err(e) => return Err(e),
    };
    let edge_type = match optional_string(object, "edge_type") {
        Some(t) => t,
        None => return Err(owned("location_edge missing edge_type")),
    };
    Ok(LedgerPlaceClaimKind::Edge {
        from_mention,
        to_mention,
        edge_type,
        direction_hint: optional_string(object, "direction_hint"),
        distance_hint: optional_string(object, "distance_hint"),
    })
}

impl LedgerPlaceClaim {
    /// The ledger claim for a location claim. `parsed` is what parsing the
    /// claim's `value_json` gave; it is not read when there is none.
    pub fn from_claim(claim: &ClaimRecord, parsed: Result<JsonValue, String>) -> (r: Result<LedgerPlaceClaim, String>)
        ensures
            match r {
                Ok(c) => place_claim_error(*claim, parsed_view(parsed)) is None && place_claim_matches(
                    *claim,
                    parsed_view(parsed)->Ok_0,
                    c,
                ),
                Err(e) => place_claim_error(*claim, parsed_view(parsed)) == Some(e@),
            },
    {
        let types = ["location_introduction", "location_edge"];
        assert(views_of(types@) =~= seq!["location_introduction"@, "location_edge"@]);
        match ensure_claim_type_in(claim, &types, "place claim") {
            Err(e) => return Err(e),
            Ok(_) => {},
        }
        let object = match claim_payload_object(claim, parsed, "place") {
            Err(e) => return Err(e),
            Ok(o) => o,
        };
        let fields = [
            "judge_decision", "normalized_edge_type", "normalized_direction_hint", "normalized_distance_hint",
            "conflict_type", "reason_code", "judge_confidence", "judge_output", "from_place_id", "to_place_id",
            "parent_place_id", "organization_link_candidate_id",
        ];
        assert(views_of(fields@) =~= place_judge_fields());
        match reject_forbidden_fields(claim, &object, "place", "judge field", &fields) {
            Err(e) => return Err(e),
            Ok(_) => {},
        }
        let kind = if str_eq(claim.claim_type.as_str(), "location_introduction") {
            match introduction_kind(claim, &object) {
                Ok(k) => k,
                Err(e) => return Err(e),
            }
        } else {
            match edge_kind(claim, &object) {
                Ok(k) => k,
                Err(e) => return Err(e),
            }
        };
        Ok(LedgerPlaceClaim {
            claim_id: claim.id.clone(),
            book_id: claim.book_id.clone(),
            chapter_index: claim.chapter_index,
            kind,
            primary_source_span_id: claim.primary_source_span_id.clone(),
            confidence: claim.confidence,
            status: claim.status.clone(),
        })
    }
}

/// The provenance of a place write: the claim, its primary span, its confidence.
pub open spec fn place_provenance_ok(p: PlaceWriteProvenance, c: LedgerPlaceClaim) -> bool {
    p.claim_id@ == c.claim_id@ && views(p.evidence_span_ids@) == seq![c.primary_source_span_id@] && p.confidence
        == c.confidence
}

/// Why no write can be made of the claim and context, if so.
pub open spec fn place_command_error(c: LedgerPlaceClaim, ctx: PlaceDecisionContext) -> Option<Seq<char>> {
    match c.kind {
        LedgerPlaceClaimKind::Introduction { .. } => if ctx.resolution is Place {
            None
        } else {
            Some("place introduction decision missing place resolution"@)
        },
        LedgerPlaceClaimKind::Edge { .. } => if !(ctx.resolution is Edge) {
            Some("location edge decision missing edge resolution"@)
        } else {
            match ctx.judge_output {
                None => Some("location edge decision missing map judge output"@),
                Some(o) => match o.decision {
                    MapConflictDecision::Reject => Some("map reject decision cannot become a write command"@),
                    MapConflictDecision::Uncertain => Some("map uncertain decision cannot become a write command"@),
                    _ => None,
                },
            }
        },
    }
}

/// The first of two optional texts that is present.
pub open spec fn or_view(a: Option<String>, b: Option<String>) -> Option<Seq<char>> {
    match a {
        Some(x) => Some(x@),
        None => opt_view(b),
    }
}

/// The action a write makes of the claim and context.
pub open spec fn place_action_matches(c: LedgerPlaceClaim, ctx: PlaceDecisionContext, a: PlaceWriteAction) -> bool {
    match c.kind {
        LedgerPlaceClaimKind::Introduction {
            display_name,
            place_type,
            aliases,
            parent_place_mention: _,
            scale_level,
            importance_score,
            map_visible,
        } => a matches PlaceWriteAction::UpsertPlace(p) && {
            &&& ctx.resolution matches PlaceResolutionForDecision::Place {
                resolved_place_entity_id,
                parent_place_id,
                organization_link,
            } && p.resolved_place_entity_id == resolved_place_entity_id && p.parent_place_id == parent_place_id
                && p.organization_link == organization_link
            &&& p.display_name == display_name
            &&& p.place_type == place_type
            &&& p.aliases == aliases
            &&& p.scale_level == scale_level
            &&& p.importance_score == importance_score
            &&& p.map_visible == map_visible
        },
        LedgerPlaceClaimKind::Edge { from_mention: _, to_mention: _, edge_type, direction_hint, distance_hint } => {
            let o = ctx.judge_output->0;
            if o.decision == MapConflictDecision::Accept {
                a matches PlaceWriteAction::UpsertEdge(e) && {
                    &&& ctx.resolution matches PlaceResolutionForDecision::Edge { from_place_id, to_place_id }
                        && e.from_place_id == from_place_id && e.to_place_id == to_place_id
                    &&& e.edge_type@ == match o.normalized_edge_type {
                        Some(t) => t@,
                        None => edge_type@,
                    }
                    &&& opt_view(e.direction_hint) == or_view(o.normalized_direction_hint, direction_hint)
                    &&& opt_view(e.distance_hint) == or_view(o.normalized_distance_hint, distance_hint)
                    &&& e.confidence == o.confidence
                    &&& e.allow_parent_change
                }
            } else {
                a matches PlaceWriteAction::RecordConflict(k) && {
                    &&& k.existing_edge_id is None
                    &&& k.conflict_type@ == match o.conflict_type {
                        Some(t) => t@,
                        None => "unknown_conflict"@,
                    }
                    &&& k.reason_code@ == o.reason_code@
                }
            }
        },
    }
}

/// A no-write for the claim with the given status and reason.
pub open spec fn is_place_no_write(d: PlaceDecision, claim_id: Seq<char>, status: PlaceNoWriteStatus, reason: Seq<char>) -> bool {
    d matches PlaceDecision::NoWrite(n) && n.claim_id@ == claim_id && n.status == status && n.reason_code@ == reason
}

/// What the decision layer decides for a location claim: a claim no longer
/// proposed is left alone as uncertain; the map gate's reject or uncertain
/// becomes a no-write with its reason; so does the map judge's reject or
/// uncertain, with the judge's reason code; a claim whose resolution or
/// judge answer does not fit its kind is quarantined; anything else becomes
/// its write.
pub open spec fn place_decision_ok(c: LedgerPlaceClaim, ctx: PlaceDecisionContext, d: PlaceDecision) -> bool {
    if c.status@ != "proposed"@ {
        is_place_no_write(d, c.claim_id@, PlaceNoWriteStatus::Uncertain, "ledger_status_"@ + c.status@)
    } else {
        match ctx.gate {
            PlaceGateDecision::Reject(r) => is_place_no_write(d, c.claim_id@, PlaceNoWriteStatus::Rejected, r@),
            PlaceGateDecision::Uncertain(r) => is_place_no_write(d, c.claim_id@, PlaceNoWriteStatus::Uncertain, r@),
            PlaceGateDecision::Pass => {
                if ctx.judge_output matches Some(o) && o.decision == MapConflictDecision::Reject {
                    is_place_no_write(d, c.claim_id@, PlaceNoWriteStatus::Rejected, ctx.judge_output->0.reason_code@)
                } else if ctx.judge_output matches Some(o) && o.decision == MapConflictDecision::Uncertain {
                    is_place_no_write(d, c.claim_id@, PlaceNoWriteStatus::Uncertain, ctx.judge_output->0.reason_code@)
                } else {
                    match place_command_error(c, ctx) {
                        Some(e) => d matches PlaceDecision::Quarantine(q) && q.claim_id@ == c.claim_id@ && q.reason@ == e,
                        None => d matches PlaceDecision::Write(cmd) && {
                            &&& cmd.book_id@ == c.book_id@
                            &&& cmd.chapter_index == c.chapter_index
                            &&& place_provenance_ok(cmd.provenance, c)
                            &&& place_action_matches(c, ctx, cmd.action)
                        },
                    }
                }
            },
        }
    }
}

fn place_no_write(claim_id: String, status: PlaceNoWriteStatus, reason_code: String) -> (r: Result<PlaceDecision, String>)
    ensures
        r matches Ok(d) && is_place_no_write(d, claim_id@, status, reason_code@),
{
    Ok(PlaceDecision::NoWrite(PlaceNoWrite { claim_id, status, reason_code }))
}

fn place_write_command_from_decision(claim: LedgerPlaceClaim, context: PlaceDecisionContext) -> (r: Result<
    PlaceWriteCommand,
    String,
>)
    ensures
        match r {
            Ok(cmd) => place_command_error(claim, context) is None && cmd.book_id@ == claim.book_id@ && cmd.chapter_index
                == claim.chapter_index && place_provenance_ok(cmd.provenance, claim) && place_action_matches(
                claim,
                context,
                cmd.action,
            ),
            Err(e) => place_command_error(claim, context) == Some(e@),
        },
{
    let provenance = PlaceWriteProvenance {
        claim_id: claim.claim_id.clone(),
        evidence_span_ids: single_evidence(&claim.primary_source_span_id),
        confidence: claim.confidence,
    };
    let action = match claim.kind {
        LedgerPlaceClaimKind::Introduction {
            display_name,
            place_type,
            aliases,
            parent_place_mention: _,
            scale_level,
            importance_score,
            map_visible,
        } => match context.resolution {
            PlaceResolutionForDecision::Place { resolved_place_entity_id, parent_place_id, organization_link } => {
                PlaceWriteAction::UpsertPlace(
                    PlaceWritePlaceAction {
                        resolved_place_entity_id,
                        display_name,
                        place_type,
                        aliases,
                        parent_place_id,
                        organization_link,
                        scale_level,
                        importance_score,
                        map_visible,
                    },
                )
            },
            _ => return Err(owned("place introduction decision missing place resolution")),
        },
        LedgerPlaceClaimKind::Edge { from_mention: _, to_mention: _, edge_type, direction_hint, distance_hint } => {
            let (from_place_id, to_place_id) = match context.resolution {
                PlaceResolutionForDecision::Edge { from_place_id, to_place_id } => (from_place_id, to_place_id),
                _ => return Err(owned("location edge decision missing edge resolution")),
            };
            let judge_output = match context.judge_output {
                Some(o) => o,
                None => return Err(owned("location edge decision missing map judge output")),
            };
            match judge_output.decision {
                MapConflictDecision::Accept => PlaceWriteAction::UpsertEdge(
                    PlaceWriteEdgeAction {
                        from_place_id,
                        to_place_id,
                        edge_type: match judge_output.normalized_edge_type {
                            Some(t) => t,
                            None => edge_type,
                        },
                        direction_hint: match judge_output.normalized_direction_hint {
                            Some(h) => Some(h),
                            None => direction_hint,
                        },
                        distance_hint: match judge_output.normalized_distance_hint {
                            Some(h) => Some(h),
                            None => distance_hint,
                        },
                        confidence: judge_output.confidence,
                        allow_parent_change: true,
                    },
                ),
                MapConflictDecision::Conflict => PlaceWriteAction::RecordConflict(
                    PlaceWriteConflictAction {
                        existing_edge_id: None,
                        conflict_type: match judge_output.conflict_type {
                            Some(t) => t,
                            None => owned("unknown_conflict"),
                        },
                        reason_code: judge_output.reason_code,
                    },
                ),
                MapConflictDecision::Reject => {
                    return Err(owned("map reject decision cannot become a write command"));
                },
                MapConflictDecision::Uncertain => {
                    return Err(owned("map uncertain decision cannot become a write command"));
                },
            }
        },
    };
    Ok(PlaceWriteCommand { book_id: claim.book_id, chapter_index: claim.chapter_index, provenance, action })
}

/// Decides what a location claim leads to, given its context; it always succeeds.
pub fn materialize_place_decision(claim: LedgerPlaceClaim, context: PlaceDecisionContext) -> (r: Result<
    PlaceDecision,
    String,
>)
    ensures
        r matches Ok(d) && place_decision_ok(claim, context, d),
{
    if !str_eq(claim.status.as_str(), "proposed") {
        return place_no_write(claim.claim_id, PlaceNoWriteStatus::Uncertain, join2("ledger_status_", claim.status.as_str()));
    }
    match &context.gate {
        PlaceGateDecision::Pass => {},
        PlaceGateDecision::Reject(reason) => {
            return place_no_write(claim.claim_id, PlaceNoWriteStatus::Rejected, reason.clone());
        },
        PlaceGateDecision::Uncertain(reason) => {
            return place_no_write(claim.claim_id, PlaceNoWriteStatus::Uncertain, reason.clone());
        },
    }
    match &context.judge_output {
        Some(judge_output) => match judge_output.decision {
            MapConflictDecision::Reject => {
                return place_no_write(claim.claim_id, PlaceNoWriteStatus::Rejected, judge_output.reason_code.clone());
            },
            MapConflictDecision::Uncertain => {
                return place_no_write(claim.claim_id, PlaceNoWriteStatus::Uncertain, judge_output.reason_code.clone());
            },
            _ => {},
        },
        None => {},
    }
    let claim_id = claim.claim_id.clone();
    match place_write_command_from_decision(claim, context) {
        Ok(command) => Ok(PlaceDecision::Write(command)),
        Err(e) => Ok(PlaceDecision::Quarantine(PlaceQuarantine { claim_id, reason: e })),
    }
}

/// Nothing is written for a location claim unless the map gate passed it.
pub proof fn lemma_place_write_needs_gate_pass(c: LedgerPlaceClaim, ctx: PlaceDecisionContext, d: PlaceDecision)
    requires
        place_decision_ok(c, ctx, d),
        d is Write,
    ensures
        ctx.gate is Pass,
        c.status@ == "proposed"@,
{
}

/// An edge is only written on the map judge's accept or conflict.
pub proof fn lemma_place_edge_write_needs_judge(c: LedgerPlaceClaim, ctx: PlaceDecisionContext, d: PlaceDecision)
    requires
        place_decision_ok(c, ctx, d),
        d is Write,
        c.kind is Edge,
    ensures
        ctx.judge_output matches Some(o) && (o.decision == MapConflictDecision::Accept || o.decision
            == MapConflictDecision::Conflict),
{
}

/// A proposed location edge that passed the map gate, resolved to two
/// places and was judged: an accepted edge becomes an upsert of the edge
/// between the resolved places, with the judge's normalized edge type,
/// direction and distance where it gave them (the claim's otherwise), the
/// judge's confidence and leave to change the parent; a conflict becomes a
/// conflict record with the judge's conflict type (`unknown_conflict` when
/// it named none) and reason code.
pub proof fn lemma_judged_edge_becomes_its_write(c: LedgerPlaceClaim, ctx: PlaceDecisionContext, d: PlaceDecision)
    requires
        place_decision_ok(c, ctx, d),
        c.status@ == "proposed"@,
        ctx.gate is Pass,
        c.kind is Edge,
        ctx.resolution is Edge,
        ctx.judge_output is Some,
        ctx.judge_output->0.decision == MapConflictDecision::Accept || ctx.judge_output->0.decision
            == MapConflictDecision::Conflict,
    ensures
        d matches PlaceDecision::Write(cmd) && {
            let o = ctx.judge_output->0;
            if o.decision == MapConflictDecision::Accept {
                cmd.action matches PlaceWriteAction::UpsertEdge(e) && {
                    &&& e.from_place_id == ctx.resolution->Edge_from_place_id
                    &&& e.to_place_id == ctx.resolution->Edge_to_place_id
                    &&& e.edge_type@ == match o.normalized_edge_type {
                        Some(t) => t@,
                        None => c.kind->Edge_edge_type@,
                    }
                    &&& opt_view(e.direction_hint) == or_view(o.normalized_direction_hint, c.kind->Edge_direction_hint)
                    &&& opt_view(e.distance_hint) == or_view(o.normalized_distance_hint, c.kind->Edge_distance_hint)
                    &&& e.confidence == o.confidence
                    &&& e.allow_parent_change
                }
            } else {
                cmd.action matches PlaceWriteAction::RecordConflict(k) && {
                    &&& k.existing_edge_id is None
                    &&& k.conflict_type@ == match o.conflict_type {
                        Some(t) => t@,
                        None => "unknown_conflict"@,
                    }
                    &&& k.reason_code@ == o.reason_code@
                }
            }
        },
{
}

} // verus!
