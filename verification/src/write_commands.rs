//! The typed write commands that the decision layer hands to the canonical
//! reducers, one family per domain, each with the provenance of its claim.
use vstd::prelude::*;
use crate::json::JsonValue;
use crate::score::Score;
use crate::text::str_eq;

verus! {

/// The claim a character write comes from, and its evidence.
#[derive(Debug, Clone)]
pub struct CharacterWriteProvenance {
    pub claim_id: String,
    pub evidence_span_ids: Vec<String>,
}

/// A write to the character and profile records.
#[derive(Debug)]
pub enum CharacterWriteCommand {
    IntroduceEntity {
        book_id: String,
        entity_type: String,
        canonical_name: String,
        display_name: String,
        short_summary: Option<String>,
        aliases: Vec<String>,
        chapter_index: i64,
        confidence: Score,
        provenance: CharacterWriteProvenance,
    },
    AddAlias {
        book_id: String,
        entity_id: String,
        alias: String,
        alias_type: String,
        chapter_index: i64,
        confidence: Score,
        provenance: CharacterWriteProvenance,
    },
    UpdateProperty {
        book_id: String,
        entity_id: String,
        dimension_key: String,
        value_text: Option<String>,
        value_json: Option<JsonValue>,
        chapter_index: i64,
        confidence: Score,
        provenance: CharacterWriteProvenance,
    },
}

/// The claim an identity write comes from, and its evidence.
#[derive(Debug, Clone)]
pub struct IdentityWriteProvenance {
    pub claim_id: String,
    pub evidence_span_ids: Vec<String>,
}

/// A write to the identity records.
#[derive(Debug, Clone)]
pub enum IdentityWriteCommand {
    Merge {
        book_id: String,
        entity_a_id: String,
        entity_b_id: String,
        link_type: String,
        survivor_hint: String,
        confidence: Score,
        reason_code: String,
        provenance: IdentityWriteProvenance,
    },
    Link {
        book_id: String,
        entity_a_id: String,
        entity_b_id: String,
        link_type: String,
        confidence: Score,
        provenance: IdentityWriteProvenance,
    },
}

/// Whether a knowledge write creates a card or uses an existing one.
#[derive(Debug, Clone, Copy, PartialEq, Eq, Structural)]
pub enum KnowledgeWriteCardAction {
    CreateNewCard,
    UseExistingCard,
}

/// What a knowledge write does to the card's assertions.
#[derive(Debug, Clone, Copy, PartialEq, Eq, Structural)]
pub enum KnowledgeWriteDecision {
    AddNew,
    Supplement,
    ReviseExisting,
    ContradictExisting,
    MarkRumor,
    MarkUncertain,
    MarkFalseInWorld,
}

/// The name a write decision prints with `{:?}`.
pub open spec fn write_decision_name(d: KnowledgeWriteDecision) -> Seq<char> {
    match d {
        KnowledgeWriteDecision::AddNew => "AddNew"@,
        KnowledgeWriteDecision::Supplement => "Supplement"@,
        KnowledgeWriteDecision::ReviseExisting => "ReviseExisting"@,
        KnowledgeWriteDecision::ContradictExisting => "ContradictExisting"@,
        KnowledgeWriteDecision::MarkRumor => "MarkRumor"@,
        KnowledgeWriteDecision::MarkUncertain => "MarkUncertain"@,
        KnowledgeWriteDecision::MarkFalseInWorld => "MarkFalseInWorld"@,
    }
}

/// The status a knowledge assertion is written with.
#[derive(Debug, Clone, Copy, PartialEq, Eq, Structural)]
pub enum KnowledgeAssertionStatus {
    Active,
    Rumor,
    Uncertain,
    FalseInWorld,
}

/// The assertion status that a write status names, if any.
pub open spec fn write_status_spec(status: Seq<char>) -> Option<KnowledgeAssertionStatus> {
    if status == "active"@ {
        Some(KnowledgeAssertionStatus::Active)
    } else if status == "rumor"@ {
        Some(KnowledgeAssertionStatus::Rumor)
    } else if status == "uncertain"@ {
        Some(KnowledgeAssertionStatus::Uncertain)
    } else if status == "false_in_world"@ {
        Some(KnowledgeAssertionStatus::FalseInWorld)
    } else {
        None
    }
}

impl KnowledgeAssertionStatus {
    /// The status named by `status`: `active`, `rumor`, `uncertain` or
    /// `false_in_world`; any other name is refused.
    pub fn from_write_status(status: &str) -> (r: Result<KnowledgeAssertionStatus, String>)
        ensures
            match r {
                Ok(s) => write_status_spec(status@) == Some(s),
                Err(e) => write_status_spec(status@) is None
                    && e@ == "unsupported knowledge assertion status: "@ + status@,
            },
    {
        if str_eq(status, "active") {
            Ok(KnowledgeAssertionStatus::Active)
        } else if str_eq(status, "rumor") {
            Ok(KnowledgeAssertionStatus::Rumor)
        } else if str_eq(status, "uncertain") {
            Ok(KnowledgeAssertionStatus::Uncertain)
        } else if str_eq(status, "false_in_world") {
            Ok(KnowledgeAssertionStatus::FalseInWorld)
        } else {
            Err(crate::text::join2("unsupported knowledge assertion status: ", status))
        }
    }
}

/// An entity that a knowledge assertion refers to, with its role.
#[derive(Debug, Clone)]
pub struct KnowledgeWriteEntityRef {
    pub entity_id: String,
    pub role: String,
}

/// The claim a knowledge write comes from, and its evidence.
#[derive(Debug, Clone)]
pub struct KnowledgeWriteProvenance {
    pub claim_id: String,
    pub evidence_span_ids: Vec<String>,
}

/// A write to the knowledge cards and assertions.
#[derive(Debug, Clone)]
pub struct KnowledgeWriteCommand {
    pub book_id: String,
    pub category: String,
    pub topic_display: String,
    pub assertion_text: String,
    pub importance_score: Score,
    pub referenced_entities: Vec<KnowledgeWriteEntityRef>,
    pub card_action: KnowledgeWriteCardAction,
    pub target_card_id: Option<String>,
    pub decision: KnowledgeWriteDecision,
    pub affected_assertion_ids: Vec<String>,
    pub assertion_status: KnowledgeAssertionStatus,
    pub current_summary: Option<String>,
    pub confidence: Score,
    pub chapter_index: i64,
    pub provenance: KnowledgeWriteProvenance,
}

/// The claim a place write comes from, its evidence and confidence.
#[derive(Debug, Clone)]
pub struct PlaceWriteProvenance {
    pub claim_id: String,
    pub evidence_span_ids: Vec<String>,
    pub confidence: Score,
}

/// An organization that a place is linked to.
#[derive(Debug, Clone)]
pub struct PlaceWriteOrganizationLink {
    pub organization_entity_id: String,
    pub link_type: String,
}

/// Creates or updates a place.
#[derive(Debug, Clone)]
pub struct PlaceWritePlaceAction {
    pub resolved_place_entity_id: Option<String>,
    pub display_name: String,
    pub place_type: String,
    pub aliases: Vec<String>,
    pub parent_place_id: Option<String>,
    pub organization_link: Option<PlaceWriteOrganizationLink>,
    pub scale_level: i64,
    pub importance_score: Score,
    pub map_visible: bool,
}

/// Creates or updates an edge between two places.
#[derive(Debug, Clone)]
pub struct PlaceWriteEdgeAction {
    pub from_place_id: String,
    pub to_place_id: String,
    pub edge_type: String,
    pub direction_hint: Option<String>,
    pub distance_hint: Option<String>,
    pub confidence: Score,
    pub allow_parent_change: bool,
}

/// Records a map conflict.
#[derive(Debug, Clone)]
pub struct PlaceWriteConflictAction {
    pub existing_edge_id: Option<String>,
    pub conflict_type: String,
    pub reason_code: String,
}

/// What a place write does.
#[derive(Debug, Clone)]
pub enum PlaceWriteAction {
    UpsertPlace(PlaceWritePlaceAction),
    UpsertEdge(PlaceWriteEdgeAction),
    RecordConflict(PlaceWriteConflictAction),
}

/// A write to the places and the map.
#[derive(Debug, Clone)]
pub struct PlaceWriteCommand {
    pub book_id: String,
    pub chapter_index: i64,
    pub provenance: PlaceWriteProvenance,
    pub action: PlaceWriteAction,
}

/// The views of a vector of strings.
pub open spec fn views(v: Seq<String>) -> Seq<Seq<char>> {
    v.map_values(|s: String| s@)
}

/// The evidence of a write: the claim's primary source span alone.
pub fn single_evidence(primary_source_span_id: &String) -> (r: Vec<String>)
    ensures
        views(r@) == seq![primary_source_span_id@],
{
    let mut v: Vec<String> = Vec::new();
    v.push(primary_source_span_id.clone());
    assert(views(v@) =~= seq![primary_source_span_id@]);
    v
}

} // verus!
