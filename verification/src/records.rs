//! The ledger and canonical records that the decision logic reads, held as
//! plain values: claims, source spans, entities, identity links and
//! relationships.
use vstd::prelude::*;
use crate::score::Score;
use crate::text::clone_opt;

verus! {

/// A claim of the ledger.
#[derive(Debug, Clone)]
pub struct ClaimRecord {
    pub id: String,
    pub book_id: String,
    pub chapter_index: i64,
    pub claim_type: String,
    pub subject_mention: Option<String>,
    pub object_mention: Option<String>,
    pub subject_entity_id: Option<String>,
    pub object_entity_id: Option<String>,
    pub predicate: String,
    pub value_json: Option<String>,
    pub value_text: Option<String>,
    pub primary_source_span_id: String,
    pub ai_run_id: String,
    pub confidence: Score,
    pub status: String,
    pub risk_level: String,
    pub supersedes_claim_id: Option<String>,
    pub created_at: String,
    pub updated_at: String,
}

impl ClaimRecord {
    /// A copy of the claim, field for field.
    pub fn copy(&self) -> (r: ClaimRecord)
        ensures
            r == *self,
    {
        ClaimRecord {
            id: self.id.clone(),
            book_id: self.book_id.clone(),
            chapter_index: self.chapter_index,
            claim_type: self.claim_type.clone(),
            subject_mention: clone_opt(&self.subject_mention),
            object_mention: clone_opt(&self.object_mention),
            subject_entity_id: clone_opt(&self.subject_entity_id),
            object_entity_id: clone_opt(&self.object_entity_id),
            predicate: self.predicate.clone(),
            value_json: clone_opt(&self.value_json),
            value_text: clone_opt(&self.value_text),
            primary_source_span_id: self.primary_source_span_id.clone(),
            ai_run_id: self.ai_run_id.clone(),
            confidence: self.confidence,
            status: self.status.clone(),
            risk_level: self.risk_level.clone(),
            supersedes_claim_id: clone_opt(&self.supersedes_claim_id),
            created_at: self.created_at.clone(),
            updated_at: self.updated_at.clone(),
        }
    }
}

/// A source span of chapter text.
#[derive(Debug, Clone)]
pub struct SourceSpanRecord {
    pub id: String,
    pub book_id: String,
    pub chapter_id: String,
    pub chapter_hash: String,
    pub segment_id: String,
    pub span_index: i64,
    pub start_offset: i64,
    pub end_offset: i64,
    pub text_excerpt: String,
    pub status: String,
    pub created_at: String,
}

/// A canonical entity.
#[derive(Debug, Clone)]
pub struct EntityRecord {
    pub id: String,
    pub book_id: String,
    pub entity_type: String,
    pub canonical_name: String,
    pub display_name: String,
    pub short_summary: Option<String>,
    pub importance_score: Score,
    pub first_seen_chapter: i64,
    pub last_seen_chapter: i64,
    pub status: String,
    pub created_at: String,
    pub updated_at: String,
}

/// An alias of an entity.
#[derive(Debug, Clone)]
pub struct AliasRecord {
    pub alias: String,
}

/// The current value of one property dimension of an entity.
#[derive(Debug, Clone)]
pub struct CurrentPropertyRecord {
    pub dimension_key: String,
    pub value_text: Option<String>,
}

/// An identity link between two entities.
#[derive(Debug, Clone)]
pub struct IdentityLinkRecord {
    pub entity_a_id: String,
    pub entity_b_id: String,
    pub link_type: String,
    pub status: String,
    pub confidence: Score,
}

/// A relationship between two characters.
#[derive(Debug, Clone)]
pub struct RelationshipRecord {
    pub id: String,
    pub subject_character_id: String,
    pub object_character_id: String,
    pub relation_group: String,
    pub relation_label: String,
}

} // verus!
