//! Observations extracted from chapter text, their risk classification, and
//! the validation that turns model output items into observations.
use vstd::prelude::*;
use crate::json::{
    array_member, bool_member, get_array, get_bool, get_number, get_str, get_string_array,
    has_key, has_member, json_get, number_member, str_member, string_array_member, take_member, copy_json, json_same,
    JsonValue,
};
use crate::score::{at_least, in_unit_range, outside_unit, Score, KEY_FOUR_FIFTHS, KEY_HALF};
use crate::text::{
    chars_of, contains, first_index_of, is_blank, last_occurrence, lowercase, owned, starts_with, str_contains, str_eq, str_in, str_is_blank,
    string_from, string_in, to_lowercase, trim, trim_bounds, views_of, joined, join_strings, string_views,
};

verus! {

/// The `Seq<char>` views of a sequence of strings.
pub open spec fn strs(v: Seq<String>) -> Seq<Seq<char>> {
    v.map_values(|s: String| s@)
}

/// The view of an optional string.
pub open spec fn opt_str(o: Option<String>) -> Option<Seq<char>> {
    match o {
        Some(s) => Some(s@),
        None => None,
    }
}

/// An entity mention referenced by a knowledge assertion.
#[derive(Debug)]
pub struct KnowledgeEntityMention {
    pub mention: String,
    pub entity_type_hint: Option<String>,
    pub role: String,
    pub confidence: Score,
    pub resolved_entity_id: Option<String>,
}

/// The abstract value of a `KnowledgeEntityMention`.
pub struct KnowledgeEntityMentionView {
    pub mention: Seq<char>,
    pub entity_type_hint: Option<Seq<char>>,
    pub role: Seq<char>,
    pub confidence: Score,
    pub resolved_entity_id: Option<Seq<char>>,
}

impl View for KnowledgeEntityMention {
    type V = KnowledgeEntityMentionView;

    open spec fn view(&self) -> KnowledgeEntityMentionView {
        KnowledgeEntityMentionView {
            mention: self.mention@,
            entity_type_hint: opt_str(self.entity_type_hint),
            role: self.role@,
            confidence: self.confidence,
            resolved_entity_id: opt_str(self.resolved_entity_id),
        }
    }
}

/// The views of a sequence of mentions.
pub open spec fn mention_views(v: Seq<KnowledgeEntityMention>) -> Seq<KnowledgeEntityMentionView> {
    v.map_values(|m: KnowledgeEntityMention| m@)
}

/// One observation extracted from chapter text.
#[derive(Debug)]
pub enum Observation {
    EntityIntroduction {
        subject_mention: String,
        entity_type: String,
        aliases: Vec<String>,
        short_summary: String,
        evidence_span_ids: Vec<String>,
        confidence: Score,
    },
    Alias {
        subject_mention: String,
        alias: String,
        alias_type: String,
        evidence_span_ids: Vec<String>,
        confidence: Score,
    },
    PropertyUpdate {
        subject_mention: String,
        dimension_key: String,
        value_text: Option<String>,
        value_json: Option<JsonValue>,
        evidence_span_ids: Vec<String>,
        confidence: Score,
    },
    MinorEvent {
        description: String,
        involved_mentions: Vec<String>,
        evidence_span_ids: Vec<String>,
        confidence: Score,
    },
    RelationshipUpdate {
        subject_mention: String,
        object_mention: String,
        relation_hint: String,
        relation_group: String,
        relation_label: String,
        directionality: String,
        evidence_span_ids: Vec<String>,
        confidence: Score,
        importance_hint: Score,
        is_long_term_or_significant_hint: bool,
    },
    KnowledgeAssertion {
        category: String,
        topic: String,
        assertion_text: String,
        confidence: Score,
        importance_score: Score,
        evidence_span_ids: Vec<String>,
        referenced_entity_mentions: Vec<KnowledgeEntityMention>,
        status_hint: Option<String>,
        reason_hint: Option<String>,
    },
    IdentityReveal {
        revealed_mention: String,
        canonical_mention: String,
        reveal_type: String,
        reason_hint: Option<String>,
        evidence_span_ids: Vec<String>,
        confidence: Score,
    },
    EntityMergeCandidate {
        entity_a_mention: String,
        entity_b_mention: String,
        reason_hint: Option<String>,
        evidence_span_ids: Vec<String>,
        confidence: Score,
    },
    EntitySplitCandidate {
        entity_a_mention: String,
        entity_b_mention: String,
        reason_hint: Option<String>,
        evidence_span_ids: Vec<String>,
        confidence: Score,
    },
    NotSameIdentity {
        entity_a_mention: String,
        entity_b_mention: String,
        reason_hint: Option<String>,
        evidence_span_ids: Vec<String>,
        confidence: Score,
    },
    Summary { summary: String, key_points: Vec<String>, has_important_changes: bool },
}

/// The abstract value of an `Observation`.
pub enum ObservationView {
    EntityIntroduction {
        subject_mention: Seq<char>,
        entity_type: Seq<char>,
        aliases: Seq<Seq<char>>,
        short_summary: Seq<char>,
        evidence_span_ids: Seq<Seq<char>>,
        confidence: Score,
    },
    Alias {
        subject_mention: Seq<char>,
        alias: Seq<char>,
        alias_type: Seq<char>,
        evidence_span_ids: Seq<Seq<char>>,
        confidence: Score,
    },
    PropertyUpdate {
        subject_mention: Seq<char>,
        dimension_key: Seq<char>,
        value_text: Option<Seq<char>>,
        value_json: Option<JsonValue>,
        evidence_span_ids: Seq<Seq<char>>,
        confidence: Score,
    },
    MinorEvent {
        description: Seq<char>,
        involved_mentions: Seq<Seq<char>>,
        evidence_span_ids: Seq<Seq<char>>,
        confidence: Score,
    },
    RelationshipUpdate {
        subject_mention: Seq<char>,
        object_mention: Seq<char>,
        relation_hint: Seq<char>,
        relation_group: Seq<char>,
        relation_label: Seq<char>,
        directionality: Seq<char>,
        evidence_span_ids: Seq<Seq<char>>,
        confidence: Score,
        importance_hint: Score,
        is_long_term_or_significant_hint: bool,
    },
    KnowledgeAssertion {
        category: Seq<char>,
        topic: Seq<char>,
        assertion_text: Seq<char>,
        confidence: Score,
        importance_score: Score,
        evidence_span_ids: Seq<Seq<char>>,
        referenced_entity_mentions: Seq<KnowledgeEntityMentionView>,
        status_hint: Option<Seq<char>>,
        reason_hint: Option<Seq<char>>,
    },
    IdentityReveal {
        revealed_mention: Seq<char>,
        canonical_mention: Seq<char>,
        reveal_type: Seq<char>,
        reason_hint: Option<Seq<char>>,
        evidence_span_ids: Seq<Seq<char>>,
        confidence: Score,
    },
    EntityMergeCandidate {
        entity_a_mention: Seq<char>,
        entity_b_mention: Seq<char>,
        reason_hint: Option<Seq<char>>,
        evidence_span_ids: Seq<Seq<char>>,
        confidence: Score,
    },
    EntitySplitCandidate {
        entity_a_mention: Seq<char>,
        entity_b_mention: Seq<char>,
        reason_hint: Option<Seq<char>>,
        evidence_span_ids: Seq<Seq<char>>,
        confidence: Score,
    },
    NotSameIdentity {
        entity_a_mention: Seq<char>,
        entity_b_mention: Seq<char>,
        reason_hint: Option<Seq<char>>,
        evidence_span_ids: Seq<Seq<char>>,
        confidence: Score,
    },
    Summary { summary: Seq<char>, key_points: Seq<Seq<char>>, has_important_changes: bool },
}

impl View for Observation {
    type V = ObservationView;

    open spec fn view(&self) -> ObservationView {
        match *self {
            Observation::EntityIntroduction {
                subject_mention,
                entity_type,
                aliases,
                short_summary,
                evidence_span_ids,
                confidence,
            } => ObservationView::EntityIntroduction {
                subject_mention: subject_mention@,
                entity_type: entity_type@,
                aliases: strs(aliases@),
                short_summary: short_summary@,
                evidence_span_ids: strs(evidence_span_ids@),
                confidence,
            },
            Observation::Alias { subject_mention, alias, alias_type, evidence_span_ids, confidence } =>
                ObservationView::Alias {
                subject_mention: subject_mention@,
                alias: alias@,
                alias_type: alias_type@,
                evidence_span_ids: strs(evidence_span_ids@),
                confidence,
            },
            Observation::PropertyUpdate {
                subject_mention,
                dimension_key,
                value_text,
                value_json,
                evidence_span_ids,
                confidence,
            } => ObservationView::PropertyUpdate {
                subject_mention: subject_mention@,
                dimension_key: dimension_key@,
                value_text: opt_str(value_text),
                value_json,
                evidence_span_ids: strs(evidence_span_ids@),
                confidence,
            },
            Observation::MinorEvent { description, involved_mentions, evidence_span_ids, confidence } =>
                ObservationView::MinorEvent {
                description: description@,
                involved_mentions: strs(involved_mentions@),
                evidence_span_ids: strs(evidence_span_ids@),
                confidence,
            },
            Observation::RelationshipUpdate {
                subject_mention,
                object_mention,
                relation_hint,
                relation_group,
                relation_label,
                directionality,
                evidence_span_ids,
                confidence,
                importance_hint,
                is_long_term_or_significant_hint,
            } => ObservationView::RelationshipUpdate {
                subject_mention: subject_mention@,
                object_mention: object_mention@,
                relation_hint: relation_hint@,
                relation_group: relation_group@,
                relation_label: relation_label@,
                directionality: directionality@,
                evidence_span_ids: strs(evidence_span_ids@),
                confidence,
                importance_hint,
                is_long_term_or_significant_hint,
            },
            Observation::KnowledgeAssertion {
                category,
                topic,
                assertion_text,
                confidence,
                importance_score,
                evidence_span_ids,
                referenced_entity_mentions,
                status_hint,
                reason_hint,
            } => ObservationView::KnowledgeAssertion {
                category: category@,
                topic: topic@,
                assertion_text: assertion_text@,
                confidence,
                importance_score,
                evidence_span_ids: strs(evidence_span_ids@),
                referenced_entity_mentions: mention_views(referenced_entity_mentions@),
                status_hint: opt_str(status_hint),
                reason_hint: opt_str(reason_hint),
            },
            Observation::IdentityReveal {
                revealed_mention,
                canonical_mention,
                reveal_type,
                reason_hint,
                evidence_span_ids,
                confidence,
            } => ObservationView::IdentityReveal {
                revealed_mention: revealed_mention@,
                canonical_mention: canonical_mention@,
                reveal_type: reveal_type@,
                reason_hint: opt_str(reason_hint),
                evidence_span_ids: strs(evidence_span_ids@),
                confidence,
            },
            Observation::EntityMergeCandidate {
                entity_a_mention,
                entity_b_mention,
                reason_hint,
                evidence_span_ids,
                confidence,
            } => ObservationView::EntityMergeCandidate {
                entity_a_mention: entity_a_mention@,
                entity_b_mention: entity_b_mention@,
                reason_hint: opt_str(reason_hint),
                evidence_span_ids: strs(evidence_span_ids@),
                confidence,
            },
            Observation::EntitySplitCandidate {
                entity_a_mention,
                entity_b_mention,
                reason_hint,
                evidence_span_ids,
                confidence,
            } => ObservationView::EntitySplitCandidate {
                entity_a_mention: entity_a_mention@,
                entity_b_mention: entity_b_mention@,
                reason_hint: opt_str(reason_hint),
                evidence_span_ids: strs(evidence_span_ids@),
                confidence,
            },
            Observation::NotSameIdentity {
                entity_a_mention,
                entity_b_mention,
                reason_hint,
                evidence_span_ids,
                confidence,
            } => ObservationView::NotSameIdentity {
                entity_a_mention: entity_a_mention@,
                entity_b_mention: entity_b_mention@,
                reason_hint: opt_str(reason_hint),
                evidence_span_ids: strs(evidence_span_ids@),
                confidence,
            },
            Observation::Summary { summary, key_points, has_important_changes } =>
                ObservationView::Summary {
                summary: summary@,
                key_points: strs(key_points@),
                has_important_changes,
            },
        }
    }
}

/// The subject mention of an observation: the revealed mention of an identity
/// reveal, entity A of a pair candidate, none for events, knowledge and summaries.
pub open spec fn subject_of(o: ObservationView) -> Option<Seq<char>> {
    match o {
        ObservationView::EntityIntroduction { subject_mention, .. } => Some(subject_mention),
        ObservationView::Alias { subject_mention, .. } => Some(subject_mention),
        ObservationView::PropertyUpdate { subject_mention, .. } => Some(subject_mention),
        ObservationView::RelationshipUpdate { subject_mention, .. } => Some(subject_mention),
        ObservationView::IdentityReveal { revealed_mention, .. } => Some(revealed_mention),
        ObservationView::EntityMergeCandidate { entity_a_mention, .. } => Some(entity_a_mention),
        ObservationView::EntitySplitCandidate { entity_a_mention, .. } => Some(entity_a_mention),
        ObservationView::NotSameIdentity { entity_a_mention, .. } => Some(entity_a_mention),
        ObservationView::KnowledgeAssertion { .. } => None,
        ObservationView::MinorEvent { .. } => None,
        ObservationView::Summary { .. } => None,
    }
}

/// The evidence span ids of an observation; a summary has none.
pub open spec fn spans_of(o: ObservationView) -> Seq<Seq<char>> {
    match o {
        ObservationView::EntityIntroduction { evidence_span_ids, .. } => evidence_span_ids,
        ObservationView::Alias { evidence_span_ids, .. } => evidence_span_ids,
        ObservationView::PropertyUpdate { evidence_span_ids, .. } => evidence_span_ids,
        ObservationView::MinorEvent { evidence_span_ids, .. } => evidence_span_ids,
        ObservationView::RelationshipUpdate { evidence_span_ids, .. } => evidence_span_ids,
        ObservationView::KnowledgeAssertion { evidence_span_ids, .. } => evidence_span_ids,
        ObservationView::IdentityReveal { evidence_span_ids, .. } => evidence_span_ids,
        ObservationView::EntityMergeCandidate { evidence_span_ids, .. } => evidence_span_ids,
        ObservationView::EntitySplitCandidate { evidence_span_ids, .. } => evidence_span_ids,
        ObservationView::NotSameIdentity { evidence_span_ids, .. } => evidence_span_ids,
        ObservationView::Summary { .. } => Seq::empty(),
    }
}

/// `o` with its evidence span ids replaced by `spans`; a summary is unchanged.
pub open spec fn with_spans(o: ObservationView, spans: Seq<Seq<char>>) -> ObservationView {
    match o {
        ObservationView::EntityIntroduction {
            subject_mention,
            entity_type,
            aliases,
            short_summary,
            confidence,
            ..
        } => ObservationView::EntityIntroduction {
            subject_mention,
            entity_type,
            aliases,
            short_summary,
            evidence_span_ids: spans,
            confidence,
        },
        ObservationView::Alias { subject_mention, alias, alias_type, confidence, .. } =>
            ObservationView::Alias {
            subject_mention,
            alias,
            alias_type,
            evidence_span_ids: spans,
            confidence,
        },
        ObservationView::PropertyUpdate {
            subject_mention,
            dimension_key,
            value_text,
            value_json,
            confidence,
            ..
        } => ObservationView::PropertyUpdate {
            subject_mention,
            dimension_key,
            value_text,
            value_json,
            evidence_span_ids: spans,
            confidence,
        },
        ObservationView::MinorEvent { description, involved_mentions, confidence, .. } =>
            ObservationView::MinorEvent { description, involved_mentions, evidence_span_ids: spans, confidence },
        ObservationView::RelationshipUpdate {
            subject_mention,
            object_mention,
            relation_hint,
            relation_group,
            relation_label,
            directionality,
            confidence,
            importance_hint,
            is_long_term_or_significant_hint,
            ..
        } => ObservationView::RelationshipUpdate {
            subject_mention,
            object_mention,
            relation_hint,
            relation_group,
            relation_label,
            directionality,
            evidence_span_ids: spans,
            confidence,
            importance_hint,
            is_long_term_or_significant_hint,
        },
        ObservationView::KnowledgeAssertion {
            category,
            topic,
            assertion_text,
            confidence,
            importance_score,
            referenced_entity_mentions,
            status_hint,
            reason_hint,
            ..
        } => ObservationView::KnowledgeAssertion {
            category,
            topic,
            assertion_text,
            confidence,
            importance_score,
            evidence_span_ids: spans,
            referenced_entity_mentions,
            status_hint,
            reason_hint,
        },
        ObservationView::IdentityReveal {
            revealed_mention,
            canonical_mention,
            reveal_type,
            reason_hint,
            confidence,
            ..
        } => ObservationView::IdentityReveal {
            revealed_mention,
            canonical_mention,
            reveal_type,
            reason_hint,
            evidence_span_ids: spans,
            confidence,
        },
        ObservationView::EntityMergeCandidate { entity_a_mention, entity_b_mention, reason_hint, confidence, .. } =>
            ObservationView::EntityMergeCandidate {
            entity_a_mention,
            entity_b_mention,
            reason_hint,
            evidence_span_ids: spans,
            confidence,
        },
        ObservationView::EntitySplitCandidate { entity_a_mention, entity_b_mention, reason_hint, confidence, .. } =>
            ObservationView::EntitySplitCandidate {
            entity_a_mention,
            entity_b_mention,
            reason_hint,
            evidence_span_ids: spans,
            confidence,
        },
        ObservationView::NotSameIdentity { entity_a_mention, entity_b_mention, reason_hint, confidence, .. } =>
            ObservationView::NotSameIdentity {
            entity_a_mention,
            entity_b_mention,
            reason_hint,
            evidence_span_ids: spans,
            confidence,
        },
        ObservationView::Summary { summary, key_points, has_important_changes } =>
            ObservationView::Summary { summary, key_points, has_important_changes },
    }
}

impl Observation {
    /// Returns the subject mention if this observation has one.
    pub fn subject_mention(&self) -> (r: Option<&str>)
        ensures
            match r {
                Some(s) => subject_of(self@) == Some(s@),
                None => subject_of(self@) is None,
            },
    {
        match self {
            Observation::EntityIntroduction { subject_mention, .. } => Some(subject_mention.as_str()),
            Observation::Alias { subject_mention, .. } => Some(subject_mention.as_str()),
            Observation::PropertyUpdate { subject_mention, .. } => Some(subject_mention.as_str()),
            Observation::RelationshipUpdate { subject_mention, .. } => Some(subject_mention.as_str()),
            Observation::IdentityReveal { revealed_mention, .. } => Some(revealed_mention.as_str()),
            Observation::EntityMergeCandidate { entity_a_mention, .. } => Some(entity_a_mention.as_str()),
            Observation::EntitySplitCandidate { entity_a_mention, .. } => Some(entity_a_mention.as_str()),
            Observation::NotSameIdentity { entity_a_mention, .. } => Some(entity_a_mention.as_str()),
            Observation::KnowledgeAssertion { .. } => None,
            Observation::MinorEvent { .. } => None,
            Observation::Summary { .. } => None,
        }
    }

    /// Returns the evidence span ids.
    pub fn evidence_span_ids(&self) -> (r: &[String])
        ensures
            strs(r@) == spans_of(self@),
    {
        match self {
            Observation::EntityIntroduction { evidence_span_ids, .. } => evidence_span_ids.as_slice(),
            Observation::Alias { evidence_span_ids, .. } => evidence_span_ids.as_slice(),
            Observation::PropertyUpdate { evidence_span_ids, .. } => evidence_span_ids.as_slice(),
            Observation::MinorEvent { evidence_span_ids, .. } => evidence_span_ids.as_slice(),
            Observation::RelationshipUpdate { evidence_span_ids, .. } => evidence_span_ids.as_slice(),
            Observation::KnowledgeAssertion { evidence_span_ids, .. } => evidence_span_ids.as_slice(),
            Observation::IdentityReveal { evidence_span_ids, .. } => evidence_span_ids.as_slice(),
            Observation::EntityMergeCandidate { evidence_span_ids, .. } => evidence_span_ids.as_slice(),
            Observation::EntitySplitCandidate { evidence_span_ids, .. } => evidence_span_ids.as_slice(),
            Observation::NotSameIdentity { evidence_span_ids, .. } => evidence_span_ids.as_slice(),
            Observation::Summary { .. } => {
                let r: &[String] = &[];
                assert(strs(r@) =~= Seq::<Seq<char>>::empty());
                r
            },
        }
    }

    /// Replaces the evidence span ids with `span_ids`; a summary is returned unchanged.
    pub fn with_evidence_span_ids(self, span_ids: Vec<String>) -> (r: Observation)
        ensures
            r@ == with_spans(self@, strs(span_ids@)),
    {
        match self {
            Observation::EntityIntroduction {
                subject_mention,
                entity_type,
                aliases,
                short_summary,
                evidence_span_ids: _,
                confidence,
            } => Observation::EntityIntroduction {
                subject_mention,
                entity_type,
                aliases,
                short_summary,
                evidence_span_ids: span_ids,
                confidence,
            },
            Observation::Alias { subject_mention, alias, alias_type, evidence_span_ids: _, confidence } =>
                Observation::Alias { subject_mention, alias, alias_type, evidence_span_ids: span_ids, confidence },
            Observation::PropertyUpdate {
                subject_mention,
                dimension_key,
                value_text,
                value_json,
                evidence_span_ids: _,
                confidence,
            } => Observation::PropertyUpdate {
                subject_mention,
                dimension_key,
                value_text,
                value_json,
                evidence_span_ids: span_ids,
                confidence,
            },
            Observation::MinorEvent { description, involved_mentions, evidence_span_ids: _, confidence } =>
                Observation::MinorEvent { description, involved_mentions, evidence_span_ids: span_ids, confidence },
            Observation::RelationshipUpdate {
                subject_mention,
                object_mention,
                relation_hint,
                relation_group,
                relation_label,
                directionality,
                evidence_span_ids: _,
                confidence,
                importance_hint,
                is_long_term_or_significant_hint,
            } => Observation::RelationshipUpdate {
                subject_mention,
                object_mention,
                relation_hint,
                relation_group,
                relation_label,
                directionality,
                evidence_span_ids: span_ids,
                confidence,
                importance_hint,
                is_long_term_or_significant_hint,
            },
            Observation::KnowledgeAssertion {
                category,
                topic,
                assertion_text,
                confidence,
                importance_score,
                evidence_span_ids: _,
                referenced_entity_mentions,
                status_hint,
                reason_hint,
            } => Observation::KnowledgeAssertion {
                category,
                topic,
                assertion_text,
                confidence,
                importance_score,
                evidence_span_ids: span_ids,
                referenced_entity_mentions,
                status_hint,
                reason_hint,
            },
            Observation::IdentityReveal {
                revealed_mention,
                canonical_mention,
                reveal_type,
                reason_hint,
                evidence_span_ids: _,
                confidence,
            } => Observation::IdentityReveal {
                revealed_mention,
                canonical_mention,
                reveal_type,
                reason_hint,
                evidence_span_ids: span_ids,
                confidence,
            },
            Observation::EntityMergeCandidate {
                entity_a_mention,
                entity_b_mention,
                reason_hint,
                evidence_span_ids: _,
                confidence,
            } => Observation::EntityMergeCandidate {
                entity_a_mention,
                entity_b_mention,
                reason_hint,
                evidence_span_ids: span_ids,
                confidence,
            },
            Observation::EntitySplitCandidate {
                entity_a_mention,
                entity_b_mention,
                reason_hint,
                evidence_span_ids: _,
                confidence,
            } => Observation::EntitySplitCandidate {
                entity_a_mention,
                entity_b_mention,
                reason_hint,
                evidence_span_ids: span_ids,
                confidence,
            },
            Observation::NotSameIdentity {
                entity_a_mention,
                entity_b_mention,
                reason_hint,
                evidence_span_ids: _,
                confidence,
            } => Observation::NotSameIdentity {
                entity_a_mention,
                entity_b_mention,
                reason_hint,
                evidence_span_ids: span_ids,
                confidence,
            },
            Observation::Summary { summary, key_points, has_important_changes } =>
                Observation::Summary { summary, key_points, has_important_changes },
        }
    }
}

/// Risk level for an observation.
#[derive(Debug, Clone, Copy, PartialEq, Eq, Structural)]
pub enum RiskLevel {
    Low,
    Medium,
    High,
}

impl RiskLevel {
    /// The name stored in the ledger: `low`, `medium` or `high`.
    pub fn as_str(&self) -> (r: &'static str)
        ensures
            r@ == match *self {
                RiskLevel::Low => "low"@,
                RiskLevel::Medium => "medium"@,
                RiskLevel::High => "high"@,
            },
    {
        match self {
            RiskLevel::Low => "low",
            RiskLevel::Medium => "medium",
            RiskLevel::High => "high",
        }
    }
}

/// The views of a list of keywords.
pub open spec fn keyword_views(ks: Seq<&str>) -> Seq<Seq<char>> {
    ks.map_values(|k: &str| k@)
}

/// Whether `text` contains at least one of `keywords`.
pub open spec fn contains_any_of(text: Seq<char>, keywords: Seq<Seq<char>>) -> bool {
    exists|i: int| 0 <= i < keywords.len() && contains(text, keywords[i])
}

/// Whether `text` contains one of `keywords`.
pub fn contains_any(text: &str, keywords: &[&str]) -> (r: bool)
    ensures
        r == contains_any_of(text@, keyword_views(keywords@)),
{
    let mut i: usize = 0;
    while i < keywords.len()
        invariant
            i <= keywords@.len(),
            forall|j: int| 0 <= j < i ==> !contains(text@, keywords@[j]@),
        decreases keywords.len() - i,
    {
        if str_contains(text, keywords[i]) {
            assert(contains(text@, keyword_views(keywords@)[i as int]));
            return true;
        }
        i = i + 1;
    }
    assert forall|j: int| 0 <= j < keywords@.len() implies !contains(text@, keyword_views(keywords@)[j]) by {
        assert(keyword_views(keywords@)[j] == keywords@[j]@);
    }
    false
}

/// Death words that make a life-status change high risk.
pub open spec fn death_words() -> Seq<Seq<char>> {
    seq![
        "死亡"@, "去世"@, "死去"@, "dead"@, "died"@, "killed"@, "death"@, "deceased"@,
        "perished"@, "slain"@, "passed away"@, "assassinated"@,
    ]
}

/// Resurrection words that make a life-status change high risk.
pub open spec fn revival_words() -> Seq<Seq<char>> {
    seq!["复活"@, "重生"@, "resurrected"@, "revived"@, "resurrection"@]
}

/// Identity-reveal words that make an identity change high risk.
pub open spec fn reveal_words() -> Seq<Seq<char>> {
    seq!["身份揭示"@, "真实身份"@, "identity reveal"@, "unmasked"@]
}

/// Merge words that make an identity change high risk.
pub open spec fn merge_words() -> Seq<Seq<char>> {
    seq!["entity_merge_candidate"@, "合并"@, "同一个人"@, "merge"@]
}

/// Risk of a property change of `dimension` whose lowercased value is `lowered`.
pub open spec fn property_risk(dimension: Seq<char>, lowered: Seq<char>) -> RiskLevel {
    if dimension == "life_status"@ {
        if contains_any_of(lowered, death_words()) || contains_any_of(lowered, revival_words()) {
            RiskLevel::High
        } else {
            RiskLevel::Medium
        }
    } else if dimension == "identity"@ {
        if contains_any_of(lowered, reveal_words()) || contains_any_of(lowered, merge_words()) {
            RiskLevel::High
        } else {
            RiskLevel::Medium
        }
    } else if dimension == "affiliation"@ || dimension == "realm"@ || dimension == "rank"@ {
        RiskLevel::Medium
    } else {
        RiskLevel::Low
    }
}

/// The text of an optional value, empty when absent.
pub open spec fn text_or_empty(o: Option<Seq<char>>) -> Seq<char> {
    match o {
        Some(t) => t,
        None => Seq::empty(),
    }
}

/// The risk level of an observation.
pub open spec fn observation_risk(o: ObservationView) -> RiskLevel {
    match o {
        ObservationView::PropertyUpdate { dimension_key, value_text, .. } =>
            property_risk(dimension_key, lowercase(text_or_empty(value_text))),
        ObservationView::EntityIntroduction { entity_type, confidence, .. } =>
            if entity_type == "character"@ && at_least(confidence, KEY_FOUR_FIFTHS) {
                RiskLevel::Medium
            } else {
                RiskLevel::Low
            },
        ObservationView::Alias { .. } => RiskLevel::Low,
        ObservationView::MinorEvent { .. } => RiskLevel::Low,
        ObservationView::Summary { .. } => RiskLevel::Low,
        _ => RiskLevel::High,
    }
}

/// Classify the risk level of an observation.
///
/// High: death, resurrection, identity reveal and merge hints, relationships,
/// knowledge, identity observations. Medium: other life-status and identity
/// changes, affiliation, realm and rank, a confident new character. Low: the rest.
pub fn classify_risk(observation: &Observation) -> (r: RiskLevel)
    ensures
        r == observation_risk(observation@),
{
    match observation {
        Observation::PropertyUpdate { dimension_key, value_text, .. } => {
            let text: Option<&str> = match value_text {
                Some(t) => Some(t.as_str()),
                None => None,
            };
            classify_property_risk(dimension_key.as_str(), text)
        },
        Observation::EntityIntroduction { entity_type, confidence, .. } => {
            if str_eq(entity_type.as_str(), "character") && confidence.is_at_least(KEY_FOUR_FIFTHS) {
                RiskLevel::Medium
            } else {
                RiskLevel::Low
            }
        },
        Observation::Alias { .. } => RiskLevel::Low,
        Observation::MinorEvent { .. } => RiskLevel::Low,
        Observation::RelationshipUpdate { .. } => RiskLevel::High,
        Observation::KnowledgeAssertion { .. } => RiskLevel::High,
        Observation::IdentityReveal { .. } => RiskLevel::High,
        Observation::EntityMergeCandidate { .. } => RiskLevel::High,
        Observation::EntitySplitCandidate { .. } => RiskLevel::High,
        Observation::NotSameIdentity { .. } => RiskLevel::High,
        Observation::Summary { .. } => RiskLevel::Low,
    }
}

/// Risk of a property change to `dimension_key` with value `value_text`.
pub fn classify_property_risk(dimension_key: &str, value_text: Option<&str>) -> (r: RiskLevel)
    ensures
        r == property_risk(
            dimension_key@,
            lowercase(
                match value_text {
                    Some(t) => t@,
                    None => Seq::empty(),
                },
            ),
        ),
{
    let text: &str = match value_text {
        Some(t) => t,
        None => "",
    };
    proof {
        reveal_strlit("");
    }
    assert(text@ =~= match value_text {
        Some(t) => t@,
        None => Seq::<char>::empty(),
    });
    let lowered = to_lowercase(text);
    let value_lower = lowered.as_str();
    if str_eq(dimension_key, "life_status") {
        let death = [
            "死亡", "去世", "死去", "dead", "died", "killed", "death", "deceased", "perished",
            "slain", "passed away", "assassinated",
        ];
        assert(keyword_views(death@) =~= death_words());
        if contains_any(value_lower, &death) {
            return RiskLevel::High;
        }
        let revival = ["复活", "重生", "resurrected", "revived", "resurrection"];
        assert(keyword_views(revival@) =~= revival_words());
        if contains_any(value_lower, &revival) {
            return RiskLevel::High;
        }
        return RiskLevel::Medium;
    }
    if str_eq(dimension_key, "identity") {
        let reveal = ["身份揭示", "真实身份", "identity reveal", "unmasked"];
        assert(keyword_views(reveal@) =~= reveal_words());
        if contains_any(value_lower, &reveal) {
            return RiskLevel::High;
        }
        let merge = ["entity_merge_candidate", "合并", "同一个人", "merge"];
        assert(keyword_views(merge@) =~= merge_words());
        if contains_any(value_lower, &merge) {
            return RiskLevel::High;
        }
        return RiskLevel::Medium;
    }
    if str_eq(dimension_key, "affiliation") {
        return RiskLevel::Medium;
    }
    if str_eq(dimension_key, "realm") || str_eq(dimension_key, "rank") {
        return RiskLevel::Medium;
    }
    RiskLevel::Low
}


/// Why a model output item was refused.
#[derive(Debug)]
pub enum ExtractError {
    /// A required string field is absent or not a string.
    MissingField(String),
    /// A required mention is empty or whitespace only.
    EmptyField(String),
    InvalidDimensionKey(String),
    EmptyEvidence,
    InvalidEvidenceSpan(String),
    /// A fractional field lies outside `[0, 1]`: the field and its value.
    OutOfRange(String, Score),
    NonKnowledgeField(String),
    InvalidKnowledgeCategory(String),
    EmptyKnowledgeTopic,
    EmptyKnowledgeAssertion,
    InvalidStatusHint(String),
    InvalidEntityRole(String),
    InvalidRevealType(String),
    UnknownType(String),
}

/// The abstract value of an `ExtractError`.
pub enum ExtractErrorView {
    MissingField(Seq<char>),
    EmptyField(Seq<char>),
    InvalidDimensionKey(Seq<char>),
    EmptyEvidence,
    InvalidEvidenceSpan(Seq<char>),
    OutOfRange(Seq<char>, Score),
    NonKnowledgeField(Seq<char>),
    InvalidKnowledgeCategory(Seq<char>),
    EmptyKnowledgeTopic,
    EmptyKnowledgeAssertion,
    InvalidStatusHint(Seq<char>),
    InvalidEntityRole(Seq<char>),
    InvalidRevealType(Seq<char>),
    UnknownType(Seq<char>),
}

impl View for ExtractError {
    type V = ExtractErrorView;

    open spec fn view(&self) -> ExtractErrorView {
        match *self {
            ExtractError::MissingField(k) => ExtractErrorView::MissingField(k@),
            ExtractError::EmptyField(k) => ExtractErrorView::EmptyField(k@),
            ExtractError::InvalidDimensionKey(k) => ExtractErrorView::InvalidDimensionKey(k@),
            ExtractError::EmptyEvidence => ExtractErrorView::EmptyEvidence,
            ExtractError::InvalidEvidenceSpan(k) => ExtractErrorView::InvalidEvidenceSpan(k@),
            ExtractError::OutOfRange(k, v) => ExtractErrorView::OutOfRange(k@, v),
            ExtractError::NonKnowledgeField(k) => ExtractErrorView::NonKnowledgeField(k@),
            ExtractError::InvalidKnowledgeCategory(k) => ExtractErrorView::InvalidKnowledgeCategory(k@),
            ExtractError::EmptyKnowledgeTopic => ExtractErrorView::EmptyKnowledgeTopic,
            ExtractError::EmptyKnowledgeAssertion => ExtractErrorView::EmptyKnowledgeAssertion,
            ExtractError::InvalidStatusHint(k) => ExtractErrorView::InvalidStatusHint(k@),
            ExtractError::InvalidEntityRole(k) => ExtractErrorView::InvalidEntityRole(k@),
            ExtractError::InvalidRevealType(k) => ExtractErrorView::InvalidRevealType(k@),
            ExtractError::UnknownType(k) => ExtractErrorView::UnknownType(k@),
        }
    }
}

impl ExtractError {
    /// The human-readable message of the error; `value_text` is the decimal
    /// text of the value that a value out of range is reported with.
    pub fn message(&self, value_text: &str) -> (r: String)
        ensures
            r@ == error_message(self@, value_text@),
    {
        match self {
            ExtractError::MissingField(k) => crate::text::join2("Missing required field: ", k.as_str()),
            ExtractError::EmptyField(k) => crate::text::join2(k.as_str(), " is empty"),
            ExtractError::InvalidDimensionKey(k) => crate::text::join2("Invalid dimension_key: ", k.as_str()),
            ExtractError::EmptyEvidence => owned("evidence_span_ids is empty"),
            ExtractError::InvalidEvidenceSpan(k) => crate::text::join2("Invalid evidence_span_id: ", k.as_str()),
            ExtractError::OutOfRange(k, _) => crate::text::join3(k.as_str(), " out of range: ", value_text),
            ExtractError::NonKnowledgeField(k) => crate::text::join2(
                "knowledge_assertion contains non-knowledge field: ",
                k.as_str(),
            ),
            ExtractError::InvalidKnowledgeCategory(k) => crate::text::join2("Invalid knowledge category: ", k.as_str()),
            ExtractError::EmptyKnowledgeTopic => owned("knowledge topic is empty"),
            ExtractError::EmptyKnowledgeAssertion => owned("knowledge assertion_text is empty"),
            ExtractError::InvalidStatusHint(k) => crate::text::join2("Invalid knowledge status_hint: ", k.as_str()),
            ExtractError::InvalidEntityRole(k) => crate::text::join2("Invalid knowledge entity role: ", k.as_str()),
            ExtractError::InvalidRevealType(k) => crate::text::join2("Invalid reveal_type: ", k.as_str()),
            ExtractError::UnknownType(k) => crate::text::join2("Unknown observation type: ", k.as_str()),
        }
    }
}

/// The message text of an extraction error; a value out of range is
/// reported with `value_text`, its decimal text.
pub open spec fn error_message(e: ExtractErrorView, value_text: Seq<char>) -> Seq<char> {
    match e {
        ExtractErrorView::MissingField(k) => "Missing required field: "@ + k,
        ExtractErrorView::EmptyField(k) => k + " is empty"@,
        ExtractErrorView::InvalidDimensionKey(k) => "Invalid dimension_key: "@ + k,
        ExtractErrorView::EmptyEvidence => "evidence_span_ids is empty"@,
        ExtractErrorView::InvalidEvidenceSpan(k) => "Invalid evidence_span_id: "@ + k,
        ExtractErrorView::OutOfRange(k, _) => k + " out of range: "@ + value_text,
        ExtractErrorView::NonKnowledgeField(k) => "knowledge_assertion contains non-knowledge field: "@ + k,
        ExtractErrorView::InvalidKnowledgeCategory(k) => "Invalid knowledge category: "@ + k,
        ExtractErrorView::EmptyKnowledgeTopic => "knowledge topic is empty"@,
        ExtractErrorView::EmptyKnowledgeAssertion => "knowledge assertion_text is empty"@,
        ExtractErrorView::InvalidStatusHint(k) => "Invalid knowledge status_hint: "@ + k,
        ExtractErrorView::InvalidEntityRole(k) => "Invalid knowledge entity role: "@ + k,
        ExtractErrorView::InvalidRevealType(k) => "Invalid reveal_type: "@ + k,
        ExtractErrorView::UnknownType(k) => "Unknown observation type: "@ + k,
    }
}

/// Property dimensions that a property update may name.
#[verifier::opaque]
pub open spec fn dimension_keys() -> Seq<Seq<char>> {
    seq![
        "identity"@, "life_status"@, "affiliation"@, "rank"@, "occupation"@, "realm"@, "ability"@,
        "equipment"@, "location"@, "mental_state"@, "goal"@, "injury"@, "appearance"@,
        "background"@,
    ]
}

/// Relation groups that a relationship update may name.
#[verifier::opaque]
pub open spec fn relation_groups() -> Seq<Seq<char>> {
    seq![
        "family"@, "romance"@, "friendship"@, "mentorship"@, "hierarchy"@, "alliance"@,
        "rivalry"@, "hostility"@, "debt_obligation"@, "contract"@, "acquaintance"@,
        "other_social"@, "unknown_significant"@,
    ]
}

/// Directionalities that a relationship update may name.
#[verifier::opaque]
pub open spec fn directionalities() -> Seq<Seq<char>> {
    seq!["directed"@, "undirected"@]
}

/// Reveal types that an identity reveal may name.
#[verifier::opaque]
pub open spec fn reveal_types() -> Seq<Seq<char>> {
    seq![
        "true_name"@, "disguise"@, "title_reveal"@, "alias_reveal"@, "identity_confirmation"@,
        "mistaken_identity_correction"@,
    ]
}

/// Knowledge categories.
#[verifier::opaque]
pub open spec fn knowledge_categories() -> Seq<Seq<char>> {
    seq![
        "power_system"@, "faction_structure"@, "world_rule"@, "history"@, "secret"@,
        "prophecy"@, "politics"@, "geography"@, "custom"@,
    ]
}

/// Knowledge status hints.
#[verifier::opaque]
pub open spec fn knowledge_status_hints() -> Seq<Seq<char>> {
    seq!["fact"@, "rumor"@, "uncertain"@, "false_belief"@]
}

/// Roles of an entity referenced by knowledge.
#[verifier::opaque]
pub open spec fn knowledge_entity_roles() -> Seq<Seq<char>> {
    seq!["subject"@, "related"@, "source"@, "target"@, "location"@, "faction"@, "ability"@, "realm"@]
}

/// Fields whose presence marks an item as property-, relationship-,
/// identity- or map-shaped rather than knowledge.
#[verifier::opaque]
pub open spec fn non_knowledge_fields() -> Seq<Seq<char>> {
    seq![
        "subject_mention"@, "dimension_key"@, "object_mention"@, "relation_group"@,
        "revealed_mention"@, "canonical_mention"@, "reveal_type"@, "from_place_mention"@,
        "to_place_mention"@, "edge_type"@,
    ]
}

/// `o`'s text, or `d` when absent.
pub open spec fn or_default(o: Option<Seq<char>>, d: Seq<char>) -> Seq<char> {
    match o {
        Some(t) => t,
        None => d,
    }
}

/// The value `0.5`.
pub open spec fn half() -> Score {
    Score { key: KEY_HALF }
}

/// A required string field.
pub open spec fn required_spec(item: JsonValue, key: Seq<char>) -> Result<Seq<char>, ExtractErrorView> {
    match str_member(item, key) {
        Some(s) => Ok(s),
        None => Err(ExtractErrorView::MissingField(key)),
    }
}

/// Index of the first span id not among `valid`.
pub open spec fn first_unlisted(spans: Seq<Seq<char>>, valid: Seq<Seq<char>>) -> Option<int> {
    if exists|i: int| 0 <= i < spans.len() && !valid.contains(spans[i]) {
        Some(
            choose|i: int|
                0 <= i < spans.len() && !valid.contains(spans[i]) && forall|j: int|
                    0 <= j < i ==> valid.contains(spans[j]),
        )
    } else {
        None
    }
}

/// The evidence span ids of an item: non-empty, each one among `valid`.
pub open spec fn evidence_spec(item: JsonValue, valid: Seq<Seq<char>>) -> Result<Seq<Seq<char>>, ExtractErrorView> {
    let spans = string_array_member(item, "evidence_span_ids"@);
    if spans.len() == 0 {
        Err(ExtractErrorView::EmptyEvidence)
    } else {
        match first_unlisted(spans, valid) {
            Some(i) => Err(ExtractErrorView::InvalidEvidenceSpan(spans[i])),
            None => Ok(spans),
        }
    }
}

/// A fractional field in `[0, 1]`, `default` when absent or not a number.
pub open spec fn unit_spec(item: JsonValue, key: Seq<char>, default: Score) -> Result<Score, ExtractErrorView> {
    let v = match number_member(item, key) {
        Some(n) => n,
        None => default,
    };
    if in_unit_range(v) {
        Ok(v)
    } else {
        Err(ExtractErrorView::OutOfRange(key, v))
    }
}

/// The confidence of an item, `0.5` when absent or not a number; refused
/// when below 0 or above 1 (a NaN is not, as on `f64`).
pub open spec fn confidence_spec(item: JsonValue) -> Result<Score, ExtractErrorView> {
    let v = match number_member(item, "confidence"@) {
        Some(n) => n,
        None => half(),
    };
    if outside_unit(v) {
        Err(ExtractErrorView::OutOfRange("confidence"@, v))
    } else {
        Ok(v)
    }
}

/// The view of a result that holds a string.
pub open spec fn string_result(r: Result<String, ExtractError>) -> Result<Seq<char>, ExtractErrorView> {
    match r {
        Ok(s) => Ok(s@),
        Err(e) => Err(e@),
    }
}

/// A required string field.
pub fn required_str(item: &JsonValue, key: &str) -> (r: Result<String, ExtractError>)
    ensures
        string_result(r) == required_spec(*item, key@),
{
    match get_str(item, key) {
        Some(s) => Ok(s.clone()),
        None => Err(ExtractError::MissingField(owned(key))),
    }
}

/// An optional string field.
pub fn optional_str(item: &JsonValue, key: &str) -> (r: Option<String>)
    ensures
        opt_str(r) == str_member(*item, key@),
{
    match get_str(item, key) {
        Some(s) => Some(s.clone()),
        None => None,
    }
}

/// The string elements of an array field; empty when absent.
pub fn optional_str_array(item: &JsonValue, key: &str) -> (r: Vec<String>)
    ensures
        strs(r@) == string_array_member(*item, key@),
{
    get_string_array(item, key)
}

/// The evidence span ids of an item, each checked against `valid`.
pub fn validate_evidence_spans(item: &JsonValue, valid: &Vec<String>) -> (r: Result<Vec<String>, ExtractError>)
    ensures
        match r {
            Ok(spans) => evidence_spec(*item, strs(valid@)) == Ok::<Seq<Seq<char>>, ExtractErrorView>(strs(spans@)),
            Err(e) => evidence_spec(*item, strs(valid@)) == Err::<Seq<Seq<char>>, ExtractErrorView>(e@),
        },
{
    let spans = optional_str_array(item, "evidence_span_ids");
    if spans.len() == 0 {
        return Err(ExtractError::EmptyEvidence);
    }
    let ghost sv = strs(spans@);
    let ghost vv = strs(valid@);
    let mut i: usize = 0;
    while i < spans.len()
        invariant
            i <= spans@.len(),
            sv == strs(spans@),
            sv == string_array_member(*item, "evidence_span_ids"@),
            vv == strs(valid@),
            forall|j: int| 0 <= j < i ==> vv.contains(sv[j]),
        decreases spans.len() - i,
    {
        if !string_in(spans[i].as_str(), valid) {
            let ghost w = choose|k: int|
                0 <= k < sv.len() && !vv.contains(sv[k]) && forall|j: int| 0 <= j < k ==> vv.contains(sv[j]);
            assert(sv[i as int] == spans@[i as int]@);
            assert(0 <= i < sv.len() && !vv.contains(sv[i as int]));
            proof {
                if w < i {
                } else if w > i {
                }
            }
            assert(first_unlisted(sv, vv) == Some(i as int));
            let bad = spans[i].clone();
            assert(bad@ == sv[i as int]);
            return Err(ExtractError::InvalidEvidenceSpan(bad));
        }
        i = i + 1;
    }
    Ok(spans)
}

/// A fractional field in `[0, 1]`, `default` when absent.
pub fn validate_unit_f64(item: &JsonValue, key: &str, default: Score) -> (r: Result<Score, ExtractError>)
    ensures
        match r {
            Ok(v) => unit_spec(*item, key@, default) == Ok::<Score, ExtractErrorView>(v),
            Err(e) => unit_spec(*item, key@, default) == Err::<Score, ExtractErrorView>(e@),
        },
{
    let value = match get_number(item, key) {
        Some(n) => n,
        None => default,
    };
    if !value.is_unit() {
        return Err(ExtractError::OutOfRange(owned(key), value));
    }
    Ok(value)
}

/// The confidence of an item, `0.5` when absent, refused below 0 or above 1.
pub fn validate_confidence(item: &JsonValue) -> (r: Result<Score, ExtractError>)
    ensures
        match r {
            Ok(v) => confidence_spec(*item) == Ok::<Score, ExtractErrorView>(v),
            Err(e) => confidence_spec(*item) == Err::<Score, ExtractErrorView>(e@),
        },
{
    let value = match get_number(item, "confidence") {
        Some(n) => n,
        None => Score::half(),
    };
    if value.is_outside_unit() {
        return Err(ExtractError::OutOfRange(owned("confidence"), value));
    }
    Ok(value)
}

/// Index of the first listed field present in `item`.
pub open spec fn first_present(item: JsonValue, fields: Seq<Seq<char>>) -> Option<int> {
    if exists|i: int| 0 <= i < fields.len() && has_member(item, fields[i]) {
        Some(
            choose|i: int|
                0 <= i < fields.len() && has_member(item, fields[i]) && forall|j: int|
                    0 <= j < i ==> !has_member(item, fields[j]),
        )
    } else {
        None
    }
}

/// A knowledge item carries none of the fields of other observation shapes.
pub open spec fn knowledge_shape_spec(item: JsonValue) -> Result<(), ExtractErrorView> {
    match first_present(item, non_knowledge_fields()) {
        Some(i) => Err(ExtractErrorView::NonKnowledgeField(non_knowledge_fields()[i])),
        None => Ok(()),
    }
}

/// Refuses a knowledge item that carries a field of another observation shape.
#[verifier::rlimit(40)]
pub fn reject_mistyped_knowledge_shape(item: &JsonValue) -> (r: Result<(), ExtractError>)
    ensures
        match r {
            Ok(_) => knowledge_shape_spec(*item) == Ok::<(), ExtractErrorView>(()),
            Err(e) => knowledge_shape_spec(*item) == Err::<(), ExtractErrorView>(e@),
        },
{
    let forbidden = [
        "subject_mention", "dimension_key", "object_mention", "relation_group",
        "revealed_mention", "canonical_mention", "reveal_type", "from_place_mention",
        "to_place_mention", "edge_type",
    ];
    let ghost fv = non_knowledge_fields();
    proof {
        reveal(non_knowledge_fields);
    }
    assert(views_of(forbidden@) =~= fv);
    let mut i: usize = 0;
    while i < 10
        invariant
            i <= 10,
            forbidden@.len() == 10,
            fv == non_knowledge_fields(),
            views_of(forbidden@) == fv,
            forall|j: int| 0 <= j < i ==> !has_member(*item, fv[j]),
        decreases 10 - i,
    {
        let key = forbidden[i];
        assert(key@ == fv[i as int]);
        if has_key(item, key) {
            let ghost w = choose|k: int|
                0 <= k < fv.len() && has_member(*item, fv[k]) && forall|j: int| 0 <= j < k ==> !has_member(*item, fv[j]);
            assert(0 <= i < fv.len() && has_member(*item, fv[i as int]));
            proof {
                if w < i {
                } else if w > i {
                }
            }
            return Err(ExtractError::NonKnowledgeField(owned(key)));
        }
        i = i + 1;
    }
    Ok(())
}

/// A referenced-entity element whose trimmed mention is `mention`.
#[verifier::opaque]
pub open spec fn mention_fields_spec(entity: JsonValue, mention: Seq<char>) -> Result<KnowledgeEntityMentionView, ExtractErrorView> {
    let role = or_default(str_member(entity, "role"@), "related"@);
    if !knowledge_entity_roles().contains(role) {
        Err(ExtractErrorView::InvalidEntityRole(role))
    } else {
        match unit_spec(entity, "confidence"@, half()) {
            Err(e) => Err(e),
            Ok(c) => Ok(
                KnowledgeEntityMentionView {
                    mention,
                    entity_type_hint: str_member(entity, "entity_type_hint"@),
                    role,
                    confidence: c,
                    resolved_entity_id: None,
                },
            ),
        }
    }
}

/// One referenced-entity element: skipped (`None`) when its mention is absent or blank.
#[verifier::opaque]
pub open spec fn mention_spec(entity: JsonValue) -> Result<Option<KnowledgeEntityMentionView>, ExtractErrorView> {
    match str_member(entity, "mention"@) {
        None => Ok(None),
        Some(m) => if trim(m).len() == 0 {
            Ok(None)
        } else {
            match mention_fields_spec(entity, trim(m)) {
                Err(e) => Err(e),
                Ok(v) => Ok(Some(v)),
            }
        },
    }
}

/// The referenced-entity elements, in order; the first refused element refuses all.
pub open spec fn mentions_spec(items: Seq<JsonValue>) -> Result<Seq<KnowledgeEntityMentionView>, ExtractErrorView>
    decreases items.len(),
{
    if items.len() == 0 {
        Ok(Seq::empty())
    } else {
        match mentions_spec(items.drop_last()) {
            Err(e) => Err(e),
            Ok(prev) => match mention_spec(items.last()) {
                Err(e) => Err(e),
                Ok(None) => Ok(prev),
                Ok(Some(m)) => Ok(prev.push(m)),
            },
        }
    }
}

/// The referenced entities of a knowledge item; none when the field is absent.
pub open spec fn item_mentions_spec(item: JsonValue) -> Result<Seq<KnowledgeEntityMentionView>, ExtractErrorView> {
    match array_member(item, "referenced_entity_mentions"@) {
        Some(items) => mentions_spec(items),
        None => Ok(Seq::empty()),
    }
}

proof fn lemma_mentions_error_persists(items: Seq<JsonValue>, k: int)
    requires
        0 <= k <= items.len(),
        mentions_spec(items.subrange(0, k)) is Err,
    ensures
        mentions_spec(items) == mentions_spec(items.subrange(0, k)),
    decreases items.len() - k,
{
    if k < items.len() {
        assert(items.subrange(0, k + 1).drop_last() =~= items.subrange(0, k));
        lemma_mentions_error_persists(items, k + 1);
    } else {
        assert(items.subrange(0, k) =~= items);
    }
}

/// Whether `role` is a known role of a referenced entity.
pub fn is_knowledge_entity_role(role: &str) -> (r: bool)
    ensures
        r == knowledge_entity_roles().contains(role@),
{
    let roles = ["subject", "related", "source", "target", "location", "faction", "ability", "realm"];
    proof {
        reveal(knowledge_entity_roles);
    }
    assert(views_of(roles@) =~= knowledge_entity_roles());
    str_in(role, &roles)
}

/// `s` trimmed, when it is not blank.
pub fn trimmed_non_blank(s: &str) -> (r: Option<String>)
    ensures
        match r {
            Some(t) => t@ == trim(s@) && trim(s@).len() > 0,
            None => trim(s@).len() == 0,
        },
{
    let cv = chars_of(s);
    let (a, b) = trim_bounds(&cv);
    if a == b {
        None
    } else {
        Some(string_from(&cv, a, b))
    }
}

/// Builds a referenced entity from its element, given its trimmed mention.
fn mention_fields(entity: &JsonValue, mention: String) -> (r: Result<KnowledgeEntityMention, ExtractError>)
    ensures
        match r {
            Ok(m) => mention_fields_spec(*entity, mention@) == Ok::<KnowledgeEntityMentionView, ExtractErrorView>(m@),
            Err(e) => mention_fields_spec(*entity, mention@) == Err::<KnowledgeEntityMentionView, ExtractErrorView>(e@),
        },
{
    proof {
        reveal(mention_fields_spec);
    }
    let role = match get_str(entity, "role") {
        Some(r) => r.clone(),
        None => owned("related"),
    };
    if !is_knowledge_entity_role(role.as_str()) {
        return Err(ExtractError::InvalidEntityRole(role));
    }
    let confidence = match validate_unit_f64(entity, "confidence", Score::half()) {
        Ok(c) => c,
        Err(e) => return Err(e),
    };
    Ok(
        KnowledgeEntityMention {
            mention,
            entity_type_hint: optional_str(entity, "entity_type_hint"),
            role,
            confidence,
            resolved_entity_id: None,
        },
    )
}

/// Parses one referenced-entity element.
fn parse_one_mention(entity: &JsonValue) -> (r: Result<Option<KnowledgeEntityMention>, ExtractError>)
    ensures
        match r {
            Ok(Some(m)) => mention_spec(*entity) == Ok::<Option<KnowledgeEntityMentionView>, ExtractErrorView>(Some(m@)),
            Ok(None) => mention_spec(*entity) == Ok::<Option<KnowledgeEntityMentionView>, ExtractErrorView>(None),
            Err(e) => mention_spec(*entity) == Err::<Option<KnowledgeEntityMentionView>, ExtractErrorView>(e@),
        },
{
    proof {
        reveal(mention_spec);
    }
    let raw = match get_str(entity, "mention") {
        Some(m) => m,
        None => return Ok(None),
    };
    let mention = match trimmed_non_blank(raw.as_str()) {
        Some(m) => m,
        None => return Ok(None),
    };
    match mention_fields(entity, mention) {
        Ok(m) => Ok(Some(m)),
        Err(e) => Err(e),
    }
}

/// The referenced entities of a knowledge item.
#[verifier::rlimit(40)]
pub fn parse_knowledge_entity_mentions(item: &JsonValue) -> (r: Result<Vec<KnowledgeEntityMention>, ExtractError>)
    ensures
        match r {
            Ok(ms) => item_mentions_spec(*item) == Ok::<Seq<KnowledgeEntityMentionView>, ExtractErrorView>(mention_views(ms@)),
            Err(e) => item_mentions_spec(*item) == Err::<Seq<KnowledgeEntityMentionView>, ExtractErrorView>(e@),
        },
{
    let items = match get_array(item, "referenced_entity_mentions") {
        Some(items) => items,
        None => {
            let empty: Vec<KnowledgeEntityMention> = Vec::new();
            assert(mention_views(empty@) =~= Seq::<KnowledgeEntityMentionView>::empty());
            return Ok(empty);
        },
    };
    let mut mentions: Vec<KnowledgeEntityMention> = Vec::new();
    let mut i: usize = 0;
    assert(items@.subrange(0, 0) =~= Seq::<JsonValue>::empty());
    assert(mention_views(mentions@) =~= Seq::<KnowledgeEntityMentionView>::empty());
    while i < items.len()
        invariant
            i <= items@.len(),
            array_member(*item, "referenced_entity_mentions"@) == Some(items@),
            mentions_spec(items@.subrange(0, i as int)) == Ok::<Seq<KnowledgeEntityMentionView>, ExtractErrorView>(mention_views(mentions@)),
        decreases items.len() - i,
    {
        let ghost before = mentions@;
        assert(items@.subrange(0, i + 1).drop_last() =~= items@.subrange(0, i as int));
        assert(items@.subrange(0, i + 1).last() == items@[i as int]);
        match parse_one_mention(&items[i]) {
            Ok(Some(m)) => {
                mentions.push(m);
                assert(mention_views(mentions@) =~= mention_views(before).push(mentions@.last()@));
            },
            Ok(None) => {},
            Err(e) => {
                proof {
                    lemma_mentions_error_persists(items@, i + 1);
                }
                return Err(e);
            },
        }
        i = i + 1;
    }
    assert(items@.subrange(0, items@.len() as int) =~= items@);
    Ok(mentions)
}


/// The observation-type name, with the PascalCase and camelCase spellings
/// mapped to snake_case; any other name unchanged.
pub open spec fn normalized_type(t: Seq<char>) -> Seq<char> {
    if t == "entity_introduction"@ || t == "EntityIntroduction"@ || t == "entityIntroduction"@ {
        "entity_introduction"@
    } else if t == "alias"@ || t == "Alias"@ {
        "alias"@
    } else if t == "property_update"@ || t == "PropertyUpdate"@ || t == "propertyUpdate"@ {
        "property_update"@
    } else if t == "minor_event"@ || t == "MinorEvent"@ || t == "minorEvent"@ {
        "minor_event"@
    } else if t == "relationship_update"@ || t == "RelationshipUpdate"@ || t == "relationshipUpdate"@ {
        "relationship_update"@
    } else if t == "knowledge_assertion"@ || t == "KnowledgeAssertion"@ || t == "knowledgeAssertion"@ {
        "knowledge_assertion"@
    } else if t == "identity_reveal"@ || t == "IdentityReveal"@ || t == "identityReveal"@ {
        "identity_reveal"@
    } else if t == "entity_merge_candidate"@ || t == "EntityMergeCandidate"@ || t == "entityMergeCandidate"@ {
        "entity_merge_candidate"@
    } else if t == "entity_split_candidate"@ || t == "EntitySplitCandidate"@ || t == "entitySplitCandidate"@ {
        "entity_split_candidate"@
    } else if t == "not_same_identity"@ || t == "NotSameIdentity"@ || t == "notSameIdentity"@ {
        "not_same_identity"@
    } else if t == "summary"@ || t == "Summary"@ {
        "summary"@
    } else {
        t
    }
}

/// Maps an observation-type name to its snake_case spelling.
pub fn normalize_type(t: &str) -> (r: String)
    ensures
        r@ == normalized_type(t@),
{
    if str_eq(t, "entity_introduction") || str_eq(t, "EntityIntroduction") || str_eq(t, "entityIntroduction") {
        owned("entity_introduction")
    } else if str_eq(t, "alias") || str_eq(t, "Alias") {
        owned("alias")
    } else if str_eq(t, "property_update") || str_eq(t, "PropertyUpdate") || str_eq(t, "propertyUpdate") {
        owned("property_update")
    } else if str_eq(t, "minor_event") || str_eq(t, "MinorEvent") || str_eq(t, "minorEvent") {
        owned("minor_event")
    } else if str_eq(t, "relationship_update") || str_eq(t, "RelationshipUpdate") || str_eq(t, "relationshipUpdate") {
        owned("relationship_update")
    } else if str_eq(t, "knowledge_assertion") || str_eq(t, "KnowledgeAssertion") || str_eq(t, "knowledgeAssertion") {
        owned("knowledge_assertion")
    } else if str_eq(t, "identity_reveal") || str_eq(t, "IdentityReveal") || str_eq(t, "identityReveal") {
        owned("identity_reveal")
    } else if str_eq(t, "entity_merge_candidate") || str_eq(t, "EntityMergeCandidate") || str_eq(t, "entityMergeCandidate") {
        owned("entity_merge_candidate")
    } else if str_eq(t, "entity_split_candidate") || str_eq(t, "EntitySplitCandidate") || str_eq(t, "entitySplitCandidate") {
        owned("entity_split_candidate")
    } else if str_eq(t, "not_same_identity") || str_eq(t, "NotSameIdentity") || str_eq(t, "notSameIdentity") {
        owned("not_same_identity")
    } else if str_eq(t, "summary") || str_eq(t, "Summary") {
        owned("summary")
    } else {
        owned(t)
    }
}

/// The view of a parse result.
pub open spec fn obs_result(r: Result<Observation, ExtractError>) -> Result<ObservationView, ExtractErrorView> {
    match r {
        Ok(o) => Ok(o@),
        Err(e) => Err(e@),
    }
}

/// An entity introduction item.
#[verifier::opaque]
pub open spec fn entity_introduction_spec(item: JsonValue, valid: Seq<Seq<char>>) -> Result<ObservationView, ExtractErrorView> {
    match required_spec(item, "subject_mention"@) {
        Err(e) => Err(e),
        Ok(subject) => match evidence_spec(item, valid) {
            Err(e) => Err(e),
            Ok(spans) => match confidence_spec(item) {
                Err(e) => Err(e),
                Ok(c) => Ok(
                    ObservationView::EntityIntroduction {
                        subject_mention: subject,
                        entity_type: or_default(str_member(item, "entity_type"@), "character"@),
                        aliases: string_array_member(item, "aliases"@),
                        short_summary: or_default(str_member(item, "short_summary"@), Seq::empty()),
                        evidence_span_ids: spans,
                        confidence: c,
                    },
                ),
            },
        },
    }
}

/// An alias item.
#[verifier::opaque]
pub open spec fn alias_spec(item: JsonValue, valid: Seq<Seq<char>>) -> Result<ObservationView, ExtractErrorView> {
    match required_spec(item, "subject_mention"@) {
        Err(e) => Err(e),
        Ok(subject) => match required_spec(item, "alias"@) {
            Err(e) => Err(e),
            Ok(alias) => match evidence_spec(item, valid) {
                Err(e) => Err(e),
                Ok(spans) => match confidence_spec(item) {
                    Err(e) => Err(e),
                    Ok(c) => Ok(
                        ObservationView::Alias {
                            subject_mention: subject,
                            alias,
                            alias_type: or_default(str_member(item, "alias_type"@), "alias"@),
                            evidence_span_ids: spans,
                            confidence: c,
                        },
                    ),
                },
            },
        },
    }
}

/// A property update item; its dimension must be a known one.
#[verifier::opaque]
pub open spec fn property_update_spec(item: JsonValue, valid: Seq<Seq<char>>) -> Result<ObservationView, ExtractErrorView> {
    match required_spec(item, "subject_mention"@) {
        Err(e) => Err(e),
        Ok(subject) => match required_spec(item, "dimension_key"@) {
            Err(e) => Err(e),
            Ok(dimension) => if !dimension_keys().contains(dimension) {
                Err(ExtractErrorView::InvalidDimensionKey(dimension))
            } else {
                match evidence_spec(item, valid) {
                    Err(e) => Err(e),
                    Ok(spans) => match confidence_spec(item) {
                        Err(e) => Err(e),
                        Ok(c) => Ok(
                            ObservationView::PropertyUpdate {
                                subject_mention: subject,
                                dimension_key: dimension,
                                value_text: str_member(item, "value_text"@),
                                value_json: json_get(item, "value_json"@),
                                evidence_span_ids: spans,
                                confidence: c,
                            },
                        ),
                    },
                }
            },
        },
    }
}

/// A minor event item.
#[verifier::opaque]
pub open spec fn minor_event_spec(item: JsonValue, valid: Seq<Seq<char>>) -> Result<ObservationView, ExtractErrorView> {
    match required_spec(item, "description"@) {
        Err(e) => Err(e),
        Ok(description) => match evidence_spec(item, valid) {
            Err(e) => Err(e),
            Ok(spans) => match confidence_spec(item) {
                Err(e) => Err(e),
                Ok(c) => Ok(
                    ObservationView::MinorEvent {
                        description,
                        involved_mentions: string_array_member(item, "involved_mentions"@),
                        evidence_span_ids: spans,
                        confidence: c,
                    },
                ),
            },
        },
    }
}

/// The mentions of a relationship update: both present and non-blank.
#[verifier::opaque]
pub open spec fn relationship_mentions_spec(item: JsonValue) -> Result<(Seq<char>, Seq<char>), ExtractErrorView> {
    match required_spec(item, "subject_mention"@) {
        Err(e) => Err(e),
        Ok(subject) => if is_blank(subject) {
            Err(ExtractErrorView::EmptyField("subject_mention"@))
        } else {
            match required_spec(item, "object_mention"@) {
                Err(e) => Err(e),
                Ok(object) => if is_blank(object) {
                    Err(ExtractErrorView::EmptyField("object_mention"@))
                } else {
                    Ok((subject, object))
                },
            }
        },
    }
}

/// The relation fields of a relationship update: hint, group, label and
/// directionality. An unknown group reads as `unknown_significant`, an
/// unknown directionality as `directed`.
#[verifier::opaque]
pub open spec fn relation_fields_spec(item: JsonValue) -> Result<(Seq<char>, Seq<char>, Seq<char>, Seq<char>), ExtractErrorView> {
    match required_spec(item, "relation_hint"@) {
        Err(e) => Err(e),
        Ok(hint) => match required_spec(item, "relation_group"@) {
            Err(e) => Err(e),
            Ok(group) => match required_spec(item, "relation_label"@) {
                Err(e) => Err(e),
                Ok(label) => match required_spec(item, "directionality"@) {
                    Err(e) => Err(e),
                    Ok(direction) => Ok(
                        (
                            hint,
                            if relation_groups().contains(group) {
                                group
                            } else {
                                "unknown_significant"@
                            },
                            label,
                            if directionalities().contains(direction) {
                                direction
                            } else {
                                "directed"@
                            },
                        ),
                    ),
                },
            },
        },
    }
}

/// The evidence and confidence shared by most items.
#[verifier::opaque]
pub open spec fn support_spec(item: JsonValue, valid: Seq<Seq<char>>) -> Result<(Seq<Seq<char>>, Score), ExtractErrorView> {
    match evidence_spec(item, valid) {
        Err(e) => Err(e),
        Ok(spans) => match confidence_spec(item) {
            Err(e) => Err(e),
            Ok(c) => Ok((spans, c)),
        },
    }
}

/// A relationship update item.
#[verifier::opaque]
pub open spec fn relationship_update_spec(item: JsonValue, valid: Seq<Seq<char>>) -> Result<ObservationView, ExtractErrorView> {
    match relationship_mentions_spec(item) {
        Err(e) => Err(e),
        Ok((subject, object)) => match relation_fields_spec(item) {
            Err(e) => Err(e),
            Ok((hint, group, label, direction)) => match support_spec(item, valid) {
                Err(e) => Err(e),
                Ok((spans, c)) => Ok(
                    ObservationView::RelationshipUpdate {
                        subject_mention: subject,
                        object_mention: object,
                        relation_hint: hint,
                        relation_group: group,
                        relation_label: label,
                        directionality: direction,
                        evidence_span_ids: spans,
                        confidence: c,
                        importance_hint: match number_member(item, "importance_hint"@) {
                            Some(n) => n,
                            None => half(),
                        },
                        is_long_term_or_significant_hint: match bool_member(item, "is_long_term_or_significant_hint"@) {
                            Some(b) => b,
                            None => true,
                        },
                    },
                ),
            },
        },
    }
}

/// The category of a knowledge assertion; it must be a known one.
#[verifier::opaque]
pub open spec fn knowledge_category_spec(item: JsonValue) -> Result<Seq<char>, ExtractErrorView> {
    match required_spec(item, "category"@) {
        Err(e) => Err(e),
        Ok(category) => if !knowledge_categories().contains(category) {
            Err(ExtractErrorView::InvalidKnowledgeCategory(category))
        } else {
            Ok(category)
        },
    }
}

/// The topic and text of a knowledge assertion, both non-blank.
#[verifier::opaque]
pub open spec fn knowledge_text_spec(item: JsonValue) -> Result<(Seq<char>, Seq<char>), ExtractErrorView> {
    match required_spec(item, "topic"@) {
        Err(e) => Err(e),
        Ok(topic) => if is_blank(topic) {
            Err(ExtractErrorView::EmptyKnowledgeTopic)
        } else {
            match required_spec(item, "assertion_text"@) {
                Err(e) => Err(e),
                Ok(text) => if is_blank(text) {
                    Err(ExtractErrorView::EmptyKnowledgeAssertion)
                } else {
                    Ok((topic, text))
                },
            }
        },
    }
}

/// The head of a knowledge assertion: knowledge-shaped, a known category,
/// a non-blank topic and a non-blank assertion text.
#[verifier::opaque]
pub open spec fn knowledge_head_spec(item: JsonValue) -> Result<(Seq<char>, Seq<char>, Seq<char>), ExtractErrorView> {
    match knowledge_shape_spec(item) {
        Err(e) => Err(e),
        Ok(_) => match knowledge_category_spec(item) {
            Err(e) => Err(e),
            Ok(category) => match knowledge_text_spec(item) {
                Err(e) => Err(e),
                Ok((topic, text)) => Ok((category, topic, text)),
            },
        },
    }
}

/// The status hint of a knowledge assertion, when it names a known hint.
#[verifier::opaque]
pub open spec fn status_hint_spec(item: JsonValue) -> Result<Option<Seq<char>>, ExtractErrorView> {
    let status = str_member(item, "status_hint"@);
    if status is Some && !knowledge_status_hints().contains(status->0) {
        Err(ExtractErrorView::InvalidStatusHint(status->0))
    } else {
        Ok(status)
    }
}

/// A knowledge assertion item.
#[verifier::opaque]
pub open spec fn knowledge_assertion_spec(item: JsonValue, valid: Seq<Seq<char>>) -> Result<ObservationView, ExtractErrorView> {
    match knowledge_head_spec(item) {
        Err(e) => Err(e),
        Ok((category, topic, text)) => match support_spec(item, valid) {
            Err(e) => Err(e),
            Ok((spans, c)) => match unit_spec(item, "importance_score"@, half()) {
                Err(e) => Err(e),
                Ok(importance) => match status_hint_spec(item) {
                    Err(e) => Err(e),
                    Ok(status) => match item_mentions_spec(item) {
                        Err(e) => Err(e),
                        Ok(mentions) => Ok(
                            ObservationView::KnowledgeAssertion {
                                category,
                                topic,
                                assertion_text: text,
                                confidence: c,
                                importance_score: importance,
                                evidence_span_ids: spans,
                                referenced_entity_mentions: mentions,
                                status_hint: status,
                                reason_hint: str_member(item, "reason_hint"@),
                            },
                        ),
                    },
                },
            },
        },
    }
}

/// A summary item; it carries no evidence.
#[verifier::opaque]
pub open spec fn summary_spec(item: JsonValue) -> Result<ObservationView, ExtractErrorView> {
    match required_spec(item, "summary"@) {
        Err(e) => Err(e),
        Ok(summary) => Ok(
            ObservationView::Summary {
                summary,
                key_points: string_array_member(item, "key_points"@),
                has_important_changes: match bool_member(item, "has_important_changes"@) {
                    Some(b) => b,
                    None => false,
                },
            },
        ),
    }
}

/// The mentions and reveal type of an identity reveal; the type must be known.
#[verifier::opaque]
pub open spec fn reveal_head_spec(item: JsonValue) -> Result<(Seq<char>, Seq<char>, Seq<char>), ExtractErrorView> {
    match required_spec(item, "revealed_mention"@) {
        Err(e) => Err(e),
        Ok(revealed) => match required_spec(item, "canonical_mention"@) {
            Err(e) => Err(e),
            Ok(canonical) => match required_spec(item, "reveal_type"@) {
                Err(e) => Err(e),
                Ok(reveal_type) => if !reveal_types().contains(reveal_type) {
                    Err(ExtractErrorView::InvalidRevealType(reveal_type))
                } else {
                    Ok((revealed, canonical, reveal_type))
                },
            },
        },
    }
}

/// An identity reveal item.
#[verifier::opaque]
pub open spec fn identity_reveal_spec(item: JsonValue, valid: Seq<Seq<char>>) -> Result<ObservationView, ExtractErrorView> {
    match reveal_head_spec(item) {
        Err(e) => Err(e),
        Ok((revealed, canonical, reveal_type)) => match support_spec(item, valid) {
            Err(e) => Err(e),
            Ok((spans, c)) => Ok(
                ObservationView::IdentityReveal {
                    revealed_mention: revealed,
                    canonical_mention: canonical,
                    reveal_type,
                    reason_hint: str_member(item, "reason_hint"@),
                    evidence_span_ids: spans,
                    confidence: c,
                },
            ),
        },
    }
}

/// The fields shared by the identity pair candidates: entity A, entity B,
/// the reason hint, the evidence and the confidence.
#[verifier::opaque]
pub open spec fn pair_spec(item: JsonValue, valid: Seq<Seq<char>>) -> Result<(Seq<char>, Seq<char>, Option<Seq<char>>, Seq<Seq<char>>, Score), ExtractErrorView> {
    match required_spec(item, "entity_a_mention"@) {
        Err(e) => Err(e),
        Ok(a) => match required_spec(item, "entity_b_mention"@) {
            Err(e) => Err(e),
            Ok(b) => match evidence_spec(item, valid) {
                Err(e) => Err(e),
                Ok(spans) => match confidence_spec(item) {
                    Err(e) => Err(e),
                    Ok(c) => Ok((a, b, str_member(item, "reason_hint"@), spans, c)),
                },
            },
        },
    }
}

/// One model output item.
pub open spec fn item_spec(item: JsonValue, valid: Seq<Seq<char>>) -> Result<ObservationView, ExtractErrorView> {
    let t = normalized_type(or_default(str_member(item, "type"@), Seq::empty()));
    if t == "entity_introduction"@ {
        entity_introduction_spec(item, valid)
    } else if t == "alias"@ {
        alias_spec(item, valid)
    } else if t == "property_update"@ {
        property_update_spec(item, valid)
    } else if t == "minor_event"@ {
        minor_event_spec(item, valid)
    } else if t == "relationship_update"@ {
        relationship_update_spec(item, valid)
    } else if t == "knowledge_assertion"@ {
        knowledge_assertion_spec(item, valid)
    } else if t == "summary"@ {
        summary_spec(item)
    } else if t == "identity_reveal"@ {
        identity_reveal_spec(item, valid)
    } else if t == "entity_merge_candidate"@ || t == "entity_split_candidate"@ || t == "not_same_identity"@ {
        match pair_spec(item, valid) {
            Err(e) => Err(e),
            Ok((a, b, reason, spans, c)) => Ok(
                if t == "entity_merge_candidate"@ {
                    ObservationView::EntityMergeCandidate {
                        entity_a_mention: a,
                        entity_b_mention: b,
                        reason_hint: reason,
                        evidence_span_ids: spans,
                        confidence: c,
                    }
                } else if t == "entity_split_candidate"@ {
                    ObservationView::EntitySplitCandidate {
                        entity_a_mention: a,
                        entity_b_mention: b,
                        reason_hint: reason,
                        evidence_span_ids: spans,
                        confidence: c,
                    }
                } else {
                    ObservationView::NotSameIdentity {
                        entity_a_mention: a,
                        entity_b_mention: b,
                        reason_hint: reason,
                        evidence_span_ids: spans,
                        confidence: c,
                    }
                },
            ),
        }
    } else {
        Err(ExtractErrorView::UnknownType(t))
    }
}

/// The items in order; the first refused item refuses the whole output.
pub open spec fn items_spec(items: Seq<JsonValue>, valid: Seq<Seq<char>>) -> Result<Seq<ObservationView>, ExtractErrorView>
    decreases items.len(),
{
    if items.len() == 0 {
        Ok(Seq::empty())
    } else {
        match items_spec(items.drop_last(), valid) {
            Err(e) => Err(e),
            Ok(prev) => match item_spec(items.last(), valid) {
                Err(e) => Err(e),
                Ok(o) => Ok(prev.push(o)),
            },
        }
    }
}

/// The views of a sequence of observations.
pub open spec fn observation_views(v: Seq<Observation>) -> Seq<ObservationView> {
    v.map_values(|o: Observation| o@)
}


/// Whether `k` names a known property dimension.
pub fn is_dimension_key(k: &str) -> (r: bool)
    ensures
        r == dimension_keys().contains(k@),
{
    let keys = [
        "identity", "life_status", "affiliation", "rank", "occupation", "realm", "ability",
        "equipment", "location", "mental_state", "goal", "injury", "appearance", "background",
    ];
    proof {
        reveal(dimension_keys);
    }
    assert(views_of(keys@) =~= dimension_keys());
    str_in(k, &keys)
}

/// Whether `g` names a known relation group.
pub fn is_relation_group(g: &str) -> (r: bool)
    ensures
        r == relation_groups().contains(g@),
{
    let groups = [
        "family", "romance", "friendship", "mentorship", "hierarchy", "alliance", "rivalry",
        "hostility", "debt_obligation", "contract", "acquaintance", "other_social",
        "unknown_significant",
    ];
    proof {
        reveal(relation_groups);
    }
    assert(views_of(groups@) =~= relation_groups());
    str_in(g, &groups)
}

/// Whether `d` names a known directionality.
pub fn is_directionality(d: &str) -> (r: bool)
    ensures
        r == directionalities().contains(d@),
{
    let ds = ["directed", "undirected"];
    proof {
        reveal(directionalities);
    }
    assert(views_of(ds@) =~= directionalities());
    str_in(d, &ds)
}

/// Whether `t` names a known reveal type.
pub fn is_reveal_type(t: &str) -> (r: bool)
    ensures
        r == reveal_types().contains(t@),
{
    let ts = [
        "true_name", "disguise", "title_reveal", "alias_reveal", "identity_confirmation",
        "mistaken_identity_correction",
    ];
    proof {
        reveal(reveal_types);
    }
    assert(views_of(ts@) =~= reveal_types());
    str_in(t, &ts)
}

/// Whether `c` names a knowledge category.
pub fn is_knowledge_category(c: &str) -> (r: bool)
    ensures
        r == knowledge_categories().contains(c@),
{
    let cs = [
        "power_system", "faction_structure", "world_rule", "history", "secret", "prophecy",
        "politics", "geography", "custom",
    ];
    proof {
        reveal(knowledge_categories);
    }
    assert(views_of(cs@) =~= knowledge_categories());
    str_in(c, &cs)
}

/// Whether `h` names a knowledge status hint.
pub fn is_knowledge_status_hint(h: &str) -> (r: bool)
    ensures
        r == knowledge_status_hints().contains(h@),
{
    let hs = ["fact", "rumor", "uncertain", "false_belief"];
    proof {
        reveal(knowledge_status_hints);
    }
    assert(views_of(hs@) =~= knowledge_status_hints());
    str_in(h, &hs)
}

/// An optional string field, `default` when absent.
pub fn str_or(item: &JsonValue, key: &str, default: &str) -> (r: String)
    ensures
        r@ == or_default(str_member(*item, key@), default@),
{
    match get_str(item, key) {
        Some(s) => s.clone(),
        None => owned(default),
    }
}

fn parse_entity_introduction(item: &JsonValue, valid: &Vec<String>) -> (r: Result<Observation, ExtractError>)
    ensures
        obs_result(r) == entity_introduction_spec(*item, strs(valid@)),
{
    proof {
        reveal(entity_introduction_spec);
    }
    let subject_mention = match required_str(item, "subject_mention") {
        Ok(s) => s,
        Err(e) => return Err(e),
    };
    let entity_type = str_or(item, "entity_type", "character");
    let aliases = optional_str_array(item, "aliases");
    let short_summary = match get_str(item, "short_summary") {
        Some(s) => s.clone(),
        None => String::new(),
    };
    let evidence_span_ids = match validate_evidence_spans(item, valid) {
        Ok(s) => s,
        Err(e) => return Err(e),
    };
    let confidence = match validate_confidence(item) {
        Ok(c) => c,
        Err(e) => return Err(e),
    };
    Ok(Observation::EntityIntroduction { subject_mention, entity_type, aliases, short_summary, evidence_span_ids, confidence })
}

fn parse_alias(item: &JsonValue, valid: &Vec<String>) -> (r: Result<Observation, ExtractError>)
    ensures
        obs_result(r) == alias_spec(*item, strs(valid@)),
{
    proof {
        reveal(alias_spec);
    }
    let subject_mention = match required_str(item, "subject_mention") {
        Ok(s) => s,
        Err(e) => return Err(e),
    };
    let alias = match required_str(item, "alias") {
        Ok(s) => s,
        Err(e) => return Err(e),
    };
    let alias_type = str_or(item, "alias_type", "alias");
    let evidence_span_ids = match validate_evidence_spans(item, valid) {
        Ok(s) => s,
        Err(e) => return Err(e),
    };
    let confidence = match validate_confidence(item) {
        Ok(c) => c,
        Err(e) => return Err(e),
    };
    Ok(Observation::Alias { subject_mention, alias, alias_type, evidence_span_ids, confidence })
}

#[verifier::rlimit(100)]
fn parse_property_update(item: JsonValue, valid: &Vec<String>) -> (r: Result<Observation, ExtractError>)
    ensures
        obs_result(r) == property_update_spec(item, strs(valid@)),
{
    proof {
        reveal(property_update_spec);
    }
    let subject_mention = match required_str(&item, "subject_mention") {
        Ok(s) => s,
        Err(e) => return Err(e),
    };
    let dimension_key = match required_str(&item, "dimension_key") {
        Ok(s) => s,
        Err(e) => return Err(e),
    };
    if !is_dimension_key(dimension_key.as_str()) {
        return Err(ExtractError::InvalidDimensionKey(dimension_key));
    }
    let value_text = optional_str(&item, "value_text");
    let evidence_span_ids = match validate_evidence_spans(&item, valid) {
        Ok(s) => s,
        Err(e) => return Err(e),
    };
    let confidence = match validate_confidence(&item) {
        Ok(c) => c,
        Err(e) => return Err(e),
    };
    let value_json = take_member(item, "value_json");
    Ok(Observation::PropertyUpdate { subject_mention, dimension_key, value_text, value_json, evidence_span_ids, confidence })
}

fn parse_minor_event(item: &JsonValue, valid: &Vec<String>) -> (r: Result<Observation, ExtractError>)
    ensures
        obs_result(r) == minor_event_spec(*item, strs(valid@)),
{
    proof {
        reveal(minor_event_spec);
    }
    let description = match required_str(item, "description") {
        Ok(s) => s,
        Err(e) => return Err(e),
    };
    let involved_mentions = optional_str_array(item, "involved_mentions");
    let evidence_span_ids = match validate_evidence_spans(item, valid) {
        Ok(s) => s,
        Err(e) => return Err(e),
    };
    let confidence = match validate_confidence(item) {
        Ok(c) => c,
        Err(e) => return Err(e),
    };
    Ok(Observation::MinorEvent { description, involved_mentions, evidence_span_ids, confidence })
}

/// The evidence and confidence of an item.
fn parse_support(item: &JsonValue, valid: &Vec<String>) -> (r: Result<(Vec<String>, Score), ExtractError>)
    ensures
        match r {
            Ok((spans, c)) => support_spec(*item, strs(valid@)) == Ok::<(Seq<Seq<char>>, Score), ExtractErrorView>((strs(spans@), c)),
            Err(e) => support_spec(*item, strs(valid@)) == Err::<(Seq<Seq<char>>, Score), ExtractErrorView>(e@),
        },
{
    proof {
        reveal(support_spec);
    }
    let spans = match validate_evidence_spans(item, valid) {
        Ok(s) => s,
        Err(e) => return Err(e),
    };
    let confidence = match validate_confidence(item) {
        Ok(c) => c,
        Err(e) => return Err(e),
    };
    Ok((spans, confidence))
}

fn parse_relationship_mentions(item: &JsonValue) -> (r: Result<(String, String), ExtractError>)
    ensures
        match r {
            Ok((a, b)) => relationship_mentions_spec(*item) == Ok::<(Seq<char>, Seq<char>), ExtractErrorView>((a@, b@)),
            Err(e) => relationship_mentions_spec(*item) == Err::<(Seq<char>, Seq<char>), ExtractErrorView>(e@),
        },
{
    proof {
        reveal(relationship_mentions_spec);
    }
    let subject_mention = match required_str(item, "subject_mention") {
        Ok(s) => s,
        Err(e) => return Err(e),
    };
    if str_is_blank(subject_mention.as_str()) {
        return Err(ExtractError::EmptyField(owned("subject_mention")));
    }
    let object_mention = match required_str(item, "object_mention") {
        Ok(s) => s,
        Err(e) => return Err(e),
    };
    if str_is_blank(object_mention.as_str()) {
        return Err(ExtractError::EmptyField(owned("object_mention")));
    }
    Ok((subject_mention, object_mention))
}

fn parse_relation_fields(item: &JsonValue) -> (r: Result<(String, String, String, String), ExtractError>)
    ensures
        match r {
            Ok((h, g, l, d)) => relation_fields_spec(*item) == Ok::<(Seq<char>, Seq<char>, Seq<char>, Seq<char>), ExtractErrorView>((h@, g@, l@, d@)),
            Err(e) => relation_fields_spec(*item) == Err::<(Seq<char>, Seq<char>, Seq<char>, Seq<char>), ExtractErrorView>(e@),
        },
{
    proof {
        reveal(relation_fields_spec);
    }
    let relation_hint = match required_str(item, "relation_hint") {
        Ok(s) => s,
        Err(e) => return Err(e),
    };
    let raw_group = match required_str(item, "relation_group") {
        Ok(s) => s,
        Err(e) => return Err(e),
    };
    let relation_group = if is_relation_group(raw_group.as_str()) {
        raw_group
    } else {
        owned("unknown_significant")
    };
    let relation_label = match required_str(item, "relation_label") {
        Ok(s) => s,
        Err(e) => return Err(e),
    };
    let raw_direction = match required_str(item, "directionality") {
        Ok(s) => s,
        Err(e) => return Err(e),
    };
    let directionality = if is_directionality(raw_direction.as_str()) {
        raw_direction
    } else {
        owned("directed")
    };
    Ok((relation_hint, relation_group, relation_label, directionality))
}

fn parse_relationship_update(item: &JsonValue, valid: &Vec<String>) -> (r: Result<Observation, ExtractError>)
    ensures
        obs_result(r) == relationship_update_spec(*item, strs(valid@)),
{
    proof {
        reveal(relationship_update_spec);
    }
    let (subject_mention, object_mention) = match parse_relationship_mentions(item) {
        Ok(m) => m,
        Err(e) => return Err(e),
    };
    let (relation_hint, relation_group, relation_label, directionality) = match parse_relation_fields(item) {
        Ok(f) => f,
        Err(e) => return Err(e),
    };
    let (evidence_span_ids, confidence) = match parse_support(item, valid) {
        Ok(s) => s,
        Err(e) => return Err(e),
    };
    let importance_hint = match get_number(item, "importance_hint") {
        Some(n) => n,
        None => Score::half(),
    };
    let is_long_term_or_significant_hint = match get_bool(item, "is_long_term_or_significant_hint") {
        Some(b) => b,
        None => true,
    };
    Ok(
        Observation::RelationshipUpdate {
            subject_mention,
            object_mention,
            relation_hint,
            relation_group,
            relation_label,
            directionality,
            evidence_span_ids,
            confidence,
            importance_hint,
            is_long_term_or_significant_hint,
        },
    )
}

fn parse_knowledge_category(item: &JsonValue) -> (r: Result<String, ExtractError>)
    ensures
        string_result(r) == knowledge_category_spec(*item),
{
    proof {
        reveal(knowledge_category_spec);
    }
    let category = match required_str(item, "category") {
        Ok(s) => s,
        Err(e) => return Err(e),
    };
    if !is_knowledge_category(category.as_str()) {
        return Err(ExtractError::InvalidKnowledgeCategory(category));
    }
    Ok(category)
}

fn parse_knowledge_text(item: &JsonValue) -> (r: Result<(String, String), ExtractError>)
    ensures
        match r {
            Ok((t, a)) => knowledge_text_spec(*item) == Ok::<(Seq<char>, Seq<char>), ExtractErrorView>((t@, a@)),
            Err(e) => knowledge_text_spec(*item) == Err::<(Seq<char>, Seq<char>), ExtractErrorView>(e@),
        },
{
    proof {
        reveal(knowledge_text_spec);
    }
    let topic = match required_str(item, "topic") {
        Ok(s) => s,
        Err(e) => return Err(e),
    };
    if str_is_blank(topic.as_str()) {
        return Err(ExtractError::EmptyKnowledgeTopic);
    }
    let assertion_text = match required_str(item, "assertion_text") {
        Ok(s) => s,
        Err(e) => return Err(e),
    };
    if str_is_blank(assertion_text.as_str()) {
        return Err(ExtractError::EmptyKnowledgeAssertion);
    }
    Ok((topic, assertion_text))
}

fn parse_knowledge_head(item: &JsonValue) -> (r: Result<(String, String, String), ExtractError>)
    ensures
        match r {
            Ok((c, t, a)) => knowledge_head_spec(*item) == Ok::<(Seq<char>, Seq<char>, Seq<char>), ExtractErrorView>((c@, t@, a@)),
            Err(e) => knowledge_head_spec(*item) == Err::<(Seq<char>, Seq<char>, Seq<char>), ExtractErrorView>(e@),
        },
{
    proof {
        reveal(knowledge_head_spec);
    }
    match reject_mistyped_knowledge_shape(item) {
        Ok(_) => {},
        Err(e) => return Err(e),
    }
    let category = match parse_knowledge_category(item) {
        Ok(c) => c,
        Err(e) => return Err(e),
    };
    let (topic, assertion_text) = match parse_knowledge_text(item) {
        Ok(t) => t,
        Err(e) => return Err(e),
    };
    Ok((category, topic, assertion_text))
}

fn parse_status_hint(item: &JsonValue) -> (r: Result<Option<String>, ExtractError>)
    ensures
        match r {
            Ok(h) => status_hint_spec(*item) == Ok::<Option<Seq<char>>, ExtractErrorView>(opt_str(h)),
            Err(e) => status_hint_spec(*item) == Err::<Option<Seq<char>>, ExtractErrorView>(e@),
        },
{
    proof {
        reveal(status_hint_spec);
    }
    let status_hint = optional_str(item, "status_hint");
    match &status_hint {
        Some(h) => {
            if !is_knowledge_status_hint(h.as_str()) {
                return Err(ExtractError::InvalidStatusHint(h.clone()));
            }
        },
        None => {},
    }
    Ok(status_hint)
}

fn parse_knowledge_assertion(item: &JsonValue, valid: &Vec<String>) -> (r: Result<Observation, ExtractError>)
    ensures
        obs_result(r) == knowledge_assertion_spec(*item, strs(valid@)),
{
    proof {
        reveal(knowledge_assertion_spec);
    }
    let (category, topic, assertion_text) = match parse_knowledge_head(item) {
        Ok(h) => h,
        Err(e) => return Err(e),
    };
    let (evidence_span_ids, confidence) = match parse_support(item, valid) {
        Ok(s) => s,
        Err(e) => return Err(e),
    };
    let importance_score = match validate_unit_f64(item, "importance_score", Score::half()) {
        Ok(c) => c,
        Err(e) => return Err(e),
    };
    let status_hint = match parse_status_hint(item) {
        Ok(h) => h,
        Err(e) => return Err(e),
    };
    let referenced_entity_mentions = match parse_knowledge_entity_mentions(item) {
        Ok(m) => m,
        Err(e) => return Err(e),
    };
    let reason_hint = optional_str(item, "reason_hint");
    Ok(
        Observation::KnowledgeAssertion {
            category,
            topic,
            assertion_text,
            confidence,
            importance_score,
            evidence_span_ids,
            referenced_entity_mentions,
            status_hint,
            reason_hint,
        },
    )
}

fn parse_summary(item: &JsonValue) -> (r: Result<Observation, ExtractError>)
    ensures
        obs_result(r) == summary_spec(*item),
{
    proof {
        reveal(summary_spec);
    }
    let summary = match required_str(item, "summary") {
        Ok(s) => s,
        Err(e) => return Err(e),
    };
    let key_points = optional_str_array(item, "key_points");
    let has_important_changes = match get_bool(item, "has_important_changes") {
        Some(b) => b,
        None => false,
    };
    Ok(Observation::Summary { summary, key_points, has_important_changes })
}

#[verifier::rlimit(100)]
fn parse_reveal_head(item: &JsonValue) -> (r: Result<(String, String, String), ExtractError>)
    ensures
        match r {
            Ok((a, b, t)) => reveal_head_spec(*item) == Ok::<(Seq<char>, Seq<char>, Seq<char>), ExtractErrorView>((a@, b@, t@)),
            Err(e) => reveal_head_spec(*item) == Err::<(Seq<char>, Seq<char>, Seq<char>), ExtractErrorView>(e@),
        },
{
    proof {
        reveal(reveal_head_spec);
    }
    let revealed_mention = match required_str(item, "revealed_mention") {
        Ok(s) => s,
        Err(e) => return Err(e),
    };
    let canonical_mention = match required_str(item, "canonical_mention") {
        Ok(s) => s,
        Err(e) => return Err(e),
    };
    let reveal_type = match required_str(item, "reveal_type") {
        Ok(s) => s,
        Err(e) => return Err(e),
    };
    if !is_reveal_type(reveal_type.as_str()) {
        return Err(ExtractError::InvalidRevealType(reveal_type));
    }
    Ok((revealed_mention, canonical_mention, reveal_type))
}

fn parse_identity_reveal(item: &JsonValue, valid: &Vec<String>) -> (r: Result<Observation, ExtractError>)
    ensures
        obs_result(r) == identity_reveal_spec(*item, strs(valid@)),
{
    proof {
        reveal(identity_reveal_spec);
    }
    let (revealed_mention, canonical_mention, reveal_type) = match parse_reveal_head(item) {
        Ok(h) => h,
        Err(e) => return Err(e),
    };
    let reason_hint = optional_str(item, "reason_hint");
    let (evidence_span_ids, confidence) = match parse_support(item, valid) {
        Ok(s) => s,
        Err(e) => return Err(e),
    };
    Ok(Observation::IdentityReveal { revealed_mention, canonical_mention, reveal_type, reason_hint, evidence_span_ids, confidence })
}

/// The shared fields of an identity pair candidate.
fn parse_pair(item: &JsonValue, valid: &Vec<String>) -> (r: Result<(String, String, Option<String>, Vec<String>, Score), ExtractError>)
    ensures
        match r {
            Ok((a, b, reason, spans, c)) => pair_spec(*item, strs(valid@)) == Ok::<(Seq<char>, Seq<char>, Option<Seq<char>>, Seq<Seq<char>>, Score), ExtractErrorView>((a@, b@, opt_str(reason), strs(spans@), c)),
            Err(e) => pair_spec(*item, strs(valid@)) == Err::<(Seq<char>, Seq<char>, Option<Seq<char>>, Seq<Seq<char>>, Score), ExtractErrorView>(e@),
        },
{
    proof {
        reveal(pair_spec);
    }
    let a = match required_str(item, "entity_a_mention") {
        Ok(s) => s,
        Err(e) => return Err(e),
    };
    let b = match required_str(item, "entity_b_mention") {
        Ok(s) => s,
        Err(e) => return Err(e),
    };
    let reason_hint = optional_str(item, "reason_hint");
    let evidence_span_ids = match validate_evidence_spans(item, valid) {
        Ok(s) => s,
        Err(e) => return Err(e),
    };
    let confidence = match validate_confidence(item) {
        Ok(c) => c,
        Err(e) => return Err(e),
    };
    Ok((a, b, reason_hint, evidence_span_ids, confidence))
}

/// Parses one model output item into an observation.
#[verifier::rlimit(60)]
pub fn parse_observation_item(item: JsonValue, valid_span_ids: &Vec<String>) -> (r: Result<Observation, ExtractError>)
    ensures
        obs_result(r) == item_spec(item, strs(valid_span_ids@)),
{
    let raw_type = match get_str(&item, "type") {
        Some(t) => t.clone(),
        None => String::new(),
    };
    proof {
        assert(raw_type@ == or_default(str_member(item, "type"@), Seq::empty()));
    }
    let t = normalize_type(raw_type.as_str());
    let ts = t.as_str();
    if str_eq(ts, "entity_introduction") {
        parse_entity_introduction(&item, valid_span_ids)
    } else if str_eq(ts, "alias") {
        parse_alias(&item, valid_span_ids)
    } else if str_eq(ts, "property_update") {
        parse_property_update(item, valid_span_ids)
    } else if str_eq(ts, "minor_event") {
        parse_minor_event(&item, valid_span_ids)
    } else if str_eq(ts, "relationship_update") {
        parse_relationship_update(&item, valid_span_ids)
    } else if str_eq(ts, "knowledge_assertion") {
        parse_knowledge_assertion(&item, valid_span_ids)
    } else if str_eq(ts, "summary") {
        parse_summary(&item)
    } else if str_eq(ts, "identity_reveal") {
        parse_identity_reveal(&item, valid_span_ids)
    } else if str_eq(ts, "entity_merge_candidate") {
        match parse_pair(&item, valid_span_ids) {
            Ok((entity_a_mention, entity_b_mention, reason_hint, evidence_span_ids, confidence)) =>
                Ok(Observation::EntityMergeCandidate { entity_a_mention, entity_b_mention, reason_hint, evidence_span_ids, confidence }),
            Err(e) => Err(e),
        }
    } else if str_eq(ts, "entity_split_candidate") {
        match parse_pair(&item, valid_span_ids) {
            Ok((entity_a_mention, entity_b_mention, reason_hint, evidence_span_ids, confidence)) =>
                Ok(Observation::EntitySplitCandidate { entity_a_mention, entity_b_mention, reason_hint, evidence_span_ids, confidence }),
            Err(e) => Err(e),
        }
    } else if str_eq(ts, "not_same_identity") {
        match parse_pair(&item, valid_span_ids) {
            Ok((entity_a_mention, entity_b_mention, reason_hint, evidence_span_ids, confidence)) =>
                Ok(Observation::NotSameIdentity { entity_a_mention, entity_b_mention, reason_hint, evidence_span_ids, confidence }),
            Err(e) => Err(e),
        }
    } else {
        Err(ExtractError::UnknownType(t))
    }
}

proof fn lemma_items_error_persists(items: Seq<JsonValue>, valid: Seq<Seq<char>>, k: int)
    requires
        0 <= k <= items.len(),
        items_spec(items.subrange(0, k), valid) is Err,
    ensures
        items_spec(items, valid) == items_spec(items.subrange(0, k), valid),
    decreases items.len() - k,
{
    if k < items.len() {
        assert(items.subrange(0, k + 1).drop_last() =~= items.subrange(0, k));
        lemma_items_error_persists(items, valid, k + 1);
    } else {
        assert(items.subrange(0, k) =~= items);
    }
}

/// Validates the model output items in order and turns them into observations.
/// The first refused item refuses the whole output.
#[verifier::loop_isolation(false)]
pub fn parse_observation_items(mut items: Vec<JsonValue>, valid_span_ids: &Vec<String>) -> (r: Result<Vec<Observation>, ExtractError>)
    ensures
        match r {
            Ok(obs) => items_spec(items@, strs(valid_span_ids@)) == Ok::<Seq<ObservationView>, ExtractErrorView>(observation_views(obs@)),
            Err(e) => items_spec(items@, strs(valid_span_ids@)) == Err::<Seq<ObservationView>, ExtractErrorView>(e@),
        },
{
    let ghost all = items@;
    let ghost valid = strs(valid_span_ids@);
    assert(all.len() == items.len());
    let mut observations: Vec<Observation> = Vec::new();
    let mut i: usize = 0;
    assert(all.subrange(0, 0) =~= Seq::<JsonValue>::empty());
    assert(observation_views(observations@) =~= Seq::<ObservationView>::empty());
    while items.len() > 0
        invariant
            all.len() <= usize::MAX,
            i + items@.len() == all.len(),
            items@ == all.subrange(i as int, all.len() as int),
            valid == strs(valid_span_ids@),
            items_spec(all.subrange(0, i as int), valid) == Ok::<Seq<ObservationView>, ExtractErrorView>(observation_views(observations@)),
        decreases items.len(),
    {
        let item = items.remove(0);
        assert(item == all[i as int]);
        assert(all.subrange(0, i + 1).drop_last() =~= all.subrange(0, i as int));
        assert(all.subrange(0, i + 1).last() == all[i as int]);
        let ghost before = observations@;
        match parse_observation_item(item, valid_span_ids) {
            Ok(o) => {
                observations.push(o);
                assert(observation_views(observations@) =~= observation_views(before).push(observations@.last()@));
            },
            Err(e) => {
                assert(items_spec(all.subrange(0, i + 1), valid) == Err::<Seq<ObservationView>, ExtractErrorView>(e@));
                proof {
                    lemma_items_error_persists(all, valid, i + 1);
                }
                assert(items_spec(all, valid) == Err::<Seq<ObservationView>, ExtractErrorView>(e@));
                return Err(e);
            },
        }
        i = i + 1;
        assert(items@ =~= all.subrange(i as int, all.len() as int));
    }
    assert(all.subrange(0, all.len() as int) =~= all);
    Ok(observations)
}


/// The text inside a Markdown code fence: when the trimmed text opens with
/// three backticks, the fence line up to the first line break is dropped and
/// everything from the last closing fence on; the result is trimmed.
pub open spec fn fence_stripped(s: Seq<char>) -> Seq<char> {
    let trimmed = trim(s);
    if starts_with(trimmed, "```"@) {
        let after_open = match first_index_of(trimmed, '\n') {
            Some(i) => trimmed.subrange(i + 1, trimmed.len() as int),
            None => trimmed,
        };
        let body = match last_occurrence(after_open, "```"@) {
            Some(e) => after_open.subrange(0, e),
            None => after_open,
        };
        trim(body)
    } else {
        trim(trimmed)
    }
}

/// The text after a fence's opening line: everything after the first line
/// break, or all of it when there is none.
fn after_fence_line(tv: &Vec<char>) -> (r: String)
    ensures
        r@ == match first_index_of(tv@, '\n') {
            Some(i) => tv@.subrange(i + 1, tv@.len() as int),
            None => tv@,
        },
{
    match crate::text::find_char(tv, '\n') {
        Some(i) => {
            let n = tv.len();
            string_from(tv, i + 1, n)
        },
        None => {
            let r = string_from(tv, 0, tv.len());
            assert(tv@.subrange(0, tv@.len() as int) =~= tv@);
            r
        },
    }
}

/// The text before the last closing fence, or all of it when there is none.
fn before_last_fence(av: &Vec<char>) -> (r: String)
    ensures
        r@ == match last_occurrence(av@, "```"@) {
            Some(e) => av@.subrange(0, e),
            None => av@,
        },
{
    let fence = chars_of("```");
    match crate::text::rfind_seq(av, &fence) {
        Some(e) => string_from(av, 0, e),
        None => {
            let r = string_from(av, 0, av.len());
            assert(av@.subrange(0, av@.len() as int) =~= av@);
            r
        },
    }
}

/// Removes a surrounding Markdown code fence from model output.
pub fn strip_markdown_fences(s: &str) -> (r: String)
    ensures
        r@ == fence_stripped(s@),
{
    let trimmed = crate::text::trim_str(s);
    let tv = chars_of(trimmed.as_str());
    let fence = chars_of("```");
    if !crate::text::occurs_at_exec(&tv, &fence, 0) {
        return crate::text::trim_str(trimmed.as_str());
    }
    let after_open = after_fence_line(&tv);
    let av = chars_of(after_open.as_str());
    let body = before_last_fence(&av);
    crate::text::trim_str(body.as_str())
}

/// The items of a parsed model output document: the array itself; for an
/// object, its `observations`, `data` or `results` array (the first present),
/// else the object as the only item; nothing for any other value.
pub open spec fn document_items(doc: JsonValue) -> Option<Seq<JsonValue>> {
    match doc {
        JsonValue::Array(items) => Some(items@),
        JsonValue::Object(_) => match array_member(doc, "observations"@) {
            Some(items) => Some(items),
            None => match array_member(doc, "data"@) {
                Some(items) => Some(items),
                None => match array_member(doc, "results"@) {
                    Some(items) => Some(items),
                    None => Some(seq![doc]),
                },
            },
        },
        _ => None,
    }
}

/// Takes the array named `key` out of an object.
fn take_array(doc: JsonValue, key: &str) -> (r: Result<Vec<JsonValue>, JsonValue>)
    ensures
        match r {
            Ok(items) => array_member(doc, key@) == Some(items@),
            Err(d) => d == doc && array_member(doc, key@) is None,
        },
{
    if get_array(&doc, key).is_none() {
        return Err(doc);
    }
    proof {
        reveal(array_member);
    }
    match take_member(doc, key) {
        Some(JsonValue::Array(items)) => Ok(items),
        _ => {
            assert(false);
            Err(JsonValue::Null)
        },
    }
}

/// The items of a parsed model output document.
pub fn observation_items(doc: JsonValue) -> (r: Option<Vec<JsonValue>>)
    ensures
        match r {
            Some(items) => document_items(doc) == Some(items@),
            None => document_items(doc) is None,
        },
{
    match doc {
        JsonValue::Array(items) => Some(items),
        JsonValue::Object(_) => {
            let doc = match take_array(doc, "observations") {
                Ok(items) => return Some(items),
                Err(d) => d,
            };
            let doc = match take_array(doc, "data") {
                Ok(items) => return Some(items),
                Err(d) => d,
            };
            let doc = match take_array(doc, "results") {
                Ok(items) => return Some(items),
                Err(d) => d,
            };
            let mut single: Vec<JsonValue> = Vec::new();
            single.push(doc);
            assert(single@ =~= seq![doc]);
            Some(single)
        },
        _ => None,
    }
}

/// The repair tried on output that does not parse: everything up to and
/// including the last `}` of the end-trimmed text, followed by `]`.
pub open spec fn truncated_array_repair_spec(cleaned: Seq<char>) -> Option<Seq<char>> {
    let t = crate::text::trim_end(cleaned);
    match last_occurrence(t, seq!['}']) {
        Some(pos) => Some(t.subrange(0, pos + 1).push(']')),
        None => None,
    }
}

/// Closes an output array that was cut off after its last complete object.
pub fn truncated_array_repair(cleaned: &str) -> (r: Option<String>)
    ensures
        opt_str(r) == truncated_array_repair_spec(cleaned@),
{
    let v = chars_of(cleaned);
    let mut end = v.len();
    assert(v@.subrange(0, end as int) =~= v@);
    while end > 0 && crate::text::is_whitespace(v[end - 1])
        invariant
            end <= v@.len(),
            crate::text::trim_end(v@) == crate::text::trim_end(v@.subrange(0, end as int)),
        decreases end,
    {
        assert(v@.subrange(0, end as int).drop_last() =~= v@.subrange(0, end - 1));
        end = end - 1;
    }
    let t = string_from(&v, 0, end);
    assert(crate::text::trim_end(v@.subrange(0, end as int)) == v@.subrange(0, end as int));
    let tv = chars_of(t.as_str());
    let mut brace: Vec<char> = Vec::new();
    brace.push('}');
    assert(brace@ =~= seq!['}']);
    match crate::text::rfind_seq(&tv, &brace) {
        Some(pos) => {
            let mut repaired = string_from(&tv, 0, pos + 1);
            crate::text::push_char(&mut repaired, ']');
            Some(repaired)
        },
        None => None,
    }
}

/// An extractor: the observations it finds in a segment, given the
/// segment's context and its source span ids.
pub trait Extractor {
    fn extract(&self, context: &str, span_ids: &[String]) -> Result<Vec<Observation>, String>;
}

/// Whether two optional JSON values are the same document.
pub open spec fn opt_json_same(a: Option<JsonValue>, b: Option<JsonValue>) -> bool {
    match (a, b) {
        (Some(x), Some(y)) => json_same(x, y),
        (None, None) => true,
        _ => false,
    }
}

/// An observation with its JSON value left out.
pub open spec fn without_json(o: ObservationView) -> ObservationView {
    match o {
        ObservationView::PropertyUpdate {
            subject_mention,
            dimension_key,
            value_text,
            evidence_span_ids,
            confidence,
            ..
        } => ObservationView::PropertyUpdate {
            subject_mention,
            dimension_key,
            value_text,
            value_json: None,
            evidence_span_ids,
            confidence,
        },
        _ => o,
    }
}

/// The JSON value an observation carries.
pub open spec fn json_of(o: ObservationView) -> Option<JsonValue> {
    match o {
        ObservationView::PropertyUpdate { value_json, .. } => value_json,
        _ => None,
    }
}

/// Whether `b` is the same observation as `a`, its JSON value the same document.
pub open spec fn observation_same(a: ObservationView, b: ObservationView) -> bool {
    without_json(a) == without_json(b) && opt_json_same(json_of(a), json_of(b))
}

fn copy_strings(v: &Vec<String>) -> (r: Vec<String>)
    ensures
        strs(r@) == strs(v@),
{
    let mut out: Vec<String> = Vec::new();
    let mut i: usize = 0;
    while i < v.len()
        invariant
            i <= v@.len(),
            strs(out@) == strs(v@.subrange(0, i as int)),
        decreases v.len() - i,
    {
        let ghost before = out@;
        out.push(v[i].clone());
        assert(strs(out@) =~= strs(before).push(v@[i as int]@));
        assert(strs(v@.subrange(0, i + 1)) =~= strs(v@.subrange(0, i as int)).push(v@[i as int]@));
        i = i + 1;
    }
    assert(v@.subrange(0, v@.len() as int) =~= v@);
    out
}

fn copy_mentions(v: &Vec<KnowledgeEntityMention>) -> (r: Vec<KnowledgeEntityMention>)
    ensures
        mention_views(r@) == mention_views(v@),
{
    let mut out: Vec<KnowledgeEntityMention> = Vec::new();
    let mut i: usize = 0;
    while i < v.len()
        invariant
            i <= v@.len(),
            mention_views(out@) == mention_views(v@.subrange(0, i as int)),
        decreases v.len() - i,
    {
        let m = &v[i];
        let c = KnowledgeEntityMention {
            mention: m.mention.clone(),
            entity_type_hint: crate::text::clone_opt(&m.entity_type_hint),
            role: m.role.clone(),
            confidence: m.confidence,
            resolved_entity_id: crate::text::clone_opt(&m.resolved_entity_id),
        };
        let ghost before = out@;
        out.push(c);
        assert(mention_views(out@) =~= mention_views(before).push(v@[i as int]@));
        assert(mention_views(v@.subrange(0, i + 1)) =~= mention_views(v@.subrange(0, i as int)).push(v@[i as int]@));
        i = i + 1;
    }
    assert(v@.subrange(0, v@.len() as int) =~= v@);
    out
}

/// A copy of an observation.
pub fn copy_observation(o: &Observation) -> (r: Observation)
    ensures
        observation_same(o@, r@),
{
    match o {
        Observation::EntityIntroduction { subject_mention, entity_type, aliases, short_summary, evidence_span_ids, confidence } => {
            let a = copy_strings(aliases);
            let e = copy_strings(evidence_span_ids);
            let r = Observation::EntityIntroduction {
                subject_mention: subject_mention.clone(),
                entity_type: entity_type.clone(),
                aliases: a,
                short_summary: short_summary.clone(),
                evidence_span_ids: e,
                confidence: *confidence,
            };
            r
        },
        Observation::Alias { subject_mention, alias, alias_type, evidence_span_ids, confidence } => Observation::Alias {
            subject_mention: subject_mention.clone(),
            alias: alias.clone(),
            alias_type: alias_type.clone(),
            evidence_span_ids: copy_strings(evidence_span_ids),
            confidence: *confidence,
        },
        Observation::PropertyUpdate { subject_mention, dimension_key, value_text, value_json, evidence_span_ids, confidence } =>
            Observation::PropertyUpdate {
            subject_mention: subject_mention.clone(),
            dimension_key: dimension_key.clone(),
            value_text: crate::text::clone_opt(value_text),
            value_json: match value_json {
                Some(j) => Some(copy_json(j)),
                None => None,
            },
            evidence_span_ids: copy_strings(evidence_span_ids),
            confidence: *confidence,
        },
        Observation::MinorEvent { description, involved_mentions, evidence_span_ids, confidence } => Observation::MinorEvent {
            description: description.clone(),
            involved_mentions: copy_strings(involved_mentions),
            evidence_span_ids: copy_strings(evidence_span_ids),
            confidence: *confidence,
        },
        Observation::RelationshipUpdate {
            subject_mention,
            object_mention,
            relation_hint,
            relation_group,
            relation_label,
            directionality,
            evidence_span_ids,
            confidence,
            importance_hint,
            is_long_term_or_significant_hint,
        } => Observation::RelationshipUpdate {
            subject_mention: subject_mention.clone(),
            object_mention: object_mention.clone(),
            relation_hint: relation_hint.clone(),
            relation_group: relation_group.clone(),
            relation_label: relation_label.clone(),
            directionality: directionality.clone(),
            evidence_span_ids: copy_strings(evidence_span_ids),
            confidence: *confidence,
            importance_hint: *importance_hint,
            is_long_term_or_significant_hint: *is_long_term_or_significant_hint,
        },
        Observation::KnowledgeAssertion {
            category,
            topic,
            assertion_text,
            confidence,
            importance_score,
            evidence_span_ids,
            referenced_entity_mentions,
            status_hint,
            reason_hint,
        } => Observation::KnowledgeAssertion {
            category: category.clone(),
            topic: topic.clone(),
            assertion_text: assertion_text.clone(),
            confidence: *confidence,
            importance_score: *importance_score,
            evidence_span_ids: copy_strings(evidence_span_ids),
            referenced_entity_mentions: copy_mentions(referenced_entity_mentions),
            status_hint: crate::text::clone_opt(status_hint),
            reason_hint: crate::text::clone_opt(reason_hint),
        },
        Observation::IdentityReveal { revealed_mention, canonical_mention, reveal_type, reason_hint, evidence_span_ids, confidence } =>
            Observation::IdentityReveal {
            revealed_mention: revealed_mention.clone(),
            canonical_mention: canonical_mention.clone(),
            reveal_type: reveal_type.clone(),
            reason_hint: crate::text::clone_opt(reason_hint),
            evidence_span_ids: copy_strings(evidence_span_ids),
            confidence: *confidence,
        },
        Observation::EntityMergeCandidate { entity_a_mention, entity_b_mention, reason_hint, evidence_span_ids, confidence } =>
            Observation::EntityMergeCandidate {
            entity_a_mention: entity_a_mention.clone(),
            entity_b_mention: entity_b_mention.clone(),
            reason_hint: crate::text::clone_opt(reason_hint),
            evidence_span_ids: copy_strings(evidence_span_ids),
            confidence: *confidence,
        },
        Observation::EntitySplitCandidate { entity_a_mention, entity_b_mention, reason_hint, evidence_span_ids, confidence } =>
            Observation::EntitySplitCandidate {
            entity_a_mention: entity_a_mention.clone(),
            entity_b_mention: entity_b_mention.clone(),
            reason_hint: crate::text::clone_opt(reason_hint),
            evidence_span_ids: copy_strings(evidence_span_ids),
            confidence: *confidence,
        },
        Observation::NotSameIdentity { entity_a_mention, entity_b_mention, reason_hint, evidence_span_ids, confidence } =>
            Observation::NotSameIdentity {
            entity_a_mention: entity_a_mention.clone(),
            entity_b_mention: entity_b_mention.clone(),
            reason_hint: crate::text::clone_opt(reason_hint),
            evidence_span_ids: copy_strings(evidence_span_ids),
            confidence: *confidence,
        },
        Observation::Summary { summary, key_points, has_important_changes } => Observation::Summary {
            summary: summary.clone(),
            key_points: copy_strings(key_points),
            has_important_changes: *has_important_changes,
        },
    }
}

/// Extractor that returns pre-configured observations, used to drive the
/// pipeline without model calls.
pub struct MockExtractor {
    pub observations: Vec<Observation>,
}

impl MockExtractor {
    /// An extractor returning `observations`.
    pub fn new(observations: Vec<Observation>) -> (r: MockExtractor)
        ensures
            r.observations == observations,
    {
        MockExtractor { observations }
    }
}

impl Extractor for MockExtractor {
    /// The configured observations, each citing the segment's span ids in
    /// place of its own (a summary cites none).
    fn extract(&self, context: &str, span_ids: &[String]) -> (r: Result<Vec<Observation>, String>)
        ensures
            r matches Ok(obs) && obs@.len() == self.observations@.len() && forall|i: int|
                0 <= i < obs@.len() ==> observation_same(
                    with_spans(self.observations@[i]@, strs(span_ids@)),
                    (#[trigger] obs@[i])@,
                ),
    {
        let mut out: Vec<Observation> = Vec::new();
        let mut i: usize = 0;
        while i < self.observations.len()
            invariant
                i <= self.observations@.len(),
                out@.len() == i,
                forall|k: int|
                    0 <= k < i ==> observation_same(
                        with_spans(self.observations@[k]@, strs(span_ids@)),
                        (#[trigger] out@[k])@,
                    ),
            decreases self.observations.len() - i,
        {
            let mut spans: Vec<String> = Vec::new();
            let mut j: usize = 0;
            while j < span_ids.len()
                invariant
                    j <= span_ids@.len(),
                    strs(spans@) == strs(span_ids@.subrange(0, j as int)),
                decreases span_ids.len() - j,
            {
                let ghost before = spans@;
                spans.push(span_ids[j].clone());
                assert(strs(spans@) =~= strs(before).push(span_ids@[j as int]@));
                assert(strs(span_ids@.subrange(0, j + 1)) =~= strs(span_ids@.subrange(0, j as int)).push(span_ids@[j as int]@));
                j = j + 1;
            }
            assert(span_ids@.subrange(0, span_ids@.len() as int) =~= span_ids@);
            let c = copy_observation(&self.observations[i]);
            let o = c.with_evidence_span_ids(spans);
            out.push(o);
            i = i + 1;
        }
        Ok(out)
    }
}

/// Extractor placeholder that returns no observations.
pub struct AiExtractor;

impl AiExtractor {
    /// The placeholder extractor.
    pub fn new() -> (r: AiExtractor) {
        AiExtractor
    }
}

impl Extractor for AiExtractor {
    /// What the placeholder extracts: nothing.
    fn extract(&self, context: &str, span_ids: &[String]) -> (r: Result<Vec<Observation>, String>)
        ensures
            r matches Ok(obs) && obs@.len() == 0,
    {
        Ok(Vec::new())
    }
}

/// Extractor that calls the configured model provider; `S` is the model
/// service it is built with.
pub struct RealAiExtractor<S> {
    pub ai_model_service: S,
}

impl<S> RealAiExtractor<S> {
    /// An extractor using `ai_model_service`.
    pub fn new(ai_model_service: S) -> (r: RealAiExtractor<S>)
        ensures
            r.ai_model_service == ai_model_service,
    {
        RealAiExtractor { ai_model_service }
    }
}


/// The items of a model output, with the messages of its failures: `cleaned`
/// is the output's fence-stripped text parsed as a JSON value (the parser's
/// message when it fails), `repaired` its truncated-array repair parsed as a
/// JSON array, when there is a repair.
pub open spec fn output_items_spec(
    cleaned: Result<JsonValue, Seq<char>>,
    repaired: Option<Result<Seq<JsonValue>, Seq<char>>>,
) -> Result<Seq<JsonValue>, Seq<char>> {
    let direct = match cleaned {
        Ok(doc) => document_items(doc),
        Err(_) => None,
    };
    match direct {
        Some(items) => Ok(items),
        None => match repaired {
            Some(Ok(items)) => Ok(items),
            Some(Err(e)) => Err(e),
            None => Err(cleaned->Err_0),
        },
    }
}

/// Why a model output was not accepted: its text did not parse (with the
/// parser's message), or one of its items was refused.
pub enum ObservationsError {
    Unparsed(String),
    Refused(ExtractError),
}

/// The abstract value of an `ObservationsError`.
pub enum ObservationsErrorView {
    Unparsed(Seq<char>),
    Refused(ExtractErrorView),
}

impl View for ObservationsError {
    type V = ObservationsErrorView;

    open spec fn view(&self) -> ObservationsErrorView {
        match *self {
            ObservationsError::Unparsed(m) => ObservationsErrorView::Unparsed(m@),
            ObservationsError::Refused(e) => ObservationsErrorView::Refused(e@),
        }
    }
}

/// The value an error reports as out of range, if it is such an error.
pub open spec fn out_of_range_of(e: ObservationsErrorView) -> Option<Score> {
    match e {
        ObservationsErrorView::Refused(ExtractErrorView::OutOfRange(_, v)) => Some(v),
        _ => None,
    }
}

/// The message of an error: the parser's, or the refused item's, whose
/// value out of range is reported with `value_text`.
pub open spec fn observations_error_message(e: ObservationsErrorView, value_text: Seq<char>) -> Seq<char> {
    match e {
        ObservationsErrorView::Unparsed(m) => m,
        ObservationsErrorView::Refused(x) => error_message(x, value_text),
    }
}

impl ObservationsError {
    /// The value the error reports as out of range, if it is such an error.
    pub fn out_of_range_value(&self) -> (r: Option<Score>)
        ensures
            r == out_of_range_of(self@),
    {
        match self {
            ObservationsError::Refused(ExtractError::OutOfRange(_, v)) => Some(*v),
            _ => None,
        }
    }

    /// The message of the error; `value_text` is the decimal text of the value
    /// that a value out of range is reported with.
    pub fn message(&self, value_text: &str) -> (r: String)
        ensures
            r@ == observations_error_message(self@, value_text@),
    {
        match self {
            ObservationsError::Unparsed(m) => m.clone(),
            ObservationsError::Refused(e) => e.message(value_text),
        }
    }
}

/// The observations of a model output: its items parsed one by one, failing
/// on the first item refused, with that refusal.
pub open spec fn output_observations_spec(
    cleaned: Result<JsonValue, Seq<char>>,
    repaired: Option<Result<Seq<JsonValue>, Seq<char>>>,
    valid: Seq<Seq<char>>,
) -> Result<Seq<ObservationView>, ObservationsErrorView> {
    match output_items_spec(cleaned, repaired) {
        Err(e) => Err(ObservationsErrorView::Unparsed(e)),
        Ok(items) => match items_spec(items, valid) {
            Ok(obs) => Ok(obs),
            Err(e) => Err(ObservationsErrorView::Refused(e)),
        },
    }
}

/// The view of a parse outcome of an array.
pub open spec fn array_parse_view(r: Option<Result<Vec<JsonValue>, String>>) -> Option<Result<Seq<JsonValue>, Seq<char>>> {
    match r {
        Some(Ok(items)) => Some(Ok(items@)),
        Some(Err(e)) => Some(Err(e@)),
        None => None,
    }
}

/// The view of a parse outcome of a value.
pub open spec fn value_parse_view(r: Result<JsonValue, String>) -> Result<JsonValue, Seq<char>> {
    match r {
        Ok(v) => Ok(v),
        Err(e) => Err(e@),
    }
}

/// The observations of a model output, given what parsing its text gave.
/// An output whose text parses as a JSON value that holds no items, and that
/// has no truncated-array repair, is not accepted.
pub fn observations_from_documents(
    cleaned: Result<JsonValue, String>,
    repaired: Option<Result<Vec<JsonValue>, String>>,
    valid_span_ids: &Vec<String>,
) -> (r: Result<Vec<Observation>, ObservationsError>)
    requires
        !(cleaned is Ok && document_items(cleaned->Ok_0) is None && repaired is None),
    ensures
        match r {
            Ok(obs) => output_observations_spec(value_parse_view(cleaned), array_parse_view(repaired), strs(valid_span_ids@))
                == Ok::<Seq<ObservationView>, ObservationsErrorView>(observation_views(obs@)),
            Err(e) => output_observations_spec(value_parse_view(cleaned), array_parse_view(repaired), strs(valid_span_ids@))
                == Err::<Seq<ObservationView>, ObservationsErrorView>(e@),
        },
{
    let ghost cv = value_parse_view(cleaned);
    let ghost rv = array_parse_view(repaired);
    let direct = match cleaned {
        Ok(doc) => match observation_items(doc) {
            Some(items) => Ok(items),
            None => Err(None),
        },
        Err(e) => Err(Some(e)),
    };
    let items = match direct {
        Ok(items) => items,
        Err(cleaned_error) => match repaired {
            Some(Ok(items)) => items,
            Some(Err(e)) => return Err(ObservationsError::Unparsed(e)),
            None => match cleaned_error {
                Some(e) => return Err(ObservationsError::Unparsed(e)),
                None => return Err(ObservationsError::Unparsed(String::new())),
            },
        },
    };
    match parse_observation_items(items, valid_span_ids) {
        Ok(obs) => Ok(obs),
        Err(e) => Err(ObservationsError::Refused(e)),
    }
}

/// An observation cites only evidence spans among `valid`, and at least one
/// unless it is a summary.
pub open spec fn cites_valid_evidence(o: ObservationView, valid: Seq<Seq<char>>) -> bool {
    &&& forall|k: int| 0 <= k < spans_of(o).len() ==> valid.contains(#[trigger] spans_of(o)[k])
    &&& (!(o is Summary) ==> spans_of(o).len() > 0)
}

proof fn lemma_evidence_valid(item: JsonValue, valid: Seq<Seq<char>>)
    ensures
        evidence_spec(item, valid) matches Ok(spans) ==> spans.len() > 0 && forall|k: int|
            0 <= k < spans.len() ==> valid.contains(#[trigger] spans[k]),
{
    let spans = string_array_member(item, "evidence_span_ids"@);
    if first_unlisted(spans, valid) is None && spans.len() > 0 {
        assert forall|k: int| 0 <= k < spans.len() implies valid.contains(#[trigger] spans[k]) by {
            if !valid.contains(spans[k]) {
                assert(exists|i: int| 0 <= i < spans.len() && !valid.contains(spans[i]));
            }
        }
    }
}

proof fn lemma_support_valid(item: JsonValue, valid: Seq<Seq<char>>)
    ensures
        support_spec(item, valid) matches Ok((spans, _)) ==> spans.len() > 0 && forall|k: int|
            0 <= k < spans.len() ==> valid.contains(#[trigger] spans[k]),
{
    reveal(support_spec);
    lemma_evidence_valid(item, valid);
}

proof fn lemma_item_cites_valid_evidence(item: JsonValue, valid: Seq<Seq<char>>)
    ensures
        item_spec(item, valid) matches Ok(o) ==> cites_valid_evidence(o, valid),
{
    lemma_evidence_valid(item, valid);
    lemma_support_valid(item, valid);
    reveal(entity_introduction_spec);
    reveal(alias_spec);
    reveal(property_update_spec);
    reveal(minor_event_spec);
    reveal(relationship_update_spec);
    reveal(knowledge_assertion_spec);
    reveal(summary_spec);
    reveal(identity_reveal_spec);
    reveal(pair_spec);
}

proof fn lemma_items_cite_valid_evidence(items: Seq<JsonValue>, valid: Seq<Seq<char>>)
    ensures
        items_spec(items, valid) matches Ok(obs) ==> forall|i: int|
            0 <= i < obs.len() ==> cites_valid_evidence(#[trigger] obs[i], valid),
    decreases items.len(),
{
    if items.len() > 0 {
        lemma_items_cite_valid_evidence(items.drop_last(), valid);
        lemma_item_cites_valid_evidence(items.last(), valid);
    }
}

/// Extraction never invents evidence: every observation it accepts from a
/// model output cites only the segment's own span ids, and every observation
/// but a summary cites at least one.
pub proof fn lemma_observations_cite_valid_evidence(
    cleaned: Result<JsonValue, Seq<char>>,
    repaired: Option<Result<Seq<JsonValue>, Seq<char>>>,
    valid: Seq<Seq<char>>,
)
    ensures
        output_observations_spec(cleaned, repaired, valid) matches Ok(obs) ==> forall|i: int|
            0 <= i < obs.len() ==> cites_valid_evidence(#[trigger] obs[i], valid),
{
    if let Ok(items) = output_items_spec(cleaned, repaired) {
        lemma_items_cite_valid_evidence(items, valid);
    }
}

/// The normalized observation type an item names.
pub open spec fn item_type(item: JsonValue) -> Seq<char> {
    normalized_type(or_default(str_member(item, "type"@), Seq::empty()))
}

/// Whether `t` is one of the observation types that cite evidence and carry
/// a confidence: every known type but the summary.
pub open spec fn cites_evidence_type(t: Seq<char>) -> bool {
    ||| t == "entity_introduction"@
    ||| t == "alias"@
    ||| t == "property_update"@
    ||| t == "minor_event"@
    ||| t == "relationship_update"@
    ||| t == "knowledge_assertion"@
    ||| t == "identity_reveal"@
    ||| t == "entity_merge_candidate"@
    ||| t == "entity_split_candidate"@
    ||| t == "not_same_identity"@
}

/// The confidence of an observation; a summary has none.
pub open spec fn confidence_of(o: ObservationView) -> Option<Score> {
    match o {
        ObservationView::EntityIntroduction { confidence, .. } => Some(confidence),
        ObservationView::Alias { confidence, .. } => Some(confidence),
        ObservationView::PropertyUpdate { confidence, .. } => Some(confidence),
        ObservationView::MinorEvent { confidence, .. } => Some(confidence),
        ObservationView::RelationshipUpdate { confidence, .. } => Some(confidence),
        ObservationView::KnowledgeAssertion { confidence, .. } => Some(confidence),
        ObservationView::IdentityReveal { confidence, .. } => Some(confidence),
        ObservationView::EntityMergeCandidate { confidence, .. } => Some(confidence),
        ObservationView::EntitySplitCandidate { confidence, .. } => Some(confidence),
        ObservationView::NotSameIdentity { confidence, .. } => Some(confidence),
        ObservationView::Summary { .. } => None,
    }
}

/// The confidence an item gives, `0.5` when it has none.
pub open spec fn item_confidence(item: JsonValue) -> Score {
    match number_member(item, "confidence"@) {
        Some(n) => n,
        None => half(),
    }
}

/// The importance score an item gives, `0.5` when it has none.
pub open spec fn item_importance(item: JsonValue) -> Score {
    match number_member(item, "importance_score"@) {
        Some(n) => n,
        None => half(),
    }
}

#[verifier::rlimit(60)]
proof fn lemma_item_refusals(item: JsonValue, valid: Seq<Seq<char>>)
    ensures
        cites_evidence_type(item_type(item)) && (evidence_spec(item, valid) is Err || confidence_spec(item) is Err)
            ==> item_spec(item, valid) is Err,
        item_type(item) == "knowledge_assertion"@ && unit_spec(item, "importance_score"@, half()) is Err
            ==> item_spec(item, valid) is Err,
        item_type(item) == "knowledge_assertion"@ && knowledge_shape_spec(item) is Err ==> item_spec(item, valid) is Err,
        item_spec(item, valid) matches Ok(o) ==> (o is Summary || confidence_of(o) == Some(item_confidence(item)))
            && (o is KnowledgeAssertion ==> o->KnowledgeAssertion_importance_score == item_importance(item)),
{
    reveal_strlit("entity_introduction");
    reveal_strlit("alias");
    reveal_strlit("property_update");
    reveal_strlit("minor_event");
    reveal_strlit("relationship_update");
    reveal_strlit("knowledge_assertion");
    reveal_strlit("summary");
    reveal_strlit("identity_reveal");
    reveal_strlit("entity_merge_candidate");
    reveal_strlit("entity_split_candidate");
    reveal_strlit("not_same_identity");
    let t = item_type(item);
    assert("entity_introduction"@[0] == 'e' && "relationship_update"@[0] == 'r' && "knowledge_assertion"@[0] == 'k');
    assert("property_update"@[0] == 'p' && "identity_reveal"@[0] == 'i');
    assert("entity_merge_candidate"@[7] == 'm' && "entity_split_candidate"@[7] == 's');
    if t.len() == 19 {
        assert(t[0] == t[0]);
    }
    if t.len() == 22 {
        assert(t[7] == t[7]);
    }
    reveal(entity_introduction_spec);
    reveal(alias_spec);
    reveal(property_update_spec);
    reveal(minor_event_spec);
    reveal(relationship_update_spec);
    reveal(knowledge_assertion_spec);
    reveal(knowledge_head_spec);
    reveal(summary_spec);
    reveal(identity_reveal_spec);
    reveal(pair_spec);
    reveal(support_spec);
}

proof fn lemma_items_in_order(items: Seq<JsonValue>, valid: Seq<Seq<char>>)
    ensures
        items_spec(items, valid) is Ok <==> forall|i: int| 0 <= i < items.len() ==> (#[trigger] item_spec(items[i], valid)) is Ok,
        items_spec(items, valid) matches Ok(obs) ==> obs.len() == items.len() && forall|i: int|
            0 <= i < items.len() ==> item_spec(items[i], valid) == Ok::<ObservationView, ExtractErrorView>(#[trigger] obs[i]),
    decreases items.len(),
{
    if items.len() > 0 {
        let init = items.drop_last();
        lemma_items_in_order(init, valid);
        assert forall|i: int| 0 <= i < init.len() implies #[trigger] init[i] == items[i] by {}
        if items_spec(items, valid) is Ok {
            assert forall|i: int| 0 <= i < items.len() implies (#[trigger] item_spec(items[i], valid)) is Ok by {
                if i < init.len() {
                    assert(init[i] == items[i]);
                } else {
                    assert(items[i] == items.last());
                }
            }
        }
        if forall|i: int| 0 <= i < items.len() ==> (#[trigger] item_spec(items[i], valid)) is Ok {
            assert forall|i: int| 0 <= i < init.len() implies (#[trigger] item_spec(init[i], valid)) is Ok by {
                assert(init[i] == items[i]);
                assert(item_spec(items[i], valid) is Ok);
            }
            assert(item_spec(items[items.len() - 1], valid) is Ok);
        }
    }
}

/// Extraction is all or nothing and keeps the model's items in order: the
/// output is accepted exactly when each of its items is, and then the
/// observations are the items' parses, one for one, in the items' order.
pub proof fn lemma_output_all_or_nothing_in_order(
    cleaned: Result<JsonValue, Seq<char>>,
    repaired: Option<Result<Seq<JsonValue>, Seq<char>>>,
    valid: Seq<Seq<char>>,
)
    ensures
        output_items_spec(cleaned, repaired) matches Ok(items) ==> {
            &&& (output_observations_spec(cleaned, repaired, valid) is Ok <==> forall|i: int|
                0 <= i < items.len() ==> (#[trigger] item_spec(items[i], valid)) is Ok)
            &&& (output_observations_spec(cleaned, repaired, valid) matches Ok(obs) ==> obs.len() == items.len()
                && forall|i: int| 0 <= i < items.len() ==> item_spec(items[i], valid) == Ok::<ObservationView, ExtractErrorView>(#[trigger] obs[i]))
        },
        output_items_spec(cleaned, repaired) is Err ==> output_observations_spec(cleaned, repaired, valid) is Err,
{
    if let Ok(items) = output_items_spec(cleaned, repaired) {
        lemma_items_in_order(items, valid);
    }
}

/// Evidence is all or nothing: an item of a type that cites evidence whose
/// `evidence_span_ids` holds no string, or holds one that is not among the
/// segment's span ids, refuses the whole output.
pub proof fn lemma_bad_evidence_refuses_output(
    cleaned: Result<JsonValue, Seq<char>>,
    repaired: Option<Result<Seq<JsonValue>, Seq<char>>>,
    valid: Seq<Seq<char>>,
    i: int,
)
    requires
        output_items_spec(cleaned, repaired) is Ok,
        0 <= i < output_items_spec(cleaned, repaired)->Ok_0.len(),
        cites_evidence_type(item_type(output_items_spec(cleaned, repaired)->Ok_0[i])),
        ({
            let spans = string_array_member(output_items_spec(cleaned, repaired)->Ok_0[i], "evidence_span_ids"@);
            spans.len() == 0 || exists|k: int| 0 <= k < spans.len() && !valid.contains(spans[k])
        }),
    ensures
        output_observations_spec(cleaned, repaired, valid) is Err,
{
    let items = output_items_spec(cleaned, repaired)->Ok_0;
    lemma_items_in_order(items, valid);
    lemma_item_refusals(items[i], valid);
    assert(item_spec(items[i], valid) is Err);
}

/// Scores are checked over the whole output: an item of a type that carries
/// a confidence whose confidence is below 0 or above 1, or a knowledge item
/// whose importance score lies outside `[0, 1]`, refuses the whole output.
pub proof fn lemma_out_of_range_refuses_output(
    cleaned: Result<JsonValue, Seq<char>>,
    repaired: Option<Result<Seq<JsonValue>, Seq<char>>>,
    valid: Seq<Seq<char>>,
    i: int,
)
    requires
        output_items_spec(cleaned, repaired) is Ok,
        0 <= i < output_items_spec(cleaned, repaired)->Ok_0.len(),
        ({
            let item = output_items_spec(cleaned, repaired)->Ok_0[i];
            ||| cites_evidence_type(item_type(item)) && outside_unit(item_confidence(item))
            ||| item_type(item) == "knowledge_assertion"@ && !in_unit_range(item_importance(item))
        }),
    ensures
        output_observations_spec(cleaned, repaired, valid) is Err,
{
    let items = output_items_spec(cleaned, repaired)->Ok_0;
    lemma_items_in_order(items, valid);
    lemma_item_refusals(items[i], valid);
    assert(item_spec(items[i], valid) is Err);
}

/// A knowledge item that carries a field of another observation shape
/// (a subject, dimension, object, relation group, reveal or map-edge field)
/// refuses the whole output, whatever its other fields are.
pub proof fn lemma_mistyped_knowledge_refuses_output(
    cleaned: Result<JsonValue, Seq<char>>,
    repaired: Option<Result<Seq<JsonValue>, Seq<char>>>,
    valid: Seq<Seq<char>>,
    i: int,
    field: Seq<char>,
)
    requires
        output_items_spec(cleaned, repaired) is Ok,
        0 <= i < output_items_spec(cleaned, repaired)->Ok_0.len(),
        item_type(output_items_spec(cleaned, repaired)->Ok_0[i]) == "knowledge_assertion"@,
        non_knowledge_fields().contains(field),
        has_member(output_items_spec(cleaned, repaired)->Ok_0[i], field),
    ensures
        output_observations_spec(cleaned, repaired, valid) is Err,
{
    let items = output_items_spec(cleaned, repaired)->Ok_0;
    let item = items[i];
    let j = choose|j: int| 0 <= j < non_knowledge_fields().len() && non_knowledge_fields()[j] == field;
    assert(has_member(item, non_knowledge_fields()[j]));
    assert(first_present(item, non_knowledge_fields()) is Some);
    lemma_items_in_order(items, valid);
    lemma_item_refusals(item, valid);
    assert(item_spec(item, valid) is Err);
}

/// Every accepted observation but a summary has a confidence that is
/// neither below 0 nor above 1, and every accepted knowledge assertion an
/// importance score in `[0, 1]`.
pub proof fn lemma_accepted_scores_in_range(
    cleaned: Result<JsonValue, Seq<char>>,
    repaired: Option<Result<Seq<JsonValue>, Seq<char>>>,
    valid: Seq<Seq<char>>,
)
    ensures
        output_observations_spec(cleaned, repaired, valid) matches Ok(obs) ==> forall|i: int|
            0 <= i < obs.len() ==> {
                &&& (#[trigger] obs[i] is Summary || (confidence_of(obs[i]) matches Some(c) && !outside_unit(c)))
                &&& (obs[i] is KnowledgeAssertion ==> in_unit_range(obs[i]->KnowledgeAssertion_importance_score))
            },
{
    if let Ok(items) = output_items_spec(cleaned, repaired) {
        lemma_items_in_order(items, valid);
        if let Ok(obs) = output_observations_spec(cleaned, repaired, valid) {
            assert forall|i: int| 0 <= i < obs.len() implies {
                &&& (#[trigger] obs[i] is Summary || (confidence_of(obs[i]) matches Some(c) && !outside_unit(c)))
                &&& (obs[i] is KnowledgeAssertion ==> in_unit_range(obs[i]->KnowledgeAssertion_importance_score))
            } by {
                lemma_item_refusals(items[i], valid);
                assert(item_spec(items[i], valid) == Ok::<ObservationView, ExtractErrorView>(obs[i]));
                reveal(entity_introduction_spec);
                reveal(alias_spec);
                reveal(property_update_spec);
                reveal(minor_event_spec);
                reveal(relationship_update_spec);
                reveal(knowledge_assertion_spec);
                reveal(summary_spec);
                reveal(identity_reveal_spec);
                reveal(pair_spec);
                reveal(support_spec);
            }
        }
    }
}

/// The opening of the extraction prompt, before the segment context.
pub open spec fn extraction_prompt_intro() -> Seq<char> {
    "## Context\n"@
}

/// The task list of the extraction prompt, before the dimension keys.
pub open spec fn extraction_prompt_tasks() -> Seq<char> {
    "\n\n## Task\n从上述章节片段中抽取以下类型的 observations：\n- entity_introduction: 新人物出场（subject_mention, entity_type, aliases, short_summary, evidence_span_ids, confidence）\n- alias: 已知人物的新称呼（subject_mention, alias, alias_type, evidence_span_ids, confidence）\n- property_update: 人物属性变化（subject_mention, dimension_key, value_text, evidence_span_ids, confidence）\n- minor_event: 值得注意的事件（description, involved_mentions, evidence_span_ids, confidence）\n- relationship_update: 重要人物关系（subject_mention, object_mention, relation_hint, relation_group, relation_label, directionality, evidence_span_ids, confidence, importance_hint, is_long_term_or_significant_hint）\n- knowledge_assertion: 长期世界观知识（category, topic, assertion_text, evidence_span_ids, referenced_entity_mentions, status_hint, reason_hint, confidence, importance_score）\n- identity_reveal: 明确身份揭示（revealed_mention, canonical_mention, reveal_type, reason_hint, evidence_span_ids, confidence）\n- entity_merge_candidate: 明确同一人候选（entity_a_mention, entity_b_mention, reason_hint, evidence_span_ids, confidence）\n- entity_split_candidate: 可能误合并候选（entity_a_mention, entity_b_mention, reason_hint, evidence_span_ids, confidence）\n- not_same_identity: 明确不是同一人（entity_a_mention, entity_b_mention, reason_hint, evidence_span_ids, confidence）\n- summary: 章节摘要（summary, key_points, has_important_changes）\n\ndimension_key 必须是以下之一："@
}

/// The text between the dimension keys and the relation groups.
pub open spec fn extraction_prompt_groups() -> Seq<char> {
    "\n\nrelation_group 必须是以下之一："@
}

/// The text between the relation groups and the reveal types.
pub open spec fn extraction_prompt_reveals() -> Seq<char> {
    "\n\nidentity reveal 的 reveal_type 必须是以下之一："@
}

/// The text between the reveal types and the knowledge categories.
pub open spec fn extraction_prompt_categories() -> Seq<char> {
    "\n\nknowledge category 必须是以下之一："@
}

/// The text between the knowledge categories and the span ids.
pub open spec fn extraction_prompt_spans() -> Seq<char> {
    "\n\nknowledge status_hint 只能是 fact / rumor / uncertain / false_belief；secret / prophecy 必须用 category 表达。\n\nevidence_span_ids 必须使用以下可用 span IDs："@
}

/// The closing rules of the extraction prompt, after the span ids.
pub open spec fn extraction_prompt_rules() -> Seq<char> {
    "\n\nknowledge_assertion 只抽长期有用的世界知识：修炼体系、势力结构、世界规则、历史、秘密、预言、政治、地理概况。\n不要把人物当前状态、人物关系、身份揭露、地点方向/地图边抽成 knowledge：\n- “张三突破金丹” -> property_update(realm)，不是 knowledge_assertion\n- “张三和李四结盟” -> relationship_update，不是 knowledge_assertion\n- “黑衣人其实是张三” -> identity_reveal，不是 knowledge_assertion\n- “青云门在东域以北” -> Phase 5 map/location edge；Phase 4 只可抽地理概况，不写拓扑边\n\n普通 alias / title 不是 identity_reveal：\n- “张三又名张三丰” -> alias / name property, not merge by default\n- “张三被称为剑魔” -> title / alias, not merge\n- “黑衣人摘下面具，竟是张三” -> identity_reveal, merge candidate\n- “白发老者正是李真人” -> identity_reveal, merge candidate\n- “此张三并非彼张三” -> not_same_identity\n\n输出严格 JSON 数组，每个元素包含 \"type\" 字段。"@
}

/// The user prompt of an extraction: the segment context, the observation
/// types with their fields, the admitted dimension keys, relation groups,
/// reveal types and knowledge categories, the span ids the evidence must use
/// (`span_ids_json`, their JSON array), and the boundary rules.
pub open spec fn extraction_prompt_spec(context: Seq<char>, span_ids_json: Seq<char>) -> Seq<char> {
    extraction_prompt_intro() + context + extraction_prompt_tasks() + joined(dimension_keys(), ", "@)
        + extraction_prompt_groups() + joined(relation_groups(), ", "@) + extraction_prompt_reveals()
        + joined(reveal_types(), ", "@) + extraction_prompt_categories() + joined(knowledge_categories(), ", "@)
        + extraction_prompt_spans() + span_ids_json + extraction_prompt_rules()
}

fn strings_of(items: &[&str]) -> (r: Vec<String>)
    ensures
        string_views(r@) == views_of(items@),
{
    let mut out: Vec<String> = Vec::new();
    let mut i: usize = 0;
    while i < items.len()
        invariant
            i <= items@.len(),
            string_views(out@) == views_of(items@.subrange(0, i as int)),
        decreases items.len() - i,
    {
        let ghost before = out@;
        out.push(String::from_str(items[i]));
        assert(string_views(out@) =~= string_views(before).push(items@[i as int]@));
        assert(views_of(items@.subrange(0, i + 1)) =~= views_of(items@.subrange(0, i as int)).push(items@[i as int]@));
        i = i + 1;
    }
    assert(items@.subrange(0, items@.len() as int) =~= items@);
    out
}

/// The user prompt of an extraction for a segment's context and the JSON
/// array of its span ids.
pub fn extraction_prompt(context: &str, span_ids_json: &str) -> (r: String)
    ensures
        r@ == extraction_prompt_spec(context@, span_ids_json@),
{
    proof {
        reveal(dimension_keys);
        reveal(relation_groups);
        reveal(reveal_types);
        reveal(knowledge_categories);
    }
    let dims = ["identity", "life_status", "affiliation", "rank", "occupation", "realm", "ability", "equipment",
        "location", "mental_state", "goal", "injury", "appearance", "background"];
    let groups = ["family", "romance", "friendship", "mentorship", "hierarchy", "alliance", "rivalry", "hostility",
        "debt_obligation", "contract", "acquaintance", "other_social", "unknown_significant"];
    let reveals = ["true_name", "disguise", "title_reveal", "alias_reveal", "identity_confirmation",
        "mistaken_identity_correction"];
    let categories = ["power_system", "faction_structure", "world_rule", "history", "secret", "prophecy", "politics",
        "geography", "custom"];
    assert(views_of(dims@) =~= dimension_keys());
    assert(views_of(groups@) =~= relation_groups());
    assert(views_of(reveals@) =~= reveal_types());
    assert(views_of(categories@) =~= knowledge_categories());
    let mut s = String::from_str("## Context\n");
    s.append(context);
    s.append("\n\n## Task\n从上述章节片段中抽取以下类型的 observations：\n- entity_introduction: 新人物出场（subject_mention, entity_type, aliases, short_summary, evidence_span_ids, confidence）\n- alias: 已知人物的新称呼（subject_mention, alias, alias_type, evidence_span_ids, confidence）\n- property_update: 人物属性变化（subject_mention, dimension_key, value_text, evidence_span_ids, confidence）\n- minor_event: 值得注意的事件（description, involved_mentions, evidence_span_ids, confidence）\n- relationship_update: 重要人物关系（subject_mention, object_mention, relation_hint, relation_group, relation_label, directionality, evidence_span_ids, confidence, importance_hint, is_long_term_or_significant_hint）\n- knowledge_assertion: 长期世界观知识（category, topic, assertion_text, evidence_span_ids, referenced_entity_mentions, status_hint, reason_hint, confidence, importance_score）\n- identity_reveal: 明确身份揭示（revealed_mention, canonical_mention, reveal_type, reason_hint, evidence_span_ids, confidence）\n- entity_merge_candidate: 明确同一人候选（entity_a_mention, entity_b_mention, reason_hint, evidence_span_ids, confidence）\n- entity_split_candidate: 可能误合并候选（entity_a_mention, entity_b_mention, reason_hint, evidence_span_ids, confidence）\n- not_same_identity: 明确不是同一人（entity_a_mention, entity_b_mention, reason_hint, evidence_span_ids, confidence）\n- summary: 章节摘要（summary, key_points, has_important_changes）\n\ndimension_key 必须是以下之一：");
    s.append(join_strings(&strings_of(&dims), ", ").as_str());
    s.append("\n\nrelation_group 必须是以下之一：");
    s.append(join_strings(&strings_of(&groups), ", ").as_str());
    s.append("\n\nidentity reveal 的 reveal_type 必须是以下之一：");
    s.append(join_strings(&strings_of(&reveals), ", ").as_str());
    s.append("\n\nknowledge category 必须是以下之一：");
    s.append(join_strings(&strings_of(&categories), ", ").as_str());
    s.append("\n\nknowledge status_hint 只能是 fact / rumor / uncertain / false_belief；secret / prophecy 必须用 category 表达。\n\nevidence_span_ids 必须使用以下可用 span IDs：");
    s.append(span_ids_json);
    s.append("\n\nknowledge_assertion 只抽长期有用的世界知识：修炼体系、势力结构、世界规则、历史、秘密、预言、政治、地理概况。\n不要把人物当前状态、人物关系、身份揭露、地点方向/地图边抽成 knowledge：\n- “张三突破金丹” -> property_update(realm)，不是 knowledge_assertion\n- “张三和李四结盟” -> relationship_update，不是 knowledge_assertion\n- “黑衣人其实是张三” -> identity_reveal，不是 knowledge_assertion\n- “青云门在东域以北” -> Phase 5 map/location edge；Phase 4 只可抽地理概况，不写拓扑边\n\n普通 alias / title 不是 identity_reveal：\n- “张三又名张三丰” -> alias / name property, not merge by default\n- “张三被称为剑魔” -> title / alias, not merge\n- “黑衣人摘下面具，竟是张三” -> identity_reveal, merge candidate\n- “白发老者正是李真人” -> identity_reveal, merge candidate\n- “此张三并非彼张三” -> not_same_identity\n\n输出严格 JSON 数组，每个元素包含 \"type\" 字段。");
    s
}

/// Risk by kind of observation: relationship updates, knowledge assertions
/// and every identity observation (reveal, merge, split, not-same) are high
/// risk whatever their fields; aliases, minor events and summaries are low;
/// a new entity is never high, and medium only when it is a character
/// extracted with confidence of at least 0.8.
pub proof fn lemma_risk_by_kind(obs: Observation)
    ensures
        (obs is RelationshipUpdate || obs is KnowledgeAssertion || obs is IdentityReveal || obs is EntityMergeCandidate
            || obs is EntitySplitCandidate || obs is NotSameIdentity) ==> observation_risk(obs@) == RiskLevel::High,
        (obs is Alias || obs is MinorEvent || obs is Summary) ==> observation_risk(obs@) == RiskLevel::Low,
        obs is EntityIntroduction ==> (observation_risk(obs@) == RiskLevel::Medium <==> (
            obs->EntityIntroduction_entity_type@ == "character"@ && at_least(
                obs->EntityIntroduction_confidence,
                KEY_FOUR_FIFTHS,
            ))) && observation_risk(obs@) != RiskLevel::High,
{
}

/// Risk of a property change by dimension: an affiliation, realm or rank
/// change is medium; a life status or identity change is at least medium,
/// and high when its lowercased value reports a death (`死亡`, `died`), a
/// resurrection (`复活`) or a true identity (`真实身份`); a change of any
/// other dimension is low.
pub proof fn lemma_property_risk_by_dimension(dimension: Seq<char>, lowered: Seq<char>)
    ensures
        dimension == "affiliation"@ || dimension == "realm"@ || dimension == "rank"@ ==> property_risk(dimension, lowered)
            == RiskLevel::Medium,
        dimension == "life_status"@ || dimension == "identity"@ ==> property_risk(dimension, lowered) != RiskLevel::Low,
        dimension == "life_status"@ && (contains(lowered, "死亡"@) || contains(lowered, "died"@) || contains(
            lowered,
            "复活"@,
        )) ==> property_risk(dimension, lowered) == RiskLevel::High,
        dimension == "identity"@ && contains(lowered, "真实身份"@) ==> property_risk(dimension, lowered)
            == RiskLevel::High,
        dimension != "life_status"@ && dimension != "identity"@ && dimension != "affiliation"@ && dimension
            != "realm"@ && dimension != "rank"@ ==> property_risk(dimension, lowered) == RiskLevel::Low,
{
    reveal_strlit("life_status");
    reveal_strlit("identity");
    reveal_strlit("affiliation");
    reveal_strlit("realm");
    reveal_strlit("rank");
    assert("life_status"@.len() != "identity"@.len() && "life_status"@[0] != "affiliation"@[0]
        && "life_status"@.len() != "realm"@.len() && "life_status"@.len() != "rank"@.len());
    assert("identity"@.len() != "affiliation"@.len() && "identity"@.len() != "realm"@.len()
        && "identity"@.len() != "rank"@.len());
    assert(death_words()[0] == "死亡"@ && death_words()[4] == "died"@);
    assert(revival_words()[0] == "复活"@);
    assert(reveal_words()[1] == "真实身份"@);
}

} // verus!
