//! How an observation becomes a ledger claim: its claim type, mentions,
//! predicate, payload, status and source-span roles; a summary becomes a
//! chapter summary instead.
use vstd::prelude::*;
use crate::extractor::{strs, KnowledgeEntityMention, Observation, RiskLevel};
use crate::json::{JsonNumber, JsonValue};
use crate::records::ClaimRecord;
use crate::score::Score;
use crate::text::{contains, lowercase, opt_view, owned, str_contains, str_eq, text_or_empty, to_lowercase};

verus! {

/// What writing the claims of a segment produced.
#[derive(Debug)]
pub struct ClaimWriteResult {
    /// Claims created.
    pub claims_created: Vec<ClaimRecord>,
    /// Chapter summaries written.
    pub summaries_written: Vec<String>,
    /// Observations that made no claim (summaries).
    pub skipped_count: usize,
}

impl ClaimWriteResult {
    /// The empty result.
    pub fn new() -> (r: ClaimWriteResult)
        ensures
            r.claims_created@.len() == 0,
            r.summaries_written@.len() == 0,
            r.skipped_count == 0,
    {
        ClaimWriteResult { claims_created: Vec::new(), summaries_written: Vec::new(), skipped_count: 0 }
    }

    /// Records a summary observation: its summary is written, and it counts
    /// as skipped, since it makes no claim.
    pub fn record_summary(&mut self, summary: String)
        requires
            old(self).skipped_count < usize::MAX,
        ensures
            final(self).summaries_written@ == old(self).summaries_written@.push(summary),
            final(self).skipped_count == old(self).skipped_count + 1,
            final(self).claims_created@ == old(self).claims_created@,
    {
        self.summaries_written.push(summary);
        self.skipped_count = self.skipped_count + 1;
    }

    /// Records a claim that was created.
    pub fn record_claim(&mut self, claim: ClaimRecord)
        ensures
            final(self).claims_created@ == old(self).claims_created@.push(claim),
            final(self).summaries_written@ == old(self).summaries_written@,
            final(self).skipped_count == old(self).skipped_count,
    {
        self.claims_created.push(claim);
    }
}

/// The members of a JSON object, each key by its text.
pub open spec fn entries(m: Seq<(String, JsonValue)>) -> Seq<(Seq<char>, JsonValue)> {
    m.map_values(|e: (String, JsonValue)| (e.0@, e.1))
}

/// Whether `v` is an object with exactly the members `es`, in that order.
pub open spec fn is_object_with(v: JsonValue, es: Seq<(Seq<char>, JsonValue)>) -> bool {
    v matches JsonValue::Object(m) && entries(m@) == es
}

/// A string, or `null` when absent.
pub open spec fn opt_json(o: Option<String>) -> JsonValue {
    match o {
        Some(s) => JsonValue::Str(s),
        None => JsonValue::Null,
    }
}

/// A number that is not an integer literal.
pub open spec fn num_json(s: Score) -> JsonValue {
    JsonValue::Number(JsonNumber { value: s, integer: None })
}

/// The strings of `v`, each as a JSON string.
pub open spec fn strings_json(v: Seq<String>) -> Seq<JsonValue> {
    v.map_values(|s: String| JsonValue::Str(s))
}

/// Whether `v` is an array of the strings `items`.
pub open spec fn is_string_array(v: JsonValue, items: Seq<String>) -> bool {
    v matches JsonValue::Array(a) && a@ == strings_json(items)
}

fn entry(key: &str, value: JsonValue) -> (r: (String, JsonValue))
    ensures
        r.0@ == key@,
        r.1 == value,
{
    (owned(key), value)
}

fn opt_value(o: Option<String>) -> (r: JsonValue)
    ensures
        r == opt_json(o),
{
    match o {
        Some(s) => JsonValue::Str(s),
        None => JsonValue::Null,
    }
}

fn num_value(s: Score) -> (r: JsonValue)
    ensures
        r == num_json(s),
{
    JsonValue::Number(JsonNumber { value: s, integer: None })
}

fn strings_value(v: &Vec<String>) -> (r: JsonValue)
    ensures
        is_string_array(r, v@),
{
    let mut items: Vec<JsonValue> = Vec::new();
    let mut i: usize = 0;
    while i < v.len()
        invariant
            i <= v@.len(),
            items@ == strings_json(v@.subrange(0, i as int)),
        decreases v.len() - i,
    {
        items.push(JsonValue::Str(v[i].clone()));
        assert(strings_json(v@.subrange(0, i + 1)) =~= strings_json(v@.subrange(0, i as int)).push(JsonValue::Str(v@[i as int])));
        i = i + 1;
    }
    assert(v@.subrange(0, v@.len() as int) =~= v@);
    JsonValue::Array(items)
}

/// The claim type of a non-summary observation.
pub open spec fn claim_type_spec(obs: Observation) -> Seq<char> {
    match obs {
        Observation::EntityIntroduction { .. } => "entity_introduction"@,
        Observation::Alias { .. } => "alias"@,
        Observation::PropertyUpdate { .. } => "property_update"@,
        Observation::RelationshipUpdate { .. } => "relationship_update"@,
        Observation::KnowledgeAssertion { .. } => "knowledge_assertion"@,
        Observation::IdentityReveal { .. } => "identity_reveal"@,
        Observation::EntityMergeCandidate { .. } => "entity_merge_candidate"@,
        Observation::EntitySplitCandidate { .. } => "entity_split_candidate"@,
        Observation::NotSameIdentity { .. } => "not_same_identity"@,
        Observation::MinorEvent { .. } => "minor_event"@,
        Observation::Summary { .. } => Seq::empty(),
    }
}

/// The claim type of an observation; a summary makes no claim.
pub fn get_claim_type(obs: &Observation) -> (r: String)
    requires
        !(obs is Summary),
    ensures
        r@ == claim_type_spec(*obs),
{
    match obs {
        Observation::EntityIntroduction { .. } => owned("entity_introduction"),
        Observation::Alias { .. } => owned("alias"),
        Observation::PropertyUpdate { .. } => owned("property_update"),
        Observation::RelationshipUpdate { .. } => owned("relationship_update"),
        Observation::KnowledgeAssertion { .. } => owned("knowledge_assertion"),
        Observation::IdentityReveal { .. } => owned("identity_reveal"),
        Observation::EntityMergeCandidate { .. } => owned("entity_merge_candidate"),
        Observation::EntitySplitCandidate { .. } => owned("entity_split_candidate"),
        Observation::NotSameIdentity { .. } => owned("not_same_identity"),
        Observation::MinorEvent { .. } => owned("minor_event"),
        Observation::Summary { .. } => String::new(),
    }
}

/// The confidence of an observation; zero for a summary.
pub open spec fn confidence_spec(obs: Observation) -> Score {
    match obs {
        Observation::EntityIntroduction { confidence, .. } => confidence,
        Observation::Alias { confidence, .. } => confidence,
        Observation::PropertyUpdate { confidence, .. } => confidence,
        Observation::RelationshipUpdate { confidence, .. } => confidence,
        Observation::KnowledgeAssertion { confidence, .. } => confidence,
        Observation::IdentityReveal { confidence, .. } => confidence,
        Observation::EntityMergeCandidate { confidence, .. } => confidence,
        Observation::EntitySplitCandidate { confidence, .. } => confidence,
        Observation::NotSameIdentity { confidence, .. } => confidence,
        Observation::MinorEvent { confidence, .. } => confidence,
        Observation::Summary { .. } => Score::zero_value(),
    }
}

/// The confidence of an observation; zero for a summary.
pub fn get_confidence(obs: &Observation) -> (r: Score)
    ensures
        r == confidence_spec(*obs),
{
    match obs {
        Observation::EntityIntroduction { confidence, .. } => *confidence,
        Observation::Alias { confidence, .. } => *confidence,
        Observation::PropertyUpdate { confidence, .. } => *confidence,
        Observation::RelationshipUpdate { confidence, .. } => *confidence,
        Observation::KnowledgeAssertion { confidence, .. } => *confidence,
        Observation::IdentityReveal { confidence, .. } => *confidence,
        Observation::EntityMergeCandidate { confidence, .. } => *confidence,
        Observation::EntitySplitCandidate { confidence, .. } => *confidence,
        Observation::NotSameIdentity { confidence, .. } => *confidence,
        Observation::MinorEvent { confidence, .. } => *confidence,
        Observation::Summary { .. } => Score::zero(),
    }
}

/// The object mention of an observation: the alias, the relationship's
/// object, the canonical mention of a reveal, or the second entity of a pair.
pub open spec fn object_mention_spec(obs: Observation) -> Option<Seq<char>> {
    match obs {
        Observation::Alias { alias, .. } => Some(alias@),
        Observation::RelationshipUpdate { object_mention, .. } => Some(object_mention@),
        Observation::IdentityReveal { canonical_mention, .. } => Some(canonical_mention@),
        Observation::EntityMergeCandidate { entity_b_mention, .. } => Some(entity_b_mention@),
        Observation::EntitySplitCandidate { entity_b_mention, .. } => Some(entity_b_mention@),
        Observation::NotSameIdentity { entity_b_mention, .. } => Some(entity_b_mention@),
        _ => None,
    }
}

/// The object mention of an observation, if it has one.
pub fn get_object_mention(obs: &Observation) -> (r: Option<String>)
    ensures
        opt_view(r) == object_mention_spec(*obs),
{
    match obs {
        Observation::Alias { alias, .. } => Some(alias.clone()),
        Observation::RelationshipUpdate { object_mention, .. } => Some(object_mention.clone()),
        Observation::IdentityReveal { canonical_mention, .. } => Some(canonical_mention.clone()),
        Observation::EntityMergeCandidate { entity_b_mention, .. } => Some(entity_b_mention.clone()),
        Observation::EntitySplitCandidate { entity_b_mention, .. } => Some(entity_b_mention.clone()),
        Observation::NotSameIdentity { entity_b_mention, .. } => Some(entity_b_mention.clone()),
        _ => None,
    }
}

/// The predicate text of a non-summary observation.
pub open spec fn predicate_spec(obs: Observation) -> Seq<char> {
    match obs {
        Observation::EntityIntroduction { entity_type, short_summary, .. } => "is a "@ + entity_type@ + " — "@
            + short_summary@,
        Observation::Alias { alias_type, alias, .. } => "also known as "@ + alias@ + " ("@ + alias_type@ + ")"@,
        Observation::PropertyUpdate { dimension_key, value_text, .. } => dimension_key@ + " = "@ + match value_text {
            Some(v) => v@,
            None => "unknown"@,
        },
        Observation::RelationshipUpdate { subject_mention, object_mention, relation_label, .. } => subject_mention@
            + " and "@ + object_mention@ + " — "@ + relation_label@,
        Observation::KnowledgeAssertion { category, topic, assertion_text, .. } => category@ + ":"@ + topic@ + " — "@
            + assertion_text@,
        Observation::IdentityReveal { revealed_mention, canonical_mention, reveal_type, .. } => revealed_mention@
            + " is revealed as "@ + canonical_mention@ + " ("@ + reveal_type@ + ")"@,
        Observation::EntityMergeCandidate { entity_a_mention, entity_b_mention, .. } => entity_a_mention@
            + " may be the same identity as "@ + entity_b_mention@,
        Observation::EntitySplitCandidate { entity_a_mention, entity_b_mention, .. } => entity_a_mention@
            + " may have been merged with "@ + entity_b_mention@,
        Observation::NotSameIdentity { entity_a_mention, entity_b_mention, .. } => entity_a_mention@
            + " is not the same identity as "@ + entity_b_mention@,
        Observation::MinorEvent { description, .. } => description@,
        Observation::Summary { .. } => Seq::empty(),
    }
}

fn cat3(a: &str, b: &str, c: &str) -> (r: String)
    ensures
        r@ == a@ + b@ + c@,
{
    let mut s = String::from_str(a);
    s.append(b);
    s.append(c);
    s
}

fn cat5(a: &str, b: &str, c: &str, d: &str, e: &str) -> (r: String)
    ensures
        r@ == a@ + b@ + c@ + d@ + e@,
{
    let mut s = String::from_str(a);
    s.append(b);
    s.append(c);
    s.append(d);
    s.append(e);
    s
}

/// The predicate text of an observation; a summary makes no claim.
pub fn build_predicate(obs: &Observation) -> (r: String)
    requires
        !(obs is Summary),
    ensures
        r@ == predicate_spec(*obs),
{
    match obs {
        Observation::EntityIntroduction { entity_type, short_summary, .. } => {
            let mut s = cat3("is a ", entity_type.as_str(), " — ");
            s.append(short_summary.as_str());
            s
        },
        Observation::Alias { alias_type, alias, .. } => cat5(
            "also known as ",
            alias.as_str(),
            " (",
            alias_type.as_str(),
            ")",
        ),
        Observation::PropertyUpdate { dimension_key, value_text, .. } => {
            let value: &str = match value_text {
                Some(v) => v.as_str(),
                None => "unknown",
            };
            cat3(dimension_key.as_str(), " = ", value)
        },
        Observation::RelationshipUpdate { subject_mention, object_mention, relation_label, .. } => {
            let mut s = cat5(subject_mention.as_str(), " and ", object_mention.as_str(), " — ", relation_label.as_str());
            s
        },
        Observation::KnowledgeAssertion { category, topic, assertion_text, .. } => cat5(
            category.as_str(),
            ":",
            topic.as_str(),
            " — ",
            assertion_text.as_str(),
        ),
        Observation::IdentityReveal { revealed_mention, canonical_mention, reveal_type, .. } => {
            let mut s = cat5(revealed_mention.as_str(), " is revealed as ", canonical_mention.as_str(), " (", reveal_type.as_str());
            s.append(")");
            s
        },
        Observation::EntityMergeCandidate { entity_a_mention, entity_b_mention, .. } => cat3(
            entity_a_mention.as_str(),
            " may be the same identity as ",
            entity_b_mention.as_str(),
        ),
        Observation::EntitySplitCandidate { entity_a_mention, entity_b_mention, .. } => cat3(
            entity_a_mention.as_str(),
            " may have been merged with ",
            entity_b_mention.as_str(),
        ),
        Observation::NotSameIdentity { entity_a_mention, entity_b_mention, .. } => cat3(
            entity_a_mention.as_str(),
            " is not the same identity as ",
            entity_b_mention.as_str(),
        ),
        Observation::MinorEvent { description, .. } => description.clone(),
        Observation::Summary { .. } => String::new(),
    }
}

/// Whether the observation is one of the identity kinds.
pub open spec fn is_identity_observation_spec(obs: Observation) -> bool {
    obs is IdentityReveal || obs is EntityMergeCandidate || obs is EntitySplitCandidate || obs is NotSameIdentity
}

/// Whether the observation is one of the identity kinds.
pub fn is_identity_observation(obs: &Observation) -> (r: bool)
    ensures
        r == is_identity_observation_spec(*obs),
{
    match obs {
        Observation::IdentityReveal { .. } | Observation::EntityMergeCandidate { .. }
        | Observation::EntitySplitCandidate { .. } | Observation::NotSameIdentity { .. } => true,
        _ => false,
    }
}

/// The payload of an identity claim: the reason hint, the identity kind,
/// empty judge fields, and the variant's own member.
pub open spec fn identity_payload_ok(
    v: JsonValue,
    identity_kind: Seq<char>,
    reason_hint: Option<String>,
    variant_key: Seq<char>,
    variant_value: Seq<char>,
) -> bool {
    v matches JsonValue::Object(m) && {
        &&& m@.len() == 6
        &&& entries(m@).subrange(0, 5) == seq![
            ("reason_hint"@, opt_json(reason_hint)),
            ("identity_kind"@, m@[1].1),
            ("judge_decision"@, JsonValue::Null),
            ("judge_confidence"@, JsonValue::Null),
            ("survivor_hint"@, JsonValue::Null),
        ]
        &&& (m@[1].1 matches JsonValue::Str(k) && k@ == identity_kind)
        &&& m@[5].0@ == variant_key
        &&& (m@[5].1 matches JsonValue::Str(x) && x@ == variant_value)
    }
}

/// The payload of an identity claim.
pub fn build_identity_payload(
    identity_kind: &str,
    reason_hint: Option<String>,
    variant_key: &str,
    variant_value: &str,
) -> (r: JsonValue)
    ensures
        identity_payload_ok(r, identity_kind@, reason_hint, variant_key@, variant_value@),
{
    let ghost rh = reason_hint;
    let mut m: Vec<(String, JsonValue)> = Vec::new();
    m.push(entry("reason_hint", opt_value(reason_hint)));
    m.push(entry("identity_kind", JsonValue::Str(owned(identity_kind))));
    m.push(entry("judge_decision", JsonValue::Null));
    m.push(entry("judge_confidence", JsonValue::Null));
    m.push(entry("survivor_hint", JsonValue::Null));
    m.push(entry(variant_key, JsonValue::Str(owned(variant_value))));
    assert(entries(m@).subrange(0, 5) =~= seq![
        ("reason_hint"@, opt_json(rh)),
        ("identity_kind"@, m@[1].1),
        ("judge_decision"@, JsonValue::Null),
        ("judge_confidence"@, JsonValue::Null),
        ("survivor_hint"@, JsonValue::Null),
    ]);
    JsonValue::Object(m)
}

/// A referenced entity mention as the payload records it.
pub open spec fn mention_json_ok(v: JsonValue, m: KnowledgeEntityMention) -> bool {
    is_object_with(
        v,
        seq![
            ("mention"@, JsonValue::Str(m.mention)),
            ("entity_type_hint"@, opt_json(m.entity_type_hint)),
            ("role"@, JsonValue::Str(m.role)),
            ("confidence"@, num_json(m.confidence)),
            ("resolved_entity_id"@, opt_json(m.resolved_entity_id)),
        ],
    )
}

fn mention_value(m: &KnowledgeEntityMention) -> (r: JsonValue)
    ensures
        mention_json_ok(r, *m),
{
    let mut o: Vec<(String, JsonValue)> = Vec::new();
    o.push(entry("mention", JsonValue::Str(m.mention.clone())));
    o.push(entry("entity_type_hint", opt_value(crate::text::clone_opt(&m.entity_type_hint))));
    o.push(entry("role", JsonValue::Str(m.role.clone())));
    o.push(entry("confidence", num_value(m.confidence)));
    o.push(entry("resolved_entity_id", opt_value(crate::text::clone_opt(&m.resolved_entity_id))));
    assert(entries(o@) =~= seq![
        ("mention"@, JsonValue::Str(m.mention)),
        ("entity_type_hint"@, opt_json(m.entity_type_hint)),
        ("role"@, JsonValue::Str(m.role)),
        ("confidence"@, num_json(m.confidence)),
        ("resolved_entity_id"@, opt_json(m.resolved_entity_id)),
    ]);
    JsonValue::Object(o)
}

/// Whether `v` is the array of the mentions as the payload records them.
pub open spec fn mentions_json_ok(v: JsonValue, ms: Seq<KnowledgeEntityMention>) -> bool {
    v matches JsonValue::Array(a) && a@.len() == ms.len() && forall|i: int|
        0 <= i < ms.len() ==> #[trigger] mention_json_ok(a@[i], ms[i])
}

fn mentions_value(ms: &Vec<KnowledgeEntityMention>) -> (r: JsonValue)
    ensures
        mentions_json_ok(r, ms@),
{
    let mut a: Vec<JsonValue> = Vec::new();
    let mut i: usize = 0;
    while i < ms.len()
        invariant
            i <= ms@.len(),
            a@.len() == i,
            forall|k: int| 0 <= k < i ==> #[trigger] mention_json_ok(a@[k], ms@[k]),
        decreases ms.len() - i,
    {
        a.push(mention_value(&ms[i]));
        i = i + 1;
    }
    JsonValue::Array(a)
}

/// The value text and payload of a claim made from `obs`.
pub open spec fn value_fields_ok(obs: Observation, value_text: Option<String>, value_json: Option<JsonValue>) -> bool {
    match obs {
        Observation::PropertyUpdate { value_text: vt, value_json: vj, .. } => value_text == vt && value_json == vj,
        Observation::EntityIntroduction { entity_type, short_summary, aliases, .. } => {
            &&& opt_view(value_text) == Some(short_summary@)
            &&& value_json matches Some(JsonValue::Object(m)) && m@.len() == 3 && entries(m@).subrange(0, 2) == seq![
                ("entity_type"@, JsonValue::Str(entity_type)),
                ("short_summary"@, m@[1].1),
            ] && (m@[1].1 matches JsonValue::Str(s) && s@ == short_summary@) && m@[2].0@ == "aliases"@
                && is_string_array(m@[2].1, aliases@)
        },
        Observation::RelationshipUpdate {
            relation_hint,
            relation_group,
            relation_label,
            directionality,
            importance_hint,
            is_long_term_or_significant_hint,
            ..
        } => {
            &&& value_text is None
            &&& value_json matches Some(v) && is_object_with(
                v,
                seq![
                    ("relation_hint"@, JsonValue::Str(relation_hint)),
                    ("relation_group"@, JsonValue::Str(relation_group)),
                    ("relation_label"@, JsonValue::Str(relation_label)),
                    ("directionality"@, JsonValue::Str(directionality)),
                    ("importance_hint"@, num_json(importance_hint)),
                    ("is_long_term_or_significant_hint"@, JsonValue::Bool(is_long_term_or_significant_hint)),
                ],
            )
        },
        Observation::KnowledgeAssertion {
            category,
            topic,
            assertion_text,
            importance_score,
            referenced_entity_mentions,
            status_hint,
            reason_hint,
            ..
        } => {
            &&& opt_view(value_text) == Some(assertion_text@)
            &&& value_json matches Some(JsonValue::Object(m)) && m@.len() == 8 && {
                &&& m@[0].0@ == "category"@ && m@[0].1 == JsonValue::Str(category)
                &&& m@[1].0@ == "raw_topic"@ && (m@[1].1 matches JsonValue::Str(t) && t@ == topic@)
                &&& m@[2].0@ == "topic_display"@ && (m@[2].1 matches JsonValue::Str(t) && t@ == topic@)
                &&& m@[3].0@ == "assertion_text"@ && (m@[3].1 matches JsonValue::Str(t) && t@ == assertion_text@)
                &&& m@[4].0@ == "importance_score"@ && m@[4].1 == num_json(importance_score)
                &&& m@[5].0@ == "referenced_entity_mentions"@ && mentions_json_ok(m@[5].1, referenced_entity_mentions@)
                &&& m@[6].0@ == "status_hint"@ && m@[6].1 == opt_json(status_hint)
                &&& m@[7].0@ == "reason_hint"@ && m@[7].1 == opt_json(reason_hint)
            }
        },
        Observation::IdentityReveal { reveal_type, reason_hint, .. } => {
            &&& opt_view(value_text) == opt_view(reason_hint)
            &&& value_json matches Some(v) && identity_payload_ok(v, "same_identity"@, reason_hint, "reveal_type"@, reveal_type@)
        },
        Observation::EntityMergeCandidate { reason_hint, .. } => {
            &&& opt_view(value_text) == opt_view(reason_hint)
            &&& value_json matches Some(v) && identity_payload_ok(
                v,
                "same_identity"@,
                reason_hint,
                "candidate_type"@,
                "entity_merge_candidate"@,
            )
        },
        Observation::EntitySplitCandidate { reason_hint, .. } => {
            &&& opt_view(value_text) == opt_view(reason_hint)
            &&& value_json matches Some(v) && identity_payload_ok(
                v,
                "mistaken_identity"@,
                reason_hint,
                "candidate_type"@,
                "entity_split_candidate"@,
            )
        },
        Observation::NotSameIdentity { reason_hint, .. } => {
            &&& opt_view(value_text) == opt_view(reason_hint)
            &&& value_json matches Some(v) && identity_payload_ok(
                v,
                "not_same_identity"@,
                reason_hint,
                "candidate_type"@,
                "not_same_identity"@,
            )
        },
        _ => value_text is None && value_json is None,
    }
}

/// The value text and payload of a claim made from `obs`.
pub fn get_value_fields(obs: Observation) -> (r: (Option<String>, Option<JsonValue>))
    ensures
        value_fields_ok(obs, r.0, r.1),
{
    match obs {
        Observation::PropertyUpdate { value_text, value_json, .. } => (value_text, value_json),
        Observation::EntityIntroduction { entity_type, short_summary, aliases, .. } => {
            let text = short_summary.clone();
            let mut m: Vec<(String, JsonValue)> = Vec::new();
            m.push(entry("entity_type", JsonValue::Str(entity_type)));
            m.push(entry("short_summary", JsonValue::Str(short_summary)));
            m.push(entry("aliases", strings_value(&aliases)));
            assert(entries(m@).subrange(0, 2) =~= seq![
                ("entity_type"@, JsonValue::Str(entity_type)),
                ("short_summary"@, m@[1].1),
            ]);
            (Some(text), Some(JsonValue::Object(m)))
        },
        Observation::RelationshipUpdate {
            relation_hint,
            relation_group,
            relation_label,
            directionality,
            importance_hint,
            is_long_term_or_significant_hint,
            ..
        } => {
            let mut m: Vec<(String, JsonValue)> = Vec::new();
            m.push(entry("relation_hint", JsonValue::Str(relation_hint)));
            m.push(entry("relation_group", JsonValue::Str(relation_group)));
            m.push(entry("relation_label", JsonValue::Str(relation_label)));
            m.push(entry("directionality", JsonValue::Str(directionality)));
            m.push(entry("importance_hint", num_value(importance_hint)));
            m.push(entry("is_long_term_or_significant_hint", JsonValue::Bool(is_long_term_or_significant_hint)));
            let ghost es = entries(m@);
            assert(es =~= seq![
                ("relation_hint"@, JsonValue::Str(relation_hint)),
                ("relation_group"@, JsonValue::Str(relation_group)),
                ("relation_label"@, JsonValue::Str(relation_label)),
                ("directionality"@, JsonValue::Str(directionality)),
                ("importance_hint"@, num_json(importance_hint)),
                ("is_long_term_or_significant_hint"@, JsonValue::Bool(is_long_term_or_significant_hint)),
            ]);
            (None, Some(JsonValue::Object(m)))
        },
        Observation::KnowledgeAssertion {
            category,
            topic,
            assertion_text,
            importance_score,
            referenced_entity_mentions,
            status_hint,
            reason_hint,
            ..
        } => {
            let text = assertion_text.clone();
            let mut m: Vec<(String, JsonValue)> = Vec::new();
            m.push(entry("category", JsonValue::Str(category)));
            m.push(entry("raw_topic", JsonValue::Str(topic.clone())));
            m.push(entry("topic_display", JsonValue::Str(topic)));
            m.push(entry("assertion_text", JsonValue::Str(assertion_text)));
            m.push(entry("importance_score", num_value(importance_score)));
            m.push(entry("referenced_entity_mentions", mentions_value(&referenced_entity_mentions)));
            m.push(entry("status_hint", opt_value(status_hint)));
            m.push(entry("reason_hint", opt_value(reason_hint)));
            (Some(text), Some(JsonValue::Object(m)))
        },
        Observation::IdentityReveal { reveal_type, reason_hint, .. } => {
            let text = crate::text::clone_opt(&reason_hint);
            (text, Some(build_identity_payload("same_identity", reason_hint, "reveal_type", reveal_type.as_str())))
        },
        Observation::EntityMergeCandidate { reason_hint, .. } => {
            let text = crate::text::clone_opt(&reason_hint);
            (
                text,
                Some(build_identity_payload("same_identity", reason_hint, "candidate_type", "entity_merge_candidate")),
            )
        },
        Observation::EntitySplitCandidate { reason_hint, .. } => {
            let text = crate::text::clone_opt(&reason_hint);
            (
                text,
                Some(build_identity_payload("mistaken_identity", reason_hint, "candidate_type", "entity_split_candidate")),
            )
        },
        Observation::NotSameIdentity { reason_hint, .. } => {
            let text = crate::text::clone_opt(&reason_hint);
            (text, Some(build_identity_payload("not_same_identity", reason_hint, "candidate_type", "not_same_identity")))
        },
        _ => (None, None),
    }
}

/// Whether a high-risk observation is critical: a life status that speaks
/// of death, demise or resurrection, or an identity that speaks of a true
/// identity, in its lowercased value text.
pub open spec fn critical_observation_spec(obs: Observation) -> bool {
    match obs {
        Observation::PropertyUpdate { dimension_key, value_text, .. } => {
            let value = lowercase(text_or_empty(value_text));
            (dimension_key@ == "life_status"@ && (contains(value, "死"@) || contains(value, "亡"@) || contains(
                value,
                "复活"@,
            ))) || (dimension_key@ == "identity"@ && contains(value, "真实身份"@))
        },
        _ => false,
    }
}

/// Whether a high-risk observation is critical enough to be quarantined.
pub fn is_critical_high_risk(obs: &Observation) -> (r: bool)
    ensures
        r == critical_observation_spec(*obs),
{
    match obs {
        Observation::PropertyUpdate { dimension_key, value_text, .. } => {
            let value = match value_text {
                Some(v) => to_lowercase(v.as_str()),
                None => {
                    proof {
                        reveal_strlit("");
                        assert(""@ =~= Seq::<char>::empty());
                    }
                    to_lowercase("")
                },
            };
            let v = value.as_str();
            (str_eq(dimension_key.as_str(), "life_status") && (str_contains(v, "死") || str_contains(v, "亡")
                || str_contains(v, "复活"))) || (str_eq(dimension_key.as_str(), "identity") && str_contains(v, "真实身份"))
        },
        _ => false,
    }
}

/// The status a claim is created with: relationship, knowledge and identity
/// observations always enter their judges as proposed, and a minor event is
/// always a proposed ledger-only claim; otherwise a high-risk
/// observation is quarantined when critical and uncertain when not, and a
/// low- or medium-risk one is proposed.
pub open spec fn claim_status_spec(obs: Observation, risk: RiskLevel) -> Seq<char> {
    if obs is RelationshipUpdate || obs is KnowledgeAssertion || obs is MinorEvent || is_identity_observation_spec(obs) {
        "proposed"@
    } else if risk == RiskLevel::High {
        if critical_observation_spec(obs) {
            "quarantined"@
        } else {
            "uncertain"@
        }
    } else {
        "proposed"@
    }
}

/// The status a claim is created with.
pub fn claim_status(obs: &Observation, risk_level: RiskLevel) -> (r: &'static str)
    ensures
        r@ == claim_status_spec(*obs, risk_level),
{
    match obs {
        Observation::RelationshipUpdate { .. } | Observation::KnowledgeAssertion { .. } => "proposed",
        Observation::MinorEvent { .. } => "proposed",
        _ => {
            if is_identity_observation(obs) {
                "proposed"
            } else if risk_level == RiskLevel::High {
                if is_critical_high_risk(obs) {
                    "quarantined"
                } else {
                    "uncertain"
                }
            } else {
                "proposed"
            }
        },
    }
}

/// The role of each evidence span: `primary` for the primary span id,
/// `supporting` for the others.
pub open spec fn span_roles(spans: Seq<Seq<char>>, primary: Seq<char>) -> Seq<(Seq<char>, Seq<char>)> {
    spans.map_values(|s: Seq<char>| (s, if s == primary { "primary"@ } else { "supporting"@ }))
}

/// The views of span-role pairs.
pub open spec fn pair_views(v: Seq<(String, String)>) -> Seq<(Seq<char>, Seq<char>)> {
    v.map_values(|p: (String, String)| (p.0@, p.1@))
}

/// The source spans of a claim with their roles.
pub fn source_span_roles(spans: &[String], primary: &str) -> (r: Vec<(String, String)>)
    ensures
        pair_views(r@) == span_roles(strs(spans@), primary@),
{
    let mut out: Vec<(String, String)> = Vec::new();
    let mut i: usize = 0;
    while i < spans.len()
        invariant
            i <= spans@.len(),
            pair_views(out@) == span_roles(strs(spans@.subrange(0, i as int)), primary@),
        decreases spans.len() - i,
    {
        let role = if str_eq(spans[i].as_str(), primary) {
            owned("primary")
        } else {
            owned("supporting")
        };
        let ghost before = out@;
        out.push((spans[i].clone(), role));
        assert(strs(spans@.subrange(0, i + 1)) =~= strs(spans@.subrange(0, i as int)).push(spans@[i as int]@));
        assert(pair_views(out@) =~= pair_views(before).push((spans@[i as int]@, role@)));
        i = i + 1;
    }
    assert(spans@.subrange(0, spans@.len() as int) =~= spans@);
    out
}

/// A claim to create, with everything the ledger records of it.
#[derive(Debug)]
pub struct ClaimDraft {
    pub claim_type: String,
    pub subject_mention: Option<String>,
    pub object_mention: Option<String>,
    pub predicate: String,
    pub value_text: Option<String>,
    pub value_json: Option<JsonValue>,
    pub primary_source_span_id: String,
    pub confidence: Score,
    pub risk_level: String,
    pub status: String,
    pub source_spans: Vec<(String, String)>,
}

/// What an observation is written as: a chapter summary, or a claim.
#[derive(Debug)]
pub enum ClaimPlan {
    Summary { summary: String, key_points: Vec<String> },
    Claim(ClaimDraft),
}

/// The primary source span of an observation: its first evidence span, or
/// the empty id when it has none.
pub open spec fn primary_span_spec(obs: Observation) -> Seq<char> {
    let spans = crate::extractor::spans_of(obs@);
    if spans.len() > 0 {
        spans[0]
    } else {
        Seq::empty()
    }
}

/// What writing `obs` at `risk` produces.
pub open spec fn claim_plan_ok(obs: Observation, risk: RiskLevel, p: ClaimPlan) -> bool {
    match obs {
        Observation::Summary { summary, key_points, .. } => p matches ClaimPlan::Summary { summary: s, key_points: k }
            && s == summary && k == key_points,
        _ => p matches ClaimPlan::Claim(d) && {
            &&& d.claim_type@ == claim_type_spec(obs)
            &&& opt_view(d.subject_mention) == crate::extractor::subject_of(obs@)
            &&& opt_view(d.object_mention) == object_mention_spec(obs)
            &&& d.predicate@ == predicate_spec(obs)
            &&& value_fields_ok(obs, d.value_text, d.value_json)
            &&& d.primary_source_span_id@ == primary_span_spec(obs)
            &&& d.confidence == confidence_spec(obs)
            &&& d.risk_level@ == match risk {
                RiskLevel::Low => "low"@,
                RiskLevel::Medium => "medium"@,
                RiskLevel::High => "high"@,
            }
            &&& d.status@ == claim_status_spec(obs, risk)
            &&& pair_views(d.source_spans@) == span_roles(crate::extractor::spans_of(obs@), primary_span_spec(obs))
        },
    }
}

/// What an observation is written as.
pub fn plan_claim(obs: Observation, risk_level: RiskLevel) -> (r: ClaimPlan)
    ensures
        claim_plan_ok(obs, risk_level, r),
{
    match obs {
        Observation::Summary { summary, key_points, .. } => {
            return ClaimPlan::Summary { summary, key_points };
        },
        _ => {},
    }
    let claim_type = get_claim_type(&obs);
    let subject_mention = match obs.subject_mention() {
        Some(s) => Some(owned(s)),
        None => None,
    };
    let object_mention = get_object_mention(&obs);
    let predicate = build_predicate(&obs);
    let spans = obs.evidence_span_ids();
    let primary_source_span_id = if spans.len() > 0 {
        spans[0].clone()
    } else {
        String::new()
    };
    proof {
        assert(strs(spans@).len() == spans@.len());
        if spans@.len() > 0 {
            assert(strs(spans@)[0] == spans@[0]@);
        }
    }
    let source_spans = source_span_roles(spans, primary_source_span_id.as_str());
    let confidence = get_confidence(&obs);
    let status = owned(claim_status(&obs, risk_level));
    let risk = owned(risk_level.as_str());
    let (value_text, value_json) = get_value_fields(obs);
    ClaimPlan::Claim(
        ClaimDraft {
            claim_type,
            subject_mention,
            object_mention,
            predicate,
            value_text,
            value_json,
            primary_source_span_id,
            confidence,
            risk_level: risk,
            status,
            source_spans,
        },
    )
}

/// Relationship, knowledge and identity observations are always written as
/// proposed claims, whatever their risk: they go to their judges.
pub proof fn lemma_judged_observations_are_proposed(obs: Observation, risk: RiskLevel)
    requires
        obs is RelationshipUpdate || obs is KnowledgeAssertion || is_identity_observation_spec(obs),
    ensures
        claim_status_spec(obs, risk) == "proposed"@,
{
}

/// A minor event is always written as a proposed claim, whatever its risk:
/// it stays in the ledger and is never quarantined or held as uncertain.
pub proof fn lemma_minor_event_is_proposed(obs: Observation, risk: RiskLevel)
    requires
        obs is MinorEvent,
    ensures
        claim_status_spec(obs, risk) == "proposed"@,
{
}

/// A low- or medium-risk observation is always written as a proposed claim.
pub proof fn lemma_low_risk_is_proposed(obs: Observation, risk: RiskLevel)
    requires
        risk != RiskLevel::High,
    ensures
        claim_status_spec(obs, risk) == "proposed"@,
{
}

/// A life-status update whose value reports a death (`死亡`) is quarantined
/// when written at the risk that extraction assigns it: classification calls
/// it high risk and the claim writer calls it critical.
pub proof fn lemma_reported_death_is_quarantined(obs: Observation)
    requires
        obs matches Observation::PropertyUpdate { dimension_key, value_text, .. } && dimension_key@ == "life_status"@
            && contains(lowercase(text_or_empty(value_text)), "死亡"@),
    ensures
        crate::extractor::observation_risk(obs@) == RiskLevel::High,
        claim_status_spec(obs, crate::extractor::observation_risk(obs@)) == "quarantined"@,
{
    let value = lowercase(text_or_empty(obs->value_text));
    reveal_strlit("死亡");
    reveal_strlit("死");
    reveal_strlit("life_status");
    let i = choose|i: int| crate::text::occurs_at(value, "死亡"@, i);
    assert(value.subrange(i, i + 2) == "死亡"@);
    assert(value.subrange(i, i + 1) =~= "死"@) by {
        assert(value.subrange(i, i + 2)[0] == '死');
    }
    assert(crate::text::occurs_at(value, "死"@, i));
    assert(contains(value, "死"@));
    assert(crate::extractor::death_words()[0] == "死亡"@);
    assert(crate::extractor::contains_any_of(value, crate::extractor::death_words()));
    assert(crate::extractor::text_or_empty(crate::extractor::opt_str(obs->value_text)) == text_or_empty(obs->value_text));
}

/// How a high-risk property update is written: quarantined exactly when its
/// lowercased value reports a death, a demise or a resurrection (`死`, `亡`,
/// `复活`) on the life-status dimension, or a true identity (`真实身份`) on
/// the identity dimension; held as uncertain otherwise.
pub proof fn lemma_high_risk_property_status(obs: Observation)
    requires
        obs is PropertyUpdate,
    ensures
        ({
            let v = lowercase(text_or_empty(obs->PropertyUpdate_value_text));
            let d = obs->PropertyUpdate_dimension_key@;
            (d == "life_status"@ && (contains(v, "死"@) || contains(v, "亡"@) || contains(v, "复活"@))) || (d
                == "identity"@ && contains(v, "真实身份"@))
        }) ==> claim_status_spec(obs, RiskLevel::High) == "quarantined"@,
        !({
            let v = lowercase(text_or_empty(obs->PropertyUpdate_value_text));
            let d = obs->PropertyUpdate_dimension_key@;
            (d == "life_status"@ && (contains(v, "死"@) || contains(v, "亡"@) || contains(v, "复活"@))) || (d
                == "identity"@ && contains(v, "真实身份"@))
        }) ==> claim_status_spec(obs, RiskLevel::High) == "uncertain"@,
{
}

} // verus!
