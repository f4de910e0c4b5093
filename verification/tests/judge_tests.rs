use reader_v4::identity_judge::{
    structural_gate as identity_gate, DefaultIdentityJudge, IdentityGateResult, IdentityJudge, IdentityJudgeDecision,
    MockIdentityJudge,
};
use reader_v4::json::{JsonNumber, JsonValue};
use reader_v4::knowledge_judge::{
    build_judge_prompt as knowledge_prompt, knowledge_judge_input, knowledge_judge_system_prompt, matching_topic_candidate_count,
    structural_gate as knowledge_gate, validate_judge_output_for_context, DefaultKnowledgeRevisionJudge,
    KnowledgeCardAction, KnowledgeGateResult, KnowledgeJudgeAssertionInput, KnowledgeJudgeDecision, KnowledgeJudgeInput, KnowledgeJudgeOutput,
    KnowledgeRevisionJudge, MockKnowledgeRevisionJudge, ProposedTopic, TopicCandidate, TopicCandidateMatch, TopicResolution,
    TopicResolutionStatus,
};
use reader_v4::map_conflict_judge::{
    build_judge_prompt as map_prompt, validate_judge_output as validate_map_output, DefaultMapConflictJudge,
    MapConflictDecision, MapConflictJudge, MapConflictJudgeInput, MapConflictJudgeOutput, MockMapConflictJudge,
};
use reader_v4::map_gate::{structural_gate as map_gate, MapGateContext, MapGateResult};
use reader_v4::records::{ClaimRecord, EntityRecord, SourceSpanRecord};
use reader_v4::score::Score;

fn score(x: f64) -> Score {
    let x = if x == 0.0 { 0.0 } else { x };
    let bits = x.to_bits() as i64;
    let key = if bits < 0 { bits ^ 0x7FFF_FFFF_FFFF_FFFF } else { bits };
    Score { key }
}

fn to_json(v: &serde_json::Value) -> JsonValue {
    match v {
        serde_json::Value::Null => JsonValue::Null,
        serde_json::Value::Bool(b) => JsonValue::Bool(*b),
        serde_json::Value::Number(n) => JsonValue::Number(JsonNumber {
            value: score(n.as_f64().unwrap_or(0.0)),
            integer: n.as_i64(),
        }),
        serde_json::Value::String(s) => JsonValue::Str(s.clone()),
        serde_json::Value::Array(items) => JsonValue::Array(items.iter().map(to_json).collect()),
        serde_json::Value::Object(m) => {
            JsonValue::Object(m.iter().map(|(k, v)| (k.clone(), to_json(v))).collect())
        }
    }
}

fn obj(pairs: Vec<(&str, serde_json::Value)>) -> serde_json::Value {
    let mut m = serde_json::Map::new();
    for (k, v) in pairs {
        m.insert(k.to_string(), v);
    }
    serde_json::Value::Object(m)
}

fn s(text: &str) -> serde_json::Value {
    serde_json::Value::String(text.to_string())
}

fn num(x: f64) -> serde_json::Value {
    serde_json::Value::from(x)
}

fn claim_with(
    claim_type: &str,
    value_json: &serde_json::Value,
    value_text: Option<String>,
    primary_source_span_id: &str,
    confidence: f64,
) -> ClaimRecord {
    ClaimRecord {
        id: "claim1".to_string(),
        book_id: "book1".to_string(),
        chapter_index: 1,
        claim_type: claim_type.to_string(),
        subject_mention: None,
        object_mention: None,
        subject_entity_id: None,
        object_entity_id: None,
        predicate: "knowledge".to_string(),
        value_json: Some(value_json.to_string()),
        value_text,
        primary_source_span_id: primary_source_span_id.to_string(),
        ai_run_id: "run1".to_string(),
        confidence: score(confidence),
        risk_level: "high".to_string(),
        status: "proposed".to_string(),
        supersedes_claim_id: None,
        created_at: "now".to_string(),
        updated_at: "now".to_string(),
    }
}

// --- knowledge structural gate ---

fn make_claim(value_json: &serde_json::Value, primary_source_span_id: &str) -> ClaimRecord {
    let value_text = value_json.get("assertion_text").and_then(|v| v.as_str()).map(str::to_string);
    claim_with("knowledge_assertion", value_json, value_text, primary_source_span_id, 0.8)
}

fn valid_value_json() -> serde_json::Value {
    obj(vec![
        ("category", s("power_system")),
        ("raw_topic", s("Cultivation Realms")),
        ("topic_display", s("Cultivation Realms")),
        ("assertion_text", s("Cultivation has stable realm tiers.")),
        ("importance_score", num(0.8)),
        ("referenced_entity_mentions", serde_json::Value::Array(vec![])),
        ("status_hint", s("fact")),
        ("reason_hint", s("narrator explanation")),
    ])
}

fn span(span_id: &str) -> SourceSpanRecord {
    SourceSpanRecord {
        id: span_id.to_string(),
        book_id: "book1".to_string(),
        chapter_id: "chapter1".to_string(),
        chapter_hash: "hash1".to_string(),
        segment_id: "segment1".to_string(),
        span_index: 0,
        start_offset: 0,
        end_offset: 10,
        text_excerpt: "evidence".to_string(),
        status: "active".to_string(),
        created_at: "now".to_string(),
    }
}

fn resolved_topic() -> TopicResolution {
    TopicResolution {
        proposed: ProposedTopic {
            topic_key: "cultivation-realms".to_string(),
            topic_display: "Cultivation Realms".to_string(),
        },
        candidates: Vec::new(),
        status: TopicResolutionStatus::Resolved,
        reason: None,
    }
}

fn gate_knowledge(
    value_json: &serde_json::Value,
    primary: &str,
    spans: &[SourceSpanRecord],
    topic: &TopicResolution,
) -> KnowledgeGateResult {
    let claim = make_claim(value_json, primary);
    let payload = to_json(value_json);
    knowledge_gate(&claim, spans, Some(topic), Some(&payload))
}

#[test]
fn missing_evidence_rejected() {
    let result = gate_knowledge(&valid_value_json(), "", &[], &resolved_topic());
    assert!(matches!(result, KnowledgeGateResult::Reject(reason) if reason.contains("evidence")));
}

#[test]
fn invalid_category_rejected() {
    let mut value_json = valid_value_json();
    value_json["category"] = s("temporary_event");
    let result = gate_knowledge(&value_json, "span1", &[span("span1")], &resolved_topic());
    assert!(matches!(result, KnowledgeGateResult::Reject(reason) if reason.contains("category")));
}

#[test]
fn character_property_rejected() {
    let mut value_json = valid_value_json();
    value_json["dimension_key"] = s("realm");
    let result = gate_knowledge(&value_json, "span1", &[span("span1")], &resolved_topic());
    assert!(matches!(result, KnowledgeGateResult::Reject(reason) if reason.contains("property")));
}

#[test]
fn relationship_rejected() {
    let mut value_json = valid_value_json();
    value_json["object_mention"] = s("李四");
    value_json["relation_group"] = s("alliance");
    let result = gate_knowledge(&value_json, "span1", &[span("span1")], &resolved_topic());
    assert!(matches!(result, KnowledgeGateResult::Reject(reason) if reason.contains("relationship")));
}

#[test]
fn identity_reveal_rejected() {
    let mut value_json = valid_value_json();
    value_json["revealed_mention"] = s("黑衣人");
    value_json["canonical_mention"] = s("张三");
    let result = gate_knowledge(&value_json, "span1", &[span("span1")], &resolved_topic());
    assert!(matches!(result, KnowledgeGateResult::Reject(reason) if reason.contains("identity")));
}

#[test]
fn map_edge_rejected() {
    let mut value_json = valid_value_json();
    value_json["from_place_mention"] = s("青云门");
    value_json["to_place_mention"] = s("东域");
    value_json["edge_type"] = s("north_of");
    let result = gate_knowledge(&value_json, "span1", &[span("span1")], &resolved_topic());
    assert!(matches!(result, KnowledgeGateResult::Reject(reason) if reason.contains("map")));
}

#[test]
fn ambiguous_topic_uncertain() {
    let mut topic = resolved_topic();
    topic.status = TopicResolutionStatus::Uncertain;
    topic.reason = Some("topic is too broad".to_string());
    let result = gate_knowledge(&valid_value_json(), "span1", &[span("span1")], &topic);
    assert!(matches!(result, KnowledgeGateResult::Uncertain(reason) if reason.contains("topic")));
}

#[test]
fn uncertain_status_hint_is_uncertain() {
    let mut value_json = valid_value_json();
    value_json["status_hint"] = s("uncertain");
    let result = gate_knowledge(&value_json, "span1", &[span("span1")], &resolved_topic());
    assert!(matches!(result, KnowledgeGateResult::Uncertain(reason) if reason.contains("status_hint")));
}

fn candidate(card_id: &str, topic_key: &str, topic_display: &str, kind: TopicCandidateMatch, s: f64, chapter: i64) -> TopicCandidate {
    TopicCandidate {
        book_id: "book1".to_string(),
        category: "power_system".to_string(),
        card_id: card_id.to_string(),
        topic_key: topic_key.to_string(),
        topic_display: topic_display.to_string(),
        current_summary: None,
        match_kind: kind,
        score: score(s),
        last_updated_chapter: chapter,
    }
}

#[test]
fn multiple_resolved_topic_candidates_pass_to_ai_judge() {
    let mut topic = resolved_topic();
    topic.candidates = vec![
        candidate("card1", "cultivation-realms", "Cultivation Realms", TopicCandidateMatch::Alias, 0.9, 2),
        candidate("card2", "mana-rules", "Mana Rules", TopicCandidateMatch::RecentSameCategory, 0.2, 1),
    ];
    let result = gate_knowledge(&valid_value_json(), "span1", &[span("span1")], &topic);
    assert_eq!(result, KnowledgeGateResult::Pass);
}

#[test]
fn valid_long_term_knowledge_passes_to_ai_judge() {
    let result = gate_knowledge(&valid_value_json(), "span1", &[span("span1")], &resolved_topic());
    assert_eq!(result, KnowledgeGateResult::Pass);
}

#[test]
fn knowledge_gate_rejects_unparsed_payload() {
    let claim = make_claim(&valid_value_json(), "span1");
    let result = knowledge_gate(&claim, &[span("span1")], Some(&resolved_topic()), None);
    assert_eq!(result, KnowledgeGateResult::Reject("missing or invalid value_json".to_string()));
}

#[test]
fn knowledge_gate_rejects_span_of_other_book() {
    let mut other = span("span1");
    other.book_id = "book2".to_string();
    let result = gate_knowledge(&valid_value_json(), "span1", &[other], &resolved_topic());
    assert_eq!(result, KnowledgeGateResult::Reject("source span evidence not found".to_string()));
}

// --- knowledge judge output checks ---

fn decision_of(name: &str) -> KnowledgeJudgeDecision {
    match name {
        "add_new" => KnowledgeJudgeDecision::AddNew,
        "supplement" => KnowledgeJudgeDecision::Supplement,
        "revise_existing" => KnowledgeJudgeDecision::ReviseExisting,
        "contradict_existing" => KnowledgeJudgeDecision::ContradictExisting,
        "mark_rumor" => KnowledgeJudgeDecision::MarkRumor,
        "mark_uncertain" => KnowledgeJudgeDecision::MarkUncertain,
        "mark_false_in_world" => KnowledgeJudgeDecision::MarkFalseInWorld,
        _ => KnowledgeJudgeDecision::Reject,
    }
}

fn card_action_of(name: &str) -> KnowledgeCardAction {
    match name {
        "use_existing_card" => KnowledgeCardAction::UseExistingCard,
        "create_new_card" => KnowledgeCardAction::CreateNewCard,
        _ => KnowledgeCardAction::Uncertain,
    }
}

/// The judge output that the JSON object of the same decision and card
/// action parses into.
fn valid_judge_output(decision: &str, card_action: &str) -> KnowledgeJudgeOutput {
    KnowledgeJudgeOutput {
        decision: decision_of(decision),
        card_action: card_action_of(card_action),
        target_card_id: if card_action == "use_existing_card" { Some("card1".to_string()) } else { None },
        affected_assertion_ids: if decision == "revise_existing" || decision == "contradict_existing" {
            vec!["assertion1".to_string()]
        } else {
            vec![]
        },
        assertion_status: match decision {
            "mark_rumor" => "rumor",
            "mark_uncertain" => "uncertain",
            "mark_false_in_world" => "false_in_world",
            _ => "active",
        }
        .to_string(),
        current_summary: Some("Knowledge summary".to_string()),
        confidence: score(0.82),
        reason_code: "ok".to_string(),
        explanation_for_log: "valid".to_string(),
    }
}

#[test]
fn validates_all_supported_decisions() {
    for (decision, card_action) in [
        ("add_new", "create_new_card"),
        ("supplement", "use_existing_card"),
        ("revise_existing", "use_existing_card"),
        ("contradict_existing", "use_existing_card"),
        ("mark_rumor", "create_new_card"),
        ("mark_uncertain", "create_new_card"),
        ("mark_false_in_world", "create_new_card"),
        ("reject", "uncertain"),
    ] {
        let output = valid_judge_output(decision, card_action);
        validate_judge_output_for_context(&output, 0, "0.82").unwrap();
    }
}

#[test]
fn validates_card_action_compatibility() {
    let invalid_revise = valid_judge_output("revise_existing", "create_new_card");
    assert!(validate_judge_output_for_context(&invalid_revise, 0, "0.82").is_err());

    let invalid_create_with_candidates = valid_judge_output("add_new", "create_new_card");
    assert!(validate_judge_output_for_context(&invalid_create_with_candidates, 1, "0.82").is_err());

    let uncertain = valid_judge_output("reject", "uncertain");
    validate_judge_output_for_context(&uncertain, 2, "0.82").unwrap();
}

#[test]
fn recent_same_category_context_does_not_block_create_new_card() {
    let mut input = KnowledgeJudgeInput::for_test();
    input.candidate_cards.push(candidate(
        "recent-card",
        "mana-rules",
        "Mana Rules",
        TopicCandidateMatch::RecentSameCategory,
        0.2,
        1,
    ));
    let output = valid_judge_output("add_new", "create_new_card");

    validate_judge_output_for_context(&output, matching_topic_candidate_count(&input), "0.82").unwrap();
}

#[test]
fn matching_count_ignores_recent_same_category() {
    let mut input = KnowledgeJudgeInput::for_test();
    input.candidate_cards.push(candidate("c1", "k1", "K1", TopicCandidateMatch::ExactKey, 0.9, 1));
    input.candidate_cards.push(candidate("c2", "k2", "K2", TopicCandidateMatch::RecentSameCategory, 0.2, 1));
    input.candidate_cards.push(candidate("c3", "k3", "K3", TopicCandidateMatch::Alias, 0.7, 1));
    assert_eq!(matching_topic_candidate_count(&input), 2);
}

fn render_knowledge_input(input: &KnowledgeJudgeInput) -> String {
    let opt = |o: &Option<String>| match o {
        Some(v) => s(v),
        None => serde_json::Value::Null,
    };
    let value = obj(vec![
        ("book_id", s(&input.book_id)),
        ("chapter_index", serde_json::Value::from(input.chapter_index)),
        ("claim_id", s(&input.claim_id)),
        ("category", s(&input.category)),
        ("assertion_text", s(&input.assertion_text)),
        ("status_hint", opt(&input.status_hint)),
        (
            "proposed_topic",
            obj(vec![
                ("topic_key", s(&input.proposed_topic.topic_key)),
                ("topic_display", s(&input.proposed_topic.topic_display)),
            ]),
        ),
        ("candidate_cards", serde_json::Value::Array(vec![])),
        ("existing_assertions", serde_json::Value::Array(vec![])),
        ("evidence_spans", serde_json::Value::Array(input.evidence_spans.iter().map(|e| s(e)).collect())),
    ]);
    serde_json::to_string_pretty(&value).unwrap()
}

#[test]
fn build_judge_prompt_mentions_lowercase_json_for_response_format() {
    let prompt = knowledge_prompt(&render_knowledge_input(&KnowledgeJudgeInput::for_test()));

    assert!(
        prompt.contains("json") || knowledge_judge_system_prompt().contains("json"),
        "json_object response format requires input messages to contain lowercase json"
    );
}

#[test]
fn mock_judge_returns_configured_output() {
    let output = valid_judge_output("add_new", "create_new_card");
    let judge = MockKnowledgeRevisionJudge::new(output.clone());
    let input = KnowledgeJudgeInput::for_test();

    assert_eq!(judge.judge(&input).unwrap(), output);
}

#[test]
fn knowledge_judge_default_judge_returns_uncertain() {
    let judge = DefaultKnowledgeRevisionJudge::new();
    let input = KnowledgeJudgeInput::for_test();

    let output = judge.judge(&input).unwrap();

    assert_eq!(output.decision, KnowledgeJudgeDecision::Reject);
    assert_eq!(output.card_action, KnowledgeCardAction::Uncertain);
}

// --- map conflict judge ---

fn map_input() -> MapConflictJudgeInput {
    MapConflictJudgeInput {
        book_id: "book1".to_string(),
        chapter_index: 1,
        claim_id: "claim1".to_string(),
        claim_type: "location_edge".to_string(),
        from_place_mention: "黑风谷".to_string(),
        to_place_mention: "青云城".to_string(),
        edge_type: "north_of".to_string(),
        evidence_spans: vec!["黑风谷在青云城以北".to_string()],
        existing_map_context: vec!["青云城 contains 青云门".to_string()],
        boundary_warnings: vec![],
    }
}

#[test]
fn build_prompt_mentions_lowercase_json_and_boundaries() {
    let prompt = map_prompt(&map_input()).unwrap();

    assert!(prompt.contains("json"));
    assert!(prompt.contains("geography knowledge is context only"));
    assert!(prompt.contains("no map art"));
}

#[test]
fn map_prompt_lists_candidate_fields() {
    let prompt = map_prompt(&map_input()).unwrap();
    assert!(prompt.contains("- chapter_index: 1\n"));
    assert!(prompt.contains("- edge_type: north_of\n"));
    assert!(prompt.contains("Evidence spans:\n黑风谷在青云城以北\n\nExisting map context:\n青云城 contains 青云门\n\nBoundary warnings:\n\n\nRequired json fields:"));
    assert!(prompt.ends_with("explanation_for_log.\n"));
}

fn map_output(
    decision: MapConflictDecision,
    edge: Option<&str>,
    conflict: Option<&str>,
    reason: &str,
    confidence: f64,
    explanation: &str,
) -> MapConflictJudgeOutput {
    MapConflictJudgeOutput {
        decision,
        normalized_edge_type: edge.map(str::to_string),
        normalized_direction_hint: None,
        normalized_distance_hint: None,
        conflict_type: conflict.map(str::to_string),
        reason_code: reason.to_string(),
        confidence: score(confidence),
        explanation_for_log: explanation.to_string(),
    }
}

#[test]
fn validates_map_conflict_judge_decisions() {
    let mut accept = map_output(
        MapConflictDecision::Accept,
        Some("north_of"),
        None,
        "valid_direction",
        0.86,
        "stable directional statement",
    );
    accept.normalized_direction_hint = Some("north".to_string());
    assert!(validate_map_output(&accept).is_ok());
    assert_eq!(accept.decision, MapConflictDecision::Accept);

    let conflict = map_output(
        MapConflictDecision::Conflict,
        Some("contains"),
        Some("parent_conflict"),
        "existing_parent_differs",
        0.77,
        "new parent conflicts with existing parent",
    );
    assert!(validate_map_output(&conflict).is_ok());

    let invalid = map_output(MapConflictDecision::Conflict, Some("contains"), Some("made_up"), "x", 0.5, "x");
    assert!(validate_map_output(&invalid).is_err());

    let invalid_accept = map_output(
        MapConflictDecision::Accept,
        None,
        None,
        "missing_edge_type",
        0.5,
        "accept must normalize a canonical edge",
    );
    assert!(validate_map_output(&invalid_accept).is_err());
}

#[test]
fn map_output_confidence_out_of_range_is_refused() {
    let out = map_output(MapConflictDecision::Uncertain, None, None, "weak", 1.5, "x");
    assert_eq!(validate_map_output(&out), Err("confidence must be between 0 and 1".to_string()));
    let nan = map_output(MapConflictDecision::Uncertain, None, None, "weak", f64::NAN, "x");
    assert!(validate_map_output(&nan).is_err());
}

#[test]
fn map_conflict_judge_default_judge_returns_uncertain() {
    let output = DefaultMapConflictJudge::new().judge(&map_input()).unwrap();

    assert_eq!(output.decision, MapConflictDecision::Uncertain);
}

// --- map gate ---

fn map_claim(claim_type: &str, value_json: &serde_json::Value, primary_source_span_id: &str, confidence: f64) -> ClaimRecord {
    let mut claim = claim_with(claim_type, value_json, None, primary_source_span_id, confidence);
    claim.subject_mention = Some("黑风谷".to_string());
    claim.object_mention = Some("青云城".to_string());
    claim.subject_entity_id = Some("place_from".to_string());
    claim.object_entity_id = Some("place_to".to_string());
    claim.predicate = "黑风谷 north_of 青云城".to_string();
    claim
}

fn location_edge_value(from: &str, to: &str, edge_type: &str) -> serde_json::Value {
    obj(vec![
        ("edge_type", s(edge_type)),
        ("direction_hint", serde_json::Value::Null),
        ("distance_hint", serde_json::Value::Null),
        ("is_topological_hint", serde_json::Value::Bool(true)),
        ("evidence_span_ids", serde_json::Value::Array(vec![s("span1")])),
        ("from_place_mention", s(from)),
        ("to_place_mention", s(to)),
    ])
}

fn entity(id: &str, entity_type: &str) -> EntityRecord {
    EntityRecord {
        id: id.to_string(),
        book_id: "book1".to_string(),
        entity_type: entity_type.to_string(),
        canonical_name: id.to_string(),
        display_name: id.to_string(),
        short_summary: None,
        importance_score: score(0.5),
        first_seen_chapter: 1,
        last_seen_chapter: 1,
        status: "active".to_string(),
        created_at: "now".to_string(),
        updated_at: "now".to_string(),
    }
}

fn gate(
    claim: &ClaimRecord,
    from_place: Option<&EntityRecord>,
    to_place: Option<&EntityRecord>,
    existing_parent_links: &[(String, String)],
) -> MapGateResult {
    let parsed = claim
        .value_json
        .as_ref()
        .and_then(|raw| serde_json::from_str::<serde_json::Value>(raw).ok())
        .map(|v| to_json(&v));
    let confidence_text = format!("{}", f64::from_bits({
        let k = claim.confidence.key;
        (if k < 0 { k ^ 0x7FFF_FFFF_FFFF_FFFF } else { k }) as u64
    }));
    map_gate(MapGateContext {
        claim,
        payload: parsed.as_ref(),
        confidence_text: &confidence_text,
        from_place,
        to_place,
        existing_parent_links,
    })
}

#[test]
fn map_gate_rejects_missing_evidence() {
    let mut value = location_edge_value("黑风谷", "青云城", "north_of");
    value["evidence_span_ids"] = serde_json::Value::Array(vec![]);
    let claim = map_claim("location_edge", &value, "", 0.8);
    let from = entity("place_from", "place");
    let to = entity("place_to", "place");

    let result = gate(&claim, Some(&from), Some(&to), &[]);

    assert!(matches!(result, MapGateResult::Reject(reason) if reason.contains("evidence")));
}

#[test]
fn map_gate_rejects_self_edge() {
    let claim = map_claim("location_edge", &location_edge_value("青云城", "青云城", "north_of"), "span1", 0.8);
    let place = entity("same_place", "place");

    let result = gate(&claim, Some(&place), Some(&place), &[]);

    assert!(matches!(result, MapGateResult::Reject(reason) if reason.contains("self")));
}

#[test]
fn map_gate_rejects_invalid_edge_type() {
    let claim = map_claim("location_edge", &location_edge_value("黑风谷", "青云城", "temporary_visit"), "span1", 0.8);
    let from = entity("place_from", "place");
    let to = entity("place_to", "place");

    let result = gate(&claim, Some(&from), Some(&to), &[]);

    assert!(matches!(result, MapGateResult::Reject(reason) if reason.contains("edge_type")));
}

#[test]
fn map_gate_rejects_character_movement() {
    let mut value = location_edge_value("张三", "青云城", "route_to");
    value["is_topological_hint"] = serde_json::Value::Bool(false);
    value["subject_mention"] = s("张三");
    let claim = map_claim("location_edge", &value, "span1", 0.8);
    let from = entity("char1", "character");
    let to = entity("place_to", "place");

    let result = gate(&claim, Some(&from), Some(&to), &[]);

    assert!(matches!(result, MapGateResult::Reject(reason) if reason.contains("movement") || reason.contains("non-map")));
}

#[test]
fn map_gate_rejects_knowledge_summary() {
    let mut value = location_edge_value("北境", "东域", "near");
    value["category"] = s("geography");
    value["topic"] = s("北境地理");
    value["assertion_text"] = s("北境常年冰封。");
    let claim = map_claim("location_edge", &value, "span1", 0.8);
    let from = entity("place_from", "place");
    let to = entity("place_to", "place");

    let result = gate(&claim, Some(&from), Some(&to), &[]);

    assert!(matches!(result, MapGateResult::Reject(reason) if reason.contains("knowledge")));
}

#[test]
fn map_gate_rejects_immediate_hierarchy_cycle() {
    let claim = map_claim("location_edge", &location_edge_value("青云城", "东域", "contains"), "span1", 0.8);
    let city = entity("city", "place");
    let region = entity("region", "place");
    let existing = vec![("city".to_string(), "region".to_string())];

    let result = gate(&claim, Some(&city), Some(&region), &existing);

    assert!(matches!(result, MapGateResult::Reject(reason) if reason.contains("cycle")));
}

#[test]
fn map_gate_passes_valid_map_edge() {
    let claim = map_claim("location_edge", &location_edge_value("黑风谷", "青云城", "north_of"), "span1", 0.8);
    let from = entity("place_from", "place");
    let to = entity("place_to", "place");

    let result = gate(&claim, Some(&from), Some(&to), &[]);

    assert_eq!(result, MapGateResult::Pass);
}

#[test]
fn map_gate_rejects_non_place_endpoint() {
    let claim = map_claim("location_edge", &location_edge_value("青云门", "青云城", "near"), "span1", 0.8);
    let organization = entity("org1", "organization");
    let place = entity("place_to", "place");

    let result = gate(&claim, Some(&organization), Some(&place), &[]);

    assert!(matches!(result, MapGateResult::Reject(reason) if reason.contains("place")));
}

#[test]
fn map_gate_uncertain_when_one_side_unresolved() {
    let claim = map_claim("location_edge", &location_edge_value("黑风谷", "青云城", "north_of"), "span1", 0.8);
    let to = entity("place_to", "place");

    let result = gate(&claim, None, Some(&to), &[]);

    assert!(matches!(result, MapGateResult::Uncertain(reason) if reason.contains("unresolved")));
}

#[test]
fn map_gate_uncertain_when_confidence_is_weak() {
    let claim = map_claim("location_edge", &location_edge_value("黑风谷", "青云城", "north_of"), "span1", 0.35);
    let from = entity("place_from", "place");
    let to = entity("place_to", "place");

    let result = gate(&claim, Some(&from), Some(&to), &[]);

    assert!(matches!(result, MapGateResult::Uncertain(reason) if reason.contains("confidence")));
}

#[test]
fn map_gate_confidence_messages_print_the_value() {
    let from = entity("place_from", "place");
    let to = entity("place_to", "place");
    let weak = map_claim("location_edge", &location_edge_value("黑风谷", "青云城", "north_of"), "span1", 0.35);
    assert_eq!(gate(&weak, Some(&from), Some(&to), &[]), MapGateResult::Uncertain("confidence 0.35 is weak".to_string()));
    let low = map_claim("location_edge", &location_edge_value("黑风谷", "青云城", "north_of"), "span1", 0.1);
    assert_eq!(gate(&low, Some(&from), Some(&to), &[]), MapGateResult::Reject("confidence 0.1 is extremely low".to_string()));
}

#[test]
fn map_gate_both_unresolved_is_rejected() {
    let claim = map_claim("location_edge", &location_edge_value("黑风谷", "青云城", "north_of"), "span1", 0.8);
    assert_eq!(gate(&claim, None, None, &[]), MapGateResult::Reject("both map endpoints are unresolved".to_string()));
}

#[test]
fn map_gate_longer_hierarchy_cycle_is_rejected() {
    let claim = map_claim("location_introduction", &location_edge_value("东域", "山门", "contains"), "span1", 0.8);
    let region = entity("region", "place");
    let gate_place = entity("gate", "place");
    let existing = vec![
        ("region".to_string(), "world".to_string()),
        ("world".to_string(), "gate".to_string()),
    ];
    let result = gate(&claim, Some(&region), Some(&gate_place), &existing);
    assert_eq!(result, MapGateResult::Reject("contains hierarchy would create cycle".to_string()));
}

#[test]
fn map_gate_unsupported_claim_type() {
    let claim = map_claim("alias", &location_edge_value("黑风谷", "青云城", "north_of"), "span1", 0.8);
    assert_eq!(
        gate(&claim, None, None, &[]),
        MapGateResult::Reject("unsupported map claim_type: alias".to_string())
    );
}

// --- identity structural gate ---

fn identity_claim(subject_entity_id: Option<&str>, object_entity_id: Option<&str>, primary: &str) -> ClaimRecord {
    let value = obj(vec![
        ("identity_kind", s("same_identity")),
        ("reveal_type", s("disguise")),
        ("reason_hint", s("摘下面具")),
    ]);
    let mut claim = claim_with("identity_reveal", &value, Some("摘下面具".to_string()), primary, 0.95);
    claim.id = "claim-1".to_string();
    claim.book_id = "b1".to_string();
    claim.subject_mention = Some("黑衣人".to_string());
    claim.object_mention = Some("张三".to_string());
    claim.subject_entity_id = subject_entity_id.map(str::to_string);
    claim.object_entity_id = object_entity_id.map(str::to_string);
    claim.predicate = "identity reveal".to_string();
    claim.ai_run_id = "run-1".to_string();
    claim
}

fn character(id: &str, name: &str, importance: f64) -> EntityRecord {
    let mut e = entity(id, "character");
    e.book_id = "b1".to_string();
    e.canonical_name = name.to_string();
    e.display_name = name.to_string();
    e.importance_score = score(importance);
    e
}

#[test]
fn structural_gate_rejects_active_not_same_identity_block() {
    let entity_a = character("char-a", "黑衣人", 0.7);
    let entity_b = character("char-b", "张三", 0.9);
    let claim = identity_claim(Some(&entity_a.id), Some(&entity_b.id), "span-1");
    let result = identity_gate(&claim, Some(&entity_a), Some(&entity_b), true);
    assert_eq!(
        result,
        IdentityGateResult::Reject("active not_same_identity link already blocks this pair".to_string())
    );
}

#[test]
fn structural_gate_passes_character_pair_with_evidence() {
    let entity_a = character("char-a", "黑衣人", 0.7);
    let entity_b = character("char-b", "张三", 0.9);
    let claim = identity_claim(Some(&entity_a.id), Some(&entity_b.id), "span-1");
    let result = identity_gate(&claim, Some(&entity_a), Some(&entity_b), false);
    assert_eq!(result, IdentityGateResult::Pass);
}

#[test]
fn identity_gate_self_reference_rejected() {
    let entity_a = character("char-a", "黑衣人", 0.7);
    let claim = identity_claim(Some("char-a"), Some("char-a"), "span-1");
    let result = identity_gate(&claim, Some(&entity_a), Some(&entity_a), false);
    assert_eq!(result, IdentityGateResult::Reject("identity pair is self-referential".to_string()));
}

#[test]
fn identity_judges_answer_as_configured() {
    let claim = ClaimRecord {
        id: "c1".to_string(),
        book_id: "b1".to_string(),
        chapter_index: 1,
        claim_type: "identity_reveal".to_string(),
        subject_mention: None,
        object_mention: None,
        subject_entity_id: None,
        object_entity_id: None,
        predicate: "p".to_string(),
        value_json: None,
        value_text: None,
        primary_source_span_id: "span1".to_string(),
        ai_run_id: "run1".to_string(),
        confidence: score(0.5),
        status: "proposed".to_string(),
        risk_level: "high".to_string(),
        supersedes_claim_id: None,
        created_at: "now".to_string(),
        updated_at: "now".to_string(),
    };
    let default = DefaultIdentityJudge::new().judge(&claim).unwrap();
    assert_eq!(default.decision, IdentityJudgeDecision::Uncertain);
    assert_eq!(default.link_type, "possible_same_identity");
    assert_eq!(default.reason_code, "default_identity_judge");
    assert_eq!(default.confidence, score(0.0));
    let mock = MockIdentityJudge::new(default.clone());
    assert_eq!(mock.judge(&claim).unwrap(), default);
}

#[test]
fn mock_map_judge_returns_configured_output() {
    let output = MapConflictJudgeOutput {
        decision: MapConflictDecision::Accept,
        normalized_edge_type: Some("north_of".to_string()),
        normalized_direction_hint: None,
        normalized_distance_hint: None,
        conflict_type: None,
        reason_code: "clear".to_string(),
        confidence: score(0.9),
        explanation_for_log: "why".to_string(),
    };
    let judge = MockMapConflictJudge::new(output.clone());
    assert_eq!(judge.judge(&map_input()).unwrap(), output);
}

#[test]
fn knowledge_judge_input_carries_claim_topic_and_primary_evidence() {
    let claim = make_claim(&valid_value_json(), "span-b");
    let mut topic = resolved_topic();
    topic.candidates.push(candidate("card1", "cultivation-realms", "Cultivation Realms", TopicCandidateMatch::ExactKey, 0.9, 3));
    let mut a = span("span-a");
    a.text_excerpt = "first excerpt".to_string();
    let mut b = span("span-b");
    b.text_excerpt = "primary excerpt".to_string();
    let existing = vec![KnowledgeJudgeAssertionInput {
        assertion_id: "as1".to_string(),
        card_id: "card1".to_string(),
        assertion_text: "Realms exist.".to_string(),
        status: "active".to_string(),
        chapter_index: 2,
    }];
    let input = knowledge_judge_input(
        "book1",
        4,
        &claim,
        "power_system",
        "Cultivation has stable realm tiers.",
        Some("fact".to_string()),
        &topic,
        existing,
        &[a, b],
    );
    assert_eq!(input.book_id, "book1");
    assert_eq!(input.chapter_index, 4);
    assert_eq!(input.claim_id, "claim1");
    assert_eq!(input.category, "power_system");
    assert_eq!(input.status_hint.as_deref(), Some("fact"));
    assert_eq!(input.proposed_topic.topic_key, "cultivation-realms");
    assert_eq!(input.candidate_cards.len(), 1);
    assert_eq!(input.candidate_cards[0].card_id, "card1");
    assert_eq!(input.existing_assertions.len(), 1);
    assert_eq!(input.evidence_spans, vec!["primary excerpt".to_string()]);
}

#[test]
fn identity_repair_closes_a_parsable_object_and_refuses_the_rest() {
    assert_eq!(reader_v4::identity_judge::try_repair_json("  {\"a\":1,  "), Ok("{\"a\":1}".to_string()));
    assert_eq!(reader_v4::identity_judge::try_repair_json("{\"a\":1}"), Ok("{\"a\":1}".to_string()));
    assert_eq!(reader_v4::identity_judge::try_repair_json("[1,"), Err("无法修复 JSON".to_string()));
}

#[test]
fn judge_confidence_out_of_range_is_reported_with_its_value() {
    let mut output = valid_judge_output("add_new", "create_new_card");
    output.confidence = score(1.5);
    assert_eq!(
        validate_judge_output_for_context(&output, 0, "1.5"),
        Err("confidence out of range: 1.5".to_string())
    );
}
