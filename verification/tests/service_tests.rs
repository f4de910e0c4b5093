use reader_v4::claim_writer::{plan_claim, source_span_roles, ClaimPlan};
use reader_v4::context_builder::{
    assemble_context, character_states_context, entities_context, entity_line, previous_chapter, schema_brief,
};
use reader_v4::correction::{
    ensure_allowed, target_lookup, validate_command, validate_compatibility, validate_correction_type,
    validate_manual_override_rule, validate_source, validate_target_type, CorrectionCommand, TargetLookup,
};
use reader_v4::correction_applier::{
    already_applied, apply_outcome, plan_correction, stored_status, CorrectionAction, CorrectionApplyStatus,
};
use reader_v4::extractor::{Observation, RiskLevel};
use reader_v4::json::{get_bool, get_str, JsonNumber, JsonValue};
use reader_v4::knowledge_projection::{
    build_category_summaries, card_not_found, card_scope_id, category_scope_id, check_card_visible,
    group_assertions_by_status, overview_view, KnowledgeAssertionView, KnowledgeCardListItem,
};
use reader_v4::map_conflict_judge::{remove_trailing_commas_before_closers, try_repair_json};
use reader_v4::model_request::{api_key_header, model_error_message, request_body, request_path, ApiKeyHeader, ModelApi};
use reader_v4::score::Score;
use reader_v4::text::{i64_to_string, join_strings};

fn score(x: f64) -> Score {
    let x = if x == 0.0 { 0.0 } else { x };
    let bits = x.to_bits() as i64;
    let key = if bits < 0 { bits ^ 0x7FFF_FFFF_FFFF_FFFF } else { bits };
    Score { key }
}

fn command(target_type: &str, correction_type: &str, sourced: bool) -> CorrectionCommand {
    CorrectionCommand {
        book_id: "b1".to_string(),
        target_type: target_type.to_string(),
        target_id: "c1".to_string(),
        correction_type: correction_type.to_string(),
        correction_json: "{}".to_string(),
        source: "user".to_string(),
        source_claim_id: if sourced { Some("c1".to_string()) } else { None },
        source_span_id: if sourced { Some("span1".to_string()) } else { None },
        created_by: "tester".to_string(),
    }
}

#[test]
fn correction_command_rejects_unknown_target_and_incompatible_type() {
    assert_eq!(
        validate_command(&command("book", "reject_claim", true)),
        Err("invalid correction target_type: book".to_string())
    );
    assert_eq!(
        validate_command(&command("claim", "deactivate_relationship", true)),
        Err("correction_type is not compatible with target_type: deactivate_relationship".to_string())
    );
    assert_eq!(validate_command(&command("claim", "accept_quarantined_claim", true)), Ok(()));
}

#[test]
fn correction_positive_fact_needs_source_but_deactivation_does_not() {
    assert_eq!(
        validate_command(&command("claim", "accept_quarantined_claim", false)),
        Err("source-backed correction required for positive canonical fact".to_string())
    );
    assert_eq!(validate_command(&command("relationship", "deactivate_relationship", false)), Ok(()));
    let mut span_only = command("claim", "accept_quarantined_claim", false);
    span_only.source_span_id = Some("span1".to_string());
    assert_eq!(validate_manual_override_rule(&span_only), Ok(()));
}

#[test]
fn correction_single_field_checks() {
    assert_eq!(validate_target_type("place_edge"), Ok(()));
    assert_eq!(validate_target_type("chapter"), Err("invalid correction target_type: chapter".to_string()));
    assert_eq!(validate_correction_type("rebuild_projection"), Ok(()));
    assert_eq!(validate_correction_type("delete_book"), Err("invalid correction_type: delete_book".to_string()));
    assert_eq!(validate_source("audit"), Ok(()));
    assert_eq!(validate_source("robot"), Err("invalid correction source: robot".to_string()));
    assert_eq!(validate_compatibility("place_edge", "mark_place_edge_conflict"), Ok(()));
    assert_eq!(validate_compatibility("unknown", "reprocess_scope"), Err("invalid correction target_type".to_string()));
    assert_eq!(ensure_allowed("b", &["a", "b"], "bad"), Ok(()));
    assert_eq!(ensure_allowed("c", &["a", "b"], "bad"), Err("bad: c".to_string()));
}

#[test]
fn correction_target_lookup_names_table_and_message() {
    assert_eq!(target_lookup("claim"), TargetLookup::Claim);
    assert_eq!(
        target_lookup("place"),
        TargetLookup::Row { table: "entities".to_string(), message: "target entity not found".to_string() }
    );
    assert_eq!(
        target_lookup("place_edge"),
        TargetLookup::Row { table: "place_edges".to_string(), message: "target place edge not found".to_string() }
    );
    assert_eq!(target_lookup("projection_cache"), TargetLookup::Nothing);
}

#[test]
fn correction_plan_for_each_supported_write() {
    let p = plan_correction("reject_claim", "c1", "b1").unwrap();
    assert!(matches!(p.action, CorrectionAction::RejectClaim { ref claim_id } if claim_id == "c1"));
    assert_eq!(p.after_json, "{\"claimId\":\"c1\",\"status\":\"rejected\"}");

    let p = plan_correction("deactivate_relationship", "rel1", "b1").unwrap();
    assert!(matches!(
        p.action,
        CorrectionAction::DeactivateRelationship { ref book_id, ref relationship_id }
            if book_id == "b1" && relationship_id == "rel1"
    ));
    assert_eq!(p.after_json, "{\"relationshipId\":\"rel1\",\"status\":\"inactive\"}");

    let p = plan_correction("mark_knowledge_assertion_false", "a1", "b1").unwrap();
    assert_eq!(p.after_json, "{\"assertionId\":\"a1\",\"status\":\"false_in_world\"}");

    let p = plan_correction("deactivate_place_edge", "edge1", "b1").unwrap();
    assert!(matches!(p.action, CorrectionAction::DeprecatePlaceEdge { ref edge_id, .. } if edge_id == "edge1"));
    assert_eq!(p.after_json, "{\"placeEdgeId\":\"edge1\",\"status\":\"deprecated\"}");

    let p = plan_correction("rebuild_projection", "cache", "b1").unwrap();
    assert_eq!(p.after_json, "{\"bookId\":\"b1\",\"projectionCache\":\"invalidated\"}");

    let p = plan_correction("reclassify_claim", "c1", "b1").unwrap();
    assert!(matches!(p.action, CorrectionAction::WorkflowOnly));
    assert_eq!(p.after_json, "{\"claimId\":\"c1\",\"status\":\"workflow-only\"}");
}

#[test]
fn correction_plan_refusals() {
    assert_eq!(
        plan_correction("accept_quarantined_claim", "c1", "b1").unwrap_err(),
        "positive canonical correction requires domain reducer implementation"
    );
    assert_eq!(
        plan_correction("reprocess_scope", "c1", "b1").unwrap_err(),
        "reprocess corrections must be routed through reprocess job service"
    );
    assert_eq!(
        plan_correction("split_required", "e1", "b1").unwrap_err(),
        "identity correction apply is handled by identity reducer in a later route"
    );
    assert_eq!(
        plan_correction("mark_place_edge_conflict", "edge1", "b1").unwrap_err(),
        "mark_place_edge_conflict requires source claim context and map conflict route"
    );
    assert_eq!(plan_correction("teleport", "x", "b1").unwrap_err(), "unsupported correction_type: teleport");
}

#[test]
fn correction_apply_answers() {
    let again = already_applied("corr1", "applied").unwrap();
    assert_eq!(again.correction_id, "corr1");
    assert_eq!(again.status, CorrectionApplyStatus::AlreadyApplied);
    assert_eq!(again.message.as_deref(), Some("correction already applied"));
    assert!(already_applied("corr1", "proposed").is_none());

    let ok = apply_outcome("corr1", Ok("{}".to_string()));
    assert_eq!(ok.status, CorrectionApplyStatus::Applied);
    assert!(ok.message.is_none());
    let failed = apply_outcome("corr2", Err("boom".to_string()));
    assert_eq!(failed.correction_id, "corr2");
    assert_eq!(failed.status, CorrectionApplyStatus::Failed);
    assert_eq!(failed.message.as_deref(), Some("boom"));
}

fn property(dimension: &str, value: &str, spans: &[&str], confidence: f64) -> Observation {
    Observation::PropertyUpdate {
        subject_mention: "张三".to_string(),
        dimension_key: dimension.to_string(),
        value_text: Some(value.to_string()),
        value_json: None,
        evidence_span_ids: spans.iter().map(|s| s.to_string()).collect(),
        confidence: score(confidence),
    }
}

#[test]
fn claim_plan_summary_is_not_a_claim() {
    let obs = Observation::Summary {
        summary: "张三突破到筑基期".to_string(),
        key_points: vec!["突破".to_string()],
        has_important_changes: true,
    };
    match plan_claim(obs, RiskLevel::Low) {
        ClaimPlan::Summary { summary, key_points } => {
            assert_eq!(summary, "张三突破到筑基期");
            assert_eq!(key_points, vec!["突破".to_string()]);
        }
        other => panic!("expected summary, got {other:?}"),
    }
}

#[test]
fn claim_plan_low_risk_property_is_proposed() {
    match plan_claim(property("realm", "筑基期", &["span1"], 0.9), RiskLevel::Low) {
        ClaimPlan::Claim(d) => {
            assert_eq!(d.status, "proposed");
            assert_eq!(d.claim_type, "property_update");
            assert_eq!(d.risk_level, "low");
            assert_eq!(d.subject_mention.as_deref(), Some("张三"));
            assert_eq!(d.primary_source_span_id, "span1");
            assert_eq!(d.confidence, score(0.9));
        }
        other => panic!("expected claim, got {other:?}"),
    }
}

#[test]
fn claim_plan_high_risk_death_quarantined_and_other_uncertain() {
    match plan_claim(property("life_status", "死亡", &["span1"], 0.95), RiskLevel::High) {
        ClaimPlan::Claim(d) => assert_eq!(d.status, "quarantined"),
        other => panic!("expected claim, got {other:?}"),
    }
    match plan_claim(property("affiliation", "魔道", &["span1"], 0.7), RiskLevel::High) {
        ClaimPlan::Claim(d) => assert_eq!(d.status, "uncertain"),
        other => panic!("expected claim, got {other:?}"),
    }
}

#[test]
fn reported_death_is_classified_high_and_quarantined() {
    let obs = property("life_status", "已经死亡", &["span1"], 0.95);
    let risk = reader_v4::extractor::classify_risk(&obs);
    assert_eq!(risk, RiskLevel::High);
    match plan_claim(obs, risk) {
        ClaimPlan::Claim(d) => {
            assert_eq!(d.status, "quarantined");
            assert_eq!(d.risk_level, "high");
        }
        other => panic!("expected claim, got {other:?}"),
    }
}

#[test]
fn claim_plan_keeps_span_roles() {
    match plan_claim(property("realm", "金丹期", &["span1", "span2"], 0.85), RiskLevel::Low) {
        ClaimPlan::Claim(d) => {
            assert_eq!(d.primary_source_span_id, "span1");
            assert_eq!(
                d.source_spans,
                vec![
                    ("span1".to_string(), "primary".to_string()),
                    ("span2".to_string(), "supporting".to_string())
                ]
            );
        }
        other => panic!("expected claim, got {other:?}"),
    }
    assert_eq!(
        source_span_roles(&["a".to_string(), "b".to_string(), "a".to_string()], "a"),
        vec![
            ("a".to_string(), "primary".to_string()),
            ("b".to_string(), "supporting".to_string()),
            ("a".to_string(), "primary".to_string())
        ]
    );
}

#[test]
fn claim_plan_minor_event_and_entity_introduction() {
    let event = Observation::MinorEvent {
        description: "张三和李四切磋".to_string(),
        involved_mentions: vec!["张三".to_string(), "李四".to_string()],
        evidence_span_ids: vec!["span1".to_string()],
        confidence: score(0.8),
    };
    match plan_claim(event, RiskLevel::Low) {
        ClaimPlan::Claim(d) => {
            assert_eq!(d.status, "proposed");
            assert_eq!(d.claim_type, "minor_event");
        }
        other => panic!("expected claim, got {other:?}"),
    }
    let intro = Observation::EntityIntroduction {
        subject_mention: "一个年轻人".to_string(),
        entity_type: "character".to_string(),
        aliases: vec!["小张".to_string()],
        short_summary: "新出场的角色".to_string(),
        evidence_span_ids: vec!["span1".to_string()],
        confidence: score(0.85),
    };
    match plan_claim(intro, RiskLevel::Low) {
        ClaimPlan::Claim(d) => {
            assert_eq!(d.status, "proposed");
            assert_eq!(d.claim_type, "entity_introduction");
            assert!(d.value_text.is_some());
        }
        other => panic!("expected claim, got {other:?}"),
    }
}

fn relationship(hint: &str, group: &str, label: &str, directionality: &str) -> Observation {
    Observation::RelationshipUpdate {
        subject_mention: "张三".to_string(),
        object_mention: "李四".to_string(),
        relation_hint: hint.to_string(),
        relation_group: group.to_string(),
        relation_label: label.to_string(),
        directionality: directionality.to_string(),
        evidence_span_ids: vec!["span1".to_string()],
        confidence: score(0.85),
        importance_hint: score(0.7),
        is_long_term_or_significant_hint: true,
    }
}

#[test]
fn claim_plan_relationship_is_proposed_with_value_json() {
    match plan_claim(relationship("宿敌", "rivalry", "对手", "undirected"), RiskLevel::High) {
        ClaimPlan::Claim(d) => {
            assert_eq!(d.status, "proposed");
            assert_eq!(d.claim_type, "relationship_update");
            assert_eq!(d.object_mention.as_deref(), Some("李四"));
            let v = d.value_json.expect("value_json");
            assert_eq!(get_str(&v, "relation_hint").map(|s| s.as_str()), Some("宿敌"));
            assert_eq!(get_str(&v, "relation_group").map(|s| s.as_str()), Some("rivalry"));
            assert_eq!(get_str(&v, "relation_label").map(|s| s.as_str()), Some("对手"));
            assert_eq!(get_str(&v, "directionality").map(|s| s.as_str()), Some("undirected"));
            assert_eq!(get_bool(&v, "is_long_term_or_significant_hint"), Some(true));
            match v.get("importance_hint") {
                Some(JsonValue::Number(n)) => assert_eq!(n.value, score(0.7)),
                other => panic!("expected number, got {other:?}"),
            }
        }
        other => panic!("expected claim, got {other:?}"),
    }
}

#[test]
fn claim_plan_identity_reveal_is_proposed_with_all_spans() {
    let obs = Observation::IdentityReveal {
        revealed_mention: "黑衣人".to_string(),
        canonical_mention: "张三".to_string(),
        reveal_type: "disguise".to_string(),
        reason_hint: Some("摘下面具".to_string()),
        evidence_span_ids: vec!["span1".to_string(), "span2".to_string()],
        confidence: score(0.95),
    };
    match plan_claim(obs, RiskLevel::High) {
        ClaimPlan::Claim(d) => {
            assert_eq!(d.status, "proposed");
            assert_eq!(d.claim_type, "identity_reveal");
            assert_eq!(d.source_spans.len(), 2);
            assert_eq!(d.object_mention.as_deref(), Some("张三"));
        }
        other => panic!("expected claim, got {other:?}"),
    }
}

fn card(id: &str, category: &str) -> KnowledgeCardListItem {
    KnowledgeCardListItem {
        id: id.to_string(),
        category: category.to_string(),
        topic_key: id.to_string(),
        topic_display: id.to_string(),
        current_summary: None,
        confidence: score(0.8),
        importance_score: score(0.5),
        first_seen_chapter: 1,
        last_updated_chapter: 2,
        assertion_count: 1,
    }
}

#[test]
fn category_summaries_are_sorted_with_counts() {
    let items = vec![card("a", "magic"), card("b", "geography"), card("c", "magic"), card("d", "history")];
    let summaries = build_category_summaries(&items);
    let got: Vec<(String, usize)> = summaries.iter().map(|s| (s.category.clone(), s.count)).collect();
    assert_eq!(
        got,
        vec![("geography".to_string(), 1), ("history".to_string(), 1), ("magic".to_string(), 2)]
    );
    let overview = overview_view(items);
    assert_eq!(overview.total, 4);
    assert_eq!(overview.categories.iter().map(|c| c.count).sum::<usize>(), overview.total);
    assert_eq!(overview.categories.len(), 3);
    assert!(build_category_summaries(&[]).is_empty());
}

fn assertion(id: &str, status: &str) -> KnowledgeAssertionView {
    KnowledgeAssertionView {
        id: id.to_string(),
        assertion_text: id.to_string(),
        status: status.to_string(),
        confidence: score(0.8),
        importance_score: score(0.5),
        chapter_index: 1,
        referenced_entities: Vec::new(),
    }
}

#[test]
fn assertions_grouped_by_status_in_first_seen_order() {
    let groups = group_assertions_by_status(vec![
        assertion("a1", "active"),
        assertion("a2", "rumor"),
        assertion("a3", "active"),
    ]);
    assert_eq!(groups.len(), 2);
    assert_eq!(groups[0].0, "active");
    assert_eq!(groups[0].1.iter().map(|a| a.id.clone()).collect::<Vec<_>>(), vec!["a1", "a3"]);
    assert_eq!(groups[1].0, "rumor");
    assert_eq!(groups[1].1.len(), 1);
    assert_eq!(groups.iter().map(|g| g.1.len()).sum::<usize>(), 3);
}

#[test]
fn card_visibility_and_scopes() {
    assert_eq!(check_card_visible("b1", "active", "b1"), Ok(()));
    assert_eq!(check_card_visible("b2", "active", "b1"), Err("knowledge card not active in book".to_string()));
    assert_eq!(check_card_visible("b1", "merged", "b1"), Err("knowledge card not active in book".to_string()));
    assert_eq!(category_scope_id("magic"), "category:magic");
    assert_eq!(card_scope_id("card1"), "card:card1");
    assert_eq!(card_not_found("card1"), "knowledge card not found: card1");
}

#[test]
fn context_includes_parts_in_order() {
    let ctx = assemble_context(1, "张三走进了大殿", Some("上一章"), "- [character] 张三 — x", "");
    assert!(ctx.starts_with(schema_brief()));
    assert!(ctx.contains("## Current Segment Text\n张三走进了大殿"));
    assert!(ctx.contains("## Previous Chapter Summary\n上一章"));
    assert!(ctx.contains("## Known Entities\n- [character] 张三 — x"));
    assert!(!ctx.contains("## Active Character States"));
    let first = assemble_context(0, "第一章内容", Some("ignored"), "", "");
    assert!(!first.contains("## Previous Chapter Summary"));
    assert!(!first.contains("## Known Entities"));
    assert_eq!(previous_chapter(0), None);
    assert_eq!(previous_chapter(5), Some(4));
}

#[test]
fn context_entity_and_state_lines() {
    assert_eq!(
        entity_line("character", "张三", &vec!["小三".to_string(), "三哥".to_string()], Some("主角")),
        "- [character] 张三 (aliases: 小三, 三哥) — 主角"
    );
    assert_eq!(entity_line("place", "青云城", &vec![], None), "- [place] 青云城 — ");
    assert_eq!(entities_context(&vec!["a".to_string(), "b".to_string()]), "a\nb");
    let rows = vec![
        ("张三".to_string(), "境界".to_string(), "筑基期".to_string(), "realm".to_string(), 3),
        ("张三".to_string(), "门派".to_string(), "青云门".to_string(), "affiliation".to_string(), 2),
        ("李四".to_string(), "境界".to_string(), "金丹期".to_string(), "realm".to_string(), -1),
    ];
    assert_eq!(
        character_states_context(&rows),
        "**张三**:\n  - 境界: 筑基期 (ch.3)\n  - 门派: 青云门 (ch.2)\n**李四**:\n  - 境界: 金丹期 (ch.-1)"
    );
}

#[test]
fn decimal_and_join_helpers() {
    assert_eq!(i64_to_string(0), "0");
    assert_eq!(i64_to_string(1234), "1234");
    assert_eq!(i64_to_string(-56), "-56");
    assert_eq!(i64_to_string(i64::MIN), "-9223372036854775808");
    assert_eq!(join_strings(&vec![], ", "), "");
    assert_eq!(join_strings(&vec!["x".to_string(), "y".to_string()], ", "), "x, y");
}

#[test]
fn map_judge_repair_drops_trailing_commas_and_closes() {
    let malformed = "{\n  \"decision\":\"uncertain\",\n  \"confidence\":0.4,\n}";
    assert_eq!(
        try_repair_json(malformed),
        Ok("{\n  \"decision\":\"uncertain\",\n  \"confidence\":0.4\n}".to_string())
    );
    assert_eq!(try_repair_json("  {\"a\":[1,2,],\"b\":1  "), Ok("{\"a\":[1,2],\"b\":1}".to_string()));
    assert_eq!(remove_trailing_commas_before_closers("[1, 2 ,  ]"), "[1, 2   ]");
    assert_eq!(remove_trailing_commas_before_closers("a,b"), "a,b");
}

#[test]
fn json_number_helper_is_exact() {
    let n = JsonNumber { value: score(0.5), integer: None };
    assert_eq!(n.value, Score::half());
    assert_eq!(score(0.0), Score::zero());
}

fn member_of<'a>(v: &'a JsonValue, key: &str) -> &'a JsonValue {
    v.get(key).expect("member")
}

#[test]
fn request_bodies_follow_each_api() {
    let chat = request_body(ModelApi::ChatCompletions, "m1", "sys", "hello", false);
    assert_eq!(get_str(&chat, "model").map(|s| s.as_str()), Some("m1"));
    assert!(matches!(member_of(&chat, "temperature"), JsonValue::Number(n) if n.value == score(0.2) && n.integer.is_none()));
    assert_eq!(get_str(member_of(&chat, "response_format"), "type").map(|s| s.as_str()), Some("json_object"));
    assert!(chat.get("max_tokens").is_none());
    match member_of(&chat, "messages") {
        JsonValue::Array(ms) => {
            assert_eq!(ms.len(), 2);
            assert_eq!(get_str(&ms[0], "role").map(|s| s.as_str()), Some("system"));
            assert_eq!(get_str(&ms[1], "content").map(|s| s.as_str()), Some("hello"));
        }
        other => panic!("expected messages, got {other:?}"),
    }

    let extraction = request_body(ModelApi::ChatCompletions, "m1", "sys", "hello", true);
    assert!(matches!(member_of(&extraction, "max_tokens"), JsonValue::Number(n) if n.integer == Some(8192)));
    assert!(extraction.get("response_format").is_none());

    let anthropic = request_body(ModelApi::AnthropicMessages, "m2", "sys", "hi", false);
    assert!(matches!(member_of(&anthropic, "max_tokens"), JsonValue::Number(n) if n.integer == Some(4096)));
    assert_eq!(get_str(&anthropic, "system").map(|s| s.as_str()), Some("sys"));

    let responses = request_body(ModelApi::Responses, "m3", "sys", "hi", false);
    assert!(matches!(member_of(&responses, "stream"), JsonValue::Bool(false)));
    assert!(matches!(member_of(&responses, "max_output_tokens"), JsonValue::Number(n) if n.integer == Some(4096)));

    let gemini = request_body(ModelApi::GeminiGenerateContent, "m4", "sys", "hi", true);
    let config = member_of(&gemini, "generationConfig");
    assert!(matches!(member_of(config, "maxOutputTokens"), JsonValue::Number(n) if n.integer == Some(8192)));
    assert_eq!(get_str(config, "responseMimeType").map(|s| s.as_str()), Some("application/json"));
    assert!(gemini.get("model").is_none());
}

#[test]
fn extraction_prompt_lists_rules_and_spans() {
    let prompt = reader_v4::extractor::extraction_prompt("张三走进了大殿", "[\"span1\"]");
    assert!(prompt.starts_with("## Context\n张三走进了大殿\n\n## Task\n"));
    assert!(prompt.contains("dimension_key 必须是以下之一：identity, life_status, affiliation"));
    assert!(prompt.contains("relation_group 必须是以下之一：family, romance"));
    assert!(prompt.contains("knowledge category 必须是以下之一：power_system, faction_structure"));
    assert!(prompt.contains("evidence_span_ids 必须使用以下可用 span IDs：[\"span1\"]"));
    assert!(prompt.ends_with("输出严格 JSON 数组，每个元素包含 \"type\" 字段。"));
}

#[test]
fn request_path_key_and_error() {
    assert_eq!(request_path("  "), "/v1/chat/completions");
    assert_eq!(request_path(" /v1/messages "), "/v1/messages");
    assert_eq!(api_key_header(ModelApi::ChatCompletions, Some("api.example.com"), "  "), ApiKeyHeader::NoKey);
    assert_eq!(
        api_key_header(ModelApi::GeminiGenerateContent, Some("generativelanguage.googleapis.com"), " k1 "),
        ApiKeyHeader::GoogApiKey("k1".to_string())
    );
    assert_eq!(
        api_key_header(ModelApi::GeminiGenerateContent, Some("proxy.example.com"), "k1"),
        ApiKeyHeader::Bearer("k1".to_string())
    );
    assert_eq!(api_key_header(ModelApi::Responses, None, "k2"), ApiKeyHeader::Bearer("k2".to_string()));
    assert_eq!(model_error_message(503, "busy"), "AI model returned error 503: busy");
    assert_eq!(model_error_message(0, ""), "AI model returned error 0: ");
}

#[test]
fn minor_event_at_high_risk_is_still_proposed() {
    let event = Observation::MinorEvent {
        description: "张三和李四切磋".to_string(),
        involved_mentions: vec!["张三".to_string()],
        evidence_span_ids: vec!["span1".to_string()],
        confidence: score(0.8),
    };
    match plan_claim(event, RiskLevel::High) {
        ClaimPlan::Claim(d) => {
            assert_eq!(d.status, "proposed");
            assert_eq!(d.risk_level, "high");
        }
        other => panic!("expected claim, got {other:?}"),
    }
}

#[test]
fn property_predicate_gives_back_its_dimension() {
    let obs = Observation::PropertyUpdate {
        subject_mention: "张三".to_string(),
        dimension_key: "realm".to_string(),
        value_text: Some("金丹 = 大成".to_string()),
        value_json: None,
        evidence_span_ids: vec!["span1".to_string()],
        confidence: score(0.8),
    };
    let predicate = reader_v4::claim_writer::build_predicate(&obs);
    assert_eq!(predicate, "realm = 金丹 = 大成");
    assert_eq!(
        reader_v4::character_decision::extract_dimension_from_predicate(&predicate),
        Some("realm".to_string())
    );
}

#[test]
fn claim_write_result_counts_summaries_as_skipped() {
    let mut result = reader_v4::claim_writer::ClaimWriteResult::new();
    result.record_summary("本章摘要".to_string());
    assert_eq!(result.summaries_written, vec!["本章摘要".to_string()]);
    assert_eq!(result.skipped_count, 1);
    assert!(result.claims_created.is_empty());
}

#[test]
fn applied_correction_is_answered_already_applied_next_time() {
    let first = apply_outcome("c1", Ok("{}".to_string()));
    assert_eq!(first.status, CorrectionApplyStatus::Applied);
    let stored = stored_status(first.status);
    assert_eq!(stored, "applied");
    let second = already_applied("c1", stored).expect("answered");
    assert_eq!(second.status, CorrectionApplyStatus::AlreadyApplied);
    assert_eq!(stored_status(CorrectionApplyStatus::Failed), "failed");
    assert!(already_applied("c1", "failed").is_none());
}
