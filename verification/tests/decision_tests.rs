use reader_v4::character_decision::{
    classify_character_write_failure, extract_dimension_from_predicate, materialize_character_decision,
    CharacterDecision, CharacterNoWriteStatus, LedgerCharacterClaim,
};
use reader_v4::claim_lifecycle::{
    after_write, character_step, command_provenance_claim_id, quarantine_entry, transition_status, ClaimTransition,
    CharacterSegmentProcessResult, LifecycleStep,
};
use reader_v4::identity_decision::{materialize_identity_decision, IdentityDecision, LedgerIdentityClaim};
use reader_v4::identity_judge::{IdentityJudgeDecision, IdentityJudgeOutput};
use reader_v4::json::{JsonNumber, JsonValue};
use reader_v4::knowledge_decision::{materialize_knowledge_decision, KnowledgeDecision, LedgerKnowledgeClaim};
use reader_v4::knowledge_judge::{KnowledgeCardAction, KnowledgeJudgeDecision, KnowledgeJudgeOutput};
use reader_v4::map_conflict_judge::{MapConflictDecision, MapConflictJudgeOutput};
use reader_v4::place_decision::{
    materialize_place_decision, LedgerPlaceClaim, LedgerPlaceClaimKind, PlaceDecision, PlaceDecisionContext,
    PlaceGateDecision, PlaceNoWriteStatus, PlaceResolutionForDecision,
};
use reader_v4::records::ClaimRecord;
use reader_v4::score::Score;
use reader_v4::write_commands::{
    CharacterWriteCommand, IdentityWriteCommand, KnowledgeAssertionStatus, KnowledgeWriteCardAction,
    KnowledgeWriteDecision, PlaceWriteAction,
};

fn score(x: f64) -> Score {
    let x = if x == 0.0 { 0.0 } else { x };
    let bits = x.to_bits() as i64;
    let key = if bits < 0 { bits ^ 0x7FFF_FFFF_FFFF_FFFF } else { bits };
    Score { key }
}

fn to_json(v: &serde_json::Value) -> JsonValue {
    match v {
        serde_json::Value::Null => JsonValue::Null,
        serde_json::Value::Bool(b) => JsonValue::Bool(*b),
        serde_json::Value::Number(n) => JsonValue::Number(JsonNumber {
            value: score(n.as_f64().unwrap_or(0.0)),
            integer: n.as_i64(),
        }),
        serde_json::Value::String(s) => JsonValue::Str(s.clone()),
        serde_json::Value::Array(items) => JsonValue::Array(items.iter().map(to_json).collect()),
        serde_json::Value::Object(m) => {
            JsonValue::Object(m.iter().map(|(k, v)| (k.clone(), to_json(v))).collect())
        }
    }
}

/// What the application hands the decision layer for a claim's payload.
fn parsed(claim: &ClaimRecord) -> Result<JsonValue, String> {
    match &claim.value_json {
        Some(raw) => serde_json::from_str::<serde_json::Value>(raw).map(|v| to_json(&v)).map_err(|e| e.to_string()),
        None => Err(String::new()),
    }
}

fn json_text(raw: &str) -> String {
    serde_json::from_str::<serde_json::Value>(raw).unwrap().to_string()
}

// --- character ---

fn character_claim(
    claim_type: &str,
    subject_mention: Option<&str>,
    object_mention: Option<&str>,
    subject_entity_id: Option<&str>,
    predicate: &str,
    value_text: Option<&str>,
    value_json: Option<&str>,
) -> ClaimRecord {
    ClaimRecord {
        id: "claim-1".to_string(),
        book_id: "b1".to_string(),
        chapter_index: 7,
        claim_type: claim_type.to_string(),
        subject_mention: subject_mention.map(str::to_string),
        object_mention: object_mention.map(str::to_string),
        subject_entity_id: subject_entity_id.map(str::to_string),
        object_entity_id: None,
        predicate: predicate.to_string(),
        value_json: value_json.map(str::to_string),
        value_text: value_text.map(str::to_string),
        primary_source_span_id: "span-1".to_string(),
        ai_run_id: "run-1".to_string(),
        confidence: score(0.82),
        status: "proposed".to_string(),
        risk_level: "low".to_string(),
        supersedes_claim_id: None,
        created_at: "now".to_string(),
        updated_at: "now".to_string(),
    }
}

#[test]
fn character_materializer_turns_entity_ledger_claim_into_command() {
    let claim = character_claim(
        "entity_introduction",
        Some("沈清秋"),
        None,
        None,
        "ignored by command",
        Some("苍穹山清静峰峰主"),
        Some(
            r#"{
                    "entity_type":"character",
                    "short_summary":"苍穹山清静峰峰主",
                    "aliases":["沈垣","师尊"]
                }"#,
        ),
    );
    let original_value_json = claim.value_json.clone();
    let ledger_claim = LedgerCharacterClaim::from_claim(&claim, parsed(&claim)).unwrap();

    let decision = materialize_character_decision(ledger_claim).unwrap();

    match decision {
        CharacterDecision::Write(CharacterWriteCommand::IntroduceEntity {
            book_id,
            entity_type,
            canonical_name,
            display_name,
            short_summary,
            aliases,
            chapter_index,
            confidence,
            provenance,
        }) => {
            assert_eq!(book_id, "b1");
            assert_eq!(entity_type, "character");
            assert_eq!(canonical_name, "沈清秋");
            assert_eq!(display_name, "沈清秋");
            assert_eq!(short_summary.as_deref(), Some("苍穹山清静峰峰主"));
            assert_eq!(aliases, vec!["沈垣".to_string(), "师尊".to_string()]);
            assert_eq!(chapter_index, 7);
            assert_eq!(confidence, score(0.82));
            assert_eq!(provenance.claim_id, "claim-1");
            assert_eq!(provenance.evidence_span_ids, vec!["span-1".to_string()]);
        }
        other => panic!("expected character introduce command, got {other:?}"),
    }
    assert_eq!(claim.value_json, original_value_json);
}

#[test]
fn character_materializer_turns_alias_ledger_claim_into_command() {
    let claim = character_claim("alias", Some("沈清秋"), Some("师尊"), Some("char-1"), "misleading predicate", None, None);
    let ledger_claim = LedgerCharacterClaim::from_claim(&claim, parsed(&claim)).unwrap();

    let decision = materialize_character_decision(ledger_claim).unwrap();

    match decision {
        CharacterDecision::Write(CharacterWriteCommand::AddAlias {
            book_id,
            entity_id,
            alias,
            alias_type,
            chapter_index,
            confidence,
            provenance,
        }) => {
            assert_eq!(book_id, "b1");
            assert_eq!(entity_id, "char-1");
            assert_eq!(alias, "师尊");
            assert_eq!(alias_type, "ai_extracted");
            assert_eq!(chapter_index, 7);
            assert_eq!(confidence, score(0.82));
            assert_eq!(provenance.claim_id, "claim-1");
        }
        other => panic!("expected character alias command, got {other:?}"),
    }
}

#[test]
fn character_materializer_turns_property_ledger_claim_into_command() {
    let claim = character_claim(
        "property_update",
        Some("沈清秋"),
        None,
        Some("char-1"),
        "realm = 元婴",
        Some("元婴"),
        Some(r#"{"stage":"元婴","rank":4}"#),
    );
    let ledger_claim = LedgerCharacterClaim::from_claim(&claim, parsed(&claim)).unwrap();

    let decision = materialize_character_decision(ledger_claim).unwrap();

    match decision {
        CharacterDecision::Write(CharacterWriteCommand::UpdateProperty {
            book_id,
            entity_id,
            dimension_key,
            value_text,
            value_json,
            chapter_index,
            confidence,
            provenance,
        }) => {
            assert_eq!(book_id, "b1");
            assert_eq!(entity_id, "char-1");
            assert_eq!(dimension_key, "realm");
            assert_eq!(value_text.as_deref(), Some("元婴"));
            let value_json = value_json.unwrap();
            assert!(matches!(reader_v4::json::get_str(&value_json, "stage"), Some(s) if s == "元婴"));
            assert_eq!(chapter_index, 7);
            assert_eq!(confidence, score(0.82));
            assert_eq!(provenance.claim_id, "claim-1");
        }
        other => panic!("expected character property command, got {other:?}"),
    }
}

#[test]
fn character_non_proposed_claim_is_left_uncertain() {
    let mut claim = character_claim("alias", Some("沈清秋"), Some("师尊"), Some("char-1"), "p", None, None);
    claim.status = "accepted".to_string();
    let ledger_claim = LedgerCharacterClaim::from_claim(&claim, parsed(&claim)).unwrap();
    match materialize_character_decision(ledger_claim).unwrap() {
        CharacterDecision::NoWrite(n) => {
            assert_eq!(n.status, CharacterNoWriteStatus::Uncertain);
            assert_eq!(n.reason_code, "ledger_status_accepted");
        }
        other => panic!("expected no-write, got {other:?}"),
    }
}

#[test]
fn character_high_risk_death_is_quarantined_and_other_high_risk_uncertain() {
    let mut death = character_claim("property_update", Some("张三"), None, Some("c1"), "life_status = 死亡", Some("已死亡"), None);
    death.risk_level = "high".to_string();
    match materialize_character_decision(LedgerCharacterClaim::from_claim(&death, parsed(&death)).unwrap()).unwrap() {
        CharacterDecision::Quarantine(q) => assert_eq!(q.reason, "high risk critical character claim"),
        other => panic!("expected quarantine, got {other:?}"),
    }
    let mut affiliation = character_claim("property_update", Some("张三"), None, Some("c1"), "affiliation = 魔道", Some("魔道"), None);
    affiliation.risk_level = "high".to_string();
    match materialize_character_decision(LedgerCharacterClaim::from_claim(&affiliation, parsed(&affiliation)).unwrap()).unwrap() {
        CharacterDecision::NoWrite(n) => assert_eq!(n.reason_code, "high_risk_character_claim"),
        other => panic!("expected no-write, got {other:?}"),
    }
}

#[test]
fn character_alias_without_entity_is_quarantined() {
    let claim = character_claim("alias", Some("沈清秋"), Some("师尊"), None, "p", None, None);
    match materialize_character_decision(LedgerCharacterClaim::from_claim(&claim, parsed(&claim)).unwrap()).unwrap() {
        CharacterDecision::Quarantine(q) => {
            assert_eq!(q.reason, "character claim claim-1 missing resolved entity id for alias")
        }
        other => panic!("expected quarantine, got {other:?}"),
    }
}

#[test]
fn character_claim_of_other_domain_is_refused() {
    let claim = character_claim("knowledge_assertion", None, None, None, "p", None, None);
    let err = LedgerCharacterClaim::from_claim(&claim, parsed(&claim)).unwrap_err();
    assert_eq!(err, "claim claim-1 is not a character/profile claim: knowledge_assertion");
}

#[test]
fn character_failure_classification() {
    assert!(matches!(
        classify_character_write_failure("c".to_string(), "x missing resolved entity id y".to_string()),
        CharacterDecision::Quarantine(_)
    ));
    assert!(matches!(
        classify_character_write_failure("c".to_string(), "other failure".to_string()),
        CharacterDecision::Invalid(_)
    ));
}

#[test]
fn dimension_is_text_before_equals_trimmed() {
    assert_eq!(extract_dimension_from_predicate(" realm = 元婴"), Some("realm".to_string()));
    assert_eq!(extract_dimension_from_predicate("no equals here "), Some("no equals here".to_string()));
    assert_eq!(extract_dimension_from_predicate("a=b=c"), Some("a".to_string()));
}

// --- identity ---

fn identity_claim(value_json: Option<&str>) -> ClaimRecord {
    ClaimRecord {
        id: "claim-identity-1".to_string(),
        book_id: "b1".to_string(),
        chapter_index: 9,
        claim_type: "identity_reveal".to_string(),
        subject_mention: Some("黑衣人".to_string()),
        object_mention: Some("张三".to_string()),
        subject_entity_id: Some("char-shadow".to_string()),
        object_entity_id: Some("char-zhang".to_string()),
        predicate: "黑衣人 is revealed as 张三".to_string(),
        value_json: value_json.map(str::to_string),
        value_text: None,
        primary_source_span_id: "span-identity-1".to_string(),
        ai_run_id: "run-identity-1".to_string(),
        confidence: score(0.84),
        status: "proposed".to_string(),
        risk_level: "high".to_string(),
        supersedes_claim_id: None,
        created_at: "now".to_string(),
        updated_at: "now".to_string(),
    }
}

fn merge_output() -> IdentityJudgeOutput {
    IdentityJudgeOutput {
        decision: IdentityJudgeDecision::Merge,
        link_type: "same_identity".to_string(),
        survivor_hint: "entity_b".to_string(),
        confidence: score(0.91),
        reason_code: "explicit_reveal".to_string(),
        explanation_for_log: "same person".to_string(),
        property_conflicts: vec![],
        relationship_migration_hint: "safe".to_string(),
    }
}

#[test]
fn identity_materializer_keeps_judge_output_inside_decision_layer() {
    let claim = identity_claim(Some(
        r#"{
                "source_observation":"identity_reveal",
                "note":"ledger payload only"
            }"#,
    ));
    let original_value_json = claim.value_json.clone();
    let ledger_claim = LedgerIdentityClaim::from_claim(&claim).unwrap();

    let decision = materialize_identity_decision(ledger_claim, merge_output()).unwrap();

    match decision {
        IdentityDecision::Write(IdentityWriteCommand::Merge {
            book_id,
            entity_a_id,
            entity_b_id,
            link_type,
            survivor_hint,
            confidence,
            reason_code,
            provenance,
        }) => {
            assert_eq!(book_id, "b1");
            assert_eq!(entity_a_id, "char-shadow");
            assert_eq!(entity_b_id, "char-zhang");
            assert_eq!(link_type, "same_identity");
            assert_eq!(survivor_hint, "entity_b");
            assert_eq!(confidence, score(0.91));
            assert_eq!(reason_code, "explicit_reveal");
            assert_eq!(provenance.claim_id, "claim-identity-1");
            assert_eq!(provenance.evidence_span_ids, vec!["span-identity-1"]);
        }
        other => panic!("expected identity merge command, got {other:?}"),
    }
    assert_eq!(claim.value_json, original_value_json);
}

#[test]
fn identity_materializer_turns_link_decision_into_link_command() {
    let claim = identity_claim(None);
    let ledger_claim = LedgerIdentityClaim::from_claim(&claim).unwrap();
    let output = IdentityJudgeOutput {
        decision: IdentityJudgeDecision::NotSameIdentity,
        link_type: "not_same_identity".to_string(),
        survivor_hint: "unknown".to_string(),
        confidence: score(0.88),
        reason_code: "explicitly_distinct".to_string(),
        explanation_for_log: "two people".to_string(),
        property_conflicts: vec![],
        relationship_migration_hint: "unknown".to_string(),
    };

    let decision = materialize_identity_decision(ledger_claim, output).unwrap();

    match decision {
        IdentityDecision::Write(IdentityWriteCommand::Link {
            book_id,
            entity_a_id,
            entity_b_id,
            link_type,
            confidence,
            provenance,
        }) => {
            assert_eq!(book_id, "b1");
            assert_eq!(entity_a_id, "char-shadow");
            assert_eq!(entity_b_id, "char-zhang");
            assert_eq!(link_type, "not_same_identity");
            assert_eq!(confidence, score(0.88));
            assert_eq!(provenance.claim_id, "claim-identity-1");
        }
        other => panic!("expected identity link command, got {other:?}"),
    }
}

#[test]
fn identity_materializer_quarantines_write_without_resolved_pair() {
    let mut claim = identity_claim(None);
    claim.object_entity_id = None;
    let ledger_claim = LedgerIdentityClaim::from_claim(&claim).unwrap();

    let decision = materialize_identity_decision(ledger_claim, merge_output()).unwrap();

    match decision {
        IdentityDecision::Quarantine(quarantine) => {
            assert_eq!(quarantine.claim_id, "claim-identity-1");
            assert!(quarantine.reason.contains("entity_b"));
        }
        other => panic!("expected identity quarantine, got {other:?}"),
    }
}

#[test]
fn identity_inconsistent_merge_is_invalid() {
    let claim = identity_claim(None);
    let mut output = merge_output();
    output.link_type = "not_same_identity".to_string();
    match materialize_identity_decision(LedgerIdentityClaim::from_claim(&claim).unwrap(), output).unwrap() {
        IdentityDecision::Invalid(x) => assert_eq!(x.reason, "merge decision cannot use not_same_identity link_type"),
        other => panic!("expected invalid, got {other:?}"),
    }
}

#[test]
fn identity_reject_is_rejected_no_write() {
    let claim = identity_claim(None);
    let mut output = merge_output();
    output.decision = IdentityJudgeDecision::Reject;
    output.reason_code = "no_evidence".to_string();
    match materialize_identity_decision(LedgerIdentityClaim::from_claim(&claim).unwrap(), output).unwrap() {
        IdentityDecision::NoWrite(n) => assert_eq!(n.reason_code, "no_evidence"),
        other => panic!("expected no-write, got {other:?}"),
    }
}

// --- knowledge ---

fn knowledge_claim(value_json: Option<&str>) -> ClaimRecord {
    ClaimRecord {
        id: "claim-knowledge-1".to_string(),
        book_id: "b1".to_string(),
        chapter_index: 4,
        claim_type: "knowledge_assertion".to_string(),
        subject_mention: None,
        object_mention: None,
        subject_entity_id: None,
        object_entity_id: None,
        predicate: "knowledge".to_string(),
        value_json: value_json.map(str::to_string),
        value_text: Some("Cultivation has stable realm tiers.".to_string()),
        primary_source_span_id: "span-knowledge-1".to_string(),
        ai_run_id: "run-knowledge-1".to_string(),
        confidence: score(0.84),
        status: "proposed".to_string(),
        risk_level: "high".to_string(),
        supersedes_claim_id: None,
        created_at: "now".to_string(),
        updated_at: "now".to_string(),
    }
}

fn add_new_output() -> KnowledgeJudgeOutput {
    KnowledgeJudgeOutput {
        decision: KnowledgeJudgeDecision::AddNew,
        card_action: KnowledgeCardAction::CreateNewCard,
        target_card_id: None,
        affected_assertion_ids: Vec::new(),
        assertion_status: "active".to_string(),
        current_summary: Some("Cultivation realm summary".to_string()),
        confidence: score(0.91),
        reason_code: "test_add_new".to_string(),
        explanation_for_log: "new knowledge".to_string(),
    }
}

#[test]
fn knowledge_materializer_keeps_judge_output_inside_decision_layer() {
    let claim = knowledge_claim(Some(
        r#"{
                "category":"power_system",
                "raw_topic":"Cultivation Realms",
                "topic_display":"Cultivation Realms",
                "assertion_text":"Cultivation has stable realm tiers.",
                "importance_score":0.8,
                "referenced_entity_mentions":[],
                "status_hint":"fact"
            }"#,
    ));
    let original_value_json = claim.value_json.clone();
    let ledger_claim = LedgerKnowledgeClaim::from_claim(&claim, parsed(&claim)).unwrap();

    let decision = materialize_knowledge_decision(ledger_claim, add_new_output()).unwrap();

    match decision {
        KnowledgeDecision::Write(command) => {
            assert_eq!(command.category, "power_system");
            assert_eq!(command.topic_display, "Cultivation Realms");
            assert_eq!(command.card_action, KnowledgeWriteCardAction::CreateNewCard);
            assert_eq!(command.decision, KnowledgeWriteDecision::AddNew);
            assert_eq!(command.assertion_status, KnowledgeAssertionStatus::Active);
            assert_eq!(command.current_summary.as_deref(), Some("Cultivation realm summary"));
            assert_eq!(command.confidence, score(0.91));
            assert_eq!(command.provenance.claim_id, "claim-knowledge-1");
            assert_eq!(command.provenance.evidence_span_ids, vec!["span-knowledge-1"]);
        }
        other => panic!("expected knowledge write command, got {other:?}"),
    }
    assert_eq!(claim.value_json, original_value_json);
}

#[test]
fn knowledge_ledger_claim_refuses_judge_fields() {
    let claim = knowledge_claim(Some(r#"{"category":"history","topic_display":"t","assertion_text":"a","card_action":"x"}"#));
    let err = LedgerKnowledgeClaim::from_claim(&claim, parsed(&claim)).unwrap_err();
    assert_eq!(
        err,
        "knowledge claim claim-knowledge-1 contains judge field card_action; ledger payload must preserve source observation only"
    );
}

#[test]
fn knowledge_ledger_claim_reads_references_and_defaults() {
    let claim = knowledge_claim(Some(
        r#"{"category":"history","raw_topic":" 古战 ","referenced_entity_mentions":[{"resolved_entity_id":" e1 "},{"resolved_entity_id":"e2","role":"leader"},{"mention":"x"}]}"#,
    ));
    let ledger = LedgerKnowledgeClaim::from_claim(&claim, parsed(&claim)).unwrap();
    assert_eq!(ledger.topic_display, "古战");
    assert_eq!(ledger.assertion_text, "Cultivation has stable realm tiers.");
    assert_eq!(ledger.importance_score, score(0.5));
    let refs: Vec<(String, String)> =
        ledger.referenced_entities.iter().map(|r| (r.entity_id.clone(), r.role.clone())).collect();
    assert_eq!(refs, vec![("e1".to_string(), "related".to_string()), ("e2".to_string(), "leader".to_string())]);
}

#[test]
fn knowledge_unsupported_status_is_quarantined() {
    let claim = knowledge_claim(Some(r#"{"category":"history","topic_display":"t","assertion_text":"a"}"#));
    let mut output = add_new_output();
    output.assertion_status = "unsupported".to_string();
    match materialize_knowledge_decision(LedgerKnowledgeClaim::from_claim(&claim, parsed(&claim)).unwrap(), output).unwrap() {
        KnowledgeDecision::Quarantine(q) => assert_eq!(q.reason, "unsupported knowledge assertion status: unsupported"),
        other => panic!("expected quarantine, got {other:?}"),
    }
}

// --- place ---

fn location_edge_claim(value_json: &str) -> ClaimRecord {
    ClaimRecord {
        id: "claim-edge-1".to_string(),
        book_id: "book1".to_string(),
        chapter_index: 7,
        claim_type: "location_edge".to_string(),
        subject_mention: Some("青云城".to_string()),
        object_mention: Some("黑风谷".to_string()),
        subject_entity_id: None,
        object_entity_id: None,
        predicate: "青云城 north_of 黑风谷".to_string(),
        value_json: Some(json_text(value_json)),
        value_text: None,
        primary_source_span_id: "span1".to_string(),
        ai_run_id: "run1".to_string(),
        confidence: score(0.86),
        risk_level: "medium".to_string(),
        status: "proposed".to_string(),
        supersedes_claim_id: None,
        created_at: "now".to_string(),
        updated_at: "now".to_string(),
    }
}

fn edge_context(judge_output: MapConflictJudgeOutput) -> PlaceDecisionContext {
    PlaceDecisionContext {
        resolution: PlaceResolutionForDecision::Edge {
            from_place_id: "place-from".to_string(),
            to_place_id: "place-to".to_string(),
        },
        gate: PlaceGateDecision::Pass,
        judge_output: Some(judge_output),
    }
}

#[test]
fn place_ledger_claim_rejects_map_judge_fields() {
    let claim = location_edge_claim(
        r#"{"edge_type":"north_of","direction_hint":null,"distance_hint":null,"is_topological_hint":true,"evidence_span_ids":["span1"],"judge_decision":"accept"}"#,
    );

    let err = LedgerPlaceClaim::from_claim(&claim, parsed(&claim)).unwrap_err();

    assert!(err.contains("judge field judge_decision"));
}

#[test]
fn place_materializer_keeps_map_judge_output_inside_decision_layer() {
    let claim = location_edge_claim(
        r#"{"edge_type":"north_of","direction_hint":"北面","distance_hint":"三日路程","is_topological_hint":true,"evidence_span_ids":["span1"]}"#,
    );
    let ledger_claim = LedgerPlaceClaim::from_claim(&claim, parsed(&claim)).unwrap();
    let judge_output = MapConflictJudgeOutput {
        decision: MapConflictDecision::Accept,
        normalized_edge_type: Some("north_of".to_string()),
        normalized_direction_hint: Some("北面".to_string()),
        normalized_distance_hint: Some("三日路程".to_string()),
        conflict_type: None,
        reason_code: "accepted_topology".to_string(),
        confidence: score(0.91),
        explanation_for_log: "valid topology".to_string(),
    };

    let decision = materialize_place_decision(ledger_claim, edge_context(judge_output)).unwrap();

    let PlaceDecision::Write(command) = decision else {
        panic!("expected write decision");
    };
    let PlaceWriteAction::UpsertEdge(edge) = command.action else {
        panic!("expected edge command");
    };
    assert_eq!(command.provenance.claim_id, claim.id);
    assert_eq!(edge.from_place_id, "place-from");
    assert_eq!(edge.to_place_id, "place-to");
    assert_eq!(edge.edge_type, "north_of");
    assert_eq!(edge.confidence, score(0.91));
}

#[test]
fn place_materializer_turns_map_reject_into_no_write_rejected() {
    let claim = location_edge_claim(r#"{"edge_type":"north_of","is_topological_hint":true,"evidence_span_ids":["span1"]}"#);
    let ledger_claim = LedgerPlaceClaim::from_claim(&claim, parsed(&claim)).unwrap();
    let judge_output = MapConflictJudgeOutput {
        decision: MapConflictDecision::Reject,
        normalized_edge_type: None,
        normalized_direction_hint: None,
        normalized_distance_hint: None,
        conflict_type: None,
        reason_code: "not_topology".to_string(),
        confidence: score(0.8),
        explanation_for_log: "not a map fact".to_string(),
    };

    let decision = materialize_place_decision(ledger_claim, edge_context(judge_output)).unwrap();

    let PlaceDecision::NoWrite(no_write) = decision else {
        panic!("expected no-write rejected decision");
    };
    assert_eq!(no_write.status, PlaceNoWriteStatus::Rejected);
    assert_eq!(no_write.reason_code, "not_topology");
}

#[test]
fn place_materializer_records_conflict_without_raw_judge_payload() {
    let claim = location_edge_claim(r#"{"edge_type":"north_of","is_topological_hint":true,"evidence_span_ids":["span1"]}"#);
    let ledger_claim = LedgerPlaceClaim::from_claim(&claim, parsed(&claim)).unwrap();
    let judge_output = MapConflictJudgeOutput {
        decision: MapConflictDecision::Conflict,
        normalized_edge_type: Some("north_of".to_string()),
        normalized_direction_hint: Some("北面".to_string()),
        normalized_distance_hint: None,
        conflict_type: Some("duplicate_conflicting_direction".to_string()),
        reason_code: "opposite_direction".to_string(),
        confidence: score(0.77),
        explanation_for_log: "opposite edge already exists".to_string(),
    };

    let decision = materialize_place_decision(ledger_claim, edge_context(judge_output)).unwrap();

    let PlaceDecision::Write(command) = decision else {
        panic!("expected write decision");
    };
    let PlaceWriteAction::RecordConflict(conflict) = command.action else {
        panic!("expected conflict command");
    };
    assert_eq!(conflict.conflict_type, "duplicate_conflicting_direction");
    assert_eq!(conflict.reason_code, "opposite_direction");
}

#[test]
fn place_introduction_defaults() {
    let mut claim = location_edge_claim(r#"{"aliases":[" 青云古城 ",""],"map_visible_hint":"yes","map_visible":false}"#);
    claim.claim_type = "location_introduction".to_string();
    let ledger = LedgerPlaceClaim::from_claim(&claim, parsed(&claim)).unwrap();
    match ledger.kind {
        LedgerPlaceClaimKind::Introduction { place_type, aliases, scale_level, importance_score, map_visible, .. } => {
            assert_eq!(place_type, "unknown");
            assert_eq!(aliases, vec!["青云古城".to_string()]);
            assert_eq!(scale_level, 0);
            assert_eq!(importance_score, score(0.86));
            assert!(map_visible);
        }
        other => panic!("expected introduction, got {other:?}"),
    }
}

#[test]
fn place_gate_reject_is_rejected_no_write() {
    let claim = location_edge_claim(r#"{"edge_type":"north_of"}"#);
    let ledger = LedgerPlaceClaim::from_claim(&claim, parsed(&claim)).unwrap();
    let context = PlaceDecisionContext {
        resolution: PlaceResolutionForDecision::Edge { from_place_id: "a".to_string(), to_place_id: "b".to_string() },
        gate: PlaceGateDecision::Reject("self edge is not valid map topology".to_string()),
        judge_output: None,
    };
    match materialize_place_decision(ledger, context).unwrap() {
        PlaceDecision::NoWrite(n) => {
            assert_eq!(n.status, PlaceNoWriteStatus::Rejected);
            assert_eq!(n.reason_code, "self edge is not valid map topology");
        }
        other => panic!("expected no-write, got {other:?}"),
    }
}

#[test]
fn place_edge_without_judge_is_quarantined() {
    let claim = location_edge_claim(r#"{"edge_type":"north_of"}"#);
    let ledger = LedgerPlaceClaim::from_claim(&claim, parsed(&claim)).unwrap();
    let context = PlaceDecisionContext {
        resolution: PlaceResolutionForDecision::Edge { from_place_id: "a".to_string(), to_place_id: "b".to_string() },
        gate: PlaceGateDecision::Pass,
        judge_output: None,
    };
    match materialize_place_decision(ledger, context).unwrap() {
        PlaceDecision::Quarantine(q) => assert_eq!(q.reason, "location edge decision missing map judge output"),
        other => panic!("expected quarantine, got {other:?}"),
    }
}

// --- lifecycle ---

#[test]
fn lifecycle_steps_and_counts() {
    let claim = character_claim("alias", Some("沈清秋"), Some("师尊"), Some("char-1"), "p", None, None);
    let decision = materialize_character_decision(LedgerCharacterClaim::from_claim(&claim, parsed(&claim)).unwrap()).unwrap();
    match &decision {
        CharacterDecision::Write(command) => assert_eq!(command_provenance_claim_id(command), "claim-1"),
        other => panic!("expected write, got {other:?}"),
    }
    assert!(matches!(character_step(&decision), LifecycleStep::ApplyWrite { claim_id } if claim_id == "claim-1"));
    assert_eq!(after_write(true), ClaimTransition::Accept);
    assert_eq!(after_write(false), ClaimTransition::MarkUncertain);
    assert_eq!(transition_status(ClaimTransition::Quarantine), "quarantined");
    assert_eq!(transition_status(ClaimTransition::Redirect), "redirected");

    let mut counts = CharacterSegmentProcessResult::new();
    counts.record(ClaimTransition::Accept);
    counts.record(ClaimTransition::Reject);
    counts.record(ClaimTransition::Reject);
    counts.record(ClaimTransition::Redirect);
    assert_eq!((counts.claims_accepted, counts.claims_rejected, counts.claims_quarantined, counts.claims_uncertain), (1, 2, 0, 0));

    let entry = quarantine_entry("needs review");
    assert_eq!(entry.reason_code, "domain_decision_quarantine");
    assert_eq!(entry.suggested_action, "needs_manual_review");
    assert_eq!(entry.priority, 50);
}
