use reader_v4::chapter_flow::{
    after_map_phase, chapter_needs_processing, prompt_version, CompletedRun, SCHEMA_VERSION,
    claim_route, has_matching_segments, identity_phase_gate, identity_phase_judged, pending_lookups,
    pending_references, record_resolved_reference, relationship_gate_step, relationship_judged_step, segment_text,
    with_found_entities, with_relinked_entities, ClaimRoute, IdentityPhaseStep, RelationshipGateResult,
    RelationshipJudgedStep, RelationshipStep,
};
use reader_v4::claim_lifecycle::{identity_judged_step, knowledge_judged_step, ClaimTransition, LifecycleStep};
use reader_v4::identity_decision::LedgerIdentityClaim;
use reader_v4::identity_judge::{
    blocked_by_active_not_same_identity, canonicalize_identity_pair, IdentityGateResult, IdentityJudgeDecision,
    IdentityJudgeOutput,
};
use reader_v4::map_gate::would_create_parent_cycle;
use reader_v4::records::IdentityLinkRecord;
use reader_v4::json::{get_str, JsonNumber, JsonValue};
use reader_v4::knowledge_decision::LedgerKnowledgeClaim;
use reader_v4::knowledge_judge::{KnowledgeCardAction, KnowledgeJudgeDecision, KnowledgeJudgeOutput};
use reader_v4::location_flow::{
    edge_claim_step, EdgeAction, EdgeEvent, EdgeStage, after_edge_gate, after_edge_judge, claims_of_type, edge_endpoints, edge_judge_input, edge_mentions,
    introduction_query, map_context_line, record_edge_endpoints, resolved_introduction, EdgeStep, PlaceResolution,
};
use reader_v4::map_conflict_judge::{MapConflictDecision, MapConflictJudgeOutput};
use reader_v4::map_gate::MapGateResult;
use reader_v4::pipeline::{JudgeDecision, JudgeOutput};
use reader_v4::records::ClaimRecord;
use reader_v4::score::Score;

fn score(x: f64) -> Score {
    let x = if x == 0.0 { 0.0 } else { x };
    let bits = x.to_bits() as i64;
    let key = if bits < 0 { bits ^ 0x7FFF_FFFF_FFFF_FFFF } else { bits };
    Score { key }
}

fn claim(id: &str, claim_type: &str, subject: Option<&str>, object: Option<&str>) -> ClaimRecord {
    ClaimRecord {
        id: id.to_string(),
        book_id: "b1".to_string(),
        chapter_index: 3,
        claim_type: claim_type.to_string(),
        subject_mention: subject.map(str::to_string),
        object_mention: object.map(str::to_string),
        subject_entity_id: None,
        object_entity_id: None,
        predicate: "p".to_string(),
        value_json: Some("{}".to_string()),
        value_text: None,
        primary_source_span_id: "span1".to_string(),
        ai_run_id: "run1".to_string(),
        confidence: score(0.8),
        status: "proposed".to_string(),
        risk_level: "low".to_string(),
        supersedes_claim_id: None,
        created_at: "now".to_string(),
        updated_at: "now".to_string(),
    }
}

fn s(v: &str) -> JsonValue {
    JsonValue::Str(v.to_string())
}

fn member<'a>(members: &'a [(String, JsonValue)], key: &str) -> Option<&'a JsonValue> {
    members.iter().find(|(k, _)| k == key).map(|(_, v)| v)
}

fn member_str<'a>(members: &'a [(String, JsonValue)], key: &str) -> Option<&'a str> {
    match member(members, key) {
        Some(JsonValue::Str(t)) => Some(t.as_str()),
        _ => None,
    }
}

#[test]
fn location_claims_are_split_by_type_in_order() {
    let claims = vec![
        claim("e1", "location_edge", Some("a"), Some("b")),
        claim("i1", "location_introduction", Some("a"), None),
        claim("i2", "location_introduction", Some("b"), None),
    ];
    let intros = claims_of_type(&claims, "location_introduction");
    assert_eq!(intros.iter().map(|c| c.id.as_str()).collect::<Vec<_>>(), vec!["i1", "i2"]);
    let edges = claims_of_type(&claims, "location_edge");
    assert_eq!(edges.len(), 1);
    assert_eq!(edges[0].id, "e1");
}

#[test]
fn introduction_query_reads_payload_with_defaults() {
    let c = claim("i1", "location_introduction", Some("青云城"), None);
    let payload = vec![
        ("parent_place_mention".to_string(), s("东域")),
        ("aliases".to_string(), JsonValue::Array(vec![s("青云古城"), JsonValue::Bool(true)])),
    ];
    let q = introduction_query(&c, &payload).unwrap();
    assert_eq!(q.mention, "青云城");
    assert_eq!(q.place_type, "unknown");
    assert_eq!(q.parent_place_mention.as_deref(), Some("东域"));
    assert_eq!(q.aliases, vec!["青云古城".to_string()]);
    let typed = vec![("place_type".to_string(), s("city"))];
    assert_eq!(introduction_query(&c, &typed).unwrap().place_type, "city");
    let nameless = claim("i2", "location_introduction", None, None);
    assert!(introduction_query(&nameless, &payload).is_none());
}

#[test]
fn resolved_introduction_records_resolution() {
    let c = claim("i1", "location_introduction", Some("青云城"), None);
    let uncertain = PlaceResolution {
        uncertain: true,
        place_entity_id: None,
        parent_place_id: None,
        organization_link_candidate_id: None,
    };
    assert!(resolved_introduction(&c, vec![], &uncertain).is_none());

    let resolved = PlaceResolution {
        uncertain: false,
        place_entity_id: Some("place-1".to_string()),
        parent_place_id: Some("place-0".to_string()),
        organization_link_candidate_id: Some("org-1".to_string()),
    };
    let (payload, subject) =
        resolved_introduction(&c, vec![("place_type".to_string(), s("city"))], &resolved).unwrap();
    assert_eq!(subject.as_deref(), Some("place-1"));
    assert_eq!(member_str(&payload, "parent_place_id"), Some("place-0"));
    assert_eq!(member_str(&payload, "organization_link_candidate_id"), Some("org-1"));
    assert_eq!(member_str(&payload, "entity_link_type"), Some("organization_place_pair"));
    match member(&payload, "evidence_span_ids") {
        Some(JsonValue::Array(items)) => {
            assert_eq!(items.len(), 1);
            assert!(matches!(&items[0], JsonValue::Str(t) if t == "span1"));
        }
        other => panic!("expected evidence array, got {other:?}"),
    }

    let (kept, _) = resolved_introduction(
        &c,
        vec![("entity_link_type".to_string(), s("sect_seat"))],
        &resolved,
    )
    .unwrap();
    assert_eq!(member_str(&kept, "entity_link_type"), Some("sect_seat"));
}

#[test]
fn edge_mentions_and_endpoints_need_both_sides() {
    assert_eq!(
        edge_mentions(&claim("e1", "location_edge", Some("黑风谷"), Some("青云城"))),
        Some(("黑风谷".to_string(), "青云城".to_string()))
    );
    assert!(edge_mentions(&claim("e1", "location_edge", Some("黑风谷"), None)).is_none());
    let found = PlaceResolution {
        uncertain: false,
        place_entity_id: Some("p1".to_string()),
        parent_place_id: None,
        organization_link_candidate_id: None,
    };
    let missing = PlaceResolution {
        uncertain: false,
        place_entity_id: None,
        parent_place_id: None,
        organization_link_candidate_id: None,
    };
    assert_eq!(edge_endpoints(&found, &found), Some(("p1".to_string(), "p1".to_string())));
    assert!(edge_endpoints(&found, &missing).is_none());
    let mut payload = vec![("edge_type".to_string(), s("north_of"))];
    record_edge_endpoints(&mut payload, &claim("e1", "location_edge", None, None), "p1", "p2");
    assert_eq!(member_str(&payload, "from_place_id"), Some("p1"));
    assert_eq!(member_str(&payload, "to_place_id"), Some("p2"));
    assert!(member(&payload, "evidence_span_ids").is_some());
}

#[test]
fn edge_gate_outcomes() {
    let mut payload = vec![];
    assert_eq!(after_edge_gate(&mut payload, &MapGateResult::Pass), EdgeStep::ToJudge);
    assert!(payload.is_empty());
    assert_eq!(
        after_edge_gate(&mut payload, &MapGateResult::Reject("self_edge".to_string())),
        EdgeStep::Reduce
    );
    assert_eq!(member_str(&payload, "judge_decision"), Some("reject"));
    assert_eq!(member_str(&payload, "reason_code"), Some("self_edge"));
    let mut held = vec![];
    assert_eq!(
        after_edge_gate(&mut held, &MapGateResult::Uncertain("weak".to_string())),
        EdgeStep::Uncertain
    );
    assert_eq!(member_str(&held, "judge_decision"), Some("uncertain"));
}

#[test]
fn edge_judge_input_defaults_edge_type() {
    let c = claim("e1", "location_edge", Some("黑风谷"), Some("青云城"));
    let input = edge_judge_input("b1", 3, &c, "黑风谷", "青云城", &vec![], vec!["x near y".to_string()]);
    assert_eq!(input.edge_type, "connected_to");
    assert_eq!(input.claim_id, "e1");
    assert_eq!(input.evidence_spans, vec!["span1".to_string()]);
    assert_eq!(input.existing_map_context, vec!["x near y".to_string()]);
    assert!(input.boundary_warnings.is_empty());
    let typed = edge_judge_input("b1", 3, &c, "a", "b", &vec![("edge_type".to_string(), s("north_of"))], vec![]);
    assert_eq!(typed.edge_type, "north_of");
    assert_eq!(map_context_line("p1", "p2", "north_of"), "p1 north_of p2");
}

fn map_output(decision: MapConflictDecision, confidence: Score) -> MapConflictJudgeOutput {
    MapConflictJudgeOutput {
        decision,
        normalized_edge_type: Some("north_of".to_string()),
        normalized_direction_hint: None,
        normalized_distance_hint: None,
        conflict_type: None,
        reason_code: "ok".to_string(),
        confidence,
        explanation_for_log: "why".to_string(),
    }
}

#[test]
fn edge_judge_outcomes() {
    let mut payload = vec![];
    assert_eq!(after_edge_judge(&mut payload, &map_output(MapConflictDecision::Accept, score(0.9))), Ok(EdgeStep::Reduce));
    assert_eq!(member_str(&payload, "judge_decision"), Some("accept"));
    assert_eq!(member_str(&payload, "normalized_edge_type"), Some("north_of"));
    assert!(member(&payload, "judge_output").is_some());
    let mut held = vec![];
    assert_eq!(
        after_edge_judge(&mut held, &map_output(MapConflictDecision::Uncertain, score(0.4))),
        Ok(EdgeStep::Uncertain)
    );
    let mut rejected = vec![];
    assert_eq!(
        after_edge_judge(&mut rejected, &map_output(MapConflictDecision::Reject, score(0.4))),
        Ok(EdgeStep::Reduce)
    );
    let mut broken = vec![];
    assert_eq!(
        after_edge_judge(&mut broken, &map_output(MapConflictDecision::Accept, score(f64::INFINITY))),
        Err("invalid map judge confidence".to_string())
    );
    assert!(member(&broken, "judge_confidence").is_none());
}

#[test]
fn claims_route_to_their_phase() {
    assert_eq!(claim_route("relationship_update"), ClaimRoute::Relationship);
    assert_eq!(claim_route("not_same_identity"), ClaimRoute::Identity);
    assert_eq!(claim_route("knowledge_assertion"), ClaimRoute::Knowledge);
    assert_eq!(claim_route("location_edge"), ClaimRoute::Location);
    assert_eq!(claim_route("property_update"), ClaimRoute::Entity);
}

#[test]
fn segments_are_rebuilt_and_reused_by_hash() {
    assert_eq!(segment_text(&vec!["a".to_string(), "b".to_string()]), "a\n\nb");
    assert!(has_matching_segments(&vec!["old".to_string(), "h".to_string()], "h"));
    assert!(!has_matching_segments(&vec![], "h"));
}

#[test]
fn claims_pick_up_entities_found_later() {
    let mut c = claim("c1", "identity_reveal", Some("黑衣人"), Some("张三"));
    c.object_entity_id = Some("char-zhang".to_string());
    assert_eq!(pending_lookups(&c), (Some("黑衣人".to_string()), None));
    let r = with_found_entities(&c, Some("char-shadow".to_string()), Some("ignored".to_string()));
    assert_eq!(r.subject_entity_id.as_deref(), Some("char-shadow"));
    assert_eq!(r.object_entity_id.as_deref(), Some("char-zhang"));

    let rel = with_relinked_entities(&c, None, Some("char-new".to_string()));
    assert_eq!(rel.subject_entity_id, None);
    assert_eq!(rel.object_entity_id.as_deref(), Some("char-new"));
}

fn identity_output(decision: IdentityJudgeDecision, link_type: &str) -> IdentityJudgeOutput {
    IdentityJudgeOutput {
        decision,
        link_type: link_type.to_string(),
        survivor_hint: "unknown".to_string(),
        confidence: score(0.9),
        reason_code: "r".to_string(),
        explanation_for_log: "e".to_string(),
        property_conflicts: vec!["realm".to_string()],
        relationship_migration_hint: "safe".to_string(),
    }
}

#[test]
fn identity_phase_records_gate_and_judge() {
    let mut v = vec![];
    assert_eq!(identity_phase_gate(&mut v, &IdentityGateResult::Pass), None);
    assert_eq!(
        identity_phase_gate(&mut v, &IdentityGateResult::Reject("blocked".to_string())),
        Some(ClaimTransition::Reject)
    );
    assert_eq!(member_str(&v, "judge_decision"), Some("rejected"));
    assert_eq!(member_str(&v, "gate_reason"), Some("blocked"));

    let mut v = vec![];
    let step = identity_phase_judged(&mut v, Ok(identity_output(IdentityJudgeDecision::Merge, "same_identity")), false);
    assert_eq!(step, IdentityPhaseStep::Settle(ClaimTransition::Reject));
    assert_eq!(
        member_str(&v, "gate_reason"),
        Some("invalid judge output: merge decision requires both identity sides resolved")
    );

    let mut v = vec![];
    let step = identity_phase_judged(&mut v, Ok(identity_output(IdentityJudgeDecision::Merge, "same_identity")), true);
    assert_eq!(step, IdentityPhaseStep::Reduce);
    assert_eq!(member_str(&v, "judge_decision"), Some("merge"));
    assert_eq!(member_str(&v, "relationship_migration_hint"), Some("safe"));

    let mut v = vec![];
    let step = identity_phase_judged(&mut v, Ok(identity_output(IdentityJudgeDecision::Uncertain, "unknown")), true);
    assert_eq!(step, IdentityPhaseStep::Settle(ClaimTransition::MarkUncertain));
    let mut v = vec![];
    assert_eq!(
        identity_phase_judged(&mut v, Err("timeout".to_string()), true),
        IdentityPhaseStep::Settle(ClaimTransition::Reject)
    );
    assert!(v.is_empty());
}

fn relationship_output(decision: JudgeDecision) -> JudgeOutput {
    JudgeOutput {
        decision,
        reason_code: "clear".to_string(),
        confidence: score(0.7),
        normalized_relation_group: Some("mentorship".to_string()),
        normalized_relation_label: None,
        directionality: Some("directed".to_string()),
        current_state: None,
        strength: Some(score(0.6)),
        polarity: None,
        importance_score: None,
        redirect_to: None,
        redirect_dimension_key: None,
        explanation_for_log: "e".to_string(),
    }
}

#[test]
fn relationship_gate_and_judge_steps() {
    let c = claim("r1", "relationship_update", Some("张三"), Some("青云门"));
    assert!(matches!(relationship_gate_step(&c, &RelationshipGateResult::Pass), RelationshipStep::ToJudge));
    assert!(matches!(
        relationship_gate_step(&c, &RelationshipGateResult::Uncertain("weak".to_string())),
        RelationshipStep::Settle(ClaimTransition::MarkUncertain)
    ));
    match relationship_gate_step(
        &c,
        &RelationshipGateResult::Redirect {
            target: "property_update".to_string(),
            dimension_key: Some("affiliation".to_string()),
        },
    ) {
        RelationshipStep::Redirect(Some(d)) => {
            assert_eq!(d.predicate, "affiliation = 青云门");
            assert_eq!(d.value_text, "青云门");
            assert_eq!(d.risk_level, "low");
            assert_eq!(d.confidence, score(0.8));
            assert_eq!(get_str(&d.value_json, "redirected_from_claim_id").map(|s| s.as_str()), Some("r1"));
        }
        other => panic!("expected derived claim, got {other:?}"),
    }
    assert!(matches!(
        relationship_gate_step(
            &c,
            &RelationshipGateResult::Redirect { target: "minor_event".to_string(), dimension_key: None }
        ),
        RelationshipStep::Redirect(None)
    ));

    let payload = JsonValue::Object(vec![("relation_hint".to_string(), s("师徒"))]);
    match relationship_judged_step(&c, Some(payload), Ok(relationship_output(JudgeDecision::Accept))) {
        RelationshipJudgedStep::Accept(JsonValue::Object(m)) => {
            assert_eq!(member_str(&m, "relation_hint"), Some("师徒"));
            assert_eq!(member_str(&m, "normalized_relation_group"), Some("mentorship"));
            assert!(member(&m, "normalized_relation_label").is_none());
            assert_eq!(member_str(&m, "judge_reason_code"), Some("clear"));
            assert!(matches!(
                member(&m, "strength"),
                Some(JsonValue::Number(JsonNumber { value, integer: None })) if *value == score(0.6)
            ));
        }
        other => panic!("expected accepted payload, got {other:?}"),
    }
    assert!(matches!(
        relationship_judged_step(&c, None, Ok(relationship_output(JudgeDecision::Accept))),
        RelationshipJudgedStep::Accept(JsonValue::Null)
    ));
    let mut redirect = relationship_output(JudgeDecision::Redirect);
    redirect.redirect_to = Some("property_update".to_string());
    redirect.redirect_dimension_key = Some("affiliation".to_string());
    match relationship_judged_step(&c, None, Ok(redirect)) {
        RelationshipJudgedStep::Redirect(Some(d)) => assert_eq!(d.confidence, score(0.7)),
        other => panic!("expected derived claim, got {other:?}"),
    }
    assert!(matches!(
        relationship_judged_step(&c, None, Ok(relationship_output(JudgeDecision::Redirect))),
        RelationshipJudgedStep::Redirect(None)
    ));
    assert!(matches!(
        relationship_judged_step(&c, None, Err("down".to_string())),
        RelationshipJudgedStep::Settle(ClaimTransition::Reject)
    ));
}

fn reference(mention: Option<&str>, resolved: Option<&str>) -> JsonValue {
    let mut m = vec![];
    if let Some(x) = mention {
        m.push(("mention".to_string(), s(x)));
    }
    if let Some(x) = resolved {
        m.push(("resolved_entity_id".to_string(), s(x)));
    }
    JsonValue::Object(m)
}

#[test]
fn knowledge_references_are_looked_up_and_recorded() {
    let mut payload = vec![
        ("category".to_string(), s("power_system")),
        (
            "referenced_entity_mentions".to_string(),
            JsonValue::Array(vec![
                reference(Some("张三"), Some("char-1")),
                reference(Some("青云门"), Some("  ")),
                reference(None, None),
                s("stray"),
                reference(Some("李四"), None),
            ]),
        ),
    ];
    assert_eq!(
        pending_references(&payload),
        vec![(1, "青云门".to_string()), (4, "李四".to_string())]
    );
    assert!(record_resolved_reference(&mut payload, 4, "char-4"));
    assert!(!record_resolved_reference(&mut payload, 3, "x"));
    assert!(!record_resolved_reference(&mut payload, 9, "x"));
    assert_eq!(pending_references(&payload), vec![(1, "青云门".to_string())]);
    match member(&payload, "referenced_entity_mentions") {
        Some(JsonValue::Array(items)) => {
            assert_eq!(items.len(), 5);
            assert_eq!(get_str(&items[4], "resolved_entity_id").map(|s| s.as_str()), Some("char-4"));
        }
        other => panic!("expected array, got {other:?}"),
    }
    assert!(pending_references(&vec![]).is_empty());
}

fn ledger_identity(status: &str) -> LedgerIdentityClaim {
    LedgerIdentityClaim {
        claim_id: "c1".to_string(),
        book_id: "b1".to_string(),
        chapter_index: 1,
        claim_type: "identity_reveal".to_string(),
        subject_entity_id: Some("a".to_string()),
        object_entity_id: Some("b".to_string()),
        primary_source_span_id: "span1".to_string(),
        confidence: score(0.9),
        status: status.to_string(),
    }
}

#[test]
fn judged_identity_claims_step() {
    let id = "c1".to_string();
    assert!(matches!(
        identity_judged_step(&id, Err("not identity".to_string()), Ok(identity_output(IdentityJudgeDecision::Merge, "same_identity"))),
        LifecycleStep::Transition { ref claim_id, transition: ClaimTransition::Reject } if claim_id == "c1"
    ));
    assert!(matches!(
        identity_judged_step(&id, Ok(ledger_identity("proposed")), Err("down".to_string())),
        LifecycleStep::Transition { transition: ClaimTransition::Reject, .. }
    ));
    assert!(matches!(
        identity_judged_step(&id, Ok(ledger_identity("proposed")), Ok(identity_output(IdentityJudgeDecision::Merge, "same_identity"))),
        LifecycleStep::ApplyWrite { ref claim_id } if claim_id == "c1"
    ));
    assert!(matches!(
        identity_judged_step(&id, Ok(ledger_identity("accepted")), Ok(identity_output(IdentityJudgeDecision::Merge, "same_identity"))),
        LifecycleStep::Transition { transition: ClaimTransition::MarkUncertain, .. }
    ));
}

fn ledger_knowledge() -> LedgerKnowledgeClaim {
    LedgerKnowledgeClaim {
        claim_id: "k1".to_string(),
        book_id: "b1".to_string(),
        chapter_index: 4,
        category: "power_system".to_string(),
        topic_display: "Cultivation Realms".to_string(),
        assertion_text: "Cultivation has stable realm tiers.".to_string(),
        importance_score: score(0.8),
        referenced_entities: vec![],
        primary_source_span_id: "span1".to_string(),
        confidence: score(0.84),
        status: "proposed".to_string(),
    }
}

fn knowledge_output(decision: KnowledgeJudgeDecision, action: KnowledgeCardAction) -> KnowledgeJudgeOutput {
    KnowledgeJudgeOutput {
        decision,
        card_action: action,
        target_card_id: None,
        affected_assertion_ids: vec![],
        assertion_status: "active".to_string(),
        current_summary: None,
        confidence: score(0.9),
        reason_code: "r".to_string(),
        explanation_for_log: "e".to_string(),
    }
}

#[test]
fn judged_knowledge_claims_step() {
    assert!(matches!(
        knowledge_judged_step(ledger_knowledge(), Err("down".to_string()), 0),
        LifecycleStep::Transition { ref claim_id, transition: ClaimTransition::Reject } if claim_id == "k1"
    ));
    assert!(matches!(
        knowledge_judged_step(
            ledger_knowledge(),
            Ok(knowledge_output(KnowledgeJudgeDecision::Supplement, KnowledgeCardAction::UseExistingCard)),
            0
        ),
        LifecycleStep::Transition { transition: ClaimTransition::Reject, .. }
    ));
    assert!(matches!(
        knowledge_judged_step(
            ledger_knowledge(),
            Ok(knowledge_output(KnowledgeJudgeDecision::AddNew, KnowledgeCardAction::CreateNewCard)),
            0
        ),
        LifecycleStep::ApplyWrite { ref claim_id } if claim_id == "k1"
    ));
}

#[test]
fn identity_pair_order_does_not_matter() {
    assert_eq!(canonicalize_identity_pair("b", "a"), ("a".to_string(), "b".to_string()));
    assert_eq!(canonicalize_identity_pair("a", "b"), canonicalize_identity_pair("b", "a"));
    let links = vec![IdentityLinkRecord {
        entity_a_id: "a".to_string(),
        entity_b_id: "b".to_string(),
        link_type: "not_same_identity".to_string(),
        status: "active".to_string(),
        confidence: score(0.9),
    }];
    assert!(blocked_by_active_not_same_identity(&links, Some("a"), Some("b")));
    assert!(blocked_by_active_not_same_identity(&links, Some("b"), Some("a")));
    assert!(!blocked_by_active_not_same_identity(&links, Some("a"), Some("c")));
    assert!(!blocked_by_active_not_same_identity(&links, None, Some("b")));
}

#[test]
fn parent_links_never_loop() {
    let links = vec![("child".to_string(), "parent".to_string()), ("parent".to_string(), "root".to_string())];
    assert!(would_create_parent_cycle("x", "x", &links));
    assert!(would_create_parent_cycle("parent", "child", &links));
    assert!(would_create_parent_cycle("root", "child", &links));
    assert!(!would_create_parent_cycle("other", "child", &links));
}

#[test]
fn uncertain_card_action_with_unsupported_status_leaves_claim_uncertain() {
    let mut output = knowledge_output(KnowledgeJudgeDecision::AddNew, KnowledgeCardAction::Uncertain);
    output.assertion_status = "unsupported".to_string();
    output.confidence = score(0.35);
    output.reason_code = "test_uncertain".to_string();
    assert!(matches!(
        knowledge_judged_step(ledger_knowledge(), Ok(output), 0),
        LifecycleStep::Transition { ref claim_id, transition: ClaimTransition::MarkUncertain } if claim_id == "k1"
    ));
    let mut rejected = knowledge_output(KnowledgeJudgeDecision::Reject, KnowledgeCardAction::Uncertain);
    rejected.assertion_status = "unsupported".to_string();
    assert!(matches!(
        knowledge_judged_step(ledger_knowledge(), Ok(rejected), 0),
        LifecycleStep::Transition { transition: ClaimTransition::Reject, .. }
    ));
}

#[test]
fn processed_chapter_is_skipped_until_text_or_versions_change() {
    let runs = vec![CompletedRun { text_hash: "h1".to_string(), prompt_version: "v1".to_string(), schema_version: 1 }];
    assert!(!chapter_needs_processing(&runs, "h1", prompt_version(), SCHEMA_VERSION));
    assert!(chapter_needs_processing(&runs, "h2", prompt_version(), SCHEMA_VERSION));
    assert!(chapter_needs_processing(&runs, "h1", "v2", SCHEMA_VERSION));
    assert!(chapter_needs_processing(&runs, "h1", prompt_version(), 2));
    assert!(chapter_needs_processing(&[], "h1", prompt_version(), SCHEMA_VERSION));
}

#[test]
fn failed_map_phase_marks_only_location_claims_uncertain() {
    let ids = vec!["loc1".to_string(), "loc2".to_string()];
    assert!(after_map_phase(&ids, &Ok(())).is_empty());
    let steps = after_map_phase(&ids, &Err("db".to_string()));
    assert_eq!(steps.len(), 2);
    assert!(matches!(&steps[0], LifecycleStep::Transition { claim_id, transition: ClaimTransition::MarkUncertain } if claim_id == "loc1"));
    assert!(matches!(&steps[1], LifecycleStep::Transition { claim_id, transition: ClaimTransition::MarkUncertain } if claim_id == "loc2"));
}

#[test]
fn nan_confidence_compares_as_f64() {
    let nan = Score { key: 0x7FF8_0000_0000_0000 };
    let neg_nan = Score { key: (0xFFF8_0000_0000_0000u64 as i64) ^ 0x7FFF_FFFF_FFFF_FFFF };
    assert!(nan.is_nan() && neg_nan.is_nan());
    assert!(!nan.below(0x3FE0_0000_0000_0000));
    assert!(!neg_nan.below(0x3FD0_0000_0000_0000));
    assert!(!nan.is_outside_unit());
    assert!(!nan.is_unit());
    assert!(score(0.2).below(0x3FD0_0000_0000_0000));
    assert!(score(1.5).is_outside_unit());
    assert_eq!(nan.clamp_unit(), nan);
    assert_eq!(score(1.5).clamp_unit(), score(1.0));
}

#[test]
fn cycle_check_follows_the_whole_ancestor_chain() {
    let links = vec![
        ("room".to_string(), "hall".to_string()),
        ("hall".to_string(), "palace".to_string()),
        ("palace".to_string(), "city".to_string()),
    ];
    assert!(would_create_parent_cycle("city", "room", &links));
    assert!(would_create_parent_cycle("palace", "room", &links));
    assert!(!would_create_parent_cycle("room", "city", &links));
    assert!(!would_create_parent_cycle("garden", "room", &links));
}

#[test]
fn edge_claim_asks_the_judge_once_after_the_gate_passes() {
    let (s, a) = edge_claim_step(EdgeStage::Start, &EdgeEvent::MentionsRead { both_present: true });
    assert_eq!((s, a), (EdgeStage::Resolving, EdgeAction::ResolveEndpoints));
    let (s, a) = edge_claim_step(s, &EdgeEvent::EndpointsResolved { both_resolved: true });
    assert_eq!((s, a), (EdgeStage::Gating, EdgeAction::RunGate));
    let (s, a) = edge_claim_step(s, &EdgeEvent::Gated { step: EdgeStep::ToJudge });
    assert_eq!((s, a), (EdgeStage::Judging, EdgeAction::CallJudge));
    let (s2, a) = edge_claim_step(s, &EdgeEvent::Gated { step: EdgeStep::ToJudge });
    assert_eq!((s2, a), (EdgeStage::Judging, EdgeAction::Ignore));
    let (s, a) = edge_claim_step(s, &EdgeEvent::Judged { step: Ok(EdgeStep::Uncertain) });
    assert_eq!((s, a), (EdgeStage::Finished, EdgeAction::MarkUncertain));
    assert_eq!(
        edge_claim_step(EdgeStage::Gating, &EdgeEvent::Gated { step: EdgeStep::Reduce }),
        (EdgeStage::Finished, EdgeAction::Reduce)
    );
    assert_eq!(
        edge_claim_step(EdgeStage::Start, &EdgeEvent::MentionsRead { both_present: false }),
        (EdgeStage::Finished, EdgeAction::MarkUncertain)
    );
    assert_eq!(
        edge_claim_step(EdgeStage::Resolving, &EdgeEvent::EndpointsResolved { both_resolved: false }),
        (EdgeStage::Finished, EdgeAction::MarkUncertain)
    );
    assert_eq!(
        edge_claim_step(EdgeStage::Judging, &EdgeEvent::Judged { step: Err("bad".to_string()) }),
        (EdgeStage::Finished, EdgeAction::Fail)
    );
}
