use reader_v4::extractor::{
    classify_risk, observations_from_documents, strip_markdown_fences, truncated_array_repair, AiExtractor,
    Extractor, MockExtractor, Observation, RiskLevel,
};
use reader_v4::json::{JsonNumber, JsonValue};
use reader_v4::score::Score;

fn score(x: f64) -> Score {
    let x = if x == 0.0 { 0.0 } else { x };
    let bits = x.to_bits() as i64;
    let key = if bits < 0 { bits ^ 0x7FFF_FFFF_FFFF_FFFF } else { bits };
    Score { key }
}

fn to_json(v: &serde_json::Value) -> JsonValue {
    match v {
        serde_json::Value::Null => JsonValue::Null,
        serde_json::Value::Bool(b) => JsonValue::Bool(*b),
        serde_json::Value::Number(n) => JsonValue::Number(JsonNumber {
            value: score(n.as_f64().unwrap_or(0.0)),
            integer: n.as_i64(),
        }),
        serde_json::Value::String(s) => JsonValue::Str(s.clone()),
        serde_json::Value::Array(items) => JsonValue::Array(items.iter().map(to_json).collect()),
        serde_json::Value::Object(m) => {
            JsonValue::Object(m.iter().map(|(k, v)| (k.clone(), to_json(v))).collect())
        }
    }
}

/// Parses model output as the application does: the fence-stripped text,
/// then its truncated-array repair when the text holds no items.
fn parse_observations_from_json(raw: &str, valid_span_ids: &[String]) -> Result<Vec<Observation>, String> {
    let cleaned = strip_markdown_fences(raw);
    let parsed: Result<JsonValue, String> = serde_json::from_str::<serde_json::Value>(&cleaned)
        .map(|v| to_json(&v))
        .map_err(|e| e.to_string());
    let repaired = truncated_array_repair(&cleaned).map(|attempt| {
        serde_json::from_str::<Vec<serde_json::Value>>(&attempt)
            .map(|items| items.iter().map(to_json).collect::<Vec<_>>())
            .map_err(|e| e.to_string())
    });
    observations_from_documents(parsed, repaired, &valid_span_ids.to_vec()).map_err(|e| {
        let value_text = e.out_of_range_value().map(|v| score_value(v).to_string()).unwrap_or_default();
        e.message(&value_text)
    })
}

/// The `f64` a score stands for.
fn score_value(s: Score) -> f64 {
    let bits = if s.key < 0 { s.key ^ 0x7FFF_FFFF_FFFF_FFFF } else { s.key };
    f64::from_bits(bits as u64)
}

#[test]
fn classify_risk_death_is_high() {
    let obs = Observation::PropertyUpdate {
        subject_mention: "张三".to_string(),
        dimension_key: "life_status".to_string(),
        value_text: Some("死亡".to_string()),
        value_json: None,
        evidence_span_ids: vec!["span1".to_string()],
        confidence: score(0.9),
    };
    assert_eq!(classify_risk(&obs), RiskLevel::High);
}

#[test]
fn classify_risk_death_english_is_high() {
    let obs = Observation::PropertyUpdate {
        subject_mention: "John".to_string(),
        dimension_key: "life_status".to_string(),
        value_text: Some("was killed in battle".to_string()),
        value_json: None,
        evidence_span_ids: vec![],
        confidence: score(0.8),
    };
    assert_eq!(classify_risk(&obs), RiskLevel::High);
}

#[test]
fn classify_risk_death_euphemisms_are_high() {
    for text in &[
        "passed away",
        "deceased",
        "perished",
        "slain",
        "assassinated",
    ] {
        let obs = Observation::PropertyUpdate {
            subject_mention: "John".to_string(),
            dimension_key: "life_status".to_string(),
            value_text: Some(text.to_string()),
            value_json: None,
            evidence_span_ids: vec![],
            confidence: score(0.8),
        };
        assert_eq!(
            classify_risk(&obs),
            RiskLevel::High,
            "expected High for '{}'",
            text
        );
    }
}

#[test]
fn classify_risk_resurrection_is_high() {
    let obs = Observation::PropertyUpdate {
        subject_mention: "张三".to_string(),
        dimension_key: "life_status".to_string(),
        value_text: Some("复活".to_string()),
        value_json: None,
        evidence_span_ids: vec![],
        confidence: score(0.7),
    };
    assert_eq!(classify_risk(&obs), RiskLevel::High);
}

#[test]
fn classify_risk_identity_reveal_is_high() {
    let obs = Observation::PropertyUpdate {
        subject_mention: "神秘人".to_string(),
        dimension_key: "identity".to_string(),
        value_text: Some("真实身份揭示：张三".to_string()),
        value_json: None,
        evidence_span_ids: vec![],
        confidence: score(0.9),
    };
    assert_eq!(classify_risk(&obs), RiskLevel::High);
}

#[test]
fn classify_risk_entity_merge_candidate_is_high() {
    let obs = Observation::PropertyUpdate {
        subject_mention: "神秘人".to_string(),
        dimension_key: "identity".to_string(),
        value_text: Some("entity_merge_candidate: 可能与张三是同一个人".to_string()),
        value_json: None,
        evidence_span_ids: vec![],
        confidence: score(0.85),
    };
    assert_eq!(classify_risk(&obs), RiskLevel::High);
}

#[test]
fn classify_risk_normal_property_is_low() {
    let obs = Observation::PropertyUpdate {
        subject_mention: "张三".to_string(),
        dimension_key: "location".to_string(),
        value_text: Some("大殿".to_string()),
        value_json: None,
        evidence_span_ids: vec!["span1".to_string()],
        confidence: score(0.8),
    };
    assert_eq!(classify_risk(&obs), RiskLevel::Low);
}

#[test]
fn classify_risk_normal_realm_is_medium() {
    let obs = Observation::PropertyUpdate {
        subject_mention: "张三".to_string(),
        dimension_key: "realm".to_string(),
        value_text: Some("筑基期".to_string()),
        value_json: None,
        evidence_span_ids: vec![],
        confidence: score(0.8),
    };
    assert_eq!(classify_risk(&obs), RiskLevel::Medium);
}

#[test]
fn classify_risk_affiliation_change_is_medium() {
    let obs = Observation::PropertyUpdate {
        subject_mention: "李四".to_string(),
        dimension_key: "affiliation".to_string(),
        value_text: Some("魔道".to_string()),
        value_json: None,
        evidence_span_ids: vec![],
        confidence: score(0.7),
    };
    assert_eq!(classify_risk(&obs), RiskLevel::Medium);
}

#[test]
fn classify_risk_life_status_general_is_medium() {
    let obs = Observation::PropertyUpdate {
        subject_mention: "张三".to_string(),
        dimension_key: "life_status".to_string(),
        value_text: Some("重伤昏迷".to_string()),
        value_json: None,
        evidence_span_ids: vec![],
        confidence: score(0.8),
    };
    assert_eq!(classify_risk(&obs), RiskLevel::Medium);
}

#[test]
fn classify_risk_alias_is_low() {
    let obs = Observation::Alias {
        subject_mention: "张三".to_string(),
        alias: "小三".to_string(),
        alias_type: "nickname".to_string(),
        evidence_span_ids: vec![],
        confidence: score(0.8),
    };
    assert_eq!(classify_risk(&obs), RiskLevel::Low);
}

#[test]
fn classify_risk_entity_intro_character_is_medium() {
    let obs = Observation::EntityIntroduction {
        subject_mention: "新角色".to_string(),
        entity_type: "character".to_string(),
        aliases: vec![],
        short_summary: "一个强大的修士".to_string(),
        evidence_span_ids: vec![],
        confidence: score(0.9),
    };
    assert_eq!(classify_risk(&obs), RiskLevel::Medium);
}

#[test]
fn classify_risk_entity_intro_low_confidence_is_low() {
    let obs = Observation::EntityIntroduction {
        subject_mention: "路人甲".to_string(),
        entity_type: "character".to_string(),
        aliases: vec![],
        short_summary: "路人".to_string(),
        evidence_span_ids: vec![],
        confidence: score(0.5),
    };
    assert_eq!(classify_risk(&obs), RiskLevel::Low);
}

#[test]
fn classify_risk_entity_intro_non_character_is_low() {
    let obs = Observation::EntityIntroduction {
        subject_mention: "天剑宗".to_string(),
        entity_type: "faction".to_string(),
        aliases: vec![],
        short_summary: "一个修仙门派".to_string(),
        evidence_span_ids: vec![],
        confidence: score(0.9),
    };
    assert_eq!(classify_risk(&obs), RiskLevel::Low);
}

#[test]
fn classify_risk_minor_event_is_low() {
    let obs = Observation::MinorEvent {
        description: "张三与李四交谈".to_string(),
        involved_mentions: vec!["张三".to_string(), "李四".to_string()],
        evidence_span_ids: vec![],
        confidence: score(0.7),
    };
    assert_eq!(classify_risk(&obs), RiskLevel::Low);
}

#[test]
fn classify_risk_summary_is_low() {
    let obs = Observation::Summary {
        summary: "本章张三突破到筑基期".to_string(),
        key_points: vec!["突破".to_string()],
        has_important_changes: true,
    };
    assert_eq!(classify_risk(&obs), RiskLevel::Low);
}

#[test]
fn risk_level_as_str() {
    assert_eq!(RiskLevel::Low.as_str(), "low");
    assert_eq!(RiskLevel::Medium.as_str(), "medium");
    assert_eq!(RiskLevel::High.as_str(), "high");
}

#[test]
fn observation_subject_mention() {
    let obs = Observation::PropertyUpdate {
        subject_mention: "张三".to_string(),
        dimension_key: "realm".to_string(),
        value_text: Some("筑基".to_string()),
        value_json: None,
        evidence_span_ids: vec![],
        confidence: score(0.8),
    };
    assert_eq!(obs.subject_mention(), Some("张三"));

    let event = Observation::MinorEvent {
        description: "战斗".to_string(),
        involved_mentions: vec![],
        evidence_span_ids: vec![],
        confidence: score(0.5),
    };
    assert_eq!(event.subject_mention(), None);
}

#[test]
fn observation_evidence_span_ids() {
    let obs = Observation::Alias {
        subject_mention: "张三".to_string(),
        alias: "小三".to_string(),
        alias_type: "nickname".to_string(),
        evidence_span_ids: vec!["s1".to_string(), "s2".to_string()],
        confidence: score(0.8),
    };
    assert_eq!(obs.evidence_span_ids().len(), 2);

    let summary = Observation::Summary {
        summary: "test".to_string(),
        key_points: vec![],
        has_important_changes: false,
    };
    assert!(summary.evidence_span_ids().is_empty());
}

// --- parse_observations_from_json tests ---

#[test]
fn parse_valid_entity_introduction() {
    let json = r#"[{"type":"entity_introduction","subject_mention":"张三","entity_type":"character","aliases":["小张"],"short_summary":"主角","evidence_span_ids":["s1"],"confidence":0.9}]"#;
    let span_ids = vec!["s1".to_string()];
    let result = parse_observations_from_json(json, &span_ids).unwrap();
    assert_eq!(result.len(), 1);
    match &result[0] {
        Observation::EntityIntroduction {
            subject_mention,
            aliases,
            ..
        } => {
            assert_eq!(subject_mention, "张三");
            assert_eq!(aliases, &vec!["小张".to_string()]);
        }
        _ => panic!("expected EntityIntroduction"),
    }
}

#[test]
fn parse_valid_alias() {
    let json = r#"[{"type":"alias","subject_mention":"张三","alias":"张真人","alias_type":"title","evidence_span_ids":["s1"],"confidence":0.8}]"#;
    let span_ids = vec!["s1".to_string()];
    let result = parse_observations_from_json(json, &span_ids).unwrap();
    assert_eq!(result.len(), 1);
    match &result[0] {
        Observation::Alias { alias, .. } => assert_eq!(alias, "张真人"),
        _ => panic!("expected Alias"),
    }
}

#[test]
fn parse_valid_property_update() {
    let json = r#"[{"type":"property_update","subject_mention":"张三","dimension_key":"realm","value_text":"金丹","evidence_span_ids":["s1"],"confidence":0.85}]"#;
    let span_ids = vec!["s1".to_string()];
    let result = parse_observations_from_json(json, &span_ids).unwrap();
    assert_eq!(result.len(), 1);
    match &result[0] {
        Observation::PropertyUpdate {
            dimension_key,
            value_text,
            ..
        } => {
            assert_eq!(dimension_key, "realm");
            assert_eq!(value_text.as_deref(), Some("金丹"));
        }
        _ => panic!("expected PropertyUpdate"),
    }
}

#[test]
fn parse_valid_summary() {
    let json = r#"[{"type":"summary","summary":"本章介绍张三","key_points":["突破"],"has_important_changes":true}]"#;
    let span_ids = vec!["s1".to_string()];
    let result = parse_observations_from_json(json, &span_ids).unwrap();
    assert_eq!(result.len(), 1);
    match &result[0] {
        Observation::Summary {
            summary,
            key_points,
            has_important_changes,
        } => {
            assert_eq!(summary, "本章介绍张三");
            assert_eq!(key_points, &vec!["突破".to_string()]);
            assert!(*has_important_changes);
        }
        _ => panic!("expected Summary"),
    }
}

#[test]
fn parse_invalid_dimension_key_rejected() {
    let json = r#"[{"type":"property_update","subject_mention":"张三","dimension_key":"invalid_key","value_text":"test","evidence_span_ids":["s1"],"confidence":0.8}]"#;
    let span_ids = vec!["s1".to_string()];
    let result = parse_observations_from_json(json, &span_ids);
    assert!(result.is_err(), "invalid dimension_key should be rejected");
    assert!(result
        .unwrap_err()
        .contains("Invalid dimension_key"));
}

#[test]
fn parse_missing_evidence_span_ids_rejected() {
    let json = r#"[{"type":"alias","subject_mention":"张三","alias":"小张","alias_type":"nickname","evidence_span_ids":[],"confidence":0.8}]"#;
    let span_ids = vec!["s1".to_string()];
    let result = parse_observations_from_json(json, &span_ids);
    assert!(
        result.is_err(),
        "empty evidence_span_ids should be rejected"
    );
}

#[test]
fn parse_invalid_evidence_span_id_rejected() {
    let json = r#"[{"type":"alias","subject_mention":"张三","alias":"小张","alias_type":"nickname","evidence_span_ids":["bad_id"],"confidence":0.8}]"#;
    let span_ids = vec!["s1".to_string()];
    let result = parse_observations_from_json(json, &span_ids);
    assert!(
        result.is_err(),
        "invalid evidence_span_id should be rejected"
    );
}

#[test]
fn parse_confidence_out_of_range_rejected() {
    let json = r#"[{"type":"alias","subject_mention":"张三","alias":"小张","alias_type":"nickname","evidence_span_ids":["s1"],"confidence":1.5}]"#;
    let span_ids = vec!["s1".to_string()];
    let result = parse_observations_from_json(json, &span_ids);
    assert!(result.is_err(), "confidence > 1.0 should be rejected");
}

#[test]
fn parse_markdown_fences_stripped() {
    let json = "```json\n[{\"type\":\"summary\",\"summary\":\"test\",\"key_points\":[],\"has_important_changes\":false}]\n```";
    let span_ids = vec!["s1".to_string()];
    let result = parse_observations_from_json(json, &span_ids).unwrap();
    assert_eq!(result.len(), 1);
}

#[test]
fn parse_truncated_json_repair() {
    // Last object is complete but array is not closed
    let json =
        r#"[{"type":"summary","summary":"test","key_points":[],"has_important_changes":false}"#;
    let span_ids = vec!["s1".to_string()];
    let result = parse_observations_from_json(json, &span_ids).unwrap();
    assert_eq!(result.len(), 1);
}

#[test]
fn parse_unknown_type_rejected() {
    let json = r#"[{"type":"unknown_type","data":"test"}]"#;
    let span_ids = vec!["s1".to_string()];
    let result = parse_observations_from_json(json, &span_ids);
    assert!(result.is_err(), "unknown type should be rejected");
}

#[test]
fn parse_mixed_observations() {
    let json = r#"[
        {"type":"entity_introduction","subject_mention":"张三","entity_type":"character","aliases":[],"short_summary":"主角","evidence_span_ids":["s1"],"confidence":0.9},
        {"type":"alias","subject_mention":"张三","alias":"小张","alias_type":"nickname","evidence_span_ids":["s1"],"confidence":0.8},
        {"type":"property_update","subject_mention":"张三","dimension_key":"realm","value_text":"金丹","evidence_span_ids":["s1"],"confidence":0.85},
        {"type":"summary","summary":"本章介绍张三","key_points":[],"has_important_changes":false}
    ]"#;
    let span_ids = vec!["s1".to_string()];
    let result = parse_observations_from_json(json, &span_ids).unwrap();
    assert_eq!(result.len(), 4);
}

#[test]
fn classify_risk_identity_variants_are_high() {
    let observations = vec![
        Observation::IdentityReveal {
            revealed_mention: "黑衣人".to_string(),
            canonical_mention: "张三".to_string(),
            reveal_type: "disguise".to_string(),
            reason_hint: Some("摘下面具".to_string()),
            evidence_span_ids: vec!["s1".to_string()],
            confidence: score(0.95),
        },
        Observation::EntityMergeCandidate {
            entity_a_mention: "黑衣人".to_string(),
            entity_b_mention: "张三".to_string(),
            reason_hint: Some("明示同一人".to_string()),
            evidence_span_ids: vec!["s1".to_string()],
            confidence: score(0.8),
        },
        Observation::EntitySplitCandidate {
            entity_a_mention: "张三".to_string(),
            entity_b_mention: "另一个张三".to_string(),
            reason_hint: Some("两人同时出现".to_string()),
            evidence_span_ids: vec!["s1".to_string()],
            confidence: score(0.75),
        },
        Observation::NotSameIdentity {
            entity_a_mention: "此张三".to_string(),
            entity_b_mention: "彼张三".to_string(),
            reason_hint: Some("并非同一人".to_string()),
            evidence_span_ids: vec!["s1".to_string()],
            confidence: score(0.9),
        },
    ];

    for obs in observations {
        assert_eq!(classify_risk(&obs), RiskLevel::High);
    }
}

#[test]
fn parse_valid_identity_observations() {
    let json = r#"[
        {"type":"identity_reveal","revealed_mention":"黑衣人","canonical_mention":"张三","reveal_type":"disguise","reason_hint":"摘下面具","evidence_span_ids":["s1","s2"],"confidence":0.95},
        {"type":"entity_merge_candidate","entity_a_mention":"黑衣人","entity_b_mention":"张三","reason_hint":"明示同一人","evidence_span_ids":["s1"],"confidence":0.8},
        {"type":"entity_split_candidate","entity_a_mention":"此张三","entity_b_mention":"彼张三","reason_hint":"同时出现","evidence_span_ids":["s2"],"confidence":0.7},
        {"type":"not_same_identity","entity_a_mention":"此张三","entity_b_mention":"彼张三","reason_hint":"并非同一人","evidence_span_ids":["s1","s2"],"confidence":0.9}
    ]"#;
    let span_ids = vec!["s1".to_string(), "s2".to_string()];
    let result = parse_observations_from_json(json, &span_ids).unwrap();
    assert_eq!(result.len(), 4);

    match &result[0] {
        Observation::IdentityReveal {
            revealed_mention,
            canonical_mention,
            evidence_span_ids,
            ..
        } => {
            assert_eq!(revealed_mention, "黑衣人");
            assert_eq!(canonical_mention, "张三");
            assert_eq!(evidence_span_ids, &vec!["s1".to_string(), "s2".to_string()]);
        }
        _ => panic!("expected IdentityReveal"),
    }

    match &result[3] {
        Observation::NotSameIdentity {
            entity_a_mention,
            entity_b_mention,
            ..
        } => {
            assert_eq!(entity_a_mention, "此张三");
            assert_eq!(entity_b_mention, "彼张三");
        }
        _ => panic!("expected NotSameIdentity"),
    }
}

#[test]
fn parse_valid_knowledge_assertion() {
    let json = r#"[
        {
          "type": "knowledge_assertion",
          "category": "power_system",
          "topic": "修炼境界",
          "assertion_text": "修炼境界分为炼气、筑基、金丹。",
          "confidence": 0.9,
          "importance_score": 0.8,
          "evidence_span_ids": ["s1"],
          "referenced_entity_mentions": [
            {"mention":"金丹","entity_type_hint":"realm","role":"realm","confidence":0.9}
          ],
          "status_hint": "fact",
          "reason_hint": "旁白说明境界体系"
        }
    ]"#;
    let parsed = parse_observations_from_json(json, &["s1".to_string()]).unwrap();
    assert_eq!(parsed.len(), 1);
    match &parsed[0] {
        Observation::KnowledgeAssertion {
            category,
            topic,
            assertion_text,
            importance_score,
            referenced_entity_mentions,
            status_hint,
            ..
        } => {
            assert_eq!(category, "power_system");
            assert_eq!(topic, "修炼境界");
            assert_eq!(assertion_text, "修炼境界分为炼气、筑基、金丹。");
            assert_eq!(*importance_score, score(0.8));
            assert_eq!(referenced_entity_mentions.len(), 1);
            assert_eq!(referenced_entity_mentions[0].mention, "金丹");
            assert_eq!(status_hint.as_deref(), Some("fact"));
        }
        _ => panic!("expected knowledge assertion"),
    }
}

#[test]
fn parse_knowledge_assertion_skips_incomplete_entity_refs() {
    let json = r#"[
        {
          "type": "knowledge_assertion",
          "category": "world_rule",
          "topic": "奥术师考核",
          "assertion_text": "正式奥术师必须通过基础课程考核。",
          "confidence": 0.9,
          "importance_score": 0.8,
          "evidence_span_ids": ["s1"],
          "referenced_entity_mentions": [
            {},
            {"role":"related"},
            {"mention":"知识议会","entity_type_hint":"organization","role":"faction","confidence":0.9}
          ],
          "status_hint": "fact"
        }
    ]"#;
    let parsed = parse_observations_from_json(json, &["s1".to_string()]).unwrap();
    match &parsed[0] {
        Observation::KnowledgeAssertion {
            referenced_entity_mentions,
            ..
        } => {
            assert_eq!(referenced_entity_mentions.len(), 1);
            assert_eq!(referenced_entity_mentions[0].mention, "知识议会");
        }
        _ => panic!("expected knowledge assertion"),
    }
}

#[test]
fn parse_knowledge_assertion_invalid_category_rejected() {
    let json = r#"[{"type":"knowledge_assertion","category":"temporary_event","topic":"x","assertion_text":"x","evidence_span_ids":["s1"],"confidence":0.8,"importance_score":0.7}]"#;
    assert!(parse_observations_from_json(json, &["s1".to_string()]).is_err());
}

#[test]
fn parse_knowledge_assertion_missing_evidence_rejected() {
    let json = r#"[{"type":"knowledge_assertion","category":"history","topic":"x","assertion_text":"x","confidence":0.8,"importance_score":0.7}]"#;
    assert!(parse_observations_from_json(json, &["s1".to_string()]).is_err());
}

#[test]
fn parse_knowledge_assertion_importance_out_of_range_rejected() {
    let json = r#"[{"type":"knowledge_assertion","category":"history","topic":"x","assertion_text":"x","evidence_span_ids":["s1"],"confidence":0.8,"importance_score":1.7}]"#;
    assert!(parse_observations_from_json(json, &["s1".to_string()]).is_err());
}

#[test]
fn parse_knowledge_assertion_rejects_mistyped_property_shape() {
    let json = r#"[{"type":"knowledge_assertion","category":"power_system","topic":"张三境界","assertion_text":"张三突破金丹。","subject_mention":"张三","dimension_key":"realm","evidence_span_ids":["s1"],"confidence":0.8,"importance_score":0.7}]"#;
    assert!(parse_observations_from_json(json, &["s1".to_string()]).is_err());
}

#[test]
fn parse_knowledge_assertion_rejects_mistyped_relationship_shape() {
    let json = r#"[{"type":"knowledge_assertion","category":"faction_structure","topic":"张三李四","assertion_text":"张三和李四结盟。","subject_mention":"张三","object_mention":"李四","relation_group":"alliance","evidence_span_ids":["s1"],"confidence":0.8,"importance_score":0.7}]"#;
    assert!(parse_observations_from_json(json, &["s1".to_string()]).is_err());
}

#[test]
fn parse_knowledge_assertion_rejects_mistyped_identity_shape() {
    let json = r#"[{"type":"knowledge_assertion","category":"secret","topic":"黑衣人身份","assertion_text":"黑衣人其实是张三。","revealed_mention":"黑衣人","canonical_mention":"张三","reveal_type":"disguise","evidence_span_ids":["s1"],"confidence":0.8,"importance_score":0.7}]"#;
    assert!(parse_observations_from_json(json, &["s1".to_string()]).is_err());
}

#[test]
fn parse_knowledge_assertion_rejects_mistyped_map_edge_shape() {
    let json = r#"[{"type":"knowledge_assertion","category":"geography","topic":"青云门方位","assertion_text":"青云门在东域以北。","from_place_mention":"青云门","to_place_mention":"东域","edge_type":"north_of","evidence_span_ids":["s1"],"confidence":0.8,"importance_score":0.7}]"#;
    assert!(parse_observations_from_json(json, &["s1".to_string()]).is_err());
}


#[test]
fn mock_extractor_cites_the_segment_spans() {
    let extractor = MockExtractor::new(vec![
        Observation::PropertyUpdate {
            subject_mention: "张三".to_string(),
            dimension_key: "realm".to_string(),
            value_text: Some("筑基期".to_string()),
            value_json: Some(JsonValue::Object(vec![("tier".to_string(), JsonValue::Str("2".to_string()))])),
            evidence_span_ids: vec!["old".to_string()],
            confidence: score(0.9),
        },
        Observation::Summary {
            summary: "s".to_string(),
            key_points: vec![],
            has_important_changes: false,
        },
    ]);
    let spans = vec!["span-a".to_string(), "span-b".to_string()];
    let out = extractor.extract("context", &spans).unwrap();
    assert_eq!(out.len(), 2);
    assert_eq!(out[0].evidence_span_ids(), spans.as_slice());
    match &out[0] {
        Observation::PropertyUpdate { subject_mention, value_json: Some(JsonValue::Object(m)), .. } => {
            assert_eq!(subject_mention, "张三");
            assert_eq!(m.len(), 1);
            assert_eq!(m[0].0, "tier");
        }
        other => panic!("expected property update, got {other:?}"),
    }
    assert!(out[1].evidence_span_ids().is_empty());
    assert!(AiExtractor::new().extract("context", &spans).unwrap().is_empty());
}

#[test]
fn classify_risk_death_in_capitals_is_high() {
    let obs = Observation::PropertyUpdate {
        subject_mention: "John".to_string(),
        dimension_key: "life_status".to_string(),
        value_text: Some("He DIED at dawn".to_string()),
        value_json: None,
        evidence_span_ids: vec![],
        confidence: score(0.8),
    };
    assert_eq!(classify_risk(&obs), RiskLevel::High);
}

#[test]
fn fenced_and_bare_output_give_the_same_observations() {
    let bare = r#"[{"type":"minor_event","description":"两人切磋","evidence_span_ids":["s1"],"confidence":0.7}]"#;
    let fenced = format!("```json\n{}\n```", bare);
    let ids = vec!["s1".to_string()];
    assert_eq!(strip_markdown_fences(&fenced), strip_markdown_fences(bare));
    let a = parse_observations_from_json(bare, &ids).unwrap();
    let b = parse_observations_from_json(&fenced, &ids).unwrap();
    assert_eq!(format!("{a:?}"), format!("{b:?}"));
}

#[test]
fn one_bad_item_refuses_the_whole_output_and_good_output_keeps_order() {
    let ids = vec!["s1".to_string()];
    let good = r#"[{"type":"minor_event","description":"a","evidence_span_ids":["s1"]},{"type":"alias","subject_mention":"张三","alias":"三哥","evidence_span_ids":["s1"]}]"#;
    let obs = parse_observations_from_json(good, &ids).unwrap();
    assert_eq!(obs.len(), 2);
    assert!(matches!(obs[0], Observation::MinorEvent { .. }));
    assert!(matches!(obs[1], Observation::Alias { .. }));
    let bad_span = r#"[{"type":"minor_event","description":"a","evidence_span_ids":["s1"]},{"type":"alias","subject_mention":"张三","alias":"三哥","evidence_span_ids":["nope"]}]"#;
    assert!(parse_observations_from_json(bad_span, &ids).is_err());
    let no_span = r#"[{"type":"minor_event","description":"a","evidence_span_ids":[]}]"#;
    assert!(parse_observations_from_json(no_span, &ids).is_err());
    let bad_importance = r#"[{"type":"knowledge_assertion","category":"power_system","topic":"境界","assertion_text":"修炼分九层。","evidence_span_ids":["s1"],"importance_score":1.5}]"#;
    assert!(parse_observations_from_json(bad_importance, &ids).is_err());
    let mistyped = r#"[{"type":"knowledge_assertion","category":"power_system","topic":"境界","assertion_text":"修炼分九层。","evidence_span_ids":["s1"],"edge_type":"north_of"}]"#;
    assert!(parse_observations_from_json(mistyped, &ids).is_err());
}

#[test]
fn out_of_range_confidence_is_reported_with_its_value() {
    let ids = vec!["s1".to_string()];
    let raw = r#"[{"type":"minor_event","description":"a","evidence_span_ids":["s1"],"confidence":1.5}]"#;
    assert_eq!(parse_observations_from_json(raw, &ids).unwrap_err(), "confidence out of range: 1.5");
    let raw = r#"[{"type":"knowledge_assertion","category":"power_system","topic":"境界","assertion_text":"修炼分九层。","evidence_span_ids":["s1"],"importance_score":-0.25}]"#;
    assert_eq!(parse_observations_from_json(raw, &ids).unwrap_err(), "importance_score out of range: -0.25");
}
