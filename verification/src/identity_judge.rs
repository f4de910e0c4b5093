//! Identity judging: the structural gate in front of the identity judge,
//! the checks on judge output, and the judge input assembled from records.
use vstd::prelude::*;
use crate::outcome::{check_view, text_view, GateView};
use crate::records::{
    AliasRecord, ClaimRecord, CurrentPropertyRecord, EntityRecord, IdentityLinkRecord,
    RelationshipRecord, SourceSpanRecord,
};
use crate::score::{less_than, outside_unit, Score, KEY_HALF};
use crate::text::{
    is_blank, join2, join3, owned, str_eq, str_in, str_is_blank, str_le, lex_le, trim,
    trim_end_char, views_of, ends_with,
};

verus! {

/// What the identity structural gate decides.
#[derive(Debug, Clone, PartialEq)]
pub enum IdentityGateResult {
    Pass,
    Reject(String),
    Uncertain(String),
}

impl View for IdentityGateResult {
    type V = GateView;

    open spec fn view(&self) -> GateView {
        match *self {
            IdentityGateResult::Pass => GateView::Pass,
            IdentityGateResult::Reject(r) => GateView::Reject(r@),
            IdentityGateResult::Uncertain(r) => GateView::Uncertain(r@),
        }
    }
}

/// Whether the entity is present with a type other than `character`.
pub open spec fn not_character(e: Option<&EntityRecord>) -> bool {
    e is Some && e->0.entity_type@ != "character"@
}

/// The identity gate: evidence present, pair not blocked, not
/// self-referential, only characters, at least one side resolved, confidence
/// at least one half, both sides resolved.
pub open spec fn identity_gate_spec(
    claim: ClaimRecord,
    entity_a: Option<&EntityRecord>,
    entity_b: Option<&EntityRecord>,
    blocked: bool,
) -> GateView {
    if is_blank(claim.primary_source_span_id@) {
        GateView::Reject("missing evidence"@)
    } else if blocked {
        GateView::Reject("active not_same_identity link already blocks this pair"@)
    } else if claim.subject_entity_id is Some && claim.object_entity_id is Some
        && claim.subject_entity_id->0@ == claim.object_entity_id->0@ {
        GateView::Reject("identity pair is self-referential"@)
    } else if not_character(entity_a) {
        GateView::Reject("entity_a entity_type is '"@ + entity_a->0.entity_type@ + "', not 'character'"@)
    } else if not_character(entity_b) {
        GateView::Reject("entity_b entity_type is '"@ + entity_b->0.entity_type@ + "', not 'character'"@)
    } else if entity_a is None && entity_b is None {
        GateView::Reject("both identity sides are unresolved"@)
    } else if less_than(claim.confidence, KEY_HALF) {
        GateView::Uncertain("identity evidence is too weak"@)
    } else if entity_a is None || entity_b is None {
        GateView::Uncertain("identity pair is only partially resolved"@)
    } else {
        GateView::Pass
    }
}

/// Checks an identity claim before it reaches the identity judge.
pub fn structural_gate(
    claim: &ClaimRecord,
    entity_a: Option<&EntityRecord>,
    entity_b: Option<&EntityRecord>,
    blocked_by_not_same_identity: bool,
) -> (r: IdentityGateResult)
    ensures
        r@ == identity_gate_spec(*claim, entity_a, entity_b, blocked_by_not_same_identity),
{
    if str_is_blank(claim.primary_source_span_id.as_str()) {
        return IdentityGateResult::Reject(owned("missing evidence"));
    }
    if blocked_by_not_same_identity {
        return IdentityGateResult::Reject(owned("active not_same_identity link already blocks this pair"));
    }
    match (&claim.subject_entity_id, &claim.object_entity_id) {
        (Some(left), Some(right)) => {
            if str_eq(left.as_str(), right.as_str()) {
                return IdentityGateResult::Reject(owned("identity pair is self-referential"));
            }
        },
        _ => {},
    }
    match entity_a {
        Some(entity) => {
            if !str_eq(entity.entity_type.as_str(), "character") {
                return IdentityGateResult::Reject(
                    join3("entity_a entity_type is '", entity.entity_type.as_str(), "', not 'character'"),
                );
            }
        },
        None => {},
    }
    match entity_b {
        Some(entity) => {
            if !str_eq(entity.entity_type.as_str(), "character") {
                return IdentityGateResult::Reject(
                    join3("entity_b entity_type is '", entity.entity_type.as_str(), "', not 'character'"),
                );
            }
        },
        None => {},
    }
    if entity_a.is_none() && entity_b.is_none() {
        return IdentityGateResult::Reject(owned("both identity sides are unresolved"));
    }
    if claim.confidence.below(KEY_HALF) {
        return IdentityGateResult::Uncertain(owned("identity evidence is too weak"));
    }
    if entity_a.is_none() || entity_b.is_none() {
        return IdentityGateResult::Uncertain(owned("identity pair is only partially resolved"));
    }
    IdentityGateResult::Pass
}

/// The identity judge's decision.
#[derive(Debug, Clone, Copy, PartialEq, Eq, Structural)]
pub enum IdentityJudgeDecision {
    Merge,
    PossibleSameIdentity,
    NotSameIdentity,
    Reject,
    Uncertain,
    SplitRequired,
}

/// What the identity judge returns.
#[derive(Debug, Clone, PartialEq)]
pub struct IdentityJudgeOutput {
    pub decision: IdentityJudgeDecision,
    pub link_type: String,
    pub survivor_hint: String,
    pub confidence: Score,
    pub reason_code: String,
    pub explanation_for_log: String,
    pub property_conflicts: Vec<String>,
    pub relationship_migration_hint: String,
}

/// Identity link types.
#[verifier::opaque]
pub open spec fn identity_link_types() -> Seq<Seq<char>> {
    seq![
        "same_identity"@, "possible_same_identity"@, "not_same_identity"@, "disguise"@,
        "alias_reveal"@, "true_name_reveal"@, "mistaken_identity"@,
    ]
}

/// Survivor hints.
#[verifier::opaque]
pub open spec fn survivor_hints() -> Seq<Seq<char>> {
    seq!["entity_a"@, "entity_b"@, "unknown"@]
}

/// Relationship migration hints.
#[verifier::opaque]
pub open spec fn migration_hints() -> Seq<Seq<char>> {
    seq!["safe"@, "dedupe_required"@, "self_edge_risk"@, "unknown"@]
}

/// The field checks on judge output: confidence neither below 0 nor above 1
/// (a NaN passes, as on `f64`), reported with `confidence_text`, its decimal
/// text; then a known link type, survivor hint and relationship migration
/// hint, in that order.
pub open spec fn output_fields_spec(o: IdentityJudgeOutput, confidence_text: Seq<char>) -> Result<(), Seq<char>> {
    if outside_unit(o.confidence) {
        Err("confidence out of range: "@ + confidence_text)
    } else if !identity_link_types().contains(o.link_type@) {
        Err("invalid link_type: "@ + o.link_type@)
    } else if !survivor_hints().contains(o.survivor_hint@) {
        Err("invalid survivor_hint: "@ + o.survivor_hint@)
    } else if !migration_hints().contains(o.relationship_migration_hint@) {
        Err("invalid relationship_migration_hint: "@ + o.relationship_migration_hint@)
    } else {
        Ok(())
    }
}

/// Checks the fields of judge output; `confidence_text` is the decimal text
/// of its confidence, which a confidence out of range is reported with.
pub fn validate_judge_output_fields(output: &IdentityJudgeOutput, confidence_text: &str) -> (r: Result<(), String>)
    ensures
        check_view(r) == output_fields_spec(*output, confidence_text@),
{
    if output.confidence.is_outside_unit() {
        return Err(join2("confidence out of range: ", confidence_text));
    }
    let link_types = [
        "same_identity", "possible_same_identity", "not_same_identity", "disguise",
        "alias_reveal", "true_name_reveal", "mistaken_identity",
    ];
    proof {
        reveal(identity_link_types);
    }
    assert(views_of(link_types@) =~= identity_link_types());
    if !str_in(output.link_type.as_str(), &link_types) {
        return Err(join2("invalid link_type: ", output.link_type.as_str()));
    }
    let hints = ["entity_a", "entity_b", "unknown"];
    proof {
        reveal(survivor_hints);
    }
    assert(views_of(hints@) =~= survivor_hints());
    if !str_in(output.survivor_hint.as_str(), &hints) {
        return Err(join2("invalid survivor_hint: ", output.survivor_hint.as_str()));
    }
    let migrations = ["safe", "dedupe_required", "self_edge_risk", "unknown"];
    proof {
        reveal(migration_hints);
    }
    assert(views_of(migrations@) =~= migration_hints());
    if !str_in(output.relationship_migration_hint.as_str(), &migrations) {
        return Err(join2("invalid relationship_migration_hint: ", output.relationship_migration_hint.as_str()));
    }
    Ok(())
}

/// The decision checks: a merge needs both sides resolved and a link type
/// other than `not_same_identity`; possible-same, not-same and split
/// decisions need their own link type; reject and uncertain need nothing.
pub open spec fn decision_spec(o: IdentityJudgeOutput, pair_fully_resolved: bool) -> Result<(), Seq<char>> {
    match o.decision {
        IdentityJudgeDecision::Merge => if !pair_fully_resolved {
            Err("merge decision requires both identity sides resolved"@)
        } else if o.link_type@ == "not_same_identity"@ {
            Err("merge decision cannot use not_same_identity link_type"@)
        } else {
            Ok(())
        },
        IdentityJudgeDecision::PossibleSameIdentity => if o.link_type@ != "possible_same_identity"@ {
            Err("possible_same_identity decision requires possible_same_identity link_type"@)
        } else {
            Ok(())
        },
        IdentityJudgeDecision::NotSameIdentity => if o.link_type@ != "not_same_identity"@ {
            Err("not_same_identity decision requires not_same_identity link_type"@)
        } else {
            Ok(())
        },
        IdentityJudgeDecision::SplitRequired => if o.link_type@ != "mistaken_identity"@ {
            Err("split_required decision requires mistaken_identity link_type"@)
        } else {
            Ok(())
        },
        IdentityJudgeDecision::Reject | IdentityJudgeDecision::Uncertain => Ok(()),
    }
}

/// Checks that the judge's decision agrees with its link type and with how
/// far the pair is resolved.
pub fn validate_judge_decision(output: &IdentityJudgeOutput, pair_fully_resolved: bool) -> (r: Result<(), String>)
    ensures
        check_view(r) == decision_spec(*output, pair_fully_resolved),
{
    match output.decision {
        IdentityJudgeDecision::Merge => {
            if !pair_fully_resolved {
                return Err(owned("merge decision requires both identity sides resolved"));
            }
            if str_eq(output.link_type.as_str(), "not_same_identity") {
                return Err(owned("merge decision cannot use not_same_identity link_type"));
            }
        },
        IdentityJudgeDecision::PossibleSameIdentity => {
            if !str_eq(output.link_type.as_str(), "possible_same_identity") {
                return Err(owned("possible_same_identity decision requires possible_same_identity link_type"));
            }
        },
        IdentityJudgeDecision::NotSameIdentity => {
            if !str_eq(output.link_type.as_str(), "not_same_identity") {
                return Err(owned("not_same_identity decision requires not_same_identity link_type"));
            }
        },
        IdentityJudgeDecision::SplitRequired => {
            if !str_eq(output.link_type.as_str(), "mistaken_identity") {
                return Err(owned("split_required decision requires mistaken_identity link_type"));
            }
        },
        IdentityJudgeDecision::Reject | IdentityJudgeDecision::Uncertain => {},
    }
    Ok(())
}

/// The repair of judge output that did not parse: trimmed and stripped of
/// trailing commas; kept when it ends with `}`, else closed with `}` when that
/// parses as JSON, else refused.
pub open spec fn repair_spec(raw: Seq<char>, failure: Seq<char>) -> Result<Seq<char>, Seq<char>> {
    let t = trim_end_char(trim(raw), ',');
    if ends_with(t, "}"@) {
        Ok(t)
    } else if crate::json::is_json_text(t + "}"@) {
        Ok(t + "}"@)
    } else {
        Err(failure)
    }
}

/// The repair shared by the identity and knowledge judges, refusing with `failure`.
pub fn repair_closing_brace(raw: &str, failure: &str) -> (r: Result<String, String>)
    ensures
        text_view(r) == repair_spec(raw@, failure@),
{
    let trimmed = crate::text::trim_str(raw);
    let t = crate::text::trim_end_char_str(trimmed.as_str(), ',');
    if crate::text::str_ends_with(t.as_str(), "}") {
        return Ok(t);
    }
    let repaired = join2(t.as_str(), "}");
    if crate::json::parses_as_json(repaired.as_str()) {
        return Ok(repaired);
    }
    Err(owned(failure))
}

/// Repairs identity judge output that did not parse.
pub fn try_repair_json(raw: &str) -> (r: Result<String, String>)
    ensures
        text_view(r) == repair_spec(raw@, "无法修复 JSON"@),
{
    repair_closing_brace(raw, "无法修复 JSON")
}

/// The prompt text before the rendered judge input.
pub open spec fn identity_prompt_head() -> Seq<char> {
    "## Identity Judge Input\n"@
}

/// The prompt text after the rendered judge input.
pub open spec fn identity_prompt_tail() -> Seq<char> {
    "\n\n## Instructions\n\
     判断这两个实体是否代表同一真实人物。\n\
     - merge: 明确同一人，允许后续 merge reducer 处理\n\
     - possible_same_identity: 有较强同一人信号，但不足以 merge\n\
     - not_same_identity: 明确不是同一人\n\
     - reject: 明确不成立或违反硬规则\n\
     - uncertain: 证据不足\n\
     - split_required: 历史 canonical 可能误合并，但当前不自动 split\n\n\
     硬规则：\n\
     - 没有明确 source-span 证据不能 merge\n\
     - 名字相似不能单独触发 merge\n\
     - 若 blocked_reason 非空，不得输出 merge\n\n\
     link_type 必须是以下之一： same_identity, possible_same_identity, not_same_identity, disguise, alias_reveal, true_name_reveal, mistaken_identity\n\
     survivor_hint 必须是以下之一： entity_a, entity_b, unknown\n\
     relationship_migration_hint 必须是以下之一： safe, dedupe_required, self_edge_risk, unknown\n\n\
     输出严格 JSON 对象，字段： decision, link_type, survivor_hint, confidence, reason_code, explanation_for_log, property_conflicts, relationship_migration_hint"@
}

/// The identity judge prompt around `input_json`, the pretty-printed judge input.
pub fn build_judge_prompt(input_json: &str) -> (r: String)
    ensures
        r@ == identity_prompt_head() + input_json@ + identity_prompt_tail(),
{
    join3(
        "## Identity Judge Input\n",
        input_json,
        "\n\n## Instructions\n\
         判断这两个实体是否代表同一真实人物。\n\
         - merge: 明确同一人，允许后续 merge reducer 处理\n\
         - possible_same_identity: 有较强同一人信号，但不足以 merge\n\
         - not_same_identity: 明确不是同一人\n\
         - reject: 明确不成立或违反硬规则\n\
         - uncertain: 证据不足\n\
         - split_required: 历史 canonical 可能误合并，但当前不自动 split\n\n\
         硬规则：\n\
         - 没有明确 source-span 证据不能 merge\n\
         - 名字相似不能单独触发 merge\n\
         - 若 blocked_reason 非空，不得输出 merge\n\n\
         link_type 必须是以下之一： same_identity, possible_same_identity, not_same_identity, disguise, alias_reveal, true_name_reveal, mistaken_identity\n\
         survivor_hint 必须是以下之一： entity_a, entity_b, unknown\n\
         relationship_migration_hint 必须是以下之一： safe, dedupe_required, self_edge_risk, unknown\n\n\
         输出严格 JSON 对象，字段： decision, link_type, survivor_hint, confidence, reason_code, explanation_for_log, property_conflicts, relationship_migration_hint",
    )
}

/// An identity judge: its answer for an identity claim.
pub trait IdentityJudge {
    fn judge(&self, claim: &ClaimRecord) -> Result<IdentityJudgeOutput, String>;
}

/// Identity judge that holds every pair as uncertain.
pub struct DefaultIdentityJudge;

impl DefaultIdentityJudge {
    /// The default judge.
    pub fn new() -> (r: DefaultIdentityJudge) {
        DefaultIdentityJudge
    }
}

impl IdentityJudge for DefaultIdentityJudge {
    /// Its answer for any claim: uncertain, possible same identity, unknown
    /// survivor and migration, confidence zero.
    fn judge(&self, claim: &ClaimRecord) -> (r: Result<IdentityJudgeOutput, String>)
        ensures
            r matches Ok(o) && {
                &&& o.decision == IdentityJudgeDecision::Uncertain
                &&& o.link_type@ == "possible_same_identity"@
                &&& o.survivor_hint@ == "unknown"@
                &&& o.confidence == Score::zero_value()
                &&& o.reason_code@ == "default_identity_judge"@
                &&& o.explanation_for_log@ == "Default identity judge: no real AI judge wired yet"@
                &&& o.property_conflicts@.len() == 0
                &&& o.relationship_migration_hint@ == "unknown"@
            },
    {
        Ok(IdentityJudgeOutput {
            decision: IdentityJudgeDecision::Uncertain,
            link_type: owned("possible_same_identity"),
            survivor_hint: owned("unknown"),
            confidence: Score::zero(),
            reason_code: owned("default_identity_judge"),
            explanation_for_log: owned("Default identity judge: no real AI judge wired yet"),
            property_conflicts: Vec::new(),
            relationship_migration_hint: owned("unknown"),
        })
    }
}

/// Identity judge that answers every claim with a configured output.
pub struct MockIdentityJudge {
    pub output: IdentityJudgeOutput,
}

impl MockIdentityJudge {
    /// A judge answering with `output`.
    pub fn new(output: IdentityJudgeOutput) -> (r: MockIdentityJudge)
        ensures
            r.output == output,
    {
        MockIdentityJudge { output }
    }
}

impl IdentityJudge for MockIdentityJudge {
    /// Its answer for any claim: a copy of the configured output.
    fn judge(&self, claim: &ClaimRecord) -> (r: Result<IdentityJudgeOutput, String>)
        ensures
            r matches Ok(o) && {
                &&& o.decision == self.output.decision
                &&& o.link_type == self.output.link_type
                &&& o.survivor_hint == self.output.survivor_hint
                &&& o.confidence == self.output.confidence
                &&& o.reason_code == self.output.reason_code
                &&& o.explanation_for_log == self.output.explanation_for_log
                &&& o.property_conflicts@ == self.output.property_conflicts@
                &&& o.relationship_migration_hint == self.output.relationship_migration_hint
            },
    {
        let o = &self.output;
        let mut conflicts: Vec<String> = Vec::new();
        let mut i: usize = 0;
        while i < o.property_conflicts.len()
            invariant
                i <= o.property_conflicts@.len(),
                conflicts@ == o.property_conflicts@.subrange(0, i as int),
            decreases o.property_conflicts.len() - i,
        {
            conflicts.push(o.property_conflicts[i].clone());
            assert(conflicts@ =~= o.property_conflicts@.subrange(0, i + 1));
            i = i + 1;
        }
        assert(o.property_conflicts@.subrange(0, o.property_conflicts@.len() as int) =~= o.property_conflicts@);
        Ok(IdentityJudgeOutput {
            decision: o.decision,
            link_type: o.link_type.clone(),
            survivor_hint: o.survivor_hint.clone(),
            confidence: o.confidence,
            reason_code: o.reason_code.clone(),
            explanation_for_log: o.explanation_for_log.clone(),
            property_conflicts: conflicts,
            relationship_migration_hint: o.relationship_migration_hint.clone(),
        })
    }
}


/// A current property of an entity, as the judge sees it.
#[derive(Debug)]
pub struct IdentityJudgePropertyInput {
    pub dimension_key: String,
    pub value_text: Option<String>,
}

/// A relationship of an entity, as the judge sees it.
#[derive(Debug)]
pub struct IdentityJudgeRelationshipInput {
    pub other_entity_id: String,
    pub relation_group: String,
    pub relation_label: String,
}

/// One side of the pair, as the judge sees it.
#[derive(Debug)]
pub struct IdentityJudgeEntityInput {
    pub id: String,
    pub canonical_name: String,
    pub display_name: String,
    pub aliases: Vec<String>,
    pub current_properties: Vec<IdentityJudgePropertyInput>,
    pub recent_relationships: Vec<IdentityJudgeRelationshipInput>,
}

/// An existing identity link, as the judge sees it.
#[derive(Debug)]
pub struct IdentityJudgeLinkInput {
    pub entity_a_id: String,
    pub entity_b_id: String,
    pub link_type: String,
    pub status: String,
    pub confidence: Score,
}

/// Everything the identity judge is given about one claim.
#[derive(Debug)]
pub struct IdentityJudgeInput {
    pub claim_id: String,
    pub claim_type: String,
    pub claim_text_summary: String,
    pub entity_a: IdentityJudgeEntityInput,
    pub entity_b: IdentityJudgeEntityInput,
    pub evidence_spans: Vec<String>,
    pub existing_identity_links: Vec<IdentityJudgeLinkInput>,
    pub blocked_reason: Option<String>,
    pub related_relationships: Vec<IdentityJudgeRelationshipInput>,
}

/// A relationship seen from the entity `id`: the other side with the group
/// and label, or `None` when the entity is on neither side.
pub open spec fn relationship_from(id: Seq<char>, rel: RelationshipRecord) -> Option<(Seq<char>, Seq<char>, Seq<char>)> {
    if rel.subject_character_id@ == id {
        Some((rel.object_character_id@, rel.relation_group@, rel.relation_label@))
    } else if rel.object_character_id@ == id {
        Some((rel.subject_character_id@, rel.relation_group@, rel.relation_label@))
    } else {
        None
    }
}

/// The relationships that involve the entity `id`, seen from it, in order.
pub open spec fn relationships_from(id: Seq<char>, rels: Seq<RelationshipRecord>) -> Seq<(Seq<char>, Seq<char>, Seq<char>)>
    decreases rels.len(),
{
    if rels.len() == 0 {
        Seq::empty()
    } else {
        let prev = relationships_from(id, rels.drop_last());
        match relationship_from(id, rels.last()) {
            Some(t) => prev.push(t),
            None => prev,
        }
    }
}

/// The view of a judge relationship input.
pub open spec fn rel_input_view(r: IdentityJudgeRelationshipInput) -> (Seq<char>, Seq<char>, Seq<char>) {
    (r.other_entity_id@, r.relation_group@, r.relation_label@)
}

/// The views of judge relationship inputs.
pub open spec fn rel_input_views(v: Seq<IdentityJudgeRelationshipInput>) -> Seq<(Seq<char>, Seq<char>, Seq<char>)> {
    v.map_values(|r: IdentityJudgeRelationshipInput| rel_input_view(r))
}

/// The relationships of `relationships` that involve `entity_id`, seen from it.
pub fn relationships_of(entity_id: &str, relationships: &[RelationshipRecord]) -> (r: Vec<IdentityJudgeRelationshipInput>)
    ensures
        rel_input_views(r@) == relationships_from(entity_id@, relationships@),
{
    let mut out: Vec<IdentityJudgeRelationshipInput> = Vec::new();
    let mut i: usize = 0;
    assert(relationships@.subrange(0, 0) =~= Seq::<RelationshipRecord>::empty());
    assert(rel_input_views(out@) =~= Seq::<(Seq<char>, Seq<char>, Seq<char>)>::empty());
    while i < relationships.len()
        invariant
            i <= relationships@.len(),
            rel_input_views(out@) == relationships_from(entity_id@, relationships@.subrange(0, i as int)),
        decreases relationships.len() - i,
    {
        let rel = &relationships[i];
        let ghost before = out@;
        assert(relationships@.subrange(0, i + 1).drop_last() =~= relationships@.subrange(0, i as int));
        assert(relationships@.subrange(0, i + 1).last() == relationships@[i as int]);
        if str_eq(rel.subject_character_id.as_str(), entity_id) {
            out.push(IdentityJudgeRelationshipInput {
                other_entity_id: rel.object_character_id.clone(),
                relation_group: rel.relation_group.clone(),
                relation_label: rel.relation_label.clone(),
            });
            assert(rel_input_views(out@) =~= rel_input_views(before).push(rel_input_view(out@.last())));
        } else if str_eq(rel.object_character_id.as_str(), entity_id) {
            out.push(IdentityJudgeRelationshipInput {
                other_entity_id: rel.subject_character_id.clone(),
                relation_group: rel.relation_group.clone(),
                relation_label: rel.relation_label.clone(),
            });
            assert(rel_input_views(out@) =~= rel_input_views(before).push(rel_input_view(out@.last())));
        }
        i = i + 1;
    }
    assert(relationships@.subrange(0, relationships@.len() as int) =~= relationships@);
    out
}

/// The aliases of an entity, in order.
pub fn alias_names(aliases: &[AliasRecord]) -> (r: Vec<String>)
    ensures
        r@.len() == aliases@.len(),
        forall|i: int| 0 <= i < aliases@.len() ==> r@[i]@ == aliases@[i].alias@,
{
    let mut out: Vec<String> = Vec::new();
    let mut i: usize = 0;
    while i < aliases.len()
        invariant
            i <= aliases@.len(),
            out@.len() == i,
            forall|k: int| 0 <= k < i ==> out@[k]@ == aliases@[k].alias@,
        decreases aliases.len() - i,
    {
        out.push(aliases[i].alias.clone());
        i = i + 1;
    }
    out
}

/// The current properties of an entity, in order.
pub fn property_inputs(props: &[CurrentPropertyRecord]) -> (r: Vec<IdentityJudgePropertyInput>)
    ensures
        r@.len() == props@.len(),
        forall|i: int|
            0 <= i < props@.len() ==> r@[i].dimension_key@ == props@[i].dimension_key@
                && crate::extractor::opt_str(r@[i].value_text) == crate::extractor::opt_str(props@[i].value_text),
{
    let mut out: Vec<IdentityJudgePropertyInput> = Vec::new();
    let mut i: usize = 0;
    while i < props.len()
        invariant
            i <= props@.len(),
            out@.len() == i,
            forall|k: int|
                0 <= k < i ==> out@[k].dimension_key@ == props@[k].dimension_key@
                    && crate::extractor::opt_str(out@[k].value_text) == crate::extractor::opt_str(props@[k].value_text),
        decreases props.len() - i,
    {
        let value_text = match &props[i].value_text {
            Some(t) => Some(t.clone()),
            None => None,
        };
        out.push(IdentityJudgePropertyInput { dimension_key: props[i].dimension_key.clone(), value_text });
        i = i + 1;
    }
    out
}

/// Whether `e` is the judge's picture of `entity` with these aliases,
/// properties and relationships.
pub open spec fn entity_input_matches(
    e: IdentityJudgeEntityInput,
    entity: EntityRecord,
    aliases: Seq<AliasRecord>,
    props: Seq<CurrentPropertyRecord>,
    relationships: Seq<RelationshipRecord>,
) -> bool {
    &&& e.id@ == entity.id@
    &&& e.canonical_name@ == entity.canonical_name@
    &&& e.display_name@ == entity.display_name@
    &&& e.aliases@.len() == aliases.len()
    &&& forall|i: int| 0 <= i < aliases.len() ==> e.aliases@[i]@ == aliases[i].alias@
    &&& e.current_properties@.len() == props.len()
    &&& forall|i: int|
        0 <= i < props.len() ==> e.current_properties@[i].dimension_key@ == props[i].dimension_key@
            && crate::extractor::opt_str(e.current_properties@[i].value_text) == crate::extractor::opt_str(props[i].value_text)
    &&& rel_input_views(e.recent_relationships@) == relationships_from(entity.id@, relationships)
}

/// One side of the pair as the judge sees it: names, aliases, current
/// properties, and the relationships that involve it, seen from it.
pub fn build_entity_input(
    entity: &EntityRecord,
    aliases: &[AliasRecord],
    props: &[CurrentPropertyRecord],
    relationships: &[RelationshipRecord],
) -> (r: IdentityJudgeEntityInput)
    ensures
        entity_input_matches(r, *entity, aliases@, props@, relationships@),
{
    IdentityJudgeEntityInput {
        id: entity.id.clone(),
        canonical_name: entity.canonical_name.clone(),
        display_name: entity.display_name.clone(),
        aliases: alias_names(aliases),
        current_properties: property_inputs(props),
        recent_relationships: relationships_of(entity.id.as_str(), relationships),
    }
}

/// A related relationship seen from entity A: its other side is the object
/// when A is the subject, else the subject.
pub open spec fn related_from_a(a_id: Seq<char>, rel: RelationshipRecord) -> (Seq<char>, Seq<char>, Seq<char>) {
    (
        if rel.subject_character_id@ == a_id {
            rel.object_character_id@
        } else {
            rel.subject_character_id@
        },
        rel.relation_group@,
        rel.relation_label@,
    )
}

/// Everything the identity judge is given about one claim.
pub fn build_identity_judge_input(
    claim: &ClaimRecord,
    entity_a: &EntityRecord,
    entity_b: &EntityRecord,
    entity_a_aliases: &[AliasRecord],
    entity_b_aliases: &[AliasRecord],
    entity_a_props: &[CurrentPropertyRecord],
    entity_b_props: &[CurrentPropertyRecord],
    source_spans: &[SourceSpanRecord],
    existing_links: &[IdentityLinkRecord],
    blocked_reason: Option<String>,
    related_relationships: &[RelationshipRecord],
) -> (r: IdentityJudgeInput)
    ensures
        r.claim_id@ == claim.id@,
        r.claim_type@ == claim.claim_type@,
        r.claim_text_summary@ == match claim.value_text {
            Some(t) => t@,
            None => claim.predicate@,
        },
        entity_input_matches(r.entity_a, *entity_a, entity_a_aliases@, entity_a_props@, related_relationships@),
        entity_input_matches(r.entity_b, *entity_b, entity_b_aliases@, entity_b_props@, related_relationships@),
        r.evidence_spans@.len() == source_spans@.len(),
        forall|i: int| 0 <= i < source_spans@.len() ==> r.evidence_spans@[i]@ == source_spans@[i].text_excerpt@,
        r.existing_identity_links@.len() == existing_links@.len(),
        forall|i: int|
            #![trigger r.existing_identity_links@[i]]
            0 <= i < existing_links@.len() ==> {
                let l = r.existing_identity_links@[i];
                let k = existing_links@[i];
                l.entity_a_id@ == k.entity_a_id@ && l.entity_b_id@ == k.entity_b_id@ && l.link_type@ == k.link_type@
                    && l.status@ == k.status@ && l.confidence == k.confidence
            },
        r.blocked_reason == blocked_reason,
        r.related_relationships@.len() == related_relationships@.len(),
        forall|i: int|
            0 <= i < related_relationships@.len() ==> rel_input_view(r.related_relationships@[i])
                == related_from_a(entity_a.id@, related_relationships@[i]),
{
    let claim_text_summary = match &claim.value_text {
        Some(t) => t.clone(),
        None => claim.predicate.clone(),
    };
    let mut evidence_spans: Vec<String> = Vec::new();
    let mut i: usize = 0;
    while i < source_spans.len()
        invariant
            i <= source_spans@.len(),
            evidence_spans@.len() == i,
            forall|k: int| 0 <= k < i ==> evidence_spans@[k]@ == source_spans@[k].text_excerpt@,
        decreases source_spans.len() - i,
    {
        evidence_spans.push(source_spans[i].text_excerpt.clone());
        i = i + 1;
    }
    let mut links: Vec<IdentityJudgeLinkInput> = Vec::new();
    let mut j: usize = 0;
    while j < existing_links.len()
        invariant
            j <= existing_links@.len(),
            links@.len() == j,
            forall|k: int|
                #![trigger links@[k]]
                0 <= k < j ==> {
                    let l = links@[k];
                    let e = existing_links@[k];
                    l.entity_a_id@ == e.entity_a_id@ && l.entity_b_id@ == e.entity_b_id@ && l.link_type@ == e.link_type@
                        && l.status@ == e.status@ && l.confidence == e.confidence
                },
        decreases existing_links.len() - j,
    {
        let link = &existing_links[j];
        links.push(IdentityJudgeLinkInput {
            entity_a_id: link.entity_a_id.clone(),
            entity_b_id: link.entity_b_id.clone(),
            link_type: link.link_type.clone(),
            status: link.status.clone(),
            confidence: link.confidence,
        });
        j = j + 1;
    }
    let mut related: Vec<IdentityJudgeRelationshipInput> = Vec::new();
    let mut m: usize = 0;
    while m < related_relationships.len()
        invariant
            m <= related_relationships@.len(),
            related@.len() == m,
            forall|k: int| 0 <= k < m ==> rel_input_view(related@[k]) == related_from_a(entity_a.id@, related_relationships@[k]),
        decreases related_relationships.len() - m,
    {
        let rel = &related_relationships[m];
        let other = if str_eq(rel.subject_character_id.as_str(), entity_a.id.as_str()) {
            rel.object_character_id.clone()
        } else {
            rel.subject_character_id.clone()
        };
        related.push(IdentityJudgeRelationshipInput {
            other_entity_id: other,
            relation_group: rel.relation_group.clone(),
            relation_label: rel.relation_label.clone(),
        });
        m = m + 1;
    }
    IdentityJudgeInput {
        claim_id: claim.id.clone(),
        claim_type: claim.claim_type.clone(),
        claim_text_summary,
        entity_a: build_entity_input(entity_a, entity_a_aliases, entity_a_props, related_relationships),
        entity_b: build_entity_input(entity_b, entity_b_aliases, entity_b_props, related_relationships),
        evidence_spans,
        existing_identity_links: links,
        blocked_reason,
        related_relationships: related,
    }
}

/// The pair in canonical order: the smaller string first.
pub open spec fn canonical_pair(left: Seq<char>, right: Seq<char>) -> (Seq<char>, Seq<char>) {
    if lex_le(left, right) {
        (left, right)
    } else {
        (right, left)
    }
}

/// Orders an identity pair so that the smaller id comes first.
pub fn canonicalize_identity_pair(left: &str, right: &str) -> (r: (String, String))
    ensures
        (r.0@, r.1@) == canonical_pair(left@, right@),
{
    if str_le(left, right) {
        (owned(left), owned(right))
    } else {
        (owned(right), owned(left))
    }
}

/// Whether an active `not_same_identity` link joins the pair, in either order.
pub open spec fn blocked_spec(links: Seq<IdentityLinkRecord>, left: Option<Seq<char>>, right: Option<Seq<char>>) -> bool {
    match (left, right) {
        (Some(l), Some(r)) => exists|i: int|
            0 <= i < links.len() && links[i].status@ == "active"@ && links[i].link_type@ == "not_same_identity"@
                && canonical_pair(links[i].entity_a_id@, links[i].entity_b_id@) == canonical_pair(l, r),
        _ => false,
    }
}

/// The view of an optional string slice.
pub open spec fn opt_slice(o: Option<&str>) -> Option<Seq<char>> {
    match o {
        Some(s) => Some(s@),
        None => None,
    }
}

/// Whether an active `not_same_identity` link already separates the pair.
pub fn blocked_by_active_not_same_identity(
    active_links: &[IdentityLinkRecord],
    left: Option<&str>,
    right: Option<&str>,
) -> (r: bool)
    ensures
        r == blocked_spec(active_links@, opt_slice(left), opt_slice(right)),
{
    let (l, r) = match (left, right) {
        (Some(l), Some(r)) => (l, r),
        _ => return false,
    };
    let pair = canonicalize_identity_pair(l, r);
    let mut i: usize = 0;
    while i < active_links.len()
        invariant
            i <= active_links@.len(),
            opt_slice(left) == Some(l@),
            opt_slice(right) == Some(r@),
            (pair.0@, pair.1@) == canonical_pair(l@, r@),
            forall|k: int|
                0 <= k < i ==> !(active_links@[k].status@ == "active"@ && active_links@[k].link_type@ == "not_same_identity"@
                    && canonical_pair(active_links@[k].entity_a_id@, active_links@[k].entity_b_id@) == canonical_pair(l@, r@)),
        decreases active_links.len() - i,
    {
        let link = &active_links[i];
        if str_eq(link.status.as_str(), "active") && str_eq(link.link_type.as_str(), "not_same_identity") {
            let other = canonicalize_identity_pair(link.entity_a_id.as_str(), link.entity_b_id.as_str());
            if str_eq(other.0.as_str(), pair.0.as_str()) && str_eq(other.1.as_str(), pair.1.as_str()) {
                assert(canonical_pair(link.entity_a_id@, link.entity_b_id@) == canonical_pair(l@, r@));
                assert(0 <= i < active_links@.len() && active_links@[i as int].status@ == "active"@
                    && active_links@[i as int].link_type@ == "not_same_identity"@
                    && canonical_pair(active_links@[i as int].entity_a_id@, active_links@[i as int].entity_b_id@)
                        == canonical_pair(l@, r@));
                return true;
            }
        }
        i = i + 1;
    }
    false
}

/// Law: the canonical order of a pair does not depend on the order in which
/// its two ids are given.
pub proof fn lemma_canonical_pair_symmetric(left: Seq<char>, right: Seq<char>)
    ensures
        canonical_pair(left, right) == canonical_pair(right, left),
{
    crate::text::lemma_lex_le_total(left, right);
    if lex_le(left, right) && lex_le(right, left) {
        crate::text::lemma_lex_le_antisymmetric(left, right);
    }
}

/// Law: whether a pair is blocked by a `not_same_identity` link does not
/// depend on the order in which its two ids are given.
pub proof fn lemma_blocked_symmetric(links: Seq<IdentityLinkRecord>, left: Seq<char>, right: Seq<char>)
    ensures
        blocked_spec(links, Some(left), Some(right)) == blocked_spec(links, Some(right), Some(left)),
{
    lemma_canonical_pair_symmetric(left, right);
}

/// Only a well-founded pair passes the identity gate: it has evidence, no
/// active not-same-identity link blocks it, both sides are resolved
/// characters, it is not one entity paired with itself, and its confidence
/// is at least one half.
pub proof fn lemma_identity_gate_pass_is_sound(
    claim: ClaimRecord,
    entity_a: Option<&EntityRecord>,
    entity_b: Option<&EntityRecord>,
    blocked: bool,
)
    requires
        identity_gate_spec(claim, entity_a, entity_b, blocked) is Pass,
    ensures
        !is_blank(claim.primary_source_span_id@),
        !blocked,
        entity_a is Some && entity_b is Some,
        entity_a->0.entity_type@ == "character"@ && entity_b->0.entity_type@ == "character"@,
        !(claim.subject_entity_id is Some && claim.object_entity_id is Some && claim.subject_entity_id->0@
            == claim.object_entity_id->0@),
        !less_than(claim.confidence, KEY_HALF),
{
}

} // verus!
