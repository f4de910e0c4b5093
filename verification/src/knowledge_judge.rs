//! Knowledge revision judging: the structural gate in front of the judge,
//! the checks on its output against the topic context, and its prompt.
use vstd::prelude::*;
use crate::extractor::{is_knowledge_category, is_knowledge_status_hint, knowledge_categories, knowledge_status_hints, opt_str};
use crate::json::{get_trimmed_str, has_key, has_member, trimmed_str_member, JsonValue};
use crate::outcome::{check_view, text_view, GateView};
use crate::records::{ClaimRecord, SourceSpanRecord};
use crate::score::{outside_unit, Score};
use crate::text::{is_blank, join2, join3, owned, str_eq, str_is_blank};

verus! {

/// The knowledge judge's decision.
#[derive(Debug, Clone, Copy, PartialEq, Eq, Structural)]
pub enum KnowledgeJudgeDecision {
    AddNew,
    Supplement,
    ReviseExisting,
    ContradictExisting,
    MarkRumor,
    MarkUncertain,
    MarkFalseInWorld,
    Reject,
}

/// What the judge does with the topic card.
#[derive(Debug, Clone, Copy, PartialEq, Eq, Structural)]
pub enum KnowledgeCardAction {
    UseExistingCard,
    CreateNewCard,
    Uncertain,
}

/// What the knowledge judge returns.
#[derive(Debug, Clone, PartialEq)]
pub struct KnowledgeJudgeOutput {
    pub decision: KnowledgeJudgeDecision,
    pub card_action: KnowledgeCardAction,
    pub target_card_id: Option<String>,
    pub affected_assertion_ids: Vec<String>,
    pub assertion_status: String,
    pub current_summary: Option<String>,
    pub confidence: Score,
    pub reason_code: String,
    pub explanation_for_log: String,
}

/// The topic a knowledge claim proposes.
#[derive(Debug, Clone)]
pub struct ProposedTopic {
    pub topic_key: String,
    pub topic_display: String,
}

/// How a candidate card was matched to the proposed topic.
#[derive(Debug, Clone, Copy, PartialEq, Eq, Structural)]
pub enum TopicCandidateMatch {
    ExactKey,
    Alias,
    RecentSameCategory,
}

/// A knowledge card that may hold the proposed topic.
#[derive(Debug, Clone)]
pub struct TopicCandidate {
    pub book_id: String,
    pub category: String,
    pub card_id: String,
    pub topic_key: String,
    pub topic_display: String,
    pub current_summary: Option<String>,
    pub match_kind: TopicCandidateMatch,
    pub score: Score,
    pub last_updated_chapter: i64,
}

/// Whether topic resolution settled on a topic.
#[derive(Debug, Clone, Copy, PartialEq, Eq, Structural)]
pub enum TopicResolutionStatus {
    Resolved,
    Uncertain,
}

/// The outcome of resolving the proposed topic against existing cards.
#[derive(Debug, Clone)]
pub struct TopicResolution {
    pub proposed: ProposedTopic,
    pub candidates: Vec<TopicCandidate>,
    pub status: TopicResolutionStatus,
    pub reason: Option<String>,
}

/// An existing assertion of a candidate card.
#[derive(Debug, Clone)]
pub struct KnowledgeJudgeAssertionInput {
    pub assertion_id: String,
    pub card_id: String,
    pub assertion_text: String,
    pub status: String,
    pub chapter_index: i64,
}

/// Everything the knowledge judge is given about one claim.
#[derive(Debug, Clone)]
pub struct KnowledgeJudgeInput {
    pub book_id: String,
    pub chapter_index: i64,
    pub claim_id: String,
    pub category: String,
    pub assertion_text: String,
    pub status_hint: Option<String>,
    pub proposed_topic: ProposedTopic,
    pub candidate_cards: Vec<TopicCandidate>,
    pub existing_assertions: Vec<KnowledgeJudgeAssertionInput>,
    pub evidence_spans: Vec<String>,
}

impl KnowledgeJudgeInput {
    /// A fixed input about stable cultivation realm tiers.
    pub fn for_test() -> (r: KnowledgeJudgeInput)
        ensures
            r.book_id@ == "book1"@,
            r.chapter_index == 1,
            r.claim_id@ == "claim1"@,
            r.category@ == "power_system"@,
            r.assertion_text@ == "Cultivation has stable realm tiers."@,
            opt_str(r.status_hint) == Some("fact"@),
            r.proposed_topic.topic_key@ == "cultivation-realms"@,
            r.proposed_topic.topic_display@ == "Cultivation Realms"@,
            r.candidate_cards@.len() == 0,
            r.existing_assertions@.len() == 0,
            r.evidence_spans@.len() == 1,
            r.evidence_spans@[0]@ == "source evidence"@,
    {
        let mut evidence_spans: Vec<String> = Vec::new();
        evidence_spans.push(owned("source evidence"));
        KnowledgeJudgeInput {
            book_id: owned("book1"),
            chapter_index: 1,
            claim_id: owned("claim1"),
            category: owned("power_system"),
            assertion_text: owned("Cultivation has stable realm tiers."),
            status_hint: Some(owned("fact")),
            proposed_topic: ProposedTopic {
                topic_key: owned("cultivation-realms"),
                topic_display: owned("Cultivation Realms"),
            },
            candidate_cards: Vec::new(),
            existing_assertions: Vec::new(),
            evidence_spans,
        }
    }
}

/// The excerpts of the spans that are the claim's primary evidence, in order.
pub open spec fn evidence_excerpts(spans: Seq<SourceSpanRecord>, primary: Seq<char>) -> Seq<Seq<char>>
    decreases spans.len(),
{
    if spans.len() == 0 {
        Seq::empty()
    } else {
        let rest = evidence_excerpts(spans.drop_last(), primary);
        if spans.last().id@ == primary {
            rest.push(spans.last().text_excerpt@)
        } else {
            rest
        }
    }
}

fn copy_candidate(c: &TopicCandidate) -> (r: TopicCandidate)
    ensures
        r == *c,
{
    TopicCandidate {
        book_id: c.book_id.clone(),
        category: c.category.clone(),
        card_id: c.card_id.clone(),
        topic_key: c.topic_key.clone(),
        topic_display: c.topic_display.clone(),
        current_summary: crate::text::clone_opt(&c.current_summary),
        match_kind: c.match_kind,
        score: c.score,
        last_updated_chapter: c.last_updated_chapter,
    }
}

/// What the knowledge judge is given about a claim: its book and chapter,
/// its category, assertion text and status hint, the proposed topic and its
/// candidate cards, the existing assertions of those cards (in the order
/// their cards were listed), and the excerpt of its primary evidence span.
pub fn knowledge_judge_input(
    book_id: &str,
    chapter_index: i64,
    claim: &ClaimRecord,
    category: &str,
    assertion_text: &str,
    status_hint: Option<String>,
    resolution: &TopicResolution,
    existing_assertions: Vec<KnowledgeJudgeAssertionInput>,
    source_spans: &[SourceSpanRecord],
) -> (r: KnowledgeJudgeInput)
    ensures
        r.book_id@ == book_id@,
        r.chapter_index == chapter_index,
        r.claim_id@ == claim.id@,
        r.category@ == category@,
        r.assertion_text@ == assertion_text@,
        r.status_hint == status_hint,
        r.proposed_topic.topic_key@ == resolution.proposed.topic_key@,
        r.proposed_topic.topic_display@ == resolution.proposed.topic_display@,
        r.candidate_cards@ == resolution.candidates@,
        r.existing_assertions@ == existing_assertions@,
        r.evidence_spans@.map_values(|e: String| e@) == evidence_excerpts(source_spans@, claim.primary_source_span_id@),
{
    let mut candidates: Vec<TopicCandidate> = Vec::new();
    let mut i: usize = 0;
    while i < resolution.candidates.len()
        invariant
            i <= resolution.candidates@.len(),
            candidates@ == resolution.candidates@.subrange(0, i as int),
        decreases resolution.candidates.len() - i,
    {
        candidates.push(copy_candidate(&resolution.candidates[i]));
        assert(candidates@ =~= resolution.candidates@.subrange(0, i + 1));
        i = i + 1;
    }
    assert(resolution.candidates@.subrange(0, resolution.candidates@.len() as int) =~= resolution.candidates@);
    let mut evidence: Vec<String> = Vec::new();
    let mut k: usize = 0;
    while k < source_spans.len()
        invariant
            k <= source_spans@.len(),
            evidence@.map_values(|e: String| e@) == evidence_excerpts(source_spans@.subrange(0, k as int), claim.primary_source_span_id@),
        decreases source_spans.len() - k,
    {
        let ghost before = evidence@;
        assert(source_spans@.subrange(0, k + 1).drop_last() =~= source_spans@.subrange(0, k as int));
        if str_eq(source_spans[k].id.as_str(), claim.primary_source_span_id.as_str()) {
            evidence.push(source_spans[k].text_excerpt.clone());
            assert(evidence@.map_values(|e: String| e@) =~= before.map_values(|e: String| e@).push(source_spans@[k as int].text_excerpt@));
        }
        k = k + 1;
    }
    assert(source_spans@.subrange(0, source_spans@.len() as int) =~= source_spans@);
    KnowledgeJudgeInput {
        book_id: owned(book_id),
        chapter_index,
        claim_id: claim.id.clone(),
        category: owned(category),
        assertion_text: owned(assertion_text),
        status_hint,
        proposed_topic: ProposedTopic {
            topic_key: resolution.proposed.topic_key.clone(),
            topic_display: resolution.proposed.topic_display.clone(),
        },
        candidate_cards: candidates,
        existing_assertions,
        evidence_spans: evidence,
    }
}

/// `fact` status from the judge is stored as `active`.
pub open spec fn normalized_status(s: Seq<char>) -> Seq<char> {
    if s == "fact"@ {
        "active"@
    } else {
        s
    }
}

/// Rewrites the status `fact` as `active`; everything else is left alone.
pub fn normalize_judge_output_fields(output: &mut KnowledgeJudgeOutput)
    ensures
        final(output).assertion_status@ == normalized_status(old(output).assertion_status@),
        final(output).decision == old(output).decision,
        final(output).card_action == old(output).card_action,
        final(output).target_card_id == old(output).target_card_id,
        final(output).affected_assertion_ids == old(output).affected_assertion_ids,
        final(output).current_summary == old(output).current_summary,
        final(output).confidence == old(output).confidence,
        final(output).reason_code == old(output).reason_code,
        final(output).explanation_for_log == old(output).explanation_for_log,
{
    if str_eq(output.assertion_status.as_str(), "fact") {
        output.assertion_status = owned("active");
    }
}

/// Assertion statuses that the judge may set.
pub open spec fn is_assertion_status(s: Seq<char>) -> bool {
    s == "active"@ || s == "rumor"@ || s == "uncertain"@ || s == "false_in_world"@
}

/// The field checks on judge output: confidence neither below 0 nor above 1 (a NaN passes, as on `f64`), a reason code
/// and an explanation that are not blank, and a known assertion status.
pub open spec fn knowledge_fields_spec(o: KnowledgeJudgeOutput, confidence_text: Seq<char>) -> Result<(), Seq<char>> {
    if outside_unit(o.confidence) {
        Err("confidence out of range: "@ + confidence_text)
    } else if is_blank(o.reason_code@) {
        Err("reason_code is required"@)
    } else if is_blank(o.explanation_for_log@) {
        Err("explanation_for_log is required"@)
    } else if !is_assertion_status(o.assertion_status@) {
        Err("invalid assertion_status: "@ + o.assertion_status@)
    } else {
        Ok(())
    }
}

/// Checks the fields of knowledge judge output; `confidence_text` is the
/// decimal text of its confidence, which a confidence out of range is
/// reported with.
pub fn validate_judge_output_fields(output: &KnowledgeJudgeOutput, confidence_text: &str) -> (r: Result<(), String>)
    ensures
        check_view(r) == knowledge_fields_spec(*output, confidence_text@),
{
    if output.confidence.is_outside_unit() {
        return Err(join2("confidence out of range: ", confidence_text));
    }
    if str_is_blank(output.reason_code.as_str()) {
        return Err(owned("reason_code is required"));
    }
    if str_is_blank(output.explanation_for_log.as_str()) {
        return Err(owned("explanation_for_log is required"));
    }
    let s = output.assertion_status.as_str();
    if !(str_eq(s, "active") || str_eq(s, "rumor") || str_eq(s, "uncertain") || str_eq(s, "false_in_world")) {
        return Err(join2("invalid assertion_status: ", s));
    }
    Ok(())
}

/// The name a decision prints with `{:?}`.
pub open spec fn decision_name(d: KnowledgeJudgeDecision) -> Seq<char> {
    match d {
        KnowledgeJudgeDecision::AddNew => "AddNew"@,
        KnowledgeJudgeDecision::Supplement => "Supplement"@,
        KnowledgeJudgeDecision::ReviseExisting => "ReviseExisting"@,
        KnowledgeJudgeDecision::ContradictExisting => "ContradictExisting"@,
        KnowledgeJudgeDecision::MarkRumor => "MarkRumor"@,
        KnowledgeJudgeDecision::MarkUncertain => "MarkUncertain"@,
        KnowledgeJudgeDecision::MarkFalseInWorld => "MarkFalseInWorld"@,
        KnowledgeJudgeDecision::Reject => "Reject"@,
    }
}

/// The name a decision prints with `{:?}`.
pub fn decision_debug_name(d: KnowledgeJudgeDecision) -> (r: &'static str)
    ensures
        r@ == decision_name(d),
{
    match d {
        KnowledgeJudgeDecision::AddNew => "AddNew",
        KnowledgeJudgeDecision::Supplement => "Supplement",
        KnowledgeJudgeDecision::ReviseExisting => "ReviseExisting",
        KnowledgeJudgeDecision::ContradictExisting => "ContradictExisting",
        KnowledgeJudgeDecision::MarkRumor => "MarkRumor",
        KnowledgeJudgeDecision::MarkUncertain => "MarkUncertain",
        KnowledgeJudgeDecision::MarkFalseInWorld => "MarkFalseInWorld",
        KnowledgeJudgeDecision::Reject => "Reject",
    }
}

/// The card-action checks: using an existing card names it; creating a new
/// card needs no matching candidates.
pub open spec fn card_action_spec(o: KnowledgeJudgeOutput, matching: nat) -> Result<(), Seq<char>> {
    match o.card_action {
        KnowledgeCardAction::UseExistingCard => if (match o.target_card_id {
            Some(id) => id@.len() == 0,
            None => true,
        }) {
            Err("use_existing_card requires target_card_id"@)
        } else {
            Ok(())
        },
        KnowledgeCardAction::CreateNewCard => if matching > 0 {
            Err("create_new_card requires no matching candidates"@)
        } else {
            Ok(())
        },
        KnowledgeCardAction::Uncertain => Ok(()),
    }
}

/// A decision that works on an existing card must use one.
pub open spec fn use_existing_spec(o: KnowledgeJudgeOutput, decision: Seq<char>) -> Result<(), Seq<char>> {
    if o.card_action != KnowledgeCardAction::UseExistingCard {
        Err(decision + " requires use_existing_card"@)
    } else {
        Ok(())
    }
}

/// A revising or contradicting decision must name the assertions it touches.
pub open spec fn affected_spec(o: KnowledgeJudgeOutput, decision: Seq<char>) -> Result<(), Seq<char>> {
    if o.affected_assertion_ids@.len() == 0 {
        Err(decision + " requires affected_assertion_ids"@)
    } else {
        Ok(())
    }
}

/// A marking decision must set the matching assertion status.
pub open spec fn status_spec(o: KnowledgeJudgeOutput, expected: Seq<char>) -> Result<(), Seq<char>> {
    if o.assertion_status@ != expected {
        Err(decision_name(o.decision) + " requires assertion_status="@ + expected)
    } else {
        Ok(())
    }
}

/// The decision checks.
pub open spec fn decision_rules_spec(o: KnowledgeJudgeOutput) -> Result<(), Seq<char>> {
    match o.decision {
        KnowledgeJudgeDecision::AddNew => Ok(()),
        KnowledgeJudgeDecision::Supplement => use_existing_spec(o, "supplement"@),
        KnowledgeJudgeDecision::ReviseExisting => match use_existing_spec(o, "revise_existing"@) {
            Err(e) => Err(e),
            Ok(_) => affected_spec(o, "revise_existing"@),
        },
        KnowledgeJudgeDecision::ContradictExisting => match use_existing_spec(o, "contradict_existing"@) {
            Err(e) => Err(e),
            Ok(_) => affected_spec(o, "contradict_existing"@),
        },
        KnowledgeJudgeDecision::MarkRumor => status_spec(o, "rumor"@),
        KnowledgeJudgeDecision::MarkUncertain => status_spec(o, "uncertain"@),
        KnowledgeJudgeDecision::MarkFalseInWorld => status_spec(o, "false_in_world"@),
        KnowledgeJudgeDecision::Reject => if o.card_action != KnowledgeCardAction::Uncertain {
            Err("reject decision requires card_action=uncertain"@)
        } else {
            Ok(())
        },
    }
}

/// All checks of judge output in the context of `matching` candidate cards.
pub open spec fn context_spec(o: KnowledgeJudgeOutput, matching: nat, confidence_text: Seq<char>) -> Result<(), Seq<char>> {
    match knowledge_fields_spec(o, confidence_text) {
        Err(e) => Err(e),
        Ok(_) => match card_action_spec(o, matching) {
            Err(e) => Err(e),
            Ok(_) => decision_rules_spec(o),
        },
    }
}

/// Requires the existing-card action for `decision`.
pub fn require_use_existing(output: &KnowledgeJudgeOutput, decision: &str) -> (r: Result<(), String>)
    ensures
        check_view(r) == use_existing_spec(*output, decision@),
{
    if output.card_action != KnowledgeCardAction::UseExistingCard {
        return Err(join2(decision, " requires use_existing_card"));
    }
    Ok(())
}

/// Requires affected assertion ids for `decision`.
pub fn require_affected_assertions(output: &KnowledgeJudgeOutput, decision: &str) -> (r: Result<(), String>)
    ensures
        check_view(r) == affected_spec(*output, decision@),
{
    if output.affected_assertion_ids.len() == 0 {
        return Err(join2(decision, " requires affected_assertion_ids"));
    }
    Ok(())
}

/// Requires the assertion status `expected`.
pub fn require_status(output: &KnowledgeJudgeOutput, expected: &str) -> (r: Result<(), String>)
    ensures
        check_view(r) == status_spec(*output, expected@),
{
    if !str_eq(output.assertion_status.as_str(), expected) {
        return Err(join3(decision_debug_name(output.decision), " requires assertion_status=", expected));
    }
    Ok(())
}

/// Checks judge output against the number of candidate cards that match the topic.
pub fn validate_judge_output_for_context(
    output: &KnowledgeJudgeOutput,
    matching_candidate_count: usize,
    confidence_text: &str,
) -> (r: Result<(), String>)
    ensures
        check_view(r) == context_spec(*output, matching_candidate_count as nat, confidence_text@),
{
    match validate_judge_output_fields(output, confidence_text) {
        Ok(_) => {},
        Err(e) => return Err(e),
    }
    match output.card_action {
        KnowledgeCardAction::UseExistingCard => {
            let missing = match &output.target_card_id {
                Some(id) => id.as_str().unicode_len() == 0,
                None => true,
            };
            if missing {
                return Err(owned("use_existing_card requires target_card_id"));
            }
        },
        KnowledgeCardAction::CreateNewCard => {
            if matching_candidate_count > 0 {
                return Err(owned("create_new_card requires no matching candidates"));
            }
        },
        KnowledgeCardAction::Uncertain => {},
    }
    match output.decision {
        KnowledgeJudgeDecision::AddNew => Ok(()),
        KnowledgeJudgeDecision::Supplement => require_use_existing(output, "supplement"),
        KnowledgeJudgeDecision::ReviseExisting => {
            match require_use_existing(output, "revise_existing") {
                Ok(_) => {},
                Err(e) => return Err(e),
            }
            require_affected_assertions(output, "revise_existing")
        },
        KnowledgeJudgeDecision::ContradictExisting => {
            match require_use_existing(output, "contradict_existing") {
                Ok(_) => {},
                Err(e) => return Err(e),
            }
            require_affected_assertions(output, "contradict_existing")
        },
        KnowledgeJudgeDecision::MarkRumor => require_status(output, "rumor"),
        KnowledgeJudgeDecision::MarkUncertain => require_status(output, "uncertain"),
        KnowledgeJudgeDecision::MarkFalseInWorld => require_status(output, "false_in_world"),
        KnowledgeJudgeDecision::Reject => {
            if output.card_action != KnowledgeCardAction::Uncertain {
                return Err(owned("reject decision requires card_action=uncertain"));
            }
            Ok(())
        },
    }
}

/// The number of candidates matched by something other than a recent card of
/// the same category.
pub open spec fn matching_count_spec(candidates: Seq<TopicCandidate>) -> nat
    decreases candidates.len(),
{
    if candidates.len() == 0 {
        0
    } else {
        matching_count_spec(candidates.drop_last()) + if candidates.last().match_kind
            != TopicCandidateMatch::RecentSameCategory {
            1nat
        } else {
            0nat
        }
    }
}

/// The number of candidate cards that really match the proposed topic.
pub fn matching_topic_candidate_count(input: &KnowledgeJudgeInput) -> (r: usize)
    ensures
        r as nat == matching_count_spec(input.candidate_cards@),
{
    let cards = &input.candidate_cards;
    let mut count: usize = 0;
    let mut i: usize = 0;
    assert(cards@.subrange(0, 0) =~= Seq::<TopicCandidate>::empty());
    while i < cards.len()
        invariant
            i <= cards@.len(),
            count <= i,
            count as nat == matching_count_spec(cards@.subrange(0, i as int)),
        decreases cards.len() - i,
    {
        assert(cards@.subrange(0, i + 1).drop_last() =~= cards@.subrange(0, i as int));
        if cards[i].match_kind != TopicCandidateMatch::RecentSameCategory {
            count = count + 1;
        }
        i = i + 1;
    }
    assert(cards@.subrange(0, cards@.len() as int) =~= cards@);
    count
}

/// Repairs knowledge judge output that did not parse.
pub fn try_repair_json(raw: &str) -> (r: Result<String, String>)
    ensures
        text_view(r) == crate::identity_judge::repair_spec(raw@, "unable to repair knowledge judge JSON"@),
{
    crate::identity_judge::repair_closing_brace(raw, "unable to repair knowledge judge JSON")
}

/// The system prompt of the knowledge judge.
pub open spec fn knowledge_system_prompt() -> Seq<char> {
    "你是小说世界观知识修订判断 agent。判断新知识断言是新增、补充、修正、推翻、传闻、不确定、世界内假说还是应拒绝。不要输出 Markdown，只输出严格 json 对象。"@
}

/// The system prompt of the knowledge judge.
pub fn knowledge_judge_system_prompt() -> (r: &'static str)
    ensures
        r@ == knowledge_system_prompt(),
{
    "你是小说世界观知识修订判断 agent。判断新知识断言是新增、补充、修正、推翻、传闻、不确定、世界内假说还是应拒绝。不要输出 Markdown，只输出严格 json 对象。"
}

/// The prompt text after the rendered judge input.
pub open spec fn knowledge_prompt_tail() -> Seq<char> {
    "\n\n## Instructions\n\
     判断新 knowledge assertion 如何进入同一 topic/card 的知识状态。\n\
     decision: add_new, supplement, revise_existing, contradict_existing, mark_rumor, mark_uncertain, mark_false_in_world, reject。\n\
     card_action: use_existing_card, create_new_card, uncertain。\n\
     revise_existing / contradict_existing 必须指定 affected_assertion_ids。\n\
     create_new_card 只能在没有匹配 candidate_cards 时使用。\n\
     输出严格 json 对象，字段：decision, card_action, target_card_id, affected_assertion_ids, assertion_status, current_summary, confidence, reason_code, explanation_for_log。"@
}

/// The knowledge judge prompt around `input_json`, the pretty-printed judge input.
pub fn build_judge_prompt(input_json: &str) -> (r: String)
    ensures
        r@ == "## Knowledge Revision Judge Input\n"@ + input_json@ + knowledge_prompt_tail(),
{
    join3(
        "## Knowledge Revision Judge Input\n",
        input_json,
        "\n\n## Instructions\n\
         判断新 knowledge assertion 如何进入同一 topic/card 的知识状态。\n\
         decision: add_new, supplement, revise_existing, contradict_existing, mark_rumor, mark_uncertain, mark_false_in_world, reject。\n\
         card_action: use_existing_card, create_new_card, uncertain。\n\
         revise_existing / contradict_existing 必须指定 affected_assertion_ids。\n\
         create_new_card 只能在没有匹配 candidate_cards 时使用。\n\
         输出严格 json 对象，字段：decision, card_action, target_card_id, affected_assertion_ids, assertion_status, current_summary, confidence, reason_code, explanation_for_log。",
    )
}

/// A knowledge revision judge: its answer for a knowledge claim's input.
pub trait KnowledgeRevisionJudge {
    fn judge(&self, input: &KnowledgeJudgeInput) -> Result<KnowledgeJudgeOutput, String>;
}

/// Knowledge judge that rejects every assertion as uncertain.
pub struct DefaultKnowledgeRevisionJudge;

impl DefaultKnowledgeRevisionJudge {
    /// The default judge.
    pub fn new() -> (r: DefaultKnowledgeRevisionJudge) {
        DefaultKnowledgeRevisionJudge
    }
}

impl KnowledgeRevisionJudge for DefaultKnowledgeRevisionJudge {
    /// Its answer for any input: reject, uncertain card action, uncertain
    /// status, confidence zero.
    fn judge(&self, input: &KnowledgeJudgeInput) -> (r: Result<KnowledgeJudgeOutput, String>)
        ensures
            r matches Ok(o) && {
                &&& o.decision == KnowledgeJudgeDecision::Reject
                &&& o.card_action == KnowledgeCardAction::Uncertain
                &&& o.target_card_id is None
                &&& o.affected_assertion_ids@.len() == 0
                &&& o.assertion_status@ == "uncertain"@
                &&& o.current_summary is None
                &&& o.confidence == Score::zero_value()
                &&& o.reason_code@ == "default_knowledge_revision_judge"@
                &&& o.explanation_for_log@ == "Default knowledge judge: no real AI judge wired yet"@
            },
    {
        Ok(KnowledgeJudgeOutput {
            decision: KnowledgeJudgeDecision::Reject,
            card_action: KnowledgeCardAction::Uncertain,
            target_card_id: None,
            affected_assertion_ids: Vec::new(),
            assertion_status: owned("uncertain"),
            current_summary: None,
            confidence: Score::zero(),
            reason_code: owned("default_knowledge_revision_judge"),
            explanation_for_log: owned("Default knowledge judge: no real AI judge wired yet"),
        })
    }
}

/// Knowledge judge that answers every input with a configured output.
pub struct MockKnowledgeRevisionJudge {
    pub output: KnowledgeJudgeOutput,
}

impl MockKnowledgeRevisionJudge {
    /// A judge answering with `output`.
    pub fn new(output: KnowledgeJudgeOutput) -> (r: MockKnowledgeRevisionJudge)
        ensures
            r.output == output,
    {
        MockKnowledgeRevisionJudge { output }
    }
}

impl KnowledgeRevisionJudge for MockKnowledgeRevisionJudge {
    /// Its answer for any input: a copy of the configured output.
    fn judge(&self, input: &KnowledgeJudgeInput) -> (r: Result<KnowledgeJudgeOutput, String>)
        ensures
            r matches Ok(o) && same_knowledge_output(o, self.output),
    {
        Ok(clone_knowledge_output(&self.output))
    }
}

fn clone_strings(v: &Vec<String>) -> (r: Vec<String>)
    ensures
        r@ == v@,
{
    let mut out: Vec<String> = Vec::new();
    let mut i: usize = 0;
    while i < v.len()
        invariant
            i <= v@.len(),
            out@ == v@.subrange(0, i as int),
        decreases v.len() - i,
    {
        out.push(v[i].clone());
        assert(out@ =~= v@.subrange(0, i + 1));
        i = i + 1;
    }
    assert(v@.subrange(0, v@.len() as int) =~= v@);
    out
}

/// Whether two judge outputs hold the same values.
pub open spec fn same_knowledge_output(a: KnowledgeJudgeOutput, b: KnowledgeJudgeOutput) -> bool {
    &&& a.decision == b.decision
    &&& a.card_action == b.card_action
    &&& a.target_card_id == b.target_card_id
    &&& a.affected_assertion_ids@ == b.affected_assertion_ids@
    &&& a.assertion_status == b.assertion_status
    &&& a.current_summary == b.current_summary
    &&& a.confidence == b.confidence
    &&& a.reason_code == b.reason_code
    &&& a.explanation_for_log == b.explanation_for_log
}

/// A copy of a knowledge judge output.
pub fn clone_knowledge_output(o: &KnowledgeJudgeOutput) -> (r: KnowledgeJudgeOutput)
    ensures
        same_knowledge_output(r, *o),
{
    KnowledgeJudgeOutput {
        decision: o.decision,
        card_action: o.card_action,
        target_card_id: crate::text::clone_opt(&o.target_card_id),
        affected_assertion_ids: clone_strings(&o.affected_assertion_ids),
        assertion_status: o.assertion_status.clone(),
        current_summary: crate::text::clone_opt(&o.current_summary),
        confidence: o.confidence,
        reason_code: o.reason_code.clone(),
        explanation_for_log: o.explanation_for_log.clone(),
    }
}

/// What the knowledge structural gate decides.
#[derive(Debug, Clone, PartialEq)]
pub enum KnowledgeGateResult {
    Pass,
    Reject(String),
    Uncertain(String),
}

impl View for KnowledgeGateResult {
    type V = GateView;

    open spec fn view(&self) -> GateView {
        match *self {
            KnowledgeGateResult::Pass => GateView::Pass,
            KnowledgeGateResult::Reject(r) => GateView::Reject(r@),
            KnowledgeGateResult::Uncertain(r) => GateView::Uncertain(r@),
        }
    }
}

/// The view of a gate stage: `None` lets the claim on to the next stage.
pub open spec fn stage_view(r: Option<KnowledgeGateResult>) -> Option<GateView> {
    match r {
        Some(g) => Some(g@),
        None => None,
    }
}

/// Whether some span is the claim's primary span, of its book, and active.
pub open spec fn has_primary_span(claim: ClaimRecord, spans: Seq<SourceSpanRecord>) -> bool {
    exists|i: int|
        0 <= i < spans.len() && spans[i].id@ == claim.primary_source_span_id@ && spans[i].book_id@ == claim.book_id@
            && spans[i].status@ == "active"@
}

/// The first stage: a knowledge claim, with evidence that exists.
#[verifier::opaque]
pub open spec fn evidence_stage(claim: ClaimRecord, spans: Seq<SourceSpanRecord>) -> Option<GateView> {
    if claim.claim_type@ != "knowledge_assertion"@ {
        Some(GateView::Reject("unsupported claim_type for knowledge gate: "@ + claim.claim_type@))
    } else if is_blank(claim.primary_source_span_id@) {
        Some(GateView::Reject("missing evidence span"@))
    } else if !has_primary_span(claim, spans) {
        Some(GateView::Reject("source span evidence not found"@))
    } else {
        None
    }
}

/// Whether any of `keys` is present in the payload.
pub open spec fn has_any_spec(v: JsonValue, keys: Seq<Seq<char>>) -> bool {
    exists|i: int| 0 <= i < keys.len() && has_member(v, keys[i])
}

/// Payload keys of a property observation.
pub open spec fn property_keys() -> Seq<Seq<char>> {
    seq!["subject_mention"@, "dimension_key"@, "value_text"@]
}

/// Payload keys of a relationship observation.
pub open spec fn relationship_keys() -> Seq<Seq<char>> {
    seq!["object_mention"@, "relation_hint"@, "relation_group"@, "relation_label"@, "directionality"@]
}

/// Payload keys of an identity observation.
pub open spec fn identity_keys() -> Seq<Seq<char>> {
    seq!["revealed_mention"@, "canonical_mention"@, "reveal_type"@, "identity_kind"@, "candidate_type"@]
}

/// Payload keys of a map observation.
pub open spec fn map_keys() -> Seq<Seq<char>> {
    seq!["from_place_mention"@, "to_place_mention"@, "edge_type"@, "direction_hint"@, "distance_hint"@]
}

/// A claim shaped like a property, relationship, identity or map observation
/// is not knowledge.
#[verifier::opaque]
pub open spec fn pollution_stage(claim: ClaimRecord, v: JsonValue) -> Option<GateView> {
    if claim.subject_mention is Some || has_any_spec(v, property_keys()) {
        Some(GateView::Reject("property-shaped claim is not knowledge"@))
    } else if claim.object_mention is Some || has_any_spec(v, relationship_keys()) {
        Some(GateView::Reject("relationship-shaped claim is not knowledge"@))
    } else if has_any_spec(v, identity_keys()) {
        Some(GateView::Reject("identity-shaped claim is not knowledge"@))
    } else if has_any_spec(v, map_keys()) {
        Some(GateView::Reject("map-shaped claim is not knowledge"@))
    } else {
        None
    }
}

/// The assertion text: the payload's, else the claim's value text, else empty.
pub open spec fn assertion_text_of(claim: ClaimRecord, v: JsonValue) -> Seq<char> {
    match trimmed_str_member(v, "assertion_text"@) {
        Some(t) => t,
        None => match claim.value_text {
            Some(t) => t@,
            None => Seq::empty(),
        },
    }
}

/// The content stage: a known category, a topic, an assertion text, and a
/// known status hint; an `uncertain` hint holds the claim as uncertain.
#[verifier::opaque]
pub open spec fn content_stage(claim: ClaimRecord, v: JsonValue) -> Option<GateView> {
    let category = match trimmed_str_member(v, "category"@) {
        Some(c) => c,
        None => Seq::empty(),
    };
    let topic = match trimmed_str_member(v, "topic_display"@) {
        Some(t) => Some(t),
        None => trimmed_str_member(v, "raw_topic"@),
    };
    let status = trimmed_str_member(v, "status_hint"@);
    if category.len() == 0 || !knowledge_categories().contains(category) {
        Some(GateView::Reject("invalid knowledge category: "@ + category))
    } else if topic is None {
        Some(GateView::Reject("missing knowledge topic"@))
    } else if is_blank(assertion_text_of(claim, v)) {
        Some(GateView::Reject("missing assertion_text"@))
    } else if status is Some && !knowledge_status_hints().contains(status->0) {
        Some(GateView::Reject("invalid knowledge status_hint: "@ + status->0))
    } else if status is Some && status->0 == "uncertain"@ {
        Some(GateView::Uncertain("knowledge status_hint is uncertain"@))
    } else {
        None
    }
}

/// The topic stage: a resolved topic passes, an uncertain one is held with its reason.
pub open spec fn topic_stage(resolution: Option<&TopicResolution>) -> GateView {
    match resolution {
        Some(res) => if res.status == TopicResolutionStatus::Uncertain {
            GateView::Uncertain(
                "topic resolution uncertain: "@ + match res.reason {
                    Some(r) => r@,
                    None => "ambiguous topic candidate"@,
                },
            )
        } else {
            GateView::Pass
        },
        None => GateView::Uncertain("topic resolution missing"@),
    }
}

/// The knowledge gate. `payload` is the claim's `value_json` as parsed,
/// `None` when it is missing or is not JSON.
pub open spec fn knowledge_gate_spec(
    claim: ClaimRecord,
    spans: Seq<SourceSpanRecord>,
    resolution: Option<&TopicResolution>,
    payload: Option<JsonValue>,
) -> GateView {
    match evidence_stage(claim, spans) {
        Some(g) => g,
        None => match payload {
            None => GateView::Reject("missing or invalid value_json"@),
            Some(v) => match pollution_stage(claim, v) {
                Some(g) => g,
                None => match content_stage(claim, v) {
                    Some(g) => g,
                    None => topic_stage(resolution),
                },
            },
        },
    }
}

fn evidence_gate(claim: &ClaimRecord, source_spans: &[SourceSpanRecord]) -> (r: Option<KnowledgeGateResult>)
    ensures
        stage_view(r) == evidence_stage(*claim, source_spans@),
{
    proof {
        reveal(evidence_stage);
    }
    if !str_eq(claim.claim_type.as_str(), "knowledge_assertion") {
        return Some(KnowledgeGateResult::Reject(join2("unsupported claim_type for knowledge gate: ", claim.claim_type.as_str())));
    }
    if str_is_blank(claim.primary_source_span_id.as_str()) {
        return Some(KnowledgeGateResult::Reject(owned("missing evidence span")));
    }
    let mut i: usize = 0;
    while i < source_spans.len()
        invariant
            i <= source_spans@.len(),
            claim.claim_type@ == "knowledge_assertion"@,
            !is_blank(claim.primary_source_span_id@),
            forall|k: int|
                0 <= k < i ==> !(source_spans@[k].id@ == claim.primary_source_span_id@ && source_spans@[k].book_id@
                    == claim.book_id@ && source_spans@[k].status@ == "active"@),
        decreases source_spans.len() - i,
    {
        let span = &source_spans[i];
        if str_eq(span.id.as_str(), claim.primary_source_span_id.as_str()) && str_eq(span.book_id.as_str(), claim.book_id.as_str())
            && str_eq(span.status.as_str(), "active") {
            assert(has_primary_span(*claim, source_spans@));
            proof {
                reveal(evidence_stage);
            }
            return None;
        }
        i = i + 1;
    }
    Some(KnowledgeGateResult::Reject(owned("source span evidence not found")))
}

/// Whether any of `keys` is present in `value_json`.
pub fn has_any(value_json: &JsonValue, keys: &[&str]) -> (r: bool)
    ensures
        r == has_any_spec(*value_json, crate::text::views_of(keys@)),
{
    let mut i: usize = 0;
    while i < keys.len()
        invariant
            i <= keys@.len(),
            forall|k: int| 0 <= k < i ==> !has_member(*value_json, keys@[k]@),
        decreases keys.len() - i,
    {
        if has_key(value_json, keys[i]) {
            assert(crate::text::views_of(keys@)[i as int] == keys@[i as int]@);
            return true;
        }
        i = i + 1;
    }
    assert forall|k: int| 0 <= k < keys@.len() implies !has_member(*value_json, crate::text::views_of(keys@)[k]) by {
        assert(crate::text::views_of(keys@)[k] == keys@[k]@);
    }
    false
}

/// Refuses a claim shaped like another kind of observation.
pub fn reject_boundary_pollution(claim: &ClaimRecord, value_json: &JsonValue) -> (r: Option<KnowledgeGateResult>)
    ensures
        stage_view(r) == pollution_stage(*claim, *value_json),
{
    proof {
        reveal(pollution_stage);
    }
    let pk = ["subject_mention", "dimension_key", "value_text"];
    assert(crate::text::views_of(pk@) =~= property_keys());
    if claim.subject_mention.is_some() || has_any(value_json, &pk) {
        return Some(KnowledgeGateResult::Reject(owned("property-shaped claim is not knowledge")));
    }
    let rk = ["object_mention", "relation_hint", "relation_group", "relation_label", "directionality"];
    assert(crate::text::views_of(rk@) =~= relationship_keys());
    if claim.object_mention.is_some() || has_any(value_json, &rk) {
        return Some(KnowledgeGateResult::Reject(owned("relationship-shaped claim is not knowledge")));
    }
    let ik = ["revealed_mention", "canonical_mention", "reveal_type", "identity_kind", "candidate_type"];
    assert(crate::text::views_of(ik@) =~= identity_keys());
    if has_any(value_json, &ik) {
        return Some(KnowledgeGateResult::Reject(owned("identity-shaped claim is not knowledge")));
    }
    let mk = ["from_place_mention", "to_place_mention", "edge_type", "direction_hint", "distance_hint"];
    assert(crate::text::views_of(mk@) =~= map_keys());
    if has_any(value_json, &mk) {
        return Some(KnowledgeGateResult::Reject(owned("map-shaped claim is not knowledge")));
    }
    None
}

fn content_gate(claim: &ClaimRecord, value_json: &JsonValue) -> (r: Option<KnowledgeGateResult>)
    ensures
        stage_view(r) == content_stage(*claim, *value_json),
{
    proof {
        reveal(content_stage);
    }
    let category = match get_trimmed_str(value_json, "category") {
        Some(c) => c,
        None => String::new(),
    };
    if category.as_str().unicode_len() == 0 || !is_knowledge_category(category.as_str()) {
        return Some(KnowledgeGateResult::Reject(join2("invalid knowledge category: ", category.as_str())));
    }
    let topic = match get_trimmed_str(value_json, "topic_display") {
        Some(t) => Some(t),
        None => get_trimmed_str(value_json, "raw_topic"),
    };
    if topic.is_none() {
        return Some(KnowledgeGateResult::Reject(owned("missing knowledge topic")));
    }
    let assertion_text = match get_trimmed_str(value_json, "assertion_text") {
        Some(t) => t,
        None => match &claim.value_text {
            Some(t) => t.clone(),
            None => String::new(),
        },
    };
    if str_is_blank(assertion_text.as_str()) {
        return Some(KnowledgeGateResult::Reject(owned("missing assertion_text")));
    }
    match get_trimmed_str(value_json, "status_hint") {
        Some(status) => {
            if !is_knowledge_status_hint(status.as_str()) {
                return Some(KnowledgeGateResult::Reject(join2("invalid knowledge status_hint: ", status.as_str())));
            }
            if str_eq(status.as_str(), "uncertain") {
                return Some(KnowledgeGateResult::Uncertain(owned("knowledge status_hint is uncertain")));
            }
        },
        None => {},
    }
    None
}

/// Checks a knowledge claim before it reaches the knowledge judge. `payload`
/// is the claim's `value_json` as parsed: `None` when it is missing or is not JSON.
pub fn structural_gate(
    claim: &ClaimRecord,
    source_spans: &[SourceSpanRecord],
    topic_resolution: Option<&TopicResolution>,
    payload: Option<&JsonValue>,
) -> (r: KnowledgeGateResult)
    ensures
        r@ == knowledge_gate_spec(
            *claim,
            source_spans@,
            topic_resolution,
            match payload {
                Some(v) => Some(*v),
                None => None,
            },
        ),
{
    match evidence_gate(claim, source_spans) {
        Some(g) => return g,
        None => {},
    }
    let value_json = match payload {
        Some(v) => v,
        None => return KnowledgeGateResult::Reject(owned("missing or invalid value_json")),
    };
    match reject_boundary_pollution(claim, value_json) {
        Some(g) => return g,
        None => {},
    }
    match content_gate(claim, value_json) {
        Some(g) => return g,
        None => {},
    }
    match topic_resolution {
        Some(resolution) => {
            if resolution.status == TopicResolutionStatus::Uncertain {
                let reason: &str = match &resolution.reason {
                    Some(r) => r.as_str(),
                    None => "ambiguous topic candidate",
                };
                KnowledgeGateResult::Uncertain(join2("topic resolution uncertain: ", reason))
            } else {
                KnowledgeGateResult::Pass
            }
        },
        None => KnowledgeGateResult::Uncertain(owned("topic resolution missing")),
    }
}

proof fn lemma_recent_only_count_zero(candidates: Seq<TopicCandidate>)
    requires
        forall|i: int| 0 <= i < candidates.len() ==> #[trigger] candidates[i].match_kind == TopicCandidateMatch::RecentSameCategory,
    ensures
        matching_count_spec(candidates) == 0,
    decreases candidates.len(),
{
    if candidates.len() > 0 {
        lemma_recent_only_count_zero(candidates.drop_last());
    }
}

/// Cards that are candidates only because they are recent cards of the same
/// category never stop the judge from creating a new card: with no other
/// candidates, an answer that creates a new card passes the card-action check.
pub proof fn lemma_recent_same_category_never_blocks_new_card(input: KnowledgeJudgeInput, o: KnowledgeJudgeOutput)
    requires
        forall|i: int|
            0 <= i < input.candidate_cards@.len() ==> #[trigger] input.candidate_cards@[i].match_kind
                == TopicCandidateMatch::RecentSameCategory,
        o.card_action == KnowledgeCardAction::CreateNewCard,
    ensures
        matching_count_spec(input.candidate_cards@) == 0,
        card_action_spec(o, matching_count_spec(input.candidate_cards@)) is Ok,
{
    lemma_recent_only_count_zero(input.candidate_cards@);
}

/// Only a grounded knowledge claim passes the knowledge gate: it is a
/// knowledge assertion whose primary evidence span exists, its payload was
/// read, and its topic resolved.
pub proof fn lemma_knowledge_gate_pass_is_grounded(
    claim: ClaimRecord,
    spans: Seq<SourceSpanRecord>,
    resolution: Option<&TopicResolution>,
    payload: Option<JsonValue>,
)
    requires
        knowledge_gate_spec(claim, spans, resolution, payload) is Pass,
    ensures
        claim.claim_type@ == "knowledge_assertion"@,
        !is_blank(claim.primary_source_span_id@),
        has_primary_span(claim, spans),
        payload is Some,
        resolution is Some && resolution->0.status == TopicResolutionStatus::Resolved,
{
    reveal(evidence_stage);
    reveal(pollution_stage);
    reveal(content_stage);
    if let Some(v) = payload {
        if pollution_stage(claim, v) is None && content_stage(claim, v) is None {
            match resolution {
                Some(res) => {
                    if res.status != TopicResolutionStatus::Resolved {
                        assert(res.status == TopicResolutionStatus::Uncertain);
                    }
                },
                None => {},
            }
        }
    }
}

/// The rules a judge's answer must keep with its topic context: a revision
/// or contradiction must name the assertions it touches and use an existing
/// card; a supplement must use an existing card; a rumor, uncertain or
/// false-in-world mark must set that assertion status; a reject must leave
/// the card uncertain; using an existing card needs its id; and a new card
/// may be created only when no candidate matches. An answer that breaks any
/// of them is refused.
pub proof fn lemma_context_rules_refuse(o: KnowledgeJudgeOutput, matching: nat, confidence_text: Seq<char>)
    ensures
        (o.decision == KnowledgeJudgeDecision::ReviseExisting || o.decision == KnowledgeJudgeDecision::ContradictExisting)
            && o.affected_assertion_ids@.len() == 0 ==> context_spec(o, matching, confidence_text) is Err,
        (o.decision == KnowledgeJudgeDecision::Supplement || o.decision == KnowledgeJudgeDecision::ReviseExisting
            || o.decision == KnowledgeJudgeDecision::ContradictExisting) && o.card_action
            != KnowledgeCardAction::UseExistingCard ==> context_spec(o, matching, confidence_text) is Err,
        o.decision == KnowledgeJudgeDecision::MarkRumor && o.assertion_status@ != "rumor"@ ==> context_spec(
            o,
            matching,
            confidence_text,
        ) is Err,
        o.decision == KnowledgeJudgeDecision::MarkUncertain && o.assertion_status@ != "uncertain"@ ==> context_spec(
            o,
            matching,
            confidence_text,
        ) is Err,
        o.decision == KnowledgeJudgeDecision::MarkFalseInWorld && o.assertion_status@ != "false_in_world"@
            ==> context_spec(o, matching, confidence_text) is Err,
        o.decision == KnowledgeJudgeDecision::Reject && o.card_action != KnowledgeCardAction::Uncertain
            ==> context_spec(o, matching, confidence_text) is Err,
        o.card_action == KnowledgeCardAction::UseExistingCard && (o.target_card_id is None || o.target_card_id->0@.len()
            == 0) ==> context_spec(o, matching, confidence_text) is Err,
        o.card_action == KnowledgeCardAction::CreateNewCard && matching > 0 ==> context_spec(
            o,
            matching,
            confidence_text,
        ) is Err,
{
}

} // verus!
