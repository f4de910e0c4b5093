//! The map conflict judge: its decisions and output, the checks on that
//! output, the prompt it is asked with, and the repair of malformed output.
use vstd::prelude::*;
use crate::map_gate::{is_place_edge_type, place_edge_types};
use crate::outcome::{check_view, text_view};
use crate::score::{in_unit_range, Score};
use crate::text::{
    chars_of, clone_opt, contains, occurs_at, text_or_empty, decimal_int, ends_with, i64_to_string, is_blank, is_whitespace, is_ws,
    join2, join_strings, joined, occurs_at_exec, owned, push_char, starts_with, str_ends_with,
    str_in, str_is_blank, string_from, string_views, trim, trim_str, views_of,
};

verus! {

/// The conflict types a conflict decision may name.
#[verifier::opaque]
pub open spec fn conflict_types() -> Seq<Seq<char>> {
    seq![
        "parent_conflict"@, "direction_conflict"@, "distance_conflict"@, "cycle_risk"@,
        "duplicate_contradiction"@, "ambiguous_place"@, "unknown_conflict"@,
    ]
}

/// Whether `conflict_type` is one of the known conflict types.
pub fn is_conflict_type(conflict_type: &str) -> (r: bool)
    ensures
        r == conflict_types().contains(conflict_type@),
{
    let types = [
        "parent_conflict", "direction_conflict", "distance_conflict", "cycle_risk",
        "duplicate_contradiction", "ambiguous_place", "unknown_conflict",
    ];
    proof {
        reveal(conflict_types);
    }
    assert(views_of(types@) =~= conflict_types());
    str_in(conflict_type, &types)
}

/// The map conflict judge's decision.
#[derive(Debug, Clone, Copy, PartialEq, Eq, Structural)]
pub enum MapConflictDecision {
    Accept,
    Conflict,
    Uncertain,
    Reject,
}

/// What the map conflict judge answers for one candidate edge.
#[derive(Debug, Clone, PartialEq)]
pub struct MapConflictJudgeOutput {
    pub decision: MapConflictDecision,
    pub normalized_edge_type: Option<String>,
    pub normalized_direction_hint: Option<String>,
    pub normalized_distance_hint: Option<String>,
    pub conflict_type: Option<String>,
    pub reason_code: String,
    pub confidence: Score,
    pub explanation_for_log: String,
}

/// A copy of a judge output.
pub fn clone_output(output: &MapConflictJudgeOutput) -> (r: MapConflictJudgeOutput)
    ensures
        r == *output,
{
    MapConflictJudgeOutput {
        decision: output.decision,
        normalized_edge_type: clone_opt(&output.normalized_edge_type),
        normalized_direction_hint: clone_opt(&output.normalized_direction_hint),
        normalized_distance_hint: clone_opt(&output.normalized_distance_hint),
        conflict_type: clone_opt(&output.conflict_type),
        reason_code: output.reason_code.clone(),
        confidence: output.confidence,
        explanation_for_log: output.explanation_for_log.clone(),
    }
}

/// The candidate edge that the map conflict judge is asked about.
#[derive(Debug, Clone)]
pub struct MapConflictJudgeInput {
    pub book_id: String,
    pub chapter_index: i64,
    pub claim_id: String,
    pub claim_type: String,
    pub from_place_mention: String,
    pub to_place_mention: String,
    pub edge_type: String,
    pub evidence_spans: Vec<String>,
    pub existing_map_context: Vec<String>,
    pub boundary_warnings: Vec<String>,
}


/// The checks on a judge output: confidence in `[0, 1]`, reason and
/// explanation present, edge and conflict types known, an accept naming an
/// edge type and a conflict naming a conflict type.
pub open spec fn map_output_check(o: MapConflictJudgeOutput) -> Result<(), Seq<char>> {
    if !in_unit_range(o.confidence) {
        Err("confidence must be between 0 and 1"@)
    } else if is_blank(o.reason_code@) {
        Err("reason_code is required"@)
    } else if is_blank(o.explanation_for_log@) {
        Err("explanation_for_log is required"@)
    } else if o.normalized_edge_type is Some && !place_edge_types().contains(o.normalized_edge_type->0@) {
        Err("invalid normalized_edge_type: "@ + o.normalized_edge_type->0@)
    } else if o.conflict_type is Some && !conflict_types().contains(o.conflict_type->0@) {
        Err("invalid conflict_type: "@ + o.conflict_type->0@)
    } else if o.decision == MapConflictDecision::Accept && is_blank(text_or_empty(o.normalized_edge_type)) {
        Err("accept requires normalized_edge_type"@)
    } else if o.decision == MapConflictDecision::Conflict && is_blank(text_or_empty(o.conflict_type)) {
        Err("conflict requires conflict_type"@)
    } else {
        Ok(())
    }
}

proof fn lemma_empty_is_blank()
    ensures
        is_blank(Seq::<char>::empty()),
{
    reveal(is_blank);
    assert(trim(Seq::<char>::empty()) =~= Seq::<char>::empty());
}

/// Checks a map conflict judge output.
pub fn validate_judge_output(output: &MapConflictJudgeOutput) -> (r: Result<(), String>)
    ensures
        check_view(r) == map_output_check(*output),
{
    if !output.confidence.is_unit() {
        return Err(owned("confidence must be between 0 and 1"));
    }
    if str_is_blank(output.reason_code.as_str()) {
        return Err(owned("reason_code is required"));
    }
    if str_is_blank(output.explanation_for_log.as_str()) {
        return Err(owned("explanation_for_log is required"));
    }
    match &output.normalized_edge_type {
        Some(edge_type) => {
            if !is_place_edge_type(edge_type.as_str()) {
                return Err(join2("invalid normalized_edge_type: ", edge_type.as_str()));
            }
        },
        None => {},
    }
    match &output.conflict_type {
        Some(conflict_type) => {
            if !is_conflict_type(conflict_type.as_str()) {
                return Err(join2("invalid conflict_type: ", conflict_type.as_str()));
            }
        },
        None => {},
    }
    match output.decision {
        MapConflictDecision::Accept => {
            let blank = match &output.normalized_edge_type {
                Some(e) => str_is_blank(e.as_str()),
                None => {
                    proof {
                        lemma_empty_is_blank();
                    }
                    true
                },
            };
            if blank {
                return Err(owned("accept requires normalized_edge_type"));
            }
        },
        MapConflictDecision::Conflict => {
            let blank = match &output.conflict_type {
                Some(c) => str_is_blank(c.as_str()),
                None => {
                    proof {
                        lemma_empty_is_blank();
                    }
                    true
                },
            };
            if blank {
                return Err(owned("conflict requires conflict_type"));
            }
        },
        MapConflictDecision::Uncertain | MapConflictDecision::Reject => {},
    }
    Ok(())
}

/// The system prompt of the map conflict judge.
pub open spec fn map_judge_system_prompt_spec() -> Seq<char> {
    "你是小说地图拓扑冲突判断 agent。只判断地点拓扑事实是否可接受、冲突、不确定或应拒绝。不要输出 Markdown，只输出严格 json 对象。"@
}

/// The system prompt of the map conflict judge.
pub fn map_judge_system_prompt() -> (r: &'static str)
    ensures
        r@ == map_judge_system_prompt_spec(),
{
    "你是小说地图拓扑冲突判断 agent。只判断地点拓扑事实是否可接受、冲突、不确定或应拒绝。不要输出 Markdown，只输出严格 json 对象。"
}

/// The prompt text before the candidate's book id.
pub open spec fn map_prompt_head() -> Seq<char> {
    "Return one strict json object for a novel map conflict decision.\n\n\
     Boundary rules:\n\
     - geography knowledge is context only and cannot by itself become a map edge\n\
     - no map art, no coordinates, no invented routes, no final image\n\
     - be conservative: conflict or uncertain is better than polluting active topology\n\n\
     Allowed decisions: accept, conflict, uncertain, reject.\n\
     Allowed conflict_type values: parent_conflict, direction_conflict, distance_conflict, cycle_risk, duplicate_contradiction, ambiguous_place, unknown_conflict.\n\n\
     Candidate:\n\
     - book_id: "@
}

/// The prompt text after the boundary warnings.
pub open spec fn map_prompt_tail() -> Seq<char> {
    "\n\nRequired json fields:\n\
     decision, normalized_edge_type, normalized_direction_hint, normalized_distance_hint,\n\
     conflict_type, reason_code, confidence, explanation_for_log.\n"@
}

/// The map conflict judge prompt for `input`.
pub open spec fn map_prompt_spec(input: MapConflictJudgeInput) -> Seq<char> {
    map_prompt_head() + input.book_id@
        + "\n- chapter_index: "@ + decimal_int(input.chapter_index as int)
        + "\n- claim_id: "@ + input.claim_id@
        + "\n- claim_type: "@ + input.claim_type@
        + "\n- from_place_mention: "@ + input.from_place_mention@
        + "\n- to_place_mention: "@ + input.to_place_mention@
        + "\n- edge_type: "@ + input.edge_type@
        + "\n\nEvidence spans:\n"@ + joined(string_views(input.evidence_spans@), "\n"@)
        + "\n\nExisting map context:\n"@ + joined(string_views(input.existing_map_context@), "\n"@)
        + "\n\nBoundary warnings:\n"@ + joined(string_views(input.boundary_warnings@), "\n"@)
        + map_prompt_tail()
}

/// Builds the map conflict judge prompt; it always succeeds.
pub fn build_judge_prompt(input: &MapConflictJudgeInput) -> (r: Result<String, String>)
    ensures
        r matches Ok(p) && p@ == map_prompt_spec(*input),
{
    let mut p = String::from_str(
        "Return one strict json object for a novel map conflict decision.\n\n\
         Boundary rules:\n\
         - geography knowledge is context only and cannot by itself become a map edge\n\
         - no map art, no coordinates, no invented routes, no final image\n\
         - be conservative: conflict or uncertain is better than polluting active topology\n\n\
         Allowed decisions: accept, conflict, uncertain, reject.\n\
         Allowed conflict_type values: parent_conflict, direction_conflict, distance_conflict, cycle_risk, duplicate_contradiction, ambiguous_place, unknown_conflict.\n\n\
         Candidate:\n\
         - book_id: ",
    );
    p.append(input.book_id.as_str());
    p.append("\n- chapter_index: ");
    let chapter = i64_to_string(input.chapter_index);
    p.append(chapter.as_str());
    p.append("\n- claim_id: ");
    p.append(input.claim_id.as_str());
    p.append("\n- claim_type: ");
    p.append(input.claim_type.as_str());
    p.append("\n- from_place_mention: ");
    p.append(input.from_place_mention.as_str());
    p.append("\n- to_place_mention: ");
    p.append(input.to_place_mention.as_str());
    p.append("\n- edge_type: ");
    p.append(input.edge_type.as_str());
    p.append("\n\nEvidence spans:\n");
    let evidence = join_strings(&input.evidence_spans, "\n");
    p.append(evidence.as_str());
    p.append("\n\nExisting map context:\n");
    let context = join_strings(&input.existing_map_context, "\n");
    p.append(context.as_str());
    p.append("\n\nBoundary warnings:\n");
    let warnings = join_strings(&input.boundary_warnings, "\n");
    p.append(warnings.as_str());
    p.append(
        "\n\nRequired json fields:\n\
         decision, normalized_edge_type, normalized_direction_hint, normalized_distance_hint,\n\
         conflict_type, reason_code, confidence, explanation_for_log.\n",
    );
    Ok(p)
}

/// `s` without the suffix `suf` when it ends with it.
pub open spec fn without_suffix(s: Seq<char>, suf: Seq<char>) -> Seq<char> {
    if ends_with(s, suf) {
        s.subrange(0, s.len() - suf.len())
    } else {
        s
    }
}

/// The judge output without a surrounding Markdown fence: after trimming, an
/// opening three backticks (followed by `json` or not) and a closing three
/// backticks are dropped, and the rest trimmed.
pub open spec fn map_fence_stripped(s: Seq<char>) -> Seq<char> {
    let t = trim(s);
    if starts_with(t, "```json"@) {
        trim(without_suffix(t.subrange(7, t.len() as int), "```"@))
    } else if starts_with(t, "```"@) {
        trim(without_suffix(t.subrange(3, t.len() as int), "```"@))
    } else {
        t
    }
}

fn drop_fence_suffix(v: &Vec<char>, from: usize) -> (r: String)
    requires
        from <= v@.len(),
    ensures
        r@ == without_suffix(v@.subrange(from as int, v@.len() as int), "```"@),
{
    proof {
        reveal_strlit("```");
    }
    let rest = string_from(v, from, v.len());
    if str_ends_with(rest.as_str(), "```") {
        let rv = chars_of(rest.as_str());
        string_from(&rv, 0, rv.len() - 3)
    } else {
        rest
    }
}

/// Removes a surrounding Markdown fence from judge output.
pub fn strip_markdown_fences(value: &str) -> (r: String)
    ensures
        r@ == map_fence_stripped(value@),
{
    proof {
        reveal_strlit("```json");
        reveal_strlit("```");
    }
    let trimmed = trim_str(value);
    let tv = chars_of(trimmed.as_str());
    let json_fence = chars_of("```json");
    let fence = chars_of("```");
    if occurs_at_exec(&tv, &json_fence, 0) {
        let body = drop_fence_suffix(&tv, 7);
        return trim_str(body.as_str());
    }
    if occurs_at_exec(&tv, &fence, 0) {
        let body = drop_fence_suffix(&tv, 3);
        return trim_str(body.as_str());
    }
    trimmed
}

/// The first character at index `i` or later that is not whitespace.
pub open spec fn next_non_ws_from(s: Seq<char>, i: int) -> Option<char>
    decreases s.len() - i,
{
    if i < 0 || i >= s.len() {
        None
    } else if !is_ws(s[i]) {
        Some(s[i])
    } else {
        next_non_ws_from(s, i + 1)
    }
}

/// Whether the character at `i` is a comma that only whitespace separates
/// from a closing brace or bracket.
pub open spec fn is_trailing_comma(s: Seq<char>, i: int) -> bool {
    s[i] == ',' && (next_non_ws_from(s, i + 1) == Some('}') || next_non_ws_from(s, i + 1) == Some(']'))
}

/// The first `n` characters of `s` with trailing commas left out.
pub open spec fn without_trailing_commas(s: Seq<char>, n: int) -> Seq<char>
    decreases n,
{
    if n <= 0 {
        Seq::empty()
    } else if is_trailing_comma(s, n - 1) {
        without_trailing_commas(s, n - 1)
    } else {
        without_trailing_commas(s, n - 1).push(s[n - 1])
    }
}

fn next_non_ws_char(v: &Vec<char>, from: usize) -> (r: Option<char>)
    requires
        from <= v@.len(),
    ensures
        r == next_non_ws_from(v@, from as int),
{
    let mut j: usize = from;
    while j < v.len()
        invariant
            from <= j <= v@.len(),
            next_non_ws_from(v@, from as int) == next_non_ws_from(v@, j as int),
        decreases v.len() - j,
    {
        if !is_whitespace(v[j]) {
            return Some(v[j]);
        }
        j = j + 1;
    }
    None
}

/// `raw` with every comma dropped that only whitespace separates from a
/// closing brace or bracket.
pub fn remove_trailing_commas_before_closers(raw: &str) -> (r: String)
    ensures
        r@ == without_trailing_commas(raw@, raw@.len() as int),
{
    let chars = chars_of(raw);
    let mut result = String::new();
    let mut idx: usize = 0;
    while idx < chars.len()
        invariant
            chars@ == raw@,
            idx <= chars@.len(),
            result@ == without_trailing_commas(raw@, idx as int),
        decreases chars.len() - idx,
    {
        let ch = chars[idx];
        let mut skip = false;
        if ch == ',' {
            let next = next_non_ws_char(&chars, idx + 1);
            skip = next == Some('}') || next == Some(']');
        }
        if !skip {
            push_char(&mut result, ch);
        }
        idx = idx + 1;
    }
    result
}

/// The repair of malformed judge output: trailing commas dropped from the
/// trimmed text, and a closing brace added when it does not end with one.
pub open spec fn map_repair_spec(raw: Seq<char>) -> Seq<char> {
    let cleaned = without_trailing_commas(trim(raw), trim(raw).len() as int);
    if ends_with(cleaned, "}"@) {
        cleaned
    } else {
        cleaned.push('}')
    }
}

/// Repairs judge output that did not parse; it always succeeds.
pub fn try_repair_json(raw: &str) -> (r: Result<String, String>)
    ensures
        text_view(r) == Ok::<Seq<char>, Seq<char>>(map_repair_spec(raw@)),
{
    let trimmed = trim_str(raw);
    let mut repaired = remove_trailing_commas_before_closers(trimmed.as_str());
    if !str_ends_with(repaired.as_str(), "}") {
        push_char(&mut repaired, '}');
    }
    Ok(repaired)
}

/// A map conflict judge: its answer for a candidate edge.
pub trait MapConflictJudge {
    fn judge(&self, input: &MapConflictJudgeInput) -> Result<MapConflictJudgeOutput, String>;
}

/// Map conflict judge that holds every candidate as uncertain.
pub struct DefaultMapConflictJudge;

impl DefaultMapConflictJudge {
    /// The default judge.
    pub fn new() -> (r: DefaultMapConflictJudge) {
        DefaultMapConflictJudge
    }
}

impl MapConflictJudge for DefaultMapConflictJudge {
    /// Its answer for any candidate: uncertain, nothing normalized,
    /// confidence zero.
    fn judge(&self, input: &MapConflictJudgeInput) -> (r: Result<MapConflictJudgeOutput, String>)
        ensures
            r matches Ok(o) && {
                &&& o.decision == MapConflictDecision::Uncertain
                &&& o.normalized_edge_type is None
                &&& o.normalized_direction_hint is None
                &&& o.normalized_distance_hint is None
                &&& o.conflict_type is None
                &&& o.reason_code@ == "default_uncertain"@
                &&& o.confidence == Score::zero_value()
                &&& o.explanation_for_log@ == "Default map conflict judge does not make topology decisions"@
            },
    {
        Ok(MapConflictJudgeOutput {
            decision: MapConflictDecision::Uncertain,
            normalized_edge_type: None,
            normalized_direction_hint: None,
            normalized_distance_hint: None,
            conflict_type: None,
            reason_code: owned("default_uncertain"),
            confidence: Score::zero(),
            explanation_for_log: owned("Default map conflict judge does not make topology decisions"),
        })
    }
}

/// Map conflict judge that answers every candidate with a configured output.
pub struct MockMapConflictJudge {
    pub output: MapConflictJudgeOutput,
}

impl MockMapConflictJudge {
    /// A judge answering with `output`.
    pub fn new(output: MapConflictJudgeOutput) -> (r: MockMapConflictJudge)
        ensures
            r.output == output,
    {
        MockMapConflictJudge { output }
    }
}

impl MapConflictJudge for MockMapConflictJudge {
    /// Its answer for any candidate: the configured output.
    fn judge(&self, input: &MapConflictJudgeInput) -> (r: Result<MapConflictJudgeOutput, String>)
        ensures
            r == Ok::<MapConflictJudgeOutput, String>(self.output),
    {
        Ok(clone_output(&self.output))
    }
}

/// The map judge is told everything: its prompt asks for json, states the
/// boundary rules (geography knowledge is context only, no map art), names
/// every conflict type, and carries the candidate's book, claim id, claim
/// type, both place mentions, edge type, and every evidence span, existing
/// map context line and boundary warning.
pub proof fn lemma_map_prompt_mentions_everything(input: MapConflictJudgeInput)
    ensures
        contains(map_prompt_spec(input), "json"@),
        contains(map_prompt_spec(input), "geography knowledge is context only"@),
        contains(map_prompt_spec(input), "no map art"@),
        forall|i: int| 0 <= i < conflict_types().len() ==> contains(map_prompt_spec(input), #[trigger] conflict_types()[i]),
        contains(map_prompt_spec(input), input.book_id@),
        contains(map_prompt_spec(input), input.claim_id@),
        contains(map_prompt_spec(input), input.claim_type@),
        contains(map_prompt_spec(input), input.from_place_mention@),
        contains(map_prompt_spec(input), input.to_place_mention@),
        contains(map_prompt_spec(input), input.edge_type@),
        forall|i: int| 0 <= i < input.evidence_spans@.len() ==> contains(map_prompt_spec(input), #[trigger] input.evidence_spans@[i]@),
        forall|i: int| 0 <= i < input.existing_map_context@.len() ==> contains(map_prompt_spec(input), #[trigger] input.existing_map_context@[i]@),
        forall|i: int| 0 <= i < input.boundary_warnings@.len() ==> contains(map_prompt_spec(input), #[trigger] input.boundary_warnings@[i]@),
{
    let pr = map_prompt_spec(input);
    let h = map_prompt_head();
    lemma_map_prompt_head_mentions();
    assert forall|j: int| 0 <= j < h.len() implies #[trigger] pr[j] == h[j] by {}
    assert forall|w: Seq<char>, k: int| occurs_at(h, w, k) implies occurs_at(pr, w, k) by {
        assert(pr.subrange(k, k + w.len()) =~= h.subrange(k, k + w.len()));
    }
    reveal(conflict_types);
    assert forall|i: int| 0 <= i < conflict_types().len() implies contains(pr, #[trigger] conflict_types()[i]) by {
        let k = choose|k: int| occurs_at(h, conflict_types()[i], k);
        assert(occurs_at(pr, conflict_types()[i], k));
    }
    let k = choose|k: int| occurs_at(h, "json"@, k);
    assert(occurs_at(pr, "json"@, k));
    let k = choose|k: int| occurs_at(h, "geography knowledge is context only"@, k);
    assert(occurs_at(pr, "geography knowledge is context only"@, k));
    let k = choose|k: int| occurs_at(h, "no map art"@, k);
    assert(occurs_at(pr, "no map art"@, k));
    let ch = decimal_int(input.chapter_index as int);
    let p1 = h + input.book_id@;
    assert(occurs_at(pr, input.book_id@, h.len() as int)) by {
        assert(pr.subrange(h.len() as int, p1.len() as int) =~= input.book_id@);
    }
    let p2 = p1 + "\n- chapter_index: "@ + ch + "\n- claim_id: "@;
    let p3 = p2 + input.claim_id@;
    assert(occurs_at(pr, input.claim_id@, p2.len() as int)) by {
        assert(pr.subrange(p2.len() as int, p3.len() as int) =~= input.claim_id@);
    }
    let p4 = p3 + "\n- claim_type: "@;
    let p5 = p4 + input.claim_type@;
    assert(occurs_at(pr, input.claim_type@, p4.len() as int)) by {
        assert(pr.subrange(p4.len() as int, p5.len() as int) =~= input.claim_type@);
    }
    let p6 = p5 + "\n- from_place_mention: "@;
    let p7 = p6 + input.from_place_mention@;
    assert(occurs_at(pr, input.from_place_mention@, p6.len() as int)) by {
        assert(pr.subrange(p6.len() as int, p7.len() as int) =~= input.from_place_mention@);
    }
    let p8 = p7 + "\n- to_place_mention: "@;
    let p9 = p8 + input.to_place_mention@;
    assert(occurs_at(pr, input.to_place_mention@, p8.len() as int)) by {
        assert(pr.subrange(p8.len() as int, p9.len() as int) =~= input.to_place_mention@);
    }
    let p10 = p9 + "\n- edge_type: "@;
    let p11 = p10 + input.edge_type@;
    assert(occurs_at(pr, input.edge_type@, p10.len() as int)) by {
        assert(pr.subrange(p10.len() as int, p11.len() as int) =~= input.edge_type@);
    }
    let ev = joined(string_views(input.evidence_spans@), "\n"@);
    let p12 = p11 + "\n\nEvidence spans:\n"@;
    let p13 = p12 + ev;
    assert(occurs_at(pr, ev, p12.len() as int)) by {
        assert(pr.subrange(p12.len() as int, p13.len() as int) =~= ev);
    }
    let cx = joined(string_views(input.existing_map_context@), "\n"@);
    let p14 = p13 + "\n\nExisting map context:\n"@;
    let p15 = p14 + cx;
    assert(occurs_at(pr, cx, p14.len() as int)) by {
        assert(pr.subrange(p14.len() as int, p15.len() as int) =~= cx);
    }
    let wn = joined(string_views(input.boundary_warnings@), "\n"@);
    let p16 = p15 + "\n\nBoundary warnings:\n"@;
    let p17 = p16 + wn;
    assert(occurs_at(pr, wn, p16.len() as int)) by {
        assert(pr.subrange(p16.len() as int, p17.len() as int) =~= wn);
    }
    assert forall|i: int| 0 <= i < input.evidence_spans@.len() implies contains(pr, #[trigger] input.evidence_spans@[i]@) by {
        let m = crate::text::lemma_joined_holds_item(string_views(input.evidence_spans@), "\n"@, i);
        crate::text::lemma_occurs_within(pr, ev, p12.len() as int, input.evidence_spans@[i]@, m);
    }
    assert forall|i: int| 0 <= i < input.existing_map_context@.len() implies contains(pr, #[trigger] input.existing_map_context@[i]@) by {
        let m = crate::text::lemma_joined_holds_item(string_views(input.existing_map_context@), "\n"@, i);
        crate::text::lemma_occurs_within(pr, cx, p14.len() as int, input.existing_map_context@[i]@, m);
    }
    assert forall|i: int| 0 <= i < input.boundary_warnings@.len() implies contains(pr, #[trigger] input.boundary_warnings@[i]@) by {
        let m = crate::text::lemma_joined_holds_item(string_views(input.boundary_warnings@), "\n"@, i);
        crate::text::lemma_occurs_within(pr, wn, p16.len() as int, input.boundary_warnings@[i]@, m);
    }
}

proof fn lemma_map_prompt_head_mentions()
    ensures
        occurs_at(map_prompt_head(), "json"@, 18),
        occurs_at(map_prompt_head(), "geography knowledge is context only"@, 84),
        occurs_at(map_prompt_head(), "no map art"@, 161),
        occurs_at(map_prompt_head(), "parent_conflict"@, 393),
        occurs_at(map_prompt_head(), "direction_conflict"@, 410),
        occurs_at(map_prompt_head(), "distance_conflict"@, 430),
        occurs_at(map_prompt_head(), "cycle_risk"@, 449),
        occurs_at(map_prompt_head(), "duplicate_contradiction"@, 461),
        occurs_at(map_prompt_head(), "ambiguous_place"@, 486),
        occurs_at(map_prompt_head(), "unknown_conflict"@, 503),
{
    reveal_strlit("Return one strict json object for a novel map conflict decision.\n\n\
     Boundary rules:\n\
     - geography knowledge is context only and cannot by itself become a map edge\n\
     - no map art, no coordinates, no invented routes, no final image\n\
     - be conservative: conflict or uncertain is better than polluting active topology\n\n\
     Allowed decisions: accept, conflict, uncertain, reject.\n\
     Allowed conflict_type values: parent_conflict, direction_conflict, distance_conflict, cycle_risk, duplicate_contradiction, ambiguous_place, unknown_conflict.\n\n\
     Candidate:\n\
     - book_id: ");
    reveal_strlit("json");
    reveal_strlit("geography knowledge is context only");
    reveal_strlit("no map art");
    reveal_strlit("parent_conflict");
    reveal_strlit("direction_conflict");
    reveal_strlit("distance_conflict");
    reveal_strlit("cycle_risk");
    reveal_strlit("duplicate_contradiction");
    reveal_strlit("ambiguous_place");
    reveal_strlit("unknown_conflict");
    let h = map_prompt_head();
    assert(h.subrange(18, 22) =~= "json"@);
    assert(h.subrange(84, 119) =~= "geography knowledge is context only"@);
    assert(h.subrange(161, 171) =~= "no map art"@);
    assert(h.subrange(393, 408) =~= "parent_conflict"@);
    assert(h.subrange(410, 428) =~= "direction_conflict"@);
    assert(h.subrange(430, 447) =~= "distance_conflict"@);
    assert(h.subrange(449, 459) =~= "cycle_risk"@);
    assert(h.subrange(461, 484) =~= "duplicate_contradiction"@);
    assert(h.subrange(486, 501) =~= "ambiguous_place"@);
    assert(h.subrange(503, 519) =~= "unknown_conflict"@);
}

} // verus!
