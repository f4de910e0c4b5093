//! The structural gate in front of the map conflict judge: which location
//! claims may become map topology, and the parent-hierarchy cycle check.
use vstd::prelude::*;
use crate::json::{
    array_member, bool_member, get_array, get_bool, get_trimmed_str, has_key, has_member, json_str,
    trimmed_str_member, JsonValue,
};
use crate::outcome::GateView;
use crate::records::{ClaimRecord, EntityRecord};
use crate::score::{less_than, KEY_HALF, KEY_QUARTER};
use crate::text::{is_blank, join2, join3, owned, str_eq, str_in, str_is_blank, views_of};

verus! {

/// The place edge types that map topology admits.
#[verifier::opaque]
pub open spec fn place_edge_types() -> Seq<Seq<char>> {
    seq![
        "north_of"@, "south_of"@, "east_of"@, "west_of"@, "near"@, "adjacent_to"@, "contains"@,
        "inside"@, "part_of"@, "route_to"@,
    ]
}

/// Whether `edge_type` is one of the admitted place edge types.
pub fn is_place_edge_type(edge_type: &str) -> (r: bool)
    ensures
        r == place_edge_types().contains(edge_type@),
{
    let types = [
        "north_of", "south_of", "east_of", "west_of", "near", "adjacent_to", "contains", "inside",
        "part_of", "route_to",
    ];
    proof {
        reveal(place_edge_types);
    }
    assert(views_of(types@) =~= place_edge_types());
    str_in(edge_type, &types)
}

/// What the map gate decides.
#[derive(Debug, Clone, PartialEq)]
pub enum MapGateResult {
    Pass,
    Reject(String),
    Uncertain(String),
}

impl View for MapGateResult {
    type V = GateView;

    open spec fn view(&self) -> GateView {
        match *self {
            MapGateResult::Pass => GateView::Pass,
            MapGateResult::Reject(r) => GateView::Reject(r@),
            MapGateResult::Uncertain(r) => GateView::Uncertain(r@),
        }
    }
}

/// What the map gate reads of one location claim: the claim's payload object
/// (`None` when `value_json` is missing or is not JSON), the decimal text of
/// its confidence, and the two endpoints.
pub struct MapGateContext<'a> {
    pub claim: &'a ClaimRecord,
    pub payload: Option<&'a JsonValue>,
    pub confidence_text: &'a str,
    pub from_place: Option<&'a EntityRecord>,
    pub to_place: Option<&'a EntityRecord>,
    pub existing_parent_links: &'a [(String, String)],
}

/// Whether the payload lists at least one evidence span id that is not blank.
pub open spec fn has_evidence_span_ids_spec(v: JsonValue) -> bool {
    match array_member(v, "evidence_span_ids"@) {
        Some(items) => exists|i: int|
            0 <= i < items.len() && #[trigger] json_str(items[i]) is Some && !is_blank(json_str(items[i])->0),
        None => false,
    }
}

/// Whether the payload carries any field of a knowledge summary.
pub open spec fn has_knowledge_summary_shape_spec(v: JsonValue) -> bool {
    has_member(v, "category"@) || has_member(v, "topic"@) || has_member(v, "assertion_text"@)
}

/// The trimmed `edge_type` of the payload, or the empty text.
pub open spec fn edge_type_or_empty(v: JsonValue) -> Seq<char> {
    match trimmed_str_member(v, "edge_type"@) {
        Some(e) => e,
        None => Seq::empty(),
    }
}

/// The `(child, parent)` pair that the claim would place in the hierarchy:
/// an introduction puts the `to` place under the `from` place, `contains`
/// does the same, `inside` and `part_of` put `from` under `to`.
pub open spec fn hierarchy_candidate_spec(
    claim_type: Seq<char>,
    v: JsonValue,
    from_id: Seq<char>,
    to_id: Seq<char>,
) -> Option<(Seq<char>, Seq<char>)> {
    if claim_type == "location_introduction"@ {
        Some((to_id, from_id))
    } else {
        match trimmed_str_member(v, "edge_type"@) {
            Some(e) => if e == "contains"@ {
                Some((to_id, from_id))
            } else if e == "inside"@ || e == "part_of"@ {
                Some((from_id, to_id))
            } else {
                None
            },
            None => None,
        }
    }
}

/// The parent of the first link, at index `i` or later, whose child is `c`.
pub open spec fn first_parent_from(links: Seq<(String, String)>, c: Seq<char>, i: int) -> Option<Seq<char>>
    decreases links.len() - i,
{
    if i < 0 || i >= links.len() {
        None
    } else if links[i].0@ == c {
        Some(links[i].1@)
    } else {
        first_parent_from(links, c, i + 1)
    }
}

/// The recorded parent of `c`: that of the first link whose child is `c`.
pub open spec fn first_parent(links: Seq<(String, String)>, c: Seq<char>) -> Option<Seq<char>> {
    first_parent_from(links, c, 0)
}

/// Whether walking up from `cursor` through recorded parents reaches
/// `child` within `fuel` steps.
pub open spec fn parent_walk_reaches(links: Seq<(String, String)>, child: Seq<char>, cursor: Seq<char>, fuel: nat) -> bool
    decreases fuel,
{
    if fuel == 0 {
        false
    } else {
        match first_parent(links, cursor) {
            None => false,
            Some(p) => p == child || parent_walk_reaches(links, child, p, (fuel - 1) as nat),
        }
    }
}

/// Whether making `parent` the parent of `child` closes a cycle: the two are
/// the same place, or `child` is reached by walking up from `parent`, one
/// step per recorded link at most.
pub open spec fn creates_parent_cycle(child: Seq<char>, parent: Seq<char>, links: Seq<(String, String)>) -> bool {
    child == parent || parent_walk_reaches(links, child, parent, links.len())
}

/// The map gate.
#[verifier::opaque]
pub open spec fn map_gate_spec(
    claim: ClaimRecord,
    payload: Option<JsonValue>,
    confidence_text: Seq<char>,
    from_place: Option<EntityRecord>,
    to_place: Option<EntityRecord>,
    links: Seq<(String, String)>,
) -> GateView {
    match payload {
        None => GateView::Reject("missing map claim value_json"@),
        Some(v) => if is_blank(claim.primary_source_span_id@) || !has_evidence_span_ids_spec(v) {
            GateView::Reject("missing evidence spans"@)
        } else if less_than(claim.confidence, KEY_QUARTER) {
            GateView::Reject("confidence "@ + confidence_text + " is extremely low"@)
        } else if has_knowledge_summary_shape_spec(v) {
            GateView::Reject("knowledge summary is not canonical map topology"@)
        } else if claim.claim_type@ == "location_edge"@ && bool_member(v, "is_topological_hint"@) == Some(false) {
            GateView::Reject("non-map character movement/current location hint"@)
        } else if claim.claim_type@ == "location_edge"@ && !place_edge_types().contains(edge_type_or_empty(v)) {
            GateView::Reject("invalid edge_type: "@ + edge_type_or_empty(v))
        } else if claim.claim_type@ != "location_edge"@ && claim.claim_type@ != "location_introduction"@ {
            GateView::Reject("unsupported map claim_type: "@ + claim.claim_type@)
        } else if from_place is None {
            unresolved_endpoint_view(to_place is None)
        } else if to_place is None {
            unresolved_endpoint_view(false)
        } else if from_place->0.entity_type@ != "place"@ || to_place->0.entity_type@ != "place"@ {
            GateView::Reject("map endpoints must resolve to place entities"@)
        } else if from_place->0.id@ == to_place->0.id@ {
            GateView::Reject("self edge is not valid map topology"@)
        } else if less_than(claim.confidence, KEY_HALF) {
            GateView::Uncertain("confidence "@ + confidence_text + " is weak"@)
        } else {
            match hierarchy_candidate_spec(claim.claim_type@, v, from_place->0.id@, to_place->0.id@) {
                Some((child, parent)) => if creates_parent_cycle(child, parent, links) {
                    GateView::Reject("contains hierarchy would create cycle"@)
                } else {
                    GateView::Pass
                },
                None => GateView::Pass,
            }
        },
    }
}

/// The outcome for a claim with an unresolved endpoint.
pub open spec fn unresolved_endpoint_view(both_unresolved: bool) -> GateView {
    if both_unresolved {
        GateView::Reject("both map endpoints are unresolved"@)
    } else {
        GateView::Uncertain("one map endpoint is unresolved"@)
    }
}

/// The value an optional reference points to.
pub open spec fn deref_opt<T>(o: Option<&T>) -> Option<T> {
    match o {
        Some(x) => Some(*x),
        None => None,
    }
}

/// Checks a location claim before it reaches the map conflict judge.
pub fn structural_gate(context: MapGateContext<'_>) -> (r: MapGateResult)
    ensures
        r@ == map_gate_spec(
            *context.claim,
            deref_opt(context.payload),
            context.confidence_text@,
            deref_opt(context.from_place),
            deref_opt(context.to_place),
            context.existing_parent_links@,
        ),
{
    proof {
        reveal(map_gate_spec);
    }
    let claim = context.claim;
    let value_json = match context.payload {
        Some(v) => v,
        None => return MapGateResult::Reject(owned("missing map claim value_json")),
    };
    if str_is_blank(claim.primary_source_span_id.as_str()) || !has_evidence_span_ids(value_json) {
        return MapGateResult::Reject(owned("missing evidence spans"));
    }
    if claim.confidence.below(KEY_QUARTER) {
        return MapGateResult::Reject(join3("confidence ", context.confidence_text, " is extremely low"));
    }
    if has_knowledge_summary_shape(value_json) {
        return MapGateResult::Reject(owned("knowledge summary is not canonical map topology"));
    }
    let is_edge = str_eq(claim.claim_type.as_str(), "location_edge");
    if is_edge {
        if get_bool(value_json, "is_topological_hint") == Some(false) {
            return MapGateResult::Reject(owned("non-map character movement/current location hint"));
        }
        let edge_type = match get_trimmed_str(value_json, "edge_type") {
            Some(e) => e,
            None => String::new(),
        };
        if !is_place_edge_type(edge_type.as_str()) {
            return MapGateResult::Reject(join2("invalid edge_type: ", edge_type.as_str()));
        }
    } else if !str_eq(claim.claim_type.as_str(), "location_introduction") {
        return MapGateResult::Reject(join2("unsupported map claim_type: ", claim.claim_type.as_str()));
    }
    let from_place = match context.from_place {
        Some(p) => p,
        None => return unresolved_endpoint_result(context.to_place.is_none()),
    };
    let to_place = match context.to_place {
        Some(p) => p,
        None => return unresolved_endpoint_result(false),
    };
    if !str_eq(from_place.entity_type.as_str(), "place") || !str_eq(to_place.entity_type.as_str(), "place") {
        return MapGateResult::Reject(owned("map endpoints must resolve to place entities"));
    }
    if str_eq(from_place.id.as_str(), to_place.id.as_str()) {
        return MapGateResult::Reject(owned("self edge is not valid map topology"));
    }
    if claim.confidence.below(KEY_HALF) {
        return MapGateResult::Uncertain(join3("confidence ", context.confidence_text, " is weak"));
    }
    match hierarchy_candidate(claim, value_json, from_place, to_place) {
        Some((child_id, parent_id)) => {
            if would_create_parent_cycle(child_id.as_str(), parent_id.as_str(), context.existing_parent_links) {
                return MapGateResult::Reject(owned("contains hierarchy would create cycle"));
            }
        },
        None => {},
    }
    MapGateResult::Pass
}

/// The outcome for a claim with an unresolved endpoint: rejected when both
/// are unresolved, held as uncertain when one is.
pub fn unresolved_endpoint_result(both_unresolved: bool) -> (r: MapGateResult)
    ensures
        r@ == unresolved_endpoint_view(both_unresolved),
{
    if both_unresolved {
        MapGateResult::Reject(owned("both map endpoints are unresolved"))
    } else {
        MapGateResult::Uncertain(owned("one map endpoint is unresolved"))
    }
}

/// Whether the payload lists at least one evidence span id that is not blank.
pub fn has_evidence_span_ids(value_json: &JsonValue) -> (r: bool)
    ensures
        r == has_evidence_span_ids_spec(*value_json),
{
    let items = match get_array(value_json, "evidence_span_ids") {
        Some(items) => items,
        None => return false,
    };
    let mut i: usize = 0;
    while i < items.len()
        invariant
            array_member(*value_json, "evidence_span_ids"@) == Some(items@),
            i <= items@.len(),
            forall|k: int| 0 <= k < i ==> !(#[trigger] json_str(items@[k]) is Some && !is_blank(json_str(items@[k])->0)),
        decreases items.len() - i,
    {
        match &items[i] {
            JsonValue::Str(s) => {
                if !str_is_blank(s.as_str()) {
                    assert(json_str(items@[i as int]) == Some(s@));
                    return true;
                }
            },
            _ => {},
        }
        i = i + 1;
    }
    false
}

/// Whether the payload carries any field of a knowledge summary.
pub fn has_knowledge_summary_shape(value_json: &JsonValue) -> (r: bool)
    ensures
        r == has_knowledge_summary_shape_spec(*value_json),
{
    has_key(value_json, "category") || has_key(value_json, "topic") || has_key(value_json, "assertion_text")
}

/// The `(child, parent)` pair that the claim would place in the hierarchy.
pub fn hierarchy_candidate(
    claim: &ClaimRecord,
    value_json: &JsonValue,
    from_place: &EntityRecord,
    to_place: &EntityRecord,
) -> (r: Option<(String, String)>)
    ensures
        match r {
            Some((c, p)) => hierarchy_candidate_spec(claim.claim_type@, *value_json, from_place.id@, to_place.id@)
                == Some((c@, p@)),
            None => hierarchy_candidate_spec(claim.claim_type@, *value_json, from_place.id@, to_place.id@) is None,
        },
{
    if str_eq(claim.claim_type.as_str(), "location_introduction") {
        return Some((owned(to_place.id.as_str()), owned(from_place.id.as_str())));
    }
    let edge_type = match get_trimmed_str(value_json, "edge_type") {
        Some(e) => e,
        None => return None,
    };
    if str_eq(edge_type.as_str(), "contains") {
        Some((owned(to_place.id.as_str()), owned(from_place.id.as_str())))
    } else if str_eq(edge_type.as_str(), "inside") || str_eq(edge_type.as_str(), "part_of") {
        Some((owned(from_place.id.as_str()), owned(to_place.id.as_str())))
    } else {
        None
    }
}

/// Index of the first link whose child is `child`.
pub fn find_parent_link(child: &str, links: &[(String, String)]) -> (r: Option<usize>)
    ensures
        match r {
            Some(j) => j < links@.len() && first_parent(links@, child@) == Some(links@[j as int].1@),
            None => first_parent(links@, child@) is None,
        },
{
    let mut i: usize = 0;
    while i < links.len()
        invariant
            i <= links@.len(),
            first_parent_from(links@, child@, 0) == first_parent_from(links@, child@, i as int),
        decreases links.len() - i,
    {
        if str_eq(links[i].0.as_str(), child) {
            return Some(i);
        }
        i = i + 1;
    }
    None
}

/// Whether making `parent_id` the parent of `child_id` would close a cycle in
/// the recorded parent links.
pub fn would_create_parent_cycle(child_id: &str, parent_id: &str, existing_parent_links: &[(String, String)]) -> (r: bool)
    ensures
        r == creates_parent_cycle(child_id@, parent_id@, existing_parent_links@),
{
    if str_eq(child_id, parent_id) {
        return true;
    }
    let n = existing_parent_links.len();
    let mut cursor: &str = parent_id;
    let mut step: usize = 0;
    while step < n
        invariant
            n == existing_parent_links@.len(),
            step <= n,
            child_id@ != parent_id@,
            parent_walk_reaches(existing_parent_links@, child_id@, parent_id@, n as nat)
                == parent_walk_reaches(existing_parent_links@, child_id@, cursor@, (n - step) as nat),
        decreases n - step,
    {
        let j = match find_parent_link(cursor, existing_parent_links) {
            Some(j) => j,
            None => return false,
        };
        let next_parent: &str = existing_parent_links[j].1.as_str();
        if str_eq(next_parent, child_id) {
            return true;
        }
        cursor = next_parent;
        step = step + 1;
    }
    false
}

/// A parent link recorded as `(parent, child)` closes a cycle when `child`
/// is then given `parent` as its parent: the hierarchy may not loop back.
pub proof fn lemma_direct_back_link_is_cycle(child: Seq<char>, parent: Seq<char>, links: Seq<(String, String)>)
    requires
        first_parent(links, parent) == Some(child),
    ensures
        creates_parent_cycle(child, parent, links),
{
    assert(links.len() > 0) by {
        if links.len() == 0 {
            assert(first_parent_from(links, parent, 0) is None);
        }
    }
    assert(parent_walk_reaches(links, child, parent, links.len()));
}

/// A place can never be made its own parent.
pub proof fn lemma_self_parent_is_cycle(place: Seq<char>, links: Seq<(String, String)>)
    ensures
        creates_parent_cycle(place, place, links),
{
}

/// Whether `links` records `parent` as the parent of `child`.
pub open spec fn has_parent_link(links: Seq<(String, String)>, child: Seq<char>, parent: Seq<char>) -> bool {
    exists|j: int| 0 <= j < links.len() && #[trigger] links[j].0@ == child && links[j].1@ == parent
}

/// Whether `path` climbs the recorded hierarchy: each place's recorded
/// parent is the next place.
pub open spec fn is_parent_chain(links: Seq<(String, String)>, path: Seq<Seq<char>>) -> bool {
    forall|i: int| 0 <= i < path.len() - 1 ==> has_parent_link(links, #[trigger] path[i], path[i + 1])
}

/// Whether `ancestor` is reached from `place` by climbing recorded parent
/// links one or more times.
pub open spec fn is_ancestor(links: Seq<(String, String)>, ancestor: Seq<char>, place: Seq<char>) -> bool {
    exists|path: Seq<Seq<char>>|
        path.len() >= 2 && path[0] == place && path.last() == ancestor && #[trigger] is_parent_chain(links, path)
}

/// Whether no place has two recorded parent links.
pub open spec fn one_parent_each(links: Seq<(String, String)>) -> bool {
    forall|i: int, j: int| 0 <= i < j < links.len() ==> #[trigger] links[i].0@ != #[trigger] links[j].0@
}

proof fn lemma_first_parent_from_is_link(links: Seq<(String, String)>, c: Seq<char>, i: int)
    ensures
        first_parent_from(links, c, i) matches Some(p) ==> has_parent_link(links, c, p),
    decreases links.len() - i,
{
    if 0 <= i < links.len() && links[i].0@ != c {
        lemma_first_parent_from_is_link(links, c, i + 1);
    }
}

proof fn lemma_link_is_first_parent(links: Seq<(String, String)>, j: int, i: int)
    requires
        one_parent_each(links),
        0 <= i <= j < links.len(),
    ensures
        first_parent_from(links, links[j].0@, i) == Some(links[j].1@),
    decreases j - i,
{
    if i < j {
        assert(links[i].0@ != links[j].0@);
        lemma_link_is_first_parent(links, j, i + 1);
    }
}

proof fn lemma_walk_gives_chain(links: Seq<(String, String)>, child: Seq<char>, cursor: Seq<char>, fuel: nat)
    requires
        parent_walk_reaches(links, child, cursor, fuel),
    ensures
        is_ancestor(links, child, cursor),
    decreases fuel,
{
    let p = first_parent(links, cursor)->0;
    lemma_first_parent_from_is_link(links, cursor, 0);
    if p == child {
        let path = seq![cursor, child];
        assert(is_parent_chain(links, path)) by {
            assert forall|i: int| 0 <= i < path.len() - 1 implies has_parent_link(links, #[trigger] path[i], path[i + 1]) by {
                assert(i == 0);
            }
        }
    } else {
        lemma_walk_gives_chain(links, child, p, (fuel - 1) as nat);
        let rest = choose|path: Seq<Seq<char>>|
            path.len() >= 2 && path[0] == p && path.last() == child && #[trigger] is_parent_chain(links, path);
        let path = seq![cursor] + rest;
        assert(is_parent_chain(links, path)) by {
            assert forall|i: int| 0 <= i < path.len() - 1 implies has_parent_link(links, #[trigger] path[i], path[i + 1]) by {
                if i == 0 {
                    assert(path[1] == rest[0]);
                } else {
                    assert(path[i] == rest[i - 1]);
                    assert(path[i + 1] == rest[i]);
                    assert(has_parent_link(links, rest[i - 1], rest[i]));
                }
            }
        }
        assert(path.last() == rest.last());
    }
}

/// A chain with no place twice, made from any chain by cutting out loops.
proof fn lemma_shortest_chain(links: Seq<(String, String)>, path: Seq<Seq<char>>) -> (q: Seq<Seq<char>>)
    requires
        path.len() >= 2,
        path[0] != path.last(),
        is_parent_chain(links, path),
    ensures
        q.len() >= 2,
        q[0] == path[0],
        q.last() == path.last(),
        is_parent_chain(links, q),
        forall|a: int, b: int| 0 <= a < b < q.len() ==> #[trigger] q[a] != #[trigger] q[b],
    decreases path.len(),
{
    if exists|a: int, b: int| 0 <= a < b < path.len() && #[trigger] path[a] == #[trigger] path[b] {
        let (a, b) = choose|a: int, b: int| 0 <= a < b < path.len() && #[trigger] path[a] == #[trigger] path[b];
        let cut = path.subrange(0, a + 1) + path.subrange(b + 1, path.len() as int);
        assert(cut.len() == a + 1 + path.len() - b - 1);
        assert(cut[0] == path[0]);
        if b == path.len() - 1 {
            assert(a > 0);
            assert(cut.last() == path[a]);
        } else {
            assert(cut.last() == path.last());
        }
        assert(is_parent_chain(links, cut)) by {
            assert forall|i: int| 0 <= i < cut.len() - 1 implies has_parent_link(links, #[trigger] cut[i], cut[i + 1]) by {
                if i < a {
                    assert(cut[i] == path[i] && cut[i + 1] == path[i + 1]);
                } else if i == a {
                    assert(cut[i] == path[b] && cut[i + 1] == path[b + 1]);
                    assert(has_parent_link(links, path[b], path[b + 1]));
                } else {
                    let k = i - a - 1 + b + 1;
                    assert(cut[i] == path[k] && cut[i + 1] == path[k + 1]);
                    assert(has_parent_link(links, path[k], path[k + 1]));
                }
            }
        }
        lemma_shortest_chain(links, cut)
    } else {
        path
    }
}

proof fn lemma_chain_walks(links: Seq<(String, String)>, q: Seq<Seq<char>>, i: int, fuel: nat)
    requires
        one_parent_each(links),
        is_parent_chain(links, q),
        q.len() >= 2,
        forall|a: int, b: int| 0 <= a < b < q.len() ==> #[trigger] q[a] != #[trigger] q[b],
        0 <= i < q.len() - 1,
        fuel >= q.len() - 1 - i,
    ensures
        parent_walk_reaches(links, q.last(), q[i], fuel),
    decreases q.len() - i,
{
    assert(has_parent_link(links, q[i], q[i + 1]));
    let j = choose|j: int| 0 <= j < links.len() && #[trigger] links[j].0@ == q[i] && links[j].1@ == q[i + 1];
    lemma_link_is_first_parent(links, j, 0);
    assert(first_parent(links, q[i]) == Some(q[i + 1]));
    if i + 1 < q.len() - 1 {
        lemma_chain_walks(links, q, i + 1, (fuel - 1) as nat);
    }
}

proof fn lemma_distinct_chain_fits(links: Seq<(String, String)>, q: Seq<Seq<char>>)
    requires
        is_parent_chain(links, q),
        q.len() >= 2,
        forall|a: int, b: int| 0 <= a < b < q.len() ==> #[trigger] q[a] != #[trigger] q[b],
    ensures
        q.len() - 1 <= links.len(),
{
    let m = q.len() - 1;
    let g = |i: int| choose|j: int| 0 <= j < links.len() && #[trigger] links[j].0@ == q[i] && links[j].1@ == q[i + 1];
    let x = vstd::set_lib::set_int_range(0, m);
    let y = vstd::set_lib::set_int_range(0, links.len() as int);
    vstd::set_lib::lemma_int_range(0, m);
    vstd::set_lib::lemma_int_range(0, links.len() as int);
    assert forall|i: int| 0 <= i < m implies 0 <= #[trigger] g(i) < links.len() && links[g(i)].0@ == q[i] by {
        assert(has_parent_link(links, q[i], q[i + 1]));
    }
    assert(vstd::relations::injective_on(g, x)) by {
        assert forall|a: int, b: int| x.contains(a) && x.contains(b) && #[trigger] g(a) == #[trigger] g(b) implies a == b by {
            assert(links[g(a)].0@ == q[a]);
            assert(links[g(b)].0@ == q[b]);
            if a < b {
                assert(q[a] != q[b]);
            } else if b < a {
                assert(q[b] != q[a]);
            }
        }
    }
    vstd::set_lib::lemma_map_size(x, x.map(g), g);
    assert(x.map(g).subset_of(y)) by {
        assert forall|j: int| x.map(g).contains(j) implies y.contains(j) by {
            let i = choose|i: int| x.contains(i) && g(i) == j;
            assert(0 <= g(i) < links.len());
        }
    }
    vstd::set_lib::lemma_len_subset(x.map(g), y);
}

/// The cycle check is exactly ancestry: when no place has two recorded
/// parents, making `parent` the parent of `child` closes a cycle exactly when
/// `child` is `parent` itself or one of its ancestors in the recorded links.
pub proof fn lemma_cycle_check_is_ancestry(child: Seq<char>, parent: Seq<char>, links: Seq<(String, String)>)
    requires
        one_parent_each(links),
    ensures
        creates_parent_cycle(child, parent, links) <==> (child == parent || is_ancestor(links, child, parent)),
{
    if parent_walk_reaches(links, child, parent, links.len()) {
        lemma_walk_gives_chain(links, child, parent, links.len());
    }
    if child != parent && is_ancestor(links, child, parent) {
        let path = choose|path: Seq<Seq<char>>|
            path.len() >= 2 && path[0] == parent && path.last() == child && #[trigger] is_parent_chain(links, path);
        let q = lemma_shortest_chain(links, path);
        lemma_distinct_chain_fits(links, q);
        lemma_chain_walks(links, q, 0, links.len());
    }
}

/// Only sound topology passes the map gate: a passed claim carries evidence
/// and a map payload that is not a knowledge summary, has confidence of at
/// least one half, joins two distinct places, names a known edge type when it
/// is an edge, and closes no parent cycle.
pub proof fn lemma_map_gate_pass_is_sound(
    claim: ClaimRecord,
    payload: Option<JsonValue>,
    confidence_text: Seq<char>,
    from_place: Option<EntityRecord>,
    to_place: Option<EntityRecord>,
    links: Seq<(String, String)>,
)
    requires
        map_gate_spec(claim, payload, confidence_text, from_place, to_place, links) is Pass,
    ensures
        payload is Some,
        !is_blank(claim.primary_source_span_id@),
        has_evidence_span_ids_spec(payload->0),
        !has_knowledge_summary_shape_spec(payload->0),
        !less_than(claim.confidence, KEY_HALF),
        from_place is Some && to_place is Some,
        from_place->0.entity_type@ == "place"@ && to_place->0.entity_type@ == "place"@,
        from_place->0.id@ != to_place->0.id@,
        claim.claim_type@ == "location_edge"@ ==> place_edge_types().contains(edge_type_or_empty(payload->0)),
        match hierarchy_candidate_spec(claim.claim_type@, payload->0, from_place->0.id@, to_place->0.id@) {
            Some((child, parent)) => !creates_parent_cycle(child, parent, links),
            None => true,
        },
{
    reveal(map_gate_spec);
}

/// A location claim that passes the map gate closes no parent cycle in the
/// direction it nests its places: an introduction and a `contains` edge put
/// the `to` place under the `from` place, an `inside` or `part_of` edge puts
/// the `from` place under the `to` place, and in each case that placement
/// makes no cycle with the recorded parent links.
pub proof fn lemma_gate_pass_nests_without_cycle(
    claim: ClaimRecord,
    payload: Option<JsonValue>,
    confidence_text: Seq<char>,
    from_place: Option<EntityRecord>,
    to_place: Option<EntityRecord>,
    links: Seq<(String, String)>,
)
    requires
        map_gate_spec(claim, payload, confidence_text, from_place, to_place, links) is Pass,
    ensures
        claim.claim_type@ == "location_introduction"@ ==> !creates_parent_cycle(to_place->0.id@, from_place->0.id@, links),
        claim.claim_type@ == "location_edge"@ && edge_type_or_empty(payload->0) == "contains"@ ==> !creates_parent_cycle(
            to_place->0.id@,
            from_place->0.id@,
            links,
        ),
        claim.claim_type@ == "location_edge"@ && (edge_type_or_empty(payload->0) == "inside"@ || edge_type_or_empty(
            payload->0,
        ) == "part_of"@) ==> !creates_parent_cycle(from_place->0.id@, to_place->0.id@, links),
{
    lemma_map_gate_pass_is_sound(claim, payload, confidence_text, from_place, to_place, links);
    reveal_strlit("location_introduction");
    reveal_strlit("location_edge");
    reveal_strlit("contains");
    reveal_strlit("inside");
    reveal_strlit("part_of");
    assert("location_introduction"@.len() != "location_edge"@.len());
    assert("contains"@.len() != "inside"@.len());
    assert("contains"@.len() != "part_of"@.len());
}

} // verus!
