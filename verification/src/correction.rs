//! User corrections: the command, the rules a correction must meet before it
//! is stored, and which record its target names.
use vstd::prelude::*;
use crate::outcome::check_view;
use crate::text::{join3, owned, str_eq, str_in, views_of};

verus! {

/// A correction that a user, an audit or the system asks for.
#[derive(Debug, Clone)]
pub struct CorrectionCommand {
    pub book_id: String,
    pub target_type: String,
    pub target_id: String,
    pub correction_type: String,
    pub correction_json: String,
    pub source: String,
    pub source_claim_id: Option<String>,
    pub source_span_id: Option<String>,
    pub created_by: String,
}

/// The kinds of record a correction may target.
#[verifier::opaque]
pub open spec fn target_types() -> Seq<Seq<char>> {
    seq![
        "claim"@, "entity"@, "entity_alias"@, "entity_property"@, "relationship"@,
        "relationship_event"@, "identity_link"@, "knowledge_card"@, "knowledge_assertion"@,
        "place"@, "place_edge"@, "entity_link"@, "projection_cache"@,
    ]
}

/// The kinds of correction.
#[verifier::opaque]
pub open spec fn correction_types() -> Seq<Seq<char>> {
    seq![
        "reject_claim"@, "accept_quarantined_claim"@, "retry_claim"@, "reclassify_claim"@,
        "merge_entities"@, "mark_not_same_entity"@, "split_required"@, "create_entity_link"@,
        "correct_property"@, "deactivate_relationship"@, "correct_relationship_label"@,
        "mark_knowledge_assertion_false"@, "revise_knowledge_assertion"@,
        "deactivate_place_edge"@, "mark_place_edge_conflict"@, "correct_place_parent"@,
        "rebuild_projection"@, "reprocess_scope"@,
    ]
}

/// Where a correction may come from.
#[verifier::opaque]
pub open spec fn correction_sources() -> Seq<Seq<char>> {
    seq!["user"@, "audit"@, "system"@, "test"@]
}

/// The corrections that a target type admits; `None` for an unknown target type.
#[verifier::opaque]
pub open spec fn compatible_corrections(target_type: Seq<char>) -> Option<Seq<Seq<char>>> {
    if target_type == "claim"@ {
        Some(seq!["reject_claim"@, "accept_quarantined_claim"@, "retry_claim"@, "reclassify_claim"@, "reprocess_scope"@])
    } else if target_type == "entity"@ {
        Some(seq!["merge_entities"@, "mark_not_same_entity"@, "split_required"@, "create_entity_link"@, "reprocess_scope"@])
    } else if target_type == "entity_alias"@ {
        Some(seq!["reprocess_scope"@])
    } else if target_type == "entity_property"@ {
        Some(seq!["correct_property"@, "reprocess_scope"@])
    } else if target_type == "relationship"@ {
        Some(seq!["deactivate_relationship"@, "correct_relationship_label"@, "reprocess_scope"@])
    } else if target_type == "relationship_event"@ {
        Some(seq!["deactivate_relationship"@, "reprocess_scope"@])
    } else if target_type == "identity_link"@ {
        Some(seq!["mark_not_same_entity"@, "split_required"@, "reprocess_scope"@])
    } else if target_type == "knowledge_card"@ {
        Some(seq!["revise_knowledge_assertion"@, "reprocess_scope"@])
    } else if target_type == "knowledge_assertion"@ {
        Some(seq!["mark_knowledge_assertion_false"@, "revise_knowledge_assertion"@, "reprocess_scope"@])
    } else if target_type == "place"@ {
        Some(seq!["correct_place_parent"@, "create_entity_link"@, "reprocess_scope"@])
    } else if target_type == "place_edge"@ {
        Some(seq!["deactivate_place_edge"@, "mark_place_edge_conflict"@, "correct_place_parent"@, "reprocess_scope"@])
    } else if target_type == "entity_link"@ {
        Some(seq!["create_entity_link"@, "reprocess_scope"@])
    } else if target_type == "projection_cache"@ {
        Some(seq!["rebuild_projection"@, "reprocess_scope"@])
    } else {
        None
    }
}

/// Corrections that assert a positive canonical fact.
#[verifier::opaque]
pub open spec fn positive_canonical_facts() -> Seq<Seq<char>> {
    seq![
        "accept_quarantined_claim"@, "merge_entities"@, "create_entity_link"@, "correct_property"@,
        "correct_relationship_label"@, "revise_knowledge_assertion"@, "correct_place_parent"@,
    ]
}

/// The check that `value` is among `allowed`, failing with `message: value`.
pub open spec fn allowed_check(value: Seq<char>, allowed: Seq<Seq<char>>, message: Seq<char>) -> Result<(), Seq<char>> {
    if allowed.contains(value) {
        Ok(())
    } else {
        Err(message + ": "@ + value)
    }
}

/// Succeeds when `value` is among `allowed`, else fails with `message: value`.
pub fn ensure_allowed(value: &str, allowed: &[&str], message: &str) -> (r: Result<(), String>)
    ensures
        check_view(r) == allowed_check(value@, views_of(allowed@), message@),
{
    if str_in(value, allowed) {
        Ok(())
    } else {
        Err(join3(message, ": ", value))
    }
}

/// Succeeds when `condition` holds, else fails with `message`.
pub fn ensure_exists(condition: bool, message: &str) -> (r: Result<(), String>)
    ensures
        check_view(r) == if condition {
            Ok::<(), Seq<char>>(())
        } else {
            Err(message@)
        },
{
    if condition {
        Ok(())
    } else {
        Err(owned(message))
    }
}

/// The target type is known.
pub fn validate_target_type(target_type: &str) -> (r: Result<(), String>)
    ensures
        check_view(r) == allowed_check(target_type@, target_types(), "invalid correction target_type"@),
{
    let allowed = [
        "claim", "entity", "entity_alias", "entity_property", "relationship", "relationship_event",
        "identity_link", "knowledge_card", "knowledge_assertion", "place", "place_edge",
        "entity_link", "projection_cache",
    ];
    proof {
        reveal(target_types);
    }
    assert(views_of(allowed@) =~= target_types());
    ensure_allowed(target_type, &allowed, "invalid correction target_type")
}

/// The correction type is known.
pub fn validate_correction_type(correction_type: &str) -> (r: Result<(), String>)
    ensures
        check_view(r) == allowed_check(correction_type@, correction_types(), "invalid correction_type"@),
{
    let allowed = [
        "reject_claim", "accept_quarantined_claim", "retry_claim", "reclassify_claim",
        "merge_entities", "mark_not_same_entity", "split_required", "create_entity_link",
        "correct_property", "deactivate_relationship", "correct_relationship_label",
        "mark_knowledge_assertion_false", "revise_knowledge_assertion", "deactivate_place_edge",
        "mark_place_edge_conflict", "correct_place_parent", "rebuild_projection", "reprocess_scope",
    ];
    proof {
        reveal(correction_types);
    }
    assert(views_of(allowed@) =~= correction_types());
    ensure_allowed(correction_type, &allowed, "invalid correction_type")
}

/// The source is known.
pub fn validate_source(source: &str) -> (r: Result<(), String>)
    ensures
        check_view(r) == allowed_check(source@, correction_sources(), "invalid correction source"@),
{
    let allowed = ["user", "audit", "system", "test"];
    proof {
        reveal(correction_sources);
    }
    assert(views_of(allowed@) =~= correction_sources());
    ensure_allowed(source, &allowed, "invalid correction source")
}

/// The check that the correction type suits the target type.
pub open spec fn compatibility_check(target_type: Seq<char>, correction_type: Seq<char>) -> Result<(), Seq<char>> {
    match compatible_corrections(target_type) {
        None => Err("invalid correction target_type"@),
        Some(allowed) => allowed_check(correction_type, allowed, "correction_type is not compatible with target_type"@),
    }
}

/// The correction type suits the target type.
pub fn validate_compatibility(target_type: &str, correction_type: &str) -> (r: Result<(), String>)
    ensures
        check_view(r) == compatibility_check(target_type@, correction_type@),
{
    proof {
        reveal(compatible_corrections);
    }
    let c = correction_type;
    if str_eq(target_type, "claim") {
        let a = ["reject_claim", "accept_quarantined_claim", "retry_claim", "reclassify_claim", "reprocess_scope"];
        assert(views_of(a@) =~= seq!["reject_claim"@, "accept_quarantined_claim"@, "retry_claim"@, "reclassify_claim"@, "reprocess_scope"@]);
        ensure_allowed(c, &a, "correction_type is not compatible with target_type")
    } else if str_eq(target_type, "entity") {
        let a = ["merge_entities", "mark_not_same_entity", "split_required", "create_entity_link", "reprocess_scope"];
        assert(views_of(a@) =~= seq!["merge_entities"@, "mark_not_same_entity"@, "split_required"@, "create_entity_link"@, "reprocess_scope"@]);
        ensure_allowed(c, &a, "correction_type is not compatible with target_type")
    } else if str_eq(target_type, "entity_alias") {
        let a = ["reprocess_scope"];
        assert(views_of(a@) =~= seq!["reprocess_scope"@]);
        ensure_allowed(c, &a, "correction_type is not compatible with target_type")
    } else if str_eq(target_type, "entity_property") {
        let a = ["correct_property", "reprocess_scope"];
        assert(views_of(a@) =~= seq!["correct_property"@, "reprocess_scope"@]);
        ensure_allowed(c, &a, "correction_type is not compatible with target_type")
    } else if str_eq(target_type, "relationship") {
        let a = ["deactivate_relationship", "correct_relationship_label", "reprocess_scope"];
        assert(views_of(a@) =~= seq!["deactivate_relationship"@, "correct_relationship_label"@, "reprocess_scope"@]);
        ensure_allowed(c, &a, "correction_type is not compatible with target_type")
    } else if str_eq(target_type, "relationship_event") {
        let a = ["deactivate_relationship", "reprocess_scope"];
        assert(views_of(a@) =~= seq!["deactivate_relationship"@, "reprocess_scope"@]);
        ensure_allowed(c, &a, "correction_type is not compatible with target_type")
    } else if str_eq(target_type, "identity_link") {
        let a = ["mark_not_same_entity", "split_required", "reprocess_scope"];
        assert(views_of(a@) =~= seq!["mark_not_same_entity"@, "split_required"@, "reprocess_scope"@]);
        ensure_allowed(c, &a, "correction_type is not compatible with target_type")
    } else if str_eq(target_type, "knowledge_card") {
        let a = ["revise_knowledge_assertion", "reprocess_scope"];
        assert(views_of(a@) =~= seq!["revise_knowledge_assertion"@, "reprocess_scope"@]);
        ensure_allowed(c, &a, "correction_type is not compatible with target_type")
    } else if str_eq(target_type, "knowledge_assertion") {
        let a = ["mark_knowledge_assertion_false", "revise_knowledge_assertion", "reprocess_scope"];
        assert(views_of(a@) =~= seq!["mark_knowledge_assertion_false"@, "revise_knowledge_assertion"@, "reprocess_scope"@]);
        ensure_allowed(c, &a, "correction_type is not compatible with target_type")
    } else if str_eq(target_type, "place") {
        let a = ["correct_place_parent", "create_entity_link", "reprocess_scope"];
        assert(views_of(a@) =~= seq!["correct_place_parent"@, "create_entity_link"@, "reprocess_scope"@]);
        ensure_allowed(c, &a, "correction_type is not compatible with target_type")
    } else if str_eq(target_type, "place_edge") {
        let a = ["deactivate_place_edge", "mark_place_edge_conflict", "correct_place_parent", "reprocess_scope"];
        assert(views_of(a@) =~= seq!["deactivate_place_edge"@, "mark_place_edge_conflict"@, "correct_place_parent"@, "reprocess_scope"@]);
        ensure_allowed(c, &a, "correction_type is not compatible with target_type")
    } else if str_eq(target_type, "entity_link") {
        let a = ["create_entity_link", "reprocess_scope"];
        assert(views_of(a@) =~= seq!["create_entity_link"@, "reprocess_scope"@]);
        ensure_allowed(c, &a, "correction_type is not compatible with target_type")
    } else if str_eq(target_type, "projection_cache") {
        let a = ["rebuild_projection", "reprocess_scope"];
        assert(views_of(a@) =~= seq!["rebuild_projection"@, "reprocess_scope"@]);
        ensure_allowed(c, &a, "correction_type is not compatible with target_type")
    } else {
        Err(owned("invalid correction target_type"))
    }
}

/// Whether the correction type asserts a positive canonical fact.
pub fn is_positive_canonical_fact(correction_type: &str) -> (r: bool)
    ensures
        r == positive_canonical_facts().contains(correction_type@),
{
    let facts = [
        "accept_quarantined_claim", "merge_entities", "create_entity_link", "correct_property",
        "correct_relationship_label", "revise_knowledge_assertion", "correct_place_parent",
    ];
    proof {
        reveal(positive_canonical_facts);
    }
    assert(views_of(facts@) =~= positive_canonical_facts());
    str_in(correction_type, &facts)
}

/// Whether the command names a source claim or a source span.
pub open spec fn has_source(command: CorrectionCommand) -> bool {
    command.source_claim_id is Some || command.source_span_id is Some
}

/// The rule that a positive canonical fact must be backed by a source.
pub open spec fn manual_override_check(command: CorrectionCommand) -> Result<(), Seq<char>> {
    if has_source(command) || !positive_canonical_facts().contains(command.correction_type@) {
        Ok(())
    } else {
        Err("source-backed correction required for positive canonical fact"@)
    }
}

/// A positive canonical fact must be backed by a source claim or span.
pub fn validate_manual_override_rule(command: &CorrectionCommand) -> (r: Result<(), String>)
    ensures
        check_view(r) == manual_override_check(*command),
{
    let has_source = command.source_claim_id.is_some() || command.source_span_id.is_some();
    if has_source || !is_positive_canonical_fact(command.correction_type.as_str()) {
        return Ok(());
    }
    Err(owned("source-backed correction required for positive canonical fact"))
}

/// The checks of a command that need no stored record, in order: target
/// type, correction type, source, compatibility, source backing.
pub open spec fn command_check(command: CorrectionCommand) -> Result<(), Seq<char>> {
    if allowed_check(command.target_type@, target_types(), "invalid correction target_type"@) is Err {
        allowed_check(command.target_type@, target_types(), "invalid correction target_type"@)
    } else if allowed_check(command.correction_type@, correction_types(), "invalid correction_type"@) is Err {
        allowed_check(command.correction_type@, correction_types(), "invalid correction_type"@)
    } else if allowed_check(command.source@, correction_sources(), "invalid correction source"@) is Err {
        allowed_check(command.source@, correction_sources(), "invalid correction source"@)
    } else if compatibility_check(command.target_type@, command.correction_type@) is Err {
        compatibility_check(command.target_type@, command.correction_type@)
    } else {
        manual_override_check(command)
    }
}

/// Runs the checks of a command that need no stored record.
pub fn validate_command(command: &CorrectionCommand) -> (r: Result<(), String>)
    ensures
        check_view(r) == command_check(*command),
{
    let r = validate_target_type(command.target_type.as_str());
    if r.is_err() {
        return r;
    }
    let r = validate_correction_type(command.correction_type.as_str());
    if r.is_err() {
        return r;
    }
    let r = validate_source(command.source.as_str());
    if r.is_err() {
        return r;
    }
    let r = validate_compatibility(command.target_type.as_str(), command.correction_type.as_str());
    if r.is_err() {
        return r;
    }
    validate_manual_override_rule(command)
}

/// How the target of a correction is looked up.
#[derive(Debug, Clone, PartialEq, Eq)]
pub enum TargetLookup {
    /// The target is a claim of the ledger.
    Claim,
    /// The target is a row of `table` in the book; `message` when it is absent.
    Row { table: String, message: String },
    /// The target needs no lookup.
    Nothing,
}

/// The table and message of each target type that is a row of the book.
pub open spec fn target_row(target_type: Seq<char>) -> Option<(Seq<char>, Seq<char>)> {
    if target_type == "entity"@ || target_type == "place"@ {
        Some(("entities"@, "target entity not found"@))
    } else if target_type == "entity_alias"@ {
        Some(("entity_aliases"@, "target alias not found"@))
    } else if target_type == "entity_property"@ {
        Some(("entity_properties"@, "target property not found"@))
    } else if target_type == "relationship"@ {
        Some(("relationships"@, "target relationship not found"@))
    } else if target_type == "relationship_event"@ {
        Some(("relationship_events"@, "target relationship event not found"@))
    } else if target_type == "identity_link"@ {
        Some(("entity_identity_links"@, "target identity link not found"@))
    } else if target_type == "knowledge_card"@ {
        Some(("knowledge_cards"@, "target knowledge card not found"@))
    } else if target_type == "knowledge_assertion"@ {
        Some(("knowledge_assertions"@, "target knowledge assertion not found"@))
    } else if target_type == "place_edge"@ {
        Some(("place_edges"@, "target place edge not found"@))
    } else if target_type == "entity_link"@ {
        Some(("entity_links"@, "target entity link not found"@))
    } else {
        None
    }
}

fn row(table: &str, message: &str) -> (r: TargetLookup)
    ensures
        r matches TargetLookup::Row { table: t, message: m } && t@ == table@ && m@ == message@,
{
    TargetLookup::Row { table: owned(table), message: owned(message) }
}

/// How the target of a correction with a known target type is looked up:
/// claims in the ledger, each other record type as a row of its table, and
/// `projection_cache` (the one target type with no table) not at all.
pub fn target_lookup(target_type: &str) -> (r: TargetLookup)
    requires
        target_types().contains(target_type@),
    ensures
        target_type@ == "claim"@ ==> r == TargetLookup::Claim,
        target_type@ != "claim"@ ==> match target_row(target_type@) {
            Some((t, m)) => r matches TargetLookup::Row { table, message } && table@ == t && message@ == m,
            None => r == TargetLookup::Nothing,
        },
{
    proof {
        reveal(target_types);
    }
    if str_eq(target_type, "claim") {
        TargetLookup::Claim
    } else if str_eq(target_type, "entity") || str_eq(target_type, "place") {
        row("entities", "target entity not found")
    } else if str_eq(target_type, "entity_alias") {
        row("entity_aliases", "target alias not found")
    } else if str_eq(target_type, "entity_property") {
        row("entity_properties", "target property not found")
    } else if str_eq(target_type, "relationship") {
        row("relationships", "target relationship not found")
    } else if str_eq(target_type, "relationship_event") {
        row("relationship_events", "target relationship event not found")
    } else if str_eq(target_type, "identity_link") {
        row("entity_identity_links", "target identity link not found")
    } else if str_eq(target_type, "knowledge_card") {
        row("knowledge_cards", "target knowledge card not found")
    } else if str_eq(target_type, "knowledge_assertion") {
        row("knowledge_assertions", "target knowledge assertion not found")
    } else if str_eq(target_type, "place_edge") {
        row("place_edges", "target place edge not found")
    } else if str_eq(target_type, "entity_link") {
        row("entity_links", "target entity link not found")
    } else {
        TargetLookup::Nothing
    }
}

/// A command that passes the record-free checks and asserts a positive
/// canonical fact names a source claim or a source span: no manual override
/// of a canonical fact goes unsourced.
pub proof fn lemma_positive_fact_needs_source(command: CorrectionCommand)
    requires
        command_check(command) is Ok,
        positive_canonical_facts().contains(command.correction_type@),
    ensures
        has_source(command),
{
}

/// A command that passes the record-free checks names a known target type, a
/// known correction type and a known source, and the correction suits the
/// target.
pub proof fn lemma_valid_command_is_known(command: CorrectionCommand)
    requires
        command_check(command) is Ok,
    ensures
        target_types().contains(command.target_type@),
        correction_types().contains(command.correction_type@),
        correction_sources().contains(command.source@),
        compatible_corrections(command.target_type@) matches Some(allowed) && allowed.contains(command.correction_type@),
{
}

/// The acceptance condition of a correction, as one law: a command passes
/// the record-free checks exactly when its target type, correction type and
/// source are known, the correction suits the target, and a positive
/// canonical fact names a source claim or span.
pub proof fn lemma_command_accepted_iff(command: CorrectionCommand)
    ensures
        command_check(command) is Ok <==> {
            &&& target_types().contains(command.target_type@)
            &&& correction_types().contains(command.correction_type@)
            &&& correction_sources().contains(command.source@)
            &&& (compatible_corrections(command.target_type@) matches Some(allowed) && allowed.contains(command.correction_type@))
            &&& (has_source(command) || !positive_canonical_facts().contains(command.correction_type@))
        },
{
}

} // verus!
