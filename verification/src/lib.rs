pub mod text;
pub mod score;
pub mod json;
pub mod outcome;
pub mod records;
pub mod extractor;
pub mod identity_judge;
pub mod knowledge_judge;
pub mod map_gate;
pub mod map_conflict_judge;
pub mod correction;
pub mod correction_applier;
pub mod ledger_payload;
pub mod write_commands;
pub mod character_decision;
pub mod identity_decision;
pub mod knowledge_decision;
pub mod place_decision;
pub mod claim_writer;
pub mod pipeline;
pub mod knowledge_projection;
pub mod claim_lifecycle;
pub mod context_builder;
pub mod location_flow;
pub mod chapter_flow;
pub mod model_request;
