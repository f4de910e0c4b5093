# reader_v4

The decision core of a novel-reading pipeline, written in Verus. A chapter is
cut into segments; a model extracts observations from each segment; every
observation becomes a ledger claim; each claim passes a structural gate and,
where its domain has one, a judge; a decision layer turns the outcome into a
typed write command or a status change. Users may file corrections, which are
validated and applied.

The decisions of the pipeline are in `src/`, each with a contract that Verus
proves; the storage layer and the model clients they are made for are not
part of this crate, so the loop that reads and writes records around them
is not either:

- `extractor` — model output to observations (fence stripping, truncated-array
  repair, per-type field rules, evidence checks) and risk classification.
- `claim_writer` — what each observation is written as, with its status.
- `identity_judge`, `knowledge_judge`, `map_gate`, `map_conflict_judge` — the
  structural gates, judge-output validation, prompts and repair of judge text.
- `character_decision`, `identity_decision`, `knowledge_decision`,
  `place_decision`, `write_commands`, `ledger_payload` — ledger claims to
  write commands.
- `claim_lifecycle`, `chapter_flow`, `location_flow`, `pipeline` — the steps of
  processing a chapter: whether it needs processing, routing, gate and judge
  outcomes, payload updates, and what a failed map phase leaves behind.
- `correction`, `correction_applier` — correction rules and their writes.
- `knowledge_projection`, `context_builder` — read models and the extraction
  context.
- `model_request` — request bodies and headers for the model APIs.
- `json`, `text`, `score`, `records`, `outcome` — plain-value models of JSON
  documents, strings, fractional scores and stored records.

`app/` holds what works with `serde`: parsing model and judge text into the
library's values, rendering judge inputs and payloads as JSON, and the float
conversions. `tests/` exercises the library from outside.
