//! The context an extraction is asked with: the schema brief, the segment
//! text, the previous chapter's summary, the known entities and the current
//! character states, each rendered as text.
use vstd::prelude::*;
use crate::text::{join_strings, joined, owned, str_eq, string_views, i64_to_string, decimal_int};

verus! {

/// The extraction schema brief.
pub open spec fn schema_brief_spec() -> Seq<char> {
    r#"## Extraction Schema

You are extracting structured observations from a novel chapter segment. Output observations as one of these types:

1. **EntityIntroduction** — A new character/entity appears for the first time
   - subject_mention, entity_type, aliases, short_summary, evidence_span_ids, confidence

2. **Alias** — A known entity is referred to by a new name/title
   - subject_mention, alias, alias_type, evidence_span_ids, confidence

3. **PropertyUpdate** — A character's attribute changes (realm, affiliation, life_status, etc.)
   - subject_mention, dimension_key, value_text, evidence_span_ids, confidence
   - dimension_key must be one of: identity, life_status, affiliation, rank, occupation, realm, ability, equipment, location, mental_state, goal, injury, appearance, background

4. **MinorEvent** — A noteworthy event that doesn't change entity state
   - description, involved_mentions, evidence_span_ids, confidence

5. **Summary** — Chapter summary (only one per chapter)
   - summary, key_points, has_important_changes

Rules:
- subject_mention: the exact text from the source that refers to the entity
- evidence_span_ids: IDs of source spans supporting this observation
- confidence: 0.0-1.0
- Do NOT invent entities that are not clearly introduced in the text
- Do NOT make death/resurrection claims unless explicitly stated"#@
}

/// The extraction schema brief.
pub fn schema_brief() -> (r: &'static str)
    ensures
        r@ == schema_brief_spec(),
{
    r#"## Extraction Schema

You are extracting structured observations from a novel chapter segment. Output observations as one of these types:

1. **EntityIntroduction** — A new character/entity appears for the first time
   - subject_mention, entity_type, aliases, short_summary, evidence_span_ids, confidence

2. **Alias** — A known entity is referred to by a new name/title
   - subject_mention, alias, alias_type, evidence_span_ids, confidence

3. **PropertyUpdate** — A character's attribute changes (realm, affiliation, life_status, etc.)
   - subject_mention, dimension_key, value_text, evidence_span_ids, confidence
   - dimension_key must be one of: identity, life_status, affiliation, rank, occupation, realm, ability, equipment, location, mental_state, goal, injury, appearance, background

4. **MinorEvent** — A noteworthy event that doesn't change entity state
   - description, involved_mentions, evidence_span_ids, confidence

5. **Summary** — Chapter summary (only one per chapter)
   - summary, key_points, has_important_changes

Rules:
- subject_mention: the exact text from the source that refers to the entity
- evidence_span_ids: IDs of source spans supporting this observation
- confidence: 0.0-1.0
- Do NOT invent entities that are not clearly introduced in the text
- Do NOT make death/resurrection claims unless explicitly stated"#
}

/// The chapter whose summary the context includes: the previous one, when
/// there is one.
pub fn previous_chapter(chapter_index: i64) -> (r: Option<i64>)
    ensures
        r == if chapter_index > 0 {
            Some((chapter_index - 1) as i64)
        } else {
            None::<i64>
        },
{
    if chapter_index > 0 {
        Some(chapter_index - 1)
    } else {
        None
    }
}

/// The line of a known entity: its type, its canonical name, its aliases
/// when it has any, and its summary.
pub open spec fn entity_line_spec(entity_type: Seq<char>, canonical_name: Seq<char>, aliases: Seq<Seq<char>>, summary: Seq<char>) -> Seq<char> {
    let alias_str = if aliases.len() == 0 {
        Seq::<char>::empty()
    } else {
        " (aliases: "@ + joined(aliases, ", "@) + ")"@
    };
    "- ["@ + entity_type + "] "@ + canonical_name + alias_str + " — "@ + summary
}

/// The line of a known entity.
pub fn entity_line(entity_type: &str, canonical_name: &str, aliases: &Vec<String>, summary: Option<&str>) -> (r: String)
    ensures
        r@ == entity_line_spec(
            entity_type@,
            canonical_name@,
            string_views(aliases@),
            match summary {
                Some(s) => s@,
                None => Seq::empty(),
            },
        ),
{
    let mut s = String::from_str("- [");
    s.append(entity_type);
    s.append("] ");
    s.append(canonical_name);
    if aliases.len() > 0 {
        s.append(" (aliases: ");
        let joined_aliases = join_strings(aliases, ", ");
        s.append(joined_aliases.as_str());
        s.append(")");
    } else {
        assert(string_views(aliases@).len() == 0);
    }
    s.append(" — ");
    match summary {
        Some(text) => s.append(text),
        None => {},
    }
    s
}

/// A row of current character state: name, dimension label, value,
/// dimension key and the chapter it was updated in.
pub type CharacterStateRow = (String, String, String, String, i64);

/// The lines of the character states of the first `n` rows, and the name of
/// the character whose lines came last: a header line starts each run of
/// rows of a new character.
pub open spec fn state_lines(rows: Seq<CharacterStateRow>, n: int) -> (Seq<Seq<char>>, Seq<char>)
    decreases n,
{
    if n <= 0 {
        (Seq::empty(), Seq::empty())
    } else {
        let (lines, current) = state_lines(rows, n - 1);
        let row = rows[n - 1];
        let with_header = if row.0@ != current {
            lines.push("**"@ + row.0@ + "**:"@)
        } else {
            lines
        };
        (with_header.push("  - "@ + row.1@ + ": "@ + row.2@ + " (ch."@ + decimal_int(row.4 as int) + ")"@), row.0@)
    }
}

/// The character states as text: their lines, one per line.
pub fn character_states_context(rows: &Vec<CharacterStateRow>) -> (r: String)
    ensures
        r@ == joined(state_lines(rows@, rows@.len() as int).0, "\n"@),
{
    let mut lines: Vec<String> = Vec::new();
    let mut current = String::new();
    let mut i: usize = 0;
    while i < rows.len()
        invariant
            i <= rows@.len(),
            string_views(lines@) == state_lines(rows@, i as int).0,
            current@ == state_lines(rows@, i as int).1,
        decreases rows.len() - i,
    {
        let row = &rows[i];
        let ghost before = string_views(lines@);
        if !str_eq(row.0.as_str(), current.as_str()) {
            current = row.0.clone();
            let mut h = String::from_str("**");
            h.append(row.0.as_str());
            h.append("**:");
            lines.push(h);
            assert(string_views(lines@) =~= before.push("**"@ + row.0@ + "**:"@));
        }
        let ghost mid = string_views(lines@);
        let mut l = String::from_str("  - ");
        l.append(row.1.as_str());
        l.append(": ");
        l.append(row.2.as_str());
        l.append(" (ch.");
        let ch = i64_to_string(row.4);
        l.append(ch.as_str());
        l.append(")");
        lines.push(l);
        assert(string_views(lines@) =~= mid.push(l@));
        i = i + 1;
    }
    join_strings(&lines, "\n")
}

/// The known entities as text: their lines, one per line.
pub fn entities_context(lines: &Vec<String>) -> (r: String)
    ensures
        r@ == joined(string_views(lines@), "\n"@),
{
    join_strings(lines, "\n")
}

/// The context parts: the schema brief and the segment text, then the
/// previous chapter's summary (for a chapter after the first, when there is
/// one), the known entities and the character states when not empty.
pub open spec fn context_parts(
    chapter_index: i64,
    segment_text: Seq<char>,
    previous_summary: Option<Seq<char>>,
    entities: Seq<char>,
    states: Seq<char>,
) -> Seq<Seq<char>> {
    let p1 = seq![schema_brief_spec(), "## Current Segment Text\n"@ + segment_text];
    let p2 = if chapter_index > 0 && previous_summary is Some {
        p1.push("## Previous Chapter Summary\n"@ + previous_summary->0)
    } else {
        p1
    };
    let p3 = if entities.len() > 0 {
        p2.push("## Known Entities\n"@ + entities)
    } else {
        p2
    };
    if states.len() > 0 {
        p3.push("## Active Character States\n"@ + states)
    } else {
        p3
    }
}

fn titled(title: &str, body: &str) -> (r: String)
    ensures
        r@ == title@ + body@,
{
    let mut s = String::from_str(title);
    s.append(body);
    s
}

/// The extraction context, its parts separated by blank lines.
pub fn assemble_context(
    chapter_index: i64,
    segment_text: &str,
    previous_summary: Option<&str>,
    entities: &str,
    states: &str,
) -> (r: String)
    ensures
        r@ == joined(
            context_parts(
                chapter_index,
                segment_text@,
                match previous_summary {
                    Some(s) => Some(s@),
                    None => None,
                },
                entities@,
                states@,
            ),
            "\n\n"@,
        ),
{
    let mut parts: Vec<String> = Vec::new();
    parts.push(owned(schema_brief()));
    parts.push(titled("## Current Segment Text\n", segment_text));
    let ghost p1 = string_views(parts@);
    if chapter_index > 0 {
        match previous_summary {
            Some(summary) => parts.push(titled("## Previous Chapter Summary\n", summary)),
            None => {},
        }
    }
    let ghost p2 = string_views(parts@);
    if entities.unicode_len() > 0 {
        parts.push(titled("## Known Entities\n", entities));
    }
    let ghost p3 = string_views(parts@);
    if states.unicode_len() > 0 {
        parts.push(titled("## Active Character States\n", states));
    }
    assert(string_views(parts@) =~= context_parts(
        chapter_index,
        segment_text@,
        match previous_summary {
            Some(s) => Some(s@),
            None => None,
        },
        entities@,
        states@,
    ));
    join_strings(&parts, "\n\n")
}

} // verus!
