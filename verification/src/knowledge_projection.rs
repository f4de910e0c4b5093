//! The knowledge read models: the card list, the categories with their card
//! counts, and a card's assertions grouped by status.
use vstd::prelude::*;
use crate::score::Score;
use crate::text::{lemma_lex_le_antisymmetric, lemma_lex_le_total, lemma_lex_le_transitive, lex_le, owned, str_eq, str_le};

verus! {

/// A knowledge card as the card list shows it.
#[derive(Debug, Clone)]
pub struct KnowledgeCardListItem {
    pub id: String,
    pub category: String,
    pub topic_key: String,
    pub topic_display: String,
    pub current_summary: Option<String>,
    pub confidence: Score,
    pub importance_score: Score,
    pub first_seen_chapter: i64,
    pub last_updated_chapter: i64,
    pub assertion_count: usize,
}

/// A category and how many cards it has.
#[derive(Debug, Clone)]
pub struct KnowledgeCategorySummary {
    pub category: String,
    pub count: usize,
}

/// An entity that an assertion refers to, as shown.
#[derive(Debug, Clone)]
pub struct KnowledgeReferencedEntityView {
    pub entity_id: String,
    pub display_name: String,
    pub entity_type: String,
    pub role: String,
}

/// A knowledge assertion as shown.
#[derive(Debug, Clone)]
pub struct KnowledgeAssertionView {
    pub id: String,
    pub assertion_text: String,
    pub status: String,
    pub confidence: Score,
    pub importance_score: Score,
    pub chapter_index: i64,
    pub referenced_entities: Vec<KnowledgeReferencedEntityView>,
}

/// The knowledge overview of a book.
#[derive(Debug, Clone)]
pub struct KnowledgeOverviewView {
    pub cards: Vec<KnowledgeCardListItem>,
    pub categories: Vec<KnowledgeCategorySummary>,
    pub total: usize,
}

/// The cards of one category.
#[derive(Debug, Clone)]
pub struct KnowledgeCategoryView {
    pub category: String,
    pub cards: Vec<KnowledgeCardListItem>,
    pub total: usize,
}

/// One card with its assertions grouped by status.
#[derive(Debug, Clone)]
pub struct KnowledgeCardDetailView {
    pub card: KnowledgeCardListItem,
    pub assertions_by_status: Vec<(String, Vec<KnowledgeAssertionView>)>,
}

/// Strictly before, in the order of strings.
pub open spec fn lex_lt(a: Seq<char>, b: Seq<char>) -> bool {
    lex_le(a, b) && a != b
}

/// How many times `c` occurs in `cats`.
pub open spec fn count_in(cats: Seq<Seq<char>>, c: Seq<char>) -> nat
    decreases cats.len(),
{
    if cats.len() == 0 {
        0
    } else {
        count_in(cats.drop_last(), c) + if cats.last() == c {
            1nat
        } else {
            0nat
        }
    }
}

/// The categories of the cards, in order.
pub open spec fn categories_of(items: Seq<KnowledgeCardListItem>) -> Seq<Seq<char>> {
    items.map_values(|i: KnowledgeCardListItem| i.category@)
}

/// The summaries as category and count.
pub open spec fn summary_view(out: Seq<KnowledgeCategorySummary>) -> Seq<(Seq<char>, nat)> {
    out.map_values(|s: KnowledgeCategorySummary| (s.category@, s.count as nat))
}

/// The category summaries of `cats`: every category that occurs, once, in
/// increasing order, with the number of times it occurs.
pub open spec fn summaries_ok(cats: Seq<Seq<char>>, out: Seq<(Seq<char>, nat)>) -> bool {
    &&& forall|i: int, j: int| 0 <= i < j < out.len() ==> lex_lt(#[trigger] out[i].0, #[trigger] out[j].0)
    &&& forall|i: int| 0 <= i < out.len() ==> (#[trigger] out[i]).1 == count_in(cats, out[i].0) && out[i].1 > 0
    &&& forall|k: int| 0 <= k < cats.len() ==> exists|i: int| 0 <= i < out.len() && (#[trigger] out[i]).0 == #[trigger] cats[k]
}

proof fn lemma_count_push(s: Seq<Seq<char>>, x: Seq<char>, c: Seq<char>)
    ensures
        count_in(s.push(x), c) == count_in(s, c) + if x == c {
            1nat
        } else {
            0nat
        },
{
    assert(s.push(x).drop_last() =~= s);
}

proof fn lemma_count_zero(s: Seq<Seq<char>>, c: Seq<char>)
    requires
        forall|k: int| 0 <= k < s.len() ==> s[k] != c,
    ensures
        count_in(s, c) == 0,
    decreases s.len(),
{
    if s.len() > 0 {
        lemma_count_zero(s.drop_last(), c);
    }
}

proof fn lemma_lex_le_refl(a: Seq<char>)
    ensures
        lex_le(a, a),
    decreases a.len(),
{
    if a.len() > 0 {
        lemma_lex_le_refl(a.drop_first());
    }
}

/// Whether `a` is strictly before `b`.
fn str_lt(a: &str, b: &str) -> (r: bool)
    ensures
        r == lex_lt(a@, b@),
{
    str_le(a, b) && !str_eq(a, b)
}

fn summary(category: &String, count: usize) -> (r: KnowledgeCategorySummary)
    ensures
        r.category@ == category@,
        r.count == count,
{
    KnowledgeCategorySummary { category: category.clone(), count }
}

/// The categories of the cards with their card counts, in increasing order
/// of category.
pub fn build_category_summaries(items: &[KnowledgeCardListItem]) -> (r: Vec<KnowledgeCategorySummary>)
    ensures
        summaries_ok(categories_of(items@), summary_view(r@)),
{
    let ghost cats = categories_of(items@);
    let mut out: Vec<KnowledgeCategorySummary> = Vec::new();
    let mut k: usize = 0;
    while k < items.len()
        invariant
            k <= items@.len(),
            cats == categories_of(items@),
            out@.len() <= k,
            summaries_ok(cats.subrange(0, k as int), summary_view(out@)),
        decreases items.len() - k,
    {
        let c = &items[k].category;
        let ghost pre = cats.subrange(0, k as int);
        let ghost before = summary_view(out@);
        assert(cats.subrange(0, k + 1) =~= pre.push(c@));
        let mut i: usize = 0;
        while i < out.len() && str_lt(out[i].category.as_str(), c.as_str())
            invariant
                i <= out@.len(),
                before == summary_view(out@),
                forall|j: int| 0 <= j < i ==> lex_lt(#[trigger] before[j].0, c@),
            decreases out.len() - i,
        {
            i = i + 1;
        }
        proof {
            if i < out@.len() {
                lemma_lex_le_total(c@, before[i as int].0);
                lemma_lex_le_refl(c@);
            }
        }
        if i < out.len() && str_eq(out[i].category.as_str(), c.as_str()) {
            let n = out[i].count;
            proof {
                assert(before[i as int].1 == count_in(pre, c@));
                assert(count_in(pre, c@) <= pre.len()) by {
                    lemma_count_bounded(pre, c@);
                }
            }
            out.set(i, summary(c, n + 1));
            proof {
                let after = summary_view(out@);
                assert(after =~= before.update(i as int, (c@, (n + 1) as nat)));
                lemma_count_push(pre, c@, c@);
                assert forall|j: int| 0 <= j < after.len() implies (#[trigger] after[j]).1 == count_in(pre.push(c@), after[j].0)
                    && after[j].1 > 0 by {
                    lemma_count_push(pre, c@, after[j].0);
                    if j != i {
                        if j < i {
                            assert(lex_lt(before[j].0, before[i as int].0));
                        } else {
                            assert(lex_lt(before[i as int].0, before[j].0));
                        }
                    }
                }
                assert forall|m: int| 0 <= m < pre.push(c@).len() implies exists|x: int|
                    0 <= x < after.len() && (#[trigger] after[x]).0 == #[trigger] pre.push(c@)[m] by {
                    if m < pre.len() {
                        let x = choose|x: int| 0 <= x < before.len() && before[x].0 == pre[m];
                        assert(after[x].0 == before[x].0);
                    } else {
                        assert(after[i as int].0 == c@);
                    }
                }
            }
        } else {
            proof {
                assert forall|j: int| 0 <= j < before.len() implies before[j].0 != c@ by {
                    if j >= i {
                        assert(lex_le(c@, before[i as int].0));
                        if j > i {
                            assert(lex_lt(before[i as int].0, before[j].0));
                            lemma_lex_le_transitive(c@, before[i as int].0, before[j].0);
                            if before[j].0 == c@ {
                                lemma_lex_le_antisymmetric(before[i as int].0, before[j].0);
                            }
                        }
                    }
                }
                assert forall|m: int| 0 <= m < pre.len() implies pre[m] != c@ by {
                    let x = choose|x: int| 0 <= x < before.len() && before[x].0 == pre[m];
                }
                lemma_count_zero(pre, c@);
                lemma_count_push(pre, c@, c@);
            }
            out.insert(i, summary(c, 1));
            proof {
                let after = summary_view(out@);
                assert(after =~= before.insert(i as int, (c@, 1nat)));
                assert forall|a: int, b: int| 0 <= a < b < after.len() implies lex_lt(#[trigger] after[a].0, #[trigger] after[b].0) by {
                    if b < i {
                    } else if b == i {
                    } else if a > i {
                        assert(after[a] == before[a - 1]);
                        assert(after[b] == before[b - 1]);
                    } else if a == i {
                        assert(after[b] == before[b - 1]);
                        assert(lex_le(c@, before[i as int].0));
                        if b - 1 > i {
                            assert(lex_lt(before[i as int].0, before[b - 1].0));
                            lemma_lex_le_transitive(c@, before[i as int].0, before[b - 1].0);
                            if before[b - 1].0 == c@ {
                                lemma_lex_le_antisymmetric(before[i as int].0, before[b - 1].0);
                            }
                        }
                    } else {
                        assert(after[b] == before[b - 1]);
                        assert(lex_lt(before[a].0, c@));
                        if b - 1 == i {
                            assert(lex_le(c@, before[i as int].0));
                            lemma_lex_le_transitive(before[a].0, c@, before[i as int].0);
                            if before[a].0 == before[i as int].0 {
                                lemma_lex_le_antisymmetric(before[a].0, c@);
                            }
                        } else {
                            assert(lex_lt(before[a].0, before[b - 1].0));
                        }
                    }
                }
                assert forall|j: int| 0 <= j < after.len() implies (#[trigger] after[j]).1 == count_in(pre.push(c@), after[j].0)
                    && after[j].1 > 0 by {
                    lemma_count_push(pre, c@, after[j].0);
                }
                assert forall|m: int| 0 <= m < pre.push(c@).len() implies exists|x: int|
                    0 <= x < after.len() && (#[trigger] after[x]).0 == #[trigger] pre.push(c@)[m] by {
                    if m < pre.len() {
                        let x = choose|x: int| 0 <= x < before.len() && before[x].0 == pre[m];
                        if x < i {
                            assert(after[x].0 == before[x].0);
                        } else {
                            assert(after[x + 1].0 == before[x].0);
                        }
                    } else {
                        assert(after[i as int].0 == c@);
                    }
                }
            }
        }
        k = k + 1;
    }
    assert(cats.subrange(0, items@.len() as int) =~= cats);
    out
}

proof fn lemma_count_bounded(s: Seq<Seq<char>>, c: Seq<char>)
    ensures
        count_in(s, c) <= s.len(),
    decreases s.len(),
{
    if s.len() > 0 {
        lemma_count_bounded(s.drop_last(), c);
    }
}


/// The assertions among `vs` with status `st`, in order.
pub open spec fn with_status(vs: Seq<KnowledgeAssertionView>, st: Seq<char>) -> Seq<KnowledgeAssertionView>
    decreases vs.len(),
{
    if vs.len() == 0 {
        Seq::empty()
    } else if vs.last().status@ == st {
        with_status(vs.drop_last(), st).push(vs.last())
    } else {
        with_status(vs.drop_last(), st)
    }
}

/// The assertions grouped by status: one group per status that occurs, in
/// the order statuses first occur, each holding the assertions of that
/// status in their order.
pub open spec fn grouped_ok(vs: Seq<KnowledgeAssertionView>, out: Seq<(String, Vec<KnowledgeAssertionView>)>) -> bool {
    &&& forall|i: int, j: int| 0 <= i < j < out.len() ==> (#[trigger] out[i]).0@ != (#[trigger] out[j]).0@
    &&& forall|i: int| 0 <= i < out.len() ==> (#[trigger] out[i]).1@ == with_status(vs, out[i].0@) && out[i].1@.len() > 0
    &&& forall|k: int| 0 <= k < vs.len() ==> exists|i: int| 0 <= i < out.len() && (#[trigger] out[i]).0@ == (#[trigger] vs[k]).status@
}

proof fn lemma_with_status_push(vs: Seq<KnowledgeAssertionView>, v: KnowledgeAssertionView, st: Seq<char>)
    ensures
        with_status(vs.push(v), st) == if v.status@ == st {
            with_status(vs, st).push(v)
        } else {
            with_status(vs, st)
        },
{
    assert(vs.push(v).drop_last() =~= vs);
}

proof fn lemma_with_status_none(vs: Seq<KnowledgeAssertionView>, st: Seq<char>)
    requires
        forall|k: int| 0 <= k < vs.len() ==> vs[k].status@ != st,
    ensures
        with_status(vs, st) == Seq::<KnowledgeAssertionView>::empty(),
    decreases vs.len(),
{
    if vs.len() > 0 {
        lemma_with_status_none(vs.drop_last(), st);
    }
}

/// Groups assertions by status.
pub fn group_assertions_by_status(views: Vec<KnowledgeAssertionView>) -> (r: Vec<(String, Vec<KnowledgeAssertionView>)>)
    ensures
        grouped_ok(views@, r@),
{
    let ghost vs = views@;
    let mut out: Vec<(String, Vec<KnowledgeAssertionView>)> = Vec::new();
    let total: usize = views.len();
    let mut rest = views;
    let mut k: usize = 0;
    while rest.len() > 0
        invariant
            k + rest@.len() == vs.len(),
            vs.len() == total,
            rest@ == vs.subrange(k as int, vs.len() as int),
            grouped_ok(vs.subrange(0, k as int), out@),
        decreases rest.len(),
    {
        let v = rest.remove(0);
        assert(v == vs[k as int]);
        let ghost pre = vs.subrange(0, k as int);
        let ghost before = out@;
        assert(vs.subrange(0, k + 1) =~= pre.push(v));
        let mut i: usize = 0;
        while i < out.len() && !str_eq(out[i].0.as_str(), v.status.as_str())
            invariant
                i <= out@.len(),
                before == out@,
                forall|j: int| 0 <= j < i ==> (#[trigger] before[j]).0@ != v.status@,
            decreases out.len() - i,
        {
            i = i + 1;
        }
        let ghost vv = v;
        if i < out.len() {
            let (key, mut group) = out.remove(i);
            group.push(v);
            out.insert(i, (key, group));
            proof {
                let after = out@;
                let np = pre.push(vv);
                assert(after.len() == before.len());
                assert(after[i as int].0@ == before[i as int].0@);
                assert(after[i as int].1@ == before[i as int].1@.push(vv));
                assert forall|j: int| 0 <= j < after.len() && j != i implies #[trigger] after[j] == before[j] by {}
                assert forall|j: int| 0 <= j < after.len() implies (#[trigger] after[j]).1@ == with_status(np, after[j].0@)
                    && after[j].1@.len() > 0 by {
                    lemma_with_status_push(pre, vv, after[j].0@);
                    if j != i {
                        if j < i {
                            assert(before[j].0@ != before[i as int].0@);
                        } else {
                            assert(before[i as int].0@ != before[j].0@);
                        }
                    }
                }
                assert forall|a: int, b: int| 0 <= a < b < after.len() implies (#[trigger] after[a]).0@ != (#[trigger] after[b]).0@ by {
                    assert(before[a].0@ != before[b].0@);
                }
                assert forall|m: int| 0 <= m < np.len() implies exists|x: int|
                    0 <= x < after.len() && (#[trigger] after[x]).0@ == (#[trigger] np[m]).status@ by {
                    if m < pre.len() {
                        let x = choose|x: int| 0 <= x < before.len() && (#[trigger] before[x]).0@ == pre[m].status@;
                        assert(after[x].0@ == before[x].0@);
                    } else {
                        assert(after[i as int].0@ == vv.status@);
                    }
                }
            }
        } else {
            let st = v.status.clone();
            let mut group: Vec<KnowledgeAssertionView> = Vec::new();
            group.push(v);
            out.push((st, group));
            proof {
                assert forall|m: int| 0 <= m < pre.len() implies pre[m].status@ != vv.status@ by {
                    let x = choose|x: int| 0 <= x < before.len() && before[x].0@ == pre[m].status@;
                }
                lemma_with_status_none(pre, vv.status@);
                let after = out@;
                let np = pre.push(vv);
                assert(after =~= before.push(after[before.len() as int]));
                assert forall|j: int| 0 <= j < after.len() implies (#[trigger] after[j]).1@ == with_status(np, after[j].0@)
                    && after[j].1@.len() > 0 by {
                    lemma_with_status_push(pre, vv, after[j].0@);
                    if j == before.len() {
                        assert(with_status(pre, vv.status@).push(vv) =~= seq![vv]);
                    }
                }
                assert forall|a: int, b: int| 0 <= a < b < after.len() implies (#[trigger] after[a]).0@ != (#[trigger] after[b]).0@ by {
                    if b < before.len() {
                        assert(before[a].0@ != before[b].0@);
                    }
                }
                assert forall|m: int| 0 <= m < np.len() implies exists|x: int|
                    0 <= x < after.len() && (#[trigger] after[x]).0@ == (#[trigger] np[m]).status@ by {
                    if m < pre.len() {
                        let x = choose|x: int| 0 <= x < before.len() && (#[trigger] before[x]).0@ == pre[m].status@;
                        assert(after[x].0@ == before[x].0@);
                    } else {
                        assert(after[before.len() as int].0@ == vv.status@);
                    }
                }
            }
        }
        k = k + 1;
    }
    assert(vs.subrange(0, vs.len() as int) =~= vs);
    out
}


/// The overview of a book's active cards: the cards, their categories with
/// counts, and how many cards there are.
pub fn overview_view(items: Vec<KnowledgeCardListItem>) -> (r: KnowledgeOverviewView)
    ensures
        r.cards@ == items@,
        summaries_ok(categories_of(items@), summary_view(r.categories@)),
        r.total == items@.len(),
{
    let categories = build_category_summaries(items.as_slice());
    let total = items.len();
    KnowledgeOverviewView { cards: items, categories, total }
}

/// The view of one category's active cards.
pub fn category_view(category: &str, items: Vec<KnowledgeCardListItem>) -> (r: KnowledgeCategoryView)
    ensures
        r.category@ == category@,
        r.cards@ == items@,
        r.total == items@.len(),
{
    let total = items.len();
    KnowledgeCategoryView { category: owned(category), cards: items, total }
}

/// The cache scope of a category view.
pub fn category_scope_id(category: &str) -> (r: String)
    ensures
        r@ == "category:"@ + category@,
{
    crate::text::join2("category:", category)
}

/// The cache scope of a card view.
pub fn card_scope_id(card_id: &str) -> (r: String)
    ensures
        r@ == "card:"@ + card_id@,
{
    crate::text::join2("card:", card_id)
}

/// The message for a card that does not exist.
pub fn card_not_found(card_id: &str) -> (r: String)
    ensures
        r@ == "knowledge card not found: "@ + card_id@,
{
    crate::text::join2("knowledge card not found: ", card_id)
}

/// A card is shown only in its own book and while active.
pub fn check_card_visible(card_book_id: &str, card_status: &str, book_id: &str) -> (r: Result<(), String>)
    ensures
        r is Ok <==> (card_book_id@ == book_id@ && card_status@ == "active"@),
        r matches Err(e) ==> e@ == "knowledge card not active in book"@,
{
    if !str_eq(card_book_id, book_id) || !str_eq(card_status, "active") {
        return Err(owned("knowledge card not active in book"));
    }
    Ok(())
}

/// The total of the counts of `keys` among `cats`.
pub open spec fn count_total(cats: Seq<Seq<char>>, keys: Seq<Seq<char>>) -> nat
    decreases keys.len(),
{
    if keys.len() == 0 {
        0
    } else {
        count_total(cats, keys.drop_last()) + count_in(cats, keys.last())
    }
}

proof fn lemma_count_total_push(cats: Seq<Seq<char>>, x: Seq<char>, keys: Seq<Seq<char>>)
    ensures
        count_total(cats.push(x), keys) == count_total(cats, keys) + count_in(keys, x),
    decreases keys.len(),
{
    if keys.len() > 0 {
        lemma_count_total_push(cats, x, keys.drop_last());
        lemma_count_push(cats, x, keys.last());
        assert(keys == keys.drop_last().push(keys.last()));
        lemma_count_push(keys.drop_last(), keys.last(), x);
    }
}

proof fn lemma_count_once(keys: Seq<Seq<char>>, x: Seq<char>, i: int)
    requires
        0 <= i < keys.len(),
        keys[i] == x,
        forall|a: int, b: int| 0 <= a < b < keys.len() ==> #[trigger] keys[a] != #[trigger] keys[b],
    ensures
        count_in(keys, x) == 1,
    decreases keys.len(),
{
    let init = keys.drop_last();
    if i == keys.len() - 1 {
        assert forall|k: int| 0 <= k < init.len() implies init[k] != x by {
            assert(keys[k] != keys[i]);
        }
        lemma_count_zero(init, x);
    } else {
        lemma_count_once(init, x, i);
        assert(keys.last() != x) by {
            assert(keys[i] != keys[keys.len() - 1]);
        }
    }
}

/// Over distinct keys that cover every element of `cats`, the counts of the
/// keys add up to the number of elements.
proof fn lemma_count_total_covers(cats: Seq<Seq<char>>, keys: Seq<Seq<char>>)
    requires
        forall|a: int, b: int| 0 <= a < b < keys.len() ==> #[trigger] keys[a] != #[trigger] keys[b],
        forall|k: int| 0 <= k < cats.len() ==> #[trigger] keys.contains(cats[k]),
    ensures
        count_total(cats, keys) == cats.len(),
    decreases cats.len(),
{
    if cats.len() == 0 {
        lemma_count_total_empty(keys);
        assert(cats =~= Seq::<Seq<char>>::empty());
    } else {
        let init = cats.drop_last();
        let x = cats.last();
        assert forall|k: int| 0 <= k < init.len() implies #[trigger] keys.contains(init[k]) by {
            assert(init[k] == cats[k]);
        }
        lemma_count_total_covers(init, keys);
        assert(cats == init.push(x));
        lemma_count_total_push(init, x, keys);
        assert(keys.contains(cats[cats.len() - 1]));
        let i = choose|i: int| 0 <= i < keys.len() && keys[i] == x;
        lemma_count_once(keys, x, i);
    }
}

proof fn lemma_count_total_empty(keys: Seq<Seq<char>>)
    ensures
        count_total(Seq::empty(), keys) == 0,
    decreases keys.len(),
{
    if keys.len() > 0 {
        lemma_count_total_empty(keys.drop_last());
    }
}

/// The sum of the counts of the category summaries.
pub open spec fn summary_total(out: Seq<(Seq<char>, nat)>) -> nat
    decreases out.len(),
{
    if out.len() == 0 {
        0
    } else {
        summary_total(out.drop_last()) + out.last().1
    }
}

proof fn lemma_summary_total_is_count_total(cats: Seq<Seq<char>>, out: Seq<(Seq<char>, nat)>)
    requires
        forall|i: int| 0 <= i < out.len() ==> (#[trigger] out[i]).1 == count_in(cats, out[i].0),
    ensures
        summary_total(out) == count_total(cats, out.map_values(|p: (Seq<char>, nat)| p.0)),
    decreases out.len(),
{
    let keys = out.map_values(|p: (Seq<char>, nat)| p.0);
    if out.len() > 0 {
        let init = out.drop_last();
        assert forall|i: int| 0 <= i < init.len() implies (#[trigger] init[i]).1 == count_in(cats, init[i].0) by {
            assert(init[i] == out[i]);
        }
        lemma_summary_total_is_count_total(cats, init);
        assert(keys.drop_last() =~= init.map_values(|p: (Seq<char>, nat)| p.0));
        assert(keys.last() == out.last().0);
    }
}

/// Every card of the overview is counted once, under its own category: the
/// category counts add up to the number of cards.
pub proof fn lemma_category_counts_sum_to_total(items: Seq<KnowledgeCardListItem>, out: Seq<(Seq<char>, nat)>)
    requires
        summaries_ok(categories_of(items), out),
    ensures
        summary_total(out) == items.len(),
{
    let cats = categories_of(items);
    let keys = out.map_values(|p: (Seq<char>, nat)| p.0);
    lemma_summary_total_is_count_total(cats, out);
    assert forall|a: int, b: int| 0 <= a < b < keys.len() implies #[trigger] keys[a] != #[trigger] keys[b] by {
        assert(lex_lt(out[a].0, out[b].0));
    }
    assert forall|k: int| 0 <= k < cats.len() implies #[trigger] keys.contains(cats[k]) by {
        let i = choose|i: int| 0 <= i < out.len() && (#[trigger] out[i]).0 == cats[k];
        assert(keys[i] == cats[k]);
    }
    lemma_count_total_covers(cats, keys);
}

/// The statuses of the assertions, in order.
pub open spec fn statuses_of(vs: Seq<KnowledgeAssertionView>) -> Seq<Seq<char>> {
    vs.map_values(|v: KnowledgeAssertionView| v.status@)
}

proof fn lemma_with_status_len(vs: Seq<KnowledgeAssertionView>, st: Seq<char>)
    ensures
        with_status(vs, st).len() == count_in(statuses_of(vs), st),
    decreases vs.len(),
{
    if vs.len() > 0 {
        lemma_with_status_len(vs.drop_last(), st);
        assert(statuses_of(vs) == statuses_of(vs.drop_last()).push(vs.last().status@));
        lemma_count_push(statuses_of(vs.drop_last()), vs.last().status@, st);
    }
}

/// The number of assertions over all groups.
pub open spec fn grouped_total(out: Seq<(String, Vec<KnowledgeAssertionView>)>) -> nat
    decreases out.len(),
{
    if out.len() == 0 {
        0
    } else {
        grouped_total(out.drop_last()) + out.last().1@.len()
    }
}

proof fn lemma_grouped_total_is_count_total(vs: Seq<KnowledgeAssertionView>, out: Seq<(String, Vec<KnowledgeAssertionView>)>)
    requires
        forall|i: int| 0 <= i < out.len() ==> (#[trigger] out[i]).1@ == with_status(vs, out[i].0@),
    ensures
        grouped_total(out) == count_total(
            statuses_of(vs),
            out.map_values(|g: (String, Vec<KnowledgeAssertionView>)| g.0@),
        ),
    decreases out.len(),
{
    let keys = out.map_values(|g: (String, Vec<KnowledgeAssertionView>)| g.0@);
    if out.len() > 0 {
        let init = out.drop_last();
        assert forall|i: int| 0 <= i < init.len() implies (#[trigger] init[i]).1@ == with_status(vs, init[i].0@) by {
            assert(init[i] == out[i]);
        }
        lemma_grouped_total_is_count_total(vs, init);
        assert(keys.drop_last() =~= init.map_values(|g: (String, Vec<KnowledgeAssertionView>)| g.0@));
        lemma_with_status_len(vs, out.last().0@);
    }
}

/// Grouping by status loses and repeats no assertion: the groups together
/// hold as many assertions as were grouped.
pub proof fn lemma_grouping_keeps_every_assertion(
    vs: Seq<KnowledgeAssertionView>,
    out: Seq<(String, Vec<KnowledgeAssertionView>)>,
)
    requires
        grouped_ok(vs, out),
    ensures
        grouped_total(out) == vs.len(),
{
    let sts = statuses_of(vs);
    let keys = out.map_values(|g: (String, Vec<KnowledgeAssertionView>)| g.0@);
    lemma_grouped_total_is_count_total(vs, out);
    assert forall|a: int, b: int| 0 <= a < b < keys.len() implies #[trigger] keys[a] != #[trigger] keys[b] by {
        assert(out[a].0@ != out[b].0@);
    }
    assert forall|k: int| 0 <= k < sts.len() implies #[trigger] keys.contains(sts[k]) by {
        let i = choose|i: int| 0 <= i < out.len() && (#[trigger] out[i]).0@ == (#[trigger] vs[k]).status@;
        assert(keys[i] == sts[k]);
    }
    lemma_count_total_covers(sts, keys);
}

} // verus!
