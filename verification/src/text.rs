//! Character-level text helpers shared by the extractor and the judges:
//! whitespace trimming, substring search and string assembly, each stated
//! over the character sequence that a `str` or `String` views as.
use vstd::prelude::*;

verus! {

/// The characters that carry the Unicode `White_Space` property.
pub open spec fn is_ws(c: char) -> bool {
    let n = c as u32;
    ||| (0x9 <= n && n <= 0xD)
    ||| n == 0x20
    ||| n == 0x85
    ||| n == 0xA0
    ||| n == 0x1680
    ||| (0x2000 <= n && n <= 0x200A)
    ||| n == 0x2028
    ||| n == 0x2029
    ||| n == 0x202F
    ||| n == 0x205F
    ||| n == 0x3000
}

/// Whether `c` is whitespace, as `char::is_whitespace` answers: true exactly
/// for the characters with the Unicode `White_Space` property.
pub(crate) fn is_whitespace(c: char) -> (r: bool)
    ensures
        r == is_ws(c),
{
    let n = c as u32;
    (0x9 <= n && n <= 0xD) || n == 0x20 || n == 0x85 || n == 0xA0 || n == 0x1680 || (0x2000 <= n && n <= 0x200A)
        || n == 0x2028 || n == 0x2029 || n == 0x202F || n == 0x205F || n == 0x3000
}

/// `String::push`: appends one character.
#[verifier::external_body]
pub(crate) fn push_char(s: &mut String, c: char)
    ensures
        final(s)@ == old(s)@.push(c),
{
    s.push(c)
}

/// The Unicode lowercase mapping that `str::to_lowercase` applies.
pub uninterp spec fn lowercase(s: Seq<char>) -> Seq<char>;

/// `str::to_lowercase`: the lowercase mapping of `s`, named by `lowercase`.
#[verifier::external_body]
pub(crate) fn to_lowercase(s: &str) -> (r: String)
    ensures
        r@ == lowercase(s@),
{
    s.to_lowercase()
}

/// `s` with leading whitespace removed.
pub open spec fn trim_start(s: Seq<char>) -> Seq<char>
    decreases s.len(),
{
    if s.len() > 0 && is_ws(s[0]) {
        trim_start(s.drop_first())
    } else {
        s
    }
}

/// `s` with trailing whitespace removed.
pub open spec fn trim_end(s: Seq<char>) -> Seq<char>
    decreases s.len(),
{
    if s.len() > 0 && is_ws(s.last()) {
        trim_end(s.drop_last())
    } else {
        s
    }
}

/// `s` with leading and trailing whitespace removed, as `str::trim` does.
pub open spec fn trim(s: Seq<char>) -> Seq<char> {
    trim_end(trim_start(s))
}

/// Whether `s` is empty once trimmed.
#[verifier::opaque]
pub open spec fn is_blank(s: Seq<char>) -> bool {
    trim(s).len() == 0
}

/// `p` occurs in `t` starting at index `i`.
pub open spec fn occurs_at(t: Seq<char>, p: Seq<char>, i: int) -> bool {
    0 <= i && i + p.len() <= t.len() && t.subrange(i, i + p.len()) == p
}

/// `p` occurs somewhere in `t`, as `str::contains` with a string pattern.
pub open spec fn contains(t: Seq<char>, p: Seq<char>) -> bool {
    exists|i: int| occurs_at(t, p, i)
}

/// `t` starts with `p`.
pub open spec fn starts_with(t: Seq<char>, p: Seq<char>) -> bool {
    occurs_at(t, p, 0)
}

/// `t` ends with `p`.
pub open spec fn ends_with(t: Seq<char>, p: Seq<char>) -> bool {
    p.len() <= t.len() && occurs_at(t, p, t.len() - p.len())
}

/// Index of the first occurrence of `c` in `t`, if any.
pub open spec fn first_index_of(t: Seq<char>, c: char) -> Option<int> {
    if exists|i: int| 0 <= i < t.len() && t[i] == c {
        Some(choose|i: int| 0 <= i < t.len() && t[i] == c && forall|j: int| 0 <= j < i ==> t[j] != c)
    } else {
        None
    }
}

/// Index of the last occurrence of `p` in `t`, if any.
pub open spec fn last_occurrence(t: Seq<char>, p: Seq<char>) -> Option<int> {
    if contains(t, p) {
        Some(choose|i: int| occurs_at(t, p, i) && forall|j: int| i < j ==> !occurs_at(t, p, j))
    } else {
        None
    }
}

proof fn lemma_trim_start_skip(s: Seq<char>, i: int)
    requires
        0 <= i <= s.len(),
        forall|k: int| 0 <= k < i ==> is_ws(s[k]),
    ensures
        trim_start(s) == trim_start(s.subrange(i, s.len() as int)),
    decreases i,
{
    if i > 0 {
        assert(s.drop_first() == s.subrange(1, s.len() as int));
        lemma_trim_start_skip(s.drop_first(), i - 1);
        assert(s.drop_first().subrange(i - 1, s.drop_first().len() as int) =~= s.subrange(i, s.len() as int));
    } else {
        assert(s.subrange(0, s.len() as int) =~= s);
    }
}

proof fn lemma_trim_end_skip(s: Seq<char>, j: int)
    requires
        0 <= j <= s.len(),
        forall|k: int| j <= k < s.len() ==> is_ws(s[k]),
    ensures
        trim_end(s) == trim_end(s.subrange(0, j)),
    decreases s.len() - j,
{
    if j < s.len() {
        lemma_trim_end_skip(s.drop_last(), j);
        assert(s.drop_last().subrange(0, j) =~= s.subrange(0, j));
    } else {
        assert(s.subrange(0, j) =~= s);
    }
}

proof fn lemma_trim_start_index(s: Seq<char>) -> (k: int)
    ensures
        0 <= k <= s.len(),
        trim_start(s) == s.subrange(k, s.len() as int),
        k < s.len() ==> !is_ws(s[k]),
        forall|j: int| 0 <= j < k ==> is_ws(#[trigger] s[j]),
    decreases s.len(),
{
    if s.len() > 0 && is_ws(s[0]) {
        let k1 = lemma_trim_start_index(s.drop_first());
        assert(s.drop_first().subrange(k1, s.drop_first().len() as int) =~= s.subrange(k1 + 1, s.len() as int));
        assert forall|j: int| 0 <= j < k1 + 1 implies is_ws(#[trigger] s[j]) by {
            if j > 0 {
                assert(s[j] == s.drop_first()[j - 1]);
            }
        }
        k1 + 1
    } else {
        assert(s.subrange(0, s.len() as int) =~= s);
        0
    }
}

proof fn lemma_trim_end_index(s: Seq<char>) -> (k: int)
    ensures
        0 <= k <= s.len(),
        trim_end(s) == s.subrange(0, k),
        k > 0 ==> !is_ws(s[k - 1]),
    decreases s.len(),
{
    if s.len() > 0 && is_ws(s.last()) {
        let k1 = lemma_trim_end_index(s.drop_last());
        assert(s.drop_last().subrange(0, k1) =~= s.subrange(0, k1));
        k1
    } else {
        assert(s.subrange(0, s.len() as int) =~= s);
        s.len() as int
    }
}

/// Trimming twice trims once.
pub(crate) proof fn lemma_trim_idempotent(s: Seq<char>)
    ensures
        trim(trim(s)) == trim(s),
{
    let y = trim_start(s);
    let a = lemma_trim_start_index(s);
    let b = lemma_trim_end_index(y);
    let z = trim_end(y);
    if b > 0 {
        assert(z[0] == y[0]);
        assert(y[0] == s[a]);
        assert(trim_start(z) == z);
        assert(z.last() == y[b - 1]);
        assert(trim_end(z) == z);
    } else {
        assert(z.len() == 0);
        assert(trim_start(z) == z);
        assert(trim_end(z) == z);
    }
}

/// Whitespace after the text does not change its trim.
pub(crate) proof fn lemma_trim_push_ws(s: Seq<char>, c: char)
    requires
        is_ws(c),
    ensures
        trim(s.push(c)) == trim(s),
{
    let t = s.push(c);
    let a = lemma_trim_start_index(s);
    assert forall|k: int| 0 <= k < a implies is_ws(t[k]) by {
        assert(t[k] == s[k]);
        assert(is_ws(s[k]));
    }
    lemma_trim_start_skip(t, a);
    let u = t.subrange(a, t.len() as int);
    if a < s.len() {
        assert(u[0] == s[a]);
        assert(trim_start(u) == u);
        assert(u =~= s.subrange(a, s.len() as int).push(c));
        let y = s.subrange(a, s.len() as int);
        assert(y.push(c).drop_last() =~= y);
        assert(trim_end(y.push(c)) == trim_end(y));
    } else {
        assert(u =~= seq![c]);
        assert(seq![c].drop_first() =~= Seq::<char>::empty());
        assert(trim_start(seq![c]) == trim_start(Seq::<char>::empty()));
        assert(trim_start(s) =~= Seq::<char>::empty());
    }
}

/// The first index of `c` in `t` is `k` when `c` stands at `k` and nowhere before.
pub(crate) proof fn lemma_first_index_at(t: Seq<char>, c: char, k: int)
    requires
        0 <= k < t.len(),
        t[k] == c,
        forall|j: int| 0 <= j < k ==> t[j] != c,
    ensures
        first_index_of(t, c) == Some(k),
{
    let i = choose|i: int| 0 <= i < t.len() && t[i] == c && forall|j: int| 0 <= j < i ==> t[j] != c;
    assert(0 <= i < t.len() && t[i] == c && forall|j: int| 0 <= j < i ==> t[j] != c);
    if i < k {
        assert(t[i] != c);
    }
    if i > k {
        assert(t[k] != c);
    }
}

/// An occurrence inside an occurrence is an occurrence.
pub(crate) proof fn lemma_occurs_within(t: Seq<char>, a: Seq<char>, k: int, p: Seq<char>, m: int)
    requires
        occurs_at(t, a, k),
        occurs_at(a, p, m),
    ensures
        occurs_at(t, p, k + m),
{
    assert(t.subrange(k + m, k + m + p.len()) =~= a.subrange(m, m + p.len()));
}

/// Each joined item occurs in the joined text.
pub(crate) proof fn lemma_joined_holds_item(items: Seq<Seq<char>>, sep: Seq<char>, i: int) -> (k: int)
    requires
        0 <= i < items.len(),
    ensures
        occurs_at(joined(items, sep), items[i], k),
    decreases items.len(),
{
    if items.len() == 1 {
        assert(joined(items, sep).subrange(0, items[0].len() as int) =~= items[0]);
        0
    } else {
        let init = joined(items.drop_last(), sep);
        let whole = joined(items, sep);
        if i == items.len() - 1 {
            let k: int = (init.len() + sep.len()) as int;
            assert(whole.subrange(k, k + items[i].len()) =~= items[i]);
            k
        } else {
            let k = lemma_joined_holds_item(items.drop_last(), sep, i);
            assert(items.drop_last()[i] == items[i]);
            assert(whole.subrange(k, k + items[i].len()) =~= init.subrange(k, k + items[i].len()));
            k
        }
    }
}

/// The trim of a text is a piece of it.
pub(crate) proof fn lemma_trim_is_piece(s: Seq<char>) -> (r: (int, int))
    ensures
        0 <= r.0 <= r.1 <= s.len(),
        trim(s) == s.subrange(r.0, r.1),
{
    let a = lemma_trim_start_index(s);
    let y = trim_start(s);
    let b = lemma_trim_end_index(y);
    assert(y.subrange(0, b) =~= s.subrange(a, a + b));
    (a, a + b)
}

/// The bounds `(a, b)` with `v[a..b]` equal to the trimmed text.
pub fn trim_bounds(v: &Vec<char>) -> (r: (usize, usize))
    ensures
        r.0 <= r.1 <= v@.len(),
        v@.subrange(r.0 as int, r.1 as int) == trim(v@),
{
    let n = v.len();
    let mut a: usize = 0;
    while a < n && is_whitespace(v[a])
        invariant
            a <= n == v@.len(),
            forall|k: int| 0 <= k < a ==> is_ws(v@[k]),
        decreases n - a,
    {
        a = a + 1;
    }
    proof {
        lemma_trim_start_skip(v@, a as int);
    }
    let ghost rest = v@.subrange(a as int, n as int);
    assert(rest.len() == 0 || !is_ws(rest[0]));
    assert(trim_start(rest) == rest);
    let mut b: usize = n;
    while b > a && is_whitespace(v[b - 1])
        invariant
            a <= b <= n == v@.len(),
            rest == v@.subrange(a as int, n as int),
            forall|k: int| b <= k < n ==> is_ws(v@[k]),
        decreases b - a,
    {
        b = b - 1;
    }
    proof {
        lemma_trim_end_skip(rest, b - a);
        assert(rest.subrange(0, b - a) =~= v@.subrange(a as int, b as int));
        let t = v@.subrange(a as int, b as int);
        assert(t.len() == 0 || !is_ws(t.last()));
    }
    (a, b)
}

/// Builds a `String` from `v[lo..hi]`.
pub fn string_from(v: &Vec<char>, lo: usize, hi: usize) -> (s: String)
    requires
        lo <= hi <= v@.len(),
    ensures
        s@ == v@.subrange(lo as int, hi as int),
{
    let mut s = String::new();
    let mut i = lo;
    while i < hi
        invariant
            lo <= i <= hi <= v@.len(),
            s@ == v@.subrange(lo as int, i as int),
        decreases hi - i,
    {
        push_char(&mut s, v[i]);
        assert(v@.subrange(lo as int, i + 1) =~= v@.subrange(lo as int, i as int).push(v@[i as int]));
        i = i + 1;
    }
    s
}

/// `str::trim` into an owned string.
pub fn trim_str(s: &str) -> (r: String)
    ensures
        r@ == trim(s@),
{
    let v = chars_of(s);
    let (a, b) = trim_bounds(&v);
    string_from(&v, a, b)
}

/// Whether `s` is empty or whitespace only.
pub fn str_is_blank(s: &str) -> (r: bool)
    ensures
        r == is_blank(s@),
{
    proof {
        reveal(is_blank);
    }
    let v = chars_of(s);
    let (a, b) = trim_bounds(&v);
    a == b
}

/// Collects the characters of `s` in order.
pub fn chars_of(s: &str) -> (v: Vec<char>)
    ensures
        v@ == s@,
{
    broadcast use vstd::string::group_string_axioms;
    let mut v: Vec<char> = Vec::new();
    for c in it: s.chars()
        invariant
            it.seq() == s@,
            v@ == it.seq().take(it.index() as int),
    {
        v.push(c);
    }
    v
}

/// Whether `v[i..i+p.len()]` equals `p`.
pub fn occurs_at_exec(v: &Vec<char>, p: &Vec<char>, i: usize) -> (r: bool)
    ensures
        r == occurs_at(v@, p@, i as int),
{
    if p.len() > v.len() || i > v.len() - p.len() {
        return false;
    }
    let mut k: usize = 0;
    while k < p.len()
        invariant
            i + p@.len() <= v@.len(),
            v@.len() == v.len(),
            k <= p@.len(),
            forall|m: int| 0 <= m < k ==> v@[i + m] == p@[m],
        decreases p.len() - k,
    {
        if v[i + k] != p[k] {
            assert(v@.subrange(i as int, i + p@.len())[k as int] != p@[k as int]);
            return false;
        }
        k = k + 1;
    }
    assert(v@.subrange(i as int, i + p@.len()) =~= p@);
    true
}

/// `str::contains` on character vectors.
pub fn vec_contains(t: &Vec<char>, p: &Vec<char>) -> (r: bool)
    ensures
        r == contains(t@, p@),
{
    if p.len() > t.len() {
        return false;
    }
    let last = t.len() - p.len();
    let mut i: usize = 0;
    loop
        invariant
            i <= last,
            last + p@.len() == t@.len(),
            forall|j: int| 0 <= j < i ==> !occurs_at(t@, p@, j),
        decreases last - i,
    {
        if occurs_at_exec(t, p, i) {
            return true;
        }
        if i == last {
            assert forall|j: int| occurs_at(t@, p@, j) implies false by {
                assert(j <= last);
            }
            return false;
        }
        i = i + 1;
    }
}

/// `str::contains` with a string pattern.
pub fn str_contains(t: &str, p: &str) -> (r: bool)
    ensures
        r == contains(t@, p@),
{
    let tv = chars_of(t);
    let pv = chars_of(p);
    vec_contains(&tv, &pv)
}

/// `str::starts_with` with a string pattern.
pub fn str_starts_with(t: &str, p: &str) -> (r: bool)
    ensures
        r == starts_with(t@, p@),
{
    let tv = chars_of(t);
    let pv = chars_of(p);
    occurs_at_exec(&tv, &pv, 0)
}

/// `str::ends_with` with a string pattern.
pub fn str_ends_with(t: &str, p: &str) -> (r: bool)
    ensures
        r == ends_with(t@, p@),
{
    let tv = chars_of(t);
    let pv = chars_of(p);
    if pv.len() > tv.len() {
        return false;
    }
    occurs_at_exec(&tv, &pv, tv.len() - pv.len())
}

/// String equality over characters.
pub fn str_eq(a: &str, b: &str) -> (r: bool)
    ensures
        r == (a@ == b@),
{
    let av = chars_of(a);
    let bv = chars_of(b);
    if av.len() != bv.len() {
        return false;
    }
    let r = occurs_at_exec(&av, &bv, 0);
    proof {
        if r {
            assert(av@.subrange(0, bv@.len() as int) =~= av@);
        } else {
            if a@ == b@ {
                assert(av@.subrange(0, bv@.len() as int) =~= av@);
            }
        }
    }
    r
}

/// The views of a list of string slices.
pub open spec fn views_of(ks: Seq<&str>) -> Seq<Seq<char>> {
    ks.map_values(|k: &str| k@)
}

/// Whether `value` is one of `allowed`.
pub fn str_in(value: &str, allowed: &[&str]) -> (r: bool)
    ensures
        r == views_of(allowed@).contains(value@),
{
    let mut i: usize = 0;
    while i < allowed.len()
        invariant
            i <= allowed@.len(),
            forall|j: int| 0 <= j < i ==> allowed@[j]@ != value@,
        decreases allowed.len() - i,
    {
        if str_eq(allowed[i], value) {
            assert(views_of(allowed@)[i as int] == value@);
            return true;
        }
        i = i + 1;
    }
    assert forall|j: int| 0 <= j < views_of(allowed@).len() implies views_of(allowed@)[j] != value@ by {
        assert(views_of(allowed@)[j] == allowed@[j]@);
    }
    false
}

/// Whether `value` equals one of the strings in `allowed`.
pub fn string_in(value: &str, allowed: &Vec<String>) -> (r: bool)
    ensures
        r == allowed@.map_values(|s: String| s@).contains(value@),
{
    let ghost vs = allowed@.map_values(|s: String| s@);
    let mut i: usize = 0;
    while i < allowed.len()
        invariant
            i <= allowed@.len(),
            vs == allowed@.map_values(|s: String| s@),
            forall|j: int| 0 <= j < i ==> allowed@[j]@ != value@,
        decreases allowed.len() - i,
    {
        if str_eq(allowed[i].as_str(), value) {
            assert(vs[i as int] == value@);
            return true;
        }
        i = i + 1;
    }
    assert forall|j: int| 0 <= j < vs.len() implies vs[j] != value@ by {
        assert(vs[j] == allowed@[j]@);
    }
    false
}

/// An owned copy of `s`.
pub fn owned(s: &str) -> (r: String)
    ensures
        r@ == s@,
{
    String::from_str(s)
}

/// `prefix` followed by `tail`.
pub fn join2(prefix: &str, tail: &str) -> (r: String)
    ensures
        r@ == prefix@ + tail@,
{
    let mut r = String::from_str(prefix);
    r.append(tail);
    r
}

/// `a`, `b` and `c` in sequence.
pub fn join3(a: &str, b: &str, c: &str) -> (r: String)
    ensures
        r@ == a@ + b@ + c@,
{
    let mut r = String::from_str(a);
    r.append(b);
    r.append(c);
    r
}

/// Index of the first occurrence of `c` in `v`.
pub fn find_char(v: &Vec<char>, c: char) -> (r: Option<usize>)
    ensures
        match r {
            Some(i) => first_index_of(v@, c) == Some(i as int) && i < v@.len(),
            None => first_index_of(v@, c) is None,
        },
{
    let mut i: usize = 0;
    while i < v.len()
        invariant
            i <= v@.len(),
            forall|j: int| 0 <= j < i ==> v@[j] != c,
        decreases v.len() - i,
    {
        if v[i] == c {
            let ghost w = choose|k: int| 0 <= k < v@.len() && v@[k] == c && forall|j: int| 0 <= j < k ==> v@[j] != c;
            assert(v@[i as int] == c);
            proof {
                if w < i {
                } else if w > i {
                    assert(v@[i as int] != c);
                }
            }
            return Some(i);
        }
        i = i + 1;
    }
    None
}

/// Index of the last occurrence of `p` in `v`.
pub fn rfind_seq(v: &Vec<char>, p: &Vec<char>) -> (r: Option<usize>)
    ensures
        match r {
            Some(i) => last_occurrence(v@, p@) == Some(i as int) && i + p@.len() <= v@.len(),
            None => last_occurrence(v@, p@) is None,
        },
{
    if p.len() > v.len() {
        return None;
    }
    let mut i: usize = v.len() - p.len();
    loop
        invariant
            i + p@.len() <= v@.len(),
            forall|j: int| i < j ==> !occurs_at(v@, p@, j),
        decreases i,
    {
        if occurs_at_exec(v, p, i) {
            let ghost k = i as int;
            let ghost w = choose|w: int| occurs_at(v@, p@, w) && forall|j: int| w < j ==> !occurs_at(v@, p@, j);
            proof {
                if w < k {
                } else if w > k {
                }
            }
            return Some(i);
        }
        if i == 0 {
            assert forall|j: int| occurs_at(v@, p@, j) implies false by {
                assert(0 <= j);
            }
            return None;
        }
        i = i - 1;
    }
}


/// `s` with every trailing `c` removed, as `str::trim_end_matches(c)` does.
pub open spec fn trim_end_char(s: Seq<char>, c: char) -> Seq<char>
    decreases s.len(),
{
    if s.len() > 0 && s.last() == c {
        trim_end_char(s.drop_last(), c)
    } else {
        s
    }
}

/// `str::trim_end_matches` with a character pattern, into an owned string.
pub fn trim_end_char_str(s: &str, c: char) -> (r: String)
    ensures
        r@ == trim_end_char(s@, c),
{
    let v = chars_of(s);
    let mut end = v.len();
    assert(v@.subrange(0, end as int) =~= v@);
    while end > 0 && v[end - 1] == c
        invariant
            end <= v@.len(),
            trim_end_char(v@, c) == trim_end_char(v@.subrange(0, end as int), c),
        decreases end,
    {
        assert(v@.subrange(0, end as int).drop_last() =~= v@.subrange(0, end - 1));
        end = end - 1;
    }
    string_from(&v, 0, end)
}

/// Lexicographic order of character sequences by code point, which is the
/// byte order of their UTF-8 encodings that `str`'s `<=` compares.
pub open spec fn lex_le(a: Seq<char>, b: Seq<char>) -> bool
    decreases a.len(),
{
    if a.len() == 0 {
        true
    } else if b.len() == 0 {
        false
    } else if a[0] != b[0] {
        a[0] < b[0]
    } else {
        lex_le(a.drop_first(), b.drop_first())
    }
}

proof fn lemma_lex_le_suffix(a: Seq<char>, b: Seq<char>, i: int)
    requires
        0 <= i <= a.len(),
        i <= b.len(),
        forall|k: int| 0 <= k < i ==> a[k] == b[k],
    ensures
        lex_le(a, b) == lex_le(a.subrange(i, a.len() as int), b.subrange(i, b.len() as int)),
    decreases i,
{
    if i > 0 {
        assert(a.drop_first() =~= a.subrange(1, a.len() as int));
        assert(b.drop_first() =~= b.subrange(1, b.len() as int));
        lemma_lex_le_suffix(a.drop_first(), b.drop_first(), i - 1);
        assert(a.drop_first().subrange(i - 1, a.drop_first().len() as int) =~= a.subrange(i, a.len() as int));
        assert(b.drop_first().subrange(i - 1, b.drop_first().len() as int) =~= b.subrange(i, b.len() as int));
    } else {
        assert(a.subrange(0, a.len() as int) =~= a);
        assert(b.subrange(0, b.len() as int) =~= b);
    }
}

/// `a <= b` for strings.
pub fn str_le(a: &str, b: &str) -> (r: bool)
    ensures
        r == lex_le(a@, b@),
{
    let av = chars_of(a);
    let bv = chars_of(b);
    let mut i: usize = 0;
    while i < av.len() && i < bv.len() && av[i] == bv[i]
        invariant
            i <= av@.len(),
            i <= bv@.len(),
            forall|k: int| 0 <= k < i ==> av@[k] == bv@[k],
        decreases av.len() - i,
    {
        i = i + 1;
    }
    proof {
        lemma_lex_le_suffix(av@, bv@, i as int);
    }
    if i == av.len() {
        true
    } else if i == bv.len() {
        false
    } else {
        av[i] < bv[i]
    }
}

/// Either of two strings is at most the other.
pub proof fn lemma_lex_le_total(a: Seq<char>, b: Seq<char>)
    ensures
        lex_le(a, b) || lex_le(b, a),
    decreases a.len(),
{
    if a.len() > 0 && b.len() > 0 {
        if a[0] == b[0] {
            lemma_lex_le_total(a.drop_first(), b.drop_first());
        }
    }
}

/// Two strings each at most the other are equal.
pub proof fn lemma_lex_le_antisymmetric(a: Seq<char>, b: Seq<char>)
    requires
        lex_le(a, b),
        lex_le(b, a),
    ensures
        a == b,
    decreases a.len(),
{
    if a.len() > 0 && b.len() > 0 {
        if a[0] == b[0] {
            lemma_lex_le_antisymmetric(a.drop_first(), b.drop_first());
            assert(a =~= seq![a[0]] + a.drop_first());
            assert(b =~= seq![b[0]] + b.drop_first());
        }
    }
}


/// The decimal digit character for `d` (`0` to `9`).
pub open spec fn digit_char(d: nat) -> char {
    if d == 0 { '0' } else if d == 1 { '1' } else if d == 2 { '2' } else if d == 3 { '3' }
    else if d == 4 { '4' } else if d == 5 { '5' } else if d == 6 { '6' } else if d == 7 { '7' }
    else if d == 8 { '8' } else { '9' }
}

/// The decimal numeral of `n`, without leading zeros.
pub open spec fn decimal_nat(n: nat) -> Seq<char>
    decreases n,
{
    if n < 10 {
        seq![digit_char(n)]
    } else {
        decimal_nat(n / 10).push(digit_char(n % 10))
    }
}

/// The decimal numeral of `i`, with a leading `-` when it is negative, as
/// integers print.
pub open spec fn decimal_int(i: int) -> Seq<char> {
    if i < 0 {
        seq!['-'] + decimal_nat((-i) as nat)
    } else {
        decimal_nat(i as nat)
    }
}

fn digit(d: u64) -> (c: char)
    requires
        d < 10,
    ensures
        c == digit_char(d as nat),
{
    if d == 0 { '0' } else if d == 1 { '1' } else if d == 2 { '2' } else if d == 3 { '3' }
    else if d == 4 { '4' } else if d == 5 { '5' } else if d == 6 { '6' } else if d == 7 { '7' }
    else if d == 8 { '8' } else { '9' }
}

/// Appends the decimal numeral of `n` to `s`.
pub fn push_decimal(s: &mut String, n: u64)
    ensures
        final(s)@ == old(s)@ + decimal_nat(n as nat),
    decreases n,
{
    if n >= 10 {
        push_decimal(s, n / 10);
    }
    push_char(s, digit(n % 10));
    proof {
        if n >= 10 {
            assert(old(s)@ + decimal_nat(n as nat) =~= old(s)@ + decimal_nat((n / 10) as nat) + seq![digit_char((n % 10) as nat)]);
        }
    }
}

/// The decimal numeral of `i`, as `i64::to_string` prints it.
pub fn i64_to_string(i: i64) -> (r: String)
    ensures
        r@ == decimal_int(i as int),
{
    let mut s = String::new();
    if i < 0 {
        push_char(&mut s, '-');
        let magnitude: u64 = if i == i64::MIN { 9223372036854775808u64 } else { (-i) as u64 };
        push_decimal(&mut s, magnitude);
    } else {
        push_decimal(&mut s, i as u64);
    }
    s
}


/// A copy of an optional string.
pub fn clone_opt(o: &Option<String>) -> (r: Option<String>)
    ensures
        r == *o,
{
    match o {
        Some(s) => Some(s.clone()),
        None => None,
    }
}

/// The texts of `items` joined with `sep` between each two, as `[String]::join` does.
pub open spec fn joined(items: Seq<Seq<char>>, sep: Seq<char>) -> Seq<char>
    decreases items.len(),
{
    if items.len() == 0 {
        Seq::empty()
    } else if items.len() == 1 {
        items[0]
    } else {
        joined(items.drop_last(), sep) + sep + items.last()
    }
}

/// The views of a sequence of strings.
pub open spec fn string_views(items: Seq<String>) -> Seq<Seq<char>> {
    items.map_values(|s: String| s@)
}

/// The strings of `items` joined with `sep` between each two.
pub fn join_strings(items: &Vec<String>, sep: &str) -> (r: String)
    ensures
        r@ == joined(string_views(items@), sep@),
{
    let mut out = String::new();
    let mut i: usize = 0;
    while i < items.len()
        invariant
            i <= items@.len(),
            out@ == joined(string_views(items@.subrange(0, i as int)), sep@),
        decreases items.len() - i,
    {
        let ghost before = out@;
        if i > 0 {
            out.append(sep);
        }
        out.append(items[i].as_str());
        proof {
            let prefix = items@.subrange(0, i as int);
            let next = items@.subrange(0, i + 1);
            assert(string_views(next).drop_last() =~= string_views(prefix));
            assert(string_views(next).last() == items@[i as int]@);
            if i == 0 {
                assert(string_views(prefix) =~= Seq::<Seq<char>>::empty());
            }
        }
        i = i + 1;
    }
    assert(items@.subrange(0, items@.len() as int) =~= items@);
    out
}


/// The text of an optional string, empty when absent.
pub open spec fn text_or_empty(o: Option<String>) -> Seq<char> {
    match o {
        Some(s) => s@,
        None => Seq::empty(),
    }
}

/// The text of an optional string.
pub open spec fn opt_view(o: Option<String>) -> Option<Seq<char>> {
    match o {
        Some(s) => Some(s@),
        None => None,
    }
}


/// The order of strings is transitive.
pub proof fn lemma_lex_le_transitive(a: Seq<char>, b: Seq<char>, c: Seq<char>)
    requires
        lex_le(a, b),
        lex_le(b, c),
    ensures
        lex_le(a, c),
    decreases a.len(),
{
    if a.len() > 0 && b.len() > 0 && c.len() > 0 {
        if a[0] == b[0] && b[0] == c[0] {
            lemma_lex_le_transitive(a.drop_first(), b.drop_first(), c.drop_first());
        }
    }
}

} // verus!
