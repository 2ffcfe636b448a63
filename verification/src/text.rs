//! Character-level string utilities with exact specifications.
//!
//! Strings are modelled by their view, a `Seq<char>`.  Whitespace is the
//! Unicode `White_Space` property, the set that `char::is_whitespace` uses.
use vstd::prelude::*;

verus! {

/// The Unicode `White_Space` property.
pub open spec fn is_space_spec(c: char) -> bool {
    ||| '\u{9}' <= c <= '\u{d}'
    ||| c == ' '
    ||| c == '\u{85}'
    ||| c == '\u{a0}'
    ||| c == '\u{1680}'
    ||| '\u{2000}' <= c <= '\u{200a}'
    ||| c == '\u{2028}'
    ||| c == '\u{2029}'
    ||| c == '\u{202f}'
    ||| c == '\u{205f}'
    ||| c == '\u{3000}'
}

/// Whether `c` is whitespace.
pub fn is_space(c: char) -> (r: bool)
    ensures
        r == is_space_spec(c),
{
    ('\u{9}' <= c && c <= '\u{d}') || c == ' ' || c == '\u{85}' || c == '\u{a0}' || c
        == '\u{1680}' || ('\u{2000}' <= c && c <= '\u{200a}') || c == '\u{2028}' || c
        == '\u{2029}' || c == '\u{202f}' || c == '\u{205f}' || c == '\u{3000}'
}

/// The characters of a string slice, in order.
pub fn chars_of(s: &str) -> (v: Vec<char>)
    ensures
        v@ == s@,
{
    let mut v: Vec<char> = Vec::new();
    for c in it: s.chars()
        invariant
            it.seq() == s@,
            v@ == it.seq().take(it.index()),
    {
        v.push(c);
    }
    v
}


/// Appends one character to a string (`String::push`).
#[verifier::external_body]
pub(crate) fn push_char(s: &mut String, c: char)
    ensures
        final(s)@ == old(s)@.push(c),
{
    s.push(c);
}

/// A string holding exactly the given characters.
pub fn string_of(v: &Vec<char>) -> (s: String)
    ensures
        s@ == v@,
{
    let mut s = String::new();
    let mut i: usize = 0;
    while i < v.len()
        invariant
            i <= v.len(),
            s@ == v@.take(i as int),
        decreases v.len() - i,
    {
        push_char(&mut s, v[i]);
        assert(v@.take(i + 1) =~= v@.take(i as int).push(v@[i as int]));
        i += 1;
    }
    assert(v@.take(v.len() as int) =~= v@);
    s
}

/// `s` begins with `p`.
pub open spec fn starts_with_spec(s: Seq<char>, p: Seq<char>) -> bool {
    p.len() <= s.len() && s.subrange(0, p.len() as int) == p
}

/// `s` ends with `p`.
pub open spec fn ends_with_spec(s: Seq<char>, p: Seq<char>) -> bool {
    p.len() <= s.len() && s.subrange(s.len() - p.len(), s.len() as int) == p
}

/// `p` occurs in `s` at position `i`.
pub open spec fn occurs_at(s: Seq<char>, p: Seq<char>, i: int) -> bool {
    0 <= i && i + p.len() <= s.len() && s.subrange(i, i + p.len()) == p
}

/// `p` occurs somewhere in `s`.
pub open spec fn contains_spec(s: Seq<char>, p: Seq<char>) -> bool {
    exists|i: int| occurs_at(s, p, i)
}

/// Whether `p` occurs in `s` at position `i`.
pub fn matches_at(s: &Vec<char>, p: &Vec<char>, i: usize) -> (r: bool)
    ensures
        r == occurs_at(s@, p@, i as int),
{
    if i > s.len() || p.len() > s.len() - i {
        return false;
    }
    let mut k: usize = 0;
    while k < p.len()
        invariant
            i + p.len() <= s.len(),
            k <= p.len(),
            forall|j: int| 0 <= j < k ==> s@[i + j] == p@[j],
        decreases p.len() - k,
    {
        if s[i + k] != p[k] {
            assert(s@.subrange(i as int, i + p.len())[k as int] != p@[k as int]);
            return false;
        }
        k += 1;
    }
    assert(s@.subrange(i as int, i + p.len()) =~= p@);
    true
}

/// Whether `s` begins with `p`.
pub fn starts_with(s: &Vec<char>, p: &Vec<char>) -> (r: bool)
    ensures
        r == starts_with_spec(s@, p@),
{
    matches_at(s, p, 0)
}

/// Whether `s` ends with `p`.
pub fn ends_with(s: &Vec<char>, p: &Vec<char>) -> (r: bool)
    ensures
        r == ends_with_spec(s@, p@),
{
    if p.len() > s.len() {
        false
    } else {
        matches_at(s, p, s.len() - p.len())
    }
}

/// Whether `p` occurs in `s`.
pub fn contains(s: &Vec<char>, p: &Vec<char>) -> (r: bool)
    ensures
        r == contains_spec(s@, p@),
{
    if p.len() > s.len() {
        assert forall|i: int| !occurs_at(s@, p@, i) by {}
        return false;
    }
    let last = s.len() - p.len();
    let mut i: usize = 0;
    while i < last
        invariant
            last == s.len() - p.len(),
            i <= last,
            forall|j: int| 0 <= j < i ==> !occurs_at(s@, p@, j),
        decreases last - i,
    {
        if matches_at(s, p, i) {
            return true;
        }
        i += 1;
    }
    if matches_at(s, p, last) {
        return true;
    }
    assert forall|j: int| !occurs_at(s@, p@, j) by {
        if 0 <= j < i {
        }
    }
    false
}

/// `s` without its leading whitespace.
pub open spec fn trim_start_spec(s: Seq<char>) -> Seq<char>
    decreases s.len(),
{
    if s.len() > 0 && is_space_spec(s[0]) {
        trim_start_spec(s.drop_first())
    } else {
        s
    }
}

/// `s` without its trailing whitespace.
pub open spec fn trim_end_spec(s: Seq<char>) -> Seq<char>
    decreases s.len(),
{
    if s.len() > 0 && is_space_spec(s.last()) {
        trim_end_spec(s.drop_last())
    } else {
        s
    }
}

/// `s` without leading and trailing whitespace.
pub open spec fn trim_spec(s: Seq<char>) -> Seq<char> {
    trim_end_spec(trim_start_spec(s))
}

proof fn lemma_trim_start_shape(s: Seq<char>)
    ensures
        trim_start_spec(s).len() == 0 || !is_space_spec(trim_start_spec(s)[0]),
    decreases s.len(),
{
    if s.len() > 0 && is_space_spec(s[0]) {
        lemma_trim_start_shape(s.drop_first());
    }
}

proof fn lemma_trim_end_shape(s: Seq<char>)
    ensures
        trim_end_spec(s).len() <= s.len(),
        trim_end_spec(s) == s.subrange(0, trim_end_spec(s).len() as int),
        trim_end_spec(s).len() == 0 || !is_space_spec(trim_end_spec(s).last()),
    decreases s.len(),
{
    if s.len() > 0 && is_space_spec(s.last()) {
        lemma_trim_end_shape(s.drop_last());
        assert(s.drop_last().subrange(0, trim_end_spec(s).len() as int) =~= s.subrange(
            0,
            trim_end_spec(s).len() as int,
        ));
    } else {
        assert(s.subrange(0, s.len() as int) =~= s);
    }
}

/// Law: trimmed text is empty or begins and ends with a non-whitespace character.
pub proof fn law_trim_shape(s: Seq<char>)
    ensures
        trim_spec(s).len() == 0 || (!is_space_spec(trim_spec(s)[0]) && !is_space_spec(
            trim_spec(s).last(),
        )),
{
    lemma_trim_start_shape(s);
    lemma_trim_end_shape(trim_start_spec(s));
    if trim_spec(s).len() > 0 {
        assert(trim_spec(s)[0] == trim_start_spec(s)[0]);
    }
}

proof fn lemma_trim_start_removed(x: Seq<char>)
    ensures
        trim_start_spec(x).len() <= x.len(),
        all_space(x.subrange(0, x.len() - trim_start_spec(x).len())),
    decreases x.len(),
{
    if x.len() > 0 && is_space_spec(x[0]) {
        let y = x.drop_first();
        lemma_trim_start_removed(y);
        let k = y.len() - trim_start_spec(y).len();
        assert forall|i: int| 0 <= i < k + 1 implies is_space_spec(
            #[trigger] x.subrange(0, k + 1)[i],
        ) by {
            if i > 0 {
                assert(x.subrange(0, k + 1)[i] == y.subrange(0, k)[i - 1]);
            }
        }
    }
}

proof fn lemma_trim_end_removed(x: Seq<char>)
    ensures
        trim_end_spec(x).len() <= x.len(),
        all_space(x.subrange(trim_end_spec(x).len() as int, x.len() as int)),
    decreases x.len(),
{
    if x.len() > 0 && is_space_spec(x.last()) {
        let y = x.drop_last();
        lemma_trim_end_removed(y);
        let k = trim_end_spec(y).len() as int;
        assert forall|i: int| 0 <= i < x.len() - k implies is_space_spec(
            #[trigger] x.subrange(k, x.len() as int)[i],
        ) by {
            if k + i < y.len() {
                assert(x.subrange(k, x.len() as int)[i] == y.subrange(k, y.len() as int)[i]);
            } else {
                assert(x.subrange(k, x.len() as int)[i] == x.last());
            }
        }
    }
}

/// Law: trimming removes only whitespace, and only at the ends: the result is
/// the part of `s` between a whitespace prefix and a whitespace suffix.
pub proof fn law_trim_removes_only_space(s: Seq<char>)
    ensures
        ({
            let a = s.len() - trim_start_spec(s).len();
            let b = a + trim_spec(s).len();
            &&& 0 <= a <= b <= s.len()
            &&& trim_spec(s) == s.subrange(a, b)
            &&& all_space(s.subrange(0, a))
            &&& all_space(s.subrange(b, s.len() as int))
        }),
{
    let u = trim_start_spec(s);
    lemma_trim_start_suffix(s);
    lemma_trim_start_removed(s);
    lemma_trim_end_shape(u);
    lemma_trim_end_removed(u);
    let a = s.len() - u.len();
    let t = trim_spec(s);
    let b = a + t.len();
    assert(t =~= s.subrange(a, b));
    assert(u.subrange(t.len() as int, u.len() as int) =~= s.subrange(b, s.len() as int));
}

/// Law: trimming twice is trimming once.
pub proof fn law_trim_idempotent(s: Seq<char>)
    ensures
        trim_spec(trim_spec(s)) == trim_spec(s),
{
    law_trim_shape(s);
    let t = trim_spec(s);
    assert(trim_start_spec(t) == t);
    assert(trim_end_spec(t) == t);
}

/// Every character of `w` is whitespace.
pub open spec fn all_space(w: Seq<char>) -> bool {
    forall|i: int| 0 <= i < w.len() ==> is_space_spec(#[trigger] w[i])
}

proof fn lemma_trim_start_space_prefix(w: Seq<char>, x: Seq<char>)
    requires
        all_space(w),
    ensures
        trim_start_spec(w + x) == trim_start_spec(x),
    decreases w.len(),
{
    if w.len() > 0 {
        assert((w + x)[0] == w[0]);
        assert((w + x).drop_first() =~= w.drop_first() + x);
        lemma_trim_start_space_prefix(w.drop_first(), x);
    } else {
        assert(w + x =~= x);
    }
}

proof fn lemma_trim_end_space_suffix(x: Seq<char>, w: Seq<char>)
    requires
        all_space(w),
    ensures
        trim_end_spec(x + w) == trim_end_spec(x),
    decreases w.len(),
{
    if w.len() > 0 {
        assert((x + w).last() == w.last());
        assert((x + w).drop_last() =~= x + w.drop_last());
        lemma_trim_end_space_suffix(x, w.drop_last());
    } else {
        assert(x + w =~= x);
    }
}

proof fn lemma_trim_space_suffix(x: Seq<char>, w: Seq<char>)
    requires
        all_space(w),
    ensures
        trim_end_spec(trim_start_spec(x + w)) == trim_end_spec(trim_start_spec(x)),
    decreases x.len(),
{
    if x.len() == 0 {
        assert(x + w =~= w);
        assert(w =~= w + Seq::<char>::empty());
        lemma_trim_start_space_prefix(w, Seq::<char>::empty());
    } else if is_space_spec(x[0]) {
        assert((x + w)[0] == x[0]);
        assert((x + w).drop_first() =~= x.drop_first() + w);
        lemma_trim_space_suffix(x.drop_first(), w);
    } else {
        assert((x + w)[0] == x[0]);
        lemma_trim_end_space_suffix(x, w);
    }
}

/// Law: whitespace around a text does not change what trimming gives.
pub proof fn law_trim_ignores_surrounding_space(w1: Seq<char>, s: Seq<char>, w2: Seq<char>)
    requires
        all_space(w1),
        all_space(w2),
    ensures
        trim_spec(w1 + s + w2) == trim_spec(s),
{
    assert(w1 + s + w2 =~= w1 + (s + w2));
    lemma_trim_start_space_prefix(w1, s + w2);
    lemma_trim_space_suffix(s, w2);
}

/// `s` with `a`..`z` mapped to `A`..`Z`.
pub open spec fn ascii_upper(s: Seq<char>) -> Seq<char> {
    s.map_values(|c: char| ascii_upper_char(c))
}

/// The characters `a`..`z` mapped to `A`..`Z`, all others kept.
pub open spec fn ascii_upper_char(c: char) -> char {
    if 'a' <= c <= 'z' {
        ((c as u32) - 32) as char
    } else {
        c
    }
}

/// `s` with `A`..`Z` mapped to `a`..`z`.
pub open spec fn ascii_lower(s: Seq<char>) -> Seq<char> {
    s.map_values(|c: char| ascii_lower_char(c))
}

proof fn lemma_upper_char(c: char)
    ensures
        ascii_lower_char(ascii_upper_char(c)) == ascii_lower_char(c),
        is_space_spec(ascii_upper_char(c)) == is_space_spec(c),
        (ascii_upper_char(c) as u32) < 128 <==> (c as u32) < 128,
{
}

proof fn lemma_trim_start_upper(x: Seq<char>)
    ensures
        trim_start_spec(ascii_upper(x)) == ascii_upper(trim_start_spec(x)),
    decreases x.len(),
{
    if x.len() > 0 {
        lemma_upper_char(x[0]);
        assert(ascii_upper(x)[0] == ascii_upper_char(x[0]));
        if is_space_spec(x[0]) {
            assert(ascii_upper(x).drop_first() =~= ascii_upper(x.drop_first()));
            lemma_trim_start_upper(x.drop_first());
        }
    }
}

proof fn lemma_trim_end_upper(x: Seq<char>)
    ensures
        trim_end_spec(ascii_upper(x)) == ascii_upper(trim_end_spec(x)),
    decreases x.len(),
{
    if x.len() > 0 {
        lemma_upper_char(x.last());
        assert(ascii_upper(x).last() == ascii_upper_char(x.last()));
        if is_space_spec(x.last()) {
            assert(ascii_upper(x).drop_last() =~= ascii_upper(x.drop_last()));
            lemma_trim_end_upper(x.drop_last());
        }
    }
}

proof fn lemma_trim_start_suffix(x: Seq<char>)
    ensures
        trim_start_spec(x).len() <= x.len(),
        trim_start_spec(x) == x.subrange(x.len() - trim_start_spec(x).len(), x.len() as int),
    decreases x.len(),
{
    if x.len() > 0 && is_space_spec(x[0]) {
        lemma_trim_start_suffix(x.drop_first());
        assert(x.drop_first().subrange(
            x.drop_first().len() - trim_start_spec(x).len(),
            x.drop_first().len() as int,
        ) =~= x.subrange(x.len() - trim_start_spec(x).len(), x.len() as int));
    } else {
        assert(x.subrange(0, x.len() as int) =~= x);
    }
}

/// Law: upper-casing the ASCII letters of any text commutes with trimming,
/// keeps the text ASCII exactly when it was, and leaves its ASCII lower-case
/// form unchanged.
pub proof fn law_ascii_case(s: Seq<char>)
    ensures
        trim_spec(ascii_upper(s)) == ascii_upper(trim_spec(s)),
        all_ascii(ascii_upper(s)) == all_ascii(s),
        ascii_lower(ascii_upper(s)) == ascii_lower(s),
{
    lemma_trim_start_upper(s);
    lemma_trim_end_upper(trim_start_spec(s));
    assert forall|i: int| 0 <= i < s.len() implies #[trigger] ascii_lower(ascii_upper(s))[i]
        == ascii_lower(s)[i] by {
        lemma_upper_char(s[i]);
    }
    assert(ascii_lower(ascii_upper(s)) =~= ascii_lower(s));
    if all_ascii(s) {
        assert forall|i: int| 0 <= i < ascii_upper(s).len() implies (
        #[trigger] ascii_upper(s)[i] as u32) < 128 by {
            lemma_upper_char(s[i]);
        }
    }
    if all_ascii(ascii_upper(s)) {
        assert forall|i: int| 0 <= i < s.len() implies (#[trigger] s[i] as u32) < 128 by {
            lemma_upper_char(s[i]);
            assert(ascii_upper(s)[i] == ascii_upper_char(s[i]));
        }
    }
}

/// The bounds `(a, b)` of `s` with leading and trailing whitespace cut off.
pub fn trim_bounds(v: &Vec<char>) -> (r: (usize, usize))
    ensures
        r.0 <= r.1 <= v.len(),
        v@.subrange(r.0 as int, r.1 as int) == trim_spec(v@),
{
    let n = v.len();
    let mut a: usize = 0;
    assert(v@.subrange(0, n as int) =~= v@);
    while a < n && is_space(v[a])
        invariant
            n == v.len(),
            a <= n,
            trim_start_spec(v@) == trim_start_spec(v@.subrange(a as int, n as int)),
        decreases n - a,
    {
        assert(v@.subrange(a as int, n as int).drop_first() =~= v@.subrange(a + 1, n as int));
        a += 1;
    }
    assert(trim_start_spec(v@) == v@.subrange(a as int, n as int));
    let mut b: usize = n;
    while b > a && is_space(v[b - 1])
        invariant
            n == v.len(),
            a <= b <= n,
            trim_spec(v@) == trim_end_spec(v@.subrange(a as int, b as int)),
        decreases b - a,
    {
        assert(v@.subrange(a as int, b as int).drop_last() =~= v@.subrange(a as int, b - 1));
        b -= 1;
    }
    (a, b)
}

/// `s` with leading and trailing whitespace removed (as `str::trim`).
pub fn trim(s: &str) -> (r: String)
    ensures
        r@ == trim_spec(s@),
{
    let v = chars_of(s);
    let (a, b) = trim_bounds(&v);
    String::from_str(s.substring_char(a, b))
}


/// One character of the left-to-right word scan: finished words and the word in progress.
pub open spec fn scan_step(acc: (Seq<Seq<char>>, Seq<char>), c: char) -> (Seq<Seq<char>>, Seq<char>) {
    if is_space_spec(c) {
        if acc.1.len() > 0 {
            (acc.0.push(acc.1), Seq::empty())
        } else {
            acc
        }
    } else {
        (acc.0, acc.1.push(c))
    }
}

/// The word scan over all of `s`.
pub open spec fn scan_words(s: Seq<char>) -> (Seq<Seq<char>>, Seq<char>)
    decreases s.len(),
{
    if s.len() == 0 {
        (Seq::empty(), Seq::empty())
    } else {
        scan_step(scan_words(s.drop_last()), s.last())
    }
}

/// The maximal runs of non-whitespace characters of `s`, in order (as `str::split_whitespace`).
pub open spec fn words_spec(s: Seq<char>) -> Seq<Seq<char>> {
    let acc = scan_words(s);
    if acc.1.len() > 0 {
        acc.0.push(acc.1)
    } else {
        acc.0
    }
}

/// A word: non-empty and free of whitespace.
pub open spec fn is_word(w: Seq<char>) -> bool {
    w.len() > 0 && forall|i: int| 0 <= i < w.len() ==> !is_space_spec(#[trigger] w[i])
}

proof fn lemma_scan_words_are_words(s: Seq<char>)
    ensures
        forall|k: int| 0 <= k < scan_words(s).0.len() ==> is_word(#[trigger] scan_words(s).0[k]),
        forall|i: int|
            0 <= i < scan_words(s).1.len() ==> !is_space_spec(#[trigger] scan_words(s).1[i]),
    decreases s.len(),
{
    if s.len() > 0 {
        lemma_scan_words_are_words(s.drop_last());
        let acc = scan_words(s.drop_last());
        let c = s.last();
        if !is_space_spec(c) {
            assert forall|i: int| 0 <= i < acc.1.push(c).len() implies !is_space_spec(
                #[trigger] acc.1.push(c)[i],
            ) by {
                if i < acc.1.len() {
                    assert(acc.1.push(c)[i] == acc.1[i]);
                }
            }
        }
    }
}

/// Every item of `words_spec(s)` is a word.
pub proof fn law_words_are_words(s: Seq<char>)
    ensures
        forall|k: int| 0 <= k < words_spec(s).len() ==> is_word(#[trigger] words_spec(s)[k]),
{
    lemma_scan_words_are_words(s);
}

proof fn lemma_scan_word(w: Seq<char>)
    requires
        forall|i: int| 0 <= i < w.len() ==> !is_space_spec(#[trigger] w[i]),
    ensures
        scan_words(w) == (Seq::<Seq<char>>::empty(), w),
    decreases w.len(),
{
    if w.len() > 0 {
        assert(w.last() == w[w.len() - 1]);
        lemma_scan_word(w.drop_last());
        assert(w.drop_last().push(w.last()) =~= w);
    }
}

proof fn lemma_scan_spaces(w: Seq<char>)
    requires
        all_space(w),
    ensures
        scan_words(w) == (Seq::<Seq<char>>::empty(), Seq::<char>::empty()),
    decreases w.len(),
{
    if w.len() > 0 {
        assert(w.last() == w[w.len() - 1]);
        lemma_scan_spaces(w.drop_last());
    }
}

/// Law: a text made only of whitespace has no words, and a word surrounded by
/// whitespace is the text's only word.
pub proof fn law_words_of_one_word(w1: Seq<char>, w: Seq<char>, w2: Seq<char>)
    requires
        all_space(w1),
        all_space(w2),
    ensures
        words_spec(w1) == Seq::<Seq<char>>::empty(),
        is_word(w) ==> words_spec(w1 + w + w2) == seq![w],
{
    lemma_scan_spaces(w1);
    if is_word(w) {
        lemma_scan_after_word(w1, w, w2);
        assert(Seq::<Seq<char>>::empty().push(w) =~= seq![w]);
    }
}

proof fn lemma_scan_prefix_spaces(w1: Seq<char>, w: Seq<char>)
    requires
        all_space(w1),
        forall|i: int| 0 <= i < w.len() ==> !is_space_spec(#[trigger] w[i]),
    ensures
        scan_words(w1 + w) == (Seq::<Seq<char>>::empty(), w),
    decreases w.len(),
{
    if w.len() == 0 {
        assert(w1 + w =~= w1);
        lemma_scan_spaces(w1);
    } else {
        assert(w.last() == w[w.len() - 1]);
        assert((w1 + w).drop_last() =~= w1 + w.drop_last());
        assert((w1 + w).last() == w.last());
        lemma_scan_prefix_spaces(w1, w.drop_last());
        assert(w.drop_last().push(w.last()) =~= w);
    }
}

proof fn lemma_scan_after_word(w1: Seq<char>, w: Seq<char>, w2: Seq<char>)
    requires
        all_space(w1),
        all_space(w2),
        is_word(w),
    ensures
        w2.len() == 0 ==> scan_words(w1 + w + w2) == (Seq::<Seq<char>>::empty(), w),
        w2.len() > 0 ==> scan_words(w1 + w + w2) == (seq![w], Seq::<char>::empty()),
    decreases w2.len(),
{
    lemma_scan_prefix_spaces(w1, w);
    if w2.len() == 0 {
        assert(w1 + w + w2 =~= w1 + w);
    } else {
        assert(w2.last() == w2[w2.len() - 1]);
        assert((w1 + w + w2).drop_last() =~= w1 + w + w2.drop_last());
        assert((w1 + w + w2).last() == w2.last());
        lemma_scan_after_word(w1, w, w2.drop_last());
        assert(Seq::<Seq<char>>::empty().push(w) =~= seq![w]);
    }
}

/// The views of a vector of strings.
pub open spec fn views_of(v: Seq<String>) -> Seq<Seq<char>> {
    v.map_values(|w: String| w@)
}

/// The whitespace-separated words of `s` (as `str::split_whitespace`).
pub fn split_whitespace(s: &str) -> (r: Vec<String>)
    ensures
        views_of(r@) == words_spec(s@),
{
    let v = chars_of(s);
    let mut done: Vec<String> = Vec::new();
    let mut cur = String::new();
    let mut i: usize = 0;
    while i < v.len()
        invariant
            i <= v.len(),
            v@ == s@,
            (views_of(done@), cur@) == scan_words(v@.take(i as int)),
        decreases v.len() - i,
    {
        let c = v[i];
        assert(v@.take(i + 1).drop_last() =~= v@.take(i as int));
        assert(v@.take(i + 1).last() == c);
        if is_space(c) {
            if !cur.as_str().is_empty() {
                done.push(cur);
                cur = String::new();
            }
        } else {
            push_char(&mut cur, c);
        }
        i += 1;
    }
    assert(v@.take(v.len() as int) =~= v@);
    if !cur.as_str().is_empty() {
        done.push(cur);
    }
    done
}


/// The decimal digit for `d < 10`.
pub open spec fn digit_spec(d: nat) -> char {
    if d == 0 { '0' }
    else if d == 1 { '1' }
    else if d == 2 { '2' }
    else if d == 3 { '3' }
    else if d == 4 { '4' }
    else if d == 5 { '5' }
    else if d == 6 { '6' }
    else if d == 7 { '7' }
    else if d == 8 { '8' }
    else { '9' }
}

/// The decimal representation of `n`, without sign or leading zeros.
pub open spec fn decimal_spec(n: nat) -> Seq<char>
    decreases n,
{
    if n < 10 {
        seq![digit_spec(n)]
    } else {
        decimal_spec(n / 10).push(digit_spec(n % 10))
    }
}

fn digit(d: u64) -> (c: char)
    requires
        d < 10,
    ensures
        c == digit_spec(d as nat),
{
    if d == 0 { '0' }
    else if d == 1 { '1' }
    else if d == 2 { '2' }
    else if d == 3 { '3' }
    else if d == 4 { '4' }
    else if d == 5 { '5' }
    else if d == 6 { '6' }
    else if d == 7 { '7' }
    else if d == 8 { '8' }
    else { '9' }
}

/// The decimal representation of `n` (as `n.to_string()`).
pub fn decimal(n: u64) -> (s: String)
    ensures
        s@ == decimal_spec(n as nat),
    decreases n,
{
    if n < 10 {
        let mut s = String::new();
        push_char(&mut s, digit(n));
        s
    } else {
        let mut s = decimal(n / 10);
        push_char(&mut s, digit(n % 10));
        s
    }
}

/// The number a sequence of decimal digits stands for.
pub open spec fn digits_value(s: Seq<char>) -> int
    decreases s.len(),
{
    if s.len() == 0 {
        0
    } else {
        digits_value(s.drop_last()) * 10 + (s.last() as u32 - '0' as u32)
    }
}

proof fn lemma_digit_value(d: nat)
    requires
        d < 10,
    ensures
        digit_spec(d) as u32 - '0' as u32 == d,
        '0' <= digit_spec(d) <= '9',
        d > 0 ==> digit_spec(d) != '0',
{
}

/// Law: the decimal form of `n` is a non-empty run of digits `0`..`9` that
/// stands for `n`, without a leading zero unless `n` is zero.
pub proof fn law_decimal(n: nat)
    ensures
        decimal_spec(n).len() > 0,
        forall|i: int| 0 <= i < decimal_spec(n).len() ==> '0' <= #[trigger] decimal_spec(n)[i] <= '9',
        digits_value(decimal_spec(n)) == n,
        n > 0 ==> decimal_spec(n)[0] != '0',
    decreases n,
{
    lemma_digit_value(n % 10);
    if n < 10 {
        assert(decimal_spec(n).drop_last() =~= Seq::<char>::empty());
        assert(digits_value(decimal_spec(n)) == digits_value(Seq::<char>::empty()) * 10 + (
        digit_spec(n) as u32 - '0' as u32));
    } else {
        law_decimal(n / 10);
        let d = decimal_spec(n / 10);
        assert(decimal_spec(n) == d.push(digit_spec(n % 10)));
        assert(decimal_spec(n).drop_last() =~= d);
        assert forall|i: int| 0 <= i < decimal_spec(n).len() implies '0' <= #[trigger] decimal_spec(
            n,
        )[i] <= '9' by {
            if i < d.len() {
                assert(decimal_spec(n)[i] == d[i]);
            }
        }
        assert(decimal_spec(n)[0] == d[0]);
        assert(decimal_spec(n).last() == digit_spec(n % 10));
        assert(digits_value(decimal_spec(n)) == digits_value(d) * 10 + (digit_spec(n % 10) as u32
            - '0' as u32));
        assert((n / 10) * 10 + n % 10 == n);
    }
}

/// The characters `A`..`Z` mapped to `a`..`z`, all others kept.
pub open spec fn ascii_lower_char(c: char) -> char {
    if 'A' <= c <= 'Z' {
        ((c as u32) + 32) as char
    } else {
        c
    }
}

/// Every character of `s` is ASCII.
pub open spec fn all_ascii(s: Seq<char>) -> bool {
    forall|i: int| 0 <= i < s.len() ==> (#[trigger] s[i] as u32) < 128
}

/// The Unicode lowercase mapping of a whole string, as `str::to_lowercase` computes it.
pub uninterp spec fn unicode_lowercase(s: Seq<char>) -> Seq<char>;

/// `str::to_lowercase`.  Trusted: the result is the lowercase mapping of the
/// argument (a function of the argument alone), and on an all-ASCII argument it
/// maps `A`..`Z` to `a`..`z` and keeps every other character, as the Unicode
/// case tables do.  Nothing is claimed of non-ASCII input beyond the name.
#[verifier::external_body]
pub(crate) fn to_lowercase(s: &str) -> (r: String)
    ensures
        r@ == unicode_lowercase(s@),
        all_ascii(s@) ==> r@ == ascii_lower(s@),
{
    s.to_lowercase()
}

} // verus!
