//! Text primitives over sequences of characters.
//!
//! Every function here is specified over the `Seq<char>` view of its
//! arguments, so that the rest of the crate can state what a piece of text is
//! without speaking of bytes or encodings.

use vstd::prelude::*;
use vstd::string::*;

verus! {

/// `c` is white space: one of the 25 characters with the Unicode property
/// `White_Space`.
pub open spec fn is_white_space(c: char) -> bool {
    ||| '\u{0009}' <= c <= '\u{000D}'
    ||| c == '\u{0020}'
    ||| c == '\u{0085}'
    ||| c == '\u{00A0}'
    ||| c == '\u{1680}'
    ||| '\u{2000}' <= c <= '\u{200A}'
    ||| c == '\u{2028}'
    ||| c == '\u{2029}'
    ||| c == '\u{202F}'
    ||| c == '\u{205F}'
    ||| c == '\u{3000}'
}

/// Calls `char::is_whitespace`. The standard library documents it as the test
/// whether a character has the Unicode property `White_Space`, as the Unicode
/// Character Database lists it; the contract claims that this is the set that
/// [`is_white_space`] spells out.
#[verifier::external_body]
pub(crate) fn is_whitespace(c: char) -> (b: bool)
    ensures
        b == is_white_space(c),
{
    c.is_whitespace()
}

/// `pat` stands in `s` at position `i`.
pub open spec fn occurs_at(s: Seq<char>, pat: Seq<char>, i: int) -> bool {
    0 <= i && i + pat.len() <= s.len() && s.subrange(i, i + pat.len()) == pat
}

/// `pat` stands somewhere in `s`.
pub open spec fn occurs(s: Seq<char>, pat: Seq<char>) -> bool {
    exists|i: int| occurs_at(s, pat, i)
}

/// `i` is the first position of `c` in `s`.
pub open spec fn is_first_index(s: Seq<char>, c: char, i: int) -> bool {
    0 <= i < s.len() && s[i] == c && forall|j: int| 0 <= j < i ==> s[j] != c
}

/// `i` is the last position of `c` in `s`.
pub open spec fn is_last_index(s: Seq<char>, c: char, i: int) -> bool {
    0 <= i < s.len() && s[i] == c && forall|j: int| i < j < s.len() ==> s[j] != c
}

/// The first position of `c` in `s`, if `c` occurs.
pub open spec fn first_index(s: Seq<char>, c: char) -> Option<int> {
    if s.contains(c) {
        Some(choose|i: int| is_first_index(s, c, i))
    } else {
        None
    }
}

/// The last position of `c` in `s`, if `c` occurs.
pub open spec fn last_index(s: Seq<char>, c: char) -> Option<int> {
    if s.contains(c) {
        Some(choose|i: int| is_last_index(s, c, i))
    } else {
        None
    }
}

/// A first position is the only one: `first_index` names it.
pub proof fn lemma_first_index_unique(s: Seq<char>, c: char, i: int)
    requires
        is_first_index(s, c, i),
    ensures
        first_index(s, c) == Some(i),
{
    assert(s.contains(c));
    let k = choose|k: int| is_first_index(s, c, k);
    assert(is_first_index(s, c, k));
    if k < i {
        assert(s[k] != c);
    } else if i < k {
        assert(s[i] != c);
    }
}

/// A last position is the only one: `last_index` names it.
pub proof fn lemma_last_index_unique(s: Seq<char>, c: char, i: int)
    requires
        is_last_index(s, c, i),
    ensures
        last_index(s, c) == Some(i),
{
    assert(s.contains(c));
    let k = choose|k: int| is_last_index(s, c, k);
    assert(is_last_index(s, c, k));
    if k < i {
        assert(s[i] != c);
    } else if i < k {
        assert(s[k] != c);
    }
}

/// Every character of `s` is an ASCII decimal digit. True of the empty text.
pub open spec fn all_digits(s: Seq<char>) -> bool {
    forall|i: int| 0 <= i < s.len() ==> '0' <= #[trigger] s[i] <= '9'
}

/// `s` without its leading white space.
pub open spec fn trim_start(s: Seq<char>) -> Seq<char>
    decreases s.len(),
{
    if s.len() > 0 && is_white_space(s[0]) {
        trim_start(s.skip(1))
    } else {
        s
    }
}

/// `s` without its trailing white space.
pub open spec fn trim_end(s: Seq<char>) -> Seq<char>
    decreases s.len(),
{
    if s.len() > 0 && is_white_space(s.last()) {
        trim_end(s.drop_last())
    } else {
        s
    }
}

/// `s` without leading and trailing white space.
pub open spec fn trimmed(s: Seq<char>) -> Seq<char> {
    trim_end(trim_start(s))
}

/// `s` without `prefix` in front, where it begins with it.
pub open spec fn without_prefix(s: Seq<char>, prefix: Seq<char>) -> Seq<char> {
    if occurs_at(s, prefix, 0) {
        s.skip(prefix.len() as int)
    } else {
        s
    }
}

/// The decimal digit for `d`.
pub open spec fn digit(d: nat) -> char {
    if d == 0 {
        '0'
    } else if d == 1 {
        '1'
    } else if d == 2 {
        '2'
    } else if d == 3 {
        '3'
    } else if d == 4 {
        '4'
    } else if d == 5 {
        '5'
    } else if d == 6 {
        '6'
    } else if d == 7 {
        '7'
    } else if d == 8 {
        '8'
    } else {
        '9'
    }
}

/// `n` written in decimal, without leading zeros.
pub open spec fn decimal(n: nat) -> Seq<char>
    decreases n,
{
    if n < 10 {
        seq![digit(n)]
    } else {
        decimal(n / 10).push(digit(n % 10))
    }
}

/// The text that `o` holds, if it holds one.
pub open spec fn option_text(o: Option<String>) -> Option<Seq<char>> {
    match o {
        Some(s) => Some(s@),
        None => None,
    }
}

/// The characters of `s`, in order.
pub fn chars_of(s: &str) -> (v: Vec<char>)
    ensures
        v@ == s@,
{
    let mut v: Vec<char> = Vec::new();
    for c in it: s.chars()
        invariant
            v@ == it.seq().take(it.index() as int),
            it.seq() == s@,
    {
        v.push(c);
    }
    v
}

/// The text `a` followed by the text `b`.
pub fn join(a: &str, b: &str) -> (r: String)
    ensures
        r@ == a@ + b@,
{
    let mut r = String::from_str(a);
    r.append(b);
    r
}

/// The characters of `s` from position `from` up to, not including, `to`.
pub fn slice(s: &str, from: usize, to: usize) -> (r: String)
    requires
        from <= to <= s@.len(),
    ensures
        r@ == s@.subrange(from as int, to as int),
{
    String::from_str(s.substring_char(from, to))
}

/// Whether `pat` stands in `s` at position `i`.
pub fn matches_at(s: &Vec<char>, pat: &Vec<char>, i: usize) -> (b: bool)
    ensures
        b == occurs_at(s@, pat@, i as int),
{
    if pat.len() > s.len() || i > s.len() - pat.len() {
        return false;
    }
    let mut k: usize = 0;
    while k < pat.len()
        invariant
            k <= pat.len(),
            i + pat.len() <= s.len(),
            forall|j: int| 0 <= j < k ==> s@[i + j] == pat@[j],
        decreases pat.len() - k,
    {
        if s[i + k] != pat[k] {
            proof {
                let sub = s@.subrange(i as int, i + pat.len());
                assert(sub[k as int] == s@[i + k]);
            }
            return false;
        }
        k += 1;
    }
    assert(s@.subrange(i as int, i + pat.len()) =~= pat@);
    true
}

/// Whether `s` begins with `prefix`.
pub fn starts_with(s: &str, prefix: &str) -> (b: bool)
    ensures
        b == occurs_at(s@, prefix@, 0),
{
    let sv = chars_of(s);
    let pv = chars_of(prefix);
    matches_at(&sv, &pv, 0)
}

/// Whether `pat` stands somewhere in `s`.
pub fn contains(s: &str, pat: &str) -> (b: bool)
    ensures
        b == occurs(s@, pat@),
{
    let sv = chars_of(s);
    let pv = chars_of(pat);
    if pv.len() > sv.len() {
        assert forall|i: int| !occurs_at(sv@, pv@, i) by {}
        return false;
    }
    if pv.len() == 0 {
        assert(occurs_at(sv@, pv@, 0)) by {
            assert(sv@.subrange(0, 0) =~= pv@);
        }
        return true;
    }
    let last: usize = sv.len() - pv.len();
    let mut i: usize = 0;
    while i <= last
        invariant
            i <= last + 1,
            last == sv.len() - pv.len(),
            last < sv.len(),
            sv@ == s@,
            pv@ == pat@,
            forall|j: int| 0 <= j < i ==> !occurs_at(sv@, pv@, j),
        decreases last + 1 - i,
    {
        if matches_at(&sv, &pv, i) {
            return true;
        }
        i += 1;
    }
    assert forall|j: int| !occurs_at(sv@, pv@, j) by {}
    false
}

/// Whether the character `c` occurs in `s`.
pub fn contains_char(s: &str, c: char) -> (b: bool)
    ensures
        b == s@.contains(c),
{
    find_char(s, c).is_some()
}

/// The first position of `c` in `s`, counted in characters.
pub fn find_char(s: &str, c: char) -> (r: Option<usize>)
    ensures
        r is Some == s@.contains(c),
        r matches Some(i) ==> i < s@.len() && first_index(s@, c) == Some(i as int),
        r is None ==> first_index(s@, c) is None,
{
    let sv = chars_of(s);
    let mut i: usize = 0;
    while i < sv.len()
        invariant
            i <= sv.len(),
            sv@ == s@,
            forall|j: int| 0 <= j < i ==> sv@[j] != c,
        decreases sv.len() - i,
    {
        if sv[i] == c {
            proof {
                assert(is_first_index(s@, c, i as int));
                lemma_first_index_unique(s@, c, i as int);
            }
            return Some(i);
        }
        i += 1;
    }
    assert(!s@.contains(c));
    None
}

/// The last position of `c` in `s`, counted in characters.
pub fn rfind_char(s: &str, c: char) -> (r: Option<usize>)
    ensures
        r is Some == s@.contains(c),
        r matches Some(i) ==> i < s@.len() && last_index(s@, c) == Some(i as int),
        r is None ==> last_index(s@, c) is None,
{
    let sv = chars_of(s);
    let mut i: usize = sv.len();
    while i > 0
        invariant
            i <= sv.len(),
            sv@ == s@,
            forall|j: int| i <= j < sv.len() ==> sv@[j] != c,
        decreases i,
    {
        i -= 1;
        if sv[i] == c {
            proof {
                assert(is_last_index(s@, c, i as int));
                lemma_last_index_unique(s@, c, i as int);
            }
            return Some(i);
        }
    }
    assert(!s@.contains(c));
    None
}

/// Whether every character of `s` is an ASCII decimal digit.
pub fn is_all_digits(s: &str) -> (b: bool)
    ensures
        b == all_digits(s@),
{
    let sv = chars_of(s);
    let mut i: usize = 0;
    while i < sv.len()
        invariant
            i <= sv.len(),
            sv@ == s@,
            forall|j: int| 0 <= j < i ==> '0' <= #[trigger] sv@[j] <= '9',
        decreases sv.len() - i,
    {
        let c = sv[i];
        if !(c >= '0' && c <= '9') {
            return false;
        }
        i += 1;
    }
    true
}

proof fn lemma_trim_start_skip(s: Seq<char>, k: int)
    requires
        0 <= k <= s.len(),
        forall|j: int| 0 <= j < k ==> is_white_space(#[trigger] s[j]),
    ensures
        trim_start(s) == trim_start(s.skip(k)),
    decreases k,
{
    if k > 0 {
        assert(is_white_space(s[0]));
        let t = s.skip(1);
        assert forall|j: int| 0 <= j < k - 1 implies is_white_space(#[trigger] t[j]) by {
            assert(t[j] == s[j + 1]);
        }
        lemma_trim_start_skip(t, k - 1);
        assert(t.skip(k - 1) =~= s.skip(k));
    } else {
        assert(s.skip(0) =~= s);
    }
}

proof fn lemma_trim_end_take(s: Seq<char>, k: int)
    requires
        0 <= k <= s.len(),
        forall|j: int| k <= j < s.len() ==> is_white_space(#[trigger] s[j]),
    ensures
        trim_end(s) == trim_end(s.take(k)),
    decreases s.len() - k,
{
    if k < s.len() {
        assert(is_white_space(s.last()));
        let t = s.drop_last();
        assert forall|j: int| k <= j < t.len() implies is_white_space(#[trigger] t[j]) by {
            assert(t[j] == s[j]);
        }
        lemma_trim_end_take(t, k);
        assert(t.take(k) =~= s.take(k));
    } else {
        assert(s.take(k) =~= s);
    }
}

/// Position `i` is marked in `white`. Positions beyond its end are not.
pub open spec fn marked(white: Seq<bool>, i: int) -> bool {
    0 <= i < white.len() && white[i]
}

/// The first position at or after `i` and below `n` that is not marked; `n`
/// where all of them are.
pub open spec fn lead_from(white: Seq<bool>, i: int, n: int) -> int
    decreases n - i,
{
    if i < n && marked(white, i) {
        lead_from(white, i + 1, n)
    } else {
        i
    }
}

/// The end of the last unmarked position below `j` and at or after `start`;
/// `start` where all of them are marked.
pub open spec fn tail_to(white: Seq<bool>, start: int, j: int) -> int
    decreases j - start,
{
    if j > start && marked(white, j - 1) {
        tail_to(white, start, j - 1)
    } else {
        j
    }
}

/// `s` without the marked characters at its beginning and at its end.
pub open spec fn trimmed_by(s: Seq<char>, white: Seq<bool>) -> Seq<char> {
    let start = lead_from(white, 0, s.len() as int);
    let end = tail_to(white, start, s.len() as int);
    s.subrange(start, end)
}

proof fn lemma_lead_from(white: Seq<bool>, i: int, n: int)
    requires
        0 <= i <= n,
    ensures
        i <= lead_from(white, i, n) <= n,
        forall|j: int| i <= j < lead_from(white, i, n) ==> marked(white, j),
        lead_from(white, i, n) < n ==> !marked(white, lead_from(white, i, n)),
    decreases n - i,
{
    if i < n && marked(white, i) {
        lemma_lead_from(white, i + 1, n);
    }
}

proof fn lemma_tail_to(white: Seq<bool>, start: int, j: int)
    requires
        0 <= start <= j,
    ensures
        start <= tail_to(white, start, j) <= j,
        forall|k: int| tail_to(white, start, j) <= k < j ==> marked(white, k),
        tail_to(white, start, j) > start ==> !marked(white, tail_to(white, start, j) - 1),
    decreases j - start,
{
    if j > start && marked(white, j - 1) {
        lemma_tail_to(white, start, j - 1);
    }
}

/// Where `white` marks exactly the white space of `s`, trimming by it is
/// trimming white space.
pub proof fn lemma_trimmed_by_white_space(s: Seq<char>, white: Seq<bool>)
    requires
        white.len() == s.len(),
        forall|i: int| 0 <= i < s.len() ==> white[i] == is_white_space(#[trigger] s[i]),
    ensures
        trimmed_by(s, white) == trimmed(s),
{
    let n = s.len() as int;
    let start = lead_from(white, 0, n);
    lemma_lead_from(white, 0, n);
    let end = tail_to(white, start, n);
    lemma_tail_to(white, start, n);
    let a = s.skip(start);
    assert forall|j: int| 0 <= j < start implies is_white_space(#[trigger] s[j]) by {
        assert(marked(white, j));
    }
    lemma_trim_start_skip(s, start);
    assert(trim_start(s) == a) by {
        if a.len() > 0 {
            assert(a[0] == s[start]);
        }
    }
    let k = end - start;
    assert forall|j: int| k <= j < a.len() implies is_white_space(#[trigger] a[j]) by {
        assert(a[j] == s[start + j]);
        assert(marked(white, start + j));
    }
    lemma_trim_end_take(a, k);
    let b = a.take(k);
    assert(trim_end(b) == b) by {
        if b.len() > 0 {
            assert(b.last() == s[end - 1]);
        }
    }
    assert(b =~= s.subrange(start, end));
}

/// `s` without the characters at its beginning and at its end that `white`
/// marks; `white[i]` speaks of the character at position `i`.
pub fn trim_marked(s: &str, white: &Vec<bool>) -> (r: String)
    ensures
        r@ == trimmed_by(s@, white@),
{
    let n = s.unicode_len();
    let mut start: usize = 0;
    while start < n && start < white.len() && white[start]
        invariant
            start <= n,
            n == s@.len(),
            lead_from(white@, start as int, n as int) == lead_from(white@, 0, n as int),
        decreases n - start,
    {
        start += 1;
    }
    let mut end: usize = n;
    while end > start && end - 1 < white.len() && white[end - 1]
        invariant
            start <= end <= n,
            n == s@.len(),
            tail_to(white@, start as int, end as int) == tail_to(white@, start as int, n as int),
        decreases end - start,
    {
        end -= 1;
    }
    slice(s, start, end)
}

/// `s` without leading and trailing white space.
pub fn trim(s: &str) -> (r: String)
    ensures
        r@ == trimmed(s@),
{
    let sv = chars_of(s);
    let mut white: Vec<bool> = Vec::new();
    let mut i: usize = 0;
    while i < sv.len()
        invariant
            i <= sv.len(),
            white@.len() == i,
            forall|j: int| 0 <= j < i ==> white@[j] == is_white_space(#[trigger] sv@[j]),
        decreases sv.len() - i,
    {
        white.push(is_whitespace(sv[i]));
        i += 1;
    }
    proof {
        lemma_trimmed_by_white_space(s@, white@);
    }
    trim_marked(s, &white)
}

/// `s` without `prefix` in front, where it begins with it.
pub fn strip_prefix(s: &str, prefix: &str) -> (rest: String)
    ensures
        rest@ == without_prefix(s@, prefix@),
{
    if starts_with(s, prefix) {
        let n = s.unicode_len();
        let m = prefix.unicode_len();
        assert(s@.skip(m as int) =~= s@.subrange(m as int, n as int));
        slice(s, m, n)
    } else {
        String::from_str(s)
    }
}

fn digit_text(d: u64) -> (s: &'static str)
    requires
        d < 10,
    ensures
        s@ == seq![digit(d as nat)],
{
    proof {
        reveal_strlit("0");
        reveal_strlit("1");
        reveal_strlit("2");
        reveal_strlit("3");
        reveal_strlit("4");
        reveal_strlit("5");
        reveal_strlit("6");
        reveal_strlit("7");
        reveal_strlit("8");
        reveal_strlit("9");
    }
    let s = if d == 0 {
        "0"
    } else if d == 1 {
        "1"
    } else if d == 2 {
        "2"
    } else if d == 3 {
        "3"
    } else if d == 4 {
        "4"
    } else if d == 5 {
        "5"
    } else if d == 6 {
        "6"
    } else if d == 7 {
        "7"
    } else if d == 8 {
        "8"
    } else {
        "9"
    };
    assert(s@ =~= seq![digit(d as nat)]);
    s
}

/// `n` written in decimal.
pub fn decimal_text(n: u64) -> (r: String)
    ensures
        r@ == decimal(n as nat),
{
    let mut r = String::from_str(digit_text(n % 10));
    let mut rest: u64 = n / 10;
    proof {
        if n >= 10 {
            assert(decimal(n as nat) =~= decimal(rest as nat) + r@);
        } else {
            assert(decimal(n as nat) =~= r@);
        }
    }
    while rest > 0
        invariant
            rest > 0 ==> decimal(n as nat) == decimal(rest as nat) + r@,
            rest == 0 ==> decimal(n as nat) == r@,
        decreases rest,
    {
        let d = digit_text(rest % 10);
        let t = join(d, r.as_str());
        proof {
            let next = (rest / 10) as nat;
            if rest >= 10 {
                assert(decimal(rest as nat) + r@ =~= decimal(next) + t@);
            } else {
                assert(decimal(rest as nat) + r@ =~= t@);
            }
        }
        r = t;
        rest = rest / 10;
    }
    r
}

} // verus!
