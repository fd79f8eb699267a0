//! Character-level helpers that the rest of the crate builds its text
//! handling on. Every contract speaks of the `Seq<char>` view of a string.

use vstd::prelude::*;
use vstd::std_specs::iter::IteratorSpec;

verus! {

/// Appends one character to a string.
///
/// Trusted: wraps `String::push`, which appends the given `char` to the end
/// of the string.
#[verifier::external_body]
pub(crate) fn push_char(s: &mut String, c: char)
    ensures
        final(s)@ == old(s)@.push(c),
{
    s.push(c)
}

/// The characters of `s`, in order.
pub fn to_chars(s: &str) -> (out: Vec<char>)
    ensures
        out@ == s@,
{
    let mut out: Vec<char> = Vec::new();
    for c in it: s.chars()
        invariant
            it.seq() == s@,
            out@ == s@.subrange(0, it.index() as int),
    {
        out.push(c);
        assert(out@ =~= s@.subrange(0, it.index() + 1));
    }
    assert(out@ =~= s@);
    out
}

/// The string made of the characters `v[from..to]`.
pub fn from_chars(v: &Vec<char>, from: usize, to: usize) -> (out: String)
    requires
        from <= to <= v@.len(),
    ensures
        out@ == v@.subrange(from as int, to as int),
{
    let mut out = String::new();
    let mut i: usize = from;
    while i < to
        invariant
            from <= i <= to <= v@.len(),
            out@ == v@.subrange(from as int, i as int),
        decreases to - i,
    {
        push_char(&mut out, v[i]);
        i += 1;
        assert(out@ =~= v@.subrange(from as int, i as int));
    }
    out
}

/// The string that holds exactly the characters of `v`.
pub fn string_of(v: &Vec<char>) -> (out: String)
    ensures
        out@ == v@,
{
    let out = from_chars(v, 0, v.len());
    assert(v@.subrange(0, v@.len() as int) =~= v@);
    out
}

/// Appends the characters of `v` to `out`.
pub fn push_chars(out: &mut String, v: &Vec<char>)
    ensures
        final(out)@ == old(out)@ + v@,
{
    let mut i: usize = 0;
    while i < v.len()
        invariant
            i <= v@.len(),
            out@ == old(out)@ + v@.subrange(0, i as int),
        decreases v@.len() - i,
    {
        push_char(out, v[i]);
        i += 1;
        assert(out@ =~= old(out)@ + v@.subrange(0, i as int));
    }
    assert(v@.subrange(0, v@.len() as int) =~= v@);
}

/// Whether two character sequences are the same.
pub fn chars_eq(a: &Vec<char>, b: &Vec<char>) -> (same: bool)
    ensures
        same == (a@ == b@),
{
    if a.len() != b.len() {
        return false;
    }
    let mut i: usize = 0;
    while i < a.len()
        invariant
            i <= a@.len(),
            a@.len() == b@.len(),
            forall|k: int| 0 <= k < i ==> a@[k] == b@[k],
        decreases a@.len() - i,
    {
        if a[i] != b[i] {
            return false;
        }
        i += 1;
    }
    assert(a@ =~= b@);
    true
}

/// Whether two strings hold the same characters.
pub fn str_eq(a: &str, b: &str) -> (same: bool)
    ensures
        same == (a@ == b@),
{
    let av = to_chars(a);
    let bv = to_chars(b);
    chars_eq(&av, &bv)
}

/// `a` comes strictly before `b` in the dictionary order of their characters'
/// code points: at the first position where they differ `a` holds the smaller
/// character, or `a` ends there and `b` goes on.
pub open spec fn lex_less(a: Seq<char>, b: Seq<char>) -> bool {
    exists|k: int| lex_less_at(a, b, k)
}

/// `a` and `b` agree on their first `k` characters, and there `a` ends while
/// `b` goes on, or `a` holds the smaller character.
pub open spec fn lex_less_at(a: Seq<char>, b: Seq<char>, k: int) -> bool {
    &&& 0 <= k <= a.len()
    &&& k < b.len()
    &&& a.subrange(0, k) == b.subrange(0, k)
    &&& k < a.len() ==> (a[k] as u32) < (b[k] as u32)
}

/// Decides [`lex_less`] on two strings.
pub fn str_less(a: &str, b: &str) -> (less: bool)
    ensures
        less == lex_less(a@, b@),
{
    let av = to_chars(a);
    let bv = to_chars(b);
    let mut i: usize = 0;
    while i < av.len() && i < bv.len()
        invariant
            i <= av@.len(),
            i <= bv@.len(),
            av@ == a@,
            bv@ == b@,
            av@.subrange(0, i as int) == bv@.subrange(0, i as int),
        decreases av@.len() - i,
    {
        if av[i] != bv[i] {
            proof {
                lemma_lex_decided(a@, b@, i as int);
            }
            return (av[i] as u32) < (bv[i] as u32);
        }
        assert(av@.subrange(0, i + 1) =~= av@.subrange(0, i as int).push(av@[i as int]));
        assert(bv@.subrange(0, i + 1) =~= bv@.subrange(0, i as int).push(bv@[i as int]));
        i += 1;
    }
    proof {
        lemma_lex_decided(a@, b@, i as int);
    }
    i < bv.len()
}

/// Once `a` and `b` agree on their first `k` characters and differ at `k` (or
/// one of them ends there), position `k` alone decides their order.
pub proof fn lemma_lex_decided(a: Seq<char>, b: Seq<char>, k: int)
    requires
        0 <= k <= a.len(),
        k <= b.len(),
        a.subrange(0, k) == b.subrange(0, k),
        k == a.len() || k == b.len() || a[k] != b[k],
    ensures
        lex_less(a, b) == lex_less_at(a, b, k),
{
    if lex_less(a, b) {
        let j = choose|j: int| lex_less_at(a, b, j);
        if j < k {
            assert(a.subrange(0, k)[j] == a[j]);
            assert(b.subrange(0, k)[j] == b[j]);
        } else if j > k {
            assert(a.subrange(0, j)[k] == a[k]);
            assert(b.subrange(0, j)[k] == b[k]);
        }
    }
}

/// `s` ends with the characters of `suffix`.
pub open spec fn has_suffix(s: Seq<char>, suffix: Seq<char>) -> bool {
    suffix.len() <= s.len() && s.subrange(s.len() - suffix.len(), s.len() as int) == suffix
}

/// `needle` stands in `hay` at position `at`.
pub open spec fn occurs_at(hay: Seq<char>, needle: Seq<char>, at: int) -> bool {
    0 <= at && at + needle.len() <= hay.len() && hay.subrange(at, at + needle.len()) == needle
}

/// `needle` stands somewhere in `hay`.
pub open spec fn has_infix(hay: Seq<char>, needle: Seq<char>) -> bool {
    exists|at: int| occurs_at(hay, needle, at)
}

/// Whether `needle` stands in `hay` at position `at`.
pub fn matches_at(hay: &Vec<char>, needle: &Vec<char>, at: usize) -> (found: bool)
    ensures
        found == occurs_at(hay@, needle@, at as int),
{
    if needle.len() > hay.len() || at > hay.len() - needle.len() {
        return false;
    }
    let mut i: usize = 0;
    while i < needle.len()
        invariant
            i <= needle@.len(),
            at + needle@.len() <= hay@.len() <= usize::MAX,
            forall|k: int| 0 <= k < i ==> hay@[at + k] == needle@[k],
        decreases needle@.len() - i,
    {
        if hay[at + i] != needle[i] {
            assert(hay@.subrange(at as int, at + needle@.len())[i as int] == hay@[at + i]);
            return false;
        }
        i += 1;
    }
    assert(hay@.subrange(at as int, at + needle@.len()) =~= needle@);
    true
}

/// `p` is the first position at or after `from` where `needle` stands in
/// `hay`.
pub open spec fn is_first_from(hay: Seq<char>, needle: Seq<char>, from: int, p: int) -> bool {
    &&& from <= p
    &&& occurs_at(hay, needle, p)
    &&& forall|q: int| from <= q < p ==> !occurs_at(hay, needle, q)
}

/// The first position at or after `from` where `needle` stands in `hay`.
pub open spec fn first_from(hay: Seq<char>, needle: Seq<char>, from: int) -> Option<int> {
    if exists|p: int| is_first_from(hay, needle, from, p) {
        Some(choose|p: int| is_first_from(hay, needle, from, p))
    } else {
        None
    }
}

/// There is at most one first position.
pub proof fn lemma_first_from_unique(hay: Seq<char>, needle: Seq<char>, from: int, p: int)
    requires
        is_first_from(hay, needle, from, p),
    ensures
        first_from(hay, needle, from) == Some(p),
{
    let q = choose|q: int| is_first_from(hay, needle, from, q);
    if q < p {
        assert(!occurs_at(hay, needle, q));
    } else if p < q {
        assert(!occurs_at(hay, needle, p));
    }
}

/// The first position at or after `start` where `needle` stands in `hay`.
pub fn find_from(hay: &Vec<char>, needle: &Vec<char>, start: usize) -> (at: Option<usize>)
    ensures
        match at {
            Some(p) => first_from(hay@, needle@, start as int) == Some(p as int) && start <= p
                && p + needle@.len() <= hay@.len(),
            None => first_from(hay@, needle@, start as int) is None,
        },
{
    if start > hay.len() {
        assert forall|p: int| !is_first_from(hay@, needle@, start as int, p) by {}
        return None;
    }
    let mut p: usize = start;
    loop
        invariant
            start <= p <= hay@.len() <= usize::MAX,
            forall|q: int| start <= q < p ==> !occurs_at(hay@, needle@, q),
        decreases hay@.len() - p,
    {
        if matches_at(hay, needle, p) {
            proof {
                lemma_first_from_unique(hay@, needle@, start as int, p as int);
            }
            return Some(p);
        }
        if p == hay.len() {
            assert forall|r: int| !is_first_from(hay@, needle@, start as int, r) by {}
            return None;
        }
        p += 1;
    }
}

/// The first position at or after `from` where `s` holds `c`; the length of
/// `s` where it holds none there.
pub open spec fn first_char_from(s: Seq<char>, c: char, from: int) -> int
    decreases s.len() - from,
{
    if from >= s.len() {
        s.len() as int
    } else if from >= 0 && s[from] == c {
        from
    } else {
        first_char_from(s, c, from + 1)
    }
}

/// The first position at or after `from` where `v` holds `c`.
pub fn find_char_from(v: &Vec<char>, c: char, from: usize) -> (at: usize)
    requires
        from <= v@.len(),
    ensures
        at as int == first_char_from(v@, c, from as int),
        from <= at <= v@.len(),
{
    let mut i: usize = from;
    while i < v.len() && v[i] != c
        invariant
            from <= i <= v@.len(),
            first_char_from(v@, c, from as int) == first_char_from(v@, c, i as int),
        decreases v@.len() - i,
    {
        i += 1;
    }
    i
}

/// Whether `s` ends with `suffix`.
pub fn ends_with(s: &str, suffix: &str) -> (yes: bool)
    ensures
        yes == has_suffix(s@, suffix@),
{
    let sv = to_chars(s);
    let xv = to_chars(suffix);
    if xv.len() > sv.len() {
        return false;
    }
    matches_at(&sv, &xv, sv.len() - xv.len())
}

/// Where `needle` stands somewhere in `hay`, it stands somewhere first.
pub proof fn lemma_infix_has_first(hay: Seq<char>, needle: Seq<char>)
    requires
        has_infix(hay, needle),
    ensures
        first_from(hay, needle, 0) is Some,
{
    let at = choose|at: int| occurs_at(hay, needle, at);
    lemma_first_below(hay, needle, at, at);
}

/// Where `needle` stands at `at`, a first position at or after 0 exists:
/// found by looking at ever smaller positions below `bound`.
proof fn lemma_first_below(hay: Seq<char>, needle: Seq<char>, at: int, bound: int)
    requires
        occurs_at(hay, needle, at),
        0 <= bound <= at,
        forall|q: int| bound <= q < at ==> !occurs_at(hay, needle, q),
    ensures
        first_from(hay, needle, 0) is Some,
    decreases bound,
{
    if bound == 0 {
        assert(is_first_from(hay, needle, 0, at));
    } else if occurs_at(hay, needle, bound - 1) {
        lemma_first_below(hay, needle, bound - 1, bound - 1);
    } else {
        lemma_first_below(hay, needle, at, bound - 1);
    }
}

/// Whether `needle` stands somewhere in `hay`.
pub fn contains(hay: &str, needle: &str) -> (yes: bool)
    ensures
        yes == has_infix(hay@, needle@),
{
    let hv = to_chars(hay);
    let nv = to_chars(needle);
    let found = find_from(&hv, &nv, 0);
    proof {
        if has_infix(hay@, needle@) {
            lemma_infix_has_first(hay@, needle@);
        }
    }
    found.is_some()
}

/// The position just behind the last `sep` in `s`, or 0 where `s` holds none.
pub open spec fn last_segment_start(s: Seq<char>, sep: char) -> int
    decreases s.len(),
{
    if s.len() == 0 {
        0
    } else if s.last() == sep {
        s.len() as int
    } else {
        last_segment_start(s.drop_last(), sep)
    }
}

/// The part of `s` behind its last `sep`; all of `s` where it holds none.
pub open spec fn last_segment(s: Seq<char>, sep: char) -> Seq<char> {
    s.subrange(last_segment_start(s, sep), s.len() as int)
}

/// What [`last_segment_start`] is: no `sep` stands at or behind it, and one
/// stands just before it unless it is 0.
pub proof fn lemma_last_segment_start(s: Seq<char>, sep: char)
    ensures
        0 <= last_segment_start(s, sep) <= s.len(),
        forall|k: int| last_segment_start(s, sep) <= k < s.len() ==> s[k] != sep,
        last_segment_start(s, sep) > 0 ==> s[last_segment_start(s, sep) - 1] == sep,
        last_segment_start(s, sep) == 0 ==> !s.contains(sep),
    decreases s.len(),
{
    if s.len() > 0 && s.last() != sep {
        lemma_last_segment_start(s.drop_last(), sep);
        assert forall|k: int| last_segment_start(s, sep) <= k < s.len() implies s[k] != sep by {
            if k < s.len() - 1 {
                assert(s.drop_last()[k] == s[k]);
            }
        }
        if last_segment_start(s, sep) == 0 {
            if s.contains(sep) {
                let k = choose|k: int| 0 <= k < s.len() && s[k] == sep;
                assert(s.drop_last()[k] == sep);
            }
        }
    }
}

/// The part of `s` behind its last `sep`, as a string of its own.
pub fn last_segment_of(s: &str, sep: char) -> (out: String)
    ensures
        out@ == last_segment(s@, sep),
{
    let sv = to_chars(s);
    let mut start: usize = sv.len();
    proof {
        lemma_last_segment_start(sv@, sep);
    }
    let mut found = false;
    while start > 0 && !found
        invariant
            start <= sv@.len(),
            forall|k: int| start <= k < sv@.len() ==> sv@[k] != sep,
            found ==> start > 0 && sv@[start - 1] == sep,
        decreases start + (if found { 0int } else { 1int }),
    {
        if sv[start - 1] == sep {
            found = true;
        } else {
            start -= 1;
        }
    }
    assert(start as int == last_segment_start(sv@, sep)) by {
        let t = last_segment_start(sv@, sep);
        if t > start {
            assert(sv@[t - 1] == sep);
        } else if t < start {
            assert(sv@[start - 1] == sep);
        }
    }
    from_chars(&sv, start, sv.len())
}

/// The character that writes the digit `d`.
pub open spec fn digit_char(d: int) -> char {
    if d == 0 {
        '0'
    } else if d == 1 {
        '1'
    } else if d == 2 {
        '2'
    } else if d == 3 {
        '3'
    } else if d == 4 {
        '4'
    } else if d == 5 {
        '5'
    } else if d == 6 {
        '6'
    } else if d == 7 {
        '7'
    } else if d == 8 {
        '8'
    } else {
        '9'
    }
}

/// The decimal numeral of `n`, without leading zeros.
pub open spec fn decimal(n: nat) -> Seq<char>
    decreases n,
{
    if n < 10 {
        seq![digit_char(n as int)]
    } else {
        decimal(n / 10).push(digit_char((n % 10) as int))
    }
}

/// The decimal numeral of a signed number: a minus sign before the numeral of
/// its magnitude where it is negative.
pub open spec fn signed_decimal(n: int) -> Seq<char> {
    if n < 0 {
        seq!['-'] + decimal((-n) as nat)
    } else {
        decimal(n as nat)
    }
}

fn digit_of(d: u64) -> (c: char)
    requires
        d < 10,
    ensures
        c == digit_char(d as int),
{
    if d == 0 {
        '0'
    } else if d == 1 {
        '1'
    } else if d == 2 {
        '2'
    } else if d == 3 {
        '3'
    } else if d == 4 {
        '4'
    } else if d == 5 {
        '5'
    } else if d == 6 {
        '6'
    } else if d == 7 {
        '7'
    } else if d == 8 {
        '8'
    } else {
        '9'
    }
}

/// The characters of the decimal numeral of `n`.
pub fn decimal_chars(n: u64) -> (out: Vec<char>)
    ensures
        out@ == decimal(n as nat),
    decreases n,
{
    if n < 10 {
        let mut out: Vec<char> = Vec::new();
        out.push(digit_of(n));
        assert(out@ =~= seq![digit_char(n as int)]);
        out
    } else {
        let mut out = decimal_chars(n / 10);
        out.push(digit_of(n % 10));
        out
    }
}

/// Writes `n` as a decimal numeral.
pub fn decimal_string(n: u64) -> (out: String)
    ensures
        out@ == decimal(n as nat),
{
    let digits = decimal_chars(n);
    string_of(&digits)
}

/// Writes a signed number as a decimal numeral.
pub fn signed_decimal_string(n: i64) -> (out: String)
    ensures
        out@ == signed_decimal(n as int),
{
    if n < 0 {
        let magnitude: u64 = if n == i64::MIN {
            9223372036854775808u64
        } else {
            (-n) as u64
        };
        let digits = decimal_chars(magnitude);
        let mut out = String::new();
        push_char(&mut out, '-');
        push_chars(&mut out, &digits);
        assert(out@ =~= seq!['-'] + decimal((-n) as nat));
        out
    } else {
        decimal_string(n as u64)
    }
}

/// The digit that `c` writes, if it is one of `0` to `9`.
pub open spec fn digit_value(c: char) -> Option<nat> {
    if c == '0' {
        Some(0)
    } else if c == '1' {
        Some(1)
    } else if c == '2' {
        Some(2)
    } else if c == '3' {
        Some(3)
    } else if c == '4' {
        Some(4)
    } else if c == '5' {
        Some(5)
    } else if c == '6' {
        Some(6)
    } else if c == '7' {
        Some(7)
    } else if c == '8' {
        Some(8)
    } else if c == '9' {
        Some(9)
    } else {
        None
    }
}

/// Every character of `s` is a decimal digit.
pub open spec fn all_digits(s: Seq<char>) -> bool {
    forall|k: int| 0 <= k < s.len() ==> (#[trigger] digit_value(s[k])) is Some
}

/// The number that a run of digits writes, leading zeros allowed; 0 for the
/// empty run.
pub open spec fn digits_number(s: Seq<char>) -> nat
    decreases s.len(),
{
    if s.len() == 0 {
        0
    } else {
        match digit_value(s.last()) {
            Some(d) => digits_number(s.drop_last()) * 10 + d,
            None => 0,
        }
    }
}

/// What a numeral means as an unsigned number of at most `max`: the digits'
/// number where `s` is a non-empty run of digits that writes no more than
/// `max`, nothing otherwise.
pub open spec fn unsigned_of(s: Seq<char>, max: nat) -> Option<nat> {
    if s.len() > 0 && all_digits(s) && digits_number(s) <= max {
        Some(digits_number(s))
    } else {
        None
    }
}

fn value_of(c: char) -> (d: Option<u64>)
    ensures
        match d {
            Some(v) => digit_value(c) == Some(v as nat) && v < 10,
            None => digit_value(c) is None,
        },
{
    if c == '0' {
        Some(0)
    } else if c == '1' {
        Some(1)
    } else if c == '2' {
        Some(2)
    } else if c == '3' {
        Some(3)
    } else if c == '4' {
        Some(4)
    } else if c == '5' {
        Some(5)
    } else if c == '6' {
        Some(6)
    } else if c == '7' {
        Some(7)
    } else if c == '8' {
        Some(8)
    } else if c == '9' {
        Some(9)
    } else {
        None
    }
}

/// A longer run of digits writes no smaller number than each of its prefixes.
pub proof fn lemma_digits_number_grows(s: Seq<char>, k: int)
    requires
        0 <= k <= s.len(),
        all_digits(s),
    ensures
        digits_number(s.subrange(0, k)) <= digits_number(s),
    decreases s.len() - k,
{
    if k == s.len() {
        assert(s.subrange(0, k) =~= s);
    } else {
        assert(digit_value(s[s.len() - 1]) is Some);
        assert(all_digits(s.drop_last())) by {
            assert forall|j: int| 0 <= j < s.drop_last().len() implies (#[trigger] digit_value(
                s.drop_last()[j],
            )) is Some by {
                assert(digit_value(s[j]) is Some);
            }
        }
        lemma_digits_number_grows(s.drop_last(), k);
        assert(s.drop_last().subrange(0, k) =~= s.subrange(0, k));
    }
}

/// Reads the characters `v[from..]` as an unsigned decimal numeral of at most
/// `max`.
pub fn parse_unsigned(v: &Vec<char>, from: usize, max: u64) -> (out: Option<u64>)
    requires
        from <= v@.len(),
    ensures
        match out {
            Some(n) => unsigned_of(v@.subrange(from as int, v@.len() as int), max as nat) == Some(
                n as nat,
            ),
            None => unsigned_of(v@.subrange(from as int, v@.len() as int), max as nat) is None,
        },
{
    let ghost s = v@.subrange(from as int, v@.len() as int);
    if from == v.len() {
        return None;
    }
    let mut acc: u64 = 0;
    let mut i: usize = from;
    while i < v.len()
        invariant
            from <= i <= v@.len(),
            s == v@.subrange(from as int, v@.len() as int),
            all_digits(s.subrange(0, i - from)),
            acc as nat == digits_number(s.subrange(0, i - from)),
            acc <= max,
        decreases v@.len() - i,
    {
        let ghost prefix = s.subrange(0, i - from);
        let ghost next = s.subrange(0, i + 1 - from);
        proof {
            assert(next.drop_last() =~= prefix);
            assert(next.last() == v@[i as int]);
        }
        match value_of(v[i]) {
            None => {
                proof {
                    assert(digit_value(s[i - from]) is None);
                }
                return None;
            },
            Some(d) => {
                proof {
                    assert forall|k: int| 0 <= k < next.len() implies (#[trigger] digit_value(
                        next[k],
                    )) is Some by {
                        if k < prefix.len() {
                            assert(digit_value(prefix[k]) is Some);
                        }
                    }
                }
                if acc > max / 10 || (acc == max / 10 && d > max % 10) {
                    proof {
                        assert(digits_number(next) > max);
                        if all_digits(s) {
                            lemma_digits_number_grows(s, i + 1 - from);
                        }
                    }
                    return None;
                }
                acc = acc * 10 + d;
            },
        }
        i += 1;
    }
    proof {
        assert(s.subrange(0, s.len() as int) =~= s);
    }
    Some(acc)
}

/// What a numeral means as a 32-bit unsigned number: one plus sign may come
/// before the digits.
pub open spec fn u32_of(s: Seq<char>) -> Option<nat> {
    if s.len() > 0 && s[0] == '+' {
        unsigned_of(s.subrange(1, s.len() as int), u32::MAX as nat)
    } else {
        unsigned_of(s, u32::MAX as nat)
    }
}

/// Reads a string as a 32-bit unsigned decimal numeral.
pub fn parse_u32(s: &str) -> (out: Option<u32>)
    ensures
        match out {
            Some(n) => u32_of(s@) == Some(n as nat),
            None => u32_of(s@) is None,
        },
{
    let v = to_chars(s);
    let from: usize = if v.len() > 0 && v[0] == '+' {
        1
    } else {
        0
    };
    proof {
        assert(v@.subrange(0, v@.len() as int) =~= v@);
    }
    match parse_unsigned(&v, from, 4294967295u64) {
        Some(n) => Some(n as u32),
        None => None,
    }
}

/// What a numeral means as a signed number between `-below` and `max`: a
/// minus sign may come before the digits.
pub open spec fn signed_of(s: Seq<char>, below: nat, max: nat) -> Option<int> {
    if s.len() > 0 && s[0] == '-' {
        match unsigned_of(s.subrange(1, s.len() as int), below) {
            Some(n) => Some(-(n as int)),
            None => None,
        }
    } else {
        match unsigned_of(s, max) {
            Some(n) => Some(n as int),
            None => None,
        }
    }
}

/// Reads a string as a 32-bit signed decimal numeral.
pub fn parse_i32(s: &str) -> (out: Option<i32>)
    ensures
        match out {
            Some(n) => signed_of(s@, 2147483648, 2147483647) == Some(n as int),
            None => signed_of(s@, 2147483648, 2147483647) is None,
        },
{
    let v = to_chars(s);
    proof {
        assert(v@.subrange(0, v@.len() as int) =~= v@);
    }
    if v.len() > 0 && v[0] == '-' {
        match parse_unsigned(&v, 1, 2147483648u64) {
            Some(n) => {
                let m: i64 = 0 - (n as i64);
                Some(m as i32)
            },
            None => None,
        }
    } else {
        match parse_unsigned(&v, 0, 2147483647u64) {
            Some(n) => Some(n as i32),
            None => None,
        }
    }
}

} // verus!
