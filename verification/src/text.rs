//! Text as sequences of characters: conversion between `String` and `Vec<char>`,
//! trimming, literal replacement, and decimal integers.
//!
//! Every contract here is stated over `Seq<char>`, the view of a string.

use vstd::prelude::*;
use vstd::std_specs::iter::IteratorSpec;

verus! {

/// `String::push` appends one character to the end of the string.
pub assume_specification[ String::push ](s: &mut String, c: char)
    ensures
        final(s)@ == old(s)@.push(c),
;

/// The characters of `s`, in order.
pub fn chars_of(s: &str) -> (r: Vec<char>)
    ensures
        r@ == s@,
{
    let mut out: Vec<char> = Vec::new();
    let chars = s.chars();
    for c in it: chars
        invariant
            out@ == it.seq().take(it.index() as int),
    {
        out.push(c);
    }
    out
}

/// The string made of the characters `v[from..to]`.
pub fn string_of_range(v: &Vec<char>, from: usize, to: usize) -> (r: String)
    requires
        from <= to <= v.len(),
    ensures
        r@ == v@.subrange(from as int, to as int),
{
    let mut out = String::new();
    let mut i: usize = from;
    while i < to
        invariant
            from <= i <= to <= v.len(),
            out@ == v@.subrange(from as int, i as int),
        decreases to - i,
    {
        out.push(v[i]);
        i += 1;
    }
    out
}

/// The string made of the characters of `v`, in order.
pub fn string_of(v: &Vec<char>) -> (r: String)
    ensures
        r@ == v@,
{
    let r = string_of_range(v, 0, v.len());
    assert(v@.subrange(0, v@.len() as int) == v@);
    r
}

/// Whether `text` occurs in `s` starting at index `at`.
pub open spec fn occurs_at(s: Seq<char>, at: int, text: Seq<char>) -> bool {
    &&& 0 <= at
    &&& at + text.len() <= s.len()
    &&& s.subrange(at, at + text.len()) == text
}

/// Decides `occurs_at`.
pub fn matches_at(s: &Vec<char>, at: usize, text: &Vec<char>) -> (r: bool)
    ensures
        r == occurs_at(s@, at as int, text@),
{
    if at > s.len() || text.len() > s.len() - at {
        return false;
    }
    let mut k: usize = 0;
    while k < text.len()
        invariant
            at + text.len() <= s.len(),
            k <= text.len(),
            forall|j: int| 0 <= j < k ==> s@[at + j] == text@[j],
        decreases text.len() - k,
    {
        if s[at + k] != text[k] {
            assert(s@.subrange(at as int, at + text@.len())[k as int] != text@[k as int]);
            return false;
        }
        k += 1;
    }
    assert(s@.subrange(at as int, at + text@.len()) =~= text@);
    true
}

/// `s` with every occurrence of the text `from` replaced by `to`. Occurrences are
/// found from left to right and do not overlap. An empty `from` occurs nowhere.
pub open spec fn replace_all(s: Seq<char>, from: Seq<char>, to: Seq<char>) -> Seq<char>
    decreases s.len(),
{
    if s.len() == 0 || from.len() == 0 {
        s
    } else if occurs_at(s, 0, from) {
        to + replace_all(s.skip(from.len() as int), from, to)
    } else {
        seq![s[0]] + replace_all(s.skip(1), from, to)
    }
}

/// Computes `replace_all`.
pub fn replace_chars(s: &Vec<char>, from: &Vec<char>, to: &Vec<char>) -> (r: Vec<char>)
    ensures
        r@ == replace_all(s@, from@, to@),
{
    let mut out: Vec<char> = Vec::new();
    if from.len() == 0 {
        push_all(&mut out, s);
        assert(Seq::<char>::empty() + s@ == s@);
        return out;
    }
    let mut i: usize = 0;
    assert(s@.skip(0) == s@);
    while i < s.len()
        invariant
            i <= s.len(),
            from.len() > 0,
            replace_all(s@, from@, to@) == out@ + replace_all(s@.skip(i as int), from@, to@),
        decreases s.len() - i,
    {
        let ghost rest = s@.skip(i as int);
        let ghost before = out@;
        if matches_at(s, i, from) {
            assert(rest.subrange(0, from@.len() as int) == s@.subrange(
                i as int,
                i + from@.len(),
            ));
            let mut k: usize = 0;
            while k < to.len()
                invariant
                    k <= to.len(),
                    out@ == before + to@.take(k as int),
                decreases to.len() - k,
            {
                out.push(to[k]);
                k += 1;
            }
            assert(to@.take(to@.len() as int) == to@);
            assert(rest.skip(from@.len() as int) == s@.skip(i + from@.len()));
            i += from.len();
        } else {
            assert(!occurs_at(rest, 0, from@)) by {
                if i + from@.len() <= s@.len() {
                    assert(rest.subrange(0, from@.len() as int) == s@.subrange(
                        i as int,
                        i + from@.len(),
                    ));
                }
            }
            out.push(s[i]);
            assert(rest.skip(1) == s@.skip(i + 1));
            assert(out@ == before + seq![rest[0]]);
            i += 1;
        }
    }
    assert(out@ + Seq::<char>::empty() == out@);
    out
}

/// The code points that carry the Unicode property `White_Space`.
pub open spec fn is_white_space(c: char) -> bool {
    let u = c as u32;
    ||| 0x09 <= u <= 0x0D
    ||| u == 0x20
    ||| u == 0x85
    ||| u == 0xA0
    ||| u == 0x1680
    ||| 0x2000 <= u <= 0x200A
    ||| u == 0x2028
    ||| u == 0x2029
    ||| u == 0x202F
    ||| u == 0x205F
    ||| u == 0x3000
}

/// Decides `is_white_space`.
pub fn white_space(c: char) -> (r: bool)
    ensures
        r == is_white_space(c),
{
    let u: u32 = c as u32;
    (0x09 <= u && u <= 0x0D) || u == 0x20 || u == 0x85 || u == 0xA0 || u == 0x1680 || (0x2000 <= u
        && u <= 0x200A) || u == 0x2028 || u == 0x2029 || u == 0x202F || u == 0x205F || u == 0x3000
}

/// Index of the first character of `s` that is not white space, or `s.len()`.
pub open spec fn trim_start_index(s: Seq<char>) -> int
    decreases s.len(),
{
    if s.len() > 0 && is_white_space(s[0]) {
        1 + trim_start_index(s.skip(1))
    } else {
        0
    }
}

/// Length of `s` up to and including its last character that is not white space.
pub open spec fn trim_end_index(s: Seq<char>) -> int
    decreases s.len(),
{
    if s.len() > 0 && is_white_space(s.last()) {
        trim_end_index(s.drop_last())
    } else {
        s.len() as int
    }
}

/// `s` without its leading and trailing white space.
pub open spec fn trimmed(s: Seq<char>) -> Seq<char> {
    let rest = s.skip(trim_start_index(s));
    rest.take(trim_end_index(rest))
}

/// A first index with only white space before it and none at it is the trim start.
proof fn lemma_trim_start_is(s: Seq<char>, k: int)
    requires
        0 <= k <= s.len(),
        forall|j: int| 0 <= j < k ==> is_white_space(s[j]),
        k < s.len() ==> !is_white_space(s[k]),
    ensures
        trim_start_index(s) == k,
    decreases s.len(),
{
    if s.len() > 0 && is_white_space(s[0]) {
        assert(k > 0);
        assert forall|j: int| 0 <= j < k - 1 implies is_white_space(s.skip(1)[j]) by {
            assert(s.skip(1)[j] == s[j + 1]);
        }
        if k - 1 < s.skip(1).len() {
            assert(s.skip(1)[k - 1] == s[k]);
        }
        lemma_trim_start_is(s.skip(1), k - 1);
    } else {
        if k > 0 {
            assert(is_white_space(s[0]));
        }
    }
}

/// A last index with only white space from it on and none before it is the trim end.
proof fn lemma_trim_end_is(s: Seq<char>, k: int)
    requires
        0 <= k <= s.len(),
        forall|j: int| k <= j < s.len() ==> is_white_space(s[j]),
        k > 0 ==> !is_white_space(s[k - 1]),
    ensures
        trim_end_index(s) == k,
    decreases s.len(),
{
    if s.len() > 0 && is_white_space(s.last()) {
        assert(k < s.len());
        assert forall|j: int| k <= j < s.drop_last().len() implies is_white_space(
            s.drop_last()[j],
        ) by {
            assert(s.drop_last()[j] == s[j]);
        }
        if k > 0 {
            assert(s.drop_last()[k - 1] == s[k - 1]);
        }
        lemma_trim_end_is(s.drop_last(), k);
    } else {
        if k < s.len() {
            assert(is_white_space(s[s.len() - 1]));
        }
    }
}

/// Text that neither begins nor ends with white space is its own trimmed form.
pub proof fn lemma_trimmed_identity(s: Seq<char>)
    requires
        s.len() > 0,
        !is_white_space(s[0]),
        !is_white_space(s.last()),
    ensures
        trimmed(s) == s,
{
    lemma_trim_start_is(s, 0);
    assert(s.skip(0) == s);
    lemma_trim_end_is(s, s.len() as int);
    assert(s.take(s.len() as int) == s);
}

/// The characters of `s` without leading and trailing white space.
pub fn trim_chars(s: &Vec<char>) -> (r: Vec<char>)
    ensures
        r@ == trimmed(s@),
{
    let mut start: usize = 0;
    while start < s.len() && white_space(s[start])
        invariant
            start <= s.len(),
            forall|j: int| 0 <= j < start ==> is_white_space(s@[j]),
        decreases s.len() - start,
    {
        start += 1;
    }
    let mut end: usize = s.len();
    while end > start && white_space(s[end - 1])
        invariant
            start <= end <= s.len(),
            forall|j: int| end <= j < s.len() ==> is_white_space(s@[j]),
        decreases end,
    {
        end -= 1;
    }
    let mut out: Vec<char> = Vec::new();
    let mut i: usize = start;
    while i < end
        invariant
            start <= i <= end <= s.len(),
            out@ == s@.subrange(start as int, i as int),
        decreases end - i,
    {
        out.push(s[i]);
        i += 1;
    }
    proof {
        lemma_trim_start_is(s@, start as int);
        let rest = s@.skip(start as int);
        assert forall|j: int| end - start <= j < rest.len() implies is_white_space(rest[j]) by {
            assert(rest[j] == s@[j + start]);
        }
        if end > start {
            assert(rest[end - start - 1] == s@[end - 1]);
        }
        lemma_trim_end_is(rest, end - start);
        assert(rest.take(end - start) == s@.subrange(start as int, end as int));
    }
    out
}

/// Whether `c` is one of the ten ASCII digits.
pub open spec fn is_digit(c: char) -> bool {
    '0' <= c && c <= '9'
}

/// The number that the digit `c` stands for.
pub open spec fn digit_value(c: char) -> nat {
    (c as u32 - '0' as u32) as nat
}

/// Whether `s` holds ASCII digits only.
pub open spec fn all_digits(s: Seq<char>) -> bool {
    forall|i: int| 0 <= i < s.len() ==> is_digit(#[trigger] s[i])
}

/// The number that the digit string `s` stands for in base ten; 0 for the empty string.
pub open spec fn digits_value(s: Seq<char>) -> nat
    decreases s.len(),
{
    if s.len() == 0 {
        0
    } else {
        digits_value(s.drop_last()) * 10 + digit_value(s.last())
    }
}

/// The value of an unsigned decimal numeral that is at most `limit`:
/// one or more digits and nothing else.
pub open spec fn bounded_numeral(s: Seq<char>, limit: nat) -> Option<nat> {
    if s.len() > 0 && all_digits(s) && digits_value(s) <= limit {
        Some(digits_value(s))
    } else {
        None
    }
}

/// The value of a decimal `i64` numeral: an optional sign, `+` or `-`, then one or
/// more digits, the number within the range of `i64`.
pub open spec fn parse_i64(s: Seq<char>) -> Option<i64> {
    if s.len() > 0 && s[0] == '-' {
        match bounded_numeral(s.skip(1), 0x8000_0000_0000_0000) {
            Some(v) => Some((-(v as int)) as i64),
            None => None,
        }
    } else if s.len() > 0 && s[0] == '+' {
        match bounded_numeral(s.skip(1), 0x7fff_ffff_ffff_ffff) {
            Some(v) => Some(v as i64),
            None => None,
        }
    } else {
        match bounded_numeral(s, 0x7fff_ffff_ffff_ffff) {
            Some(v) => Some(v as i64),
            None => None,
        }
    }
}

/// The value of a decimal `u32` numeral: an optional `+`, then one or more digits,
/// the number within the range of `u32`.
pub open spec fn parse_u32(s: Seq<char>) -> Option<u32> {
    if s.len() > 0 && s[0] == '+' {
        match bounded_numeral(s.skip(1), 0xffff_ffff) {
            Some(v) => Some(v as u32),
            None => None,
        }
    } else {
        match bounded_numeral(s, 0xffff_ffff) {
            Some(v) => Some(v as u32),
            None => None,
        }
    }
}

/// The value of a decimal `u64` numeral: an optional `+`, then one or more digits,
/// the number within the range of `u64`.
pub open spec fn parse_u64(s: Seq<char>) -> Option<u64> {
    if s.len() > 0 && s[0] == '+' {
        match bounded_numeral(s.skip(1), 0xffff_ffff_ffff_ffff) {
            Some(v) => Some(v as u64),
            None => None,
        }
    } else {
        match bounded_numeral(s, 0xffff_ffff_ffff_ffff) {
            Some(v) => Some(v as u64),
            None => None,
        }
    }
}

/// A digit string is worth at least as much as any of its prefixes.
pub proof fn lemma_digits_value_prefix(s: Seq<char>, k: int)
    requires
        0 <= k <= s.len(),
    ensures
        digits_value(s.take(k)) <= digits_value(s),
    decreases s.len() - k,
{
    if k == s.len() {
        assert(s.take(k) == s);
    } else {
        lemma_digits_value_prefix(s, k + 1);
        assert(s.take(k + 1).drop_last() == s.take(k));
    }
}

/// A string of `n` digits is worth less than ten to the `n`.
pub proof fn lemma_digits_value_bound(s: Seq<char>)
    requires
        all_digits(s),
    ensures
        digits_value(s) < pow10(s.len()),
    decreases s.len(),
{
    if s.len() > 0 {
        assert(all_digits(s.drop_last())) by {
            assert forall|i: int| 0 <= i < s.drop_last().len() implies is_digit(
                #[trigger] s.drop_last()[i],
            ) by {
                assert(s.drop_last()[i] == s[i]);
            }
        }
        lemma_digits_value_bound(s.drop_last());
        assert(is_digit(s[s.len() - 1]));
    }
}

/// Ten to the power `e`.
pub open spec fn pow10(e: nat) -> nat
    decreases e,
{
    if e == 0 {
        1
    } else {
        10 * pow10((e - 1) as nat)
    }
}

/// Ten to a smaller power is no greater.
pub proof fn lemma_pow10_monotone(a: nat, b: nat)
    requires
        a <= b,
    ensures
        pow10(a) <= pow10(b),
        pow10(a) > 0,
    decreases b,
{
    if a < b {
        lemma_pow10_monotone(a, (b - 1) as nat);
    } else if a > 0 {
        lemma_pow10_monotone((a - 1) as nat, (a - 1) as nat);
    }
}

/// Ten to the `a` times ten to the `b` is ten to the `a + b`.
pub proof fn lemma_pow10_add(a: nat, b: nat)
    ensures
        pow10(a) * pow10(b) == pow10(a + b),
    decreases a,
{
    if a == 0 {
        assert(pow10(0) == 1);
        assert(a + b == b);
    } else {
        let a1 = (a - 1) as nat;
        lemma_pow10_add(a1, b);
        let x = pow10(a1);
        let y = pow10(b);
        assert(pow10(a) == 10 * x);
        assert(a1 + b == (a + b - 1) as nat);
        assert(pow10(a + b) == 10 * pow10(a1 + b));
        assert((10 * x) * y == 10 * (x * y)) by (nonlinear_arith);
    }
}

/// The value of a digit string is that of its head, shifted left by the length of
/// its tail, plus that of its tail.
pub proof fn lemma_digits_value_split(s: Seq<char>, k: int)
    requires
        0 <= k <= s.len(),
    ensures
        digits_value(s) == digits_value(s.take(k)) * pow10((s.len() - k) as nat) + digits_value(
            s.skip(k),
        ),
    decreases s.len() - k,
{
    let n = s.len() as int;
    let whole = digits_value(s) as int;
    let head = digits_value(s.take(k)) as int;
    let tail = digits_value(s.skip(k)) as int;
    let shift = pow10((n - k) as nat) as int;
    if k == n {
        assert(s.take(k) == s);
        assert(s.skip(k).len() == 0);
        assert(head == whole);
        assert(tail == 0);
        assert(shift == 1);
        assert(head * shift == whole) by (nonlinear_arith)
            requires
                head == whole,
                shift == 1,
        ;
    } else {
        let front = s.drop_last();
        let last = digit_value(s.last()) as int;
        let front_tail = digits_value(front.skip(k)) as int;
        let front_shift = pow10((n - 1 - k) as nat) as int;
        lemma_digits_value_split(front, k);
        assert(front.len() == n - 1);
        assert(front.take(k) == s.take(k));
        assert(front.skip(k) == s.skip(k).drop_last());
        assert(s.skip(k).len() > 0);
        assert(s.skip(k).last() == s.last());
        // the value of the front, by induction
        let front_whole = digits_value(front) as int;
        assert(front_whole == digits_value(front.take(k)) * pow10((front.len() - k) as nat)
            + digits_value(front.skip(k)));
        assert(digits_value(front.take(k)) == head);
        assert(pow10((front.len() - k) as nat) == front_shift);
        assert(front_whole == head * front_shift + front_tail);
        // one more digit on the whole and on the tail
        assert(whole == front_whole * 10 + last);
        assert(tail == front_tail * 10 + last);
        assert(shift == 10 * front_shift);
        assert(head * shift == (head * front_shift) * 10) by (nonlinear_arith)
            requires
                shift == 10 * front_shift,
        ;
        assert(whole == head * shift + tail);
    }
    assert(digits_value(s.take(k)) * pow10((s.len() - k) as nat) == head * shift);
}

/// Reads the digits `v[from..to]` as a number no greater than `limit`.
pub fn numeral_in(v: &Vec<char>, from: usize, to: usize, limit: u64) -> (r: Option<u64>)
    requires
        from <= to <= v.len(),
    ensures
        r matches Some(n) ==> bounded_numeral(v@.subrange(from as int, to as int), limit as nat)
            == Some(n as nat),
        r is None ==> bounded_numeral(v@.subrange(from as int, to as int), limit as nat) is None,
{
    let ghost sub = v@.subrange(from as int, to as int);
    if from == to {
        return None;
    }
    let mut acc: u64 = 0;
    let mut i: usize = from;
    assert(sub.take(0) == Seq::<char>::empty());
    while i < to
        invariant
            from <= i <= to <= v.len(),
            sub == v@.subrange(from as int, to as int),
            all_digits(sub.take(i - from)),
            acc == digits_value(sub.take(i - from)),
            acc <= limit,
        decreases to - i,
    {
        let c = v[i];
        if !('0' <= c && c <= '9') {
            assert(!is_digit(sub[i - from]));
            return None;
        }
        let d: u64 = (c as u32 - '0' as u32) as u64;
        let ghost next = sub.take(i - from + 1);
        proof {
            assert(next.drop_last() == sub.take(i - from));
            assert(next.last() == c);
            assert(all_digits(next)) by {
                assert forall|j: int| 0 <= j < next.len() implies is_digit(#[trigger] next[j]) by {
                    if j < i - from {
                        assert(next[j] == sub.take(i - from)[j]);
                    }
                }
            }
            lemma_digits_value_prefix(sub, i - from + 1);
        }
        if d > limit || acc > (limit - d) / 10 {
            assert(digits_value(next) > limit);
            return None;
        }
        acc = acc * 10 + d;
        i += 1;
    }
    assert(sub.take(to - from) == sub);
    Some(acc)
}

/// Reads `v[from..to]` as a decimal `i64` numeral.
pub fn read_i64(v: &Vec<char>, from: usize, to: usize) -> (r: Option<i64>)
    requires
        from <= to <= v.len(),
    ensures
        r == parse_i64(v@.subrange(from as int, to as int)),
{
    let ghost sub = v@.subrange(from as int, to as int);
    if from < to && v[from] == '-' {
        assert(sub[0] == v@[from as int]);
        assert(sub.skip(1) == v@.subrange(from + 1, to as int));
        match numeral_in(v, from + 1, to, 0x8000_0000_0000_0000) {
            Some(n) => {
                if n == 0x8000_0000_0000_0000 {
                    Some(i64::MIN)
                } else {
                    Some(-(n as i64))
                }
            },
            None => None,
        }
    } else if from < to && v[from] == '+' {
        assert(sub[0] == v@[from as int]);
        assert(sub.skip(1) == v@.subrange(from + 1, to as int));
        match numeral_in(v, from + 1, to, 0x7fff_ffff_ffff_ffff) {
            Some(n) => Some(n as i64),
            None => None,
        }
    } else {
        if from < to {
            assert(sub[0] == v@[from as int]);
        }
        match numeral_in(v, from, to, 0x7fff_ffff_ffff_ffff) {
            Some(n) => Some(n as i64),
            None => None,
        }
    }
}

/// Reads `v[from..to]` as a decimal `u64` numeral.
pub fn read_u64(v: &Vec<char>, from: usize, to: usize) -> (r: Option<u64>)
    requires
        from <= to <= v.len(),
    ensures
        r == parse_u64(v@.subrange(from as int, to as int)),
{
    let ghost sub = v@.subrange(from as int, to as int);
    if from < to && v[from] == '+' {
        assert(sub[0] == v@[from as int]);
        assert(sub.skip(1) == v@.subrange(from + 1, to as int));
        numeral_in(v, from + 1, to, 0xffff_ffff_ffff_ffff)
    } else {
        if from < to {
            assert(sub[0] == v@[from as int]);
        }
        numeral_in(v, from, to, 0xffff_ffff_ffff_ffff)
    }
}

/// Reads `v[from..to]` as a decimal `u32` numeral.
pub fn read_u32(v: &Vec<char>, from: usize, to: usize) -> (r: Option<u32>)
    requires
        from <= to <= v.len(),
    ensures
        r == parse_u32(v@.subrange(from as int, to as int)),
{
    let ghost sub = v@.subrange(from as int, to as int);
    if from < to && v[from] == '+' {
        assert(sub[0] == v@[from as int]);
        assert(sub.skip(1) == v@.subrange(from + 1, to as int));
        match numeral_in(v, from + 1, to, 0xffff_ffff) {
            Some(n) => Some(n as u32),
            None => None,
        }
    } else {
        if from < to {
            assert(sub[0] == v@[from as int]);
        }
        match numeral_in(v, from, to, 0xffff_ffff) {
            Some(n) => Some(n as u32),
            None => None,
        }
    }
}

/// The digit that stands for `d`, for `d` below ten.
pub open spec fn digit_char(d: nat) -> char
    recommends
        d < 10,
{
    (('0' as u32) + d) as char
}

/// The decimal numeral of `n`, without leading zeros.
pub open spec fn nat_decimal(n: nat) -> Seq<char>
    decreases n,
{
    if n < 10 {
        seq![digit_char(n)]
    } else {
        nat_decimal(n / 10).push(digit_char(n % 10))
    }
}

/// The decimal numeral of `n`, with a leading `-` where `n` is negative.
pub open spec fn int_decimal(n: int) -> Seq<char> {
    if n < 0 {
        seq!['-'] + nat_decimal((-n) as nat)
    } else {
        nat_decimal(n as nat)
    }
}

/// The digit for the value of a digit is that digit.
pub proof fn lemma_digit_char_of_value(c: char)
    requires
        is_digit(c),
    ensures
        digit_value(c) < 10,
        digit_char(digit_value(c)) == c,
{
    let u = c as u32;
    assert(0x30 <= u <= 0x39);
    assert((('0' as u32) + digit_value(c)) as u32 == u);
    assert((u as char) == c);
}

/// The decimal numeral of the value of a digit string is that string, where the
/// string has no leading zero or is a single digit.
pub proof fn lemma_decimal_of_digits(s: Seq<char>)
    requires
        s.len() > 0,
        all_digits(s),
        s.len() == 1 || s[0] != '0',
    ensures
        nat_decimal(digits_value(s)) == s,
    decreases s.len(),
{
    let front = s.drop_last();
    let d = digit_value(s.last());
    assert(is_digit(s[s.len() - 1]));
    lemma_digit_char_of_value(s.last());
    if s.len() == 1 {
        assert(front.len() == 0);
        assert(digits_value(front) == 0);
        assert(digits_value(s) == d);
        assert(nat_decimal(d) =~= s);
    } else {
        assert(all_digits(front)) by {
            assert forall|i: int| 0 <= i < front.len() implies is_digit(#[trigger] front[i]) by {
                assert(front[i] == s[i]);
            }
        }
        assert(front[0] == s[0]);
        lemma_decimal_of_digits(front);
        assert(digits_value(front) >= 1) by {
            lemma_digits_value_prefix(front, 1);
            let first = front.take(1);
            assert(first.len() == 1);
            assert(first.drop_last().len() == 0);
            assert(digits_value(first.drop_last()) == 0);
            assert(first.last() == s[0]);
            assert(is_digit(s[0]));
            assert(digits_value(first) == digit_value(s[0]));
        }
        let n = digits_value(s);
        let h = digits_value(front);
        assert(n == h * 10 + d);
        assert(n >= 10);
        assert(n / 10 == h && n % 10 == d);
        assert(nat_decimal(n) == nat_decimal(h).push(digit_char(d)));
        assert(front.push(s.last()) =~= s);
    }
}

/// Appends the decimal numeral of `n` to `out`.
pub fn push_decimal(out: &mut Vec<char>, n: u64)
    ensures
        final(out)@ == old(out)@ + nat_decimal(n as nat),
    decreases n,
{
    if n >= 10 {
        push_decimal(out, n / 10);
    }
    let d: u8 = (n % 10) as u8;
    out.push((48u8 + d) as char);
    proof {
        if n >= 10 {
            assert(final(out)@ =~= old(out)@ + nat_decimal(n as nat));
        } else {
            assert(final(out)@ =~= old(out)@ + nat_decimal(n as nat));
        }
    }
}

/// The decimal numeral of `n` as characters.
pub fn decimal_chars(n: i64) -> (r: Vec<char>)
    ensures
        r@ == int_decimal(n as int),
{
    let mut out: Vec<char> = Vec::new();
    if n < 0 {
        out.push('-');
        let m: u64 = if n == i64::MIN {
            0x8000_0000_0000_0000
        } else {
            (-n) as u64
        };
        push_decimal(&mut out, m);
    } else {
        push_decimal(&mut out, n as u64);
        assert(Seq::<char>::empty() + nat_decimal(n as nat) == nat_decimal(n as nat));
    }
    out
}

/// Appends the characters of `tail` to `out`.
pub fn push_all(out: &mut Vec<char>, tail: &Vec<char>)
    ensures
        final(out)@ == old(out)@ + tail@,
{
    let mut k: usize = 0;
    while k < tail.len()
        invariant
            k <= tail.len(),
            out@ == old(out)@ + tail@.take(k as int),
        decreases tail.len() - k,
    {
        out.push(tail[k]);
        k += 1;
    }
    assert(tail@.take(tail@.len() as int) == tail@);
}

/// Appends the characters of `tail` to `out`.
pub fn push_text(out: &mut String, tail: &str)
    ensures
        final(out)@ == old(out)@ + tail@,
{
    let chars = chars_of(tail);
    let mut k: usize = 0;
    while k < chars.len()
        invariant
            k <= chars.len(),
            chars@ == tail@,
            out@ == old(out)@ + chars@.take(k as int),
        decreases chars.len() - k,
    {
        out.push(chars[k]);
        k += 1;
    }
    assert(chars@.take(chars@.len() as int) == chars@);
}

/// Whether `a` and `b` hold the same characters.
pub fn same_text(a: &str, b: &str) -> (r: bool)
    ensures
        r == (a@ == b@),
{
    let x = chars_of(a);
    let y = chars_of(b);
    if x.len() != y.len() {
        return false;
    }
    let mut k: usize = 0;
    while k < x.len()
        invariant
            k <= x.len(),
            x.len() == y.len(),
            x@ == a@,
            y@ == b@,
            forall|j: int| 0 <= j < k ==> x@[j] == y@[j],
        decreases x.len() - k,
    {
        if x[k] != y[k] {
            assert(a@[k as int] != b@[k as int]);
            return false;
        }
        k += 1;
    }
    assert(x@ =~= y@);
    true
}

/// The decimal numeral of `n`.
pub fn decimal_u64(n: u64) -> (r: String)
    ensures
        r@ == nat_decimal(n as nat),
{
    let mut out: Vec<char> = Vec::new();
    push_decimal(&mut out, n);
    assert(Seq::<char>::empty() + nat_decimal(n as nat) == nat_decimal(n as nat));
    string_of(&out)
}

} // verus!
