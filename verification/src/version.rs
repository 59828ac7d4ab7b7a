//! Version strings: dotted numbers compared part by part.
use crate::text::{chars_of, string_from_chars};
use vstd::prelude::*;

verus! {

/// An ASCII decimal digit.
pub open spec fn is_digit(c: char) -> bool {
    '0' <= c && c <= '9'
}

/// The value of a string of decimal digits.
pub open spec fn digits_value(s: Seq<char>) -> nat
    decreases s.len(),
{
    if s.len() == 0 {
        0
    } else {
        digits_value(s.drop_last()) * 10 + ((s.last() as u32) - ('0' as u32)) as nat
    }
}

/// The digits part of a number: without its leading '+', if any.
pub open spec fn unsigned_digits(s: Seq<char>) -> Seq<char> {
    if s.len() > 0 && s[0] == '+' {
        s.drop_first()
    } else {
        s
    }
}

/// Every character of `d` is a decimal digit.
pub open spec fn all_digits(d: Seq<char>) -> bool {
    forall|i: int| 0 <= i < d.len() ==> is_digit(#[trigger] d[i])
}

/// What `u64::from_str` gives: an optional '+' followed by at least one
/// decimal digit, whose value fits in 64 bits.
pub open spec fn parse_u64_spec(s: Seq<char>) -> Option<u64> {
    let d = unsigned_digits(s);
    if d.len() > 0 && all_digits(d) && digits_value(d) <= u64::MAX {
        Some(digits_value(d) as u64)
    } else {
        None
    }
}

/// The pieces of `s` between dots, as `str::split('.')` yields them (empty
/// pieces included; the empty string is one empty piece).
pub open spec fn split_dots(s: Seq<char>) -> Seq<Seq<char>>
    decreases s.len(),
{
    if s.len() == 0 {
        seq![Seq::empty()]
    } else if s.last() == '.' {
        split_dots(s.drop_last()).push(Seq::empty())
    } else {
        let p = split_dots(s.drop_last());
        p.update(p.len() - 1, p.last().push(s.last()))
    }
}

/// The pieces that parse as numbers, parsed, in order.
pub open spec fn parsed_parts(parts: Seq<Seq<char>>) -> Seq<u64>
    decreases parts.len(),
{
    if parts.len() == 0 {
        Seq::empty()
    } else {
        parsed_parts(parts.drop_last()) + match parse_u64_spec(parts.last()) {
            Some(n) => seq![n],
            None => Seq::empty(),
        }
    }
}

/// The numbers of a version string: its dot-separated pieces that parse as
/// numbers (the others are dropped).
pub open spec fn version_numbers(s: Seq<char>) -> Seq<u64> {
    parsed_parts(split_dots(s))
}

/// The `i`-th number of a version, 0 beyond its end.
pub open spec fn part_at(v: Seq<u64>, i: int) -> u64 {
    if 0 <= i < v.len() {
        v[i]
    } else {
        0
    }
}

/// The larger of two lengths.
pub open spec fn max_len(a: Seq<u64>, b: Seq<u64>) -> int {
    if a.len() >= b.len() {
        a.len() as int
    } else {
        b.len() as int
    }
}

/// `a` is greater than `b` from position `i` on: at the first position from
/// `i` where they differ (missing numbers count as 0), `a` is larger.
pub open spec fn numbers_gt_from(a: Seq<u64>, b: Seq<u64>, i: int) -> bool
    decreases max_len(a, b) - i,
{
    if i < 0 || i >= max_len(a, b) {
        false
    } else if part_at(a, i) > part_at(b, i) {
        true
    } else if part_at(a, i) < part_at(b, i) {
        false
    } else {
        numbers_gt_from(a, b, i + 1)
    }
}

/// Version `a` is newer than version `b`.
pub open spec fn version_newer(a: Seq<char>, b: Seq<char>) -> bool {
    numbers_gt_from(version_numbers(a), version_numbers(b), 0)
}

/// The value of a digit.
fn digit_value(c: char) -> (d: u64)
    requires
        is_digit(c),
    ensures
        d == (c as u32) - ('0' as u32),
{
    ((c as u32) - ('0' as u32)) as u64
}

/// Parses a number as `u64::from_str` does.
pub fn parse_u64(s: &Vec<char>) -> (r: Option<u64>)
    ensures
        r == parse_u64_spec(s@),
{
    let start: usize = if s.len() > 0 && s[0] == '+' {
        1
    } else {
        0
    };
    let ghost d = unsigned_digits(s@);
    assert(d == s@.subrange(start as int, s@.len() as int));
    if start >= s.len() {
        return None;
    }
    let mut value: u64 = 0;
    let mut i: usize = start;
    while i < s.len()
        invariant
            start <= i <= s.len(),
            d == s@.subrange(start as int, s@.len() as int),
            d == unsigned_digits(s@),
            forall|k: int| 0 <= k < i - start ==> is_digit(#[trigger] d[k]),
            value == digits_value(d.take(i - start)),
        decreases s.len() - i,
    {
        let c = s[i];
        let ghost k = i - start;
        assert(d[k] == c);
        if !('0' <= c && c <= '9') {
            assert(!is_digit(d[k]));
            assert(!all_digits(d));
            return None;
        }
        assert(d.take(k + 1).drop_last() == d.take(k));
        assert(d.take(k + 1).last() == c);
        let dv = digit_value(c);
        assert(digits_value(d.take(k + 1)) == digits_value(d.take(k)) * 10 + dv);
        let times = value.checked_mul(10);
        if times.is_none() {
            proof {
                assert(digits_value(d.take(k + 1)) > u64::MAX);
                if all_digits(d) {
                    lemma_digits_value_prefix(d, k + 1);
                    assert(digits_value(d) > u64::MAX);
                }
                assert(parse_u64_spec(s@) is None);
            }
            return None;
        }
        let next = times.unwrap().checked_add(dv);
        if next.is_none() {
            proof {
                assert(digits_value(d.take(k + 1)) > u64::MAX);
                if all_digits(d) {
                    lemma_digits_value_prefix(d, k + 1);
                    assert(digits_value(d) > u64::MAX);
                }
                assert(parse_u64_spec(s@) is None);
            }
            return None;
        }
        value = next.unwrap();
        i = i + 1;
    }
    assert(d.take(d.len() as int) == d);
    Some(value)
}

/// A prefix of a digit string is worth no more than the whole.
proof fn lemma_digits_value_prefix(d: Seq<char>, k: int)
    requires
        0 <= k <= d.len(),
        forall|j: int| 0 <= j < d.len() ==> is_digit(#[trigger] d[j]),
    ensures
        digits_value(d.take(k)) <= digits_value(d),
    decreases d.len() - k,
{
    if k < d.len() {
        lemma_digits_value_prefix(d, k + 1);
        assert(d.take(k + 1).drop_last() == d.take(k));
        assert(d.take(k + 1).last() == d[k]);
    } else {
        assert(d.take(k) == d);
    }
}

/// The numbers of a version string.
pub fn version_parts(s: &str) -> (r: Vec<u64>)
    ensures
        r@ == version_numbers(s@),
{
    let chars = chars_of(s);
    let mut nums: Vec<u64> = Vec::new();
    let mut cur: Vec<char> = Vec::new();
    let ghost mut done: Seq<Seq<char>> = Seq::empty();
    let mut i: usize = 0;
    assert(chars@.take(0) == Seq::<char>::empty());
    while i < chars.len()
        invariant
            i <= chars.len(),
            split_dots(chars@.take(i as int)) == done.push(cur@),
            nums@ == parsed_parts(done),
        decreases chars.len() - i,
    {
        let c = chars[i];
        assert(chars@.take(i + 1).drop_last() == chars@.take(i as int));
        assert(chars@.take(i + 1).last() == c);
        if c == '.' {
            match parse_u64(&cur) {
                Some(n) => nums.push(n),
                None => {},
            }
            proof {
                assert(done.push(cur@).drop_last() == done);
                done = done.push(cur@);
            }
            cur = Vec::new();
            assert(nums@ == parsed_parts(done));
        } else {
            let ghost before = cur@;
            cur.push(c);
            assert(done.push(before).update(done.len() as int, before.push(c)) == done.push(cur@));
        }
        i = i + 1;
    }
    assert(chars@.take(chars.len() as int) == chars@);
    match parse_u64(&cur) {
        Some(n) => nums.push(n),
        None => {},
    }
    assert(done.push(cur@).drop_last() == done);
    nums
}

/// Whether version `a` is newer than version `b`.
pub fn version_gt(a: &str, b: &str) -> (r: bool)
    ensures
        r == version_newer(a@, b@),
{
    let va = version_parts(a);
    let vb = version_parts(b);
    let n = if va.len() >= vb.len() {
        va.len()
    } else {
        vb.len()
    };
    let mut i: usize = 0;
    while i < n
        invariant
            i <= n,
            n == max_len(va@, vb@),
            va@ == version_numbers(a@),
            vb@ == version_numbers(b@),
            numbers_gt_from(va@, vb@, 0) == numbers_gt_from(va@, vb@, i as int),
        decreases n - i,
    {
        let pa = if i < va.len() {
            va[i]
        } else {
            0
        };
        let pb = if i < vb.len() {
            vb[i]
        } else {
            0
        };
        assert(pa == part_at(va@, i as int));
        assert(pb == part_at(vb@, i as int));
        if pa > pb {
            return true;
        }
        if pa < pb {
            return false;
        }
        assert(numbers_gt_from(va@, vb@, i as int) == numbers_gt_from(va@, vb@, i + 1));
        i = i + 1;
    }
    assert(!numbers_gt_from(va@, vb@, n as int));
    false
}

/// `s` without its leading 'v' characters.
pub open spec fn strip_leading_v(s: Seq<char>) -> Seq<char>
    decreases s.len(),
{
    if s.len() > 0 && s[0] == 'v' {
        strip_leading_v(s.drop_first())
    } else {
        s
    }
}

proof fn lemma_strip_leading_v(s: Seq<char>, i: int)
    requires
        0 <= i <= s.len(),
        forall|j: int| 0 <= j < i ==> #[trigger] s[j] == 'v',
    ensures
        strip_leading_v(s) == strip_leading_v(s.skip(i)),
    decreases i,
{
    if i > 0 {
        assert(s.drop_first().skip(i - 1) == s.skip(i));
        lemma_strip_leading_v(s.drop_first(), i - 1);
    } else {
        assert(s.skip(0) == s);
    }
}

/// A release tag without its leading 'v' characters, as
/// `str::trim_start_matches('v')` gives it.
pub fn trim_version_tag(tag: &str) -> (r: String)
    ensures
        r@ == strip_leading_v(tag@),
{
    let c = chars_of(tag);
    let mut i: usize = 0;
    while i < c.len() && c[i] == 'v'
        invariant
            i <= c.len(),
            forall|j: int| 0 <= j < i ==> #[trigger] c@[j] == 'v',
        decreases c.len() - i,
    {
        i = i + 1;
    }
    proof {
        lemma_strip_leading_v(c@, i as int);
    }
    let mut out: Vec<char> = Vec::new();
    let mut k: usize = i;
    while k < c.len()
        invariant
            i <= k <= c.len(),
            out@ == c@.subrange(i as int, k as int),
        decreases c.len() - k,
    {
        out.push(c[k]);
        assert(c@.subrange(i as int, k + 1) == c@.subrange(i as int, k as int).push(c@[k as int]));
        k = k + 1;
    }
    assert(strip_leading_v(c@.skip(i as int)) == c@.skip(i as int));
    string_from_chars(&out)
}


proof fn lemma_gt_irreflexive(a: Seq<u64>, i: int)
    ensures
        !numbers_gt_from(a, a, i),
    decreases max_len(a, a) - i,
{
    if 0 <= i < max_len(a, a) {
        lemma_gt_irreflexive(a, i + 1);
    }
}

proof fn lemma_gt_asymmetric(a: Seq<u64>, b: Seq<u64>, i: int)
    requires
        numbers_gt_from(a, b, i),
    ensures
        !numbers_gt_from(b, a, i),
    decreases max_len(a, b) - i,
{
    assert(max_len(a, b) == max_len(b, a));
    if part_at(a, i) == part_at(b, i) {
        lemma_gt_asymmetric(a, b, i + 1);
    }
}

proof fn lemma_gt_transitive(a: Seq<u64>, b: Seq<u64>, c: Seq<u64>, i: int)
    requires
        numbers_gt_from(a, b, i),
        numbers_gt_from(b, c, i),
    ensures
        numbers_gt_from(a, c, i),
    decreases a.len() + b.len() + c.len() + 1 - i,
{
    let x = part_at(a, i);
    let y = part_at(b, i);
    let z = part_at(c, i);
    assert(0 <= i < max_len(a, b));
    assert(0 <= i < max_len(b, c));
    if x > y {
        assert(x > z);
        assert(i < a.len());
    } else {
        assert(x == y);
        if y > z {
            assert(i < a.len());
        } else {
            assert(y == z);
            lemma_gt_transitive(a, b, c, i + 1);
        }
    }
}

/// No version is newer than itself.
pub proof fn law_version_newer_irreflexive(a: Seq<char>)
    ensures
        !version_newer(a, a),
{
    lemma_gt_irreflexive(version_numbers(a), 0);
}

/// Of two versions, at most one is newer than the other.
pub proof fn law_version_newer_asymmetric(a: Seq<char>, b: Seq<char>)
    requires
        version_newer(a, b),
    ensures
        !version_newer(b, a),
{
    lemma_gt_asymmetric(version_numbers(a), version_numbers(b), 0);
}

/// Newer than is transitive: a version newer than one newer than a third is
/// newer than the third.
pub proof fn law_version_newer_transitive(a: Seq<char>, b: Seq<char>, c: Seq<char>)
    requires
        version_newer(a, b),
        version_newer(b, c),
    ensures
        version_newer(a, c),
{
    lemma_gt_transitive(version_numbers(a), version_numbers(b), version_numbers(c), 0);
}


/// Comparisons look at numbers only up to zero padding: versions whose
/// numbers agree at every position (missing ones counting as 0) compare
/// alike.
proof fn lemma_gt_congruent(a: Seq<u64>, a2: Seq<u64>, b: Seq<u64>, b2: Seq<u64>, i: int)
    requires
        forall|k: int| part_at(a, k) == part_at(a2, k),
        forall|k: int| part_at(b, k) == part_at(b2, k),
    ensures
        numbers_gt_from(a, b, i) == numbers_gt_from(a2, b2, i),
    decreases a.len() + a2.len() + b.len() + b2.len() + 1 - i,
{
    if i < 0 || (i >= max_len(a, b) && i >= max_len(a2, b2)) {
    } else {
        assert(part_at(a, i) == part_at(a2, i));
        assert(part_at(b, i) == part_at(b2, i));
        lemma_gt_congruent(a, a2, b, b2, i + 1);
        if i >= max_len(a, b) {
            assert(part_at(a, i) == 0 && part_at(b, i) == 0);
            assert(!numbers_gt_from(a, b, i + 1));
        }
        if i >= max_len(a2, b2) {
            assert(part_at(a2, i) == 0 && part_at(b2, i) == 0);
            assert(!numbers_gt_from(a2, b2, i + 1));
        }
    }
}

/// A version with ".0" appended has the numbers of the version and a 0.
proof fn lemma_version_numbers_dot_zero(a: Seq<char>)
    ensures
        version_numbers(a + seq!['.', '0']) == version_numbers(a).push(0),
{
    let s = a + seq!['.', '0'];
    assert(s.drop_last() == a + seq!['.']);
    assert((a + seq!['.']).drop_last() == a);
    let p = split_dots(a).push(Seq::empty());
    assert(split_dots(a + seq!['.']) == p);
    assert(split_dots(s) == p.update(p.len() - 1, p.last().push('0')));
    assert(split_dots(s) =~= split_dots(a).push(seq!['0']));
    let z = seq!['0'];
    assert(unsigned_digits(z) == z);
    assert(z.drop_last() =~= Seq::<char>::empty());
    assert(digits_value(z.drop_last()) == 0);
    assert(z.last() == '0');
    assert(digits_value(z) == 0);
    assert(all_digits(z));
    assert(parse_u64_spec(z) == Some(0u64));
    assert(split_dots(a).push(z).drop_last() == split_dots(a));
    assert(parsed_parts(split_dots(a).push(z)) == parsed_parts(split_dots(a)) + seq![0u64]);
}

/// A trailing ".0" never matters: appending it to either version leaves
/// the comparison as it was.
pub proof fn law_version_trailing_zero_ignored(a: Seq<char>, b: Seq<char>)
    ensures
        version_newer(a + ".0"@, b) == version_newer(a, b),
        version_newer(b, a + ".0"@) == version_newer(b, a),
{
    reveal_strlit(".0");
    assert(".0"@ =~= seq!['.', '0']);
    lemma_version_numbers_dot_zero(a);
    let va = version_numbers(a);
    let vb = version_numbers(b);
    assert(forall|k: int| part_at(va.push(0), k) == part_at(va, k));
    lemma_gt_congruent(va.push(0), va, vb, vb, 0);
    lemma_gt_congruent(vb, vb, va.push(0), va, 0);
}

} // verus!
