//! Character-level text helpers and the decimal number conversions the data formats use.
use vstd::prelude::*;

verus! {

/// The text of an optional string.
pub open spec fn opt_view(o: Option<String>) -> Option<Seq<char>> {
    match o {
        Some(s) => Some(s@),
        None => None,
    }
}

/// An ASCII decimal digit.
pub open spec fn is_ascii_digit(c: char) -> bool {
    '0' <= c && c <= '9'
}

/// Every character of `s` is an ASCII decimal digit.
pub open spec fn all_ascii_digits(s: Seq<char>) -> bool {
    forall|i: int| 0 <= i < s.len() ==> is_ascii_digit(#[trigger] s[i])
}

/// The value of a character that is an ASCII digit.
pub open spec fn digit_value(c: char) -> nat {
    ((c as int) - ('0' as int)) as nat
}

/// The number written by a string of decimal digits (most significant first).
pub open spec fn digits_value(s: Seq<char>) -> nat
    decreases s.len(),
{
    if s.len() == 0 {
        0
    } else {
        digits_value(s.drop_last()) * 10 + digit_value(s.last())
    }
}

/// The ASCII digit for a number below ten.
pub open spec fn digit_char(n: nat) -> char {
    ((n as int) + ('0' as int)) as char
}

/// The shortest decimal representation of `n`.
pub open spec fn decimal_digits(n: nat) -> Seq<char>
    decreases n,
{
    if n < 10 {
        seq![digit_char(n)]
    } else {
        decimal_digits(n / 10).push(digit_char(n % 10))
    }
}

/// `n` zero characters.
pub open spec fn zeros(n: nat) -> Seq<char> {
    Seq::new(n, |i: int| '0')
}

/// The decimal representation of `n`, with leading zeros up to `width` characters.
pub open spec fn zero_padded(n: nat, width: nat) -> Seq<char> {
    let digits = decimal_digits(n);
    if digits.len() < width {
        zeros((width - digits.len()) as nat) + digits
    } else {
        digits
    }
}

/// What `u32`'s `from_str` accepts: an optional `+`, then one or more ASCII digits whose value
/// fits into a `u32`.
pub open spec fn spec_parse_u32(s: Seq<char>) -> Option<u32> {
    let body = if s.len() > 0 && s[0] == '+' {
        s.drop_first()
    } else {
        s
    };
    if body.len() > 0 && all_ascii_digits(body) && digits_value(body) <= u32::MAX {
        Some(digits_value(body) as u32)
    } else {
        None
    }
}

/// What `i64`'s `from_str` accepts: an optional `+` or `-`, then one or more ASCII digits whose
/// signed value fits into an `i64`.
pub open spec fn spec_parse_i64(s: Seq<char>) -> Option<i64> {
    if s.len() > 0 && s[0] == '-' {
        let body = s.drop_first();
        if body.len() > 0 && all_ascii_digits(body) && digits_value(body) <= 0x8000_0000_0000_0000 {
            Some((-(digits_value(body) as int)) as i64)
        } else {
            None
        }
    } else {
        let body = if s.len() > 0 && s[0] == '+' {
            s.drop_first()
        } else {
            s
        };
        if body.len() > 0 && all_ascii_digits(body) && digits_value(body) <= i64::MAX {
            Some(digits_value(body) as i64)
        } else {
            None
        }
    }
}

/// Calls `str::parse::<u32>`. Its documentation: an optional `+` sign followed by only digits;
/// any other character, an empty digit string, or a value above `u32::MAX` is an error.
#[verifier::external_body]
pub(crate) fn parse_u32(s: &str) -> (res: Option<u32>)
    ensures
        res == spec_parse_u32(s@),
{
    s.parse::<u32>().ok()
}

/// Calls `str::parse::<i64>`. Its documentation: an optional `+` or `-` sign followed by only
/// digits; any other character, an empty digit string, or a value out of `i64`'s range is an
/// error.
#[verifier::external_body]
pub(crate) fn parse_i64(s: &str) -> (res: Option<i64>)
    ensures
        res == spec_parse_i64(s@),
{
    s.parse::<i64>().ok()
}

/// Formats a `u32` with `{:04}`: its decimal digits, left-padded with zeros to four characters.
#[verifier::external_body]
pub(crate) fn format_zero_padded4(n: u32) -> (res: String)
    ensures
        res@ == zero_padded(n as nat, 4),
{
    format!("{:04}", n)
}

/// Ten to the power `n`.
pub open spec fn pow10(n: nat) -> nat
    decreases n,
{
    if n == 0 {
        1
    } else {
        10 * pow10((n - 1) as nat)
    }
}

pub proof fn lemma_digit_char(n: nat)
    requires
        n < 10,
    ensures
        is_ascii_digit(digit_char(n)),
        digit_value(digit_char(n)) == n,
        digit_char(n) != '.' && digit_char(n) != '-' && digit_char(n) != '+',
{
}

/// The value of a concatenation of digit strings.
pub proof fn lemma_digits_value_append(a: Seq<char>, b: Seq<char>)
    ensures
        digits_value(a + b) == digits_value(a) * pow10(b.len()) + digits_value(b),
    decreases b.len(),
{
    if b.len() == 0 {
        assert(a + b =~= a);
        assert(digits_value(b) == 0);
        assert(pow10(0) == 1);
        assert(digits_value(a) * 1 == digits_value(a));
    } else {
        assert((a + b).drop_last() =~= a + b.drop_last());
        assert((a + b).last() == b.last());
        lemma_digits_value_append(a, b.drop_last());
        assert(digits_value(a + b) == digits_value((a + b).drop_last()) * 10 + digit_value(
            (a + b).last(),
        ));
        assert(pow10(b.len()) == 10 * pow10(b.drop_last().len()));
        let x = digits_value(a);
        let y = pow10(b.drop_last().len());
        let z = digits_value(b.drop_last());
        let l = digit_value(b.last());
        assert(digits_value(b) == z * 10 + l);
        assert(digits_value(a + b) == (x * y + z) * 10 + l);
        assert((x * y + z) * 10 == x * (10 * y) + z * 10) by (nonlinear_arith);
    }
}

pub proof fn lemma_zeros_value(n: nat)
    ensures
        digits_value(zeros(n)) == 0,
        all_ascii_digits(zeros(n)),
    decreases n,
{
    if n > 0 {
        assert(zeros(n).drop_last() =~= zeros((n - 1) as nat));
        lemma_zeros_value((n - 1) as nat);
    }
}

/// The shortest decimal representation is made of digits and reads back as its number.
pub proof fn lemma_decimal_digits(n: nat)
    ensures
        all_ascii_digits(decimal_digits(n)),
        digits_value(decimal_digits(n)) == n,
        1 <= decimal_digits(n).len(),
        n < 10 ==> decimal_digits(n).len() == 1,
        n < 100 ==> decimal_digits(n).len() <= 2,
        n < 1000 ==> decimal_digits(n).len() <= 3,
        n < 10000 ==> decimal_digits(n).len() <= 4,
    decreases n,
{
    if n < 10 {
        lemma_digit_char(n);
        let ds = seq![digit_char(n)];
        assert(ds.drop_last() =~= Seq::<char>::empty());
        assert(digits_value(ds.drop_last()) == 0);
        assert(digits_value(ds) == digits_value(ds.drop_last()) * 10 + digit_value(ds.last()));
    } else {
        lemma_decimal_digits(n / 10);
        lemma_digit_char(n % 10);
        let ds = decimal_digits(n);
        assert(ds.drop_last() =~= decimal_digits(n / 10));
        assert(ds.last() == digit_char(n % 10));
        vstd::arithmetic::div_mod::lemma_fundamental_div_mod(n as int, 10);
        assert(digits_value(ds) == digits_value(ds.drop_last()) * 10 + digit_value(ds.last()));
        assert(forall|i: int| 0 <= i < ds.len() ==> is_ascii_digit(#[trigger] ds[i])) by {
            assert forall|i: int| 0 <= i < ds.len() implies is_ascii_digit(#[trigger] ds[i]) by {
                if i < ds.len() - 1 {
                    assert(ds[i] == decimal_digits(n / 10)[i]);
                }
            }
        }
    }
}

/// A zero-padded decimal is made of digits, reads back as its number, and is exactly as long
/// as the width when the number has no more digits than that.
pub proof fn lemma_zero_padded(n: nat, width: nat)
    ensures
        all_ascii_digits(zero_padded(n, width)),
        digits_value(zero_padded(n, width)) == n,
        zero_padded(n, width).len() >= 1,
        zero_padded(n, width).len() >= width,
        width == 2 && n < 100 ==> zero_padded(n, width).len() == 2,
        width == 4 && n < 10000 ==> zero_padded(n, width).len() == 4,
{
    lemma_decimal_digits(n);
    let digits = decimal_digits(n);
    if digits.len() < width {
        let zs = zeros((width - digits.len()) as nat);
        lemma_zeros_value((width - digits.len()) as nat);
        lemma_digits_value_append(zs, digits);
        let z = zero_padded(n, width);
        assert(z =~= zs + digits);
        assert(digits_value(zs) * pow10(digits.len()) == 0);
        assert(digits_value(z) == n);
        assert forall|i: int| 0 <= i < z.len() implies is_ascii_digit(#[trigger] z[i]) by {
            if i < zs.len() {
                assert(z[i] == zs[i]);
            } else {
                assert(z[i] == digits[i - zs.len()]);
            }
        }
    }
}

/// A string of digits holds no separator characters.
pub proof fn lemma_digits_free_of(s: Seq<char>, c: char)
    requires
        all_ascii_digits(s),
        !is_ascii_digit(c),
    ensures
        forall|j: int| 0 <= j < s.len() ==> s[j] != c,
{
    assert forall|j: int| 0 <= j < s.len() implies s[j] != c by {
        assert(is_ascii_digit(s[j]));
    }
}

/// `u32`'s parser reads back a zero-padded decimal.
pub proof fn lemma_parse_u32_zero_padded(n: u32, width: nat)
    ensures
        spec_parse_u32(zero_padded(n as nat, width)) == Some(n),
{
    lemma_zero_padded(n as nat, width);
    let z = zero_padded(n as nat, width);
    assert(is_ascii_digit(z[0]));
}

/// The order `str`'s `cmp` puts texts in: lexicographic by character (a proper prefix comes
/// first).
pub open spec fn text_lt(a: Seq<char>, b: Seq<char>) -> bool
    decreases a.len(),
{
    if a.len() == 0 {
        b.len() > 0
    } else if b.len() == 0 {
        false
    } else if a[0] != b[0] {
        (a[0] as int) < (b[0] as int)
    } else {
        text_lt(a.drop_first(), b.drop_first())
    }
}

/// Ten to a power is positive.
pub proof fn lemma_pow10_positive(n: nat)
    ensures
        pow10(n) >= 1,
    decreases n,
{
    if n > 0 {
        lemma_pow10_positive((n - 1) as nat);
    }
}

/// A string of `n` digits writes a number below ten to the `n`.
pub proof fn lemma_digits_value_bound(s: Seq<char>)
    requires
        all_ascii_digits(s),
    ensures
        digits_value(s) < pow10(s.len()),
    decreases s.len(),
{
    if s.len() > 0 {
        let p = s.drop_last();
        assert(all_ascii_digits(p)) by {
            assert forall|i: int| 0 <= i < p.len() implies is_ascii_digit(#[trigger] p[i]) by {
                assert(p[i] == s[i]);
            }
        }
        lemma_digits_value_bound(p);
        assert(is_ascii_digit(s[s.len() - 1]));
        assert(digit_value(s.last()) <= 9);
        assert(pow10(s.len()) == 10 * pow10(p.len()));
    }
}

/// Comparing texts that start with parts of the same length compares those parts first, then
/// what follows.
pub proof fn lemma_text_lt_concat(a1: Seq<char>, b1: Seq<char>, a2: Seq<char>, b2: Seq<char>)
    requires
        a1.len() == a2.len(),
    ensures
        text_lt(a1 + b1, a2 + b2) == (text_lt(a1, a2) || (a1 == a2 && text_lt(b1, b2))),
        (a1 + b1 == a2 + b2) == (a1 == a2 && b1 == b2),
    decreases a1.len(),
{
    let (s, t) = (a1 + b1, a2 + b2);
    if a1.len() == 0 {
        assert(s =~= b1);
        assert(t =~= b2);
        assert(a1 =~= a2);
    } else {
        assert(s[0] == a1[0]);
        assert(t[0] == a2[0]);
        assert(s.drop_first() =~= a1.drop_first() + b1);
        assert(t.drop_first() =~= a2.drop_first() + b2);
        lemma_text_lt_concat(a1.drop_first(), b1, a2.drop_first(), b2);
        assert(a1 =~= seq![a1[0]] + a1.drop_first());
        assert(a2 =~= seq![a2[0]] + a2.drop_first());
        if s == t {
            assert(s.subrange(0, a1.len() as int) =~= a1);
            assert(t.subrange(0, a2.len() as int) =~= a2);
            assert(s.subrange(a1.len() as int, s.len() as int) =~= b1);
            assert(t.subrange(a2.len() as int, t.len() as int) =~= b2);
        }
        if a1[0] == a2[0] && a1.drop_first() == a2.drop_first() {
            assert(a1 == a2);
        }
        if a1 == a2 {
            assert(a1.drop_first() == a2.drop_first());
        }
    }
}

/// Digit strings of one length are ordered as text as their numbers are, and are the same
/// text exactly when they write the same number.
pub proof fn lemma_digits_text_order(s: Seq<char>, t: Seq<char>)
    requires
        all_ascii_digits(s),
        all_ascii_digits(t),
        s.len() == t.len(),
    ensures
        text_lt(s, t) == (digits_value(s) < digits_value(t)),
        (s == t) == (digits_value(s) == digits_value(t)),
    decreases s.len(),
{
    if s.len() == 0 {
        assert(s =~= t);
    } else {
        let (s1, t1) = (s.drop_first(), t.drop_first());
        assert(all_ascii_digits(s1)) by {
            assert forall|i: int| 0 <= i < s1.len() implies is_ascii_digit(#[trigger] s1[i]) by {
                assert(s1[i] == s[i + 1]);
            }
        }
        assert(all_ascii_digits(t1)) by {
            assert forall|i: int| 0 <= i < t1.len() implies is_ascii_digit(#[trigger] t1[i]) by {
                assert(t1[i] == t[i + 1]);
            }
        }
        lemma_digits_text_order(s1, t1);
        assert(s =~= seq![s[0]] + s1);
        assert(t =~= seq![t[0]] + t1);
        lemma_digits_value_append(seq![s[0]], s1);
        lemma_digits_value_append(seq![t[0]], t1);
        assert(seq![s[0]].drop_last() =~= Seq::<char>::empty());
        assert(digits_value(seq![s[0]].drop_last()) == 0);
        assert(seq![s[0]].last() == s[0]);
        assert(seq![t[0]].drop_last() =~= Seq::<char>::empty());
        assert(digits_value(seq![t[0]].drop_last()) == 0);
        assert(seq![t[0]].last() == t[0]);
        assert(digits_value(seq![s[0]]) == digit_value(s[0]));
        assert(digits_value(seq![t[0]]) == digit_value(t[0]));
        lemma_digits_value_bound(s1);
        lemma_digits_value_bound(t1);
        lemma_pow10_positive(s1.len());
        assert(is_ascii_digit(s[0]));
        assert(is_ascii_digit(t[0]));
        let p = pow10(s1.len());
        let (x, y) = (digit_value(s[0]) as int, digit_value(t[0]) as int);
        let (u, v) = (digits_value(s1) as int, digits_value(t1) as int);
        assert(digits_value(s) == x * p + u);
        assert(digits_value(t) == y * p + v);
        if x < y {
            assert((x + 1) * p <= y * p) by (nonlinear_arith)
                requires
                    x + 1 <= y,
                    p >= 1,
            ;
            assert(x * p + u < y * p + v) by (nonlinear_arith)
                requires
                    (x + 1) * p <= y * p,
                    0 <= u < p,
                    0 <= v,
            ;
        } else if y < x {
            assert((y + 1) * p <= x * p) by (nonlinear_arith)
                requires
                    y + 1 <= x,
                    p >= 1,
            ;
            assert(y * p + v < x * p + u) by (nonlinear_arith)
                requires
                    (y + 1) * p <= x * p,
                    0 <= v < p,
                    0 <= u,
            ;
        } else {
            assert(s[0] == t[0]);
            if s1 == t1 {
                assert(s == t);
            }
            if s == t {
                assert(s1 == t1);
            }
        }
    }
}

/// The index of the last occurrence of `c` in `s`, or -1.
pub open spec fn last_index_of(s: Seq<char>, c: char) -> int
    decreases s.len(),
{
    if s.len() == 0 {
        -1
    } else if s.last() == c {
        s.len() - 1
    } else {
        last_index_of(s.drop_last(), c)
    }
}

/// `str::rsplit_once` with a character pattern: the text before and after the last `c`.
pub open spec fn spec_rsplit_once(s: Seq<char>, c: char) -> Option<(Seq<char>, Seq<char>)> {
    let i = last_index_of(s, c);
    if i < 0 {
        None
    } else {
        Some((s.subrange(0, i), s.subrange(i + 1, s.len() as int)))
    }
}

/// The last piece of `s` split at `c`: what `s.split(c).next_back()` yields.
pub open spec fn spec_after_last(s: Seq<char>, c: char) -> Seq<char> {
    match spec_rsplit_once(s, c) {
        Some((_, after)) => after,
        None => s,
    }
}

/// A suffix free of `c` does not move the last occurrence of `c` in what precedes it.
pub proof fn lemma_last_index_append(a: Seq<char>, c: char, b: Seq<char>)
    requires
        forall|j: int| 0 <= j < b.len() ==> b[j] != c,
    ensures
        last_index_of(a + seq![c] + b, c) == a.len(),
    decreases b.len(),
{
    let s = a + seq![c] + b;
    if b.len() == 0 {
        assert(s.last() == c);
    } else {
        assert(s.last() == b.last());
        assert(s.drop_last() =~= a + seq![c] + b.drop_last());
        lemma_last_index_append(a, c, b.drop_last());
    }
}

/// Splits `s` at the last occurrence of `c`.
pub fn rsplit_once<'a>(s: &'a str, c: char) -> (res: Option<(&'a str, &'a str)>)
    ensures
        match res {
            Some((before, after)) => spec_rsplit_once(s@, c) == Some((before@, after@)),
            None => spec_rsplit_once(s@, c) is None,
        },
{
    let n = s.unicode_len();
    let mut i: usize = 0;
    let mut last: Option<usize> = None;
    while i < n
        invariant
            n == s@.len(),
            i <= n,
            match last {
                Some(k) => k < i && last_index_of(s@.subrange(0, i as int), c) == k,
                None => last_index_of(s@.subrange(0, i as int), c) == -1,
            },
        decreases n - i,
    {
        let ch = s.get_char(i);
        assert(s@.subrange(0, i + 1).drop_last() =~= s@.subrange(0, i as int));
        if ch == c {
            last = Some(i);
        }
        i = i + 1;
    }
    assert(s@.subrange(0, n as int) =~= s@);
    match last {
        Some(k) => Some((s.substring_char(0, k), s.substring_char(k + 1, n))),
        None => None,
    }
}

/// The text after the last occurrence of `c`, or all of `s` when it holds none.
pub fn after_last<'a>(s: &'a str, c: char) -> (res: &'a str)
    ensures
        res@ == spec_after_last(s@, c),
{
    match rsplit_once(s, c) {
        Some((_, after)) => after,
        None => s,
    }
}

/// Whether `s` ends with `suffix` (what `str::ends_with` answers for a string pattern).
pub fn ends_with(s: &str, suffix: &str) -> (res: bool)
    ensures
        res == (suffix@.len() <= s@.len() && s@.subrange(s@.len() - suffix@.len(), s@.len() as int)
            == suffix@),
{
    let n = s.unicode_len();
    let m = suffix.unicode_len();
    if m > n {
        return false;
    }
    let off = n - m;
    let mut i: usize = 0;
    while i < m
        invariant
            n == s@.len(),
            m == suffix@.len(),
            off == n - m,
            i <= m,
            forall|j: int| 0 <= j < i ==> s@[off + j] == suffix@[j],
        decreases m - i,
    {
        if s.get_char(off + i) != suffix.get_char(i) {
            assert(s@.subrange(off as int, n as int)[i as int] != suffix@[i as int]);
            return false;
        }
        i = i + 1;
    }
    assert(s@.subrange(off as int, n as int) =~= suffix@);
    true
}

/// Whether two strings hold the same characters.
pub fn str_eq(a: &str, b: &str) -> (res: bool)
    ensures
        res == (a@ == b@),
{
    let n = a.unicode_len();
    if n != b.unicode_len() {
        return false;
    }
    let mut i: usize = 0;
    while i < n
        invariant
            n == a@.len(),
            n == b@.len(),
            i <= n,
            forall|j: int| 0 <= j < i ==> a@[j] == b@[j],
        decreases n - i,
    {
        if a.get_char(i) != b.get_char(i) {
            return false;
        }
        i = i + 1;
    }
    assert(a@ =~= b@);
    true
}

} // verus!
