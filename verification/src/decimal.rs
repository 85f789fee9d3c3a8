//! Parsing of unsigned decimal integers, with the syntax that Rust's
//! `FromStr` for unsigned integers accepts: an optional `+`, then one or
//! more ASCII digits, with a value no larger than the target type's maximum.

use vstd::prelude::*;

verus! {

pub open spec fn is_digit(c: char) -> bool {
    '0' <= c && c <= '9'
}

pub open spec fn digit_value(c: char) -> nat {
    (c as int - '0' as int) as nat
}

/// The value of a sequence of decimal digits, most significant first.
pub open spec fn digits_value(s: Seq<char>) -> nat
    decreases s.len(),
{
    if s.len() == 0 {
        0
    } else {
        digits_value(s.drop_last()) * 10 + digit_value(s.last())
    }
}

pub open spec fn all_digits(s: Seq<char>) -> bool {
    forall|i: int| 0 <= i < s.len() ==> is_digit(#[trigger] s[i])
}

/// The digits of a number, once an optional leading `+` is removed.
pub open spec fn unsigned_digits(s: Seq<char>) -> Seq<char> {
    if s.len() > 0 && s[0] == '+' {
        s.drop_first()
    } else {
        s
    }
}

/// The value `s` denotes as an unsigned integer no larger than `max`.
pub open spec fn parsed_unsigned(s: Seq<char>, max: nat) -> Option<nat> {
    let d = unsigned_digits(s);
    if d.len() > 0 && all_digits(d) && digits_value(d) <= max {
        Some(digits_value(d))
    } else {
        None
    }
}

/// A digit sequence is worth at least as much as any of its prefixes.
pub proof fn lemma_prefix_value(s: Seq<char>, k: int)
    requires
        0 <= k <= s.len(),
        all_digits(s),
    ensures
        digits_value(s.take(k)) <= digits_value(s),
    decreases s.len() - k,
{
    if k < s.len() {
        lemma_prefix_value(s, k + 1);
        assert(s.take(k + 1).drop_last() =~= s.take(k));
        assert(digits_value(s.take(k + 1)) == digits_value(s.take(k)) * 10 + digit_value(
            s.take(k + 1).last(),
        ));
    } else {
        assert(s.take(k) =~= s);
    }
}

/// Parses `s` as an unsigned decimal integer no larger than `max`.
pub fn parse_unsigned(s: &str, max: u64) -> (r: Option<u64>)
    ensures
        r matches Some(v) ==> parsed_unsigned(s@, max as nat) == Some(v as nat),
        r is None ==> parsed_unsigned(s@, max as nat) is None,
{
    let len = s.unicode_len();
    let mut start: usize = 0;
    if len > 0 && s.get_char(0) == '+' {
        start = 1;
    }
    let ghost d = unsigned_digits(s@);
    assert(d =~= s@.skip(start as int));
    if start >= len {
        return None;
    }
    let mut acc: u64 = 0;
    let mut i: usize = start;
    assert(d.take(0) =~= Seq::<char>::empty());
    while i < len
        invariant
            len == s@.len(),
            start <= i <= len,
            d =~= s@.skip(start as int),
            d == unsigned_digits(s@),
            forall|k: int| 0 <= k < i - start ==> is_digit(#[trigger] d[k]),
            acc as nat == digits_value(d.take(i - start)),
            acc <= max,
        decreases len - i,
    {
        let c = s.get_char(i);
        if c < '0' || c > '9' {
            assert(d[i - start] == c);
            assert(!all_digits(d));
            return None;
        }
        let dv: u64 = (c as u32 - '0' as u32) as u64;
        let ghost k = i - start;
        assert(d.take(k + 1).drop_last() =~= d.take(k));
        assert(d.take(k + 1).last() == c);
        assert(dv as nat == digit_value(c));
        assert(digits_value(d.take(k + 1)) == acc * 10 + dv);
        if dv > max || acc > (max - dv) / 10 {
            proof {
                assert(acc * 10 + dv > max) by (nonlinear_arith)
                    requires
                        dv > max || acc > (max - dv) / 10,
                        dv <= 9,
                ;
                assert forall|m: int| 0 <= m < k + 1 implies is_digit(#[trigger] d[m]) by {}
                if all_digits(d) {
                    lemma_prefix_value(d, k + 1);
                    assert(digits_value(d) > max);
                }
            }
            return None;
        }
        assert(acc * 10 + dv <= max) by (nonlinear_arith)
            requires
                dv <= max,
                acc <= (max - dv) / 10,
        ;
        acc = acc * 10 + dv;
        i = i + 1;
    }
    assert(d.take(d.len() as int) =~= d);
    Some(acc)
}

/// The ASCII digit of a value below ten.
pub open spec fn digit_char(d: nat) -> char {
    (d + 48) as char
}

/// The shortest decimal text of a natural number.
pub open spec fn decimal_text(n: nat) -> Seq<char>
    decreases n,
{
    if n < 10 {
        seq![digit_char(n)]
    } else {
        decimal_text(n / 10).push(digit_char(n % 10))
    }
}

proof fn lemma_decimal_text(n: nat)
    ensures
        decimal_text(n).len() > 0,
        all_digits(decimal_text(n)),
        digits_value(decimal_text(n)) == n,
        decimal_text(n)[0] != '+',
    decreases n,
{
    let d = (n % 10) as nat;
    assert(digit_char(d) as int == d + 48);
    assert('0' as int == 48);
    assert(digit_value(digit_char(d)) == d);
    if n < 10 {
        assert(digit_char(n) as int == n + 48);
        assert(digit_value(digit_char(n)) == n);
        assert(decimal_text(n) =~= seq![digit_char(n)]);
        assert(decimal_text(n).drop_last() =~= Seq::<char>::empty());
        assert(decimal_text(n).last() == digit_char(n));
        assert(digits_value(Seq::<char>::empty()) == 0);
        assert(digits_value(decimal_text(n)) == digits_value(decimal_text(n).drop_last()) * 10
            + digit_value(decimal_text(n).last()));
    } else {
        lemma_decimal_text(n / 10);
        let t = decimal_text(n / 10);
        assert(decimal_text(n).drop_last() =~= t);
        assert(decimal_text(n)[0] == t[0]);
        assert forall|i: int| 0 <= i < decimal_text(n).len() implies is_digit(
            #[trigger] decimal_text(n)[i],
        ) by {
            if i < t.len() {
                assert(decimal_text(n)[i] == t[i]);
            }
        }
        assert(decimal_text(n).last() == digit_char(d));
        assert(digits_value(decimal_text(n)) == digits_value(t) * 10 + d);
        assert(n == (n / 10) * 10 + d);
    }
}

/// Parsing reads back every number from its decimal text: the value when it
/// is no larger than the maximum, and nothing when it is larger.
pub proof fn lemma_parse_decimal_text(n: nat, max: nat)
    ensures
        n <= max ==> parsed_unsigned(decimal_text(n), max) == Some(n),
        n > max ==> parsed_unsigned(decimal_text(n), max) is None,
{
    lemma_decimal_text(n);
}

/// A leading `+` is read past once: `+` followed by text that does not
/// itself start with `+` parses as that text does. A leading `-` is never
/// accepted.
pub proof fn lemma_parse_signs(t: Seq<char>, max: nat)
    ensures
        (t.len() == 0 || t[0] != '+') ==> parsed_unsigned(seq!['+'] + t, max) == parsed_unsigned(
            t,
            max,
        ),
        parsed_unsigned(seq!['-'] + t, max) is None,
        parsed_unsigned(Seq::empty(), max) is None,
{
    assert((seq!['+'] + t).drop_first() =~= t);
    assert((seq!['-'] + t)[0] == '-');
    if t.len() == 0 || t[0] != '+' {
        assert(unsigned_digits(t) == t);
    }
}

} // verus!
