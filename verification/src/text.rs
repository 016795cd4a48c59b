use vstd::prelude::*;
use vstd::string::*;

verus! {

/// A decimal digit character.
pub open spec fn is_digit(c: char) -> bool {
    '0' <= c && c <= '9'
}

/// The value of a decimal digit character.
pub open spec fn digit_value(c: char) -> nat {
    (c as int - '0' as int) as nat
}

/// The character of a decimal digit.
pub open spec fn digit_char(d: nat) -> char {
    (d + '0' as int) as char
}

/// Every character of `s` is a decimal digit.
pub open spec fn all_digits(s: Seq<char>) -> bool {
    forall|i: int| 0 <= i < s.len() ==> is_digit(#[trigger] s[i])
}

/// The number that a string of decimal digits denotes.
pub open spec fn digits_value(s: Seq<char>) -> nat
    decreases s.len(),
{
    if s.len() == 0 {
        0
    } else {
        digits_value(s.drop_last()) * 10 + digit_value(s.last())
    }
}

/// What reading `s` as a base-ten `i32` gives: an optional `+` or `-`, then at least one
/// digit, and a value that fits; `None` for every other text.
pub open spec fn parse_i32_spec(s: Seq<char>) -> Option<i32> {
    if s.len() > 0 && s[0] == '-' {
        let d = s.drop_first();
        if d.len() > 0 && all_digits(d) && digits_value(d) <= 0x8000_0000 {
            Some((0 - digits_value(d)) as i32)
        } else {
            None
        }
    } else {
        let d = if s.len() > 0 && s[0] == '+' {
            s.drop_first()
        } else {
            s
        };
        if d.len() > 0 && all_digits(d) && digits_value(d) <= 0x7fff_ffff {
            Some(digits_value(d) as i32)
        } else {
            None
        }
    }
}

/// The shortest base-ten digits of `n`.
pub open spec fn nat_text(n: nat) -> Seq<char>
    decreases n,
{
    if n < 10 {
        seq![digit_char(n)]
    } else {
        nat_text(n / 10).push(digit_char(n % 10))
    }
}

/// The base-ten text of `i`, with a leading `-` when it is negative.
pub open spec fn int_text(i: int) -> Seq<char> {
    if i < 0 {
        seq!['-'] + nat_text((0 - i) as nat)
    } else {
        nat_text(i as nat)
    }
}

proof fn lemma_digit_char(d: nat)
    requires
        d < 10,
    ensures
        is_digit(digit_char(d)),
        digit_value(digit_char(d)) == d,
{
}

proof fn lemma_nat_text(n: nat)
    ensures
        nat_text(n).len() > 0,
        all_digits(nat_text(n)),
        digits_value(nat_text(n)) == n,
    decreases n,
{
    if n < 10 {
        lemma_digit_char(n);
        assert(nat_text(n).drop_last() =~= Seq::<char>::empty());
        assert(digits_value(Seq::<char>::empty()) == 0);
    } else {
        lemma_nat_text(n / 10);
        lemma_digit_char(n % 10);
        let t = nat_text(n);
        assert(t.drop_last() =~= nat_text(n / 10));
        assert(t.last() == digit_char(n % 10));
        assert(digits_value(t) == (n / 10) * 10 + n % 10);
        assert forall|i: int| 0 <= i < t.len() implies is_digit(#[trigger] t[i]) by {
            if i < t.len() - 1 {
                assert(t[i] == nat_text(n / 10)[i]);
            }
        }
    }
}

/// Reading back the base-ten text of any `i32` gives that number.
pub proof fn lemma_parse_int_text(i: i32)
    ensures
        parse_i32_spec(int_text(i as int)) == Some(i),
{
    if i < 0 {
        let m: nat = (0 - i) as nat;
        lemma_nat_text(m);
        let s = int_text(i as int);
        assert(s.drop_first() =~= nat_text(m));
        assert(s[0] == '-');
    } else {
        let m: nat = i as nat;
        lemma_nat_text(m);
        let s = int_text(i as int);
        assert(is_digit(s[0]));
    }
}

/// What reading an `i32` accepts: decimal digits, alone or after one `+` or `-`; the number
/// is the digits' value, negated after a `-`, and is read exactly when it fits in an `i32`.
pub proof fn lemma_parse_i32_reads_numbers(d: Seq<char>)
    requires
        d.len() > 0,
        forall|i: int| 0 <= i < d.len() ==> '0' <= #[trigger] d[i] && d[i] <= '9',
    ensures
        digits_value(d) <= i32::MAX ==> parse_i32_spec(d) == Some(digits_value(d) as i32),
        digits_value(d) <= i32::MAX ==> parse_i32_spec(seq!['+'] + d) == Some(digits_value(d) as i32),
        digits_value(d) <= 0x8000_0000 ==> parse_i32_spec(seq!['-'] + d) == Some((0 - digits_value(d)) as i32),
        digits_value(d) > i32::MAX ==> parse_i32_spec(d) is None && parse_i32_spec(seq!['+'] + d) is None,
        digits_value(d) > 0x8000_0000 ==> parse_i32_spec(seq!['-'] + d) is None,
{
    assert(all_digits(d));
    assert((seq!['+'] + d).drop_first() =~= d);
    assert((seq!['-'] + d).drop_first() =~= d);
    assert((seq!['+'] + d)[0] == '+');
    assert((seq!['-'] + d)[0] == '-');
    assert(is_digit(d[0]));
}

/// Reading an `i32` rejects the empty text, a lone sign, and any text with a character
/// that is neither a digit nor a leading sign.
pub proof fn lemma_parse_i32_rejects(s: Seq<char>, i: int)
    ensures
        s.len() == 0 ==> parse_i32_spec(s) is None,
        s =~= seq!['+'] || s =~= seq!['-'] ==> parse_i32_spec(s) is None,
        0 <= i < s.len() && !('0' <= s[i] && s[i] <= '9') && !(i == 0 && (s[0] == '+' || s[0] == '-'))
            ==> parse_i32_spec(s) is None,
{
    if 0 <= i < s.len() && !('0' <= s[i] && s[i] <= '9') && !(i == 0 && (s[0] == '+' || s[0] == '-')) {
        if s[0] == '+' || s[0] == '-' {
            assert(s.drop_first()[i - 1] == s[i]);
        }
    }
}

/// A string of digits denotes at least as much as each of its prefixes.
proof fn lemma_prefix_value_le(s: Seq<char>, j: int)
    requires
        all_digits(s),
        0 <= j <= s.len(),
    ensures
        digits_value(s.take(j)) <= digits_value(s),
    decreases s.len(),
{
    if j < s.len() {
        let t = s.drop_last();
        assert(t.take(j) =~= s.take(j));
        assert(all_digits(t)) by {
            assert forall|i: int| 0 <= i < t.len() implies is_digit(#[trigger] t[i]) by {
                assert(t[i] == s[i]);
            }
        }
        lemma_prefix_value_le(t, j);
    } else {
        assert(s.take(j) =~= s);
    }
}

/// Appends a character to a string.
/// Trusted: `String::push`, of which std documents that it appends the character at the end.
#[verifier::external_body]
fn push_char(s: &mut String, c: char)
    ensures
        final(s)@ == old(s)@.push(c),
{
    s.push(c)
}

fn digit_char_of(d: u32) -> (c: char)
    requires
        d < 10,
    ensures
        c == digit_char(d as nat),
{
    ((d + 48) as u8) as char
}

fn push_nat_text(out: &mut String, n: u32)
    ensures
        final(out)@ == old(out)@ + nat_text(n as nat),
    decreases n,
{
    if n >= 10 {
        push_nat_text(out, n / 10);
    }
    push_char(out, digit_char_of(n % 10));
    assert(final(out)@ =~= old(out)@ + nat_text(n as nat));
}

/// The base-ten text of `value`, as `Display` writes an `i32`.
pub fn i32_text(value: i32) -> (r: String)
    ensures
        r@ == int_text(value as int),
{
    let mut out = String::new();
    if value < 0 {
        push_char(&mut out, '-');
        let magnitude: u32 = (0 - (value as i64)) as u32;
        push_nat_text(&mut out, magnitude);
        assert(out@ =~= seq!['-'] + nat_text((0 - value) as nat));
    } else {
        push_nat_text(&mut out, value as u32);
        assert(out@ =~= nat_text(value as nat));
    }
    out
}

/// Reads `s` as a base-ten `i32`, as `str::parse::<i32>` does: `None` where that call
/// returns an error.
pub fn parse_i32(s: &str) -> (r: Option<i32>)
    ensures
        r == parse_i32_spec(s@),
{
    let n = s.unicode_len();
    if n == 0 {
        return None;
    }
    let first = s.get_char(0);
    let negative = first == '-';
    let start: usize = if first == '-' || first == '+' { 1 } else { 0 };
    let ghost d: Seq<char> = s@.subrange(start as int, n as int);
    proof {
        if start == 1 {
            assert(d =~= s@.drop_first());
        } else {
            assert(d =~= s@);
        }
    }
    if start == n {
        return None;
    }
    let limit: u64 = if negative { 0x8000_0000 } else { 0x7fff_ffff };
    let mut acc: u64 = 0;
    let mut i: usize = start;
    assert(d.take(0) =~= Seq::<char>::empty());
    while i < n
        invariant
            start <= i <= n,
            n == s@.len(),
            d == s@.subrange(start as int, n as int),
            all_digits(d.take(i - start)),
            acc == digits_value(d.take(i - start)),
            acc <= limit,
            s@.len() > 0,
            negative == (s@[0] == '-'),
            start == 1 ==> d == s@.drop_first(),
            start == 0 ==> d == s@ && s@[0] != '-' && s@[0] != '+',
            start == 1 ==> (s@[0] == '-' || s@[0] == '+'),
            start <= 1,
            limit == (if negative { 0x8000_0000u64 } else { 0x7fff_ffffu64 }),
        decreases n - i,
    {
        let c = s.get_char(i);
        let ghost k: int = i - start;
        assert(d[k] == c);
        if !('0' <= c && c <= '9') {
            assert(!all_digits(d));
            return None;
        }
        let next: u64 = acc * 10 + (c as u64 - 48);
        assert(d.take(k + 1).drop_last() =~= d.take(k));
        assert(d.take(k + 1).last() == c);
        assert(all_digits(d.take(k + 1))) by {
            assert forall|j: int| 0 <= j < k + 1 implies is_digit(#[trigger] d.take(k + 1)[j]) by {
                if j < k {
                    assert(d.take(k + 1)[j] == d.take(k)[j]);
                }
            }
        }
        if next > limit {
            proof {
                if all_digits(d) {
                    lemma_prefix_value_le(d, k + 1);
                }
            }
            return None;
        }
        acc = next;
        i = i + 1;
    }
    assert(d.take(i - start) =~= d);
    if negative {
        Some((0 - (acc as i64)) as i32)
    } else {
        Some(acc as i32)
    }
}

} // verus!
