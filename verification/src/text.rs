//! Verified helpers over strings and decimal numerals: character classes,
//! prefix/suffix/substring tests, and conversions between `u64` values and
//! their decimal representations.

use vstd::prelude::*;
use vstd::string::StrSliceExecFns;

verus! {

/// Appends one character to a string.
///
/// Relies on `std`'s `String::push`, which appends the given `char` to the
/// end of the string.
#[verifier::external_body]
pub fn push_char(s: &mut String, c: char)
    ensures
        final(s)@ == old(s)@.push(c),
{
    s.push(c);
}

/// An ASCII decimal digit.
pub open spec fn is_digit_char(c: char) -> bool {
    48 <= c as u32 <= 57
}

/// An ASCII decimal digit other than zero.
pub open spec fn is_nonzero_digit_char(c: char) -> bool {
    49 <= c as u32 <= 57
}

/// A character allowed in a hostname: a digit, an ASCII letter, or a hyphen.
pub open spec fn is_host_char(c: char) -> bool {
    is_digit_char(c) || 97 <= c as u32 <= 122 || 65 <= c as u32 <= 90 || c == '-'
}

/// The numeric value of a decimal digit character.
pub open spec fn digit_val(c: char) -> nat
    recommends
        is_digit_char(c),
{
    (c as u32 - 48) as nat
}

/// The decimal digit character of a value below ten.
pub open spec fn digit_char(d: int) -> char
    recommends
        0 <= d <= 9,
{
    if d == 0 {
        '0'
    } else if d == 1 {
        '1'
    } else if d == 2 {
        '2'
    } else if d == 3 {
        '3'
    } else if d == 4 {
        '4'
    } else if d == 5 {
        '5'
    } else if d == 6 {
        '6'
    } else if d == 7 {
        '7'
    } else if d == 8 {
        '8'
    } else {
        '9'
    }
}

/// The value of a sequence of decimal digit characters, most significant
/// first.
pub open spec fn dec_value(s: Seq<char>) -> nat
    decreases s.len(),
{
    if s.len() == 0 {
        0
    } else {
        dec_value(s.drop_last()) * 10 + digit_val(s.last())
    }
}

/// The decimal representation of a number, without leading zeros (except for
/// the number zero itself, written "0").
pub open spec fn dec_repr(n: nat) -> Seq<char>
    decreases n,
{
    if n < 10 {
        seq![digit_char(n as int)]
    } else {
        dec_repr(n / 10).push(digit_char((n % 10) as int))
    }
}

/// Ten to the given power.
pub open spec fn pow10(n: nat) -> nat
    decreases n,
{
    if n == 0 {
        1
    } else {
        10 * pow10((n - 1) as nat)
    }
}

/// Every character of a decimal representation is a digit, the
/// representation is never empty, and for a positive number its first digit
/// is not zero.
pub proof fn lemma_dec_repr_digits(n: nat)
    ensures
        dec_repr(n).len() >= 1,
        forall|i: int| 0 <= i < dec_repr(n).len() ==> is_digit_char(#[trigger] dec_repr(n)[i]),
        n >= 1 ==> is_nonzero_digit_char(dec_repr(n)[0]),
    decreases n,
{
    if n >= 10 {
        lemma_dec_repr_digits(n / 10);
    }
}

/// Two characters with the same scalar value are the same character.
pub proof fn lemma_char_eq_by_u32(a: char, b: char)
    requires
        a as u32 == b as u32,
    ensures
        a == b,
{
    vstd::utf8::char_u32_cast(a, a as u32);
    vstd::utf8::char_u32_cast(b, b as u32);
}

/// A digit character holds the value it was made from.
pub proof fn lemma_digit_char_val(d: int)
    requires
        0 <= d <= 9,
    ensures
        digit_val(digit_char(d)) == d,
        is_digit_char(digit_char(d)),
        d >= 1 ==> digit_char(d) != '0',
{
}

/// Reading back the decimal representation of a number yields the number.
pub proof fn lemma_dec_value_of_repr(n: nat)
    ensures
        dec_value(dec_repr(n)) == n,
    decreases n,
{
    if n < 10 {
        lemma_digit_char_val(n as int);
        assert(dec_repr(n).drop_last() =~= Seq::<char>::empty());
        assert(dec_value(Seq::<char>::empty()) == 0);
    } else {
        lemma_dec_value_of_repr(n / 10);
        lemma_digit_char_val((n % 10) as int);
        assert(dec_repr(n).drop_last() =~= dec_repr(n / 10));
    }
}

/// A digit string's value is below ten to its length.
pub proof fn lemma_dec_value_upper(s: Seq<char>)
    requires
        forall|i: int| 0 <= i < s.len() ==> is_digit_char(#[trigger] s[i]),
    ensures
        dec_value(s) < pow10(s.len()),
    decreases s.len(),
{
    if s.len() > 0 {
        lemma_dec_value_upper(s.drop_last());
    }
}

/// A digit string that does not start with zero has a value of at least ten
/// to one less than its length.
pub proof fn lemma_dec_value_lower(s: Seq<char>)
    requires
        s.len() >= 1,
        forall|i: int| 0 <= i < s.len() ==> is_digit_char(#[trigger] s[i]),
        s[0] != '0',
    ensures
        dec_value(s) >= pow10((s.len() - 1) as nat),
    decreases s.len(),
{
    if s.len() == 1 {
        assert(s.drop_last() =~= Seq::<char>::empty());
        assert(dec_value(Seq::<char>::empty()) == 0);
        assert(s.last() == s[0]);
        assert(s[0] as u32 != 48) by {
            if s[0] as u32 == 48 {
                lemma_char_eq_by_u32(s[0], '0');
            }
        }
        assert(digit_val(s.last()) >= 1);
    } else {
        lemma_dec_value_lower(s.drop_last());
    }
}

/// Parses the digit run `s[from..to]` as a `u64`, or reports that its value
/// does not fit.
pub fn parse_decimal_u64(s: &str, from: usize, to: usize) -> (r: Option<u64>)
    requires
        from < to <= s@.len(),
        forall|i: int| from <= i < to ==> is_digit_char(#[trigger] s@[i]),
        s@[from as int] != '0',
    ensures
        r is Some <==> dec_value(s@.subrange(from as int, to as int)) <= u64::MAX,
        r matches Some(v) ==> v == dec_value(s@.subrange(from as int, to as int)),
{
    let ghost digits = s@.subrange(from as int, to as int);
    if to - from > 20 {
        proof {
            lemma_dec_value_lower(digits);
            lemma_pow10_mono(20, (digits.len() - 1) as nat);
            lemma_pow10_values();
        }
        return Option::None;
    }
    let mut acc: u128 = 0;
    let mut i: usize = from;
    while i < to
        invariant
            from <= i <= to <= s@.len(),
            to - from <= 20,
            forall|j: int| from <= j < to ==> is_digit_char(#[trigger] s@[j]),
            digits == s@.subrange(from as int, to as int),
            acc == dec_value(digits.subrange(0, i - from)),
            acc < pow10((i - from) as nat),
        decreases to - i,
    {
        let c = s.get_char(i);
        let d: u128 = (c as u32 - 48) as u128;
        proof {
            let pre = digits.subrange(0, i - from);
            let post = digits.subrange(0, i + 1 - from);
            assert(post.drop_last() =~= pre);
            assert(post.last() == s@[i as int]);
            lemma_pow10_mono((i + 1 - from) as nat, 20);
            lemma_pow10_values();
        }
        acc = acc * 10 + d;
        i = i + 1;
    }
    proof {
        assert(digits.subrange(0, to - from) =~= digits);
    }
    if acc <= 0xffff_ffff_ffff_ffffu128 {
        Option::Some(acc as u64)
    } else {
        Option::None
    }
}

/// The concrete values of the powers of ten that bound `u64` and `u32`
/// parsing.
pub proof fn lemma_pow10_values()
    ensures
        pow10(10) == 10_000_000_000,
        pow10(20) == 100_000_000_000_000_000_000,
{
    reveal_with_fuel(pow10, 21);
}

/// Ten to a power never shrinks as the exponent grows.
pub proof fn lemma_pow10_mono(a: nat, b: nat)
    requires
        a <= b,
    ensures
        pow10(a) <= pow10(b),
    decreases b,
{
    if a < b {
        lemma_pow10_mono(a, (b - 1) as nat);
        assert(pow10(b) == 10 * pow10((b - 1) as nat));
    }
}

/// The decimal digit character of a value below ten, executably.
pub fn digit_to_char(d: u64) -> (c: char)
    requires
        d <= 9,
    ensures
        c == digit_char(d as int),
{
    if d == 0 {
        '0'
    } else if d == 1 {
        '1'
    } else if d == 2 {
        '2'
    } else if d == 3 {
        '3'
    } else if d == 4 {
        '4'
    } else if d == 5 {
        '5'
    } else if d == 6 {
        '6'
    } else if d == 7 {
        '7'
    } else if d == 8 {
        '8'
    } else {
        '9'
    }
}

/// Appends the decimal representation of `n` to `out`.
pub fn push_decimal(out: &mut String, n: u64)
    ensures
        final(out)@ == old(out)@ + dec_repr(n as nat),
    decreases n,
{
    if n < 10 {
        push_char(out, digit_to_char(n));
        proof {
            assert(old(out)@.push(digit_char(n as int)) =~= old(out)@ + dec_repr(n as nat));
        }
    } else {
        push_decimal(out, n / 10);
        push_char(out, digit_to_char(n % 10));
        proof {
            assert(old(out)@ + dec_repr((n / 10) as nat).push(digit_char((n % 10) as int)) =~= (
            old(out)@ + dec_repr((n / 10) as nat)).push(digit_char((n % 10) as int)));
        }
    }
}

/// The decimal representation of a `u64` as a string.
pub fn u64_to_string(n: u64) -> (r: String)
    ensures
        r@ == dec_repr(n as nat),
{
    let mut s = String::new();
    push_decimal(&mut s, n);
    proof {
        assert(Seq::<char>::empty() + dec_repr(n as nat) =~= dec_repr(n as nat));
    }
    s
}

/// `p` occurs in `s` at position `i`.
pub open spec fn spec_contains_at(s: Seq<char>, p: Seq<char>, i: int) -> bool {
    0 <= i && i + p.len() <= s.len() && s.subrange(i, i + p.len()) == p
}

/// `s` begins with `p`.
pub open spec fn spec_starts_with(s: Seq<char>, p: Seq<char>) -> bool {
    spec_contains_at(s, p, 0)
}

/// `s` ends with `p`.
pub open spec fn spec_ends_with(s: Seq<char>, p: Seq<char>) -> bool {
    p.len() <= s.len() && spec_contains_at(s, p, s.len() - p.len())
}

/// `p` occurs somewhere in `s`.
pub open spec fn spec_contains(s: Seq<char>, p: Seq<char>) -> bool {
    exists|i: int| spec_contains_at(s, p, i)
}

/// Compares `s[i..i + p.len()]` with `p`.
pub fn str_eq_from(s: &str, i: usize, p: &str) -> (r: bool)
    requires
        i + p@.len() <= s@.len(),
    ensures
        r == spec_contains_at(s@, p@, i as int),
{
    let slen = s.unicode_len();
    let plen = p.unicode_len();
    let mut j: usize = 0;
    while j < plen
        invariant
            slen == s@.len(),
            plen == p@.len(),
            i + plen <= slen,
            0 <= j <= plen,
            forall|k: int| 0 <= k < j ==> s@[i + k] == p@[k],
        decreases plen - j,
    {
        if s.get_char(i + j) != p.get_char(j) {
            proof {
                assert(s@.subrange(i as int, i + p@.len())[j as int] != p@[j as int]);
            }
            return false;
        }
        j = j + 1;
    }
    proof {
        assert(s@.subrange(i as int, i + p@.len()) =~= p@);
    }
    true
}

/// Whether `s` begins with `p`.
pub fn str_starts_with(s: &str, p: &str) -> (r: bool)
    ensures
        r == spec_starts_with(s@, p@),
{
    let slen = s.unicode_len();
    let plen = p.unicode_len();
    if plen > slen {
        false
    } else {
        str_eq_from(s, 0, p)
    }
}

/// Whether `s` ends with `p`.
pub fn str_ends_with(s: &str, p: &str) -> (r: bool)
    ensures
        r == spec_ends_with(s@, p@),
{
    let slen = s.unicode_len();
    let plen = p.unicode_len();
    if plen > slen {
        false
    } else {
        str_eq_from(s, slen - plen, p)
    }
}

/// Whether `p` occurs somewhere in `s`.
pub fn str_contains(s: &str, p: &str) -> (r: bool)
    ensures
        r == spec_contains(s@, p@),
{
    let slen = s.unicode_len();
    let plen = p.unicode_len();
    if plen > slen {
        proof {
            assert(forall|i: int| !spec_contains_at(s@, p@, i));
        }
        return false;
    }
    if plen == 0 {
        proof {
            assert(s@.subrange(0, 0) =~= p@);
            assert(spec_contains_at(s@, p@, 0));
        }
        return true;
    }
    let mut i: usize = 0;
    while i <= slen - plen
        invariant
            slen == s@.len(),
            plen == p@.len(),
            1 <= plen <= slen,
            0 <= i <= slen - plen + 1,
            forall|k: int| 0 <= k < i ==> !spec_contains_at(s@, p@, k),
        decreases slen - plen + 1 - i,
    {
        if str_eq_from(s, i, p) {
            return true;
        }
        i = i + 1;
    }
    proof {
        assert(forall|k: int| spec_contains_at(s@, p@, k) ==> 0 <= k <= s@.len() - p@.len());
    }
    false
}

/// Whether two string slices hold the same characters.
pub fn str_eq(a: &str, b: &str) -> (r: bool)
    ensures
        r == (a@ == b@),
{
    let alen = a.unicode_len();
    let blen = b.unicode_len();
    if alen != blen {
        return false;
    }
    let e = str_eq_from(a, 0, b);
    proof {
        if e {
            assert(a@.subrange(0, b@.len() as int) =~= a@);
        } else {
            assert(a@.subrange(0, b@.len() as int) =~= a@);
        }
    }
    e
}

/// The position of the first occurrence of `c` in `s`, if any.
pub fn str_find_char(s: &str, c: char) -> (r: Option<usize>)
    ensures
        r matches Some(i) ==> i < s@.len() && s@[i as int] == c && forall|j: int|
            0 <= j < i ==> s@[j] != c,
        r is None ==> forall|j: int| 0 <= j < s@.len() ==> s@[j] != c,
{
    let slen = s.unicode_len();
    let mut i: usize = 0;
    while i < slen
        invariant
            slen == s@.len(),
            0 <= i <= slen,
            forall|j: int| 0 <= j < i ==> s@[j] != c,
        decreases slen - i,
    {
        if s.get_char(i) == c {
            return Option::Some(i);
        }
        i = i + 1;
    }
    Option::None
}

} // verus!
