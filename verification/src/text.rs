//! Decimal text helpers shared by every scalar type: specifications of
//! zero-padded decimal numerals, verified formatting into a `String`, and
//! verified parsing of fixed-width digit runs.

use vstd::prelude::*;

verus! {

use vstd::string::StringExecFns;

/// The decimal digit character for `d` (0 through 9).
pub open spec fn spec_digit_char(d: int) -> char {
    if d == 0 {
        '0'
    } else if d == 1 {
        '1'
    } else if d == 2 {
        '2'
    } else if d == 3 {
        '3'
    } else if d == 4 {
        '4'
    } else if d == 5 {
        '5'
    } else if d == 6 {
        '6'
    } else if d == 7 {
        '7'
    } else if d == 8 {
        '8'
    } else {
        '9'
    }
}

/// Whether `c` is a decimal digit character.
pub open spec fn spec_is_digit(c: char) -> bool {
    48 <= c as int <= 57
}

/// The numeric value of the digit character `c`.
pub open spec fn spec_digit_val(c: char) -> int {
    c as int - 48
}

/// Whether every character of `s` is a decimal digit.
pub open spec fn spec_all_digits(s: Seq<char>) -> bool {
    forall|i: int| 0 <= i < s.len() ==> spec_is_digit(#[trigger] s[i])
}

/// The numeric value of the digit run `s`, read most significant first.
pub open spec fn spec_digits_val(s: Seq<char>) -> int
    decreases s.len(),
{
    if s.len() == 0 {
        0
    } else {
        spec_digits_val(s.drop_last()) * 10 + spec_digit_val(s.last())
    }
}

/// Ten to the power `k`.
pub open spec fn spec_pow10(k: int) -> int
    decreases k,
{
    if k <= 0 {
        1
    } else {
        10 * spec_pow10(k - 1)
    }
}

/// A digit run of length `k` has a value below ten to the `k`.
pub proof fn lemma_digits_val_bound(s: Seq<char>)
    requires
        spec_all_digits(s),
    ensures
        0 <= spec_digits_val(s) < spec_pow10(s.len() as int),
    decreases s.len(),
{
    if s.len() > 0 {
        assert(spec_is_digit(s.last()));
        lemma_digits_val_bound(s.drop_last());
    }
}

/// The two-character zero-padded numeral of `n` (0 through 99).
pub open spec fn spec_dec2(n: int) -> Seq<char> {
    seq![spec_digit_char(n / 10), spec_digit_char(n % 10)]
}

/// The three-character zero-padded numeral of `n` (0 through 999).
pub open spec fn spec_dec3(n: int) -> Seq<char> {
    seq![spec_digit_char(n / 100), spec_digit_char((n / 10) % 10), spec_digit_char(n % 10)]
}

/// The four-character zero-padded numeral of `n` (0 through 9999).
pub open spec fn spec_dec4(n: int) -> Seq<char> {
    seq![
        spec_digit_char(n / 1000),
        spec_digit_char((n / 100) % 10),
        spec_digit_char((n / 10) % 10),
        spec_digit_char(n % 10),
    ]
}

/// The five-character zero-padded numeral of `n` (0 through 99999).
pub open spec fn spec_dec5(n: int) -> Seq<char> {
    seq![
        spec_digit_char(n / 10000),
        spec_digit_char((n / 1000) % 10),
        spec_digit_char((n / 100) % 10),
        spec_digit_char((n / 10) % 10),
        spec_digit_char(n % 10),
    ]
}

/// The digit character of `d` is a digit and carries the value `d`.
proof fn lemma_digit_char_val(d: int)
    requires
        0 <= d < 10,
    ensures
        spec_is_digit(spec_digit_char(d)),
        spec_digit_val(spec_digit_char(d)) == d,
{
}

/// The two-character numeral of `n` is all digits and reads back as `n`.
pub proof fn lemma_dec2_round_trip(n: int)
    requires
        0 <= n < 100,
    ensures
        spec_dec2(n).len() == 2,
        spec_all_digits(spec_dec2(n)),
        spec_digits_val(spec_dec2(n)) == n,
{
    reveal_with_fuel(spec_digits_val, 6);
    vstd::arithmetic::div_mod::lemma_fundamental_div_mod(n, 10);
    vstd::arithmetic::div_mod::lemma_mod_bound(n, 10);
    lemma_digit_char_val(n / 10);
    lemma_digit_char_val(n % 10);
    let s = spec_dec2(n);
    assert(s.drop_last() =~= seq![spec_digit_char(n / 10)]);
    assert(s.drop_last().drop_last() =~= Seq::<char>::empty());
    assert forall|i: int| 0 <= i < s.len() implies spec_is_digit(#[trigger] s[i]) by {
        if i == 0 {
        } else {
            assert(i == 1);
        }
    }
}

/// The four-character numeral of `n` is all digits and reads back as
/// `n`.
pub proof fn lemma_dec4_round_trip(n: int)
    requires
        0 <= n < 10000,
    ensures
        spec_dec4(n).len() == 4,
        spec_all_digits(spec_dec4(n)),
        spec_digits_val(spec_dec4(n)) == n,
{
    reveal_with_fuel(spec_digits_val, 6);
    vstd::arithmetic::div_mod::lemma_fundamental_div_mod(n, 10);
    vstd::arithmetic::div_mod::lemma_mod_bound(n, 10);
    vstd::arithmetic::div_mod::lemma_fundamental_div_mod(n / 10, 10);
    vstd::arithmetic::div_mod::lemma_mod_bound(n / 10, 10);
    vstd::arithmetic::div_mod::lemma_fundamental_div_mod_converse(
        n,
        100,
        n / 10 / 10,
        10 * ((n / 10) % 10) + n % 10,
    );
    vstd::arithmetic::div_mod::lemma_fundamental_div_mod(n / 100, 10);
    vstd::arithmetic::div_mod::lemma_mod_bound(n / 100, 10);
    vstd::arithmetic::div_mod::lemma_fundamental_div_mod_converse(
        n,
        1000,
        n / 100 / 10,
        100 * ((n / 100) % 10) + 10 * ((n / 10) % 10) + n % 10,
    );
    lemma_digit_char_val(n / 1000);
    lemma_digit_char_val((n / 100) % 10);
    lemma_digit_char_val((n / 10) % 10);
    lemma_digit_char_val(n % 10);
    let s = spec_dec4(n);
    assert(s.drop_last() =~= seq![
        spec_digit_char(n / 1000),
        spec_digit_char((n / 100) % 10),
        spec_digit_char((n / 10) % 10),
    ]);
    assert(s.drop_last().drop_last() =~= seq![
        spec_digit_char(n / 1000),
        spec_digit_char((n / 100) % 10),
    ]);
    assert(s.drop_last().drop_last().drop_last() =~= seq![spec_digit_char(n / 1000)]);
    assert(s.drop_last().drop_last().drop_last().drop_last() =~= Seq::<char>::empty());
    assert forall|i: int| 0 <= i < s.len() implies spec_is_digit(#[trigger] s[i]) by {
        if i == 0 {
        } else if i == 1 {
        } else if i == 2 {
        } else {
            assert(i == 3);
        }
    }
    assert(spec_digits_val(s) == (((n / 1000) * 10 + (n / 100) % 10) * 10 + (n / 10) % 10) * 10 + n
        % 10);
}

/// Appends the digit character for `d` to `out`.
pub fn push_digit(out: &mut String, d: u64)
    requires
        d < 10,
    ensures
        final(out)@ == old(out)@ + seq![spec_digit_char(d as int)],
{
    proof {
        reveal_strlit("0");
        reveal_strlit("1");
        reveal_strlit("2");
        reveal_strlit("3");
        reveal_strlit("4");
        reveal_strlit("5");
        reveal_strlit("6");
        reveal_strlit("7");
        reveal_strlit("8");
        reveal_strlit("9");
    }
    if d == 0 {
        out.append("0");
    } else if d == 1 {
        out.append("1");
    } else if d == 2 {
        out.append("2");
    } else if d == 3 {
        out.append("3");
    } else if d == 4 {
        out.append("4");
    } else if d == 5 {
        out.append("5");
    } else if d == 6 {
        out.append("6");
    } else if d == 7 {
        out.append("7");
    } else if d == 8 {
        out.append("8");
    } else {
        out.append("9");
    }
    proof {
        assert(final(out)@ =~= old(out)@ + seq![spec_digit_char(d as int)]);
    }
}

/// Appends the two-character zero-padded numeral of `n` to `out`.
pub fn push_2_digits(out: &mut String, n: u64)
    requires
        n < 100,
    ensures
        final(out)@ == old(out)@ + spec_dec2(n as int),
{
    push_digit(out, n / 10);
    push_digit(out, n % 10);
    proof {
        assert(final(out)@ =~= old(out)@ + spec_dec2(n as int));
    }
}

/// Appends the three-character zero-padded numeral of `n` to `out`.
pub fn push_3_digits(out: &mut String, n: u64)
    requires
        n < 1000,
    ensures
        final(out)@ == old(out)@ + spec_dec3(n as int),
{
    push_digit(out, n / 100);
    push_digit(out, (n / 10) % 10);
    push_digit(out, n % 10);
    proof {
        assert(final(out)@ =~= old(out)@ + spec_dec3(n as int));
    }
}

/// Appends the four-character zero-padded numeral of `n` to `out`.
pub fn push_4_digits(out: &mut String, n: u64)
    requires
        n < 10000,
    ensures
        final(out)@ == old(out)@ + spec_dec4(n as int),
{
    push_digit(out, n / 1000);
    push_digit(out, (n / 100) % 10);
    push_digit(out, (n / 10) % 10);
    push_digit(out, n % 10);
    proof {
        assert(final(out)@ =~= old(out)@ + spec_dec4(n as int));
    }
}

/// Appends the five-character zero-padded numeral of `n` to `out`.
pub fn push_5_digits(out: &mut String, n: u64)
    requires
        n < 100000,
    ensures
        final(out)@ == old(out)@ + spec_dec5(n as int),
{
    push_digit(out, n / 10000);
    push_digit(out, (n / 1000) % 10);
    push_digit(out, (n / 100) % 10);
    push_digit(out, (n / 10) % 10);
    push_digit(out, n % 10);
    proof {
        assert(final(out)@ =~= old(out)@ + spec_dec5(n as int));
    }
}

/// Parses `s` as an unsigned decimal numeral; `None` when some character
/// is not a digit.
pub fn parse_digits(s: &str) -> (r: Option<u32>)
    requires
        s@.len() <= 5,
    ensures
        r is Some <==> spec_all_digits(s@),
        spec_all_digits(s@) ==> r == Some(spec_digits_val(s@) as u32),
{
    let len = s.unicode_len();
    let mut i: usize = 0;
    let mut acc: u32 = 0;
    while i < len
        invariant
            0 <= i <= len,
            len == s@.len(),
            len <= 5,
            spec_all_digits(s@.subrange(0, i as int)),
            acc == spec_digits_val(s@.subrange(0, i as int)),
        decreases len - i,
    {
        let c = s.get_char(i);
        let u = c as u32;
        if u < 48 || u > 57 {
            assert(!spec_is_digit(s@[i as int]));
            return None;
        }
        proof {
            lemma_digits_val_bound(s@.subrange(0, i as int));
            reveal_with_fuel(spec_pow10, 6);
            assert(s@.subrange(0, i as int + 1).drop_last() =~= s@.subrange(0, i as int));
        }
        acc = acc * 10 + (u - 48);
        i = i + 1;
    }
    proof {
        assert(s@.subrange(0, len as int) =~= s@);
        lemma_digits_val_bound(s@);
        reveal_with_fuel(spec_pow10, 6);
    }
    Some(acc)
}

} // verus!
