//! Text rules shared by the metadata and the artwork cache.

use vstd::prelude::*;

verus! {

/// `String::push` adds one character at the end of the string.
pub assume_specification[ String::push ](s: &mut String, c: char)
    ensures
        final(s)@ == old(s)@.push(c),
;

/// `str::trim` returns the text without the white space at its two ends, white
/// space being the Unicode property `White_Space`.
pub assume_specification[ str::trim ](s: &str) -> (res: &str)
    ensures
        res@ == trimmed(s@),
;

/// The characters with the Unicode property `White_Space`.
pub open spec fn is_white_space(c: char) -> bool {
    ||| '\u{9}' <= c <= '\u{d}'
    ||| c == ' '
    ||| c == '\u{85}'
    ||| c == '\u{a0}'
    ||| c == '\u{1680}'
    ||| '\u{2000}' <= c <= '\u{200a}'
    ||| c == '\u{2028}'
    ||| c == '\u{2029}'
    ||| c == '\u{202f}'
    ||| c == '\u{205f}'
    ||| c == '\u{3000}'
}

/// `s` without its leading white space.
pub open spec fn without_leading(s: Seq<char>) -> Seq<char>
    decreases s.len(),
{
    if s.len() > 0 && is_white_space(s[0]) {
        without_leading(s.drop_first())
    } else {
        s
    }
}

/// `s` without its trailing white space.
pub open spec fn without_trailing(s: Seq<char>) -> Seq<char>
    decreases s.len(),
{
    if s.len() > 0 && is_white_space(s.last()) {
        without_trailing(s.drop_last())
    } else {
        s
    }
}

/// `s` without the white space at its two ends.
pub open spec fn trimmed(s: Seq<char>) -> Seq<char> {
    without_trailing(without_leading(s))
}

/// Nothing but white space, or nothing at all.
pub open spec fn is_blank(s: Seq<char>) -> bool {
    forall|i: int| 0 <= i < s.len() ==> is_white_space(#[trigger] s[i])
}

proof fn lemma_without_leading(s: Seq<char>)
    ensures
        without_leading(s).len() <= s.len(),
        without_leading(s) == s.skip(s.len() - without_leading(s).len()),
        is_blank(s.take(s.len() - without_leading(s).len())),
        without_leading(s).len() > 0 ==> !is_white_space(without_leading(s)[0]),
    decreases s.len(),
{
    if s.len() > 0 && is_white_space(s[0]) {
        let rest = s.drop_first();
        lemma_without_leading(rest);
        let n = s.len() - without_leading(s).len();
        assert(rest.skip(n - 1) =~= s.skip(n));
        assert forall|i: int| 0 <= i < n implies is_white_space(#[trigger] s.take(n)[i]) by {
            if i > 0 {
                assert(s.take(n)[i] == rest.take(n - 1)[i - 1]);
            }
        }
    } else {
        assert(s.skip(0) =~= s);
    }
}

proof fn lemma_without_trailing(s: Seq<char>)
    ensures
        without_trailing(s).len() <= s.len(),
        without_trailing(s) == s.take(without_trailing(s).len() as int),
        is_blank(s.skip(without_trailing(s).len() as int)),
        without_trailing(s).len() > 0 ==> !is_white_space(without_trailing(s).last()),
    decreases s.len(),
{
    if s.len() > 0 && is_white_space(s.last()) {
        let rest = s.drop_last();
        lemma_without_trailing(rest);
        let n = without_trailing(s).len() as int;
        assert(rest.take(n) =~= s.take(n));
        assert forall|i: int| 0 <= i < s.len() - n implies is_white_space(
            #[trigger] s.skip(n)[i],
        ) by {
            if i < s.len() - n - 1 {
                assert(s.skip(n)[i] == rest.skip(n)[i]);
            }
        }
    } else {
        assert(s.take(s.len() as int) =~= s);
    }
}

/// Trimming leaves nothing exactly of blank text.
pub proof fn law_trimmed_is_empty_iff_blank(s: Seq<char>)
    ensures
        trimmed(s).len() == 0 <==> is_blank(s),
{
    let lead = without_leading(s);
    let n = s.len() - lead.len();
    lemma_without_leading(s);
    lemma_without_trailing(lead);
    if is_blank(s) {
        if lead.len() > 0 {
            assert(lead[0] == s[n]);
        }
    } else if trimmed(s).len() == 0 {
        assert forall|i: int| 0 <= i < s.len() implies is_white_space(#[trigger] s[i]) by {
            if i < n {
                assert(s[i] == s.take(n)[i]);
            } else {
                assert(s[i] == lead.skip(0)[i - n]);
            }
        }
    }
}

/// Trimming a text twice is trimming it once.
pub proof fn law_trimming_is_idempotent(s: Seq<char>)
    ensures
        trimmed(trimmed(s)) == trimmed(s),
{
    let lead = without_leading(s);
    let t = trimmed(s);
    lemma_without_leading(s);
    lemma_without_trailing(lead);
    if t.len() > 0 {
        assert(t[0] == lead[0]);
        assert(without_leading(t) == t);
    }
}

/// Whether the text holds nothing but white space.
pub fn blank(s: &str) -> (r: bool)
    ensures
        r == is_blank(s@),
{
    proof {
        law_trimmed_is_empty_iff_blank(s@);
    }
    s.trim().is_empty()
}

/// The decimal digits of `n`, most significant first, without leading zeros.
pub open spec fn decimal(n: nat) -> Seq<char>
    decreases n,
{
    if n < 10 {
        seq![decimal_digit(n)]
    } else {
        decimal(n / 10).push(decimal_digit(n % 10))
    }
}

/// The character of one decimal digit.
pub open spec fn decimal_digit(d: nat) -> char {
    ('0' as u32 + d) as char
}

/// A character from `0` to `9`.
pub open spec fn is_digit(c: char) -> bool {
    '0' <= c <= '9'
}

/// Appends the decimal digits of `n`.
pub fn push_decimal(out: &mut String, n: u64)
    ensures
        final(out)@ == old(out)@ + decimal(n as nat),
    decreases n,
{
    let d: u8 = (n % 10) as u8;
    let c: char = (48u8 + d) as char;
    assert(c == decimal_digit(n as nat % 10));
    if n >= 10 {
        push_decimal(out, n / 10);
    }
    out.push(c);
    assert(out@ =~= old(out)@ + decimal(n as nat));
}

/// Decimal text is made of digits, and is never empty.
pub proof fn lemma_decimal_digits(n: nat)
    ensures
        decimal(n).len() > 0,
        forall|i: int| 0 <= i < decimal(n).len() ==> is_digit(#[trigger] decimal(n)[i]),
    decreases n,
{
    if n >= 10 {
        lemma_decimal_digits(n / 10);
    }
}

/// Different numbers have different decimal text.
pub proof fn law_decimal_is_injective(a: nat, b: nat)
    ensures
        decimal(a) == decimal(b) ==> a == b,
    decreases a,
{
    if decimal(a) == decimal(b) {
        lemma_decimal_digits(a / 10);
        lemma_decimal_digits(b / 10);
        assert(decimal(a).last() == decimal_digit(a % 10));
        assert(decimal(b).last() == decimal_digit(b % 10));
        assert(a % 10 == b % 10);
        if a >= 10 && b >= 10 {
            assert(decimal(a).drop_last() =~= decimal(a / 10));
            assert(decimal(b).drop_last() =~= decimal(b / 10));
            law_decimal_is_injective(a / 10, b / 10);
        }
    }
}

/// The trimmed text is the part of a text between white space at its two ends,
/// and neither begins nor ends with white space.
pub proof fn law_trimmed_is_the_text_between_white_space(s: Seq<char>)
    ensures
        exists|i: int, j: int|
            0 <= i <= j <= s.len() && trimmed(s) == #[trigger] s.subrange(i, j) && is_blank(
                s.take(i),
            ) && is_blank(s.skip(j)),
        trimmed(s).len() > 0 ==> !is_white_space(trimmed(s)[0]) && !is_white_space(
            trimmed(s).last(),
        ),
{
    let lead = without_leading(s);
    let t = trimmed(s);
    lemma_without_leading(s);
    lemma_without_trailing(lead);
    let i = s.len() - lead.len();
    let j = i + t.len();
    assert(t =~= s.subrange(i, j));
    assert forall|k: int| 0 <= k < s.len() - j implies is_white_space(#[trigger] s.skip(j)[k]) by {
        assert(s.skip(j)[k] == lead.skip(t.len() as int)[k]);
    }
    assert(is_blank(s.skip(j)));
    if t.len() > 0 {
        assert(t[0] == lead[0]);
    }
}

/// The number that decimal digits spell.
pub open spec fn digits_value(digits: Seq<char>) -> int
    decreases digits.len(),
{
    if digits.len() == 0 {
        0
    } else {
        digits_value(digits.drop_last()) * 10 + (digits.last() as int - 48)
    }
}

/// Decimal text spells its number in digits, without a leading zero unless the
/// number is zero.
pub proof fn law_decimal_spells_the_number(n: nat)
    ensures
        digits_value(decimal(n)) == n,
        decimal(n).len() > 0,
        forall|i: int| 0 <= i < decimal(n).len() ==> 48 <= (#[trigger] decimal(n)[i]) as int <= 57,
        n > 0 ==> decimal(n)[0] != '0',
    decreases n,
{
    lemma_decimal_digits(n);
    assert forall|i: int| 0 <= i < decimal(n).len() implies 48 <= (
    #[trigger] decimal(n)[i]) as int <= 57 by {
        assert(is_digit(decimal(n)[i]));
    }
    if n < 10 {
        reveal_with_fuel(digits_value, 2);
        assert(decimal(n).drop_last() =~= Seq::<char>::empty());
    } else {
        law_decimal_spells_the_number(n / 10);
        assert(decimal(n).drop_last() =~= decimal(n / 10));
        assert(decimal(n)[0] == decimal(n / 10)[0]);
    }
}

} // verus!
