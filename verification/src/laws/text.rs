//! What holds of the texts.

use vstd::prelude::*;

verus! {

/// The value of a digit sign.
pub open spec fn sign_value(sign: char) -> int {
    if '0' <= sign && sign <= '9' {
        sign as int - '0' as int
    } else {
        sign as int - 'A' as int + 10
    }
}

/// The number that signs stand for in `base`.
pub open spec fn number_of(signs: Seq<char>, base: int) -> int
    decreases signs.len(),
{
    if signs.len() == 0 {
        0
    } else {
        number_of(signs.drop_last(), base) * base + sign_value(signs.last())
    }
}

/// The sign of a digit: a figure up to nine, a capital letter from there on.
proof fn lemma_sign(value: nat)
    requires
        value < 16,
    ensures
        sign_value(crate::text::digit_sign(value)) == value,
        value < 10 ==> '0' <= crate::text::digit_sign(value) && crate::text::digit_sign(value)
            <= '9',
        value >= 10 ==> 'A' <= crate::text::digit_sign(value) && crate::text::digit_sign(value)
            <= 'F',
        crate::text::digit_sign(value) == '0' ==> value == 0,
{
    reveal_strlit("0123456789ABCDEF");
}

/// A numeral reads back as its number, is not empty, and begins with a zero only if
/// it is that of zero. Each of its signs is a digit of the base: a figure, or from
/// ten on a capital letter.
pub proof fn a_numeral_reads_back(n: nat, base: nat)
    requires
        2 <= base <= 16,
    ensures
        ({
            let signs = crate::text::numeral(n, base);
            &&& number_of(signs, base as int) == n
            &&& signs.len() > 0
            &&& signs[0] == '0' ==> n == 0 && signs.len() == 1
            &&& forall|i: int|
                0 <= i < signs.len() ==> {
                    &&& 0 <= sign_value(#[trigger] signs[i]) < base
                    &&& ('0' <= signs[i] && signs[i] <= '9') || ('A' <= signs[i] && signs[i] <= 'F')
                }
        }),
    decreases n,
{
    let signs = crate::text::numeral(n, base);
    if n < base {
        lemma_sign(n);
        assert(signs.drop_last() =~= seq![]);
        reveal_with_fuel(number_of, 2);
    } else {
        assert(n / base < n && n / base >= 1) by (nonlinear_arith)
            requires
                n >= base,
                base >= 2,
        ;
        assert((n / base) * base + n % base == n && n % base < base) by (nonlinear_arith)
            requires
                base >= 2,
        ;
        a_numeral_reads_back(n / base, base);
        lemma_sign(n % base);
        let front = crate::text::numeral(n / base, base);
        assert(signs.drop_last() =~= front);
        assert(signs.last() == crate::text::digit_sign(n % base));
        assert(signs[0] == front[0]);
        assert forall|i: int| 0 <= i < signs.len() implies {
            &&& 0 <= sign_value(#[trigger] signs[i]) < base
            &&& ('0' <= signs[i] && signs[i] <= '9') || ('A' <= signs[i] && signs[i] <= 'F')
        } by {
            if i < front.len() {
                assert(signs[i] == front[i]);
            }
        }
    }
}

/// Decimal is base ten and hexadecimal base sixteen.
pub proof fn decimal_and_hexadecimal_read_back(n: nat)
    ensures
        number_of(crate::text::decimal(n), 10) == n,
        number_of(crate::text::hexadecimal(n), 16) == n,
{
    a_numeral_reads_back(n, 10);
    a_numeral_reads_back(n, 16);
}

/// A negative number has a minus in front of the decimal of its magnitude, any
/// other number is its decimal.
pub proof fn a_sign_stands_in_front(n: nat)
    ensures
        crate::text::signed_decimal(n as int) == crate::text::decimal(n),
        n > 0 ==> {
            let text = crate::text::signed_decimal(-(n as int));
            text.len() > 0 && text[0] == '-' && text.skip(1) == crate::text::decimal(n)
        },
{
    reveal_strlit("-");
    if n > 0 {
        assert(crate::text::signed_decimal(-(n as int)).skip(1) =~= crate::text::decimal(n));
    }
}

/// Alignment puts blanks in front until the width is reached, and changes nothing
/// else.
pub proof fn alignment_puts_blanks_in_front(s: Seq<char>, width: nat, i: int)
    ensures
        ({
            let out = crate::text::right_aligned(s, width);
            let pad = out.len() - s.len();
            &&& pad >= 0
            &&& out.len() == width || (out.len() > width && pad == 0)
            &&& 0 <= i < pad ==> out[i] == ' '
            &&& out.skip(pad) == s
        }),
{
    let out = crate::text::right_aligned(s, width);
    assert(out.skip(out.len() - s.len()) =~= s);
}

} // verus!
