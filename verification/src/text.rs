//! Text for the status line and the HUD.

use vstd::prelude::*;
use vstd::string::StringExecFns;
use vstd::string::StrSliceExecFns;

verus! {

/// The digit signs, in the order of their values.
pub open spec fn digit_sign(value: nat) -> char {
    "0123456789ABCDEF"@[value as int]
}

/// `n` written in `base`, most significant digit first, without leading zeros.
pub open spec fn numeral(n: nat, base: nat) -> Seq<char>
    decreases n,
{
    if base < 2 || n < base {
        seq![digit_sign(n)]
    } else {
        proof {
            assert(n / base < n) by (nonlinear_arith)
                requires
                    n >= base,
                    base >= 2,
            ;
        }
        numeral(n / base, base).push(digit_sign(n % base))
    }
}

/// `n` in decimal.
pub open spec fn decimal(n: nat) -> Seq<char> {
    numeral(n, 10)
}

/// `n` in upper-case hexadecimal.
pub open spec fn hexadecimal(n: nat) -> Seq<char> {
    numeral(n, 16)
}

/// `n` in decimal, with a sign in front of a negative number.
pub open spec fn signed_decimal(n: int) -> Seq<char> {
    if n < 0 {
        "-"@ + decimal((-n) as nat)
    } else {
        decimal(n as nat)
    }
}

/// `s` right-aligned in a field of `width` characters.
pub open spec fn right_aligned(s: Seq<char>, width: nat) -> Seq<char> {
    if s.len() < width {
        Seq::new((width - s.len()) as nat, |i: int| ' ') + s
    } else {
        s
    }
}

/// Appends `n` written in `base`.
pub fn push_numeral(out: &mut String, n: u64, base: u64)
    requires
        2 <= base <= 16,
    ensures
        final(out)@ == old(out)@ + numeral(n as nat, base as nat),
    decreases n,
{
    proof {
        reveal_strlit("0123456789ABCDEF");
    }
    if n >= base {
        assert(n / base < n) by (nonlinear_arith)
            requires
                n >= base,
                base >= 2,
        ;
        push_numeral(out, n / base, base);
    }
    let low: usize = (n % base) as usize;
    let sign = "0123456789ABCDEF".substring_char(low, low + 1);
    out.append(sign);
    assert(sign@ =~= seq![digit_sign(low as nat)]);
    assert(out@ =~= old(out)@ + numeral(n as nat, base as nat));
}

/// `n` in decimal.
pub fn decimal_text(n: u64) -> (s: String)
    ensures
        s@ == decimal(n as nat),
{
    let mut s = String::new();
    push_numeral(&mut s, n, 10);
    assert(s@ =~= decimal(n as nat));
    s
}

/// `n` in decimal, with a sign in front of a negative number.
pub fn signed_decimal_text(n: i32) -> (s: String)
    ensures
        s@ == signed_decimal(n as int),
{
    if n < 0 {
        let magnitude: u64 = (-(n as i64)) as u64;
        let mut s = String::from_str("-");
        push_numeral(&mut s, magnitude, 10);
        s
    } else {
        decimal_text(n as u64)
    }
}

/// `s` right-aligned in a field of `width` characters.
pub fn right_align(s: &str, width: usize) -> (out: String)
    ensures
        out@ == right_aligned(s@, width as nat),
{
    let len: usize = s.unicode_len();
    let mut out = String::new();
    let mut filled: usize = len;
    while filled < width
        invariant
            len == s@.len(),
            len <= filled,
            filled <= width || filled == len,
            out@ == Seq::new((filled - len) as nat, |i: int| ' '),
        decreases width - filled,
    {
        proof {
            reveal_strlit(" ");
        }
        out.append(" ");
        filled = filled + 1;
        assert(out@ =~= Seq::new((filled - len) as nat, |i: int| ' '));
    }
    out.append(s);
    assert(out@ =~= right_aligned(s@, width as nat));
    out
}

} // verus!
