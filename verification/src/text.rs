//! How integers are written in messages, and the std formatting calls that
//! write them.
use vstd::prelude::*;

verus! {

/// The character of a digit below sixteen, lower-case for ten and above.
pub open spec fn digit_char(d: nat) -> char {
    if d < 10 {
        (48 + d) as char
    } else {
        (97 + d - 10) as char
    }
}

/// The digits of `n` in `base`, most significant first, without leading
/// zeros (`"0"` for zero).
pub open spec fn digits(n: nat, base: nat) -> Seq<char>
    recommends
        2 <= base <= 16,
    decreases n,
{
    if n < base || base < 2 {
        seq![digit_char(n)]
    } else {
        proof {
            assert(n / base < n) by (nonlinear_arith)
                requires
                    base >= 2,
                    n >= base,
            ;
        }
        digits(n / base, base).push(digit_char(n % base))
    }
}

/// Decimal notation of an integer, with a leading `-` when it is negative.
pub open spec fn decimal_text(n: int) -> Seq<char> {
    if n < 0 {
        seq!['-'] + digits((-n) as nat, 10)
    } else {
        digits(n as nat, 10)
    }
}

/// Lower-case hexadecimal notation of a natural number, without prefix.
pub open spec fn lower_hex_text(n: nat) -> Seq<char> {
    digits(n, 16)
}

/// Writes a `u32` in lower-case hexadecimal with std's `{:x}` formatting,
/// which prints the digits of the value in base sixteen with no prefix and no
/// leading zeros.
#[verifier::external_body]
pub fn format_lower_hex_u32(n: u32) -> (r: String)
    ensures
        r@ == lower_hex_text(n as nat),
{
    format!("{:x}", n)
}

/// Writes an `i32` with std's `Display`, which prints its decimal notation
/// with a `-` sign when negative.
#[verifier::external_body]
pub fn format_decimal_i32(n: i32) -> (r: String)
    ensures
        r@ == decimal_text(n as int),
{
    format!("{}", n)
}

/// Writes a `usize` with std's `Display`, which prints its decimal notation.
#[verifier::external_body]
pub fn format_decimal_usize(n: usize) -> (r: String)
    ensures
        r@ == decimal_text(n as int),
{
    format!("{}", n)
}

/// Writes a `u16` with std's `Display`, which prints its decimal notation.
#[verifier::external_body]
pub fn format_decimal_u16(n: u16) -> (r: String)
    ensures
        r@ == decimal_text(n as int),
{
    format!("{}", n)
}

/// Writes a `u32` with std's `Display`, which prints its decimal notation.
#[verifier::external_body]
pub fn format_decimal_u32(n: u32) -> (r: String)
    ensures
        r@ == decimal_text(n as int),
{
    format!("{}", n)
}

} // verus!
