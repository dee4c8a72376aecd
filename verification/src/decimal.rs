//! Exact decimal amounts (market capitalisation, profits, prices) as a
//! mantissa and a power-of-ten scale, and the calls into `rust_decimal` that
//! compare and print them.
use vstd::prelude::*;
use crate::text::{dec_text, digit_char, repeat_text};
use rust_decimal::Decimal;

verus! {

/// The largest scale `rust_decimal` accepts.
pub const MAX_SCALE: u32 = 28;

/// The largest magnitude of a `rust_decimal` mantissa (96 bits).
pub const MAX_MANTISSA: i128 = 79228162514264337593543950335;

/// A decimal number `mantissa / 10^scale`, as `rust_decimal::Decimal` holds
/// it, with its sign flag: a zero may carry a negative sign, which it keeps
/// when printed.
#[derive(Clone, Copy, Debug, PartialEq, Eq)]
pub struct DecimalValue {
    pub mantissa: i128,
    pub scale: u32,
    pub negative: bool,
}

/// `10^n`.
pub open spec fn pow10(n: nat) -> int
    decreases n,
{
    if n == 0 {
        1
    } else {
        10 * pow10((n - 1) as nat)
    }
}

impl DecimalValue {
    /// The value can be held by `rust_decimal::Decimal`.
    pub open spec fn wf(self) -> bool {
        &&& self.scale <= MAX_SCALE
        &&& -MAX_MANTISSA <= self.mantissa <= MAX_MANTISSA
        &&& (self.mantissa != 0 ==> self.negative == (self.mantissa < 0))
    }

    /// The value times `10^28`: an integer whose order is the order of the values.
    pub open spec fn scaled(self) -> int {
        self.mantissa * pow10((MAX_SCALE - self.scale) as nat)
    }

    /// Whether `rust_decimal::Decimal` can hold the value.
    pub fn fits(&self) -> (r: bool)
        ensures
            r == self.wf(),
    {
        self.scale <= MAX_SCALE && -MAX_MANTISSA <= self.mantissa && self.mantissa <= MAX_MANTISSA
            && (self.mantissa == 0 || self.negative == (self.mantissa < 0))
    }

    /// `mantissa / 10^scale`, as `Decimal::new` builds it.
    pub fn new(mantissa: i64, scale: u32) -> (r: DecimalValue)
        requires
            scale <= MAX_SCALE,
        ensures
            r.wf(),
            r.mantissa == mantissa,
            r.scale == scale,
            r.negative == (mantissa < 0),
    {
        DecimalValue { mantissa: mantissa as i128, scale, negative: mantissa < 0 }
    }
}

/// The sign of `x`: -1, 0 or 1.
pub open spec fn sign(x: int) -> int {
    if x < 0 {
        -1
    } else if x == 0 {
        0
    } else {
        1
    }
}

/// `10^n` is positive.
pub proof fn lemma_pow10_positive(n: nat)
    ensures
        pow10(n) > 0,
    decreases n,
{
    if n > 0 {
        lemma_pow10_positive((n - 1) as nat);
    }
}

/// The numeric order of two decimals: -1 when `a` is smaller, 0 when equal, 1 when larger.
pub open spec fn decimal_order_spec(a: DecimalValue, b: DecimalValue) -> int {
    sign(a.scaled() - b.scaled())
}

/// The absolute value of the mantissa.
pub open spec fn magnitude(d: DecimalValue) -> nat {
    if d.mantissa < 0 {
        (-d.mantissa) as nat
    } else {
        d.mantissa as nat
    }
}

/// The two digits `d` as text, with a leading zero below ten.
pub open spec fn two_digits(d: nat) -> Seq<char> {
    seq![digit_char(d / 10), digit_char(d % 10)]
}

/// `d` printed with two decimals (`{:.2}`): a minus sign when the sign flag
/// is negative (a negative zero too), the integer part, a point and the first two decimals; further
/// decimals are cut off, not rounded.
pub open spec fn decimal_fixed2_text(d: DecimalValue) -> Seq<char> {
    let a = magnitude(d) as int;
    let p = pow10(d.scale as nat);
    (if d.negative { seq!['-'] } else { Seq::empty() }) + dec_text((a / p) as nat) + seq!['.']
        + two_digits((((a * 100) / p) % 100) as nat)
}

/// Compared with zero, a decimal orders as the sign of its mantissa.
pub proof fn lemma_sign_of_scaled(d: DecimalValue)
    requires
        d.wf(),
    ensures
        decimal_order_spec(d, DecimalValue { mantissa: 0, scale: 0, negative: false }) == sign(d.mantissa as int),
{
    let zero = DecimalValue { mantissa: 0, scale: 0, negative: false };
    let p = pow10((MAX_SCALE - d.scale) as nat);
    lemma_pow10_positive((MAX_SCALE - d.scale) as nat);
    let m = d.mantissa as int;
    assert(d.scaled() == m * p);
    assert(zero.scaled() == 0 * pow10(MAX_SCALE as nat));
    assert(0 * pow10(MAX_SCALE as nat) == 0);
    assert(m > 0 ==> m * p > 0) by (nonlinear_arith)
        requires
            p > 0,
    ;
    assert(m < 0 ==> m * p < 0) by (nonlinear_arith)
        requires
            p > 0,
    ;
    assert(m == 0 ==> m * p == 0) by (nonlinear_arith);
}

/// `rust_decimal`'s `Ord::cmp`: it compares the numeric values; here -1, 0 or 1.
#[verifier::external_body]
pub(crate) fn decimal_order(a: &DecimalValue, b: &DecimalValue) -> (r: i8)
    requires
        a.wf(),
        b.wf(),
    ensures
        r == decimal_order_spec(*a, *b),
{
    let mut da = Decimal::from_i128_with_scale(a.mantissa, a.scale);
    da.set_sign_negative(a.negative);
    let mut db = Decimal::from_i128_with_scale(b.mantissa, b.scale);
    db.set_sign_negative(b.negative);
    match da.cmp(&db) {
        std::cmp::Ordering::Less => -1,
        std::cmp::Ordering::Equal => 0,
        std::cmp::Ordering::Greater => 1,
    }
}

/// `rust_decimal`'s `Display` with precision 2 (`format!("{:.2}", d)`): as
/// its source writes it, the digits of the mantissa with the point put in by
/// the scale, cut after two decimals, and a minus sign when the sign flag is
/// negative.
#[verifier::external_body]
pub(crate) fn decimal_fixed2(d: &DecimalValue) -> (r: String)
    requires
        d.wf(),
    ensures
        r@ == decimal_fixed2_text(*d),
{
    let mut x = Decimal::from_i128_with_scale(d.mantissa, d.scale);
    x.set_sign_negative(d.negative);
    format!("{:.2}", x)
}


/// The digits of the mantissa's magnitude, filled up with leading zeros to at
/// least `scale` digits.
pub open spec fn padded_digits(d: DecimalValue) -> Seq<char> {
    let digits = dec_text(magnitude(d));
    if digits.len() < d.scale {
        repeat_text(seq!['0'], (d.scale - digits.len()) as nat) + digits
    } else {
        digits
    }
}

/// `d` printed by `rust_decimal`'s `Display` (`format!("{}", d)`): a minus
/// sign when the sign flag is negative (a negative zero too), then the
/// digits with a point put in before the last `scale` of them (a `0` before
/// a point that would lead), every decimal of the scale kept.
pub open spec fn decimal_display_text(d: DecimalValue) -> Seq<char> {
    let p = padded_digits(d);
    let whole = (p.len() - d.scale) as int;
    (if d.negative { seq!['-'] } else { Seq::empty() }) + if d.scale == 0 {
        p
    } else {
        (if whole == 0 { seq!['0'] } else { p.take(whole) }) + seq!['.'] + p.skip(whole)
    }
}

/// `rust_decimal`'s `Display` without precision (`format!("{}", d)`): as its
/// source writes it, the digits of the mantissa with the point put in by the
/// scale and every decimal of the scale kept, and a minus sign when the sign
/// flag is negative.
#[verifier::external_body]
pub(crate) fn decimal_display(d: &DecimalValue) -> (r: String)
    requires
        d.wf(),
    ensures
        r@ == decimal_display_text(*d),
{
    let mut x = Decimal::from_i128_with_scale(d.mantissa, d.scale);
    x.set_sign_negative(d.negative);
    format!("{}", x)
}

/// What `rust_decimal`'s `Decimal::from_str` returns for a text: the
/// mantissa, scale and sign flag of the number read, or the text of its
/// error.
pub uninterp spec fn decimal_parse(s: Seq<char>) -> Result<(int, int, bool), Seq<char>>;

/// A decimal as its mantissa, scale and sign flag.
pub open spec fn decimal_parts(d: DecimalValue) -> (int, int, bool) {
    (d.mantissa as int, d.scale as int, d.negative)
}

/// The outcome of a parse as the name above states it.
pub open spec fn decimal_parse_outcome(r: Result<DecimalValue, String>) -> Result<
    (int, int, bool),
    Seq<char>,
> {
    match r {
        Ok(d) => Ok(decimal_parts(d)),
        Err(e) => Err(e@),
    }
}

/// `rust_decimal`'s `Decimal::from_str`: the contract names its outcome, the
/// mantissa, scale and sign flag of the number or the `Display` text of its
/// error, and
/// states that a number read fits a `Decimal` (a 96-bit mantissa, a scale up
/// to 28); which texts it accepts is not stated.
#[verifier::external_body]
pub(crate) fn parse_decimal_text(s: &str) -> (r: Result<DecimalValue, String>)
    ensures
        decimal_parse_outcome(r) == decimal_parse(s@),
        r matches Ok(d) ==> d.wf(),
{
    match s.parse::<Decimal>() {
        Ok(d) => Ok(DecimalValue { mantissa: d.mantissa(), scale: d.scale(), negative: d.is_sign_negative() }),
        Err(e) => Err(e.to_string()),
    }
}

} // verus!
