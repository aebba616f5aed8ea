//! Balances in the smallest unit of a chain, as unsigned 256-bit integers, and
//! their exact decimal display.

use crate::text::chars_of;
use crate::text::decimal_digits;
use crate::text::digits_value;
use crate::text::lemma_decimal_digits;
use crate::text::lemma_zeros_value;
use crate::text::push_char;
use crate::text::push_chars;
use crate::text::push_decimal;
use crate::text::trim_trailing_zeros;
use crate::text::truncated;
use crate::text::u64_to_decimal;
use crate::text::zero_padded;
use crate::text::zeros;
use vstd::arithmetic::div_mod::lemma_fundamental_div_mod;
use vstd::arithmetic::power::lemma_pow_positive;
use vstd::arithmetic::power::pow;
use vstd::prelude::*;

verus! {

/// The number that `bytes` spell in base 256, most significant byte first.
pub open spec fn be_value(bytes: Seq<u8>) -> nat
    decreases bytes.len(),
{
    if bytes.len() == 0 {
        0
    } else {
        be_value(bytes.drop_last()) * 256 + bytes.last() as nat
    }
}

/// The first value that no `Amount` can hold: 256 to the power of 32.
pub open spec fn amount_limit() -> nat {
    pow(256, 32) as nat
}

/// The most fractional digits that a formatted balance shows.
pub const MAX_DISPLAY_DECIMALS: usize = 6;

/// An unsigned 256-bit balance, held as 32 bytes, most significant first.
#[derive(Clone, Copy, Debug)]
pub struct Amount {
    pub bytes: [u8; 32],
}

impl View for Amount {
    type V = nat;

    open spec fn view(&self) -> nat {
        be_value(self.bytes@)
    }
}

/// A big-endian number of `n` bytes is below `256^n`.
pub proof fn lemma_be_value_bound(bytes: Seq<u8>)
    ensures
        be_value(bytes) < pow(256, bytes.len()),
    decreases bytes.len(),
{
    reveal(pow);
    if bytes.len() > 0 {
        lemma_be_value_bound(bytes.drop_last());
        let p = pow(256, (bytes.len() - 1) as nat);
        assert(pow(256, bytes.len()) == 256 * p);
        assert(be_value(bytes.drop_last()) + 1 <= p);
        assert(be_value(bytes.drop_last()) * 256 + 256 <= p * 256) by (nonlinear_arith)
            requires
                be_value(bytes.drop_last()) + 1 <= p,
        ;
    }
}

/// A big-endian number is zero exactly when all its bytes are.
pub proof fn lemma_be_value_zero(bytes: Seq<u8>)
    ensures
        be_value(bytes) == 0 <==> (forall|i: int| 0 <= i < bytes.len() ==> bytes[i] == 0),
    decreases bytes.len(),
{
    if bytes.len() > 0 {
        let head = bytes.drop_last();
        lemma_be_value_zero(head);
        if be_value(bytes) == 0 {
            assert(be_value(head) == 0 && bytes.last() == 0) by (nonlinear_arith)
                requires
                    be_value(head) * 256 + bytes.last() as nat == 0,
            ;
            assert forall|i: int| 0 <= i < bytes.len() implies bytes[i] == 0 by {
                if i < head.len() {
                    assert(bytes[i] == head[i]);
                }
            }
        }
        if forall|i: int| 0 <= i < bytes.len() ==> bytes[i] == 0 {
            assert forall|i: int| 0 <= i < head.len() implies head[i] == 0 by {
                assert(head[i] == bytes[i]);
            }
            assert(bytes.last() == bytes[bytes.len() - 1]);
        }
    }
}

impl Amount {
    /// The balance 0.
    pub fn zero() -> (a: Amount)
        ensures
            a@ == 0,
    {
        let a = Amount { bytes: [0u8; 32] };
        proof {
            lemma_be_value_zero(a.bytes@);
        }
        a
    }

    /// Whether the balance is 0.
    pub fn is_zero(&self) -> (r: bool)
        ensures
            r == (self@ == 0),
    {
        let mut i: usize = 0;
        while i < 32
            invariant
                i <= 32,
                forall|j: int| 0 <= j < i ==> self.bytes@[j] == 0,
            decreases 32 - i,
        {
            if self.bytes[i] != 0 {
                proof {
                    lemma_be_value_zero(self.bytes@);
                    assert(self.bytes@[i as int] != 0);
                }
                return false;
            }
            i += 1;
        }
        proof {
            lemma_be_value_zero(self.bytes@);
        }
        true
    }

    /// The balance that the first 32 bytes of `data` spell, most significant
    /// byte first; 0 where `data` is shorter than 32 bytes.
    pub fn from_be_prefix(data: &[u8]) -> (a: Amount)
        ensures
            data@.len() >= 32 ==> a@ == be_value(data@.subrange(0, 32)),
            data@.len() < 32 ==> a@ == 0,
    {
        if data.len() < 32 {
            return Amount::zero();
        }
        let mut bytes = [0u8; 32];
        let mut i: usize = 0;
        while i < 32
            invariant
                i <= 32,
                data@.len() >= 32,
                forall|j: int| 0 <= j < i ==> bytes@[j] == data@[j],
            decreases 32 - i,
        {
            bytes[i] = data[i];
            i += 1;
        }
        assert(bytes@ =~= data@.subrange(0, 32));
        Amount { bytes }
    }
}

/// The whole part of `raw` smallest units at `decimals` decimal places.
pub open spec fn whole_part(raw: nat, decimals: nat) -> nat {
    raw / (pow(10, decimals) as nat)
}

/// What is left of `raw` smallest units below one whole unit.
pub open spec fn fractional_part(raw: nat, decimals: nat) -> nat {
    raw % (pow(10, decimals) as nat)
}

/// The fractional part as `decimals` digits, zeros on the left included.
pub open spec fn fraction_digits(raw: nat, decimals: nat) -> Seq<char> {
    zero_padded(decimal_digits(fractional_part(raw, decimals)), decimals)
}

/// The digits shown behind the point: the fractional digits without their
/// trailing zeros, cut (not rounded) after the sixth.
pub open spec fn fraction_display(raw: nat, decimals: nat) -> Seq<char> {
    truncated(trim_trailing_zeros(fraction_digits(raw, decimals)), MAX_DISPLAY_DECIMALS as nat)
}

/// The display of `raw` smallest units of an asset with `decimals` decimal
/// places: `"0"` for nothing, the whole part alone where nothing is left
/// below it, else whole part, point and fraction.
pub open spec fn format_amount(raw: nat, decimals: nat) -> Seq<char> {
    if raw == 0 {
        seq!['0']
    } else if fractional_part(raw, decimals) == 0 {
        decimal_digits(whole_part(raw, decimals))
    } else {
        decimal_digits(whole_part(raw, decimals)) + seq!['.'] + fraction_display(raw, decimals)
    }
}

/// Nothing is shown as `0`, whatever the number of decimal places.
pub proof fn lemma_format_zero(decimals: nat)
    ensures
        format_amount(0, decimals) == "0"@,
{
    reveal_strlit("0");
    assert(seq!['0'] =~= "0"@);
}

/// A number below `10^k` has at most `k` decimal digits.
pub proof fn lemma_decimal_digits_len(n: nat, k: nat)
    requires
        k >= 1,
        n < pow(10, k),
    ensures
        decimal_digits(n).len() <= k,
    decreases k,
{
    reveal(pow);
    if n >= 10 {
        assert(pow(10, 1) == 10) by {
            assert(pow(10, 0) == 1);
        }
        assert(k >= 2);
        assert(pow(10, k) == 10 * pow(10, (k - 1) as nat));
        lemma_decimal_digits_len(n / 10, (k - 1) as nat);
    }
}

/// What is left without trailing zeros is empty or ends in another digit;
/// it is empty only where the digits spell 0.
pub proof fn lemma_trim_trailing_zeros(s: Seq<char>)
    ensures
        trim_trailing_zeros(s).len() <= s.len(),
        trim_trailing_zeros(s).len() > 0 ==> trim_trailing_zeros(s).last() != '0',
        trim_trailing_zeros(s).len() == 0 ==> digits_value(s) == 0,
    decreases s.len(),
{
    if s.len() > 0 && s.last() == '0' {
        lemma_trim_trailing_zeros(s.drop_last());
    }
}

/// The fractional digits spell the fractional part, and there are
/// `decimals` of them.
pub proof fn lemma_fraction_digits(raw: nat, decimals: nat)
    ensures
        digits_value(fraction_digits(raw, decimals)) == fractional_part(raw, decimals),
        decimals >= 1 ==> fraction_digits(raw, decimals).len() == decimals,
{
    lemma_pow_positive(10, decimals);
    let rest = fractional_part(raw, decimals);
    lemma_decimal_digits(rest);
    let digits = decimal_digits(rest);
    if digits.len() < decimals {
        lemma_zeros_value((decimals - digits.len()) as nat, digits);
    }
    if decimals >= 1 {
        lemma_decimal_digits_len(rest, decimals);
    }
}

/// The display loses nothing before trailing zeros are trimmed: the whole
/// part, scaled back, and the number that the fractional digits spell add up
/// to the balance.
pub proof fn lemma_format_round_trip(raw: nat, decimals: nat)
    ensures
        whole_part(raw, decimals) * pow(10, decimals) + digits_value(
            fraction_digits(raw, decimals),
        ) == raw,
{
    lemma_pow_positive(10, decimals);
    let m = pow(10, decimals);
    lemma_fundamental_div_mod(raw as int, m);
    assert(whole_part(raw, decimals) * m == m * (raw as int / m)) by (nonlinear_arith)
        requires
            whole_part(raw, decimals) == raw as int / m,
    ;
    lemma_fraction_digits(raw, decimals);
}

/// The digits behind the point are never more than six.
pub proof fn lemma_fraction_display_len(raw: nat, decimals: nat)
    ensures
        fraction_display(raw, decimals).len() <= MAX_DISPLAY_DECIMALS,
{
}

/// The digits behind the point do not end in a zero, and there is at least
/// one of them. This holds of every balance with a fractional part but
/// those whose sixth fractional digit is a zero with another digit behind
/// it: there the cut after the sixth digit leaves the zero at the end.
pub proof fn lemma_fraction_display_end(raw: nat, decimals: nat)
    requires
        fractional_part(raw, decimals) != 0,
        ({
            let kept = trim_trailing_zeros(fraction_digits(raw, decimals));
            kept.len() <= MAX_DISPLAY_DECIMALS || kept[MAX_DISPLAY_DECIMALS - 1] != '0'
        }),
    ensures
        fraction_display(raw, decimals).len() >= 1,
        fraction_display(raw, decimals).last() != '0',
{
    let digits = fraction_digits(raw, decimals);
    lemma_trim_trailing_zeros(digits);
    lemma_fraction_digits(raw, decimals);
    let kept = trim_trailing_zeros(digits);
    assert(kept.len() >= 1);
    if kept.len() > MAX_DISPLAY_DECIMALS {
        assert(fraction_display(raw, decimals) == kept.subrange(0, MAX_DISPLAY_DECIMALS as int));
        assert(fraction_display(raw, decimals).last() == kept[MAX_DISPLAY_DECIMALS - 1]);
    } else {
        assert(fraction_display(raw, decimals) == kept);
    }
}

/// `ruint::Uint::checked_pow` on 256-bit integers: the power where it is
/// below 2^256, `None` where it is not.
#[verifier::external_body]
fn u256_checked_pow(base: u64, exp: u32) -> (r: Option<Amount>)
    ensures
        r is Some <==> pow(base as int, exp as nat) < amount_limit(),
        r matches Some(p) ==> p@ == pow(base as int, exp as nat),
{
    match alloy::primitives::U256::from(base).checked_pow(alloy::primitives::U256::from(exp)) {
        Some(p) => Some(Amount { bytes: p.to_be_bytes::<32>() }),
        None => None,
    }
}

/// `ruint::Uint::div_rem` on 256-bit integers: quotient and remainder of the
/// integer division. The divisor must not be zero: the outside function
/// panics on it.
#[verifier::external_body]
fn u256_div_rem(n: &Amount, d: &Amount) -> (r: (Amount, Amount))
    requires
        d@ != 0,
    ensures
        r.0@ == n@ / d@,
        r.1@ == n@ % d@,
{
    let (q, r) = alloy::primitives::U256::from_be_bytes(n.bytes).div_rem(
        alloy::primitives::U256::from_be_bytes(d.bytes),
    );
    (Amount { bytes: q.to_be_bytes::<32>() }, Amount { bytes: r.to_be_bytes::<32>() })
}

/// `Display` of `ruint::Uint`: the decimal digits of a 256-bit integer,
/// without sign, prefix or leading zeros.
#[verifier::external_body]
fn u256_to_decimal(a: &Amount) -> (r: String)
    ensures
        r@ == decimal_digits(a@),
{
    alloy::primitives::U256::from_be_bytes(a.bytes).to_string()
}

/// `digits` padded on the left with zeros to `width` characters.
pub fn pad_left_zeros(digits: &Vec<char>, width: usize) -> (r: Vec<char>)
    ensures
        r@ == zero_padded(digits@, width as nat),
{
    let mut out: Vec<char> = Vec::new();
    if digits.len() < width {
        let fill: usize = width - digits.len();
        let mut i: usize = 0;
        while i < fill
            invariant
                i <= fill,
                out@ == zeros(i as nat),
            decreases fill - i,
        {
            out.push('0');
            assert(out@ =~= zeros((i + 1) as nat));
            i += 1;
        }
    }
    let mut j: usize = 0;
    while j < digits.len()
        invariant
            j <= digits.len(),
            out@ == padding_zeros(digits@, width as nat) + digits@.subrange(0, j as int),
        decreases digits.len() - j,
    {
        out.push(digits[j]);
        assert(digits@.subrange(0, j + 1) == digits@.subrange(0, j as int).push(digits@[j as int]));
        j += 1;
    }
    assert(digits@.subrange(0, digits.len() as int) == digits@);
    out
}

/// The zeros that padding puts in front of `digits`.
pub open spec fn padding_zeros(digits: Seq<char>, width: nat) -> Seq<char> {
    if digits.len() >= width {
        Seq::<char>::empty()
    } else {
        zeros((width - digits.len()) as nat)
    }
}

/// The length of `s` without its trailing zeros.
pub fn trimmed_len(s: &Vec<char>) -> (n: usize)
    ensures
        n <= s.len(),
        s@.subrange(0, n as int) == trim_trailing_zeros(s@),
{
    let mut n: usize = s.len();
    assert(s@.subrange(0, n as int) == s@);
    while n > 0 && s[n - 1] == '0'
        invariant
            n <= s.len(),
            trim_trailing_zeros(s@.subrange(0, n as int)) == trim_trailing_zeros(s@),
        decreases n,
    {
        assert(s@.subrange(0, n as int).drop_last() == s@.subrange(0, n - 1));
        n -= 1;
    }
    n
}

impl Amount {
    /// The balance in decimal digits.
    pub fn to_decimal(&self) -> (r: String)
        ensures
            r@ == decimal_digits(self@),
    {
        u256_to_decimal(self)
    }

    /// Whole part and remainder of the balance at `decimals` decimal places.
    pub fn split_at_decimals(&self, decimals: u32) -> (r: (Amount, Amount))
        ensures
            r.0@ == whole_part(self@, decimals as nat),
            r.1@ == fractional_part(self@, decimals as nat),
    {
        proof {
            lemma_pow_positive(10, decimals as nat);
        }
        match u256_checked_pow(10, decimals) {
            Some(divisor) => u256_div_rem(self, &divisor),
            None => {
                proof {
                    lemma_be_value_bound(self.bytes@);
                    let m = pow(10, decimals as nat) as nat;
                    assert(self@ < m);
                    assert(self@ / m == 0 && self@ % m == self@) by (nonlinear_arith)
                        requires
                            self@ < m,
                    ;
                }
                (Amount::zero(), *self)
            },
        }
    }
}

/// Formats a balance in the smallest unit as a decimal number of whole units,
/// with at most six fractional digits and without binary rounding.
pub fn format_balance(balance: &Amount, decimals: u32) -> (r: String)
    ensures
        r@ == format_amount(balance@, decimals as nat),
        balance@ == 0 ==> r@ == seq!['0'],
{
    if balance.is_zero() {
        let mut zero = String::new();
        push_char(&mut zero, '0');
        return zero;
    }
    let (whole, rest) = balance.split_at_decimals(decimals);
    let mut out = whole.to_decimal();
    if rest.is_zero() {
        return out;
    }
    let rest_text = rest.to_decimal();
    let digits = chars_of(rest_text.as_str());
    let padded = pad_left_zeros(&digits, decimals as usize);
    let kept = trimmed_len(&padded);
    let shown: usize = if kept > MAX_DISPLAY_DECIMALS {
        MAX_DISPLAY_DECIMALS
    } else {
        kept
    };
    push_char(&mut out, '.');
    push_chars(&mut out, &padded, 0, shown);
    proof {
        let t = trim_trailing_zeros(padded@);
        assert(t == padded@.subrange(0, kept as int));
        assert(truncated(t, MAX_DISPLAY_DECIMALS as nat) =~= padded@.subrange(0, shown as int));
    }
    out
}

/// `scaled` hundredths, thousandths, ... written with a point: the whole part,
/// then exactly `places` fractional digits. `modulus` is 10 to the power of
/// `places`.
pub open spec fn fixed_point(scaled: nat, modulus: nat, places: nat) -> Seq<char> {
    decimal_digits(scaled / modulus) + seq!['.'] + zero_padded(
        decimal_digits(scaled % modulus),
        places,
    )
}

/// A balance in satoshis as whole coins with exactly eight fractional digits.
pub open spec fn satoshis_display(satoshis: nat) -> Seq<char> {
    fixed_point(satoshis, 100_000_000, 8)
}

/// A balance in lamports (nine decimal places) as whole coins with exactly
/// four fractional digits, rounded to the nearest, halves upward.
pub open spec fn lamports_display(lamports: nat) -> Seq<char> {
    fixed_point((lamports + 50_000) / 100_000, 10_000, 4)
}

/// The fixed displays have exactly eight and four digits behind the point.
pub proof fn lemma_fixed_display_places(satoshis: nat, lamports: nat)
    ensures
        satoshis_display(satoshis) == decimal_digits(satoshis / 100_000_000) + seq!['.']
            + zero_padded(decimal_digits(satoshis % 100_000_000), 8),
        zero_padded(decimal_digits(satoshis % 100_000_000), 8).len() == 8,
        zero_padded(decimal_digits(((lamports + 50_000) / 100_000) % 10_000), 4).len() == 4,
{
    reveal_with_fuel(pow, 10);
    assert(pow(10, 8) == 100_000_000);
    assert(pow(10, 4) == 10_000);
    lemma_decimal_digits_len(satoshis % 100_000_000, 8);
    lemma_decimal_digits_len(((lamports + 50_000) / 100_000) % 10_000, 4);
}

/// Writes `scaled` with a point in front of its last `places` digits.
fn format_fixed(scaled: u64, modulus: u64, places: usize) -> (r: String)
    requires
        modulus > 0,
    ensures
        r@ == fixed_point(scaled as nat, modulus as nat, places as nat),
{
    let mut out = String::new();
    push_decimal(&mut out, scaled / modulus);
    push_char(&mut out, '.');
    let fraction = u64_to_decimal(scaled % modulus);
    let digits = chars_of(fraction.as_str());
    let padded = pad_left_zeros(&digits, places);
    push_chars(&mut out, &padded, 0, padded.len());
    assert(padded@.subrange(0, padded.len() as int) == padded@);
    out
}

/// Formats a satoshi balance with exactly eight fractional digits.
pub fn format_satoshis(satoshis: u64) -> (r: String)
    ensures
        r@ == satoshis_display(satoshis as nat),
{
    format_fixed(satoshis, 100_000_000, 8)
}

/// Formats a lamport balance with exactly four fractional digits.
pub fn format_lamports(lamports: u64) -> (r: String)
    ensures
        r@ == lamports_display(lamports as nat),
{
    let units: u64 = lamports / 100_000;
    let rest: u64 = lamports % 100_000;
    let scaled: u64 = if rest >= 50_000 {
        units + 1
    } else {
        units
    };
    assert(scaled == (lamports + 50_000) / 100_000);
    format_fixed(scaled, 10_000, 4)
}

} // verus!
