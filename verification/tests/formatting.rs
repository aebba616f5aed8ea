use ssh_m::amount::format_balance;
use ssh_m::amount::format_lamports;
use ssh_m::amount::format_satoshis;
use ssh_m::amount::Amount;
use ssh_m::text::u64_to_decimal;

fn amount(n: u128) -> Amount {
    let mut bytes = [0u8; 32];
    bytes[16..].copy_from_slice(&n.to_be_bytes());
    Amount { bytes }
}

#[test]
fn zero_formats_as_zero_for_any_decimals() {
    for d in [0u32, 1, 6, 8, 18, 77, 78, 255, 1000] {
        assert_eq!(format_balance(&amount(0), d), "0");
    }
    assert_eq!(format_balance(&Amount::zero(), 18), "0");
}

#[test]
fn fraction_is_cut_after_six_digits() {
    assert_eq!(format_balance(&amount(123456789), 8), "1.234567");
}

#[test]
fn whole_amounts_have_no_point() {
    assert_eq!(format_balance(&amount(1_000_000_000_000_000_000), 18), "1");
    assert_eq!(format_balance(&amount(42_000_000), 6), "42");
    assert_eq!(format_balance(&amount(5), 0), "5");
}

#[test]
fn trailing_zeros_are_trimmed() {
    assert_eq!(format_balance(&amount(1_500_000_000_000_000_000), 18), "1.5");
    assert_eq!(format_balance(&amount(1_230_000), 6), "1.23");
    assert_eq!(format_balance(&amount(100_000_001), 8), "1.000000");
}

#[test]
fn small_fractions_keep_their_leading_zeros() {
    assert_eq!(format_balance(&amount(1), 18), "0.000000");
    assert_eq!(format_balance(&amount(1), 6), "0.000001");
    assert_eq!(format_balance(&amount(1_000), 6), "0.001");
}

#[test]
fn more_decimals_than_the_amount_can_hold() {
    assert_eq!(format_balance(&amount(5), 78), "0.000000");
    assert_eq!(format_balance(&amount(5), 255), "0.000000");
    let max = Amount { bytes: [255u8; 32] };
    assert_eq!(format_balance(&max, 77), "1.157920");
    assert_eq!(format_balance(&max, 78), "0.115792");
}

#[test]
fn full_width_amounts_are_exact() {
    let max = Amount { bytes: [255u8; 32] };
    assert_eq!(
        max.to_decimal(),
        "115792089237316195423570985008687907853269984665640564039457584007913129639935"
    );
    assert_eq!(
        format_balance(&max, 0),
        "115792089237316195423570985008687907853269984665640564039457584007913129639935"
    );
    assert_eq!(
        format_balance(&max, 18),
        "115792089237316195423570985008687907853269984665640564039457.584007"
    );
}

#[test]
fn split_gives_whole_and_remainder() {
    let (whole, rest) = amount(123456789).split_at_decimals(8);
    assert_eq!(whole.to_decimal(), "1");
    assert_eq!(rest.to_decimal(), "23456789");
    let (whole, rest) = amount(7).split_at_decimals(100);
    assert!(whole.is_zero());
    assert_eq!(rest.to_decimal(), "7");
}

#[test]
fn amounts_from_call_answers() {
    let mut data = vec![0u8; 40];
    data[31] = 9;
    data[32] = 200;
    assert_eq!(Amount::from_be_prefix(&data).to_decimal(), "9");
    assert!(Amount::from_be_prefix(&data[..31]).is_zero());
    assert!(Amount::from_be_prefix(&[]).is_zero());
    data[30] = 1;
    assert_eq!(Amount::from_be_prefix(&data).to_decimal(), "265");
}

#[test]
fn satoshis_show_eight_places() {
    assert_eq!(format_satoshis(60000), "0.00060000");
    assert_eq!(format_satoshis(0), "0.00000000");
    assert_eq!(format_satoshis(100_000_000), "1.00000000");
    assert_eq!(format_satoshis(2_100_000_000_000_000), "21000000.00000000");
    assert_eq!(format_satoshis(u64::MAX), "184467440737.09551615");
}

#[test]
fn lamports_show_four_places() {
    assert_eq!(format_lamports(0), "0.0000");
    assert_eq!(format_lamports(1_500_000_000), "1.5000");
    assert_eq!(format_lamports(1_999_999_999), "2.0000");
    assert_eq!(format_lamports(49_999), "0.0000");
    assert_eq!(format_lamports(50_000), "0.0001");
    assert_eq!(format_lamports(1_234_567_890), "1.2346");
    assert_eq!(format_lamports(u64::MAX), "18446744073.7096");
}

#[test]
fn decimal_text_of_integers() {
    assert_eq!(u64_to_decimal(0), "0");
    assert_eq!(u64_to_decimal(7), "7");
    assert_eq!(u64_to_decimal(1050), "1050");
    assert_eq!(u64_to_decimal(u64::MAX), "18446744073709551615");
}

struct Lcg(u64);

impl Lcg {
    fn next(&mut self) -> u64 {
        self.0 = self.0.wrapping_mul(6364136223846793005).wrapping_add(1442695040888963407);
        self.0 >> 11
    }
}

fn expected_format(raw: u128, decimals: u32) -> String {
    if raw == 0 {
        return "0".to_string();
    }
    let (whole, rest) = match 10u128.checked_pow(decimals) {
        Some(unit) => (raw / unit, raw % unit),
        None => (0, raw),
    };
    if rest == 0 {
        return whole.to_string();
    }
    let mut digits = rest.to_string();
    while (digits.len() as u32) < decimals {
        digits.insert(0, '0');
    }
    let kept = digits.trim_end_matches('0');
    format!("{}.{}", whole, &kept[..kept.len().min(6)])
}

#[test]
fn formatting_agrees_with_plain_arithmetic() {
    let mut rng = Lcg(42);
    for round in 0..4000u32 {
        let high = rng.next() as u128;
        let low = rng.next() as u128;
        let raw = match round % 4 {
            0 => low % 1_000_000,
            1 => low,
            2 => (high << 53) | low,
            _ => (low % 1000) * 10u128.pow((high % 30) as u32),
        };
        let decimals = (rng.next() % 45) as u32;
        assert_eq!(
            format_balance(&amount(raw), decimals),
            expected_format(raw, decimals),
            "raw {} decimals {}",
            raw,
            decimals
        );
    }
}

#[test]
fn whole_and_fraction_add_up_to_the_balance() {
    let mut rng = Lcg(7);
    for _ in 0..2000 {
        let raw = ((rng.next() as u128) << 40) | rng.next() as u128;
        let decimals = (rng.next() % 30) as u32;
        let (whole, rest) = amount(raw).split_at_decimals(decimals);
        let whole: u128 = whole.to_decimal().parse().unwrap();
        let rest_text = rest.to_decimal();
        let padded = format!("{:0>width$}", rest_text, width = decimals as usize);
        if decimals > 0 {
            assert_eq!(padded.len(), decimals as usize);
        }
        let rest: u128 = padded.parse().unwrap();
        assert_eq!(whole * 10u128.pow(decimals) + rest, raw);
    }
}

#[test]
fn shown_fractions_are_short_and_mostly_end_in_a_digit_above_zero() {
    let mut rng = Lcg(99);
    for _ in 0..3000 {
        let raw = rng.next() as u128;
        let decimals = (rng.next() % 20) as u32;
        let shown = format_balance(&amount(raw), decimals);
        if let Some((_, fraction)) = shown.split_once('.') {
            assert!(!fraction.is_empty() && fraction.len() <= 6);
            let rest = raw % 10u128.pow(decimals);
            let all = format!("{:0>width$}", rest, width = decimals as usize);
            let kept = all.trim_end_matches('0');
            if kept.len() <= 6 || kept.as_bytes()[5] != b'0' {
                assert!(!fraction.ends_with('0'), "{}", shown);
            }
        }
    }
    assert_eq!(format_balance(&amount(11_000_001), 7), "1.100000");
}

#[test]
fn fixed_formats_agree_with_plain_arithmetic() {
    let mut rng = Lcg(3);
    for _ in 0..3000 {
        let n = rng.next() >> (rng.next() % 50);
        assert_eq!(format_satoshis(n), format!("{}.{:08}", n / 100_000_000, n % 100_000_000));
        let scaled = (n as u128 + 50_000) / 100_000;
        assert_eq!(format_lamports(n), format!("{}.{:04}", scaled / 10_000, scaled % 10_000));
    }
}
