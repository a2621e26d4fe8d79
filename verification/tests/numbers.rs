use lua_bench::number::Number;

fn unsigned(x: f64) -> Option<u32> {
    Number::from_bits(x.to_bits()).as_unsigned()
}

#[test]
fn whole_numbers_in_range_convert() {
    assert_eq!(unsigned(0.0), Some(0));
    assert_eq!(unsigned(-0.0), Some(0));
    assert_eq!(unsigned(1.0), Some(1));
    assert_eq!(unsigned(2.0), Some(2));
    assert_eq!(unsigned(3.0), Some(3));
    assert_eq!(unsigned(1000.0), Some(1000));
    assert_eq!(unsigned(15_000_000.0), Some(15_000_000));
    assert_eq!(unsigned(2147483648.0), Some(1 << 31));
    assert_eq!(unsigned(4294967295.0), Some(u32::MAX));
}

#[test]
fn every_power_of_two_converts() {
    for p in 0..32u32 {
        let n: u32 = 1 << p;
        assert_eq!(unsigned(n as f64), Some(n));
        assert_eq!(unsigned((n - 1) as f64), Some(n - 1));
    }
}

#[test]
fn fractions_do_not_convert() {
    assert_eq!(unsigned(0.5), None);
    assert_eq!(unsigned(2.5), None);
    assert_eq!(unsigned(1000.0000001), None);
    assert_eq!(unsigned(4294967294.5), None);
    assert_eq!(unsigned(f64::MIN_POSITIVE), None);
    assert_eq!(unsigned(5e-324), None);
    assert_eq!(unsigned(1.0 + f64::EPSILON), None);
}

#[test]
fn negatives_do_not_convert() {
    assert_eq!(unsigned(-1.0), None);
    assert_eq!(unsigned(-1000.0), None);
    assert_eq!(unsigned(-0.5), None);
    assert_eq!(unsigned(-5e-324), None);
}

#[test]
fn large_and_special_values_do_not_convert() {
    assert_eq!(unsigned(4294967296.0), None);
    assert_eq!(unsigned(1e300), None);
    assert_eq!(unsigned(9007199254740992.0), None);
    assert_eq!(unsigned(f64::INFINITY), None);
    assert_eq!(unsigned(f64::NEG_INFINITY), None);
    assert_eq!(unsigned(f64::NAN), None);
}

#[test]
fn conversion_agrees_with_exact_comparison() {
    let mut x: u64 = 0x9e37_79b9_7f4a_7c15;
    for _ in 0..20000 {
        x ^= x << 13;
        x ^= x >> 7;
        x ^= x << 17;
        let candidates = [f64::from_bits(x), (x % 5_000_000_000) as f64 / 2.0, (x >> 40) as f64];
        for f in candidates {
            let expected = if f >= 0.0 && f <= 4294967295.0 && f.trunc() == f {
                Some(f as u32)
            } else if f == 0.0 {
                Some(0)
            } else {
                None
            };
            assert_eq!(unsigned(f), expected);
        }
    }
}

#[test]
fn bits_round_trip() {
    let n = Number::from_bits(0x4045_4000_0000_0000);
    assert_eq!(n.to_bits(), 0x4045_4000_0000_0000);
    assert_eq!(f64::from_bits(n.to_bits()), 42.5);
}

fn integer(x: f64) -> Option<i64> {
    Number::from_bits(x.to_bits()).as_integer()
}

fn magnitude(x: f64) -> Option<u64> {
    Number::from_bits(x.to_bits()).magnitude()
}

#[test]
fn whole_numbers_convert_to_integers() {
    assert_eq!(integer(0.0), Some(0));
    assert_eq!(integer(-0.0), Some(0));
    assert_eq!(integer(1.0), Some(1));
    assert_eq!(integer(-1.0), Some(-1));
    assert_eq!(integer(-1000.0), Some(-1000));
    assert_eq!(integer(4294967296.0), Some(1 << 32));
    assert_eq!(integer(9007199254740992.0), Some(1 << 53));
    assert_eq!(integer(9007199254740994.0), Some((1 << 53) + 2));
    assert_eq!(integer(-9223372036854775808.0), Some(i64::MIN));
    assert_eq!(integer(9223372036854774784.0), Some(i64::MAX - 1023));
}

#[test]
fn other_numbers_do_not_convert_to_integers() {
    assert_eq!(integer(9223372036854775808.0), None);
    assert_eq!(integer(-9223372036854777856.0), None);
    assert_eq!(integer(0.5), None);
    assert_eq!(integer(-2.5), None);
    assert_eq!(integer(1e19), None);
    assert_eq!(integer(1e300), None);
    assert_eq!(integer(f64::INFINITY), None);
    assert_eq!(integer(f64::NAN), None);
    assert_eq!(integer(5e-324), None);
}

#[test]
fn magnitudes() {
    assert_eq!(magnitude(0.0), Some(0));
    assert_eq!(magnitude(-7.0), Some(7));
    assert_eq!(magnitude(18446744073709549568.0), Some(u64::MAX - 2047));
    assert_eq!(magnitude(9223372036854775808.0), Some(1 << 63));
    assert_eq!(magnitude(18446744073709551616.0), None);
    assert_eq!(magnitude(-0.25), None);
    assert_eq!(magnitude(f64::NEG_INFINITY), None);
}

#[test]
fn integer_conversion_agrees_with_exact_comparison() {
    let mut x: u64 = 0x2545_f491_4f6c_dd1d;
    for _ in 0..20000 {
        x ^= x << 13;
        x ^= x >> 7;
        x ^= x << 17;
        let candidates = [f64::from_bits(x), (x as i64) as f64, ((x as i64) >> 20) as f64 / 4.0];
        for f in candidates {
            let fits = f >= -9223372036854775808.0 && f < 9223372036854775808.0;
            let expected = if fits && f.trunc() == f { Some(f as i64) } else { None };
            assert_eq!(integer(f), expected);
        }
    }
}
