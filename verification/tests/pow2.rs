use gulf::num::{PowerOfTwo, NotPowerOfTwo, MAX_EXPONENT};

#[test]
fn __generate_pow2() {
    let mut out = String::new();

    for x in 0x00..0x80 {
        assert!(u8::try_from(x).is_ok());
        assert!(PowerOfTwo::from_exponent(u8::try_from(x).unwrap()).is_some());

        let delim = match x % 16 {
            0..15 => ", ",
            15 => ",\n",
            _ => unreachable!(),
        };

        out.push_str(&format!("_{x:02X}{delim}"));
    }

    assert!(out.starts_with("_00, _01, _02"));
    assert!(out.ends_with("_7E, _7F,\n"));
    println!("{out}");
}

#[test]
fn power_of_two_bounds() {
    assert_eq!(PowerOfTwo::min_value().to_exponent(), 0);
    assert_eq!(PowerOfTwo::max_value().to_exponent(), 127);
    assert_eq!(MAX_EXPONENT, 127);
    assert!(PowerOfTwo::default() == PowerOfTwo::min_value());
    assert!(PowerOfTwo::from_exponent(128).is_none());
    assert!(PowerOfTwo::from_exponent(255).is_none());
    assert!(PowerOfTwo::from_exponent(127).unwrap() == PowerOfTwo::max_value());
}

#[test]
fn power_of_two_mul_div() {
    let a = PowerOfTwo::from_exponent(60).unwrap();
    let b = PowerOfTwo::from_exponent(67).unwrap();
    let p = a.checked_mul(b).unwrap();
    assert_eq!(p.to_exponent(), 127);
    assert!(p.checked_div(b).unwrap() == a);
    assert!(p.checked_div(a).unwrap() == b);
    assert!(p.checked_mul(PowerOfTwo::from_exponent(1).unwrap()).is_none());
    assert!(a.checked_div(b).is_none());
    assert!(a.checked_div(a).unwrap() == PowerOfTwo::min_value());
    let max = PowerOfTwo::max_value();
    assert!(max.checked_mul(max).is_none());
}

#[test]
fn power_of_two_order() {
    let small = PowerOfTwo::from_exponent(3).unwrap();
    let large = PowerOfTwo::from_exponent(4).unwrap();
    assert!(small < large);
    assert_eq!(NotPowerOfTwo.description(), "provided value was not a power of two");
}
