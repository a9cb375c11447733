use ryu_etna::property::{to_err, to_opt, PropertyResult};
use ryu_etna::roundtrip::{
    is_finite32, is_finite64, roundtrip_verdict32, roundtrip_verdict64, Reparsed,
};

/// The f32 round trip, with std's shortest decimal text as the formatter.
fn property_format32_roundtrip(f: f32) -> PropertyResult {
    let bits = f.to_bits();
    if !is_finite32(bits) {
        return roundtrip_verdict32(bits, "", "", Reparsed::Rejected { reason: String::new() });
    }
    let s = f.to_string();
    let back = match s.parse::<f32>() {
        Ok(p) => Reparsed::Value { bits: p.to_bits(), shown: p.to_string() },
        Err(e) => Reparsed::Rejected { reason: e.to_string() },
    };
    roundtrip_verdict32(bits, &f.to_string(), &format!("{:?}", s), back)
}

fn property_format64_roundtrip(f: f64) -> PropertyResult {
    let bits = f.to_bits();
    if !is_finite64(bits) {
        return roundtrip_verdict64(bits, "", "", Reparsed::Rejected { reason: String::new() });
    }
    let s = f.to_string();
    let back = match s.parse::<f64>() {
        Ok(p) => Reparsed::Value { bits: p.to_bits(), shown: p.to_string() },
        Err(e) => Reparsed::Rejected { reason: e.to_string() },
    };
    roundtrip_verdict64(bits, &f.to_string(), &format!("{:?}", s), back)
}

fn assert_pass(result: PropertyResult, label: &str) {
    match result {
        PropertyResult::Pass | PropertyResult::Discard => {}
        PropertyResult::Fail(m) => panic!("{label}: {m}"),
    }
}

fn assert_strict_pass(result: PropertyResult, label: &str) {
    match result {
        PropertyResult::Pass => {}
        PropertyResult::Discard => panic!("{label}: discarded"),
        PropertyResult::Fail(m) => panic!("{label}: {m}"),
    }
}

#[test]
fn witness_format32_roundtrip_case_negative_small_e_minus_3() {
    assert_pass(
        property_format32_roundtrip(-1.234e-3_f32),
        "witness_format32_roundtrip_case_negative_small_e_minus_3",
    );
}

#[test]
fn witness_format32_roundtrip_case_negative_small_e_minus_1() {
    assert_pass(
        property_format32_roundtrip(-0.5_f32),
        "witness_format32_roundtrip_case_negative_small_e_minus_1",
    );
}

#[test]
fn witness_format32_roundtrip_case_negative_small_near_zero() {
    assert_pass(
        property_format32_roundtrip(-0.0012345_f32),
        "witness_format32_roundtrip_case_negative_small_near_zero",
    );
}

#[test]
fn witness_format32_roundtrip_case_positive_small_sanity() {
    assert_pass(
        property_format32_roundtrip(1.234e-3_f32),
        "witness_format32_roundtrip_case_positive_small_sanity",
    );
}

#[test]
fn witness_format64_roundtrip_case_negative_small_sanity() {
    assert_pass(
        property_format64_roundtrip(-1.234e-3_f64),
        "witness_format64_roundtrip_case_negative_small_sanity",
    );
}

#[test]
fn roundtrip_witness_inputs_pass_strictly() {
    assert_strict_pass(property_format32_roundtrip(-1.234e-3_f32), "-1.234e-3 f32");
    assert_strict_pass(property_format32_roundtrip(-0.5_f32), "-0.5 f32");
    assert_strict_pass(property_format32_roundtrip(-0.0012345_f32), "-0.0012345 f32");
    assert_strict_pass(property_format32_roundtrip(1.234e-3_f32), "1.234e-3 f32");
    assert_strict_pass(property_format64_roundtrip(-1.234e-3_f64), "-1.234e-3 f64");
}

#[test]
fn roundtrip_signed_zero_and_extremes_pass() {
    assert_strict_pass(property_format32_roundtrip(-0.0_f32), "-0.0 f32");
    assert_strict_pass(property_format32_roundtrip(f32::MAX), "max f32");
    assert_strict_pass(property_format32_roundtrip(f32::from_bits(1)), "smallest subnormal f32");
    assert_strict_pass(property_format64_roundtrip(-0.0_f64), "-0.0 f64");
    assert_strict_pass(property_format64_roundtrip(f64::MIN_POSITIVE), "min positive f64");
}

#[test]
fn roundtrip_non_finite_is_discarded() {
    assert!(matches!(property_format32_roundtrip(f32::INFINITY), PropertyResult::Discard));
    assert!(matches!(property_format32_roundtrip(f32::NEG_INFINITY), PropertyResult::Discard));
    assert!(matches!(property_format32_roundtrip(f32::NAN), PropertyResult::Discard));
    assert!(matches!(property_format64_roundtrip(f64::INFINITY), PropertyResult::Discard));
    assert!(matches!(property_format64_roundtrip(f64::NAN), PropertyResult::Discard));
}

#[test]
fn finiteness_of_bit_patterns() {
    assert!(is_finite32(0x0000_0000));
    assert!(is_finite32(0x8000_0000));
    assert!(is_finite32(0x7f7f_ffff));
    assert!(is_finite32(0xff7f_ffff));
    assert!(!is_finite32(0x7f80_0000));
    assert!(!is_finite32(0xff80_0000));
    assert!(!is_finite32(0x7fc0_0000));
    assert!(is_finite64(0x7fef_ffff_ffff_ffff));
    assert!(!is_finite64(0x7ff0_0000_0000_0000));
    assert!(!is_finite64(0xfff8_0000_0000_0000));
    assert!(is_finite64(0x8000_0000_0000_0001));
}

// The sign-overwrite fault: "-0.001234" written as "00.001234" parses to the
// positive value, so the bits come back with the sign cleared.
#[test]
fn roundtrip32_lost_sign_fails_with_both_bit_patterns() {
    let f = -1.234e-3_f32;
    let bits = f.to_bits();
    let bad = "00.001234";
    let parsed: f32 = bad.parse().unwrap();
    let r = roundtrip_verdict32(
        bits,
        &f.to_string(),
        &format!("{:?}", bad),
        Reparsed::Value { bits: parsed.to_bits(), shown: parsed.to_string() },
    );
    match r {
        PropertyResult::Fail(m) => assert_eq!(
            m,
            format!(
                "f32 roundtrip mismatch: {} (bits={:#x}) -> {:?} -> {} (bits={:#x})",
                f,
                f.to_bits(),
                bad,
                parsed,
                parsed.to_bits()
            )
        ),
        _ => panic!("expected a failure"),
    }
}

#[test]
fn roundtrip_mismatch_message_exact() {
    let r = roundtrip_verdict32(1, "a", "\"t\"", Reparsed::Value { bits: 0x2f, shown: "b".to_string() });
    match r {
        PropertyResult::Fail(m) => {
            assert_eq!(m, "f32 roundtrip mismatch: a (bits=0x1) -> \"t\" -> b (bits=0x2f)")
        }
        _ => panic!("expected a failure"),
    }
    let r = roundtrip_verdict64(0, "0", "\"0\"", Reparsed::Value { bits: u64::MAX >> 1, shown: "x".to_string() });
    match r {
        PropertyResult::Fail(m) => assert_eq!(
            m,
            "f64 roundtrip mismatch: 0 (bits=0x0) -> \"0\" -> x (bits=0x7fffffffffffffff)"
        ),
        _ => panic!("expected a failure"),
    }
}

#[test]
fn roundtrip_unparsable_text_fails() {
    let bad = "0\u{0}.001234";
    let err = bad.parse::<f32>().unwrap_err();
    let r = roundtrip_verdict32(
        (-1.234e-3_f32).to_bits(),
        "-0.001234",
        &format!("{:?}", bad),
        Reparsed::Rejected { reason: err.to_string() },
    );
    match r {
        PropertyResult::Fail(m) => {
            assert_eq!(m, format!("f32 format {:?} failed to parse back: {}", bad, err))
        }
        _ => panic!("expected a failure"),
    }
    let r = roundtrip_verdict64(0, "0", "\"\"", Reparsed::Rejected { reason: "empty".to_string() });
    match r {
        PropertyResult::Fail(m) => assert_eq!(m, "f64 format \"\" failed to parse back: empty"),
        _ => panic!("expected a failure"),
    }
}

#[test]
fn readings_of_verdicts() {
    assert_eq!(to_err(PropertyResult::Pass), Ok(()));
    assert_eq!(to_err(PropertyResult::Discard), Ok(()));
    assert_eq!(to_err(PropertyResult::Fail("boom".to_string())), Err("boom".to_string()));
    assert_eq!(to_opt(PropertyResult::Pass), Some(true));
    assert_eq!(to_opt(PropertyResult::Fail("boom".to_string())), Some(false));
    assert_eq!(to_opt(PropertyResult::Discard), None);
}

#[test]
fn readings_agree_on_failures() {
    for make in [
        || PropertyResult::Pass,
        || PropertyResult::Discard,
        || PropertyResult::Fail(String::from("x")),
    ] {
        assert_eq!(to_err(make()).is_err(), to_opt(make()) == Some(false));
    }
}
