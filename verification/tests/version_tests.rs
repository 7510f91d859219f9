use ntfy_log::version::{current_version, pkg_name, render_u64, Version};

#[test]
fn parse_empty_string_yields_zero_version() {
    let v = Version::from_string("");
    assert_eq!(v, Version { major: 0, minor: 0, patch: 0 });
}

#[test]
fn parse_garbage_yields_zero_version() {
    let v = Version::from_string("garbage");
    assert_eq!(v, Version { major: 0, minor: 0, patch: 0 });
}

#[test]
fn parse_strips_leading_v() {
    let v = Version::from_string("v2.3");
    assert_eq!(v, Version { major: 2, minor: 3, patch: 0 });
}

#[test]
fn parse_ignores_extra_fields() {
    let v = Version::from_string("1.2.3.4");
    assert_eq!(v, Version { major: 1, minor: 2, patch: 3 });
}

#[test]
fn parse_full_tag() {
    let v = Version::from_string("v1.2.3");
    assert_eq!(v, Version { major: 1, minor: 2, patch: 3 });
}

#[test]
fn parse_defaults_each_bad_field_to_zero() {
    assert_eq!(Version::from_string("1..2"), Version { major: 1, minor: 0, patch: 2 });
    assert_eq!(Version::from_string("1.x.3"), Version { major: 1, minor: 0, patch: 3 });
    assert_eq!(Version::from_string("..") , Version { major: 0, minor: 0, patch: 0 });
    assert_eq!(Version::from_string("v") , Version { major: 0, minor: 0, patch: 0 });
    assert_eq!(Version::from_string("10.") , Version { major: 10, minor: 0, patch: 0 });
}

#[test]
fn parse_rejects_sign_and_space_noise() {
    assert_eq!(Version::from_string("-1.2.3"), Version { major: 0, minor: 2, patch: 3 });
    assert_eq!(Version::from_string("1. 2.3"), Version { major: 1, minor: 0, patch: 3 });
}

#[test]
fn parse_overflowing_field_becomes_zero() {
    // One digit more than u64::MAX has.
    let v = Version::from_string("99999999999999999999.1");
    assert_eq!(v, Version { major: 0, minor: 1, patch: 0 });
    // u64::MAX itself still fits.
    let w = Version::from_string("18446744073709551615");
    assert_eq!(w.major, u64::MAX);
}

#[test]
fn ordering_is_field_wise_major_first() {
    let a = Version { major: 1, minor: 0, patch: 0 };
    let b = Version { major: 1, minor: 2, patch: 0 };
    let c = Version { major: 2, minor: 0, patch: 0 };
    assert!(a.lt(&b));
    assert!(b.lt(&c));
    assert!(a.lt(&c));
    assert!(!b.lt(&a));
    assert!(b.newer_than(&a));
    assert!(!a.newer_than(&a));
}

#[test]
fn ordering_is_a_strict_total_order_on_samples() {
    let samples = [
        Version { major: 0, minor: 0, patch: 0 },
        Version { major: 0, minor: 0, patch: 9 },
        Version { major: 0, minor: 3, patch: 0 },
        Version { major: 1, minor: 0, patch: 0 },
        Version { major: 1, minor: 0, patch: 1 },
        Version { major: 2, minor: 1, patch: 1 },
    ];
    for x in &samples {
        assert!(!x.lt(x));
        for y in &samples {
            if x.lt(y) {
                assert!(!y.lt(x));
            }
            if x != y {
                assert!(x.lt(y) || y.lt(x));
            }
            for z in &samples {
                if x.lt(y) && y.lt(z) {
                    assert!(x.lt(z));
                }
            }
        }
    }
}

#[test]
fn version_string_is_dotted_decimal() {
    let v = Version { major: 1, minor: 22, patch: 303 };
    assert_eq!(v.version_string(), "1.22.303");
    let zero = Version { major: 0, minor: 0, patch: 0 };
    assert_eq!(zero.version_string(), "0.0.0");
}

#[test]
fn render_u64_exact_values() {
    assert_eq!(render_u64(0), "0");
    assert_eq!(render_u64(7), "7");
    assert_eq!(render_u64(10), "10");
    assert_eq!(render_u64(409), "409");
    assert_eq!(render_u64(u64::MAX), "18446744073709551615");
}

#[test]
fn parse_round_trips_rendering() {
    let v = Version { major: 12, minor: 0, patch: 5 };
    assert_eq!(Version::from_string(&v.version_string()), v);
}

#[test]
fn current_version_is_the_build_injected_triple() {
    let v = current_version();
    assert_eq!(v, Version::from_cargo());
    assert_eq!(v.version_string(), "0.1.0");
}

#[test]
fn pkg_name_is_fixed() {
    assert_eq!(pkg_name(), "ntfy-log");
}
