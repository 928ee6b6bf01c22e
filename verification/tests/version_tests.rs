use filmtrack::services::UpdateService;
use filmtrack::version::VersionTuple;

#[test]
fn later_major_wins_over_larger_minor_and_patch() {
    assert_eq!(UpdateService::compare_versions("2.0.0", "1.9.9"), 1);
}

#[test]
fn missing_patch_counts_as_zero() {
    assert_eq!(UpdateService::compare_versions("1.0", "1.0.0"), 0);
}

#[test]
fn earlier_minor_loses() {
    assert_eq!(UpdateService::compare_versions("0.9", "1.0.0"), -1);
}

#[test]
fn order_is_numeric_not_textual() {
    assert_eq!(UpdateService::compare_versions("1.10.0", "1.9.0"), 1);
    assert_eq!(UpdateService::compare_versions("1.2.10", "1.2.9"), 1);
    assert_eq!(UpdateService::compare_versions("10.0.0", "9.99.99"), 1);
    assert_eq!(UpdateService::compare_versions("1.02.0", "1.2.0"), 0);
}

#[test]
fn swapping_the_arguments_negates_the_result() {
    let versions = ["", "1", "1.0", "1.0.1", "2.0.0", "1.9.9", "0.9", "x.y.z", "1..3", "3.2.1.9"];
    for a in versions {
        for b in versions {
            assert_eq!(
                UpdateService::compare_versions(a, b),
                -UpdateService::compare_versions(b, a),
                "{a} against {b}"
            );
        }
    }
}

#[test]
fn every_version_equals_itself() {
    for v in ["", "1.2.3", "abc", "1.2.3.4", "+1.+2.+3"] {
        assert_eq!(UpdateService::compare_versions(v, v), 0);
    }
}

#[test]
fn a_fourth_number_is_not_looked_at() {
    assert_eq!(UpdateService::compare_versions("1.2.3.0", "1.2.3"), 0);
    assert_eq!(UpdateService::compare_versions("1.2.3.9", "1.2.3.1"), 0);
}

#[test]
fn a_piece_that_is_no_number_counts_as_zero() {
    assert_eq!(VersionTuple::parse("1.x.3"), VersionTuple { major: 1, minor: 0, patch: 3 });
    assert_eq!(VersionTuple::parse("v1.2.3"), VersionTuple { major: 0, minor: 2, patch: 3 });
    assert_eq!(VersionTuple::parse("1.2.3-beta"), VersionTuple { major: 1, minor: 2, patch: 0 });
    assert_eq!(VersionTuple::parse(" 1.2.3"), VersionTuple { major: 0, minor: 2, patch: 3 });
    assert_eq!(VersionTuple::parse("-1.2.3"), VersionTuple { major: 0, minor: 2, patch: 3 });
    assert_eq!(VersionTuple::parse("1..3"), VersionTuple { major: 1, minor: 0, patch: 3 });
    assert_eq!(VersionTuple::parse(""), VersionTuple { major: 0, minor: 0, patch: 0 });
}

#[test]
fn a_plus_sign_before_a_number_is_accepted() {
    assert_eq!(VersionTuple::parse("+1.+2.+3"), VersionTuple { major: 1, minor: 2, patch: 3 });
    assert_eq!(VersionTuple::parse("+.++1.1+"), VersionTuple { major: 0, minor: 0, patch: 0 });
}

#[test]
fn a_number_beyond_32_bits_counts_as_zero() {
    assert_eq!(
        VersionTuple::parse("4294967295.4294967296.99999999999999999999"),
        VersionTuple { major: 4294967295, minor: 0, patch: 0 }
    );
    assert_eq!(
        VersionTuple::parse("0004294967295.1.1"),
        VersionTuple { major: 4294967295, minor: 1, patch: 1 }
    );
}

#[test]
fn parsing_agrees_with_the_standard_library_piece_by_piece() {
    let pieces = [
        "", "0", "7", "007", "+7", "-7", "+", "++7", "7+", " 7", "7 ", "4294967295", "4294967296",
        "42949672950", "1e3", "0x10", "१२", "٣", "1_000", "99999999999999999999999",
    ];
    for piece in pieces {
        let expected = piece.parse::<u32>().unwrap_or(0);
        let version = format!("{piece}.{piece}.{piece}");
        assert_eq!(
            VersionTuple::parse(&version),
            VersionTuple { major: expected, minor: expected, patch: expected },
            "piece {piece:?}"
        );
    }
}

#[test]
fn tuples_compare_by_major_then_minor_then_patch() {
    let a = VersionTuple { major: 1, minor: 9, patch: 9 };
    let b = VersionTuple { major: 2, minor: 0, patch: 0 };
    assert_eq!(a.compare(&b), -1);
    assert_eq!(b.compare(&a), 1);
    assert_eq!(a.compare(&a), 0);
    let c = VersionTuple { major: 1, minor: 9, patch: 10 };
    assert_eq!(c.compare(&a), 1);
    let d = VersionTuple { major: 1, minor: 10, patch: 0 };
    assert_eq!(d.compare(&c), 1);
}
