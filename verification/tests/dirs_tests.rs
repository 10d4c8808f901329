use htb::dirs::{plan_lab_dir, DirPlan};
use htb::text::{parse_dec_u64, u64_dec_string};

#[test]
fn existing_directory_is_kept() {
    assert_eq!(plan_lab_dir(true, true, true, true), DirPlan::UseExisting);
    assert_eq!(plan_lab_dir(true, true, false, false), DirPlan::UseExisting);
}

#[test]
fn missing_parent_is_refused() {
    assert_eq!(plan_lab_dir(false, true, false, false), DirPlan::BadParent);
    assert_eq!(plan_lab_dir(false, true, false, true), DirPlan::BadParent);
}

#[test]
fn existing_non_directory_is_refused() {
    assert_eq!(plan_lab_dir(false, true, true, true), DirPlan::NotADirectory);
    assert_eq!(plan_lab_dir(false, false, true, true), DirPlan::NotADirectory);
}

#[test]
fn missing_path_with_parent_is_created() {
    assert_eq!(plan_lab_dir(false, true, true, false), DirPlan::Create);
    assert_eq!(plan_lab_dir(false, false, false, false), DirPlan::Create);
}

#[test]
fn decimal_reading() {
    assert_eq!(parse_dec_u64("0"), Some(0));
    assert_eq!(parse_dec_u64("341"), Some(341));
    assert_eq!(parse_dec_u64("007"), Some(7));
    assert_eq!(parse_dec_u64("18446744073709551615"), Some(u64::MAX));
    assert_eq!(parse_dec_u64("18446744073709551616"), None);
    assert_eq!(parse_dec_u64(""), None);
    assert_eq!(parse_dec_u64("12a"), None);
    assert_eq!(parse_dec_u64("-5"), None);
    assert_eq!(parse_dec_u64("1.5"), None);
}

#[test]
fn decimal_writing() {
    assert_eq!(u64_dec_string(0), "0");
    assert_eq!(u64_dec_string(9), "9");
    assert_eq!(u64_dec_string(341), "341");
    assert_eq!(u64_dec_string(u64::MAX), "18446744073709551615");
}

#[test]
fn decimal_round_trip() {
    for v in [0u64, 1, 9, 10, 99, 100, 12345, u64::MAX] {
        assert_eq!(parse_dec_u64(&u64_dec_string(v)), Some(v));
    }
}
