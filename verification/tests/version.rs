use minicov::{check_version, INSTR_PROF_RAW_VERSION, VARIANT_MASKS_ALL};

#[test]
fn format_constants() {
    assert_eq!(INSTR_PROF_RAW_VERSION, 10);
    assert_eq!(VARIANT_MASKS_ALL, 0xffff_ffff_0000_0000);
}

#[test]
fn matching_version_passes() {
    assert!(check_version(10));
}

#[test]
fn variant_bits_are_masked_off() {
    assert!(check_version(0x0100_0000_0000_000a));
    assert!(check_version(0xffff_ffff_0000_000a));
    assert!(check_version(0x0000_0001_0000_000a));
    assert!(check_version(0x8000_0000_0000_000a));
}

#[test]
fn other_versions_fail() {
    assert!(!check_version(0));
    assert!(!check_version(9));
    assert!(!check_version(11));
    assert!(!check_version(0x1_0a));
    assert!(!check_version(0x8000_000a));
    assert!(!check_version(0xffff_ffff));
    assert!(!check_version(u64::MAX));
    assert!(!check_version(0xffff_ffff_0000_0000));
    assert!(!check_version(0x0000_000a_0000_0000));
}
