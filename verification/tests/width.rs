use cca::ipa::ipa_width;
use cca::realm_vm_type;

#[test]
fn width_floors_at_32_bits() {
    // A small bound still gets the 32-bit floor plus one bit of headroom.
    assert_eq!(ipa_width(0x1000), 33);
    assert_eq!(ipa_width(0), 33);
    assert_eq!(ipa_width(1), 33);
    assert_eq!(ipa_width(0xFFFF_FFFF), 33);
}

#[test]
fn width_for_launch_bound() {
    assert_eq!(ipa_width(0x10FFF), 33);
    assert_eq!(ipa_width(32), 33);
}

#[test]
fn width_grows_above_32_bits() {
    // The smallest bound needing 33 raw bits.
    assert_eq!(ipa_width(0x1_0000_0000), 34);
    assert_eq!(ipa_width(0x1_0000_0001), 34);
    // The largest bound needing 33 raw bits, then the next width up.
    assert_eq!(ipa_width(0x1_FFFF_FFFF), 34);
    assert_eq!(ipa_width(0x2_0000_0000), 35);
    assert_eq!(ipa_width(u64::MAX), 65);
}

#[test]
fn vm_type_encodes_width_in_masked_field() {
    // Realm tag 0x100 with the width in the low byte.
    assert_eq!(realm_vm_type(33), 0x121);
    assert_eq!(realm_vm_type(65), 0x141);
    // The width field is masked to eight bits.
    assert_eq!(realm_vm_type(0x2FF), 0x1FF);
}
