use cca::hyp::{
    extension_present, ConfigRecord, InitiateRecord, PopulateRecord, RME_CFG_HASH_ALGO,
    RME_HASH_ALGO_SHA256, RME_POPULATE_FLAG_MEASURE,
};

#[test]
fn config_record_wire_order() {
    let rec = ConfigRecord { selector: RME_CFG_HASH_ALGO, value: RME_HASH_ALGO_SHA256 };
    assert_eq!(rec.encode(), [1, 0]);
}

#[test]
fn populate_record_wire_order() {
    let rec = PopulateRecord { base: 0x10000, size: 0x1000, flags: RME_POPULATE_FLAG_MEASURE };
    assert_eq!(rec.encode(), [0x10000, 0x1000, 1]);
}

#[test]
fn initiate_record_wire_order() {
    let rec = InitiateRecord { base: 0x10000, size: 0x1000 };
    assert_eq!(rec.encode(), [0x10000, 0x1000]);
}

#[test]
fn probe_present_iff_level_positive() {
    assert!(!extension_present(0));
    assert!(extension_present(1));
    assert!(extension_present(i32::MAX));
}
