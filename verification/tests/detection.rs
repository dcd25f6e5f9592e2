use has_fast_pdep::dispatch::{Dispatcher, Procedure};
use has_fast_pdep::probe::{
    bmi2_bit, family_sum, flagged_family_is_slow, is_flagged_manufacturer, manufacturer_id,
    probe_advance, probe_begin, CpuidLeaf, ProbeState, ProbeStep, DHYANA_FAMILY_CODE,
    ZEN_FAMILY_CODE,
};
use has_fast_pdep::{has_fast_pdep, inner, inner_false, inner_true};

fn word(bytes: &[u8]) -> u32 {
    u32::from_le_bytes([bytes[0], bytes[1], bytes[2], bytes[3]])
}

/// A vendor leaf (leaf 0) reporting `max_leaf` and the given 12-byte
/// manufacturer text, laid out as the identification convention does:
/// EBX, then EDX, then ECX.
fn vendor_leaf(vendor: &str, max_leaf: u32) -> CpuidLeaf {
    let b = vendor.as_bytes();
    assert_eq!(b.len(), 12);
    CpuidLeaf {
        eax: max_leaf,
        ebx: word(&b[0..4]),
        edx: word(&b[4..8]),
        ecx: word(&b[8..12]),
    }
}

/// A family leaf (leaf 1) with the given base and extended family fields.
fn family_leaf(family: u32, extended_family: u32) -> CpuidLeaf {
    CpuidLeaf {
        eax: (family << 8) | (extended_family << 20),
        ebx: 0,
        ecx: 0,
        edx: 0,
    }
}

/// A feature leaf (leaf 7) with or without the BMI2 bit.
fn feature_leaf(bmi2: bool) -> CpuidLeaf {
    CpuidLeaf {
        eax: 0,
        ebx: if bmi2 { 1 << 8 } else { 0 },
        ecx: 0,
        edx: 0,
    }
}

/// Drives the probe machine to its conclusion, answering each requested
/// leaf with the matching data, and records which leaves were requested.
fn run_probe(leaf0: CpuidLeaf, leaf1: CpuidLeaf, leaf7: CpuidLeaf) -> (bool, Vec<u32>) {
    let mut queried: Vec<u32> = Vec::new();
    let mut step = probe_begin();
    loop {
        match step {
            ProbeStep::Query { leaf, state } => {
                queried.push(leaf);
                let response = match leaf {
                    0 => leaf0,
                    1 => leaf1,
                    7 => leaf7,
                    other => panic!("probe requested unexpected leaf {other}"),
                };
                step = probe_advance(state, &response);
            }
            ProbeStep::Done { fast_pdep } => return (fast_pdep, queried),
        }
    }
}

#[test]
fn probe_begin_requests_vendor_leaf() {
    assert_eq!(
        probe_begin(),
        ProbeStep::Query {
            leaf: 0,
            state: ProbeState::AwaitVendor
        }
    );
}

#[test]
fn amd_zen2_with_bmi2_is_slow() {
    // Zen/Zen+/Zen2: family 0xF, extended family 0x08, sum 0x17; the set
    // feature bit is overridden by the flagged generation.
    let (answer, queried) = run_probe(
        vendor_leaf("AuthenticAMD", 0x0D),
        family_leaf(0xF, 0x08),
        feature_leaf(true),
    );
    assert!(!answer);
    assert_eq!(queried, vec![0, 1, 7]);
}

#[test]
fn intel_with_bmi2_is_fast() {
    let (answer, queried) = run_probe(
        vendor_leaf("GenuineIntel", 7),
        family_leaf(0, 0),
        feature_leaf(true),
    );
    assert!(answer);
    assert_eq!(queried, vec![0, 7]);
}

#[test]
fn intel_without_feature_leaf_is_not_fast() {
    // Max supported leaf 6: BMI2 cannot be confirmed, leaf 7 never read.
    let (answer, queried) = run_probe(
        vendor_leaf("GenuineIntel", 6),
        family_leaf(0, 0),
        feature_leaf(true),
    );
    assert!(!answer);
    assert_eq!(queried, vec![0]);
}

#[test]
fn intel_slow_family_values_are_ignored() {
    // A non-flagged manufacturer whose family fields happen to sum to the
    // flagged Zen code is never penalized, and its family leaf is never read.
    let (answer, queried) = run_probe(
        vendor_leaf("GenuineIntel", 7),
        family_leaf(0xF, 0x08),
        feature_leaf(true),
    );
    assert!(answer);
    assert_eq!(queried, vec![0, 7]);
}

#[test]
fn hygon_dhyana_with_bmi2_is_slow() {
    // Dhyana: family 0xF, extended family 0x09, sum 0x18.
    let (answer, queried) = run_probe(
        vendor_leaf("HygonGenuine", 7),
        family_leaf(0xF, 0x09),
        feature_leaf(true),
    );
    assert!(!answer);
    assert_eq!(queried, vec![0, 1, 7]);
}

#[test]
fn amd_later_generation_with_bmi2_is_fast() {
    // Family sum 0x19 is past the flagged generations.
    let (answer, queried) = run_probe(
        vendor_leaf("AuthenticAMD", 7),
        family_leaf(0xF, 0x0A),
        feature_leaf(true),
    );
    assert!(answer);
    assert_eq!(queried, vec![0, 1, 7]);
}

#[test]
fn amd_zen_without_bmi2_is_not_fast() {
    let (answer, _) = run_probe(
        vendor_leaf("AuthenticAMD", 7),
        family_leaf(0xF, 0x08),
        feature_leaf(false),
    );
    assert!(!answer);
}

#[test]
fn amd_with_low_max_leaf_is_not_fast() {
    // The family leaf is still read for a flagged vendor, but the feature
    // leaf never is when the reported maximum is below 7.
    let (answer, queried) = run_probe(
        vendor_leaf("AuthenticAMD", 3),
        family_leaf(0xF, 0x08),
        feature_leaf(true),
    );
    assert!(!answer);
    assert_eq!(queried, vec![0, 1]);
}

#[test]
fn manufacturer_id_assembles_words_in_order() {
    let id = manufacturer_id(&vendor_leaf("AuthenticAMD", 1));
    assert_eq!(id, b"AuthenticAMD".to_vec());
    let id = manufacturer_id(&vendor_leaf("GenuineIntel", 1));
    assert_eq!(id, b"GenuineIntel".to_vec());
}

#[test]
fn flagged_manufacturers_are_amd_and_hygon() {
    assert!(is_flagged_manufacturer(&vendor_leaf("AuthenticAMD", 1)));
    assert!(is_flagged_manufacturer(&vendor_leaf("HygonGenuine", 1)));
    assert!(!is_flagged_manufacturer(&vendor_leaf("GenuineIntel", 1)));
    assert!(!is_flagged_manufacturer(&vendor_leaf("AuthenticAMC", 1)));
}

#[test]
fn family_sum_adds_base_and_extended_family() {
    assert_eq!(family_sum(family_leaf(0xF, 0x08).eax), 0x17);
    assert_eq!(family_sum(family_leaf(0xF, 0x09).eax), 0x18);
    assert_eq!(family_sum(family_leaf(0x6, 0x00).eax), 0x6);
    // Other bits of the word do not leak into the fields.
    assert_eq!(family_sum(0xFFFF_FFFF), 0x0F + 0xFF);
}

#[test]
fn flagged_family_codes_are_zen_and_dhyana() {
    assert_eq!(ZEN_FAMILY_CODE, 0x17);
    assert_eq!(DHYANA_FAMILY_CODE, 0x18);
    assert!(flagged_family_is_slow(family_leaf(0xF, 0x08).eax));
    assert!(flagged_family_is_slow(family_leaf(0xF, 0x09).eax));
    assert!(!flagged_family_is_slow(family_leaf(0xF, 0x0A).eax));
    assert!(!flagged_family_is_slow(family_leaf(0x6, 0x00).eax));
}

#[test]
fn bmi2_bit_is_bit_eight_of_ebx() {
    assert!(bmi2_bit(1 << 8));
    assert!(!bmi2_bit(0));
    assert!(!bmi2_bit(!(1u32 << 8)));
    assert!(bmi2_bit(0xFFFF_FFFF));
}

#[test]
fn fallback_entry_point_is_constant_false() {
    // Without an identification instruction, the query performs no hardware
    // access and always answers false.
    assert!(!has_fast_pdep());
    assert!(!inner());
    assert_eq!(has_fast_pdep(), has_fast_pdep());
}

#[test]
fn constant_procedures_encode_their_answers() {
    assert!(inner_true());
    assert!(!inner_false());
}

#[test]
fn dispatcher_memoizes_first_answer() {
    let mut d = Dispatcher::new();
    assert_eq!(d.read(), Procedure::Prober);
    assert!(d.get_answer(true));
    assert_eq!(d.read(), Procedure::ConstantTrue);
    assert!(d.get_answer(true));
    assert!(d.get_answer(true));
    assert_eq!(d.read(), Procedure::ConstantTrue);
}

#[test]
fn dispatcher_memoizes_negative_answer() {
    let mut d = Dispatcher::new();
    assert!(!d.get_answer(false));
    assert_eq!(d.read(), Procedure::ConstantFalse);
    assert!(!d.get_answer(false));
}

#[test]
fn racing_duplicate_installs_converge() {
    // Two first callers both observe the prober and both install; the cell
    // ends at the same constant and every caller sees the same boolean.
    let mut d = Dispatcher::new();
    let seen_by_first = d.read();
    let seen_by_second = d.read();
    assert_eq!(seen_by_first, Procedure::Prober);
    assert_eq!(seen_by_second, Procedure::Prober);
    d.install(true);
    d.install(true);
    assert_eq!(d.read(), Procedure::ConstantTrue);
    assert!(d.get_answer(true));
}
