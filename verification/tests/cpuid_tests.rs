use apic::cpuid::{
    family, family_of, init, is_p4_or_xeon_or_later, is_p4_or_xeon_or_later_from, model,
    model_of, CpuVersionInfo,
};

#[test]
fn family_composes_extended_and_base_fields() {
    let info = CpuVersionInfo {
        base_family: 0xf,
        extended_family: 0x1,
        base_model: 0x2,
        extended_model: 0x3,
        stepping: 0x4,
    };
    assert_eq!(family_of(&info), 0x1f);
    assert_eq!(model_of(&info), 0x32);
}

#[test]
fn generation_test_checks_family_and_model() {
    let old = CpuVersionInfo {
        base_family: 0x6,
        extended_family: 0x0,
        base_model: 0x7,
        extended_model: 0x0,
        stepping: 0x0,
    };
    assert!(!is_p4_or_xeon_or_later_from(&old));

    let new_family = CpuVersionInfo { base_family: 0xf, ..old };
    assert!(is_p4_or_xeon_or_later_from(&new_family));

    let new_model = CpuVersionInfo { extended_model: 0x1, ..old };
    assert!(is_p4_or_xeon_or_later_from(&new_model));
}

#[test]
fn running_processor_answers_the_probe() {
    // the probe reaches the real processor; it reports a generation
    assert!(family().is_ok());
    assert!(model().is_ok());
    assert!(is_p4_or_xeon_or_later().is_ok());
}

#[test]
fn probe_is_not_the_identity_on_its_raw_fields() {
    // the decoded family composes two raw fields, so it can only agree
    // with the probe when recomputed from the same probe's fields
    let diagnostics = init();
    let info = diagnostics.info.expect("version leaf");
    assert_eq!(diagnostics.family, Ok(family_of(&info)));
    assert_eq!(diagnostics.model, Ok(model_of(&info)));
    assert!(info.base_family < 16);
    assert!(info.base_model < 16);
}
