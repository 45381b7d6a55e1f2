use votor_measurement_harness::profile::Profile;

#[test]
fn profiles_parse_by_name() {
    assert_eq!(Profile::parse("baseline").unwrap(), Profile::Baseline);
    assert_eq!(Profile::parse("cpu_saturation").unwrap(), Profile::CpuSaturation);
    assert_eq!(Profile::parse("io_stall").unwrap(), Profile::IoStall);
    assert_eq!(Profile::parse("allocator_pressure").unwrap(), Profile::AllocatorPressure);
}

#[test]
fn unknown_profile_is_refused() {
    let error = Profile::parse("turbo").unwrap_err();
    assert_eq!(error.name, "turbo");
    assert!(Profile::parse("Baseline").is_err());
    assert!(Profile::parse("").is_err());
}

#[test]
fn profile_names_round_trip() {
    for profile in [
        Profile::Baseline,
        Profile::CpuSaturation,
        Profile::IoStall,
        Profile::AllocatorPressure,
    ] {
        assert_eq!(Profile::parse(profile.as_str()).unwrap(), profile);
    }
    assert_eq!(Profile::AllocatorPressure.as_str(), "allocator_pressure");
}

#[test]
fn profile_sizes() {
    assert_eq!(Profile::Baseline.default_iterations(), 200);
    assert_eq!(Profile::CpuSaturation.default_iterations(), 200);
    assert_eq!(Profile::IoStall.default_iterations(), 120);
    assert_eq!(Profile::AllocatorPressure.default_iterations(), 160);
    assert_eq!(Profile::Baseline.batch_size(), 128);
    assert_eq!(Profile::CpuSaturation.batch_size(), 128);
    assert_eq!(Profile::IoStall.batch_size(), 96);
    assert_eq!(Profile::AllocatorPressure.batch_size(), 192);
}
