use storage_hub::cli::{ProviderConfigurations, ProviderType, Sealing};

#[test]
fn provider_options_takes_both_settings() {
    let settings = ProviderConfigurations {
        provider: true,
        provider_type: Some(ProviderType::Msp),
        seed_file: Some(String::from("/tmp/seed")),
    };
    assert!(settings.is_complete());
    let options = settings.provider_options();
    assert_eq!(options.provider_type, ProviderType::Msp);
    assert_eq!(options.seed_file, "/tmp/seed");
    let bsp = ProviderConfigurations {
        provider: true,
        provider_type: Some(ProviderType::Bsp),
        seed_file: Some(String::new()),
    };
    assert_eq!(bsp.provider_options().provider_type, ProviderType::Bsp);
    assert_eq!(bsp.provider_options().seed_file, "");
}

#[test]
fn incomplete_settings_are_told_apart() {
    let none = ProviderConfigurations { provider: false, provider_type: None, seed_file: None };
    assert!(!none.is_complete());
    let no_seed = ProviderConfigurations { provider: true, provider_type: Some(ProviderType::Bsp), seed_file: None };
    assert!(!no_seed.is_complete());
    let no_type = ProviderConfigurations { provider: true, provider_type: None, seed_file: Some(String::from("s")) };
    assert!(!no_type.is_complete());
}

#[test]
fn sealing_from_str_keywords() {
    assert_eq!(Sealing::from_str("instant"), Ok(Sealing::Instant));
    assert_eq!(Sealing::from_str("manual"), Ok(Sealing::Manual));
}

#[test]
fn sealing_from_str_interval() {
    assert_eq!(Sealing::from_str("0"), Ok(Sealing::Interval(0)));
    assert_eq!(Sealing::from_str("6000"), Ok(Sealing::Interval(6000)));
    assert_eq!(Sealing::from_str("+15"), Ok(Sealing::Interval(15)));
    assert_eq!(Sealing::from_str("007"), Ok(Sealing::Interval(7)));
    assert_eq!(Sealing::from_str("18446744073709551615"), Ok(Sealing::Interval(u64::MAX)));
}

#[test]
fn sealing_from_str_refuses_what_is_no_number() {
    let refused = Err(String::from("couldn't decode sealing param"));
    assert_eq!(Sealing::from_str(""), refused);
    assert_eq!(Sealing::from_str("+"), refused);
    assert_eq!(Sealing::from_str("-1"), refused);
    assert_eq!(Sealing::from_str("-0"), refused);
    assert_eq!(Sealing::from_str("++1"), refused);
    assert_eq!(Sealing::from_str("1+"), refused);
    assert_eq!(Sealing::from_str("12a"), refused);
    assert_eq!(Sealing::from_str(" 12"), refused);
    assert_eq!(Sealing::from_str("12 "), refused);
    assert_eq!(Sealing::from_str("1_000"), refused);
    assert_eq!(Sealing::from_str("0x10"), refused);
    assert_eq!(Sealing::from_str("Instant"), refused);
    assert_eq!(Sealing::from_str("instant "), refused);
    assert_eq!(Sealing::from_str("18446744073709551616"), refused);
    assert_eq!(Sealing::from_str("٣"), refused);
}

#[test]
fn sealing_from_parts_cases() {
    assert_eq!(Sealing::from_parts("instant", None), Ok(Sealing::Instant));
    assert_eq!(Sealing::from_parts("instant", Some(3)), Ok(Sealing::Instant));
    assert_eq!(Sealing::from_parts("manual", Some(3)), Ok(Sealing::Manual));
    assert_eq!(Sealing::from_parts("12", Some(12)), Ok(Sealing::Interval(12)));
    assert_eq!(Sealing::from_parts("x", None), Err(String::from("couldn't decode sealing param")));
}

#[test]
fn sealing_parses_from_a_string() {
    assert_eq!("manual".parse::<Sealing>(), Ok(Sealing::Manual));
    assert_eq!("250".parse::<Sealing>(), Ok(Sealing::Interval(250)));
    assert_eq!("soon".parse::<Sealing>(), Err(String::from("couldn't decode sealing param")));
}
