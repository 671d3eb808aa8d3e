use ideapad::profile::{
    Battery, Bit, BitInner, Error, Profile, SharedBatteryConfiguration,
    SharedBatteryConfigurationParameters, SystemPerformance, SystemPerformanceBits,
    SystemPerformanceCommands, SystemPerformanceParameters,
};

fn custom(name: &str, products: &[&str]) -> Profile {
    Profile::new(
        name,
        products.iter().map(|p| p.to_string()).collect(),
        SystemPerformance::new(
            SystemPerformanceCommands::new("\\S", "\\F", "\\P"),
            SystemPerformanceBits::shared(),
            SystemPerformanceParameters::new(1, 2, 3),
        ),
        Battery::new(
            "\\B",
            SharedBatteryConfiguration::new("\\C", SharedBatteryConfigurationParameters::new(1, 2)),
            SharedBatteryConfiguration::new("\\R", SharedBatteryConfigurationParameters::new(3, 4)),
        ),
    )
}

#[test]
fn finds_built_in_profiles() {
    assert_eq!(Profile::find(Some("81YK".to_string())).unwrap().name, "IDEAPAD_15IIL05");
    assert_eq!(Profile::find(Some("81YQ".to_string())).unwrap().name, "IDEAPAD_AMD");
    assert_eq!(Profile::find(Some("81YM".to_string())).unwrap().name, "IDEAPAD_AMD");
}

#[test]
fn reports_missing_profiles_and_information() {
    assert!(matches!(Profile::find(Some("20XY".to_string())), Err(Error::NoValidProfileInSearchPath)));
    assert!(matches!(Profile::find(None), Err(Error::UnableToFindSystemInformation)));
    assert!(matches!(
        Profile::find_with_search_path(Vec::new(), Some("81YK".to_string())),
        Err(Error::NoValidProfileInSearchPath)
    ));
}

#[test]
fn first_match_wins() {
    let path = vec![custom("A", &["1"]), custom("B", &["2", "3"]), custom("C", &["3"])];
    assert_eq!(Profile::find_with_search_path(path.clone(), Some("3".to_string())).unwrap().name, "B");
    assert_eq!(Profile::find_with_search_path(path.clone(), Some("1".to_string())).unwrap().name, "A");
    assert!(Profile::find_with_search_path(path, Some("".to_string())).is_err());
}

#[test]
fn built_in_profiles_hold_their_paths() {
    let p = Profile::ideapad_15iil05();
    assert_eq!(p.expected_product_names, vec!["81YK".to_string()]);
    assert_eq!(p.battery.set_command, "\\_SB.PCI0.LPCB.EC0.VPC0.SBMC");
    assert_eq!(p.battery.conservation.parameters, SharedBatteryConfigurationParameters::conservation_shared());
    assert_eq!(p.battery.rapid_charge.parameters.enable, 7);
    let amd = Profile::ideapad_amd();
    assert_eq!(amd.system_performance.commands.get_spmo_bit, "\\_SB.PCI0.LPC0.EC0.SPMO");
    assert_eq!(amd.system_performance.parameters.battery_saving, 0x0013B001);
    assert_eq!(Profile::search_path(), vec![p, amd]);
}

#[test]
fn constructors_agree() {
    let params = SharedBatteryConfigurationParameters::new(1, 2);
    assert_eq!(
        SharedBatteryConfiguration::from_static("\\C", params),
        SharedBatteryConfiguration::dynamic("\\C".to_string(), params)
    );
    let c = SharedBatteryConfiguration::new("\\C", params);
    let r = SharedBatteryConfiguration::new("\\R", params);
    assert_eq!(
        Battery::from_static("\\B", c.clone(), r.clone()),
        Battery::dynamic("\\B".to_string(), c.clone(), r.clone())
    );
    assert_eq!(
        SystemPerformanceCommands::from_static("\\S", "\\F", "\\P"),
        SystemPerformanceCommands::dynamic("\\S".to_string(), "\\F".to_string(), "\\P".to_string())
    );
    let sp = SystemPerformance::new(
        SystemPerformanceCommands::new("\\S", "\\F", "\\P"),
        SystemPerformanceBits::shared(),
        SystemPerformanceParameters::new(1, 2, 3),
    );
    let battery = Battery::new("\\B", c, r);
    assert_eq!(
        Profile::from_static("X", &["1", "2"], sp.clone(), battery.clone()),
        Profile::dynamic("X".to_string(), vec!["1".to_string(), "2".to_string()], sp, battery)
    );
}

#[test]
fn bits_are_kept_canonical() {
    assert_eq!(Bit::different(3, 3).inner(), BitInner::Same(3));
    assert_eq!(Bit::different(3, 4).inner(), BitInner::Different { spmo: 3, fcmo: 4 });
    assert_eq!(Bit::from_inner(BitInner::Different { spmo: 5, fcmo: 5 }), Bit::same(5));
    assert_eq!(Bit::different(3, 4).spmo(), 3);
    assert_eq!(Bit::different(3, 4).fcmo(), 4);
    assert_eq!(Bit::same(9).spmo(), 9);
    assert_eq!(Bit::same(9).fcmo(), 9);
    assert_eq!(Bit::same(9).inner(), BitInner::Same(9));
}
