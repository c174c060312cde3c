use cargo_embed::arguments::{
    build_arguments, config_name, drop_launcher, remove_arguments, Opt, ARGUMENTS_TO_REMOVE,
};

fn strings(texts: &[&str]) -> Vec<String> {
    texts.iter().map(|t| t.to_string()).collect()
}

fn options(config: Option<&str>) -> Opt {
    Opt {
        config: config.map(|c| c.to_string()),
        list_chips: false,
        disable_progressbars: false,
        bin: None,
        example: None,
        release: false,
        target: None,
    }
}

#[test]
fn launcher_is_dropped() {
    let args = strings(&["cargo", "embed", "--release", "rtt"]);
    assert_eq!(drop_launcher(args), strings(&["embed", "--release", "rtt"]));
}

#[test]
fn direct_call_keeps_its_name() {
    let args = strings(&["cargo-embed", "--release", "embed"]);
    assert_eq!(drop_launcher(args), strings(&["cargo-embed", "--release", "embed"]));
}

#[test]
fn short_argument_lists_are_kept() {
    assert_eq!(drop_launcher(strings(&["embed"])), strings(&["embed"]));
    assert_eq!(drop_launcher(Vec::new()), Vec::<String>::new());
}

#[test]
fn configuration_defaults() {
    assert_eq!(config_name(&options(None)), "default");
    assert_eq!(config_name(&options(Some("rtt"))), "rtt");
}

#[test]
fn own_options_are_removed_wherever_they_stand() {
    let args = strings(&["--list-chips", "a", "--disable-progressbars", "--list-chips", "b"]);
    assert_eq!(remove_arguments(&ARGUMENTS_TO_REMOVE, &args), strings(&["a", "b"]));
}

#[test]
fn only_whole_long_options_are_removed() {
    let args = strings(&["list-chips", "-list-chips", "--list-chips=1", "--list-chip"]);
    assert_eq!(remove_arguments(&ARGUMENTS_TO_REMOVE, &args), args);
    assert_eq!(remove_arguments(&[], &args), args);
    assert_eq!(remove_arguments(&["list-chip"], &args), strings(&["list-chips", "-list-chips", "--list-chips=1"]));
}

#[test]
fn build_gets_the_rest() {
    let args = strings(&["embed", "--release", "--disable-progressbars", "rtt", "--bin", "rtt"]);
    assert_eq!(build_arguments(&args, "rtt"), strings(&["--release", "--bin", "rtt"]));
}

#[test]
fn default_configuration_takes_its_namesake() {
    let args = strings(&["embed", "--bin", "default", "--features", "default"]);
    assert_eq!(
        build_arguments(&args, "default"),
        strings(&["--bin", "--features", "default"])
    );
}

#[test]
fn build_arguments_without_the_configuration() {
    let args = strings(&["embed"]);
    assert_eq!(build_arguments(&args, "default"), Vec::<String>::new());
    let args = strings(&["rtt", "--release"]);
    assert_eq!(build_arguments(&args, "rtt"), strings(&["--release"]));
}

#[test]
fn both_ways_of_calling_build_the_same() {
    let by_cargo = drop_launcher(strings(&["cargo", "embed", "--bin", "blinky", "--release"]));
    let direct = drop_launcher(strings(&["cargo-embed", "--bin", "blinky", "--release"]));
    assert_eq!(by_cargo[1..], direct[1..]);
    assert_eq!(build_arguments(&by_cargo, "default"), build_arguments(&direct, "default"));
}
