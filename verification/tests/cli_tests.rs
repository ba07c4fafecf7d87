use bulbs::api::{ApiError, Device, Devices};
use bulbs::cli::{Cli, CliError, PowerState};

fn bare_cli() -> Cli {
    Cli {
        addrs: Vec::new(),
        brightness: None,
        color: None,
        discover: false,
        status: false,
        power: None,
    }
}

#[test]
fn no_devices_anywhere_is_an_error() {
    let mut fleet = Devices::new();
    let r = bare_cli().run(&mut fleet, Vec::new());
    assert!(matches!(r, Err(CliError::NoDevices)));
}

#[test]
fn devices_without_an_action_is_an_error() {
    let mut fleet = Devices::new();
    let mut cli = bare_cli();
    cli.addrs = vec!["10.0.0.1".to_string()];
    let r = cli.run(&mut fleet, Vec::new());
    assert!(matches!(r, Err(CliError::NothingToDo)));
    assert_eq!(fleet.len(), 1);
    assert_eq!(fleet.get(0).ip, "10.0.0.1");
    assert!(fleet.get(0).selected);
}

#[test]
fn explicit_addresses_replace_the_passed_fleet() {
    let mut fleet = Devices::new();
    fleet.push_device(Device::new("10.9.9.9".to_string(), "old".to_string()));
    let mut cli = bare_cli();
    cli.addrs = vec!["10.0.0.1".to_string(), "10.0.0.2".to_string()];
    let _ = cli.run(&mut fleet, Vec::new());
    assert_eq!(fleet.len(), 2);
    assert_eq!(fleet.get(0).ip, "10.0.0.1");
    assert_eq!(fleet.get(1).ip, "10.0.0.2");
}

#[test]
fn discovered_addresses_count_as_devices() {
    let mut fleet = Devices::new();
    let mut cli = bare_cli();
    cli.discover = true;
    let r = cli.run(&mut fleet, vec!["10.0.0.7".to_string()]);
    assert!(matches!(r, Err(CliError::NothingToDo)));
    assert_eq!(fleet.len(), 1);
    assert_eq!(fleet.get(0).ip, "10.0.0.7");
}

#[test]
fn probe_results_are_ignored_without_the_flag() {
    let mut fleet = Devices::new();
    let r = bare_cli().run(&mut fleet, vec!["10.0.0.7".to_string()]);
    assert!(matches!(r, Err(CliError::NoDevices)));
    assert_eq!(fleet.len(), 0);
}

#[test]
fn the_first_failing_action_aborts_the_run() {
    let mut fleet = Devices::new();
    let mut cli = bare_cli();
    cli.addrs = vec!["127.0.0.1:9".to_string()];
    cli.brightness = Some("0.5".to_string());
    cli.status = true;
    let r = cli.run(&mut fleet, Vec::new());
    assert!(matches!(r, Err(CliError::Api(ApiError::Transport(_)))));
    // the failed write left the cache alone and the status read never ran
    assert_eq!(fleet.get(0).bulb.brightness, "0");
}

#[test]
fn power_against_an_unreachable_device_fails() {
    let mut fleet = Devices::new();
    let mut cli = bare_cli();
    cli.addrs = vec!["127.0.0.1:9".to_string()];
    cli.power = Some(PowerState::On);
    let r = cli.run(&mut fleet, Vec::new());
    assert!(matches!(r, Err(CliError::Api(_))));
    assert_eq!(fleet.get(0).bulb.enabled, 0);
}

#[test]
fn error_messages_describe_the_failure() {
    assert_eq!(
        CliError::NoDevices.message(),
        "no devices found, provide at least one device address"
    );
    assert_eq!(
        CliError::NothingToDo.message(),
        "nothing to do, provide argument or option that does something"
    );
    assert_eq!(
        CliError::Api(ApiError::Transport("timed out".to_string())).message(),
        "timed out"
    );
}
