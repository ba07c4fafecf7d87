use bulbs::api::{Device, Devices};
use bulbs::app::{App, CurrentWidget, CurrentlyAdding, CurrentlySetting, Key, StepOutcome};

fn fresh_app() -> App {
    App::new(Devices::new())
}

fn app_with_device(ip: &str, selected: bool) -> App {
    let mut fleet = Devices::new();
    let mut d = Device::new(ip.to_string(), String::new());
    d.selected = selected;
    fleet.push_device(d);
    App::new(fleet)
}

#[test]
fn new_session_starts_on_the_device_list() {
    let app = fresh_app();
    assert!(matches!(app.current_widget, CurrentWidget::Devices));
    assert_eq!(app.current_device_index, 0);
    assert!(app.logs.is_empty());
    assert!(app.ip_input.is_empty());
}

#[test]
fn tab_switches_between_list_and_logs() {
    let mut app = fresh_app();
    assert_eq!(app.step(Key::Tab), StepOutcome::Continue);
    assert!(matches!(app.current_widget, CurrentWidget::Logs));
    assert_eq!(app.step(Key::Tab), StepOutcome::Continue);
    assert!(matches!(app.current_widget, CurrentWidget::Devices));
}

#[test]
fn quit_comes_from_list_and_log_views() {
    let mut app = fresh_app();
    assert_eq!(app.step(Key::Char('q')), StepOutcome::Quit);
    assert_eq!(app.step(Key::Esc), StepOutcome::Quit);
    app.step(Key::Tab);
    assert_eq!(app.step(Key::Char('q')), StepOutcome::Quit);
}

#[test]
fn discovery_is_asked_for_from_the_list() {
    let mut app = fresh_app();
    assert_eq!(app.step(Key::Char('A')), StepOutcome::Discover);
    assert!(matches!(app.current_widget, CurrentWidget::Devices));
}

#[test]
fn navigation_clamps_to_the_list() {
    let mut fleet = Devices::new();
    fleet.push_device(Device::new("10.0.0.1".to_string(), String::new()));
    fleet.push_device(Device::new("10.0.0.2".to_string(), String::new()));
    fleet.push_device(Device::new("10.0.0.3".to_string(), String::new()));
    let mut app = App::new(fleet);
    app.step(Key::Up);
    assert_eq!(app.current_device_index, 0);
    app.step(Key::Down);
    app.step(Key::Char('j'));
    assert_eq!(app.current_device_index, 2);
    app.step(Key::Down);
    assert_eq!(app.current_device_index, 2);
    app.step(Key::Char('k'));
    assert_eq!(app.current_device_index, 1);
}

#[test]
fn space_toggles_the_selection_flag() {
    let mut app = app_with_device("10.0.0.1", true);
    app.step(Key::Char(' '));
    assert!(!app.devices.get(0).selected);
    app.step(Key::Char(' '));
    assert!(app.devices.get(0).selected);
}

#[test]
fn removing_the_last_device_clamps_the_index() {
    let mut fleet = Devices::new();
    fleet.push_device(Device::new("10.0.0.1".to_string(), String::new()));
    fleet.push_device(Device::new("10.0.0.2".to_string(), String::new()));
    fleet.push_device(Device::new("10.0.0.3".to_string(), String::new()));
    let mut app = App::new(fleet);
    app.step(Key::Down);
    app.step(Key::Down);
    assert_eq!(app.current_device_index, 2);
    app.remove_device();
    assert_eq!(app.devices.len(), 2);
    assert_eq!(app.current_device_index, 1);
    app.remove_device();
    assert_eq!(app.devices.len(), 1);
    assert_eq!(app.current_device_index, 0);
    app.remove_device();
    assert_eq!(app.devices.len(), 0);
    assert_eq!(app.current_device_index, 0);
    app.remove_device();
    assert_eq!(app.devices.len(), 0);
}

#[test]
fn add_form_collects_typed_input() {
    let mut app = fresh_app();
    app.step(Key::Char('a'));
    assert!(matches!(app.current_widget, CurrentWidget::AddDevice));
    assert!(matches!(app.currently_adding, Some(CurrentlyAdding::IP)));
    app.step(Key::Char('1'));
    app.step(Key::Char('0'));
    app.step(Key::Char('x'));
    app.step(Key::Backspace);
    assert_eq!(app.ip_input, "10");
    app.step(Key::Tab);
    assert!(matches!(app.currently_adding, Some(CurrentlyAdding::Name)));
    app.step(Key::Char('h'));
    assert_eq!(app.name_input, "h");
    assert_eq!(app.ip_input, "10");
}

#[test]
fn cancelling_the_add_form_discards_the_buffers() {
    let mut app = fresh_app();
    app.step(Key::Char('a'));
    app.step(Key::Char('9'));
    assert_eq!(app.ip_input, "9");
    app.step(Key::Esc);
    assert!(matches!(app.current_widget, CurrentWidget::Devices));
    assert!(app.currently_adding.is_none());
    assert!(app.ip_input.is_empty());
    assert!(app.name_input.is_empty());
}

#[test]
fn confirming_an_empty_address_only_logs() {
    let mut app = fresh_app();
    app.step(Key::Char('a'));
    app.step(Key::Enter);
    assert!(matches!(app.current_widget, CurrentWidget::AddDevice));
    assert_eq!(app.logs.last().unwrap(), "failed to add device: empty IP");
    assert_eq!(app.devices.len(), 0);
}

#[test]
fn confirming_a_known_address_only_logs() {
    let mut app = app_with_device("10.0.0.9", true);
    app.step(Key::Char('a'));
    for c in "10.0.0.9".chars() {
        app.step(Key::Char(c));
    }
    app.step(Key::Enter);
    assert_eq!(app.logs.last().unwrap(), "Device \"10.0.0.9\" already added");
    assert_eq!(app.devices.len(), 1);
    assert!(matches!(app.current_widget, CurrentWidget::AddDevice));
}

#[test]
fn confirming_an_unreachable_address_logs_and_keeps_the_form() {
    let mut app = fresh_app();
    app.step(Key::Char('a'));
    for c in "127.0.0.1:9".chars() {
        app.step(Key::Char(c));
    }
    app.step(Key::Enter);
    assert_eq!(app.devices.len(), 0);
    assert_eq!(app.logs.len(), 1);
    assert!(matches!(app.current_widget, CurrentWidget::AddDevice));
    assert_eq!(app.ip_input, "127.0.0.1:9");
}

#[test]
fn settings_open_only_with_a_selection_and_seed_the_inputs() {
    let mut app = app_with_device("10.0.0.1", false);
    app.step(Key::Char('c'));
    assert!(matches!(app.current_widget, CurrentWidget::Devices));

    let mut app = app_with_device("10.0.0.1", true);
    app.step(Key::Char('c'));
    assert!(matches!(app.current_widget, CurrentWidget::DeviceSettings));
    assert!(matches!(app.currently_setting, Some(CurrentlySetting::Color)));
    assert_eq!(app.color_input, "");
    assert_eq!(app.brightness_input, "0");
}

#[test]
fn settings_color_input_is_capped_at_seven() {
    let mut app = app_with_device("10.0.0.1", true);
    app.step(Key::Char('c'));
    for c in "#1122334455".chars() {
        app.step(Key::Char(c));
    }
    assert_eq!(app.color_input, "#112233");
    app.step(Key::Backspace);
    assert_eq!(app.color_input, "#11223");
    for _ in 0..10 {
        app.step(Key::Backspace);
    }
    assert_eq!(app.color_input, "#");
}

#[test]
fn settings_field_switch_reaches_brightness() {
    let mut app = app_with_device("10.0.0.1", true);
    app.step(Key::Char('c'));
    app.step(Key::Tab);
    assert!(matches!(app.currently_setting, Some(CurrentlySetting::Brightness)));
    app.step(Key::Char('5'));
    assert_eq!(app.brightness_input, "05");
    app.step(Key::Backspace);
    app.step(Key::Backspace);
    assert_eq!(app.brightness_input, "");
}

#[test]
fn wrong_color_length_aborts_the_settings_confirm() {
    let mut app = app_with_device("10.0.0.1", true);
    app.step(Key::Char('c'));
    assert_eq!(app.step(Key::Enter), StepOutcome::ConfirmSettings);
    app.set_color_and_brightness(Some(false));
    assert_eq!(app.logs.last().unwrap(), "failed to set color: wrong input length");
    assert!(matches!(app.current_widget, CurrentWidget::DeviceSettings));
}

#[test]
fn unparsable_brightness_aborts_and_keeps_the_form() {
    // the only device is unselected, so the color write touches nothing
    // and the brightness half is reached without any network traffic
    let mut app = app_with_device("10.0.0.1", false);
    app.current_widget = CurrentWidget::DeviceSettings;
    app.currently_setting = Some(CurrentlySetting::Color);
    app.color_input = "#112233".to_string();
    app.brightness_input = "dim".to_string();
    app.set_color_and_brightness(None);
    assert_eq!(app.logs.last().unwrap(), "failed to set brightness: invalid number");
    assert!(matches!(app.current_widget, CurrentWidget::DeviceSettings));
}

#[test]
fn brightness_within_epsilon_closes_without_sending() {
    let mut app = app_with_device("10.0.0.1", false);
    app.current_widget = CurrentWidget::DeviceSettings;
    app.currently_setting = Some(CurrentlySetting::Color);
    app.color_input = "#112233".to_string();
    app.brightness_input = "0.5000001".to_string();
    app.set_color_and_brightness(Some(false));
    assert!(app.logs.is_empty());
    assert!(matches!(app.current_widget, CurrentWidget::Devices));
    assert!(app.currently_setting.is_none());
    assert_eq!(app.devices.get(0).bulb.brightness, "0");
}

#[test]
fn differing_brightness_goes_out_to_the_selection() {
    let mut app = app_with_device("10.0.0.1", false);
    app.current_widget = CurrentWidget::DeviceSettings;
    app.currently_setting = Some(CurrentlySetting::Color);
    app.color_input = "#112233".to_string();
    app.brightness_input = "0.8".to_string();
    app.set_color_and_brightness(Some(true));
    // no device is selected, so the batch had nothing to send and closed
    assert!(app.logs.is_empty());
    assert!(matches!(app.current_widget, CurrentWidget::Devices));
}

#[test]
fn settings_cancel_keeps_the_inputs() {
    let mut app = app_with_device("10.0.0.1", true);
    app.step(Key::Char('c'));
    app.step(Key::Char('#'));
    app.step(Key::Char('q'));
    assert!(matches!(app.current_widget, CurrentWidget::Devices));
    assert!(app.currently_setting.is_none());
    assert_eq!(app.color_input, "#");
}

#[test]
fn log_view_clears_and_scrolls() {
    let mut app = fresh_app();
    app.discover(Err("boom".to_string()));
    assert_eq!(app.logs.len(), 1);
    app.step(Key::Tab);
    app.step(Key::Right);
    assert_eq!(app.log_horizontal_offset, 4);
    app.step(Key::Char('l'));
    assert_eq!(app.log_horizontal_offset, 8);
    app.step(Key::Char('h'));
    assert_eq!(app.log_horizontal_offset, 4);
    app.step(Key::Left);
    app.step(Key::Left);
    assert_eq!(app.log_horizontal_offset, 0);
    app.step(Key::Backspace);
    assert!(app.logs.is_empty());
}

#[test]
fn refresh_with_no_devices_does_nothing() {
    let mut app = fresh_app();
    app.step(Key::Char('r'));
    assert!(app.logs.is_empty());
}

#[test]
fn refresh_with_nothing_selected_does_nothing() {
    let mut app = app_with_device("127.0.0.1:9", false);
    app.step(Key::Char('r'));
    assert!(app.logs.is_empty());
}

#[test]
fn refresh_failure_is_absorbed_into_the_log() {
    let mut app = app_with_device("127.0.0.1:9", true);
    app.step(Key::Char('r'));
    assert_eq!(app.logs.len(), 1);
    assert!(matches!(app.current_widget, CurrentWidget::Devices));
}

#[test]
fn toggle_failure_is_absorbed_into_the_log() {
    let mut app = app_with_device("127.0.0.1:9", true);
    app.step(Key::Char('e'));
    assert_eq!(app.logs.len(), 1);
    app.step(Key::Enter);
    assert_eq!(app.logs.len(), 2);
    assert_eq!(app.devices.get(0).bulb.enabled, 0);
}

#[test]
fn discover_logs_an_empty_probe() {
    let mut app = fresh_app();
    app.discover(Ok(Vec::new()));
    assert_eq!(app.logs.last().unwrap(), "No devices detected");
    assert_eq!(app.devices.len(), 0);
}

#[test]
fn discover_logs_a_failed_probe() {
    let mut app = fresh_app();
    app.discover(Err("network is down".to_string()));
    assert_eq!(app.logs.last().unwrap(), "network is down");
}

#[test]
fn discover_skips_known_addresses_silently() {
    let mut app = app_with_device("10.0.0.9", true);
    app.discover(Ok(vec!["10.0.0.9".to_string()]));
    assert!(app.logs.is_empty());
    assert_eq!(app.devices.len(), 1);
}

#[test]
fn discover_logs_each_unreachable_find_and_moves_on() {
    let mut app = fresh_app();
    app.discover(Ok(vec!["127.0.0.1:9".to_string(), "127.0.0.1:9".to_string()]));
    // the first add fails on the status read and the address stays out, so
    // the second is attempted as well: best-effort, one log line each
    assert_eq!(app.logs.len(), 2);
    assert_eq!(app.devices.len(), 0);
}
