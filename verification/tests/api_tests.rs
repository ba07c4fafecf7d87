use bulbs::api::{decode_status, default_brightness, default_color, always_true, ApiError, Device, Devices};

#[test]
fn defaults_are_the_protocol_fallbacks() {
    assert!(always_true());
    assert_eq!(default_color(), "#FFFFFF");
    assert_eq!(default_brightness(), "1");
}

#[test]
fn new_device_is_selected_with_unknown_state() {
    let d = Device::new("10.0.0.5".to_string(), "desk".to_string());
    assert_eq!(d.ip, "10.0.0.5");
    assert_eq!(d.name, "desk");
    assert!(d.selected);
    assert_eq!(d.bulb.brightness, "0");
    assert_eq!(d.bulb.color, "");
    assert_eq!(d.bulb.enabled, 0);
}

#[test]
fn decode_reads_a_full_status() {
    let b = decode_status("{\"brightness\":0.5,\"color\":\"#FF0000\",\"enabled\":1}").unwrap();
    assert_eq!(b.brightness, "0.5");
    assert_eq!(b.color, "#FF0000");
    assert_eq!(b.enabled, 1);
}

#[test]
fn decode_accepts_the_on_alias() {
    let b = decode_status("{\"on\":1,\"color\":\"#001122\",\"brightness\":1}").unwrap();
    assert_eq!(b.enabled, 1);
    assert_eq!(b.brightness, "1");
}

#[test]
fn decode_fills_defaults_for_missing_fields() {
    let b = decode_status("{}").unwrap();
    assert_eq!(b.brightness, "1");
    assert_eq!(b.color, "#FFFFFF");
    assert_eq!(b.enabled, 0);
}

#[test]
fn decode_ignores_unknown_fields() {
    let b = decode_status("{\"color\":\"#010203\",\"extra\":true}").unwrap();
    assert_eq!(b.color, "#010203");
}

#[test]
fn decode_rejects_malformed_payloads() {
    assert!(decode_status("oops").is_none());
    assert!(decode_status("[1,2]").is_none());
    assert!(decode_status("\"text\"").is_none());
    assert!(decode_status("{\"color\":5}").is_none());
    assert!(decode_status("{\"enabled\":\"1\"}").is_none());
    assert!(decode_status("{\"enabled\":300}").is_none());
    assert!(decode_status("{\"enabled\":1.0}").is_none());
    assert!(decode_status("{\"enabled\":-1}").is_none());
    assert!(decode_status("{\"brightness\":\"dim\"}").is_none());
}

#[test]
fn status_error_message_carries_code_and_trimmed_body() {
    let e = ApiError::Status {
        url: "http://10.0.0.5/led".to_string(),
        code: 404,
        body: "not found\n".to_string(),
    };
    assert_eq!(e.message(), "http://10.0.0.5/led: status code: 404: not found");
}

#[test]
fn transport_error_message_is_the_transport_text() {
    let e = ApiError::Transport("connection refused".to_string());
    assert_eq!(e.message(), "connection refused");
}

#[test]
fn duplicate_error_message_names_the_device() {
    let e = ApiError::Duplicate { ip: "10.0.0.9".to_string() };
    assert_eq!(e.message(), "Device \"10.0.0.9\" already added");
}

#[test]
fn fresh_fleet_is_empty() {
    let d = Devices::new();
    assert_eq!(d.len(), 0);
    assert!(!d.has_ip(&"10.0.0.1".to_string()));
}

#[test]
fn add_rejects_a_duplicate_address_without_touching_the_fleet() {
    let mut fleet = Devices::new();
    fleet.push_device(Device::new("10.0.0.9".to_string(), String::new()));
    let r = fleet.add("10.0.0.9".to_string(), "again".to_string());
    assert!(matches!(r, Err(ApiError::Duplicate { .. })));
    assert_eq!(fleet.len(), 1);
}

#[test]
fn add_requires_a_reachable_device() {
    // nothing listens on the discard port of loopback, so the seeding
    // status read fails and the device must not be added
    let mut fleet = Devices::new();
    let r = fleet.add("127.0.0.1:9".to_string(), String::new());
    assert!(matches!(r, Err(ApiError::Transport(_))));
    assert_eq!(fleet.len(), 0);
}

#[test]
fn first_selected_decides_the_toggle_reference() {
    let mut fleet = Devices::new();
    let mut a = Device::new("10.0.0.1".to_string(), String::new());
    a.bulb.enabled = 1;
    let mut b = Device::new("10.0.0.2".to_string(), String::new());
    b.bulb.enabled = 0;
    let mut c = Device::new("10.0.0.3".to_string(), String::new());
    c.selected = false;
    c.bulb.enabled = 0;
    fleet.push_device(a);
    fleet.push_device(b);
    fleet.push_device(c);
    // the reference comes from the first selected device, which reads on
    assert_eq!(fleet.first_selected_enabled(), 1);
}

#[test]
fn unselected_devices_yield_no_toggle_reference() {
    let mut fleet = Devices::new();
    let mut a = Device::new("10.0.0.1".to_string(), String::new());
    a.selected = false;
    a.bulb.enabled = 1;
    fleet.push_device(a);
    assert_eq!(fleet.first_selected_enabled(), 0);
}

#[test]
fn get_status_with_nothing_selected_is_the_no_output_sentinel() {
    let mut fleet = Devices::new();
    let mut a = Device::new("127.0.0.1:9".to_string(), String::new());
    a.selected = false;
    fleet.push_device(a);
    let r = fleet.get_status();
    assert!(matches!(r, Ok(None)));
}

#[test]
fn batch_ops_skip_unselected_devices() {
    // the only device is unselected and unreachable: a batch write must
    // not touch it, so it succeeds without any network traffic
    let mut fleet = Devices::new();
    let mut a = Device::new("127.0.0.1:9".to_string(), String::new());
    a.selected = false;
    fleet.push_device(a);
    assert!(fleet.on().is_ok());
    assert!(fleet.off().is_ok());
    assert!(fleet.set_color("#112233").is_ok());
    assert!(fleet.set_brightness("0.5").is_ok());
    assert_eq!(fleet.get(0).bulb.enabled, 0);
    assert_eq!(fleet.get(0).bulb.color, "");
}

#[test]
fn failed_writes_leave_the_cache_alone() {
    let mut fleet = Devices::new();
    fleet.push_device(Device::new("127.0.0.1:9".to_string(), String::new()));
    assert!(fleet.on().is_err());
    assert_eq!(fleet.get(0).bulb.enabled, 0);
    assert!(fleet.set_color("#112233").is_err());
    assert_eq!(fleet.get(0).bulb.color, "");
    assert!(fleet.set_brightness("0.7").is_err());
    assert_eq!(fleet.get(0).bulb.brightness, "0");
}
