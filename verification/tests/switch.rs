use govee_hass::device::{
    CommandedToggle, DeviceCapability, DeviceState, HassIdentity, ServiceDevice, StateCapability,
};
use govee_hass::json::JsonText;
use govee_hass::switch::{
    classify, derive_switch_state, CapabilitySwitch, ReportedValue, SwitchConfig,
};

fn device() -> ServiceDevice {
    let hass = HassIdentity {
        topic_safe_id: "AABBCCDD".to_string(),
        availability_topic: "gv2mqtt/availability".to_string(),
        origin: JsonText::new("{\"name\":\"gv2mqtt\"}"),
        device: JsonText::new("{\"name\":\"Lamp\"}"),
    };
    ServiceDevice::new("H7060", "AA:BB:CC:DD", "Lamp", hass)
}

fn toggle(instance: &str) -> DeviceCapability {
    DeviceCapability {
        kind: "devices.capabilities.toggle".to_string(),
        instance: instance.to_string(),
        parameters: None,
    }
}

fn switch(device: &ServiceDevice, instance: &str) -> CapabilitySwitch {
    CapabilitySwitch::new(
        device,
        &toggle(instance),
        "Shown Name".to_string(),
        format!("gv2mqtt/switch/AABBCCDD/{instance}/state"),
    )
}

fn reported(instance: &str, state: &str) -> StateCapability {
    StateCapability {
        instance: instance.to_string(),
        state: JsonText::new(state),
    }
}

fn known(on: bool, light_on: Option<bool>) -> Option<DeviceState> {
    Some(DeviceState { on, light_on })
}

fn published(device: &ServiceDevice, instance: &str) -> Option<String> {
    let report = switch(device, instance).notify_state(device).report?;
    assert_eq!(report.topic, format!("gv2mqtt/switch/AABBCCDD/{instance}/state"));
    Some(report.payload)
}

fn disregarded(device: &ServiceDevice, instance: &str) -> Option<ReportedValue> {
    switch(device, instance).notify_state(device).disregarded
}

#[test]
fn a_switch_is_announced_in_full() {
    let config = SwitchConfig::for_device(
        &device(),
        &toggle("zoneToggle"),
        "Zone Toggle".to_string(),
        "state/topic".to_string(),
    );
    assert_eq!(config.base.availability_topic, "gv2mqtt/availability");
    assert_eq!(config.base.name.as_deref(), Some("Zone Toggle"));
    assert_eq!(config.base.device_class, None);
    assert_eq!(config.base.origin.text, "{\"name\":\"gv2mqtt\"}");
    assert_eq!(config.base.device.text, "{\"name\":\"Lamp\"}");
    assert_eq!(config.base.unique_id, "gv2mqtt-AABBCCDD-zoneToggle");
    assert_eq!(config.base.entity_category, None);
    assert_eq!(config.base.icon, None);
    assert_eq!(config.command_topic, "gv2mqtt/switch/AABBCCDD/command/zoneToggle");
    assert_eq!(config.state_topic, "state/topic");
    assert!(config.optimistic);
}

#[test]
fn only_the_power_switch_is_not_optimistic() {
    assert!(!switch(&device(), "powerSwitch").switch.optimistic);
    assert!(switch(&device(), "PowerSwitch").switch.optimistic);
    assert!(switch(&device(), "").switch.optimistic);
}

#[test]
fn a_switch_remembers_its_device_and_control() {
    let switch = switch(&device(), "zoneToggle");
    assert_eq!(switch.device_id, "AA:BB:CC:DD");
    assert_eq!(switch.instance_name, "zoneToggle");
}

#[test]
fn switches_of_a_device_are_told_apart() {
    let a = switch(&device(), "zoneA").switch;
    let b = switch(&device(), "zoneB").switch;
    assert_ne!(a.base.unique_id, b.base.unique_id);
    assert_ne!(a.command_topic, b.command_topic);
}

#[test]
fn nothing_is_published_where_nothing_is_known() {
    assert_eq!(published(&device(), "powerSwitch"), None);
    assert_eq!(published(&device(), "zone"), None);
    assert_eq!(disregarded(&device(), "zone"), None);
}

#[test]
fn the_power_switch_shows_the_device_state() {
    let mut device = device();
    device.state_capabilities = vec![reported("powerSwitch", "{\"value\": 0}")];
    device.commanded_toggles = vec![CommandedToggle {
        instance: "powerSwitch".to_string(),
        on: false,
    }];
    assert_eq!(published(&device, "powerSwitch"), None);
    device.device_state = known(true, Some(false));
    assert_eq!(published(&device, "powerSwitch").as_deref(), Some("ON"));
    device.device_state = known(false, Some(true));
    assert_eq!(published(&device, "powerSwitch").as_deref(), Some("OFF"));
    assert_eq!(disregarded(&device, "powerSwitch"), None);
}

#[test]
fn a_reported_integer_decides() {
    let mut device = device();
    for (state, payload) in [
        ("{\"value\": 1}", "ON"),
        ("{\"value\": 0}", "OFF"),
        ("{\"value\": -7}", "ON"),
    ] {
        device.state_capabilities = vec![reported("zone", state), reported("zone", "{\"value\": 3}")];
        device.device_state = None;
        assert_eq!(published(&device, "zone").as_deref(), Some(payload));
        device.device_state = known(payload == "OFF", None);
        assert_eq!(published(&device, "zone").as_deref(), Some(payload));
        assert_eq!(disregarded(&device, "zone"), None);
    }
}

#[test]
fn reports_on_other_controls_are_not_read() {
    let mut device = device();
    device.state_capabilities = vec![reported("other", "{\"value\": 0}")];
    device.device_state = known(true, None);
    assert_eq!(published(&device, "zone").as_deref(), Some("ON"));
}

#[test]
fn reported_values() {
    for (state, value) in [
        ("{\"value\": 12}", ReportedValue::Integer(12)),
        ("{\"value\":-9223372036854775808}", ReportedValue::Integer(i64::MIN)),
        ("{\"value\":9223372036854775807}", ReportedValue::Integer(i64::MAX)),
        ("{\"value\":9223372036854775808}", ReportedValue::Unknown),
        ("{\"value\":\"\"}", ReportedValue::Empty),
        ("{\"other\": 1, \"value\": -3}", ReportedValue::Integer(-3)),
        ("{\"value\": \"\"}", ReportedValue::Empty),
        ("{\"value\": \"on\"}", ReportedValue::Unknown),
        ("{\"value\": 1.5}", ReportedValue::Unknown),
        ("{\"value\": null}", ReportedValue::Unknown),
        ("{\"value\":true}", ReportedValue::Unknown),
        ("{\"value\":false}", ReportedValue::Unknown),
        ("{\"value\":\"9\"}", ReportedValue::Unknown),
        ("{\"value\":\"a/b ~{}\"}", ReportedValue::Unknown),
        ("true", ReportedValue::Unknown),
        ("-5", ReportedValue::Unknown),
        ("[0]", ReportedValue::Unknown),
        ("{\"value\": {\"value\": 1}}", ReportedValue::Unknown),
        ("{\"value\": \"12\"}", ReportedValue::Unknown),
        ("{}", ReportedValue::Unknown),
        ("[1, 2]", ReportedValue::Unknown),
        ("\"\"", ReportedValue::Unknown),
        ("5", ReportedValue::Unknown),
        ("not json", ReportedValue::Unknown),
    ] {
        assert_eq!(reported("zone", state).reported_value(), value, "{state}");
    }
}

#[test]
fn values_are_classified() {
    assert_eq!(classify(Some(4), false), ReportedValue::Integer(4));
    assert_eq!(classify(Some(0), true), ReportedValue::Integer(0));
    assert_eq!(classify(None, true), ReportedValue::Empty);
    assert_eq!(classify(None, false), ReportedValue::Unknown);
}

#[test]
fn useless_reports_are_told() {
    let mut device = device();
    device.state_capabilities = vec![reported("zone", "{\"value\": \"\"}"), reported("odd", "{}")];
    assert_eq!(disregarded(&device, "zone"), Some(ReportedValue::Empty));
    assert_eq!(disregarded(&device, "odd"), Some(ReportedValue::Unknown));
    assert_eq!(published(&device, "zone"), None);
    device.device_state = known(true, None);
    assert_eq!(published(&device, "zone").as_deref(), Some("ON"));
    assert_eq!(disregarded(&device, "zone"), Some(ReportedValue::Empty));
}

#[test]
fn an_unlit_light_has_no_lit_zone() {
    let mut device = device();
    device.commanded_toggles = vec![CommandedToggle {
        instance: "zone".to_string(),
        on: true,
    }];
    device.device_state = known(false, None);
    assert_eq!(published(&device, "zone").as_deref(), Some("OFF"));
    assert_eq!(published(&device, "powerSwitch").as_deref(), Some("OFF"));
    device.device_state = known(true, Some(false));
    assert_eq!(published(&device, "zone").as_deref(), Some("OFF"));
}

#[test]
fn a_zone_is_lit_as_it_was_asked_to_be() {
    let mut device = device();
    device.device_state = known(false, Some(true));
    assert_eq!(device.commanded_toggle("zone"), None);
    assert_eq!(published(&device, "zone").as_deref(), Some("ON"));
    device.commanded_toggles = vec![
        CommandedToggle { instance: "other".to_string(), on: true },
        CommandedToggle { instance: "zone".to_string(), on: false },
    ];
    assert_eq!(device.commanded_toggle("zone"), Some(false));
    assert_eq!(published(&device, "zone").as_deref(), Some("OFF"));
    assert_eq!(published(&device, "other").as_deref(), Some("ON"));
}

#[test]
fn derived_states() {
    let on = known(true, None);
    let off = known(false, None);
    assert_eq!(derive_switch_state("zone", None, on, None), Some(true));
    assert_eq!(derive_switch_state("zone", None, on, Some(false)), Some(false));
    assert_eq!(derive_switch_state("zone", None, off, Some(true)), Some(false));
    assert_eq!(derive_switch_state("zone", None, None, Some(true)), None);
    assert_eq!(
        derive_switch_state("zone", Some(ReportedValue::Integer(2)), off, Some(false)),
        Some(true)
    );
    assert_eq!(
        derive_switch_state("powerSwitch", Some(ReportedValue::Integer(0)), on, Some(false)),
        Some(true)
    );
}

#[test]
fn a_missing_state_is_told_but_for_the_power_switch() {
    let mut device = device();
    assert!(switch(&device, "zone").notify_state(&device).not_found);
    assert!(!switch(&device, "powerSwitch").notify_state(&device).not_found);
    device.device_state = known(true, None);
    assert!(!switch(&device, "zone").notify_state(&device).not_found);
}

#[test]
fn every_zone_goes_off_with_the_light() {
    let mut device = device();
    device.device_state = known(true, Some(false));
    device.commanded_toggles = vec![
        CommandedToggle { instance: "zoneA".to_string(), on: true },
        CommandedToggle { instance: "zoneB".to_string(), on: false },
    ];
    for zone in ["zoneA", "zoneB", "zoneC"] {
        assert_eq!(published(&device, zone).as_deref(), Some("OFF"));
    }
}

#[test]
fn the_first_command_on_record_counts() {
    let mut device = device();
    device.commanded_toggles = vec![
        CommandedToggle { instance: "zone".to_string(), on: false },
        CommandedToggle { instance: "zone".to_string(), on: true },
    ];
    assert_eq!(device.commanded_toggle("zone"), Some(false));
}

#[test]
fn a_report_without_an_integer_leaves_the_state_to_be_derived() {
    let mut device = device();
    device.device_state = known(false, Some(true));
    for state in ["{\"value\":true}", "{\"value\":\"9\"}", "{\"value\":null}", "{}", "7"] {
        device.state_capabilities = vec![reported("zone", state)];
        assert_eq!(published(&device, "zone").as_deref(), Some("ON"));
        assert_eq!(disregarded(&device, "zone"), Some(ReportedValue::Unknown));
    }
}
