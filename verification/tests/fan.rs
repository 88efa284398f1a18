use govee_hass::device::{
    DeviceCapability, DeviceParameters, EnumOption, HassIdentity, HttpDeviceInfo, ServiceDevice,
};
use govee_hass::fan::{filter_fan_speed_scenes, speed_bounds, speed_range, Fan};
use govee_hass::json::JsonText;
use serde_json::Value;

fn text(value: &Value) -> String {
    value.as_str().unwrap().to_string()
}

fn parameters(value: &Value) -> DeviceParameters {
    if value["dataType"].as_str() == Some("ENUM") {
        let options = value["options"]
            .as_array()
            .unwrap()
            .iter()
            .map(|option| EnumOption {
                name: text(&option["name"]),
                value: JsonText::new(&option["value"].to_string()),
            })
            .collect();
        DeviceParameters::Enum { options }
    } else {
        DeviceParameters::Other {
            description: JsonText::new(&value.to_string()),
        }
    }
}

fn identity() -> HassIdentity {
    HassIdentity {
        topic_safe_id: "AABBCCDD".to_string(),
        availability_topic: "gv2mqtt/availability".to_string(),
        origin: JsonText::new("{\"name\":\"gv2mqtt\"}"),
        device: JsonText::new("{\"name\":\"Test Fan\"}"),
    }
}

fn device_with_capabilities(capabilities: &str) -> ServiceDevice {
    let info: Value = serde_json::from_str(&format!(
        r#"{{
            "sku": "H1310",
            "device": "AA:BB:CC:DD",
            "deviceName": "Test Fan",
            "type": "devices.types.light",
            "capabilities": [{capabilities}]
        }}"#
    ))
    .unwrap();
    let info = HttpDeviceInfo {
        sku: text(&info["sku"]),
        device: text(&info["device"]),
        device_name: text(&info["deviceName"]),
        device_type: text(&info["type"]),
        capabilities: info["capabilities"]
            .as_array()
            .unwrap()
            .iter()
            .map(|capability| DeviceCapability {
                kind: text(&capability["type"]),
                instance: text(&capability["instance"]),
                parameters: capability.get("parameters").map(parameters),
            })
            .collect(),
    };

    let mut device = ServiceDevice::new("H1310", "AA:BB:CC:DD", "Test Fan", identity());
    device.set_http_device_info(info);
    device
}

fn speeds(values: &str) -> ServiceDevice {
    device_with_capabilities(&format!(
        r#"{{
            "type": "devices.capabilities.mode",
            "instance": "fanSpeedMode",
            "parameters": {{"dataType": "ENUM", "options": [{values}]}}
        }}"#
    ))
}

fn names(scenes: &[&str]) -> Vec<String> {
    scenes.iter().map(|scene| scene.to_string()).collect()
}

const FAN_CAPS: &str = r#"
    {
        "type": "devices.capabilities.toggle",
        "instance": "fanToggle",
        "parameters": {
            "dataType": "ENUM",
            "options": [{"name": "on", "value": 1}, {"name": "off", "value": 0}]
        }
    },
    {
        "type": "devices.capabilities.mode",
        "instance": "fanSpeedMode",
        "parameters": {
            "dataType": "ENUM",
            "options": [
                {"name": "Speed 1", "value": 1},
                {"name": "Speed 2", "value": 2},
                {"name": "Speed 3", "value": 3}
            ]
        }
    }
"#;

const LIGHT_ONLY_CAPS: &str = r#"
    {
        "type": "devices.capabilities.color_setting",
        "instance": "colorRgb",
        "parameters": {
            "dataType": "INTEGER",
            "range": {"min": 0, "max": 16777215, "precision": 1}
        }
    }
"#;

const TOGGLE_ONLY: &str = r#"
    {"type": "devices.capabilities.toggle", "instance": "fanToggle"}
"#;

const REVERSIBLE: &str = r#"
    {"type": "devices.capabilities.toggle", "instance": "fanToggle"},
    {"type": "devices.capabilities.toggle", "instance": "reverseAirflowToggle"}
"#;

#[test]
fn speed_range_spans_the_reported_options() {
    assert_eq!(
        speed_range(&device_with_capabilities(FAN_CAPS)),
        Some((1, 3))
    );
}

#[test]
fn a_device_without_a_fan_has_no_speed_range() {
    assert_eq!(
        speed_range(&device_with_capabilities(LIGHT_ONLY_CAPS)),
        None
    );
}

#[test]
fn fan_entity_is_built_only_for_devices_with_a_fan() {
    assert!(Fan::for_device(&device_with_capabilities(FAN_CAPS)).is_some());
    assert!(Fan::for_device(&device_with_capabilities(LIGHT_ONLY_CAPS)).is_none());
}

#[test]
fn fan_speeds_are_dropped_from_the_scene_list() {
    let scenes = vec![
        "Sunrise".to_string(),
        "Speed 1".to_string(),
        "Speed 2".to_string(),
        "Speed 3".to_string(),
        "Sunset".to_string(),
    ];

    assert_eq!(
        filter_fan_speed_scenes(&device_with_capabilities(FAN_CAPS), scenes),
        vec!["Sunrise".to_string(), "Sunset".to_string()]
    );
}

#[test]
fn a_device_without_a_fan_keeps_a_scene_named_like_a_speed() {
    let scenes = vec!["Speed 1".to_string(), "Sunrise".to_string()];

    assert_eq!(
        filter_fan_speed_scenes(&device_with_capabilities(LIGHT_ONLY_CAPS), scenes.clone()),
        scenes
    );
}

#[test]
fn a_device_without_metadata_has_no_fan() {
    let device = ServiceDevice::new("H1310", "AA:BB:CC:DD", "Test Fan", identity());
    assert!(device.get_capability_by_instance("fanToggle").is_none());
    assert!(Fan::for_device(&device).is_none());
    assert_eq!(speed_range(&device), None);
    assert_eq!(
        filter_fan_speed_scenes(&device, names(&["Speed 1"])),
        names(&["Speed 1"])
    );
}

#[test]
fn the_first_capability_of_a_name_counts() {
    let device = device_with_capabilities(
        r#"
        {"type": "first", "instance": "fanToggle"},
        {"type": "second", "instance": "fanToggle"}
    "#,
    );
    let found = device.get_capability_by_instance("fanToggle").unwrap();
    assert_eq!(found.kind, "first");
}

#[test]
fn a_fan_is_announced_in_full() {
    let fan = Fan::for_device(&device_with_capabilities(FAN_CAPS)).unwrap().fan;
    assert_eq!(fan.base.availability_topic, "gv2mqtt/availability");
    assert_eq!(fan.base.name, None);
    assert_eq!(fan.base.device_class, None);
    assert_eq!(fan.base.origin.text, "{\"name\":\"gv2mqtt\"}");
    assert_eq!(fan.base.device.text, "{\"name\":\"Test Fan\"}");
    assert_eq!(fan.base.unique_id, "gv2mqtt-AABBCCDD-fan");
    assert_eq!(fan.base.entity_category, None);
    assert_eq!(fan.base.icon, None);
    assert_eq!(fan.command_topic, "gv2mqtt/fan/AABBCCDD/command");
    assert_eq!(
        fan.percentage_command_topic.as_deref(),
        Some("gv2mqtt/fan/AABBCCDD/set-percentage")
    );
    assert_eq!(fan.speed_range_min, Some(1));
    assert_eq!(fan.speed_range_max, Some(3));
    assert_eq!(fan.direction_command_topic, None);
    assert!(fan.optimistic);
}

#[test]
fn a_fan_without_speeds_has_no_speed_control() {
    let fan = Fan::for_device(&device_with_capabilities(TOGGLE_ONLY)).unwrap().fan;
    assert_eq!(fan.percentage_command_topic, None);
    assert_eq!(fan.speed_range_min, None);
    assert_eq!(fan.speed_range_max, None);
}

#[test]
fn a_reversible_fan_has_a_direction_topic() {
    let fan = Fan::for_device(&device_with_capabilities(REVERSIBLE)).unwrap().fan;
    assert_eq!(
        fan.direction_command_topic.as_deref(),
        Some("gv2mqtt/fan/AABBCCDD/set-direction")
    );
}

#[test]
fn fans_of_different_devices_have_different_topics() {
    let mut other = device_with_capabilities(FAN_CAPS);
    other.hass.topic_safe_id = "11223344".to_string();
    let a = Fan::for_device(&device_with_capabilities(FAN_CAPS)).unwrap().fan;
    let b = Fan::for_device(&other).unwrap().fan;
    assert_ne!(a.command_topic, b.command_topic);
    assert_ne!(a.base.unique_id, b.base.unique_id);
    assert_ne!(a.command_topic, a.percentage_command_topic.unwrap());
}

#[test]
fn a_single_speed_is_no_range() {
    assert_eq!(speed_range(&speeds(r#"{"name": "Speed 4", "value": 4}"#)), None);
    assert_eq!(
        speed_range(&speeds(r#"{"name": "a", "value": 4}, {"name": "b", "value": 4}"#)),
        None
    );
    assert_eq!(speed_range(&speeds("")), None);
}

#[test]
fn speeds_may_come_in_any_order() {
    let up = speeds(r#"{"name": "a", "value": -2}, {"name": "b", "value": 0}, {"name": "c", "value": 7}"#);
    let down = speeds(r#"{"name": "c", "value": 7}, {"name": "b", "value": 0}, {"name": "a", "value": -2}, {"name": "a", "value": -2}"#);
    assert_eq!(speed_range(&up), Some((-2, 7)));
    assert_eq!(speed_range(&down), Some((-2, 7)));
}

#[test]
fn options_that_are_no_integers_are_passed_over() {
    let device = speeds(
        r#"
        {"name": "auto", "value": "auto"},
        {"name": "half", "value": 0.5},
        {"name": "none", "value": null},
        {"name": "text", "value": "9"},
        {"name": "huge", "value": 9223372036854775808},
        {"name": "low", "value": -9223372036854775808},
        {"name": "high", "value": 9223372036854775807}
    "#,
    );
    assert_eq!(speed_range(&device), Some((i64::MIN, i64::MAX)));
}

#[test]
fn speeds_that_are_not_enumerated_are_no_range() {
    let device = device_with_capabilities(
        r#"{
            "type": "devices.capabilities.range",
            "instance": "fanSpeedMode",
            "parameters": {"dataType": "INTEGER", "range": {"min": 1, "max": 6, "precision": 1}}
        }"#,
    );
    assert_eq!(speed_range(&device), None);
    assert_eq!(
        filter_fan_speed_scenes(&device, names(&["Speed 1"])),
        names(&["Speed 1"])
    );
}

#[test]
fn bounds_of_numbers() {
    assert_eq!(speed_bounds(&vec![]), None);
    assert_eq!(speed_bounds(&vec![None, None]), None);
    assert_eq!(speed_bounds(&vec![Some(5), None]), None);
    assert_eq!(speed_bounds(&vec![None, Some(5), Some(-1), Some(3)]), Some((-1, 5)));
}

#[test]
fn scenes_are_matched_in_any_case() {
    let device = device_with_capabilities(FAN_CAPS);
    assert_eq!(
        filter_fan_speed_scenes(&device, names(&["SPEED 1", "Rainbow", "speed 3", "Speed 4", "Speed 11"])),
        names(&["Rainbow", "Speed 4", "Speed 11"])
    );
}

#[test]
fn only_ascii_letters_match_across_case() {
    let device = speeds("{\"name\": \"\u{c9}t\u{e9}\", \"value\": 1}");
    assert_eq!(
        filter_fan_speed_scenes(&device, names(&["\u{e9}t\u{e9}", "\u{c9}T\u{e9}"])),
        names(&["\u{e9}t\u{e9}"])
    );
}

#[test]
fn filtering_scenes_twice_changes_nothing_more() {
    let device = device_with_capabilities(FAN_CAPS);
    let once = filter_fan_speed_scenes(&device, names(&["b", "Speed 2", "a", "b"]));
    assert_eq!(once, names(&["b", "a", "b"]));
    assert_eq!(filter_fan_speed_scenes(&device, once.clone()), once);
}

#[test]
fn more_options_never_narrow_the_range() {
    let few = r#"{"name": "a", "value": 2}, {"name": "b", "value": 4}"#;
    let inside = format!(r#"{few}, {{"name": "c", "value": 3}}"#);
    let wider = format!(r#"{few}, {{"name": "c", "value": 1}}, {{"name": "d", "value": 9}}"#);
    assert_eq!(speed_range(&speeds(few)), Some((2, 4)));
    assert_eq!(speed_range(&speeds(&inside)), Some((2, 4)));
    assert_eq!(speed_range(&speeds(&wider)), Some((1, 9)));
}

#[test]
fn only_the_fan_capabilities_make_the_fan() {
    let plain = device_with_capabilities(FAN_CAPS);
    let mut other = device_with_capabilities(&format!("{LIGHT_ONLY_CAPS}, {FAN_CAPS}"));
    other.sku = "H9999".to_string();
    let info = other.http_device_info.as_mut().unwrap();
    info.sku = "H9999".to_string();
    info.device_type = "devices.types.fan".to_string();
    info.device_name = "Another".to_string();
    let a = Fan::for_device(&plain).unwrap().fan;
    let b = Fan::for_device(&other).unwrap().fan;
    assert_eq!(a.speed_range_min, b.speed_range_min);
    assert_eq!(a.speed_range_max, b.speed_range_max);
    assert_eq!(a.percentage_command_topic, b.percentage_command_topic);
    assert_eq!(a.direction_command_topic, b.direction_command_topic);
    assert_eq!(a.command_topic, b.command_topic);
}
