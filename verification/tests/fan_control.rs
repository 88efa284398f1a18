use govee_hass::device::{DeviceCapability, HassIdentity, HttpDeviceInfo, ServiceDevice};
use govee_hass::fan_control::{
    advance, mqtt_fan_command, mqtt_fan_set_direction, mqtt_fan_set_percentage, set_toggle,
    FanAction, FanEvent, FanState, FanToggle,
};
use govee_hass::fan::Fan;
use govee_hass::json::JsonText;

fn undescribed() -> ServiceDevice {
    let hass = HassIdentity {
        topic_safe_id: "AABBCCDD".to_string(),
        availability_topic: "gv2mqtt/availability".to_string(),
        origin: JsonText::new("{}"),
        device: JsonText::new("{}"),
    };
    ServiceDevice::new("H1310", "AA:BB:CC:DD", "Test Fan", hass)
}

fn described(instances: &[&str]) -> ServiceDevice {
    let mut device = undescribed();
    device.set_http_device_info(HttpDeviceInfo {
        sku: "H1310".to_string(),
        device: "AA:BB:CC:DD".to_string(),
        device_name: "Test Fan".to_string(),
        device_type: "devices.types.light".to_string(),
        capabilities: instances
            .iter()
            .map(|instance| DeviceCapability {
                kind: "devices.capabilities.toggle".to_string(),
                instance: instance.to_string(),
                parameters: None,
            })
            .collect(),
    });
    device
}

/// A line for each action of a command, as its actions end in `events`.
fn trace(
    begun: (FanState, FanAction<'_>),
    events: &[FanEvent],
    device: &ServiceDevice,
) -> Vec<String> {
    let (mut state, action) = begun;
    let mut lines = vec![line(&action)];
    for event in events {
        let (next, action) = advance(state, *event, device);
        state = next;
        lines.push(line(&action));
    }
    lines
}

fn line(action: &FanAction<'_>) -> String {
    match action {
        FanAction::ControlDevice { capability, value } => {
            format!("control {} {value}", capability.instance)
        }
        FanAction::FindPlatformClient => "find".to_string(),
        FanAction::SetToggleState { info, toggle, on } => {
            format!("toggle {} {} {on}", info.device, toggle.instance())
        }
        FanAction::Finish => "finish".to_string(),
        FanAction::Fail { error } => error.message(),
        FanAction::Abandon => "abandon".to_string(),
    }
}

const OK: FanEvent = FanEvent::Succeeded;
const BAD: FanEvent = FanEvent::Failed;

#[test]
fn on_and_off_switch_the_fan() {
    let device = described(&[]);
    for (payload, on) in [("ON", true), ("on", true), ("OFF", false), ("off", false)] {
        assert_eq!(
            trace(mqtt_fan_command(payload, "AABBCCDD"), &[OK, OK], &device),
            vec![
                "find".to_string(),
                format!("toggle AA:BB:CC:DD fanToggle {on}"),
                "finish".to_string()
            ]
        );
    }
}

#[test]
fn other_commands_are_refused() {
    let device = described(&[]);
    for payload in ["On", "oFF", "", "ON ", "1"] {
        assert_eq!(
            trace(mqtt_fan_command(payload, "AABBCCDD"), &[OK, OK], &device),
            vec![
                format!("invalid fan command {payload} for AABBCCDD"),
                "finish".to_string(),
                "finish".to_string()
            ]
        );
    }
}

#[test]
fn directions_turn_the_airflow() {
    let device = described(&[]);
    for (payload, on) in [("forward", false), ("reverse", true)] {
        assert_eq!(
            trace(mqtt_fan_set_direction(payload, "AABBCCDD"), &[OK, OK], &device),
            vec![
                "find".to_string(),
                format!("toggle AA:BB:CC:DD reverseAirflowToggle {on}"),
                "finish".to_string()
            ]
        );
    }
}

#[test]
fn other_directions_are_refused() {
    let device = described(&[]);
    for payload in ["FORWARD", "backward", ""] {
        assert_eq!(
            trace(mqtt_fan_set_direction(payload, "AABBCCDD"), &[OK], &device),
            vec![
                format!("invalid fan direction {payload} for AABBCCDD"),
                "finish".to_string()
            ]
        );
    }
}

#[test]
fn speed_zero_stops_the_fan() {
    let device = described(&["fanSpeedMode"]);
    assert_eq!(
        trace(mqtt_fan_set_percentage(0, &device), &[OK, OK, OK], &device),
        vec!["find", "toggle AA:BB:CC:DD fanToggle false", "finish", "finish"]
    );
}

#[test]
fn a_speed_is_set_before_the_fan_starts() {
    let device = described(&["fanToggle", "fanSpeedMode"]);
    for speed in [1, 6, -1, i64::MAX] {
        assert_eq!(
            trace(mqtt_fan_set_percentage(speed, &device), &[OK, OK, OK], &device),
            vec![
                format!("control fanSpeedMode {speed}"),
                "find".to_string(),
                "toggle AA:BB:CC:DD fanToggle true".to_string(),
                "finish".to_string()
            ]
        );
    }
}

#[test]
fn a_speed_that_is_not_set_does_not_start_the_fan() {
    let device = described(&["fanSpeedMode"]);
    assert_eq!(
        trace(mqtt_fan_set_percentage(2, &device), &[BAD, OK, OK], &device),
        vec!["control fanSpeedMode 2", "abandon", "finish", "finish"]
    );
}

#[test]
fn a_speed_needs_a_speed_control() {
    let device = described(&["fanToggle"]);
    assert_eq!(
        trace(mqtt_fan_set_percentage(2, &device), &[OK], &device),
        vec!["Test Fan has no fanSpeedMode", "finish"]
    );
}

#[test]
fn a_toggle_needs_a_client() {
    let device = described(&[]);
    assert_eq!(
        trace(mqtt_fan_command("ON", "AABBCCDD"), &[BAD, OK], &device),
        vec![
            "find",
            "no platform API client available to set fanToggle",
            "finish"
        ]
    );
    assert_eq!(
        trace(mqtt_fan_set_direction("reverse", "AABBCCDD"), &[BAD], &device),
        vec![
            "find",
            "no platform API client available to set reverseAirflowToggle"
        ]
    );
}

#[test]
fn a_toggle_needs_metadata() {
    let device = undescribed();
    assert_eq!(
        trace(mqtt_fan_command("ON", "AABBCCDD"), &[OK, OK], &device),
        vec![
            "find",
            "no platform metadata for Test Fan, cannot set fanToggle",
            "finish"
        ]
    );
}

#[test]
fn a_missing_client_is_reported_before_missing_metadata() {
    let device = undescribed();
    let (state, action) = set_toggle(false, &device, FanToggle::Power, true);
    assert_eq!(state, FanState::Over);
    assert_eq!(line(&action), "no platform API client available to set fanToggle");
}

#[test]
fn a_failed_toggle_ends_the_command() {
    let device = described(&[]);
    assert_eq!(
        trace(mqtt_fan_command("OFF", "AABBCCDD"), &[OK, BAD, OK], &device),
        vec!["find", "toggle AA:BB:CC:DD fanToggle false", "abandon", "finish"]
    );
}

#[test]
fn commands_end_within_three_actions() {
    let device = described(&["fanSpeedMode"]);
    for first in [OK, BAD] {
        for second in [OK, BAD] {
            for third in [OK, BAD] {
                let (state, _) = mqtt_fan_set_percentage(3, &device);
                let (state, _) = advance(state, first, &device);
                let (state, _) = advance(state, second, &device);
                let (state, _) = advance(state, third, &device);
                assert_eq!(state, FanState::Over);
            }
        }
    }
}

/// All ways in which three actions can go.
fn courses() -> Vec<[FanEvent; 3]> {
    let mut courses = Vec::new();
    for first in [OK, BAD] {
        for second in [OK, BAD] {
            for third in [OK, BAD] {
                courses.push([first, second, third]);
            }
        }
    }
    courses
}

#[test]
fn toggle_commands_do_nothing_but_what_is_asked() {
    let device = described(&["fanToggle", "fanSpeedMode"]);
    for events in courses() {
        for (lines, asked) in [
            (
                trace(mqtt_fan_command("on", "AABBCCDD"), &events, &device),
                "toggle AA:BB:CC:DD fanToggle true",
            ),
            (
                trace(mqtt_fan_set_direction("forward", "AABBCCDD"), &events, &device),
                "toggle AA:BB:CC:DD reverseAirflowToggle false",
            ),
            (
                trace(mqtt_fan_set_percentage(0, &device), &events, &device),
                "toggle AA:BB:CC:DD fanToggle false",
            ),
        ] {
            assert_eq!(lines[0], "find");
            if events[0] == OK {
                assert_eq!(lines[1], asked);
                assert_eq!(lines[2], if events[1] == OK { "finish" } else { "abandon" });
            } else {
                assert!(lines[1].starts_with("no platform API client"));
                assert_eq!(lines[2], "finish");
            }
            assert_eq!(lines[3], "finish");
        }
    }
}

#[test]
fn an_announced_fan_can_be_commanded() {
    let device = described(&["fanToggle", "fanSpeedMode"]);
    assert!(Fan::for_device(&device).is_some());
    assert!(device.http_device_info.is_some());
    for events in courses() {
        for speed in [0, 1, 7] {
            let lines = trace(mqtt_fan_set_percentage(speed, &device), &events, &device);
            assert!(!lines.iter().any(|line| line.contains("no platform metadata")));
            assert_eq!(lines[0].starts_with("control fanSpeedMode"), speed != 0);
        }
    }
}
