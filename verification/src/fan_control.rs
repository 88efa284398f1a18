//! What a command for a fan asks of its device, step by step.
//!
//! A command arrives on one of the fan's topics. Once its device has been found,
//! one of the `mqtt_fan_*` functions says what to do first. Whoever carries that
//! out reports how it went to `advance`, which says what to do next, until the
//! command is over.
use crate::device::{DeviceCapability, HttpDeviceInfo, ServiceDevice};
use crate::fan::{FAN_SPEED_MODE, FAN_TOGGLE, REVERSE_AIRFLOW_TOGGLE};
use crate::text::{join3, same_text};
use vstd::prelude::*;
use vstd::string::*;

verus! {

/// An on/off control of a fan.
#[derive(Clone, Copy, Debug, PartialEq, Eq, Structural)]
pub enum FanToggle {
    /// Whether the fan runs.
    Power,
    /// Whether it blows the other way.
    ReverseAirflow,
}

/// The name of the capability behind `toggle`.
pub open spec fn toggle_instance(toggle: FanToggle) -> Seq<char> {
    match toggle {
        FanToggle::Power => FAN_TOGGLE@,
        FanToggle::ReverseAirflow => REVERSE_AIRFLOW_TOGGLE@,
    }
}

impl FanToggle {
    /// The name of the capability behind this toggle.
    pub fn instance(&self) -> (name: &'static str)
        ensures
            name@ == toggle_instance(*self),
            *self is Power ==> name@ == "fanToggle"@,
            *self is ReverseAirflow ==> name@ == "reverseAirflowToggle"@,
    {
        match self {
            FanToggle::Power => FAN_TOGGLE,
            FanToggle::ReverseAirflow => REVERSE_AIRFLOW_TOGGLE,
        }
    }
}

/// Why a command for a fan cannot be carried out.
#[derive(Clone, Debug)]
pub enum FanError {
    /// The payload is no on/off command.
    InvalidCommand { command: String, id: String },
    /// The payload is no direction.
    InvalidDirection { direction: String, id: String },
    /// The device has no speed control.
    NoSpeedMode { device: String },
    /// The bridge has no access to the platform API.
    NoPlatformClient { toggle: FanToggle },
    /// The platform API has not described the device.
    NoPlatformMetadata { device: String, toggle: FanToggle },
}

/// The contents of a `FanError`.
#[verifier::ext_equal]
pub enum FanErrorView {
    InvalidCommand { command: Seq<char>, id: Seq<char> },
    InvalidDirection { direction: Seq<char>, id: Seq<char> },
    NoSpeedMode { device: Seq<char> },
    NoPlatformClient { toggle: FanToggle },
    NoPlatformMetadata { device: Seq<char>, toggle: FanToggle },
}

impl View for FanError {
    type V = FanErrorView;

    open spec fn view(&self) -> FanErrorView {
        match self {
            FanError::InvalidCommand { command, id } => FanErrorView::InvalidCommand {
                command: command@,
                id: id@,
            },
            FanError::InvalidDirection { direction, id } => FanErrorView::InvalidDirection {
                direction: direction@,
                id: id@,
            },
            FanError::NoSpeedMode { device } => FanErrorView::NoSpeedMode { device: device@ },
            FanError::NoPlatformClient { toggle } => FanErrorView::NoPlatformClient {
                toggle: *toggle,
            },
            FanError::NoPlatformMetadata { device, toggle } => FanErrorView::NoPlatformMetadata {
                device: device@,
                toggle: *toggle,
            },
        }
    }
}

/// How `error` is put to the user.
pub open spec fn error_message(error: FanErrorView) -> Seq<char> {
    match error {
        FanErrorView::InvalidCommand { command, id } => "invalid fan command "@ + command
            + " for "@ + id,
        FanErrorView::InvalidDirection { direction, id } => "invalid fan direction "@ + direction
            + " for "@ + id,
        FanErrorView::NoSpeedMode { device } => device + " has no "@ + FAN_SPEED_MODE@,
        FanErrorView::NoPlatformClient { toggle } => "no platform API client available to set "@
            + toggle_instance(toggle),
        FanErrorView::NoPlatformMetadata { device, toggle } => "no platform metadata for "@
            + device + ", cannot set "@ + toggle_instance(toggle),
    }
}

impl FanError {
    /// The message that tells the user what is wrong.
    pub fn message(&self) -> (text: String)
        ensures
            text@ == error_message(self@),
            match self {
                FanError::InvalidCommand { command, id } => text@ == "invalid fan command "@
                    + command@ + " for "@ + id@,
                FanError::InvalidDirection { direction, id } => text@ == "invalid fan direction "@
                    + direction@ + " for "@ + id@,
                FanError::NoSpeedMode { device } => text@ == device@ + " has no "@
                    + "fanSpeedMode"@,
                FanError::NoPlatformClient { toggle } => {
                    &&& *toggle is Power ==> text@ == "no platform API client available to set "@
                        + "fanToggle"@
                    &&& *toggle is ReverseAirflow ==> text@
                        == "no platform API client available to set "@ + "reverseAirflowToggle"@
                },
                FanError::NoPlatformMetadata { device, toggle } => {
                    &&& *toggle is Power ==> text@ == "no platform metadata for "@ + device@
                        + ", cannot set "@ + "fanToggle"@
                    &&& *toggle is ReverseAirflow ==> text@ == "no platform metadata for "@
                        + device@ + ", cannot set "@ + "reverseAirflowToggle"@
                },
            },
    {
        match self {
            FanError::InvalidCommand { command, id } => join3(
                "invalid fan command ",
                command,
                " for ",
            ).concat(id),
            FanError::InvalidDirection { direction, id } => join3(
                "invalid fan direction ",
                direction,
                " for ",
            ).concat(id),
            FanError::NoSpeedMode { device } => join3(device, " has no ", FAN_SPEED_MODE),
            FanError::NoPlatformClient {
                toggle,
            } => "no platform API client available to set ".to_owned().concat(toggle.instance()),
            FanError::NoPlatformMetadata { device, toggle } => join3(
                "no platform metadata for ",
                device,
                ", cannot set ",
            ).concat(toggle.instance()),
        }
    }
}

/// What to do next for a command.
#[derive(Clone, Debug)]
pub enum FanAction<'a> {
    /// Ask the device to set `capability` to `value`.
    ControlDevice { capability: &'a DeviceCapability, value: i64 },
    /// Find the client for the platform API. It fails when there is none.
    FindPlatformClient,
    /// Ask the platform API to switch `toggle` of the device `info`.
    SetToggleState { info: &'a HttpDeviceInfo, toggle: FanToggle, on: bool },
    /// Nothing: the command has been carried out, or has been given up before.
    Finish,
    /// Give up with this error.
    Fail { error: FanError },
    /// Give up with the error that the last action ended in.
    Abandon,
}

/// The contents of a `FanAction`.
#[verifier::ext_equal]
pub enum FanActionView {
    ControlDevice { capability: DeviceCapability, value: i64 },
    FindPlatformClient,
    SetToggleState { info: HttpDeviceInfo, toggle: FanToggle, on: bool },
    Finish,
    Fail { error: FanErrorView },
    Abandon,
}

impl<'a> View for FanAction<'a> {
    type V = FanActionView;

    open spec fn view(&self) -> FanActionView {
        match self {
            FanAction::ControlDevice { capability, value } => FanActionView::ControlDevice {
                capability: **capability,
                value: *value,
            },
            FanAction::FindPlatformClient => FanActionView::FindPlatformClient,
            FanAction::SetToggleState { info, toggle, on } => FanActionView::SetToggleState {
                info: **info,
                toggle: *toggle,
                on: *on,
            },
            FanAction::Finish => FanActionView::Finish,
            FanAction::Fail { error } => FanActionView::Fail { error: error@ },
            FanAction::Abandon => FanActionView::Abandon,
        }
    }
}

/// How far a command has come.
#[derive(Clone, Copy, Debug, PartialEq, Eq, Structural)]
pub enum FanState {
    /// The speed is being set. The fan is to be started after that.
    SettingSpeed,
    /// The platform API's client is being looked for, to switch `toggle`.
    FindingClient { toggle: FanToggle, on: bool },
    /// The toggle is being switched.
    SettingToggle,
    /// The command is over.
    Over,
}

/// How an action went.
#[derive(Clone, Copy, Debug, PartialEq, Eq, Structural)]
pub enum FanEvent {
    /// It was carried out.
    Succeeded,
    /// It ended in an error.
    Failed,
}

/// The state and the action with which the switching of `toggle` begins.
pub open spec fn begin_toggle(toggle: FanToggle, on: bool) -> (FanState, FanActionView) {
    (FanState::FindingClient { toggle, on }, FanActionView::FindPlatformClient)
}

/// The state and the action in which a command ends with `error`.
pub open spec fn give_up(error: FanErrorView) -> (FanState, FanActionView) {
    (FanState::Over, FanActionView::Fail { error })
}

/// What an on/off payload asks for: on, off, or nothing known.
pub open spec fn power_asked(command: Seq<char>) -> Option<bool> {
    if command == "ON"@ || command == "on"@ {
        Some(true)
    } else if command == "OFF"@ || command == "off"@ {
        Some(false)
    } else {
        None
    }
}

/// Whether a direction payload asks for reversed airflow.
pub open spec fn reverse_asked(direction: Seq<char>) -> Option<bool> {
    if direction == "forward"@ {
        Some(false)
    } else if direction == "reverse"@ {
        Some(true)
    } else {
        None
    }
}

/// How an on/off command begins.
pub open spec fn fan_command(command: Seq<char>, id: Seq<char>) -> (FanState, FanActionView) {
    match power_asked(command) {
        Some(on) => begin_toggle(FanToggle::Power, on),
        None => give_up(FanErrorView::InvalidCommand { command, id }),
    }
}

/// How a speed command begins.
pub open spec fn fan_set_percentage(speed: i64, device: ServiceDevice) -> (
    FanState,
    FanActionView,
) {
    if speed == 0 {
        begin_toggle(FanToggle::Power, false)
    } else {
        match device.capability(FAN_SPEED_MODE@) {
            Some(capability) => (
                FanState::SettingSpeed,
                FanActionView::ControlDevice { capability, value: speed },
            ),
            None => give_up(FanErrorView::NoSpeedMode { device: device.label@ }),
        }
    }
}

/// How a direction command begins.
pub open spec fn fan_set_direction(direction: Seq<char>, id: Seq<char>) -> (
    FanState,
    FanActionView,
) {
    match reverse_asked(direction) {
        Some(reverse) => begin_toggle(FanToggle::ReverseAirflow, reverse),
        None => give_up(FanErrorView::InvalidDirection { direction, id }),
    }
}

/// How `toggle` of the device is switched, once it is known whether there is a
/// client for the platform API.
pub open spec fn toggle_call(
    client_found: bool,
    device: ServiceDevice,
    toggle: FanToggle,
    on: bool,
) -> (FanState, FanActionView) {
    if !client_found {
        give_up(FanErrorView::NoPlatformClient { toggle })
    } else {
        match device.http_device_info {
            Some(info) => (
                FanState::SettingToggle,
                FanActionView::SetToggleState { info, toggle, on },
            ),
            None => give_up(FanErrorView::NoPlatformMetadata { device: device.label@, toggle }),
        }
    }
}

/// How a command goes on after the action of `state` ended in `event`.
pub open spec fn fan_advance(state: FanState, event: FanEvent, device: ServiceDevice) -> (
    FanState,
    FanActionView,
) {
    match (state, event) {
        // Changing the speed does not start the fan.
        (FanState::SettingSpeed, FanEvent::Succeeded) => begin_toggle(FanToggle::Power, true),
        (FanState::FindingClient { toggle, on }, _) => toggle_call(
            event == FanEvent::Succeeded,
            device,
            toggle,
            on,
        ),
        (FanState::SettingToggle, FanEvent::Succeeded) => (FanState::Over, FanActionView::Finish),
        (FanState::Over, _) => (FanState::Over, FanActionView::Finish),
        (_, FanEvent::Failed) => (FanState::Over, FanActionView::Abandon),
    }
}

/// Begins a command to start or stop a fan. `command` is the payload, and `id`
/// names the device on the topic.
pub fn mqtt_fan_command(command: &str, id: &str) -> (begun: (FanState, FanAction<'static>))
    ensures
        (begun.0, begun.1@) == fan_command(command@, id@),
        command@ == "ON"@ || command@ == "on"@ ==> {
            &&& begun.0 == (FanState::FindingClient { toggle: FanToggle::Power, on: true })
            &&& begun.1 is FindPlatformClient
        },
        command@ == "OFF"@ || command@ == "off"@ ==> {
            &&& begun.0 == (FanState::FindingClient { toggle: FanToggle::Power, on: false })
            &&& begun.1 is FindPlatformClient
        },
        command@ != "ON"@ && command@ != "on"@ && command@ != "OFF"@ && command@ != "off"@ ==> {
            &&& begun.0 is Over
            &&& begun.1 matches FanAction::Fail { error } && (error matches FanError::InvalidCommand {
                command: c,
                id: i,
            } && c@ == command@ && i@ == id@)
        },
{
    proof {
        reveal_strlit("ON");
        reveal_strlit("on");
        reveal_strlit("OFF");
        reveal_strlit("off");
        assert("ON"@.len() == 2 && "on"@.len() == 2 && "OFF"@.len() == 3 && "off"@.len() == 3);
    }
    let on = if same_text(command, "ON") || same_text(command, "on") {
        true
    } else if same_text(command, "OFF") || same_text(command, "off") {
        false
    } else {
        return (
            FanState::Over,
            FanAction::Fail {
                error: FanError::InvalidCommand { command: command.to_owned(), id: id.to_owned() },
            },
        );
    };
    (FanState::FindingClient { toggle: FanToggle::Power, on }, FanAction::FindPlatformClient)
}

/// Begins a command to set the speed of a fan.
///
/// Home Assistant sends a value in `speed_range_min..=speed_range_max`, or zero
/// to mean off. Zero stops the fan, whatever the range.
pub fn mqtt_fan_set_percentage<'a>(speed: i64, device: &'a ServiceDevice) -> (begun: (
    FanState,
    FanAction<'a>,
))
    ensures
        (begun.0, begun.1@) == fan_set_percentage(speed, *device),
        speed == 0 ==> {
            &&& begun.0 == (FanState::FindingClient { toggle: FanToggle::Power, on: false })
            &&& begun.1 is FindPlatformClient
        },
        speed != 0 ==> match device.capability("fanSpeedMode"@) {
            Some(mode) => {
                &&& begun.0 is SettingSpeed
                &&& begun.1 matches FanAction::ControlDevice { capability, value } && *capability
                    == mode && value == speed
            },
            None => {
                &&& begun.0 is Over
                &&& begun.1 matches FanAction::Fail { error } && (error matches FanError::NoSpeedMode {
                    device: d,
                } && d@ == device.label@)
            },
        },
{
    if speed == 0 {
        return (
            FanState::FindingClient { toggle: FanToggle::Power, on: false },
            FanAction::FindPlatformClient,
        );
    }
    match device.get_capability_by_instance(FAN_SPEED_MODE) {
        Some(capability) => (
            FanState::SettingSpeed,
            FanAction::ControlDevice { capability, value: speed },
        ),
        None => (
            FanState::Over,
            FanAction::Fail { error: FanError::NoSpeedMode { device: device.label.clone() } },
        ),
    }
}

/// Begins a command to turn the airflow of a fan. `direction` is the payload,
/// and `id` names the device on the topic.
pub fn mqtt_fan_set_direction(direction: &str, id: &str) -> (begun: (FanState, FanAction<'static>))
    ensures
        (begun.0, begun.1@) == fan_set_direction(direction@, id@),
        direction@ == "forward"@ ==> {
            &&& begun.0 == (FanState::FindingClient { toggle: FanToggle::ReverseAirflow, on: false })
            &&& begun.1 is FindPlatformClient
        },
        direction@ == "reverse"@ ==> {
            &&& begun.0 == (FanState::FindingClient { toggle: FanToggle::ReverseAirflow, on: true })
            &&& begun.1 is FindPlatformClient
        },
        direction@ != "forward"@ && direction@ != "reverse"@ ==> {
            &&& begun.0 is Over
            &&& begun.1 matches FanAction::Fail { error } && (error matches FanError::InvalidDirection {
                direction: d,
                id: i,
            } && d@ == direction@ && i@ == id@)
        },
{
    proof {
        reveal_strlit("forward");
        reveal_strlit("reverse");
        assert("forward"@[0] == 'f' && "reverse"@[0] == 'r');
    }
    let on = if same_text(direction, "forward") {
        false
    } else if same_text(direction, "reverse") {
        true
    } else {
        return (
            FanState::Over,
            FanAction::Fail {
                error: FanError::InvalidDirection {
                    direction: direction.to_owned(),
                    id: id.to_owned(),
                },
            },
        );
    };
    (
        FanState::FindingClient { toggle: FanToggle::ReverseAirflow, on },
        FanAction::FindPlatformClient,
    )
}

/// Sets one of the device's on/off toggles through the platform API, once it is
/// known whether there is a client for it.
pub fn set_toggle<'a>(
    client_found: bool,
    device: &'a ServiceDevice,
    toggle: FanToggle,
    on: bool,
) -> (next: (FanState, FanAction<'a>))
    ensures
        (next.0, next.1@) == toggle_call(client_found, *device, toggle, on),
        !client_found ==> {
            &&& next.0 is Over
            &&& next.1 matches FanAction::Fail { error } && (error matches FanError::NoPlatformClient {
                toggle: t,
            } && t == toggle)
        },
        client_found ==> match device.http_device_info {
            Some(metadata) => {
                &&& next.0 is SettingToggle
                &&& next.1 matches FanAction::SetToggleState { info, toggle: t, on: o } && *info
                    == metadata && t == toggle && o == on
            },
            None => {
                &&& next.0 is Over
                &&& next.1 matches FanAction::Fail { error } && (
                error matches FanError::NoPlatformMetadata { device: d, toggle: t } && d@
                    == device.label@ && t == toggle)
            },
        },
{
    if !client_found {
        return (
            FanState::Over,
            FanAction::Fail { error: FanError::NoPlatformClient { toggle } },
        );
    }
    match &device.http_device_info {
        Some(info) => (FanState::SettingToggle, FanAction::SetToggleState { info, toggle, on }),
        None => (
            FanState::Over,
            FanAction::Fail {
                error: FanError::NoPlatformMetadata { device: device.label.clone(), toggle },
            },
        ),
    }
}

/// Takes a command on `device` further, after the action of `state` ended in
/// `event`.
pub fn advance<'a>(state: FanState, event: FanEvent, device: &'a ServiceDevice) -> (next: (
    FanState,
    FanAction<'a>,
))
    ensures
        (next.0, next.1@) == fan_advance(state, event, *device),
        state is SettingSpeed && event is Succeeded ==> {
            &&& next.0 == (FanState::FindingClient { toggle: FanToggle::Power, on: true })
            &&& next.1 is FindPlatformClient
        },
        state is SettingSpeed && event is Failed ==> next.0 is Over && next.1 is Abandon,
        state is SettingToggle && event is Succeeded ==> next.0 is Over && next.1 is Finish,
        state is SettingToggle && event is Failed ==> next.0 is Over && next.1 is Abandon,
        state is Over ==> next.0 is Over && next.1 is Finish,
        state matches FanState::FindingClient { toggle, on } ==> (event is Failed ==> {
            &&& next.0 is Over
            &&& next.1 matches FanAction::Fail { error } && (error matches FanError::NoPlatformClient {
                toggle: t,
            } && t == toggle)
        }),
        state matches FanState::FindingClient { toggle, on } ==> (event is Succeeded ==> match device.http_device_info {
            Some(metadata) => {
                &&& next.0 is SettingToggle
                &&& next.1 matches FanAction::SetToggleState { info, toggle: t, on: o } && *info
                    == metadata && t == toggle && o == on
            },
            None => {
                &&& next.0 is Over
                &&& next.1 matches FanAction::Fail { error } && (
                error matches FanError::NoPlatformMetadata { device: d, toggle: t } && d@
                    == device.label@ && t == toggle)
            },
        }),
{
    let succeeded = event == FanEvent::Succeeded;
    match state {
        FanState::FindingClient { toggle, on } => set_toggle(succeeded, device, toggle, on),
        FanState::SettingSpeed => if succeeded {
            (
                FanState::FindingClient { toggle: FanToggle::Power, on: true },
                FanAction::FindPlatformClient,
            )
        } else {
            (FanState::Over, FanAction::Abandon)
        },
        FanState::SettingToggle => if succeeded {
            (FanState::Over, FanAction::Finish)
        } else {
            (FanState::Over, FanAction::Abandon)
        },
        FanState::Over => (FanState::Over, FanAction::Finish),
    }
}

} // verus!
