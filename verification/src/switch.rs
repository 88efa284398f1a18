//! The switch entities, one for each on/off control of a device.
use crate::device::{DeviceCapability, DeviceState, ServiceDevice, StateCapability};
use crate::entity::{plain_entity, EntityConfig, EntityConfigView};
use crate::json::{
    as_i64, decimal, denotes_string, has_no_members, is_json_word, is_plain_key, is_plain_string,
    json_denotes_string, json_integer, json_pointed, one_member, pointer, quoted,
};
use crate::text::{join3, same_text};
use vstd::prelude::*;
use vstd::string::*;

verus! {

/// The control that turns the whole device on and off.
pub const POWER_SWITCH: &'static str = "powerSwitch";

/// Where a reported state holds the value of its control.
pub const STATE_VALUE: &'static str = "/value";

/// The configuration that announces a switch.
#[derive(Clone, Debug)]
pub struct SwitchConfig {
    pub base: EntityConfig,
    pub command_topic: String,
    pub state_topic: String,
    /// Govee returns an empty string for the state of the light zone toggles, so
    /// nothing ever lands on `state_topic` and the entity sits at unknown. The
    /// Home Assistant frontend only sends `turn_on` from a state it recognises
    /// as off, so an unknown switch answers every tap with `turn_off`. Those
    /// toggles run optimistically: Home Assistant tracks what it last asked for,
    /// and still applies a real state message if Govee ever starts reporting one.
    /// <https://developer.govee.com/discuss/6596e84c901fb900312d5968>
    pub optimistic: bool,
}

/// The contents of a `SwitchConfig`.
#[verifier::ext_equal]
pub struct SwitchConfigView {
    pub base: EntityConfigView,
    pub command_topic: Seq<char>,
    pub state_topic: Seq<char>,
    pub optimistic: bool,
}

impl View for SwitchConfig {
    type V = SwitchConfigView;

    open spec fn view(&self) -> SwitchConfigView {
        SwitchConfigView {
            base: self.base@,
            command_topic: self.command_topic@,
            state_topic: self.state_topic@,
            optimistic: self.optimistic,
        }
    }
}

/// The announcement of the switch for the control `instance` of the device,
/// shown as `name`, with its state on `state_topic`.
pub open spec fn switch_config_of(
    device: ServiceDevice,
    instance: Seq<char>,
    name: Seq<char>,
    state_topic: Seq<char>,
) -> SwitchConfigView {
    let id = device.hass.topic_safe_id@;
    SwitchConfigView {
        base: plain_entity(device.hass, Some(name), "gv2mqtt-"@ + id + "-"@ + instance),
        command_topic: "gv2mqtt/switch/"@ + id + "/command/"@ + instance,
        state_topic,
        optimistic: instance != POWER_SWITCH@,
    }
}

impl SwitchConfig {
    /// Builds the announcement of the switch for a control of the device. `name`
    /// is how Home Assistant is to show that control, and `state_topic` where
    /// its state is published.
    pub fn for_device(
        device: &ServiceDevice,
        instance: &DeviceCapability,
        name: String,
        state_topic: String,
    ) -> (config: Self)
        ensures
            config@ == switch_config_of(*device, instance.instance@, name@, state_topic@),
            config.base.availability_topic@ == device.hass.availability_topic@,
            config.base.name == Some(name),
            config.base.device_class is None,
            config.base.origin.text@ == device.hass.origin.text@,
            config.base.device.text@ == device.hass.device.text@,
            config.base.unique_id@ == "gv2mqtt-"@ + device.hass.topic_safe_id@ + "-"@
                + instance.instance@,
            config.base.entity_category is None,
            config.base.icon is None,
            config.command_topic@ == "gv2mqtt/switch/"@ + device.hass.topic_safe_id@
                + "/command/"@ + instance.instance@,
            config.state_topic == state_topic,
            config.optimistic <==> instance.instance@ != "powerSwitch"@,
    {
        let id = device.hass.topic_safe_id.as_str();
        let command_topic = join3("gv2mqtt/switch/", id, "/command/").concat(&instance.instance);
        let unique_id = join3("gv2mqtt-", id, "-").concat(&instance.instance);
        SwitchConfig {
            base: EntityConfig::plain(&device.hass, Some(name), unique_id),
            command_topic,
            state_topic,
            // powerSwitch is the one instance Govee reports a real state for.
            optimistic: !same_text(&instance.instance, POWER_SWITCH),
        }
    }
}

/// A switch entity.
#[derive(Clone, Debug)]
pub struct CapabilitySwitch {
    pub switch: SwitchConfig,
    pub device_id: String,
    pub instance_name: String,
}

/// What the platform API says of a control.
#[derive(Clone, Copy, Debug, PartialEq, Eq, Structural)]
pub enum ReportedValue {
    /// An integer.
    Integer(i64),
    /// The empty string, which says nothing.
    Empty,
    /// Nothing that is understood.
    Unknown,
}

/// What a control with the reported state `state` is said to be.
pub open spec fn reported_value_of(state: Seq<char>) -> ReportedValue {
    match json_pointed(state, STATE_VALUE@) {
        Some(value) => classified(json_integer(value), json_denotes_string(value, ""@)),
        None => ReportedValue::Unknown,
    }
}

/// The member of a reported state that holds the value of its control.
pub open spec fn value_key() -> Seq<char> {
    seq!['v', 'a', 'l', 'u', 'e']
}

/// What a value is, given the integer it denotes and whether it is the empty
/// string.
pub open spec fn classified(integer: Option<i64>, empty: bool) -> ReportedValue {
    match integer {
        Some(n) => ReportedValue::Integer(n),
        None => if empty {
            ReportedValue::Empty
        } else {
            ReportedValue::Unknown
        },
    }
}

/// Classifies a value by the integer it denotes and by whether it is the empty
/// string.
pub fn classify(integer: Option<i64>, empty: bool) -> (value: ReportedValue)
    ensures
        value == classified(integer, empty),
        integer matches Some(n) ==> value == ReportedValue::Integer(n),
        integer is None ==> (empty <==> value is Empty),
        integer is None ==> (!empty <==> value is Unknown),
{
    match integer {
        Some(n) => ReportedValue::Integer(n),
        None => if empty {
            ReportedValue::Empty
        } else {
            ReportedValue::Unknown
        },
    }
}

impl StateCapability {
    /// What the control is reported to be.
    pub fn reported_value(&self) -> (value: ReportedValue)
        ensures
            value == reported_value_of(self.state@),
            match json_pointed(self.state.text@, "/value"@) {
                Some(found) => match json_integer(found) {
                    Some(n) => value == ReportedValue::Integer(n),
                    None => if json_denotes_string(found, ""@) {
                        value is Empty
                    } else {
                        value is Unknown
                    },
                },
                None => value is Unknown,
            },
            // What a state with a value and nothing else says.
            forall|n: i64|
                self.state@ == one_member(value_key(), #[trigger] decimal(n as int)) ==> value
                    == ReportedValue::Integer(n),
            forall|t: Seq<char>|
                is_plain_string(t) && self.state@ == one_member(value_key(), #[trigger] quoted(t))
                    ==> value == if t.len() == 0 {
                    ReportedValue::Empty
                } else {
                    ReportedValue::Unknown
                },
            forall|word: Seq<char>|
                #[trigger] is_json_word(word) && self.state@ == one_member(value_key(), word)
                    ==> value == ReportedValue::Unknown,
            // What a state without members says.
            has_no_members(self.state@) ==> value == ReportedValue::Unknown,
    {
        proof {
            reveal_strlit("/value");
            reveal_strlit("");
            assert(STATE_VALUE@ == seq!['/'] + value_key());
            assert(is_plain_key(value_key()));
            assert forall|t: Seq<char>| t.len() == 0 implies #[trigger] quoted(t) == quoted(""@) by {
                assert(t == ""@);
            }
        }
        match pointer(&self.state.text, STATE_VALUE) {
            Some(value) => classify(as_i64(&value), denotes_string(&value, "")),
            None => ReportedValue::Unknown,
        }
    }
}

/// Whether a switch is to be shown as on, or `None` where nothing is known.
///
/// `reported` is what the platform API says of the control, `state` what is
/// known of the whole device, and `commanded` what the control was last asked to
/// be.
pub open spec fn switch_shown(
    instance: Seq<char>,
    reported: Option<ReportedValue>,
    state: Option<DeviceState>,
    commanded: Option<bool>,
) -> Option<bool> {
    if instance == POWER_SWITCH@ {
        match state {
            Some(state) => Some(state.on),
            None => None,
        }
    } else if let Some(ReportedValue::Integer(n)) = reported {
        Some(n != 0)
    } else {
        match state {
            Some(state) => Some(light_shown(state) && commanded != Some(false)),
            None => None,
        }
    }
}

/// Whether the light entity shows the device as lit.
pub open spec fn light_shown(state: DeviceState) -> bool {
    match state.light_on {
        Some(lit) => lit,
        None => state.on,
    }
}

/// Decides whether a switch is to be shown as on, or `None` where nothing is
/// known.
///
/// Where Govee reports no integer for the control, its state is derived. A light
/// zone is lit only when the light power is on and the zone was last asked to be
/// on, and cutting the power takes every zone down with it without reporting a
/// thing. A zone with no record follows the fixture, because Govee lights every
/// zone when the light comes on.
pub fn derive_switch_state(
    instance: &str,
    reported: Option<ReportedValue>,
    state: Option<DeviceState>,
    commanded: Option<bool>,
) -> (shown: Option<bool>)
    ensures
        shown == switch_shown(instance@, reported, state, commanded),
        instance@ == "powerSwitch"@ ==> match state {
            Some(known) => shown == Some(known.on),
            None => shown is None,
        },
        instance@ != "powerSwitch"@ ==> match reported {
            Some(ReportedValue::Integer(n)) => shown == Some(n != 0),
            _ => match state {
                Some(known) => {
                    &&& known.light_on matches Some(lit) ==> shown == Some(
                        lit && commanded != Some(false),
                    )
                    &&& known.light_on is None ==> shown == Some(
                        known.on && commanded != Some(false),
                    )
                },
                None => shown is None,
            },
        },
{
    if same_text(instance, POWER_SWITCH) {
        return match state {
            Some(state) => Some(state.on),
            None => None,
        };
    }
    if let Some(ReportedValue::Integer(n)) = reported {
        return Some(n != 0);
    }
    match state {
        Some(state) => {
            let commanded = match commanded {
                Some(on) => on,
                None => true,
            };
            // Match the light entity, which reads light_on rather than on. They
            // are the same for a device whose powerSwitch is its light, and
            // light_on is the correct one where they differ.
            let light_on = match state.light_on {
                Some(lit) => lit,
                None => state.on,
            };
            Some(light_on && commanded)
        },
        None => None,
    }
}

/// A state to be published.
#[derive(Clone, Debug)]
pub struct StateReport {
    pub topic: String,
    pub payload: String,
}

/// What the state of a switch comes to.
#[derive(Clone, Debug)]
pub struct SwitchUpdate {
    /// What to publish, if anything.
    pub report: Option<StateReport>,
    /// What the platform API said of the control, where that was of no use.
    pub disregarded: Option<ReportedValue>,
    /// Whether the state of a control other than the power switch was looked for
    /// and nothing was found.
    pub not_found: bool,
}

/// The contents of a `SwitchUpdate`.
#[verifier::ext_equal]
pub struct SwitchUpdateView {
    pub report: Option<(Seq<char>, Seq<char>)>,
    pub disregarded: Option<ReportedValue>,
    pub not_found: bool,
}

impl View for SwitchUpdate {
    type V = SwitchUpdateView;

    open spec fn view(&self) -> SwitchUpdateView {
        SwitchUpdateView {
            report: match self.report {
                Some(report) => Some((report.topic@, report.payload@)),
                None => None,
            },
            disregarded: self.disregarded,
            not_found: self.not_found,
        }
    }
}

/// How an on/off state is written.
pub open spec fn on_off(on: bool) -> Seq<char> {
    if on {
        "ON"@
    } else {
        "OFF"@
    }
}

/// What is read of the reports on the control `instance` of the device. The
/// state of the whole device stands in for reports on its power switch.
pub open spec fn report_read(instance: Seq<char>, device: ServiceDevice) -> Option<ReportedValue> {
    if instance == POWER_SWITCH@ {
        None
    } else {
        match device.state_capability(instance) {
            Some(capability) => Some(reported_value_of(capability.state@)),
            None => None,
        }
    }
}

/// What the state of the switch for the control `instance` of the device, with
/// its state on `state_topic`, comes to.
pub open spec fn switch_update_of(
    state_topic: Seq<char>,
    instance: Seq<char>,
    device: ServiceDevice,
) -> SwitchUpdateView {
    let reported = report_read(instance, device);
    let shown = switch_shown(
        instance,
        reported,
        device.device_state,
        device.last_commanded(instance),
    );
    SwitchUpdateView {
        report: match shown {
            Some(on) => Some((state_topic, on_off(on))),
            None => None,
        },
        disregarded: match reported {
            Some(ReportedValue::Integer(_)) => None,
            _ => reported,
        },
        not_found: instance != POWER_SWITCH@ && shown is None,
    }
}

/// What the state of a switch comes to where the report on its control,
/// `useless`, is no integer: it is derived from the light and from what the
/// control was last asked to be.
pub open spec fn derived_update(
    state_topic: Seq<char>,
    instance: Seq<char>,
    device: ServiceDevice,
    useless: ReportedValue,
) -> SwitchUpdateView {
    SwitchUpdateView {
        report: match device.device_state {
            Some(state) => Some(
                (
                    state_topic,
                    on_off(light_shown(state) && device.last_commanded(instance) != Some(false)),
                ),
            ),
            None => None,
        },
        disregarded: Some(useless),
        not_found: device.device_state is None,
    }
}

impl CapabilitySwitch {
    /// Builds the switch for a control of the device. `name` is how Home
    /// Assistant is to show that control, and `state_topic` where its state is
    /// published.
    pub fn new(
        device: &ServiceDevice,
        instance: &DeviceCapability,
        name: String,
        state_topic: String,
    ) -> (switch: Self)
        ensures
            switch.switch@ == switch_config_of(*device, instance.instance@, name@, state_topic@),
            switch.device_id@ == device.id@,
            switch.instance_name@ == instance.instance@,
            switch.switch.optimistic <==> switch.instance_name@ != POWER_SWITCH@,
            switch.switch.base.availability_topic@ == device.hass.availability_topic@,
            switch.switch.base.name == Some(name),
            switch.switch.base.device_class is None,
            switch.switch.base.origin.text@ == device.hass.origin.text@,
            switch.switch.base.device.text@ == device.hass.device.text@,
            switch.switch.base.unique_id@ == "gv2mqtt-"@ + device.hass.topic_safe_id@ + "-"@
                + instance.instance@,
            switch.switch.base.entity_category is None,
            switch.switch.base.icon is None,
            switch.switch.command_topic@ == "gv2mqtt/switch/"@ + device.hass.topic_safe_id@
                + "/command/"@ + instance.instance@,
            switch.switch.state_topic == state_topic,
            switch.switch.optimistic <==> instance.instance@ != "powerSwitch"@,
    {
        CapabilitySwitch {
            switch: SwitchConfig::for_device(device, instance, name, state_topic),
            device_id: device.id.clone(),
            instance_name: instance.instance.clone(),
        }
    }

    /// Decides what to publish of the switch, given what is known of its device.
    pub fn notify_state(&self, device: &ServiceDevice) -> (update: SwitchUpdate)
        ensures
            update@ == switch_update_of(self.switch.state_topic@, self.instance_name@, *device),
            update.report matches Some(report) ==> {
                &&& report.topic@ == self.switch.state_topic@
                &&& report.payload@ == "ON"@ || report.payload@ == "OFF"@
            },
            // The power switch shows the device.
            self.instance_name@ == "powerSwitch"@ ==> {
                &&& match device.device_state {
                    Some(known) => update.report matches Some(report) && (known.on
                        ==> report.payload@ == "ON"@) && (!known.on ==> report.payload@ == "OFF"@),
                    None => update.report is None,
                }
                &&& update.disregarded is None
                &&& !update.not_found
            },
            // Any other switch shows the integer that is reported for it.
            self.instance_name@ != "powerSwitch"@ ==> (device.state_capability(
                self.instance_name@,
            ) matches Some(capability) ==> (json_pointed(
                capability.state.text@,
                "/value"@,
            ) matches Some(found) ==> (json_integer(found) matches Some(n) ==> {
                &&& update.report matches Some(report) && (n != 0 ==> report.payload@ == "ON"@)
                    && (n == 0 ==> report.payload@ == "OFF"@)
                &&& update.disregarded is None
                &&& !update.not_found
            }))),
            // Without one, it is on when the light is and it was not switched off.
            self.instance_name@ != "powerSwitch"@ && !(device.state_capability(
                self.instance_name@,
            ) matches Some(capability) && (json_pointed(
                capability.state.text@,
                "/value"@,
            ) matches Some(found) && json_integer(found) is Some)) ==> {
                &&& match device.device_state {
                    Some(known) => update.report matches Some(report) && {
                        let lit = if known.light_on is Some {
                            known.light_on->0
                        } else {
                            known.on
                        };
                        let asked_off = device.last_commanded(self.instance_name@) == Some(false);
                        &&& lit && !asked_off ==> report.payload@ == "ON"@
                        &&& !lit || asked_off ==> report.payload@ == "OFF"@
                    },
                    None => update.report is None,
                }
                &&& update.not_found <==> device.device_state is None
                &&& update.disregarded is Some <==> device.state_capability(
                    self.instance_name@,
                ) is Some
                &&& device.state_capability(self.instance_name@) matches Some(capability) ==> (
                update.disregarded == Some(ReportedValue::Empty) <==> (json_pointed(
                    capability.state.text@,
                    "/value"@,
                ) matches Some(found) && json_denotes_string(found, ""@)))
                &&& update.disregarded matches Some(value) ==> value is Empty || value is Unknown
            },
            // What becomes of a report that holds a value and nothing else.
            self.instance_name@ != POWER_SWITCH@ ==> {
                device.state_capability(self.instance_name@) matches Some(capability) ==> {
                    &&& forall|n: i64|
                        capability.state@ == one_member(value_key(), #[trigger] decimal(n as int))
                            ==> update@.report == Some(
                            (self.switch.state_topic@, on_off(n != 0)),
                        )
                    &&& forall|t: Seq<char>|
                        is_plain_string(t) && capability.state@ == one_member(
                            value_key(),
                            #[trigger] quoted(t),
                        ) ==> update@ == derived_update(
                            self.switch.state_topic@,
                            self.instance_name@,
                            *device,
                            if t.len() == 0 {
                                ReportedValue::Empty
                            } else {
                                ReportedValue::Unknown
                            },
                        )
                    &&& forall|word: Seq<char>|
                        #[trigger] is_json_word(word) && capability.state@ == one_member(
                            value_key(),
                            word,
                        ) ==> update@ == derived_update(
                            self.switch.state_topic@,
                            self.instance_name@,
                            *device,
                            ReportedValue::Unknown,
                        )
                    &&& has_no_members(capability.state@) ==> update@ == derived_update(
                        self.switch.state_topic@,
                        self.instance_name@,
                        *device,
                        ReportedValue::Unknown,
                    )
                }
            },
    {
        let is_power_switch = same_text(&self.instance_name, POWER_SWITCH);
        let reported = if is_power_switch {
            None
        } else {
            match device.get_state_capability_by_instance(&self.instance_name) {
                Some(capability) => Some(capability.reported_value()),
                None => None,
            }
        };
        let commanded = device.commanded_toggle(&self.instance_name);
        let report = match derive_switch_state(
            &self.instance_name,
            reported,
            device.device_state,
            commanded,
        ) {
            Some(on) => Some(
                StateReport {
                    topic: self.switch.state_topic.clone(),
                    payload: if on {
                        "ON".to_owned()
                    } else {
                        "OFF".to_owned()
                    },
                },
            ),
            None => None,
        };
        let disregarded = match reported {
            Some(ReportedValue::Integer(_)) => None,
            _ => reported,
        };
        let not_found = !is_power_switch && report.is_none();
        SwitchUpdate { report, disregarded, not_found }
    }
}

} // verus!
