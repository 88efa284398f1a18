//! What each operation gives, told in the fields of what goes in and of what
//! comes out, and how the results of two calls relate.
use crate::device::{
    first_of_control, lemma_first_of_control_at, lemma_first_of_control_none, DeviceCapability,
    DeviceParameters, DeviceState, EnumOption, HassIdentity, HttpDeviceInfo, ServiceDevice,
    StateCapability,
};
use crate::entity::{plain_entity, EntityConfig};
use crate::fan::{
    fan_config_of, is_speed_name, lemma_range_exists, lemma_range_of_options, option_numbers,
    range_of, real_scenes, speed_options_of, speed_range_of, FanConfig, FAN_SPEED_MODE, FAN_TOGGLE,
    REVERSE_AIRFLOW_TOGGLE,
};
use crate::fan_control::{
    error_message, fan_advance, fan_command, fan_set_direction, fan_set_percentage, toggle_call,
    toggle_instance, FanAction, FanError, FanEvent, FanState, FanToggle,
};
use crate::json::{
    begins_like_collection, begins_like_number, begins_like_text, decimal, digits, has_no_members,
    is_json_word, is_plain_key, is_plain_string, json_denotes_string, json_integer, json_pointed,
    one_member, quoted,
};
use crate::search::{lemma_filter_contains, lemma_filter_same};
use crate::switch::{
    classified, reported_value_of, switch_config_of, switch_shown, switch_update_of, ReportedValue,
    value_key, SwitchConfig, SwitchUpdate, POWER_SWITCH, STATE_VALUE,
};
use crate::text::{ascii_lower, fold_ascii_case, optional_text};
use vstd::prelude::*;

verus! {

/// The names of the controls, and where a report holds its value.
pub proof fn law_names_of_the_controls()
    ensures
        FAN_TOGGLE@ == "fanToggle"@,
        FAN_SPEED_MODE@ == "fanSpeedMode"@,
        REVERSE_AIRFLOW_TOGGLE@ == "reverseAirflowToggle"@,
        POWER_SWITCH@ == "powerSwitch"@,
        STATE_VALUE@ == "/value"@,
{
}

/// The capability for a control is the first in the device's metadata that bears
/// its name, whatever else is listed.
pub proof fn law_the_first_listed_capability_counts(
    device: ServiceDevice,
    info: HttpDeviceInfo,
    k: int,
)
    requires
        device.http_device_info == Some(info),
        0 <= k < info.capabilities@.len(),
        forall|j: int|
            0 <= j < k ==> (#[trigger] info.capabilities@[j]).instance@
                != info.capabilities@[k].instance@,
    ensures
        device.capability(info.capabilities@[k].instance@) == Some(info.capabilities@[k]),
{
    lemma_first_of_control_at(info.capabilities@, info.capabilities@[k].instance@, k);
}

/// There is a capability for a control exactly when the device's metadata lists
/// one that bears its name.
pub proof fn law_only_listed_capabilities_are_found(device: ServiceDevice, instance: Seq<char>)
    ensures
        device.capability(instance) is Some <==> (device.http_device_info matches Some(info)
            && exists|k: int|
            0 <= k < info.capabilities@.len() && (#[trigger] info.capabilities@[k]).instance@
                == instance),
{
    if let Some(info) = device.http_device_info {
        lemma_first_of_control_none(info.capabilities@, instance);
    }
}

/// The state reported for a control is the first report that bears its name.
pub proof fn law_the_first_report_counts(device: ServiceDevice, k: int)
    requires
        0 <= k < device.state_capabilities@.len(),
        forall|j: int|
            0 <= j < k ==> (#[trigger] device.state_capabilities@[j]).instance@
                != device.state_capabilities@[k].instance@,
    ensures
        device.state_capability(device.state_capabilities@[k].instance@) == Some(
            device.state_capabilities@[k],
        ),
{
    lemma_first_of_control_at(
        device.state_capabilities@,
        device.state_capabilities@[k].instance@,
        k,
    );
}

/// There is a state reported for a control exactly when a report bears its name.
pub proof fn law_only_reported_states_are_found(device: ServiceDevice, instance: Seq<char>)
    ensures
        device.state_capability(instance) is Some <==> exists|k: int|
            0 <= k < device.state_capabilities@.len() && (
            #[trigger] device.state_capabilities@[k]).instance@ == instance,
{
    lemma_first_of_control_none(device.state_capabilities@, instance);
}

/// What a toggle was last asked to be is what the first entry for it says.
pub proof fn law_the_first_command_on_record_counts(device: ServiceDevice, k: int)
    requires
        0 <= k < device.commanded_toggles@.len(),
        forall|j: int|
            0 <= j < k ==> (#[trigger] device.commanded_toggles@[j]).instance@
                != device.commanded_toggles@[k].instance@,
    ensures
        device.last_commanded(device.commanded_toggles@[k].instance@) == Some(
            device.commanded_toggles@[k].on,
        ),
{
    lemma_first_of_control_at(
        device.commanded_toggles@,
        device.commanded_toggles@[k].instance@,
        k,
    );
}

/// There is a record for a toggle exactly when an entry bears its name.
pub proof fn law_only_recorded_commands_are_found(device: ServiceDevice, instance: Seq<char>)
    ensures
        device.last_commanded(instance) is Some <==> exists|k: int|
            0 <= k < device.commanded_toggles@.len() && (
            #[trigger] device.commanded_toggles@[k]).instance@ == instance,
{
    lemma_first_of_control_none(device.commanded_toggles@, instance);
}

/// Whenever the device's metadata lists `fanSpeedMode` with named options, the
/// speed range is the least and the greatest of the integers that those options
/// hold, if two of them differ, whatever other capabilities the device has.
pub proof fn law_speed_range_spans_the_listed_options(
    device: ServiceDevice,
    info: HttpDeviceInfo,
    k: int,
    options: Vec<EnumOption>,
)
    requires
        device.http_device_info == Some(info),
        0 <= k < info.capabilities@.len(),
        info.capabilities@[k].instance@ == "fanSpeedMode"@,
        info.capabilities@[k].parameters == Some(DeviceParameters::Enum { options }),
        forall|j: int|
            0 <= j < k ==> (#[trigger] info.capabilities@[j]).instance@ != "fanSpeedMode"@,
    ensures
        match speed_range_of(device) {
            Some((lowest, highest)) => {
                &&& lowest < highest
                &&& exists|i: int|
                    0 <= i < options@.len() && json_integer((#[trigger] options@[i]).value.text@)
                        == Some(lowest)
                &&& exists|i: int|
                    0 <= i < options@.len() && json_integer((#[trigger] options@[i]).value.text@)
                        == Some(highest)
                &&& forall|i: int|
                    0 <= i < options@.len() ==> (json_integer(
                        (#[trigger] options@[i]).value.text@,
                    ) matches Some(n) ==> lowest <= n <= highest)
            },
            None => forall|i: int, j: int|
                0 <= i < options@.len() && 0 <= j < options@.len() ==> (json_integer(
                    (#[trigger] options@[i]).value.text@,
                ) matches Some(a) ==> json_integer(
                    (#[trigger] options@[j]).value.text@,
                ) matches Some(b) ==> a == b),
        },
{
    law_the_first_listed_capability_counts(device, info, k);
    lemma_range_exists(option_numbers(options@));
    lemma_range_of_options(options@, range_of(option_numbers(options@)));
}

/// Two options of `fanSpeedMode` that hold different integers give a range that
/// takes in both.
pub proof fn law_two_speeds_make_a_range(
    device: ServiceDevice,
    info: HttpDeviceInfo,
    k: int,
    options: Vec<EnumOption>,
    i: int,
    j: int,
)
    requires
        device.http_device_info == Some(info),
        0 <= k < info.capabilities@.len(),
        info.capabilities@[k].instance@ == "fanSpeedMode"@,
        info.capabilities@[k].parameters == Some(DeviceParameters::Enum { options }),
        forall|l: int|
            0 <= l < k ==> (#[trigger] info.capabilities@[l]).instance@ != "fanSpeedMode"@,
        0 <= i < options@.len(),
        0 <= j < options@.len(),
        json_integer(options@[i].value.text@) is Some,
        json_integer(options@[j].value.text@) is Some,
        json_integer(options@[i].value.text@)->0 < json_integer(options@[j].value.text@)->0,
    ensures
        speed_range_of(device) matches Some((lowest, highest)) && lowest <= json_integer(
            options@[i].value.text@,
        )->0 && json_integer(options@[j].value.text@)->0 <= highest,
{
    law_speed_range_spans_the_listed_options(device, info, k, options);
}

/// Without `fanSpeedMode` in the device's metadata, or where the first listed has no
/// named options, there is no speed range.
pub proof fn law_no_range_without_listed_options(device: ServiceDevice)
    requires
        device.http_device_info matches Some(info) ==> forall|k: int|
            0 <= k < info.capabilities@.len() && (#[trigger] info.capabilities@[k]).instance@
                == "fanSpeedMode"@ && (forall|j: int|
                0 <= j < k ==> (#[trigger] info.capabilities@[j]).instance@ != "fanSpeedMode"@)
                ==> !(info.capabilities@[k].parameters matches Some(
                DeviceParameters::Enum { .. },
            )),
    ensures
        speed_range_of(device) is None,
{
    lemma_no_listed_options(device);
}

/// Where the first `fanSpeedMode` listed has no named options there are no named
/// speeds.
proof fn lemma_no_listed_options(device: ServiceDevice)
    requires
        device.http_device_info matches Some(info) ==> forall|k: int|
            0 <= k < info.capabilities@.len() && (#[trigger] info.capabilities@[k]).instance@
                == "fanSpeedMode"@ && (forall|j: int|
                0 <= j < k ==> (#[trigger] info.capabilities@[j]).instance@ != "fanSpeedMode"@)
                ==> !(info.capabilities@[k].parameters matches Some(
                DeviceParameters::Enum { .. },
            )),
    ensures
        speed_options_of(device) is None,
{
    if let Some(info) = device.http_device_info {
        if device.capability("fanSpeedMode"@) is Some {
            let k = lemma_first_named(info.capabilities@, "fanSpeedMode"@, 0);
            law_the_first_listed_capability_counts(device, info, k);
        }
    }
}

/// Where something bears a name from `from` on and nothing before it, something is
/// the first to bear it.
proof fn lemma_first_named(
    capabilities: Seq<DeviceCapability>,
    instance: Seq<char>,
    from: int,
) -> (k: int)
    requires
        0 <= from <= capabilities.len(),
        first_of_control(capabilities, instance) is Some,
        forall|j: int| 0 <= j < from ==> (#[trigger] capabilities[j]).instance@ != instance,
    ensures
        0 <= k < capabilities.len(),
        capabilities[k].instance@ == instance,
        forall|j: int| 0 <= j < k ==> (#[trigger] capabilities[j]).instance@ != instance,
    decreases capabilities.len() - from,
{
    lemma_first_of_control_none(capabilities, instance);
    if from == capabilities.len() {
        from
    } else if capabilities[from].instance@ == instance {
        from
    } else {
        lemma_first_named(capabilities, instance, from + 1)
    }
}

/// The range of a sequence of numbers is its least and its greatest, if they differ.
pub proof fn law_a_range_is_the_least_and_the_greatest(values: Seq<Option<i64>>)
    ensures
        match range_of(values) {
            Some((lowest, highest)) => {
                &&& lowest < highest
                &&& values.contains(Some(lowest))
                &&& values.contains(Some(highest))
                &&& forall|i: int|
                    0 <= i < values.len() ==> (#[trigger] values[i] matches Some(v) ==> lowest <= v
                        <= highest)
            },
            None => forall|i: int, j: int|
                0 <= i < values.len() && 0 <= j < values.len() ==> (
                #[trigger] values[i] matches Some(a) ==> #[trigger] values[j] matches Some(b)
                    ==> a == b),
        },
{
    lemma_range_exists(values);
}

/// Devices that have the same `fanSpeedMode` have the same speed range and keep
/// the same scenes, however they differ otherwise.
pub proof fn law_only_the_speed_mode_bears_on_the_speeds(
    a: ServiceDevice,
    b: ServiceDevice,
    scenes: Seq<String>,
)
    requires
        a.capability("fanSpeedMode"@) == b.capability("fanSpeedMode"@),
    ensures
        speed_range_of(a) == speed_range_of(b),
        real_scenes(a, scenes) == real_scenes(b, scenes),
{
}

/// A scene that is named like one of the options of `fanSpeedMode`, whichever it
/// is and in whatever case, is not kept, and a scene that is named like none of
/// them is.
pub proof fn law_scenes_named_like_options_are_dropped(
    device: ServiceDevice,
    info: HttpDeviceInfo,
    k: int,
    options: Vec<EnumOption>,
    scenes: Seq<String>,
    scene: String,
)
    requires
        device.http_device_info == Some(info),
        0 <= k < info.capabilities@.len(),
        info.capabilities@[k].instance@ == "fanSpeedMode"@,
        info.capabilities@[k].parameters == Some(DeviceParameters::Enum { options }),
        forall|j: int|
            0 <= j < k ==> (#[trigger] info.capabilities@[j]).instance@ != "fanSpeedMode"@,
    ensures
        forall|i: int|
            0 <= i < options@.len() && fold_ascii_case((#[trigger] options@[i]).name@)
                == fold_ascii_case(scene@) ==> !real_scenes(device, scenes).contains(scene),
        scenes.contains(scene) && (forall|i: int|
            0 <= i < options@.len() ==> fold_ascii_case((#[trigger] options@[i]).name@)
                != fold_ascii_case(scene@)) ==> real_scenes(device, scenes).contains(scene),
        real_scenes(device, scenes).contains(scene) ==> scenes.contains(scene),
{
    law_kept_scenes_are_the_unlike_ones(device, info, k, options, scenes);
    let unlike = |s: String|
        forall|i: int|
            0 <= i < options@.len() ==> fold_ascii_case((#[trigger] options@[i]).name@)
                != fold_ascii_case(s@);
    lemma_filter_contains(scenes, unlike, scene);
    assert(real_scenes(device, scenes) == scenes.filter(unlike));
}

/// The scenes that are kept are those that are named like no option of
/// `fanSpeedMode`, each as often as before, and in the same order.
pub proof fn law_kept_scenes_are_the_unlike_ones(
    device: ServiceDevice,
    info: HttpDeviceInfo,
    k: int,
    options: Vec<EnumOption>,
    scenes: Seq<String>,
)
    requires
        device.http_device_info == Some(info),
        0 <= k < info.capabilities@.len(),
        info.capabilities@[k].instance@ == "fanSpeedMode"@,
        info.capabilities@[k].parameters == Some(DeviceParameters::Enum { options }),
        forall|j: int|
            0 <= j < k ==> (#[trigger] info.capabilities@[j]).instance@ != "fanSpeedMode"@,
    ensures
        real_scenes(device, scenes) == scenes.filter(
            (|s: String|
                forall|i: int|
                    0 <= i < options@.len() ==> fold_ascii_case((#[trigger] options@[i]).name@)
                        != fold_ascii_case(s@)),
        ),
{
    law_the_first_listed_capability_counts(device, info, k);
    let unlike = |s: String|
        forall|i: int|
            0 <= i < options@.len() ==> fold_ascii_case((#[trigger] options@[i]).name@)
                != fold_ascii_case(s@);
    lemma_filter_same(scenes, |s: String| !is_speed_name(options@, s@), unlike);
}

/// Without `fanSpeedMode` in the device's metadata, or where the first listed has no
/// named options, every scene is kept.
pub proof fn law_every_scene_is_kept_without_listed_options(
    device: ServiceDevice,
    scenes: Seq<String>,
)
    requires
        device.http_device_info matches Some(info) ==> forall|k: int|
            0 <= k < info.capabilities@.len() && (#[trigger] info.capabilities@[k]).instance@
                == "fanSpeedMode"@ && (forall|j: int|
                0 <= j < k ==> (#[trigger] info.capabilities@[j]).instance@ != "fanSpeedMode"@)
                ==> !(info.capabilities@[k].parameters matches Some(
                DeviceParameters::Enum { .. },
            )),
    ensures
        real_scenes(device, scenes) == scenes,
{
    lemma_no_listed_options(device);
}

/// Names that differ in the case of ASCII letters alone are alike, and no others.
pub proof fn law_names_are_alike_up_to_ascii_case(a: Seq<char>, b: Seq<char>)
    ensures
        fold_ascii_case(a) == fold_ascii_case(b) <==> a.len() == b.len() && forall|i: int|
            0 <= i < a.len() ==> {
                ||| #[trigger] a[i] == b[i]
                ||| 'A' <= a[i] && a[i] <= 'Z' && b[i] as int == a[i] as int + 32
                ||| 'A' <= b[i] && b[i] <= 'Z' && a[i] as int == b[i] as int + 32
            },
{
    let x = fold_ascii_case(a);
    let y = fold_ascii_case(b);
    assert(x.len() == a.len() && y.len() == b.len());
    if x == y {
        assert forall|i: int| 0 <= i < a.len() implies {
            ||| #[trigger] a[i] == b[i]
            ||| 'A' <= a[i] && a[i] <= 'Z' && b[i] as int == a[i] as int + 32
            ||| 'A' <= b[i] && b[i] <= 'Z' && a[i] as int == b[i] as int + 32
        } by {
            assert(x[i] == y[i]);
            assert(x[i] == ascii_lower(a[i]) && y[i] == ascii_lower(b[i]));
        }
    }
    if a.len() == b.len() && forall|i: int|
        0 <= i < a.len() ==> {
            ||| #[trigger] a[i] == b[i]
            ||| 'A' <= a[i] && a[i] <= 'Z' && b[i] as int == a[i] as int + 32
            ||| 'A' <= b[i] && b[i] <= 'Z' && a[i] as int == b[i] as int + 32
        } {
        assert forall|i: int| 0 <= i < a.len() implies x[i] == y[i] by {
            assert(a[i] == a[i]);
            assert(x[i] == ascii_lower(a[i]) && y[i] == ascii_lower(b[i]));
        }
        assert(x == y);
    }
}

/// Every part of what entities of all kinds announce.
pub proof fn law_every_part_of_an_entity_announcement(
    hass: HassIdentity,
    name: Option<String>,
    unique_id: String,
    config: EntityConfig,
)
    requires
        config@ == plain_entity(hass, optional_text(name), unique_id@),
    ensures
        config.availability_topic@ == hass.availability_topic@,
        name matches Some(given) ==> (config.name matches Some(shown) && shown@ == given@),
        name is None ==> config.name is None,
        config.device_class is None,
        config.origin.text@ == hass.origin.text@,
        config.device.text@ == hass.device.text@,
        config.unique_id@ == unique_id@,
        config.entity_category is None,
        config.icon is None,
{
}

/// Every part of a fan's announcement. In particular, the direction topic is there
/// exactly when the device has `reverseAirflowToggle`, whatever its speeds, and
/// the speed topic exactly when there is a speed range.
pub proof fn law_every_part_of_a_fan_announcement(device: ServiceDevice, config: FanConfig)
    requires
        config@ == fan_config_of(device),
    ensures
        config.command_topic@ == "gv2mqtt/fan/"@ + device.hass.topic_safe_id@ + "/command"@,
        device.capability("reverseAirflowToggle"@) is Some ==> (
        config.direction_command_topic matches Some(topic) && topic@ == "gv2mqtt/fan/"@
            + device.hass.topic_safe_id@ + "/set-direction"@),
        device.capability("reverseAirflowToggle"@) is None ==> config.direction_command_topic is None,
        speed_range_of(device) matches Some((lowest, highest)) ==> {
            &&& config.speed_range_min == Some(lowest)
            &&& config.speed_range_max == Some(highest)
            &&& config.percentage_command_topic matches Some(topic) && topic@ == "gv2mqtt/fan/"@
                + device.hass.topic_safe_id@ + "/set-percentage"@
        },
        speed_range_of(device) is None ==> {
            &&& config.speed_range_min is None
            &&& config.speed_range_max is None
            &&& config.percentage_command_topic is None
        },
        config.optimistic,
        config.base.unique_id@ == "gv2mqtt-"@ + device.hass.topic_safe_id@ + "-fan"@,
        config.base.name is None,
        config.base.availability_topic@ == device.hass.availability_topic@,
        config.base.origin.text@ == device.hass.origin.text@,
        config.base.device.text@ == device.hass.device.text@,
        config.base.device_class is None,
        config.base.entity_category is None,
        config.base.icon is None,
{
    assert(config@.base == config.base@);
}

/// Every part of a switch's announcement. In particular, the topic and the unique
/// id have the same form for every control, the power switch included.
pub proof fn law_every_part_of_a_switch_announcement(
    device: ServiceDevice,
    instance: Seq<char>,
    name: Seq<char>,
    state_topic: Seq<char>,
    config: SwitchConfig,
)
    requires
        config@ == switch_config_of(device, instance, name, state_topic),
    ensures
        config.command_topic@ == "gv2mqtt/switch/"@ + device.hass.topic_safe_id@ + "/command/"@
            + instance,
        config.base.unique_id@ == "gv2mqtt-"@ + device.hass.topic_safe_id@ + "-"@ + instance,
        config.state_topic@ == state_topic,
        config.optimistic <==> instance != "powerSwitch"@,
        config.base.name matches Some(shown) && shown@ == name,
        config.base.availability_topic@ == device.hass.availability_topic@,
        config.base.origin.text@ == device.hass.origin.text@,
        config.base.device.text@ == device.hass.device.text@,
        config.base.device_class is None,
        config.base.entity_category is None,
        config.base.icon is None,
{
    assert(config@.base == config.base@);
}

/// What is read of a report: the integer at `/value`, or that it is the empty
/// string, or nothing.
pub proof fn law_what_is_read_of_a_report(capability: StateCapability)
    ensures
        json_pointed(capability.state.text@, "/value"@) is None ==> reported_value_of(
            capability.state@,
        ) is Unknown,
        json_pointed(capability.state.text@, "/value"@) matches Some(found) ==> {
            &&& json_integer(found) matches Some(n) ==> reported_value_of(capability.state@)
                == ReportedValue::Integer(n)
            &&& json_integer(found) is None && json_denotes_string(found, ""@)
                ==> reported_value_of(capability.state@) is Empty
            &&& json_integer(found) is None && !json_denotes_string(found, ""@)
                ==> reported_value_of(capability.state@) is Unknown
        },
{
}

/// A value is what its integer says, and without one it is empty or not known.
pub proof fn law_how_values_are_classified(integer: Option<i64>, empty: bool)
    ensures
        integer matches Some(n) ==> classified(integer, empty) == ReportedValue::Integer(n),
        integer is None && empty ==> classified(integer, empty) is Empty,
        integer is None && !empty ==> classified(integer, empty) is Unknown,
{
}

/// A control other than the power switch, without a reported integer, is shown as
/// on exactly when the light is lit and the last command for it was not off. Where
/// `light_on` is known it tells whether the light is lit, whatever `on` is, and
/// otherwise `on` does.
pub proof fn law_a_zone_shows_its_light_and_its_command(
    instance: Seq<char>,
    reported: Option<ReportedValue>,
    state: DeviceState,
    commanded: Option<bool>,
)
    requires
        instance != "powerSwitch"@,
        !(reported matches Some(ReportedValue::Integer(_))),
    ensures
        state.light_on matches Some(lit) ==> switch_shown(
            instance,
            reported,
            Some(state),
            commanded,
        ) == Some(lit && commanded != Some(false)),
        state.light_on is None ==> switch_shown(instance, reported, Some(state), commanded) == Some(
            state.on && commanded != Some(false),
        ),
        switch_shown(instance, reported, None, commanded) is None,
{
}

/// Where `light_on` is known, two states of a device that agree on it show a zone
/// alike, however they differ in `on`; and the lit one of two states shows it as
/// the command says, while the other shows it as off.
pub proof fn law_only_the_light_bears_on_a_zone(
    instance: Seq<char>,
    reported: Option<ReportedValue>,
    a: DeviceState,
    b: DeviceState,
    commanded: Option<bool>,
)
    requires
        instance != "powerSwitch"@,
        !(reported matches Some(ReportedValue::Integer(_))),
        a.light_on is Some,
        b.light_on is Some,
    ensures
        a.light_on == b.light_on ==> switch_shown(instance, reported, Some(a), commanded)
            == switch_shown(instance, reported, Some(b), commanded),
        a.light_on == Some(true) && commanded != Some(false) ==> switch_shown(
            instance,
            reported,
            Some(a),
            commanded,
        ) == Some(true),
        a.light_on == Some(false) || commanded == Some(false) ==> switch_shown(
            instance,
            reported,
            Some(a),
            commanded,
        ) == Some(false),
{
}

/// The power switch shows `on`, and `light_on`, reports and commands do not bear
/// on it. A reported integer decides for any other control.
pub proof fn law_what_the_power_switch_and_integers_show(
    instance: Seq<char>,
    reported: Option<ReportedValue>,
    state: Option<DeviceState>,
    commanded: Option<bool>,
)
    ensures
        instance == "powerSwitch"@ && state is Some ==> switch_shown(
            instance,
            reported,
            state,
            commanded,
        ) == Some(state->0.on),
        instance == "powerSwitch"@ && state is None ==> switch_shown(
            instance,
            reported,
            state,
            commanded,
        ) is None,
        instance != "powerSwitch"@ ==> (reported matches Some(ReportedValue::Integer(n))
            ==> switch_shown(instance, reported, state, commanded) == Some(n != 0)),
{
}

/// What is published of the power switch: ON or OFF as the device is, on the
/// switch's own topic, and nothing where the state of the device is not known.
pub proof fn law_what_is_published_of_the_power_switch(
    device: ServiceDevice,
    state_topic: Seq<char>,
    update: SwitchUpdate,
)
    requires
        update@ == switch_update_of(state_topic, "powerSwitch"@, device),
    ensures
        device.device_state matches Some(state) ==> (update.report matches Some(report)
            && report.topic@ == state_topic && report.payload@ == if state.on {
            "ON"@
        } else {
            "OFF"@
        }),
        device.device_state is None ==> update.report is None,
        update.disregarded is None,
        !update.not_found,
{
    assert(update@.report is Some <==> update.report is Some);
}

/// What is published of any other switch: as the reported integer says, or else as
/// the light and the last command say, or else nothing.
pub proof fn law_what_is_published_of_a_zone(
    device: ServiceDevice,
    state_topic: Seq<char>,
    zone: Seq<char>,
    update: SwitchUpdate,
)
    requires
        zone != "powerSwitch"@,
        update@ == switch_update_of(state_topic, zone, device),
    ensures
        ({
            let integer = if device.state_capability(zone) is None {
                None
            } else if json_pointed(
                device.state_capability(zone)->0.state.text@,
                "/value"@,
            ) is None {
                None
            } else {
                json_integer(
                    json_pointed(device.state_capability(zone)->0.state.text@, "/value"@)->0,
                )
            };
            &&& integer matches Some(n) ==> (update.report matches Some(report) && report.topic@
                == state_topic && report.payload@ == if n == 0 {
                "OFF"@
            } else {
                "ON"@
            })
            &&& integer is None ==> (device.device_state matches Some(state) ==> (
            update.report matches Some(report) && report.topic@ == state_topic && report.payload@
                == if device.last_commanded(zone) != Some(false) && (state.light_on == Some(true)
                || state.light_on is None && state.on) {
                "ON"@
            } else {
                "OFF"@
            }))
            &&& integer is None && device.device_state is None ==> update.report is None
            &&& update.not_found <==> update.report is None
            &&& update.disregarded is Some <==> integer is None && device.state_capability(
                zone,
            ) is Some
            &&& update.disregarded is Some ==> {
                let found = json_pointed(
                    device.state_capability(zone)->0.state.text@,
                    "/value"@,
                );
                if found is Some && json_denotes_string(found->0, ""@) {
                    update.disregarded->0 is Empty
                } else {
                    update.disregarded->0 is Unknown
                }
            }
        }),
{
    assert(update@.report is Some <==> update.report is Some);
}

/// How an on/off command begins, for every payload.
pub proof fn law_how_an_on_off_command_begins(
    payload: Seq<char>,
    id: Seq<char>,
    action: FanAction<'static>,
)
    requires
        action@ == fan_command(payload, id).1,
    ensures
        payload == "ON"@ || payload == "on"@ ==> fan_command(payload, id).0 == (
        FanState::FindingClient { toggle: FanToggle::Power, on: true })
            && action is FindPlatformClient,
        payload == "OFF"@ || payload == "off"@ ==> fan_command(payload, id).0 == (
        FanState::FindingClient { toggle: FanToggle::Power, on: false })
            && action is FindPlatformClient,
        payload != "ON"@ && payload != "on"@ && payload != "OFF"@ && payload != "off"@ ==> {
            &&& fan_command(payload, id).0 is Over
            &&& action matches FanAction::Fail { error } && (error matches FanError::InvalidCommand {
                command,
                id: named,
            } && command@ == payload && named@ == id)
        },
{
    reveal_strlit("ON");
    reveal_strlit("on");
    reveal_strlit("OFF");
    reveal_strlit("off");
    assert("ON"@.len() == 2 && "on"@.len() == 2 && "OFF"@.len() == 3 && "off"@.len() == 3);
}

/// How a direction command begins, for every payload.
pub proof fn law_how_a_direction_command_begins(
    payload: Seq<char>,
    id: Seq<char>,
    action: FanAction<'static>,
)
    requires
        action@ == fan_set_direction(payload, id).1,
    ensures
        payload == "forward"@ ==> fan_set_direction(payload, id).0 == (FanState::FindingClient {
            toggle: FanToggle::ReverseAirflow,
            on: false,
        }) && action is FindPlatformClient,
        payload == "reverse"@ ==> fan_set_direction(payload, id).0 == (FanState::FindingClient {
            toggle: FanToggle::ReverseAirflow,
            on: true,
        }) && action is FindPlatformClient,
        payload != "forward"@ && payload != "reverse"@ ==> {
            &&& fan_set_direction(payload, id).0 is Over
            &&& action matches FanAction::Fail { error } && (
            error matches FanError::InvalidDirection { direction, id: named } && direction@
                == payload && named@ == id)
        },
{
    reveal_strlit("forward");
    reveal_strlit("reverse");
    assert("forward"@[0] == 'f' && "reverse"@[0] == 'r');
}

/// How a speed command begins, for every speed.
pub proof fn law_how_a_speed_command_begins(
    device: ServiceDevice,
    speed: i64,
    action: FanAction<'static>,
)
    requires
        action@ == fan_set_percentage(speed, device).1,
    ensures
        speed == 0 ==> fan_set_percentage(speed, device).0 == (FanState::FindingClient {
            toggle: FanToggle::Power,
            on: false,
        }) && action is FindPlatformClient,
        speed != 0 ==> (device.capability("fanSpeedMode"@) matches Some(mode) ==> {
            &&& fan_set_percentage(speed, device).0 is SettingSpeed
            &&& action matches FanAction::ControlDevice { capability, value } && *capability
                == mode && value == speed
        }),
        speed != 0 && device.capability("fanSpeedMode"@) is None ==> {
            &&& fan_set_percentage(speed, device).0 is Over
            &&& action matches FanAction::Fail { error } && (error matches FanError::NoSpeedMode {
                device: label,
            } && label@ == device.label@)
        },
{
}

/// The capability behind each toggle of a fan.
pub proof fn law_the_capabilities_behind_the_toggles(toggle: FanToggle)
    ensures
        toggle is Power ==> toggle_instance(toggle) == "fanToggle"@,
        toggle is ReverseAirflow ==> toggle_instance(toggle) == "reverseAirflowToggle"@,
{
}

/// How a toggle is switched, whether or not there is a client and whether or not
/// the platform API has described the device.
pub proof fn law_how_a_toggle_is_switched(
    device: ServiceDevice,
    toggle: FanToggle,
    on: bool,
    action: FanAction<'static>,
    client_found: bool,
)
    requires
        action@ == toggle_call(client_found, device, toggle, on).1,
    ensures
        !client_found ==> {
            &&& toggle_call(client_found, device, toggle, on).0 is Over
            &&& action matches FanAction::Fail { error } && (
            error matches FanError::NoPlatformClient { toggle: t } && t == toggle)
        },
        client_found ==> (device.http_device_info matches Some(metadata) ==> {
            &&& toggle_call(client_found, device, toggle, on).0 is SettingToggle
            &&& action matches FanAction::SetToggleState { info, toggle: t, on: o } && *info
                == metadata && t == toggle && o == on
        }),
        client_found && device.http_device_info is None ==> {
            &&& toggle_call(client_found, device, toggle, on).0 is Over
            &&& action matches FanAction::Fail { error } && (
            error matches FanError::NoPlatformMetadata { device: label, toggle: t } && label@
                == device.label@ && t == toggle)
        },
{
}

/// How a command goes on, in every state and after every event.
pub proof fn law_how_a_command_goes_on(
    device: ServiceDevice,
    state: FanState,
    event: FanEvent,
    action: FanAction<'static>,
)
    requires
        action@ == fan_advance(state, event, device).1,
    ensures
        ({
            let next = fan_advance(state, event, device).0;
            &&& state is SettingSpeed && event is Succeeded ==> next == (FanState::FindingClient {
                toggle: FanToggle::Power,
                on: true,
            }) && action is FindPlatformClient
            &&& state is SettingToggle && event is Succeeded ==> next is Over && action is Finish
            &&& (state is SettingSpeed || state is SettingToggle) && event is Failed
                ==> next is Over && action is Abandon
            &&& state is Over ==> next is Over && action is Finish
            &&& state matches FanState::FindingClient { toggle, on } ==> {
                &&& event is Failed ==> next is Over && (action matches FanAction::Fail { error }
                    && (error matches FanError::NoPlatformClient { toggle: t } && t == toggle))
                &&& event is Succeeded ==> (device.http_device_info matches Some(metadata)
                    ==> next is SettingToggle && (action matches FanAction::SetToggleState {
                    info,
                    toggle: t,
                    on: o,
                } && *info == metadata && t == toggle && o == on))
                &&& event is Succeeded && device.http_device_info is None ==> next is Over && (
                action matches FanAction::Fail { error } && (
                error matches FanError::NoPlatformMetadata { device: label, toggle: t } && label@
                    == device.label@ && t == toggle))
            }
        }),
{
}

/// Switching a toggle goes the same way whether it is asked for by itself or comes
/// up in the course of a command.
pub proof fn law_toggles_are_switched_in_one_way(
    device: ServiceDevice,
    toggle: FanToggle,
    on: bool,
)
    ensures
        fan_advance(
            FanState::FindingClient { toggle, on },
            FanEvent::Succeeded,
            device,
        ) == toggle_call(true, device, toggle, on),
        fan_advance(
            FanState::FindingClient { toggle, on },
            FanEvent::Failed,
            device,
        ) == toggle_call(false, device, toggle, on),
{
}

/// What each error says.
pub proof fn law_what_each_error_says(error: FanError)
    ensures
        error matches FanError::InvalidCommand { command, id } ==> error_message(error@)
            == "invalid fan command "@ + command@ + " for "@ + id@,
        error matches FanError::InvalidDirection { direction, id } ==> error_message(error@)
            == "invalid fan direction "@ + direction@ + " for "@ + id@,
        error matches FanError::NoSpeedMode { device } ==> error_message(error@) == device@
            + " has no "@ + "fanSpeedMode"@,
        error matches FanError::NoPlatformClient { toggle } ==> error_message(error@)
            == "no platform API client available to set "@ + if toggle is Power {
            "fanToggle"@
        } else {
            "reverseAirflowToggle"@
        },
        error matches FanError::NoPlatformMetadata { device, toggle } ==> error_message(error@)
            == "no platform metadata for "@ + device@ + ", cannot set "@ + if toggle is Power {
            "fanToggle"@
        } else {
            "reverseAirflowToggle"@
        },
{
}

/// How the texts that a report may hold are written: integers digit by digit,
/// strings in quotes, and an object with its one member in braces.
pub proof fn law_how_reports_are_written(n: int, d: int, s: Seq<char>, key: Seq<char>)
    requires
        0 <= d < 10,
    ensures
        decimal(d) == seq!["0123456789"@[d]],
        n > 0 ==> decimal(10 * n + d) == decimal(n) + decimal(d),
        n > 0 ==> decimal(-n) == "-"@ + decimal(n),
        quoted(s) == "\""@ + s + "\""@,
        one_member(key, s) == "{"@ + quoted(key) + ":"@ + s + "}"@,
{
    reveal_strlit("0123456789");
    reveal_strlit("-");
    reveal_strlit("\"");
    reveal_strlit("{");
    reveal_strlit(":");
    reveal_strlit("}");
    assert(digits(d as nat) == seq!["0123456789"@[d]]);
    if n > 0 {
        let m = (10 * n + d) as nat;
        assert(m / 10 == n && m % 10 == d);
        assert(decimal(10 * n + d) == digits(n as nat).push("0123456789"@[d]));
        assert(decimal(10 * n + d) == decimal(n) + decimal(d));
        assert("-"@ == seq!['-']);
    }
    assert("\""@ == seq!['"']);
    assert(one_member(key, s) == "{"@ + quoted(key) + ":"@ + s + "}"@);
}

/// Which texts are words of JSON, which strings and keys stand for themselves, and
/// which texts are no object with members.
pub proof fn law_what_json_texts_are(text: Seq<char>)
    ensures
        is_json_word(text) <==> text == "true"@ || text == "false"@ || text == "null"@,
        is_plain_string(text) <==> forall|i: int|
            0 <= i < text.len() ==> 32 <= (#[trigger] text[i]) as int <= 126 && text[i] as int != 34
                && text[i] as int != 92,
        is_plain_key(text) <==> forall|i: int|
            0 <= i < text.len() ==> 97 <= (#[trigger] text[i]) as int <= 122,
        value_key() == "value"@,
        begins_like_text(text) <==> text.len() > 0 && "\"tfn"@.contains(text[0]),
        begins_like_collection(text) <==> text.len() > 0 && "[{"@.contains(text[0]),
        begins_like_number(text) <==> text.len() > 0 && "-0123456789"@.contains(text[0]),
        has_no_members(text) <==> text == "{}"@ || text.len() > 0
            && "\"tfn[-0123456789"@.contains(text[0]),
{
    reveal_strlit("true");
    reveal_strlit("false");
    reveal_strlit("null");
    reveal_strlit("value");
    reveal_strlit("\"tfn");
    reveal_strlit("[{");
    reveal_strlit("-0123456789");
    reveal_strlit("{}");
    reveal_strlit("\"tfn[-0123456789");
    assert("true"@ == seq!['t', 'r', 'u', 'e']);
    assert("false"@ == seq!['f', 'a', 'l', 's', 'e']);
    assert("null"@ == seq!['n', 'u', 'l', 'l']);
    assert("value"@ == value_key());
    assert("\"tfn"@ == seq!['"', 't', 'f', 'n']);
    assert("[{"@ == seq!['[', '{']);
    assert("{}"@ == seq!['{', '}']);
    assert("-0123456789"@ == seq!['-', '0', '1', '2', '3', '4', '5', '6', '7', '8', '9']);
    let other = seq!['"', 't', 'f', 'n', '[', '-', '0', '1', '2', '3', '4', '5', '6', '7', '8', '9'];
    assert("\"tfn[-0123456789"@ == other);
    if text.len() > 0 {
        let c = text[0];
        lemma_one_of_four('"', 't', 'f', 'n', c);
        lemma_sign_or_digit(c);
        assert(seq!['[', '{'][0] == '[' && seq!['[', '{'][1] == '{');
        lemma_no_object(c);
    }
}

/// What is among four characters.
proof fn lemma_one_of_four(p: char, q: char, r: char, s: char, c: char)
    ensures
        seq![p, q, r, s].contains(c) <==> c == p || c == q || c == r || c == s,
{
    let all = seq![p, q, r, s];
    assert(all[0] == p && all[1] == q && all[2] == r && all[3] == s);
}

/// What is a minus sign or a digit.
proof fn lemma_sign_or_digit(c: char)
    ensures
        seq!['-', '0', '1', '2', '3', '4', '5', '6', '7', '8', '9'].contains(c) <==> c == '-' || '0'
            <= c && c <= '9',
{
    let all = seq!['-', '0', '1', '2', '3', '4', '5', '6', '7', '8', '9'];
    assert(all[0] == '-');
    if '0' <= c && c <= '9' {
        let i = c as int - '0' as int + 1;
        assert(all[i] == c);
    }
}

/// What an object cannot begin with.
proof fn lemma_no_object(c: char)
    ensures
        seq!['"', 't', 'f', 'n', '[', '-', '0', '1', '2', '3', '4', '5', '6', '7', '8', '9'].contains(
            c,
        ) <==> c == '"' || c == 't' || c == 'f' || c == 'n' || c == '[' || c == '-' || '0' <= c
            && c <= '9',
{
    let all = seq!['"', 't', 'f', 'n', '[', '-', '0', '1', '2', '3', '4', '5', '6', '7', '8', '9'];
    assert(all[0] == '"' && all[1] == 't' && all[2] == 'f' && all[3] == 'n' && all[4] == '['
        && all[5] == '-');
    if '0' <= c && c <= '9' {
        let i = c as int - '0' as int + 6;
        assert(all[i] == c);
    }
}

} // verus!
