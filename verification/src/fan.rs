//! The fan entity, for devices that have a fan.
use crate::device::{DeviceParameters, EnumOption, ServiceDevice};
use crate::entity::{plain_entity, EntityConfig, EntityConfigView};
use crate::json::{
    as_i64, begins_like_collection, begins_like_text, decimal, json_integer,
};
use crate::search::{lemma_filter_same, lemma_push_contains};
use crate::text::{fold_ascii_case, join3, optional_text};
use vstd::prelude::*;

verus! {

/// Govee describes the fan portion of a device through these capability
/// instances. They are consistent across the ceiling fan line, and such devices
/// are reported as lights, so that neither the SKU nor the device type tells
/// whether there is a fan.
pub const FAN_TOGGLE: &'static str = "fanToggle";

pub const FAN_SPEED_MODE: &'static str = "fanSpeedMode";

pub const REVERSE_AIRFLOW_TOGGLE: &'static str = "reverseAirflowToggle";

/// The configuration that announces a fan.
/// <https://www.home-assistant.io/integrations/fan.mqtt>
#[derive(Clone, Debug)]
pub struct FanConfig {
    pub base: EntityConfig,
    /// Home Assistant publishes ON/OFF here to start and stop the fan.
    pub command_topic: String,
    /// Home Assistant publishes the speed here, as a value in
    /// `speed_range_min..=speed_range_max`.
    pub percentage_command_topic: Option<String>,
    pub speed_range_min: Option<i64>,
    pub speed_range_max: Option<i64>,
    /// Home Assistant publishes `forward` or `reverse` here.
    pub direction_command_topic: Option<String>,
    /// Govee returns an empty string for the state of every fan capability, even
    /// immediately after a control call it reported as successful, so there is
    /// nothing to publish back. The entity runs optimistically: Home Assistant
    /// tracks what it last asked for.
    /// <https://developer.govee.com/discuss/6596e84c901fb900312d5968>
    pub optimistic: bool,
}

/// The contents of a `FanConfig`.
#[verifier::ext_equal]
pub struct FanConfigView {
    pub base: EntityConfigView,
    pub command_topic: Seq<char>,
    pub percentage_command_topic: Option<Seq<char>>,
    pub speed_range_min: Option<i64>,
    pub speed_range_max: Option<i64>,
    pub direction_command_topic: Option<Seq<char>>,
    pub optimistic: bool,
}

impl View for FanConfig {
    type V = FanConfigView;

    open spec fn view(&self) -> FanConfigView {
        FanConfigView {
            base: self.base@,
            command_topic: self.command_topic@,
            percentage_command_topic: optional_text(self.percentage_command_topic),
            speed_range_min: self.speed_range_min,
            speed_range_max: self.speed_range_max,
            direction_command_topic: optional_text(self.direction_command_topic),
            optimistic: self.optimistic,
        }
    }
}

/// A fan entity.
#[derive(Clone, Debug)]
pub struct Fan {
    pub fan: FanConfig,
}

/// `lowest` is among `values`, and no number among them is less.
pub open spec fn is_least(values: Seq<Option<i64>>, lowest: i64) -> bool {
    &&& values.contains(Some(lowest))
    &&& forall|i: int|
        0 <= i < values.len() ==> (#[trigger] values[i] matches Some(v) ==> lowest <= v)
}

/// `highest` is among `values`, and no number among them is greater.
pub open spec fn is_greatest(values: Seq<Option<i64>>, highest: i64) -> bool {
    &&& values.contains(Some(highest))
    &&& forall|i: int|
        0 <= i < values.len() ==> (#[trigger] values[i] matches Some(v) ==> v <= highest)
}

/// All numbers among `values` are the same, if there are any.
pub open spec fn no_two_differ(values: Seq<Option<i64>>) -> bool {
    forall|i: int, j: int|
        0 <= i < values.len() && 0 <= j < values.len() ==> (
        #[trigger] values[i] matches Some(a) ==> #[trigger] values[j] matches Some(b) ==> a == b)
}

/// `range` holds the least and the greatest number among `values`, or nothing
/// where no two numbers differ.
pub open spec fn is_range_of(values: Seq<Option<i64>>, range: Option<(i64, i64)>) -> bool {
    match range {
        Some((lowest, highest)) => {
            &&& lowest < highest
            &&& is_least(values, lowest)
            &&& is_greatest(values, highest)
        },
        None => no_two_differ(values),
    }
}

/// The range of the numbers among `values`.
pub open spec fn range_of(values: Seq<Option<i64>>) -> Option<(i64, i64)> {
    choose|range: Option<(i64, i64)>| is_range_of(values, range)
}

/// A sequence has at most one range.
pub proof fn lemma_range_unique(
    values: Seq<Option<i64>>,
    a: Option<(i64, i64)>,
    b: Option<(i64, i64)>,
)
    requires
        is_range_of(values, a),
        is_range_of(values, b),
    ensures
        a == b,
{
    lemma_range_occurs(values, a);
    lemma_range_occurs(values, b);
}

/// The ends of a range stand somewhere in the sequence.
proof fn lemma_range_occurs(values: Seq<Option<i64>>, range: Option<(i64, i64)>)
    requires
        is_range_of(values, range),
    ensures
        range matches Some((lowest, highest)) ==> exists|i: int, j: int|
            0 <= i < values.len() && 0 <= j < values.len() && #[trigger] values[i] == Some(lowest)
                && #[trigger] values[j] == Some(highest),
{
    if let Some((lowest, highest)) = range {
        let i = choose|i: int| 0 <= i < values.len() && values[i] == Some(lowest);
        let j = choose|j: int| 0 <= j < values.len() && values[j] == Some(highest);
        assert(values[i] == Some(lowest) && values[j] == Some(highest));
    }
}

/// The least and the greatest number among `values`, if they differ. A single
/// speed is not a range worth showing a slider for.
pub fn speed_bounds(values: &Vec<Option<i64>>) -> (range: Option<(i64, i64)>)
    ensures
        is_range_of(values@, range),
        range == range_of(values@),
        match range {
            Some((lowest, highest)) => {
                &&& lowest < highest
                &&& values@.contains(Some(lowest))
                &&& values@.contains(Some(highest))
                &&& forall|i: int|
                    0 <= i < values@.len() ==> (#[trigger] values@[i] matches Some(v) ==> lowest <= v
                        <= highest)
            },
            None => forall|i: int, j: int|
                0 <= i < values@.len() && 0 <= j < values@.len() ==> (
                #[trigger] values@[i] matches Some(a) ==> #[trigger] values@[j] matches Some(b)
                    ==> a == b),
        },
{
    let mut bounds: Option<(i64, i64)> = None;
    let mut i: usize = 0;
    while i < values.len()
        invariant
            i <= values.len(),
            match bounds {
                Some((lowest, highest)) => {
                    &&& is_least(values@.take(i as int), lowest)
                    &&& is_greatest(values@.take(i as int), highest)
                },
                None => forall|j: int| 0 <= j < i ==> #[trigger] values@[j] is None,
            },
        decreases values.len() - i,
    {
        let ghost before = values@.take(i as int);
        let ghost after = values@.take(i + 1);
        proof {
            let next = values@[i as int];
            assert(after == before.push(next));
            lemma_push_contains(before, next, next);
            if let Some((lowest, highest)) = bounds {
                lemma_push_contains(before, next, Some(lowest));
                lemma_push_contains(before, next, Some(highest));
            }
        }
        if let Some(value) = values[i] {
            let (lowest, highest) = match bounds {
                Some((lowest, highest)) => (
                    if value < lowest {
                        value
                    } else {
                        lowest
                    },
                    if highest < value {
                        value
                    } else {
                        highest
                    },
                ),
                None => (value, value),
            };
            bounds = Some((lowest, highest));
        }
        i += 1;
    }
    assert(values@.take(i as int) == values@);
    let range = match bounds {
        Some((lowest, highest)) => if lowest < highest {
            Some((lowest, highest))
        } else {
            None
        },
        None => None,
    };
    proof {
        assert(is_range_of(values@, range));
        lemma_range_unique(values@, range, range_of(values@));
    }
    range
}

/// Every sequence has a range.
pub proof fn lemma_range_exists(values: Seq<Option<i64>>)
    ensures
        is_range_of(values, range_of(values)),
{
    if no_two_differ(values) {
        assert(is_range_of(values, None));
    } else {
        let (i, j) = choose|i: int, j: int|
            0 <= i < values.len() && 0 <= j < values.len() && !(#[trigger] values[i] matches Some(
                a,
            ) ==> #[trigger] values[j] matches Some(b) ==> a == b);
        let a = values[i]->0;
        let b = values[j]->0;
        let lowest = lemma_least_exists(values, i);
        let highest = lemma_greatest_exists(values, i);
        assert(values[i] == Some(a) && values[j] == Some(b));
        assert(is_range_of(values, Some((lowest, highest))));
    }
}

/// A sequence that holds a number holds a least one.
proof fn lemma_least_exists(values: Seq<Option<i64>>, at: int) -> (lowest: i64)
    requires
        0 <= at < values.len(),
        values[at] is Some,
    ensures
        is_least(values, lowest),
    decreases values[at]->0 - i64::MIN,
{
    let here = values[at]->0;
    if is_least(values, here) {
        here
    } else {
        assert(values[at] == Some(here));
        let i = choose|i: int|
            0 <= i < values.len() && !(#[trigger] values[i] matches Some(v) ==> here <= v);
        lemma_least_exists(values, i)
    }
}

/// A sequence that holds a number holds a greatest one.
proof fn lemma_greatest_exists(values: Seq<Option<i64>>, at: int) -> (highest: i64)
    requires
        0 <= at < values.len(),
        values[at] is Some,
    ensures
        is_greatest(values, highest),
    decreases i64::MAX - values[at]->0,
{
    let here = values[at]->0;
    if is_greatest(values, here) {
        here
    } else {
        assert(values[at] == Some(here));
        let i = choose|i: int|
            0 <= i < values.len() && !(#[trigger] values[i] matches Some(v) ==> v <= here);
        lemma_greatest_exists(values, i)
    }
}

/// The named speeds of the device's fan, where it reports any.
pub open spec fn speed_options_of(device: ServiceDevice) -> Option<Seq<EnumOption>> {
    match device.capability(FAN_SPEED_MODE@) {
        Some(capability) => match capability.parameters {
            Some(DeviceParameters::Enum { options }) => Some(options@),
            _ => None,
        },
        None => None,
    }
}

/// The named speeds of the device's fan, where it reports any.
fn speed_options(device: &ServiceDevice) -> (options: Option<&Vec<EnumOption>>)
    ensures
        (match options {
            Some(options) => Some(options@),
            None => None,
        }) == speed_options_of(*device),
{
    match device.get_capability_by_instance(FAN_SPEED_MODE) {
        Some(capability) => match &capability.parameters {
            Some(DeviceParameters::Enum { options }) => Some(options),
            _ => None,
        },
        None => None,
    }
}

/// The number that each option stands for, where it stands for one.
pub open spec fn option_numbers(options: Seq<EnumOption>) -> Seq<Option<i64>> {
    options.map_values(|option: EnumOption| json_integer(option.value@))
}

/// The lowest and the highest speed that the device accepts.
pub open spec fn speed_range_of(device: ServiceDevice) -> Option<(i64, i64)> {
    match speed_options_of(device) {
        Some(options) => range_of(option_numbers(options)),
        None => None,
    }
}

/// What the range of the numbers that `options` stand for says of each of them.
pub proof fn lemma_range_of_options(options: Seq<EnumOption>, range: Option<(i64, i64)>)
    requires
        is_range_of(option_numbers(options), range),
    ensures
        match range {
            Some((lowest, highest)) => {
                &&& lowest < highest
                &&& exists|i: int|
                    0 <= i < options.len() && json_integer((#[trigger] options[i]).value.text@)
                        == Some(lowest)
                &&& exists|i: int|
                    0 <= i < options.len() && json_integer((#[trigger] options[i]).value.text@)
                        == Some(highest)
                &&& forall|i: int|
                    0 <= i < options.len() ==> (json_integer(
                        (#[trigger] options[i]).value.text@,
                    ) matches Some(n) ==> lowest <= n <= highest)
            },
            None => forall|i: int, j: int|
                0 <= i < options.len() && 0 <= j < options.len() ==> (json_integer(
                    (#[trigger] options[i]).value.text@,
                ) matches Some(a) ==> json_integer(
                    (#[trigger] options[j]).value.text@,
                ) matches Some(b) ==> a == b),
        },
{
    let numbers = option_numbers(options);
    assert(numbers.len() == options.len());
    assert forall|i: int| 0 <= i < options.len() implies numbers[i] == json_integer(
        (#[trigger] options[i]).value.text@,
    ) by {}
    if let Some((lowest, highest)) = range {
        let p = choose|p: int| 0 <= p < numbers.len() && numbers[p] == Some(lowest);
        let q = choose|q: int| 0 <= q < numbers.len() && numbers[q] == Some(highest);
        assert(json_integer(options[p].value.text@) == Some(lowest));
        assert(json_integer(options[q].value.text@) == Some(highest));
    } else {
        assert forall|i: int, j: int|
            0 <= i < options.len() && 0 <= j < options.len() implies (json_integer(
            (#[trigger] options[i]).value.text@,
        ) matches Some(a) ==> json_integer((#[trigger] options[j]).value.text@) matches Some(b)
            ==> a == b) by {
            assert(numbers[i] == json_integer(options[i].value.text@));
            assert(numbers[j] == json_integer(options[j].value.text@));
        }
    }
}

/// Resolves the lowest and the highest speed that the device accepts for
/// `fanSpeedMode`. Govee reports these as an enum of named options such as
/// `Speed 1` through `Speed 6`; Home Assistant wants the numeric bounds so that
/// it can map its percentage slider onto them.
pub fn speed_range(device: &ServiceDevice) -> (range: Option<(i64, i64)>)
    ensures
        range == speed_range_of(*device),
        speed_options_of(*device) is None ==> range is None,
        speed_options_of(*device) matches Some(options) ==> is_range_of(
            option_numbers(options),
            range,
        ),
        // An option whose value is written in decimal stands for that number.
        speed_options_of(*device) matches Some(options) ==> forall|i: int, n: i64|
            0 <= i < options.len() && options[i].value@ == #[trigger] decimal(n as int)
                ==> #[trigger] option_numbers(options)[i] == Some(n),
        // An option with a string, a word, an array or an object for its value
        // stands for none.
        speed_options_of(*device) matches Some(options) ==> forall|i: int|
            0 <= i < options.len() && (begins_like_text(options[i].value@)
                || begins_like_collection(options[i].value@)) ==> #[trigger] option_numbers(
                options,
            )[i] is None,
        // The least and the greatest of the integers that the options hold, if two
        // of them differ, whatever else the device can do.
        match device.capability("fanSpeedMode"@) {
            Some(capability) => match capability.parameters {
                Some(DeviceParameters::Enum { options }) => match range {
                    Some((lowest, highest)) => {
                        &&& lowest < highest
                        &&& exists|i: int|
                            0 <= i < options@.len() && json_integer(
                                (#[trigger] options@[i]).value.text@,
                            ) == Some(lowest)
                        &&& exists|i: int|
                            0 <= i < options@.len() && json_integer(
                                (#[trigger] options@[i]).value.text@,
                            ) == Some(highest)
                        &&& forall|i: int|
                            0 <= i < options@.len() ==> (json_integer(
                                (#[trigger] options@[i]).value.text@,
                            ) matches Some(n) ==> lowest <= n <= highest)
                    },
                    None => forall|i: int, j: int|
                        0 <= i < options@.len() && 0 <= j < options@.len() ==> (json_integer(
                            (#[trigger] options@[i]).value.text@,
                        ) matches Some(a) ==> json_integer(
                            (#[trigger] options@[j]).value.text@,
                        ) matches Some(b) ==> a == b),
                },
                _ => range is None,
            },
            None => range is None,
        },
{
    let options = match speed_options(device) {
        Some(options) => options,
        None => {
            return None;
        },
    };
    let mut values: Vec<Option<i64>> = Vec::new();
    let mut i: usize = 0;
    while i < options.len()
        invariant
            i <= options.len(),
            values@ == option_numbers(options@.take(i as int)),
            forall|j: int, n: i64|
                0 <= j < i && options@[j].value@ == #[trigger] decimal(n as int)
                    ==> #[trigger] values@[j] == Some(n),
            forall|j: int|
                0 <= j < i && (begins_like_text(options@[j].value@) || begins_like_collection(
                    options@[j].value@,
                )) ==> #[trigger] values@[j] is None,
        decreases options.len() - i,
    {
        values.push(as_i64(&options[i].value.text));
        i += 1;
        assert(values@ == option_numbers(options@.take(i as int)));
    }
    assert(options@.take(i as int) == options@);
    let range = speed_bounds(&values);
    proof {
        lemma_range_of_options(options@, range);
    }
    range
}

/// Whether a scene called `name` is one of the speeds `options`.
pub open spec fn is_speed_name(options: Seq<EnumOption>, name: Seq<char>) -> bool {
    exists|i: int|
        0 <= i < options.len() && fold_ascii_case(#[trigger] options[i].name@) == fold_ascii_case(
            name,
        )
}

/// The scenes among `scenes` that are not fan speeds of the device.
pub open spec fn real_scenes(device: ServiceDevice, scenes: Seq<String>) -> Seq<String> {
    match speed_options_of(device) {
        Some(options) => scenes.filter(|scene: String| !is_speed_name(options, scene@)),
        None => scenes,
    }
}

/// Whether a scene called `name` is one of the speeds `options`.
fn matches_speed(options: &Vec<EnumOption>, name: &str) -> (matched: bool)
    ensures
        matched == is_speed_name(options@, name@),
{
    let mut i: usize = 0;
    while i < options.len()
        invariant
            i <= options.len(),
            forall|j: int|
                0 <= j < i ==> fold_ascii_case(#[trigger] options@[j].name@) != fold_ascii_case(
                    name@,
                ),
        decreases options.len() - i,
    {
        if options[i].name.as_str().eq_ignore_ascii_case(name) {
            assert(fold_ascii_case(options@[i as int].name@) == fold_ascii_case(name@));
            return true;
        }
        i += 1;
    }
    false
}

/// Govee ships the fan speeds of a ceiling fan in the same scene list that it
/// uses for light effects, so `Speed 1` through `Speed 6` turn up sorted in
/// among the real effects on the device's light entity. Drops any scene whose
/// name matches one of the device's own `fanSpeedMode` options.
///
/// Matching against the options the device reports, rather than against a
/// pattern like "Speed N", means a device with no fan keeps every scene it
/// reports, even one genuinely named `Speed 1`.
pub fn filter_fan_speed_scenes(device: &ServiceDevice, scenes: Vec<String>) -> (kept: Vec<String>)
    ensures
        kept@ == real_scenes(*device, scenes@),
        // Exactly the scenes that no option is named like, in their order.
        match device.capability("fanSpeedMode"@) {
            Some(capability) => match capability.parameters {
                Some(DeviceParameters::Enum { options }) => kept@ == scenes@.filter(
                    (|scene: String|
                        forall|i: int|
                            0 <= i < options@.len() ==> fold_ascii_case(
                                (#[trigger] options@[i]).name@,
                            ) != fold_ascii_case(scene@)),
                ),
                _ => kept@ == scenes@,
            },
            None => kept@ == scenes@,
        },
{
    let options = match speed_options(device) {
        Some(options) => options,
        None => {
            return scenes;
        },
    };
    let ghost keep = |scene: String| !is_speed_name(options@, scene@);
    let mut kept: Vec<String> = Vec::new();
    let mut i: usize = 0;
    while i < scenes.len()
        invariant
            i <= scenes.len(),
            keep == (|scene: String| !is_speed_name(options@, scene@)),
            kept@ == scenes@.take(i as int).filter(keep),
        decreases scenes.len() - i,
    {
        let ghost before = scenes@.take(i as int);
        proof {
            assert(scenes@.take(i + 1) == before.push(scenes@[i as int]));
            lemma_filter_step(before, keep, scenes@[i as int]);
        }
        if !matches_speed(options, &scenes[i]) {
            kept.push(scenes[i].clone());
        }
        i += 1;
    }
    assert(scenes@.take(i as int) == scenes@);
    proof {
        let unlike_all = |scene: String|
            forall|i: int|
                0 <= i < options@.len() ==> fold_ascii_case((#[trigger] options@[i]).name@)
                    != fold_ascii_case(scene@);
        lemma_filter_same(scenes@, keep, unlike_all);
    }
    kept
}

/// Filtering a sequence with one more element at its end.
proof fn lemma_filter_step<T>(s: Seq<T>, keep: spec_fn(T) -> bool, last: T)
    ensures
        s.push(last).filter(keep) == if keep(last) {
            s.filter(keep).push(last)
        } else {
            s.filter(keep)
        },
{
    reveal(Seq::filter);
    assert(s.push(last).drop_last() == s);
}

/// The topic of the fan of the device `id` on which `action` is asked for.
pub open spec fn fan_topic(id: Seq<char>, action: Seq<char>) -> Seq<char> {
    "gv2mqtt/fan/"@ + id + action
}

/// The announcement of the device's fan.
pub open spec fn fan_config_of(device: ServiceDevice) -> FanConfigView {
    let id = device.hass.topic_safe_id@;
    let range = speed_range_of(device);
    FanConfigView {
        base: plain_entity(device.hass, None, "gv2mqtt-"@ + id + "-fan"@),
        command_topic: fan_topic(id, "/command"@),
        percentage_command_topic: if range is Some {
            Some(fan_topic(id, "/set-percentage"@))
        } else {
            None
        },
        speed_range_min: match range {
            Some((lowest, _)) => Some(lowest),
            None => None,
        },
        speed_range_max: match range {
            Some((_, highest)) => Some(highest),
            None => None,
        },
        direction_command_topic: if device.capability(REVERSE_AIRFLOW_TOGGLE@) is Some {
            Some(fan_topic(id, "/set-direction"@))
        } else {
            None
        },
        optimistic: true,
    }
}

impl Fan {
    /// Builds a fan entity for devices that expose a fan, or `None` for
    /// everything else.
    pub fn for_device(device: &ServiceDevice) -> (fan: Option<Self>)
        ensures
            fan is Some <==> device.capability(FAN_TOGGLE@) is Some,
            fan matches Some(entity) ==> entity.fan@ == fan_config_of(*device),
            // The parts of a speed control come together, and the speeds in order.
            fan matches Some(entity) ==> match (
                entity.fan.speed_range_min,
                entity.fan.speed_range_max,
            ) {
                (Some(lowest), Some(highest)) => {
                    &&& lowest < highest
                    &&& entity.fan.percentage_command_topic is Some
                },
                (None, None) => entity.fan.percentage_command_topic is None,
                _ => false,
            },
            // Each part of the announcement.
            fan is Some <==> device.capability("fanToggle"@) is Some,
            fan matches Some(entity) ==> {
                &&& entity.fan.base.availability_topic@ == device.hass.availability_topic@
                &&& entity.fan.base.name is None
                &&& entity.fan.base.device_class is None
                &&& entity.fan.base.origin.text@ == device.hass.origin.text@
                &&& entity.fan.base.device.text@ == device.hass.device.text@
                &&& entity.fan.base.unique_id@ == "gv2mqtt-"@ + device.hass.topic_safe_id@
                    + "-fan"@
                &&& entity.fan.base.entity_category is None
                &&& entity.fan.base.icon is None
                &&& entity.fan.command_topic@ == "gv2mqtt/fan/"@ + device.hass.topic_safe_id@
                    + "/command"@
                &&& entity.fan.optimistic
            },
            fan matches Some(entity) ==> match speed_range_of(*device) {
                Some((lowest, highest)) => {
                    &&& entity.fan.speed_range_min == Some(lowest)
                    &&& entity.fan.speed_range_max == Some(highest)
                    &&& entity.fan.percentage_command_topic matches Some(topic) && topic@
                        == "gv2mqtt/fan/"@ + device.hass.topic_safe_id@ + "/set-percentage"@
                },
                None => {
                    &&& entity.fan.speed_range_min is None
                    &&& entity.fan.speed_range_max is None
                    &&& entity.fan.percentage_command_topic is None
                },
            },
            fan matches Some(entity) ==> match device.capability("reverseAirflowToggle"@) {
                Some(_) => entity.fan.direction_command_topic matches Some(topic) && topic@
                    == "gv2mqtt/fan/"@ + device.hass.topic_safe_id@ + "/set-direction"@,
                None => entity.fan.direction_command_topic is None,
            },
    {
        // Without an on/off toggle there is no fan to speak of, and none of the
        // other controls are reachable.
        if device.get_capability_by_instance(FAN_TOGGLE).is_none() {
            return None;
        }
        let id = device.hass.topic_safe_id.as_str();

        let (speed_range_min, speed_range_max, percentage_command_topic) = match speed_range(
            device,
        ) {
            Some((lowest, highest)) => (
                Some(lowest),
                Some(highest),
                Some(join3("gv2mqtt/fan/", id, "/set-percentage")),
            ),
            None => (None, None, None),
        };

        let direction_command_topic = if device.get_capability_by_instance(
            REVERSE_AIRFLOW_TOGGLE,
        ).is_some() {
            Some(join3("gv2mqtt/fan/", id, "/set-direction"))
        } else {
            None
        };

        Some(
            Fan {
                fan: FanConfig {
                    // No name, so that Home Assistant uses the device name and
                    // this becomes the primary fan entity for the device.
                    base: EntityConfig::plain(&device.hass, None, join3("gv2mqtt-", id, "-fan")),
                    command_topic: join3("gv2mqtt/fan/", id, "/command"),
                    percentage_command_topic,
                    speed_range_min,
                    speed_range_max,
                    direction_command_topic,
                    optimistic: true,
                },
            },
        )
    }
}

} // verus!
