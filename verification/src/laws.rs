//! What holds of the library as a whole.
use crate::device::{DeviceState, ServiceDevice};
use crate::fan::{
    fan_config_of, fan_topic, is_speed_name, lemma_range_exists, lemma_range_unique,
    option_numbers, range_of, real_scenes, speed_options_of, speed_range_of, FAN_SPEED_MODE,
    FAN_TOGGLE, REVERSE_AIRFLOW_TOGGLE,
};
use crate::fan_control::{
    begin_toggle, fan_advance, fan_command, fan_set_direction, fan_set_percentage, power_asked, reverse_asked,
    FanActionView, FanErrorView, FanEvent, FanState, FanToggle,
};
use crate::search::lemma_filter_contains;
use crate::switch::{
    light_shown, on_off, report_read, switch_config_of, switch_shown, switch_update_of,
    ReportedValue, POWER_SWITCH,
};
use crate::text::fold_ascii_case;
use vstd::prelude::*;

verus! {

/// A fan is announced with all three parts of a speed control or with none: the
/// topic, the lowest speed and the highest. The lowest is below the highest,
/// both are among the numbers that the device's options stand for, and all of
/// those lie between them.
pub proof fn law_speed_control_is_whole(device: ServiceDevice)
    ensures
        ({
            let config = fan_config_of(device);
            &&& config.percentage_command_topic is Some <==> config.speed_range_min is Some
            &&& config.speed_range_min is Some <==> config.speed_range_max is Some
            &&& config.speed_range_min matches Some(lowest)
                ==> config.speed_range_max matches Some(highest) ==> {
                &&& lowest < highest
                &&& speed_options_of(device) matches Some(options) && {
                    let numbers = option_numbers(options);
                    &&& numbers.contains(Some(lowest))
                    &&& numbers.contains(Some(highest))
                    &&& forall|i: int|
                        0 <= i < numbers.len() ==> (#[trigger] numbers[i] matches Some(n)
                            ==> lowest <= n <= highest)
                }
            }
        }),
{
    if let Some(options) = speed_options_of(device) {
        lemma_range_exists(option_numbers(options));
    }
}

/// A device whose options stand for fewer than two different numbers has no
/// speed range, and neither has one without such options.
pub proof fn law_no_range_without_two_speeds(device: ServiceDevice)
    requires
        speed_options_of(device) matches Some(options) ==> forall|i: int, j: int|
            0 <= i < options.len() && 0 <= j < options.len() ==> (
            #[trigger] option_numbers(options)[i] matches Some(a)
                ==> #[trigger] option_numbers(options)[j] matches Some(b) ==> a == b),
    ensures
        speed_range_of(device) is None,
{
    if let Some(options) = speed_options_of(device) {
        let numbers = option_numbers(options);
        lemma_range_exists(numbers);
        lemma_range_unique(numbers, range_of(numbers), None);
    }
}

/// The speed control that a fan is announced with is the device's speed range:
/// its ends and the topic for it, or nothing where there is no range.
pub proof fn law_speed_control_is_the_range(device: ServiceDevice)
    ensures
        ({
            let config = fan_config_of(device);
            match speed_range_of(device) {
                Some((lowest, highest)) => {
                    &&& config.speed_range_min == Some(lowest)
                    &&& config.speed_range_max == Some(highest)
                    &&& config.percentage_command_topic == Some(
                        "gv2mqtt/fan/"@ + device.hass.topic_safe_id@ + "/set-percentage"@,
                    )
                },
                None => {
                    &&& config.speed_range_min is None
                    &&& config.speed_range_max is None
                    &&& config.percentage_command_topic is None
                },
            }
        }),
{
}

/// Every number of `a` is also a number of `b`.
pub open spec fn numbers_within(a: Seq<Option<i64>>, b: Seq<Option<i64>>) -> bool {
    forall|n: i64| #[trigger] a.contains(Some(n)) ==> b.contains(Some(n))
}

/// More numbers never narrow a range, and never lose it.
pub proof fn law_more_numbers_never_narrow_the_range(a: Seq<Option<i64>>, b: Seq<Option<i64>>)
    requires
        numbers_within(a, b),
    ensures
        range_of(a) matches Some((l, h)) ==> (range_of(b) matches Some((l2, h2)) && l2 <= l && h
            <= h2),
{
    lemma_range_exists(a);
    lemma_range_exists(b);
    if let Some((l, h)) = range_of(a) {
        assert(a.contains(Some(l)) && a.contains(Some(h)));
        let i = choose|i: int| 0 <= i < b.len() && b[i] == Some(l);
        let j = choose|j: int| 0 <= j < b.len() && b[j] == Some(h);
        assert(b[i] == Some(l) && b[j] == Some(h));
    }
}

/// The range depends on which numbers occur, and not on their order or on how
/// often each is reported.
pub proof fn law_range_ignores_order(a: Seq<Option<i64>>, b: Seq<Option<i64>>)
    requires
        forall|n: i64| a.contains(Some(n)) <==> b.contains(Some(n)),
    ensures
        range_of(a) == range_of(b),
{
    law_more_numbers_never_narrow_the_range(a, b);
    law_more_numbers_never_narrow_the_range(b, a);
}

/// A device that accepts all speeds of another, and maybe more, has a range
/// wherever the other has one, and it spans the range of the other.
pub proof fn law_more_options_never_narrow_the_range(a: ServiceDevice, b: ServiceDevice)
    requires
        speed_options_of(a) is Some,
        speed_options_of(b) is Some,
        numbers_within(
            option_numbers(speed_options_of(a)->0),
            option_numbers(speed_options_of(b)->0),
        ),
    ensures
        speed_range_of(a) matches Some((l, h)) ==> (speed_range_of(b) matches Some((l2, h2)) && l2
            <= l && h <= h2),
{
    law_more_numbers_never_narrow_the_range(
        option_numbers(speed_options_of(a)->0),
        option_numbers(speed_options_of(b)->0),
    );
}

/// Two devices whose options stand for the same numbers have the same speed
/// range. The order, the repetition and the names of the options do not matter,
/// nor do options that stand for no number, nor anything else about the devices.
pub proof fn law_speed_range_depends_on_the_numbers(a: ServiceDevice, b: ServiceDevice)
    requires
        speed_options_of(a) is Some,
        speed_options_of(b) is Some,
        forall|n: i64|
            #[trigger] option_numbers(speed_options_of(a)->0).contains(Some(n)) <==> option_numbers(
                speed_options_of(b)->0,
            ).contains(Some(n)),
    ensures
        speed_range_of(a) == speed_range_of(b),
{
    law_range_ignores_order(
        option_numbers(speed_options_of(a)->0),
        option_numbers(speed_options_of(b)->0),
    );
}

/// Whether there is a fan, and what it offers, depends on the three capabilities
/// of a fan alone, and not on the SKU, the type, the name or the other
/// capabilities of the device. Between devices that Home Assistant is told to be
/// the same, the whole announcement is the same.
pub proof fn law_a_fan_is_what_its_capabilities_make_it(a: ServiceDevice, b: ServiceDevice)
    requires
        a.capability(FAN_TOGGLE@) == b.capability(FAN_TOGGLE@),
        a.capability(FAN_SPEED_MODE@) == b.capability(FAN_SPEED_MODE@),
        a.capability(REVERSE_AIRFLOW_TOGGLE@) == b.capability(REVERSE_AIRFLOW_TOGGLE@),
    ensures
        a.capability(FAN_TOGGLE@) is Some <==> b.capability(FAN_TOGGLE@) is Some,
        speed_range_of(a) == speed_range_of(b),
        ({
            let fan_a = fan_config_of(a);
            let fan_b = fan_config_of(b);
            &&& fan_a.speed_range_min == fan_b.speed_range_min
            &&& fan_a.speed_range_max == fan_b.speed_range_max
            &&& fan_a.percentage_command_topic is Some <==> fan_b.percentage_command_topic is Some
            &&& fan_a.direction_command_topic is Some <==> fan_b.direction_command_topic is Some
            &&& a.hass == b.hass ==> fan_a == fan_b
        }),
{
}

/// A device that reports no fan speeds keeps every scene, whatever its name.
pub proof fn law_no_fan_keeps_every_scene(device: ServiceDevice, scenes: Seq<String>)
    requires
        speed_options_of(device) is None,
    ensures
        real_scenes(device, scenes) == scenes,
{
}

/// Exactly the scenes that are named like one of the device's own fan speeds are
/// dropped.
pub proof fn law_only_speeds_are_dropped(device: ServiceDevice, scenes: Seq<String>, scene: String)
    ensures
        real_scenes(device, scenes).contains(scene) <==> scenes.contains(scene) && !(
        speed_options_of(device) matches Some(options) && is_speed_name(options, scene@)),
{
    if let Some(options) = speed_options_of(device) {
        lemma_filter_contains(scenes, |s: String| !is_speed_name(options, s@), scene);
    }
}

/// The scenes that stay keep their order: what is kept of two lists, one after
/// the other, is what is kept of the first and then of the second.
pub proof fn law_kept_scenes_keep_their_order(
    device: ServiceDevice,
    first: Seq<String>,
    second: Seq<String>,
)
    ensures
        real_scenes(device, first + second) == real_scenes(device, first) + real_scenes(
            device,
            second,
        ),
{
    if let Some(options) = speed_options_of(device) {
        Seq::filter_distributes_over_add(
            first,
            second,
            |s: String| !is_speed_name(options, s@),
        );
    }
}

/// Dropping the fan speeds a second time drops nothing more.
pub proof fn law_dropping_twice_is_dropping_once(device: ServiceDevice, scenes: Seq<String>)
    ensures
        real_scenes(device, real_scenes(device, scenes)) == real_scenes(device, scenes),
{
    if let Some(options) = speed_options_of(device) {
        let keep = |s: String| !is_speed_name(options, s@);
        let kept = scenes.filter(keep);
        broadcast use vstd::seq_lib::group_filter_ensures;

        lemma_filter_all(kept, keep);
    }
}

/// Whether a scene is dropped does not depend on the case of its ASCII letters.
pub proof fn law_scene_names_match_in_any_case(device: ServiceDevice, a: String, b: String)
    requires
        fold_ascii_case(a@) == fold_ascii_case(b@),
    ensures
        real_scenes(device, seq![a]).len() == real_scenes(device, seq![b]).len(),
{
    if let Some(options) = speed_options_of(device) {
        let keep = |s: String| !is_speed_name(options, s@);
        assert(keep(a) == keep(b));
        reveal_with_fuel(Seq::filter, 2);
        assert(seq![a].drop_last() == Seq::<String>::empty());
        assert(seq![b].drop_last() == Seq::<String>::empty());
    }
}

/// Filtering a sequence all of whose elements are kept.
proof fn lemma_filter_all<T>(s: Seq<T>, keep: spec_fn(T) -> bool)
    requires
        forall|i: int| 0 <= i < s.len() ==> keep(#[trigger] s[i]),
    ensures
        s.filter(keep) == s,
    decreases s.len(),
{
    reveal(Seq::filter);
    if s.len() > 0 {
        let rest = s.drop_last();
        assert forall|i: int| 0 <= i < rest.len() implies keep(#[trigger] rest[i]) by {
            assert(rest[i] == s[i]);
        }
        lemma_filter_all(rest, keep);
        assert(rest.push(s.last()) == s);
    }
}

/// One of the suffixes that tell a fan's topics apart.
pub open spec fn is_fan_topic_suffix(suffix: Seq<char>) -> bool {
    suffix == "/command"@ || suffix == "/set-percentage"@ || suffix == "/set-direction"@
}

/// A fan's topic tells which device and which action it is for: topics of two
/// devices differ, and so do the topics of one device.
pub proof fn law_fan_topic_tells_device_and_action(
    id_a: Seq<char>,
    suffix_a: Seq<char>,
    id_b: Seq<char>,
    suffix_b: Seq<char>,
)
    requires
        is_fan_topic_suffix(suffix_a),
        is_fan_topic_suffix(suffix_b),
        fan_topic(id_a, suffix_a) == fan_topic(id_b, suffix_b),
    ensures
        id_a == id_b,
        suffix_a == suffix_b,
{
    reveal_strlit("/command");
    reveal_strlit("/set-percentage");
    reveal_strlit("/set-direction");
    let a = fan_topic(id_a, suffix_a);
    let b = fan_topic(id_b, suffix_b);
    assert(a.last() == suffix_a.last());
    assert(b.last() == suffix_b.last());
    assert(suffix_a == suffix_b);
    lemma_same_middle("gv2mqtt/fan/"@, id_a, id_b, suffix_a);
}

/// Fans of devices with different identifiers have different unique ids.
pub proof fn law_fan_unique_ids_differ(a: ServiceDevice, b: ServiceDevice)
    requires
        fan_config_of(a).base.unique_id == fan_config_of(b).base.unique_id,
    ensures
        a.hass.topic_safe_id@ == b.hass.topic_safe_id@,
{
    lemma_same_middle("gv2mqtt-"@, a.hass.topic_safe_id@, b.hass.topic_safe_id@, "-fan"@);
}

/// Two switches of one device for different controls differ in their unique ids
/// and in their command topics, however they are named.
pub proof fn law_switches_of_a_device_differ(
    device: ServiceDevice,
    instance_a: Seq<char>,
    instance_b: Seq<char>,
    name_a: Seq<char>,
    name_b: Seq<char>,
    topic_a: Seq<char>,
    topic_b: Seq<char>,
)
    requires
        instance_a != instance_b,
    ensures
        ({
            let a = switch_config_of(device, instance_a, name_a, topic_a);
            let b = switch_config_of(device, instance_b, name_b, topic_b);
            &&& a.base.unique_id != b.base.unique_id
            &&& a.command_topic != b.command_topic
        }),
{
    let id = device.hass.topic_safe_id@;
    let unique = "gv2mqtt-"@ + id + "-"@;
    let command = "gv2mqtt/switch/"@ + id + "/command/"@;
    if unique + instance_a == unique + instance_b {
        lemma_same_end(unique, instance_a, instance_b);
    }
    if command + instance_a == command + instance_b {
        lemma_same_end(command, instance_a, instance_b);
    }
}

/// Texts that are equal behind the same beginning.
proof fn lemma_same_end(before: Seq<char>, a: Seq<char>, b: Seq<char>)
    requires
        before + a == before + b,
    ensures
        a == b,
{
    let left = before + a;
    let right = before + b;
    assert(left.len() == before.len() + a.len());
    assert(right.len() == before.len() + b.len());
    assert forall|i: int| 0 <= i < a.len() implies a[i] == b[i] by {
        assert(left[before.len() + i] == a[i]);
        assert(right[before.len() + i] == b[i]);
    }
    assert(a == b);
}

/// Texts that are equal between the same beginning and the same end.
proof fn lemma_same_middle(before: Seq<char>, a: Seq<char>, b: Seq<char>, after: Seq<char>)
    requires
        before + a + after == before + b + after,
    ensures
        a == b,
{
    let left = before + a + after;
    let right = before + b + after;
    assert(left.len() == right.len());
    assert forall|i: int| 0 <= i < a.len() implies a[i] == b[i] by {
        assert(left[before.len() + i] == a[i]);
        assert(right[before.len() + i] == b[i]);
    }
    assert(a == b);
}

/// The actions of a command that began with `begun`, where one action after the
/// other ends in the next of `events`.
pub open spec fn actions(
    begun: (FanState, FanActionView),
    events: Seq<FanEvent>,
    device: ServiceDevice,
) -> Seq<FanActionView>
    decreases events.len(),
{
    if events.len() == 0 {
        seq![begun.1]
    } else {
        seq![begun.1] + actions(
            fan_advance(begun.0, events[0], device),
            events.drop_first(),
            device,
        )
    }
}

/// The state of a command that began with `begun`, after `events`.
pub open spec fn state_after(
    begun: (FanState, FanActionView),
    events: Seq<FanEvent>,
    device: ServiceDevice,
) -> FanState
    decreases events.len(),
{
    if events.len() == 0 {
        begun.0
    } else {
        state_after(fan_advance(begun.0, events[0], device), events.drop_first(), device)
    }
}

/// `n` actions that all succeed.
pub open spec fn all_succeed(n: nat) -> Seq<FanEvent> {
    Seq::new(n, |i: int| FanEvent::Succeeded)
}

/// Where `n + 1` actions succeed, `n` succeed after the first.
proof fn lemma_all_succeed_step(n: nat)
    ensures
        all_succeed(n + 1).drop_first() == all_succeed(n),
{
}

/// An on/off payload switches the fan of a device that the platform API has
/// described, and a direction payload its airflow, where nothing fails: the
/// client is found, the toggle is set as asked, and that is all.
pub proof fn law_toggles_are_set_as_asked(
    device: ServiceDevice,
    payload: Seq<char>,
    id: Seq<char>,
)
    requires
        device.http_device_info is Some,
    ensures
        power_asked(payload) matches Some(on) ==> actions(
            fan_command(payload, id),
            all_succeed(2),
            device,
        ) == seq![
            FanActionView::FindPlatformClient,
            FanActionView::SetToggleState {
                info: device.http_device_info->0,
                toggle: FanToggle::Power,
                on,
            },
            FanActionView::Finish,
        ],
        reverse_asked(payload) matches Some(on) ==> actions(
            fan_set_direction(payload, id),
            all_succeed(2),
            device,
        ) == seq![
            FanActionView::FindPlatformClient,
            FanActionView::SetToggleState {
                info: device.http_device_info->0,
                toggle: FanToggle::ReverseAirflow,
                on,
            },
            FanActionView::Finish,
        ],
{
    reveal_with_fuel(actions, 3);
    lemma_all_succeed_step(1);
    lemma_all_succeed_step(0);
}

/// Speed zero stops the fan, where nothing fails.
pub proof fn law_speed_zero_stops_the_fan(device: ServiceDevice)
    requires
        device.http_device_info is Some,
    ensures
        actions(fan_set_percentage(0, device), all_succeed(2), device) == seq![
            FanActionView::FindPlatformClient,
            FanActionView::SetToggleState {
                info: device.http_device_info->0,
                toggle: FanToggle::Power,
                on: false,
            },
            FanActionView::Finish,
        ],
{
    reveal_with_fuel(actions, 3);
    lemma_all_succeed_step(1);
    lemma_all_succeed_step(0);
}

/// Any other speed is handed to the device's speed control, and then the fan is
/// started, where nothing fails.
pub proof fn law_setting_a_speed_starts_the_fan(device: ServiceDevice, speed: i64)
    requires
        speed != 0,
        device.capability(FAN_SPEED_MODE@) is Some,
    ensures
        device.http_device_info is Some,
        actions(fan_set_percentage(speed, device), all_succeed(3), device) == seq![
            FanActionView::ControlDevice {
                capability: device.capability(FAN_SPEED_MODE@)->0,
                value: speed,
            },
            FanActionView::FindPlatformClient,
            FanActionView::SetToggleState {
                info: device.http_device_info->0,
                toggle: FanToggle::Power,
                on: true,
            },
            FanActionView::Finish,
        ],
{
    reveal_with_fuel(actions, 4);
    lemma_all_succeed_step(2);
    lemma_all_succeed_step(1);
    lemma_all_succeed_step(0);
}

/// Nothing more is asked for once a command is over.
pub proof fn law_over_is_over(
    action: FanActionView,
    events: Seq<FanEvent>,
    device: ServiceDevice,
    i: int,
)
    requires
        0 < i <= events.len(),
    ensures
        actions((FanState::Over, action), events, device).len() == events.len() + 1,
        actions((FanState::Over, action), events, device)[i] == FanActionView::Finish,
    decreases events.len(),
{
    let rest = events.drop_first();
    lemma_actions_len((FanState::Over, action), events, device);
    if i > 1 {
        law_over_is_over(FanActionView::Finish, rest, device, i - 1);
        assert(actions((FanState::Over, action), events, device)[i] == actions(
            (FanState::Over, FanActionView::Finish),
            rest,
            device,
        )[i - 1]);
    } else {
        assert(actions((FanState::Over, action), events, device)[1] == actions(
            (FanState::Over, FanActionView::Finish),
            rest,
            device,
        )[0]);
    }
}

/// There is one action to begin with, and one more for each event.
proof fn lemma_actions_len(
    begun: (FanState, FanActionView),
    events: Seq<FanEvent>,
    device: ServiceDevice,
)
    ensures
        actions(begun, events, device).len() == events.len() + 1,
        actions(begun, events, device)[0] == begun.1,
    decreases events.len(),
{
    if events.len() > 0 {
        lemma_actions_len(
            fan_advance(begun.0, events[0], device),
            events.drop_first(),
            device,
        );
    }
}

/// The action after the `i`th is the `i`th of the command from its second action
/// on.
proof fn lemma_actions_shift(
    begun: (FanState, FanActionView),
    events: Seq<FanEvent>,
    device: ServiceDevice,
    i: int,
)
    requires
        0 < i <= events.len(),
    ensures
        actions(begun, events, device)[i] == actions(
            fan_advance(begun.0, events[0], device),
            events.drop_first(),
            device,
        )[i - 1],
{
    lemma_actions_len(fan_advance(begun.0, events[0], device), events.drop_first(), device);
}

/// Every command is over after three actions at the most, however they go.
pub proof fn law_commands_come_to_an_end(
    begun: (FanState, FanActionView),
    events: Seq<FanEvent>,
    device: ServiceDevice,
)
    requires
        events.len() >= 3,
    ensures
        state_after(begun, events, device) == FanState::Over,
{
    reveal_with_fuel(state_after, 4);
    let one = fan_advance(begun.0, events[0], device);
    let two = fan_advance(one.0, events[1], device);
    let three = fan_advance(two.0, events[2], device);
    assert(events.drop_first()[0] == events[1]);
    assert(events.drop_first().drop_first()[0] == events[2]);
    assert(three.0 == FanState::Over);
    lemma_over_stays(three, events.drop_first().drop_first().drop_first(), device);
}

/// A command that is over stays so.
proof fn lemma_over_stays(
    begun: (FanState, FanActionView),
    events: Seq<FanEvent>,
    device: ServiceDevice,
)
    requires
        begun.0 == FanState::Over,
    ensures
        state_after(begun, events, device) == FanState::Over,
    decreases events.len(),
{
    if events.len() > 0 {
        lemma_over_stays(
            fan_advance(begun.0, events[0], device),
            events.drop_first(),
            device,
        );
    }
}

/// Whether `action` reaches the device or the platform API.
pub open spec fn reaches_out(action: FanActionView) -> bool {
    match action {
        FanActionView::ControlDevice { .. } => true,
        FanActionView::FindPlatformClient => true,
        FanActionView::SetToggleState { .. } => true,
        _ => false,
    }
}

/// A payload that is not understood, and a speed for a device without speed
/// control, are answered with an error, and nothing is asked of the device
/// or the platform API, however often one goes on.
pub proof fn law_refused_commands_touch_nothing(
    device: ServiceDevice,
    payload: Seq<char>,
    id: Seq<char>,
    speed: i64,
    events: Seq<FanEvent>,
    i: int,
)
    requires
        0 <= i <= events.len(),
    ensures
        power_asked(payload) is None ==> {
            let begun = fan_command(payload, id);
            &&& begun.1 == FanActionView::Fail {
                error: FanErrorView::InvalidCommand { command: payload, id },
            }
            &&& !reaches_out(actions(begun, events, device)[i])
        },
        reverse_asked(payload) is None ==> {
            let begun = fan_set_direction(payload, id);
            &&& begun.1 == FanActionView::Fail {
                error: FanErrorView::InvalidDirection { direction: payload, id },
            }
            &&& !reaches_out(actions(begun, events, device)[i])
        },
        speed != 0 && device.capability(FAN_SPEED_MODE@) is None ==> {
            let begun = fan_set_percentage(speed, device);
            &&& begun.1 == FanActionView::Fail {
                error: FanErrorView::NoSpeedMode { device: device.label@ },
            }
            &&& !reaches_out(actions(begun, events, device)[i])
        },
{
    let begun_command = fan_command(payload, id);
    let begun_direction = fan_set_direction(payload, id);
    let begun_speed = fan_set_percentage(speed, device);
    lemma_actions_len(begun_command, events, device);
    lemma_actions_len(begun_direction, events, device);
    lemma_actions_len(begun_speed, events, device);
    if i > 0 {
        law_over_is_over(begun_command.1, events, device, i);
        law_over_is_over(begun_direction.1, events, device, i);
        law_over_is_over(begun_speed.1, events, device, i);
    }
}

/// `done` is what a command that sets `toggle` to `on` may have done at `i`, as its
/// actions ended in `events`: the client is looked for; if it is found, the toggle
/// is set, if the platform API has described the device; and then the command ends
/// as that call did. The speed control is left alone, and so is any other toggle.
pub open spec fn only_sets_toggle(
    done: Seq<FanActionView>,
    events: Seq<FanEvent>,
    device: ServiceDevice,
    toggle: FanToggle,
    on: bool,
    i: int,
) -> bool {
    &&& !(done[i] is ControlDevice)
    &&& i == 0 ==> done[0] == FanActionView::FindPlatformClient
    &&& done[i] matches FanActionView::SetToggleState { info, toggle: t, on: o } ==> {
        &&& t == toggle
        &&& o == on
        &&& device.http_device_info == Some(info)
        &&& i == 1
        &&& events[0] == FanEvent::Succeeded
    }
    &&& i == 1 && events[0] == FanEvent::Failed ==> done[1] == FanActionView::Fail {
        error: FanErrorView::NoPlatformClient { toggle },
    }
    &&& i == 1 && events[0] == FanEvent::Succeeded && device.http_device_info is None ==> done[1]
        == FanActionView::Fail {
        error: FanErrorView::NoPlatformMetadata { device: device.label@, toggle },
    }
    &&& i == 1 && events[0] == FanEvent::Succeeded && device.http_device_info is Some
        ==> done[1] is SetToggleState
    &&& i == 2 && done[1] is SetToggleState ==> done[2] == if events[1] == FanEvent::Succeeded {
        FanActionView::Finish
    } else {
        FanActionView::Abandon
    }
    &&& i == 2 && !(done[1] is SetToggleState) ==> done[2] == FanActionView::Finish
    &&& i > 2 ==> done[i] == FanActionView::Finish
}

/// The course of a command that sets a toggle.
proof fn lemma_toggle_course(
    toggle: FanToggle,
    on: bool,
    events: Seq<FanEvent>,
    device: ServiceDevice,
    i: int,
)
    requires
        0 <= i <= events.len(),
    ensures
        only_sets_toggle(
            actions(begin_toggle(toggle, on), events, device),
            events,
            device,
            toggle,
            on,
            i,
        ),
{
    let begun = begin_toggle(toggle, on);
    lemma_actions_len(begun, events, device);
    if i > 0 {
        let one = fan_advance(begun.0, events[0], device);
        let after_one = events.drop_first();
        lemma_actions_shift(begun, events, device, 1);
        lemma_actions_shift(begun, events, device, i);
        lemma_actions_len(one, after_one, device);
        if i > 1 {
            let two = fan_advance(one.0, after_one[0], device);
            lemma_actions_shift(one, after_one, device, i - 1);
            lemma_actions_len(two, after_one.drop_first(), device);
            if i > 2 {
                law_over_is_over(two.1, after_one.drop_first(), device, i - 2);
            }
        }
    }
}

/// However its actions go, an on/off command does nothing to the fan but switch it
/// as asked, once, and only after the client was found. It leaves the speed and
/// the airflow alone, and it ends as the switching did.
pub proof fn law_on_off_commands_only_switch_the_fan(
    device: ServiceDevice,
    payload: Seq<char>,
    id: Seq<char>,
    events: Seq<FanEvent>,
    i: int,
)
    requires
        0 <= i <= events.len(),
    ensures
        power_asked(payload) matches Some(on) ==> only_sets_toggle(
            actions(fan_command(payload, id), events, device),
            events,
            device,
            FanToggle::Power,
            on,
            i,
        ),
{
    if let Some(on) = power_asked(payload) {
        lemma_toggle_course(FanToggle::Power, on, events, device, i);
    }
}

/// However its actions go, a direction command does nothing to the fan but turn
/// its airflow as asked, once, and only after the client was found. It neither
/// starts nor stops the fan, and it ends as the turning did.
pub proof fn law_direction_commands_only_turn_the_airflow(
    device: ServiceDevice,
    payload: Seq<char>,
    id: Seq<char>,
    events: Seq<FanEvent>,
    i: int,
)
    requires
        0 <= i <= events.len(),
    ensures
        reverse_asked(payload) matches Some(reverse) ==> only_sets_toggle(
            actions(fan_set_direction(payload, id), events, device),
            events,
            device,
            FanToggle::ReverseAirflow,
            reverse,
            i,
        ),
{
    if let Some(reverse) = reverse_asked(payload) {
        lemma_toggle_course(FanToggle::ReverseAirflow, reverse, events, device, i);
    }
}

/// However its actions go, speed zero does nothing to the fan but stop it: it
/// leaves the speed control alone and never starts the fan.
pub proof fn law_speed_zero_only_stops_the_fan(
    device: ServiceDevice,
    events: Seq<FanEvent>,
    i: int,
)
    requires
        0 <= i <= events.len(),
    ensures
        only_sets_toggle(
            actions(fan_set_percentage(0, device), events, device),
            events,
            device,
            FanToggle::Power,
            false,
            i,
        ),
{
    lemma_toggle_course(FanToggle::Power, false, events, device, i);
}

/// A speed other than zero never stops the fan and never turns its airflow, and
/// starts it only after the speed has been set. Once that is done, all that
/// follows is the starting of the fan. If setting the speed fails, the command is
/// given up with that error.
pub proof fn law_fan_starts_only_after_its_speed_is_set(
    device: ServiceDevice,
    speed: i64,
    events: Seq<FanEvent>,
    i: int,
)
    requires
        speed != 0,
        0 <= i <= events.len(),
    ensures
        ({
            let done = actions(fan_set_percentage(speed, device), events, device);
            &&& done[i] matches FanActionView::SetToggleState { toggle, on, .. } ==> {
                &&& toggle == FanToggle::Power
                &&& on
                &&& i > 0
                &&& done[0] is ControlDevice
                &&& events[0] == FanEvent::Succeeded
            }
            &&& i > 0 && done[0] is ControlDevice && events[0] == FanEvent::Succeeded
                ==> only_sets_toggle(
                done.drop_first(),
                events.drop_first(),
                device,
                FanToggle::Power,
                true,
                i - 1,
            )
            &&& i == 1 && done[0] is ControlDevice && events[0] == FanEvent::Failed ==> done[1]
                == FanActionView::Abandon
        }),
{
    let begun = fan_set_percentage(speed, device);
    lemma_actions_len(begun, events, device);
    if i > 0 {
        if begun.0 == FanState::Over {
            law_over_is_over(begun.1, events, device, i);
        } else {
            let one = fan_advance(begun.0, events[0], device);
            let rest = events.drop_first();
            lemma_actions_shift(begun, events, device, i);
            lemma_actions_len(one, rest, device);
            assert(actions(begun, events, device).drop_first() == actions(one, rest, device));
            if events[0] == FanEvent::Succeeded {
                lemma_toggle_course(FanToggle::Power, true, rest, device, i - 1);
            } else if i > 1 {
                law_over_is_over(one.1, rest, device, i - 1);
            }
        }
    }
}

/// A fan that is announced with a speed control takes speeds: every speed but zero
/// is handed to the capability that the range was read from.
pub proof fn law_an_announced_speed_control_takes_speeds(device: ServiceDevice, speed: i64)
    requires
        fan_config_of(device).percentage_command_topic is Some,
        speed != 0,
    ensures
        device.capability(FAN_SPEED_MODE@) is Some,
        fan_set_percentage(speed, device) == (
            FanState::SettingSpeed,
            FanActionView::ControlDevice {
                capability: device.capability(FAN_SPEED_MODE@)->0,
                value: speed,
            },
        ),
{
}

/// Whether `action` gives a command up because the platform API has not described
/// the device.
pub open spec fn lacks_metadata(action: FanActionView) -> bool {
    action matches FanActionView::Fail { error } && error is NoPlatformMetadata
}

/// The platform API has described a device whose fan is announced, so that no
/// command for it ends for want of that, whatever the payload and however the
/// actions go.
pub proof fn law_an_announced_fan_never_lacks_metadata(
    device: ServiceDevice,
    payload: Seq<char>,
    id: Seq<char>,
    speed: i64,
    events: Seq<FanEvent>,
    i: int,
)
    requires
        device.capability(FAN_TOGGLE@) is Some,
        0 <= i <= events.len(),
    ensures
        device.http_device_info is Some,
        !lacks_metadata(actions(fan_command(payload, id), events, device)[i]),
        !lacks_metadata(actions(fan_set_direction(payload, id), events, device)[i]),
        !lacks_metadata(actions(fan_set_percentage(speed, device), events, device)[i]),
{
    lemma_described_device(fan_command(payload, id), events, device, i);
    lemma_described_device(fan_set_direction(payload, id), events, device, i);
    lemma_described_device(fan_set_percentage(speed, device), events, device, i);
}

/// Commands for a device that the platform API has described.
proof fn lemma_described_device(
    begun: (FanState, FanActionView),
    events: Seq<FanEvent>,
    device: ServiceDevice,
    i: int,
)
    requires
        device.http_device_info is Some,
        !lacks_metadata(begun.1),
        0 <= i <= events.len(),
    ensures
        !lacks_metadata(actions(begun, events, device)[i]),
    decreases events.len(),
{
    lemma_actions_len(begun, events, device);
    if i > 0 {
        lemma_actions_shift(begun, events, device, i);
        lemma_described_device(
            fan_advance(begun.0, events[0], device),
            events.drop_first(),
            device,
            i - 1,
        );
    }
}

/// While the light is off, every zone is shown as off, whatever it was last
/// asked to be, unless the platform API reports otherwise.
pub proof fn law_zones_are_off_with_the_light(
    instance: Seq<char>,
    reported: Option<ReportedValue>,
    state: DeviceState,
    commanded: Option<bool>,
)
    requires
        instance != POWER_SWITCH@,
        !(reported matches Some(ReportedValue::Integer(_))),
        !light_shown(state),
    ensures
        switch_shown(instance, reported, Some(state), commanded) == Some(false),
{
}

/// While the light is off, OFF is published for every zone on its own topic,
/// whatever the zones were last asked to be, unless the platform API reports an
/// integer for the zone: no two zones can differ in that.
pub proof fn law_off_is_published_for_every_zone_with_the_light(
    device: ServiceDevice,
    topic_a: Seq<char>,
    zone_a: Seq<char>,
    topic_b: Seq<char>,
    zone_b: Seq<char>,
)
    requires
        zone_a != POWER_SWITCH@,
        zone_b != POWER_SWITCH@,
        device.device_state matches Some(state) && !light_shown(state),
        !(report_read(zone_a, device) matches Some(ReportedValue::Integer(_))),
        !(report_read(zone_b, device) matches Some(ReportedValue::Integer(_))),
    ensures
        switch_update_of(topic_a, zone_a, device).report == Some((topic_a, "OFF"@)),
        switch_update_of(topic_b, zone_b, device).report == Some((topic_b, "OFF"@)),
{
}

/// Where the light is the whole device, a device whose power switch is published
/// as off has every zone published as off, unless the platform API reports an
/// integer for the zone.
pub proof fn law_cutting_the_power_takes_every_zone_down(
    device: ServiceDevice,
    power_topic: Seq<char>,
    zone_topic: Seq<char>,
    zone: Seq<char>,
)
    requires
        zone != POWER_SWITCH@,
        device.device_state matches Some(state) ==> light_shown(state) == state.on,
        !(report_read(zone, device) matches Some(ReportedValue::Integer(_))),
        switch_update_of(power_topic, POWER_SWITCH@, device).report == Some(
            (power_topic, on_off(false)),
        ),
    ensures
        switch_update_of(zone_topic, zone, device).report == Some((zone_topic, on_off(false))),
{
    reveal_strlit("ON");
    reveal_strlit("OFF");
    assert("ON"@.len() != "OFF"@.len());
}

/// A zone that was never asked anything follows the light, unless the platform
/// API reports otherwise.
pub proof fn law_an_unrecorded_zone_follows_the_light(
    instance: Seq<char>,
    reported: Option<ReportedValue>,
    state: DeviceState,
)
    requires
        instance != POWER_SWITCH@,
        !(reported matches Some(ReportedValue::Integer(_))),
    ensures
        switch_shown(instance, reported, Some(state), None) == Some(light_shown(state)),
{
}

/// A zone that was last asked to be on or off is lit exactly when the light is
/// and it was asked to be on, unless the platform API reports otherwise.
pub proof fn law_a_recorded_zone_needs_the_light_and_the_command(
    instance: Seq<char>,
    reported: Option<ReportedValue>,
    state: DeviceState,
    on: bool,
)
    requires
        instance != POWER_SWITCH@,
        !(reported matches Some(ReportedValue::Integer(_))),
    ensures
        switch_shown(instance, reported, Some(state), Some(on)) == Some(light_shown(state) && on),
{
}

/// An integer that the platform API reports for a control other than the power
/// switch decides its state alone: zero is off, anything else is on.
pub proof fn law_a_reported_integer_decides(
    instance: Seq<char>,
    n: i64,
    state: Option<DeviceState>,
    commanded: Option<bool>,
)
    requires
        instance != POWER_SWITCH@,
    ensures
        switch_shown(instance, Some(ReportedValue::Integer(n)), state, commanded) == Some(n != 0),
{
}

/// The power switch shows the state of the device, and nothing else bears on it.
pub proof fn law_the_power_switch_shows_the_device(
    reported: Option<ReportedValue>,
    state: Option<DeviceState>,
    commanded: Option<bool>,
)
    ensures
        switch_shown(POWER_SWITCH@, reported, state, commanded) == match state {
            Some(state) => Some(state.on),
            None => None,
        },
{
}

/// A state is published for a switch exactly when the state of its device is
/// known or an integer was read for its control. It goes to the switch's own
/// state topic and is either ON or OFF. Where none is published, that is told,
/// but for the power switch.
pub proof fn law_what_is_known_is_published(
    state_topic: Seq<char>,
    instance: Seq<char>,
    device: ServiceDevice,
)
    ensures
        ({
            let report = switch_update_of(state_topic, instance, device).report;
            &&& report is Some <==> device.device_state is Some || (report_read(
                instance,
                device,
            ) matches Some(ReportedValue::Integer(_)))
            &&& report matches Some((topic, payload)) ==> topic == state_topic && (payload
                == "ON"@ || payload == "OFF"@)
            &&& switch_update_of(state_topic, instance, device).not_found <==> report is None
                && instance != POWER_SWITCH@
        }),
{
}

/// A switch runs optimistically exactly when it is not the power switch.
pub proof fn law_only_the_power_switch_waits_for_its_state(
    device: ServiceDevice,
    instance: Seq<char>,
    name: Seq<char>,
    state_topic: Seq<char>,
)
    ensures
        switch_config_of(device, instance, name, state_topic).optimistic <==> instance
            != POWER_SWITCH@,
{
}

} // verus!
