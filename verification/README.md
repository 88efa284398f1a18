# govee_hass

The decisions behind the fan and switch entities that a Govee bridge presents to
Home Assistant over MQTT, verified with Verus.

- `src/device.rs` models what the bridge knows of a device.
- `src/fan.rs` announces a fan, works out its speed range and keeps its speeds out
  of the list of light scenes.
- `src/fan_control.rs` says, step by step, what a command for a fan asks of the
  device.
- `src/switch.rs` announces a switch and decides which state is published for it.
- `src/json.rs` holds the questions that are asked of JSON values, through
  `serde_json`. `src/entity.rs`, `src/search.rs` and `src/text.rs` are helpers.
- `src/laws.rs` states and proves what holds of these together.
- `app/` connects the decisions to MQTT, the platform API and the rest of the
  bridge, whose services it takes as traits.
