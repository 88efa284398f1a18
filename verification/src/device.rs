//! What the bridge knows of a device.
use crate::json::JsonText;
use crate::search::{first_where, lemma_first_where_at, lemma_first_where_none};
use crate::text::same_text;
use vstd::prelude::*;

verus! {

/// One of the named choices of an enumerated parameter.
#[derive(Clone, Debug)]
pub struct EnumOption {
    pub name: String,
    pub value: JsonText,
}

/// The values that a capability accepts.
#[derive(Clone, Debug)]
pub enum DeviceParameters {
    /// A choice among named options.
    Enum { options: Vec<EnumOption> },
    /// Any other kind of parameter, as the platform describes it.
    Other { description: JsonText },
}

/// Something that a device can be asked to do.
#[derive(Clone, Debug)]
pub struct DeviceCapability {
    /// The type of capability, such as `devices.capabilities.toggle`.
    pub kind: String,
    /// Which control of the device this is, such as `fanToggle`.
    pub instance: String,
    pub parameters: Option<DeviceParameters>,
}

/// The platform API's metadata for a device.
#[derive(Clone, Debug)]
pub struct HttpDeviceInfo {
    pub sku: String,
    pub device: String,
    pub device_name: String,
    pub device_type: String,
    pub capabilities: Vec<DeviceCapability>,
}

/// The state that the platform API last reported for one control of a device.
#[derive(Clone, Debug)]
pub struct StateCapability {
    pub instance: String,
    pub state: JsonText,
}

/// The overall state of a device, as far as the bridge knows it.
#[derive(Clone, Copy, Debug)]
pub struct DeviceState {
    pub on: bool,
    /// Whether its light is lit, where that is known apart from `on`.
    pub light_on: Option<bool>,
}

/// What a toggle of a device was last asked to be.
#[derive(Clone, Debug)]
pub struct CommandedToggle {
    pub instance: String,
    pub on: bool,
}

/// The parts of every announcement to Home Assistant that follow from the
/// device and the bridge, whatever the entity.
#[derive(Clone, Debug)]
pub struct HassIdentity {
    /// The device's identifier, in the form that topics and entity ids use.
    pub topic_safe_id: String,
    /// Where the bridge announces whether it is running.
    pub availability_topic: String,
    /// The `origin` block: which software makes the announcement.
    pub origin: JsonText,
    /// The `device` block: which device the entity belongs to.
    pub device: JsonText,
}

/// A device, with what the bridge knows of it at one moment.
#[derive(Clone, Debug)]
pub struct ServiceDevice {
    pub sku: String,
    pub id: String,
    /// How messages to the user name the device.
    pub label: String,
    pub hass: HassIdentity,
    pub http_device_info: Option<HttpDeviceInfo>,
    pub state_capabilities: Vec<StateCapability>,
    pub device_state: Option<DeviceState>,
    /// What was asked of the toggles. The first entry for a toggle counts.
    pub commanded_toggles: Vec<CommandedToggle>,
}

/// Something that concerns one control of a device.
pub trait OfControl: Sized {
    /// The name of that control.
    spec fn control(self) -> Seq<char>;

    /// The name of that control.
    fn control_name(&self) -> (name: &str)
        ensures
            name@ == self.control(),
    ;
}

impl OfControl for DeviceCapability {
    open spec fn control(self) -> Seq<char> {
        self.instance@
    }

    fn control_name(&self) -> (name: &str) {
        self.instance.as_str()
    }
}

impl OfControl for StateCapability {
    open spec fn control(self) -> Seq<char> {
        self.instance@
    }

    fn control_name(&self) -> (name: &str) {
        self.instance.as_str()
    }
}

impl OfControl for CommandedToggle {
    open spec fn control(self) -> Seq<char> {
        self.instance@
    }

    fn control_name(&self) -> (name: &str) {
        self.instance.as_str()
    }
}

/// The first of `items` that concerns the control `instance`.
pub open spec fn first_of_control<T: OfControl>(items: Seq<T>, instance: Seq<char>) -> Option<T> {
    first_where(items, |item: T| item.control() == instance)
}

/// The first item for a control is the one that no other for it stands before.
pub proof fn lemma_first_of_control_at<T: OfControl>(items: Seq<T>, instance: Seq<char>, k: int)
    requires
        0 <= k < items.len(),
        items[k].control() == instance,
        forall|j: int| 0 <= j < k ==> (#[trigger] items[j]).control() != instance,
    ensures
        first_of_control(items, instance) == Some(items[k]),
    decreases items.len(),
{
    if k > 0 {
        assert(items[0].control() != instance);
        let rest = items.drop_first();
        assert forall|j: int| 0 <= j < k - 1 implies (#[trigger] rest[j]).control() != instance by {
            assert(rest[j] == items[j + 1]);
        }
        lemma_first_of_control_at(rest, instance, k - 1);
    }
}

/// There is no first item for a control exactly when there is none for it.
pub proof fn lemma_first_of_control_none<T: OfControl>(items: Seq<T>, instance: Seq<char>)
    ensures
        first_of_control(items, instance) is None <==> (forall|j: int|
            0 <= j < items.len() ==> (#[trigger] items[j]).control() != instance),
    decreases items.len(),
{
    if items.len() > 0 && items[0].control() != instance {
        let rest = items.drop_first();
        lemma_first_of_control_none(rest, instance);
        if first_of_control(rest, instance) is None {
            assert forall|j: int| 0 <= j < items.len() implies (#[trigger] items[j]).control()
                != instance by {
                if j > 0 {
                    assert(rest[j - 1] == items[j]);
                }
            }
        } else {
            let k = choose|k: int|
                0 <= k < rest.len() && (#[trigger] rest[k]).control() == instance;
            assert(items[k + 1] == rest[k]);
        }
    }
}

/// Looks up the first of `items` that concerns the control `instance`.
fn find_of_control<'a, T: OfControl>(items: &'a Vec<T>, instance: &str) -> (found: Option<&'a T>)
    ensures
        (match found {
            Some(item) => Some(*item),
            None => None,
        }) == first_of_control(items@, instance@),
        match found {
            Some(item) => exists|k: int|
                0 <= k < items@.len() && #[trigger] items@[k] == *item && item.control()
                    == instance@ && forall|j: int|
                    0 <= j < k ==> (#[trigger] items@[j]).control() != instance@,
            None => forall|j: int|
                0 <= j < items@.len() ==> (#[trigger] items@[j]).control() != instance@,
        },
{
    let ghost wanted = |item: T| item.control() == instance@;
    let mut i: usize = 0;
    while i < items.len()
        invariant
            i <= items.len(),
            wanted == (|item: T| item.control() == instance@),
            forall|j: int| 0 <= j < i ==> !wanted(#[trigger] items@[j]),
            forall|j: int| 0 <= j < i ==> (#[trigger] items@[j]).control() != instance@,
        decreases items.len() - i,
    {
        let item = &items[i];
        if same_text(item.control_name(), instance) {
            proof {
                lemma_first_where_at(items@, wanted, i as int);
                assert(items@[i as int] == *item);
            }
            return Some(item);
        }
        i += 1;
    }
    proof {
        lemma_first_where_none(items@, wanted);
    }
    None
}

impl ServiceDevice {
    /// The device's capability for the control `instance`.
    pub open spec fn capability(self, instance: Seq<char>) -> Option<DeviceCapability> {
        match self.http_device_info {
            Some(info) => first_of_control(info.capabilities@, instance),
            None => None,
        }
    }

    /// The state reported for the control `instance`.
    pub open spec fn state_capability(self, instance: Seq<char>) -> Option<StateCapability> {
        first_of_control(self.state_capabilities@, instance)
    }

    /// What the toggle `instance` was last asked to be.
    pub open spec fn last_commanded(self, instance: Seq<char>) -> Option<bool> {
        match first_of_control(self.commanded_toggles@, instance) {
            Some(toggle) => Some(toggle.on),
            None => None,
        }
    }

    /// A device of which nothing has been reported yet.
    pub fn new(sku: &str, id: &str, label: &str, hass: HassIdentity) -> (device: Self)
        ensures
            device.sku@ == sku@,
            device.id@ == id@,
            device.label@ == label@,
            device.hass == hass,
            device.http_device_info is None,
            device.state_capabilities@ == Seq::<StateCapability>::empty(),
            device.device_state is None,
            device.commanded_toggles@ == Seq::<CommandedToggle>::empty(),
    {
        ServiceDevice {
            sku: sku.to_owned(),
            id: id.to_owned(),
            label: label.to_owned(),
            hass,
            http_device_info: None,
            state_capabilities: Vec::new(),
            device_state: None,
            commanded_toggles: Vec::new(),
        }
    }

    pub fn set_http_device_info(&mut self, info: HttpDeviceInfo)
        ensures
            *final(self) == (ServiceDevice { http_device_info: Some(info), ..*old(self) }),
    {
        self.http_device_info = Some(info);
    }

    /// Looks up the device's capability for the control `instance`.
    pub fn get_capability_by_instance(&self, instance: &str) -> (capability: Option<
        &DeviceCapability,
    >)
        ensures
            (match capability {
                Some(c) => Some(*c),
                None => None,
            }) == self.capability(instance@),
            // The first that is listed for that control, if any is.
            match capability {
                Some(c) => self.http_device_info matches Some(info) && exists|k: int|
                    0 <= k < info.capabilities@.len() && #[trigger] info.capabilities@[k] == *c
                        && c.instance@ == instance@ && forall|j: int|
                        0 <= j < k ==> (#[trigger] info.capabilities@[j]).instance@ != instance@,
                None => self.http_device_info matches Some(info) ==> forall|j: int|
                    0 <= j < info.capabilities@.len() ==> (
                    #[trigger] info.capabilities@[j]).instance@ != instance@,
            },
    {
        match &self.http_device_info {
            Some(info) => find_of_control(&info.capabilities, instance),
            None => None,
        }
    }

    /// Looks up the state reported for the control `instance`.
    pub fn get_state_capability_by_instance(&self, instance: &str) -> (capability: Option<
        &StateCapability,
    >)
        ensures
            (match capability {
                Some(c) => Some(*c),
                None => None,
            }) == self.state_capability(instance@),
            // The first that is listed for that control, if any is.
            match capability {
                Some(c) => exists|k: int|
                    0 <= k < self.state_capabilities@.len()
                        && #[trigger] self.state_capabilities@[k] == *c && c.instance@ == instance@
                        && forall|j: int|
                        0 <= j < k ==> (#[trigger] self.state_capabilities@[j]).instance@
                            != instance@,
                None => forall|j: int|
                    0 <= j < self.state_capabilities@.len() ==> (
                    #[trigger] self.state_capabilities@[j]).instance@ != instance@,
            },
    {
        find_of_control(&self.state_capabilities, instance)
    }

    /// Looks up what the toggle `instance` was last asked to be.
    pub fn commanded_toggle(&self, instance: &str) -> (commanded: Option<bool>)
        ensures
            commanded == self.last_commanded(instance@),
            // What the first entry for that toggle says, if there is one.
            match commanded {
                Some(on) => exists|k: int|
                    0 <= k < self.commanded_toggles@.len() && (
                    #[trigger] self.commanded_toggles@[k]).instance@ == instance@
                        && self.commanded_toggles@[k].on == on && forall|j: int|
                        0 <= j < k ==> (#[trigger] self.commanded_toggles@[j]).instance@
                            != instance@,
                None => forall|j: int|
                    0 <= j < self.commanded_toggles@.len() ==> (
                    #[trigger] self.commanded_toggles@[j]).instance@ != instance@,
            },
    {
        match find_of_control(&self.commanded_toggles, instance) {
            Some(toggle) => Some(toggle.on),
            None => None,
        }
    }
}

} // verus!
