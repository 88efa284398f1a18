//! What all entities announce about themselves to Home Assistant.
use crate::device::HassIdentity;
use crate::json::JsonText;
use crate::text::optional_text;
use vstd::prelude::*;

verus! {

/// The part of an entity's configuration that does not depend on its kind.
#[derive(Clone, Debug)]
pub struct EntityConfig {
    pub availability_topic: String,
    pub name: Option<String>,
    pub device_class: Option<String>,
    pub origin: JsonText,
    pub device: JsonText,
    pub unique_id: String,
    pub entity_category: Option<String>,
    pub icon: Option<String>,
}

/// The contents of an `EntityConfig`.
#[verifier::ext_equal]
pub struct EntityConfigView {
    pub availability_topic: Seq<char>,
    pub name: Option<Seq<char>>,
    pub device_class: Option<Seq<char>>,
    pub origin: Seq<char>,
    pub device: Seq<char>,
    pub unique_id: Seq<char>,
    pub entity_category: Option<Seq<char>>,
    pub icon: Option<Seq<char>>,
}

impl View for EntityConfig {
    type V = EntityConfigView;

    open spec fn view(&self) -> EntityConfigView {
        EntityConfigView {
            availability_topic: self.availability_topic@,
            name: optional_text(self.name),
            device_class: optional_text(self.device_class),
            origin: self.origin@,
            device: self.device@,
            unique_id: self.unique_id@,
            entity_category: optional_text(self.entity_category),
            icon: optional_text(self.icon),
        }
    }
}

/// The configuration of an entity of the device that `hass` identifies, of which
/// only the name and the unique id are special.
pub open spec fn plain_entity(
    hass: HassIdentity,
    name: Option<Seq<char>>,
    unique_id: Seq<char>,
) -> EntityConfigView {
    EntityConfigView {
        availability_topic: hass.availability_topic@,
        name,
        device_class: None,
        origin: hass.origin@,
        device: hass.device@,
        unique_id,
        entity_category: None,
        icon: None,
    }
}

impl EntityConfig {
    /// An entity of the device that `hass` identifies, with neither a device
    /// class nor a category nor an icon.
    pub fn plain(hass: &HassIdentity, name: Option<String>, unique_id: String) -> (config: Self)
        ensures
            config@ == plain_entity(*hass, optional_text(name), unique_id@),
            config.availability_topic@ == hass.availability_topic@,
            config.name == name,
            config.device_class is None,
            config.origin.text@ == hass.origin.text@,
            config.device.text@ == hass.device.text@,
            config.unique_id == unique_id,
            config.entity_category is None,
            config.icon is None,
    {
        EntityConfig {
            availability_topic: hass.availability_topic.clone(),
            name,
            device_class: None,
            origin: hass.origin.clone(),
            device: hass.device.clone(),
            unique_id,
            entity_category: None,
            icon: None,
        }
    }
}

} // verus!
