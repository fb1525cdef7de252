//! The message that announces a device to the home-automation platform.

use crate::config_types::{default_prefix, Config, MonDevice};
use crate::json::{object_fields, object_value, text_value, value_model, Json};
use crate::topics::{
    attributes_topic, get_attributes_topic, get_device_id, get_device_name, get_state_topic,
    state_topic,
};
use vstd::prelude::*;

verus! {

pub open spec fn key_icon() -> Seq<char> {
    seq!['i', 'c', 'o', 'n']
}

pub open spec fn key_name() -> Seq<char> {
    seq!['n', 'a', 'm', 'e']
}

pub open spec fn key_state_topic() -> Seq<char> {
    seq!['s', 't', 'a', 't', 'e', '_', 't', 'o', 'p', 'i', 'c']
}

pub open spec fn key_attributes_topic() -> Seq<char> {
    seq![
        'j',
        's',
        'o',
        'n',
        '_',
        'a',
        't',
        't',
        'r',
        'i',
        'b',
        'u',
        't',
        'e',
        's',
        '_',
        't',
        'o',
        'p',
        'i',
        'c',
    ]
}

pub open spec fn key_unique_id() -> Seq<char> {
    seq!['u', 'n', 'i', 'q', 'u', 'e', '_', 'i', 'd']
}

/// The icon that every device is shown with.
pub open spec fn icon() -> Seq<char> {
    seq!['m', 'd', 'i', ':', 'h', 'a', 'r', 'd', 'd', 'i', 's', 'k']
}

/// The JSON object that describes `device` of the node `node_id`: the icon,
/// the display name, the two topics and the identifier.
pub open spec fn discovery_model(node_id: Seq<char>, device: MonDevice) -> Json {
    Json::Object(
        Map::empty().insert(key_icon(), Json::Text(icon())).insert(
            key_name(),
            Json::Text(device.label()),
        ).insert(key_state_topic(), Json::Text(state_topic(node_id, device.id()))).insert(
            key_attributes_topic(),
            Json::Text(attributes_topic(node_id, device.id())),
        ).insert(key_unique_id(), Json::Text(device.id())),
    )
}

/// The prefix of the discovery topics: the configured one, or
/// `homeassistant`.
pub fn discovery_prefix(config: &Config) -> (prefix: &str)
    ensures
        prefix@ == config.prefix(),
{
    match &config.discovery_prefix {
        Some(prefix) => prefix.as_str(),
        None => {
            proof {
                reveal_strlit("homeassistant");
                assert("homeassistant"@ =~= default_prefix());
            }
            "homeassistant"
        },
    }
}

/// The JSON value that describes `device` of the node `node_id`.
pub fn discovery_value(node_id: &str, device: &MonDevice) -> (value: serde_json::Value)
    ensures
        value_model(value) == discovery_model(node_id@, *device),
{
    let id = get_device_id(device);
    let state_topic = get_state_topic(node_id, id);
    let attributes_topic = get_attributes_topic(node_id, id);
    let mut object = serde_json::Map::new();
    object.insert("icon".to_owned(), text_value("mdi:harddisk"));
    object.insert("name".to_owned(), text_value(get_device_name(device)));
    object.insert("state_topic".to_owned(), text_value(state_topic.as_str()));
    object.insert("json_attributes_topic".to_owned(), text_value(attributes_topic.as_str()));
    object.insert("unique_id".to_owned(), text_value(id));
    proof {
        reveal_strlit("icon");
        reveal_strlit("mdi:harddisk");
        reveal_strlit("name");
        reveal_strlit("state_topic");
        reveal_strlit("json_attributes_topic");
        reveal_strlit("unique_id");
        assert("icon"@ =~= key_icon());
        assert("mdi:harddisk"@ =~= icon());
        assert("name"@ =~= key_name());
        assert("state_topic"@ =~= key_state_topic());
        assert("json_attributes_topic"@ =~= key_attributes_topic());
        assert("unique_id"@ =~= key_unique_id());
    }
    object_value(object)
}

} // verus!
