use disk_monitor::config_types::{Config, MonDevice};
use disk_monitor::discovery::{discovery_prefix, discovery_value};
use disk_monitor::topics::{
    get_attributes_topic, get_device_id, get_device_name, get_discovery_topic, get_state_topic,
};

fn sata(name: &str, device: &str) -> MonDevice {
    MonDevice::Sata { name: name.to_string(), device: device.to_string() }
}

fn raid(name: &str, device: &str) -> MonDevice {
    MonDevice::MdRaid { name: name.to_string(), device: device.to_string() }
}

fn config(prefix: Option<&str>) -> Config {
    Config {
        discovery_prefix: prefix.map(|p| p.to_string()),
        node_id: "nas".to_string(),
        mqtt_host: "localhost".to_string(),
        mqtt_port: None,
        mqtt_user: "user".to_string(),
        mqtt_pass: "pass".to_string(),
        devices: vec![sata("System disk", "sda"), raid("Data array", "md0")],
        interval: 60,
    }
}

#[test]
fn device_id_and_name_of_either_kind() {
    assert_eq!(get_device_id(&sata("System disk", "sda")), "sda");
    assert_eq!(get_device_name(&sata("System disk", "sda")), "System disk");
    assert_eq!(get_device_id(&raid("Data array", "md0")), "md0");
    assert_eq!(get_device_name(&raid("Data array", "md0")), "Data array");
}

#[test]
fn state_and_attributes_topics() {
    assert_eq!(get_state_topic("nas", "md0"), "nas/md0/state");
    assert_eq!(get_attributes_topic("nas", "md0"), "nas/md0/attributes");
    assert_eq!(get_state_topic("", ""), "//state");
}

#[test]
fn discovery_topic_under_a_prefix() {
    assert_eq!(get_discovery_topic("homeassistant", "nas", "sda"), "homeassistant/sensor/nas/sda/config");
    assert_eq!(get_discovery_topic("ha", "n", "d"), "ha/sensor/n/d/config");
}

#[test]
fn different_devices_have_different_topics() {
    let ids = ["a", "b", "sda", "sdb", "md0", "md1", "a/state", ""];
    for a in ids {
        for b in ids {
            assert_eq!(get_state_topic("nas", a) == get_state_topic("nas", b), a == b);
            assert_eq!(get_attributes_topic("nas", a) == get_attributes_topic("nas", b), a == b);
            assert_ne!(get_state_topic("nas", a), get_attributes_topic("nas", b));
        }
    }
}

#[test]
fn topics_are_the_same_each_time() {
    assert_eq!(get_state_topic("nas", "sda"), get_state_topic("nas", "sda"));
    assert_eq!(get_attributes_topic("nas", "sda"), get_attributes_topic("nas", "sda"));
}

#[test]
fn the_prefix_defaults_to_homeassistant() {
    assert_eq!(discovery_prefix(&config(None)), "homeassistant");
    assert_eq!(discovery_prefix(&config(Some("custom"))), "custom");
}

#[test]
fn the_discovery_value_describes_the_device() {
    let value = discovery_value("nas", &raid("Data array", "md0"));
    let expected: serde_json::Value = serde_json::from_str(
        r#"{"icon":"mdi:harddisk","name":"Data array","state_topic":"nas/md0/state","json_attributes_topic":"nas/md0/attributes","unique_id":"md0"}"#,
    )
    .unwrap();
    assert_eq!(value, expected);
    assert_eq!(value.as_object().unwrap().len(), 5);
}
