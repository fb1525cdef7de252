//! The agent's configuration: the broker, the node and the devices to watch.

use vstd::prelude::*;

verus! {

/// What the agent is told at start: where the broker is, under which node
/// identifier it publishes, which devices it watches and how often.
#[derive(Debug, Clone)]
pub struct Config {
    pub discovery_prefix: Option<String>,
    pub node_id: String,
    pub mqtt_host: String,
    pub mqtt_port: Option<u16>,
    pub mqtt_user: String,
    pub mqtt_pass: String,
    pub devices: Vec<MonDevice>,
    pub interval: u64,
}

/// One monitored device: a display `name` and the `device` identifier that
/// names it in the system and in topics.
#[derive(Debug, Clone)]
pub enum MonDevice {
    Sata { name: String, device: String },
    MdRaid { name: String, device: String },
}

/// The discovery prefix used where the configuration names none.
pub open spec fn default_prefix() -> Seq<char> {
    seq!['h', 'o', 'm', 'e', 'a', 's', 's', 'i', 's', 't', 'a', 'n', 't']
}

/// A text that can stand as one level of a topic: not empty, and without
/// the level separator and the wildcards.
pub open spec fn is_topic_segment(s: Seq<char>) -> bool {
    &&& s.len() > 0
    &&& !s.contains('/')
    &&& !s.contains('+')
    &&& !s.contains('#')
}

impl MonDevice {
    /// The device's identifier.
    pub open spec fn id(self) -> Seq<char> {
        match self {
            MonDevice::Sata { device, .. } => device@,
            MonDevice::MdRaid { device, .. } => device@,
        }
    }

    /// The device's display name.
    pub open spec fn label(self) -> Seq<char> {
        match self {
            MonDevice::Sata { name, .. } => name@,
            MonDevice::MdRaid { name, .. } => name@,
        }
    }
}

impl Config {
    /// The prefix of the discovery topics.
    pub open spec fn prefix(self) -> Seq<char> {
        match self.discovery_prefix {
            Some(prefix) => prefix@,
            None => default_prefix(),
        }
    }

    /// Every device identifier can stand in a topic, and no two devices share
    /// one.
    pub open spec fn well_formed(self) -> bool {
        &&& forall|i: int|
            0 <= i < self.devices@.len() ==> is_topic_segment((#[trigger] self.devices@[i]).id())
        &&& forall|i: int, j: int|
            0 <= i < j < self.devices@.len() ==> (#[trigger] self.devices@[i]).id() != (
            #[trigger] self.devices@[j]).id()
    }
}

} // verus!
