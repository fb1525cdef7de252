//! The topics under which a device's messages are published.

use crate::config_types::{Config, MonDevice};
use vstd::prelude::*;

verus! {

pub open spec fn state_suffix() -> Seq<char> {
    seq!['/', 's', 't', 'a', 't', 'e']
}

pub open spec fn attributes_suffix() -> Seq<char> {
    seq!['/', 'a', 't', 't', 'r', 'i', 'b', 'u', 't', 'e', 's']
}

pub open spec fn discovery_infix() -> Seq<char> {
    seq!['/', 's', 'e', 'n', 's', 'o', 'r', '/']
}

pub open spec fn discovery_suffix() -> Seq<char> {
    seq!['/', 'c', 'o', 'n', 'f', 'i', 'g']
}

/// `<node_id>/<device_id>/state`
pub open spec fn state_topic(node_id: Seq<char>, device_id: Seq<char>) -> Seq<char> {
    node_id + seq!['/'] + device_id + state_suffix()
}

/// `<node_id>/<device_id>/attributes`
pub open spec fn attributes_topic(node_id: Seq<char>, device_id: Seq<char>) -> Seq<char> {
    node_id + seq!['/'] + device_id + attributes_suffix()
}

/// `<prefix>/sensor/<node_id>/<device_id>/config`
pub open spec fn discovery_topic(
    prefix: Seq<char>,
    node_id: Seq<char>,
    device_id: Seq<char>,
) -> Seq<char> {
    prefix + discovery_infix() + node_id + seq!['/'] + device_id + discovery_suffix()
}

/// Between a fixed start and a fixed end, different texts make different
/// texts.
proof fn lemma_framed_injective(head: Seq<char>, a: Seq<char>, b: Seq<char>, tail: Seq<char>)
    requires
        head + a + tail == head + b + tail,
    ensures
        a == b,
{
    let x = head + a + tail;
    let y = head + b + tail;
    assert(x.len() == head.len() + a.len() + tail.len());
    assert(y.len() == head.len() + b.len() + tail.len());
    assert(a.len() == b.len());
    assert forall|i: int| 0 <= i < a.len() implies a[i] == b[i] by {
        assert((head + a)[head.len() + i] == a[i]);
        assert((head + b)[head.len() + i] == b[i]);
        assert(x[head.len() + i] == (head + a)[head.len() + i]);
        assert(y[head.len() + i] == (head + b)[head.len() + i]);
    }
    assert(a =~= b);
}

/// Under one node, two devices have the same state topic only if they have
/// the same identifier.
pub proof fn lemma_state_topic_injective(node_id: Seq<char>, a: Seq<char>, b: Seq<char>)
    requires
        state_topic(node_id, a) == state_topic(node_id, b),
    ensures
        a == b,
{
    lemma_framed_injective(node_id + seq!['/'], a, b, state_suffix());
}

/// Under one node, two devices have the same attributes topic only if they
/// have the same identifier.
pub proof fn lemma_attributes_topic_injective(node_id: Seq<char>, a: Seq<char>, b: Seq<char>)
    requires
        attributes_topic(node_id, a) == attributes_topic(node_id, b),
    ensures
        a == b,
{
    lemma_framed_injective(node_id + seq!['/'], a, b, attributes_suffix());
}

/// Under one prefix and node, two devices have the same discovery topic only
/// if they have the same identifier.
pub proof fn lemma_discovery_topic_injective(
    prefix: Seq<char>,
    node_id: Seq<char>,
    a: Seq<char>,
    b: Seq<char>,
)
    requires
        discovery_topic(prefix, node_id, a) == discovery_topic(prefix, node_id, b),
    ensures
        a == b,
{
    lemma_framed_injective(
        prefix + discovery_infix() + node_id + seq!['/'],
        a,
        b,
        discovery_suffix(),
    );
}

/// No state topic is an attributes topic, whatever the nodes and devices.
pub proof fn lemma_state_topic_is_no_attributes_topic(
    node_a: Seq<char>,
    a: Seq<char>,
    node_b: Seq<char>,
    b: Seq<char>,
)
    ensures
        state_topic(node_a, a) != attributes_topic(node_b, b),
{
    let x = state_topic(node_a, a);
    let y = attributes_topic(node_b, b);
    assert(x.last() == 'e');
    assert(y.last() == 's');
}

/// In a well-formed configuration no two devices share a topic: each has a
/// state topic, an attributes topic and a discovery topic of its own.
pub proof fn lemma_devices_have_their_own_topics(config: Config, i: int, j: int)
    requires
        config.well_formed(),
        0 <= i < config.devices@.len(),
        0 <= j < config.devices@.len(),
        i != j,
    ensures
        ({
            let node = config.node_id@;
            let a = config.devices@[i].id();
            let b = config.devices@[j].id();
            &&& state_topic(node, a) != state_topic(node, b)
            &&& attributes_topic(node, a) != attributes_topic(node, b)
            &&& state_topic(node, a) != attributes_topic(node, b)
            &&& discovery_topic(config.prefix(), node, a) != discovery_topic(
                config.prefix(),
                node,
                b,
            )
        }),
{
    let node = config.node_id@;
    let a = config.devices@[i].id();
    let b = config.devices@[j].id();
    if i < j {
        assert(config.devices@[i].id() != config.devices@[j].id());
    } else {
        assert(config.devices@[j].id() != config.devices@[i].id());
    }
    if state_topic(node, a) == state_topic(node, b) {
        lemma_state_topic_injective(node, a, b);
    }
    if attributes_topic(node, a) == attributes_topic(node, b) {
        lemma_attributes_topic_injective(node, a, b);
    }
    lemma_state_topic_is_no_attributes_topic(node, a, node, b);
    if discovery_topic(config.prefix(), node, a) == discovery_topic(config.prefix(), node, b) {
        lemma_discovery_topic_injective(config.prefix(), node, a, b);
    }
}

/// The identifier of `device`.
pub fn get_device_id(device: &MonDevice) -> (id: &str)
    ensures
        id@ == device.id(),
{
    match device {
        MonDevice::Sata { device, .. } => device.as_str(),
        MonDevice::MdRaid { device, .. } => device.as_str(),
    }
}

/// The display name of `device`.
pub fn get_device_name(device: &MonDevice) -> (name: &str)
    ensures
        name@ == device.label(),
{
    match device {
        MonDevice::Sata { name, .. } => name.as_str(),
        MonDevice::MdRaid { name, .. } => name.as_str(),
    }
}

/// The topic of the device's state messages.
pub fn get_state_topic(node_id: &str, device_id: &str) -> (topic: String)
    ensures
        topic@ == state_topic(node_id@, device_id@),
{
    let mut topic = node_id.to_owned();
    topic.push('/');
    topic.append(device_id);
    topic.append("/state");
    proof {
        reveal_strlit("/state");
        assert("/state"@ =~= state_suffix());
    }
    topic
}

/// The topic of the device's attribute messages.
pub fn get_attributes_topic(node_id: &str, device_id: &str) -> (topic: String)
    ensures
        topic@ == attributes_topic(node_id@, device_id@),
{
    let mut topic = node_id.to_owned();
    topic.push('/');
    topic.append(device_id);
    topic.append("/attributes");
    proof {
        reveal_strlit("/attributes");
        assert("/attributes"@ =~= attributes_suffix());
    }
    topic
}

/// The topic of the device's discovery message.
pub fn get_discovery_topic(prefix: &str, node_id: &str, device_id: &str) -> (topic: String)
    ensures
        topic@ == discovery_topic(prefix@, node_id@, device_id@),
{
    let mut topic = prefix.to_owned();
    topic.append("/sensor/");
    topic.append(node_id);
    topic.push('/');
    topic.append(device_id);
    topic.append("/config");
    proof {
        reveal_strlit("/sensor/");
        reveal_strlit("/config");
        assert("/sensor/"@ =~= discovery_infix());
        assert("/config"@ =~= discovery_suffix());
    }
    topic
}

} // verus!
