//! Descriptions of a node, its entities and their devices, as a
//! home-automation platform registers them.

use std::borrow::Cow;
use vstd::prelude::*;

verus! {

type CowStr = Cow<'static, str>;

/// A node and the entities it offers.
#[derive(Debug)]
pub struct HassNode {
    pub name: CowStr,
    pub sw_version: CowStr,
    pub support_url: CowStr,
    pub entities: Vec<HassEntity>,
}

/// An entity of a node.
#[derive(Debug)]
pub enum HassEntity {
    Sensor { availability_topic: Option<CowStr>, device: Option<HassDevice> },
}

/// The device that an entity belongs to.
#[derive(Debug)]
pub struct HassDevice {
    pub configuration_url: Option<CowStr>,
    pub connections: Option<Vec<(CowStr, CowStr)>>,
    pub hw_version: Option<CowStr>,
    pub identifiers: Option<Vec<CowStr>>,
    pub manufacturer: Option<String>,
}

} // verus!
