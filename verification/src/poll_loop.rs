//! The poll loop as a machine: from the stage it is in and the outcome of
//! the last action, the next stage and the next action.
//!
//! The loop first announces every device, in the order of the configuration.
//! Then it polls and publishes device after device, sleeps, and starts over.
//! An announcement that fails ends the loop. Whatever happens to a device
//! while the loop cycles ends the work on that device only.

use crate::config_types::{Config, MonDevice};
use crate::discovery::{discovery_model, discovery_prefix, discovery_value};
use crate::json::{json_text, value_model, value_text, Json};
use crate::monitor::{
    attributes_value, device_path, get_device_path, get_status_path, raid_model, raid_report,
    raid_state, sata_report, sata_state, smart_model, smart_value, status_number, status_path,
    sync_progress, PollError, RaidField,
};
use crate::smartmon_types::SmartMonResults;
use crate::text::trimmed;
use crate::topics::{
    attributes_topic, discovery_topic, get_attributes_topic, get_device_id, get_discovery_topic,
    get_state_topic, state_topic,
};
use vstd::prelude::*;

verus! {

/// How often a message may reach its receivers.
#[derive(Debug, Clone, Copy, PartialEq, Eq)]
pub enum Delivery {
    AtMostOnce,
    AtLeastOnce,
    ExactlyOnce,
}

/// A message for the broker.
#[derive(Debug, Clone)]
pub struct Message {
    pub topic: String,
    pub delivery: Delivery,
    pub retain: bool,
    pub payload: String,
}

/// What the loop asks for next.
#[derive(Debug, Clone)]
pub enum Action {
    /// Publish the message.
    Publish(Message),
    /// Read the status text at `path`.
    ReadStatus { path: String },
    /// Ask the SMART tool for its report on the disk at `path`.
    QuerySmart { path: String },
    /// Wait for `seconds`.
    Sleep { seconds: u64 },
    /// End the loop.
    Abort,
}

/// The outcome of an action.
#[derive(Debug, Clone)]
pub enum Event {
    /// The message was published.
    Published,
    /// The message could not be published.
    PublishFailed,
    /// The status text, as it was read.
    StatusRead(String),
    /// The status text could not be read.
    StatusUnreadable,
    /// The report of the SMART tool.
    SmartReported(SmartMonResults),
    /// The SMART tool could not be run.
    SmartUnavailable,
    /// The SMART tool gave no report of the expected form.
    SmartMalformed,
    /// The wait is over.
    Slept,
}

/// Where the loop stands: which outcome it waits for, of which device, and
/// what it has gathered for that device so far.
#[derive(Debug, Clone)]
pub enum Stage {
    /// The discovery message of the device is being published.
    Announcing { device: usize },
    /// The SMART tool is asked about the device.
    Querying { device: usize },
    /// The first status text of the array is being read.
    ReadingUuid { device: usize },
    /// The second status text is being read; the first is kept.
    ReadingSyncAction { device: usize, uuid: String },
    /// The third status text is being read; the first two are kept.
    ReadingSyncCompleted { device: usize, uuid: String, sync_action: String },
    /// The last status text is being read; the first three are kept.
    ReadingDegraded { device: usize, uuid: String, sync_action: String, sync_completed: String },
    /// The state of the device is being published; its attributes are next.
    PublishingState { device: usize, attributes: String },
    /// The attributes of the device are being published.
    PublishingAttributes { device: usize },
    /// The loop waits between two cycles.
    Sleeping,
    /// The loop has ended.
    Aborted,
}

/// Why the work on a device ended early.
#[derive(Debug, Clone, Copy, PartialEq, Eq)]
pub enum Cause {
    /// The device could not be polled.
    Poll(PollError),
    /// A message could not be published.
    Publish,
    /// A payload could not be written as JSON.
    Encoding,
    /// The outcome handed in is none of the action that was asked for.
    Unexpected,
}

/// The device, by its place in the configuration, whose work ended early,
/// and why.
#[derive(Debug, Clone, Copy, PartialEq, Eq)]
pub struct Failure {
    pub device: usize,
    pub cause: Cause,
}

/// One decision of the loop.
#[derive(Debug, Clone)]
pub struct Step {
    pub stage: Stage,
    pub action: Action,
    /// What went wrong with the device that the decision leaves, if anything.
    pub failure: Option<Failure>,
}

impl Action {
    /// The action publishes, at least once, `payload` under `topic`.
    pub open spec fn publishes(self, topic: Seq<char>, retain: bool, payload: Seq<char>) -> bool {
        &&& self matches Action::Publish(message)
        &&& message.topic@ == topic
        &&& message.delivery == Delivery::AtLeastOnce
        &&& message.retain == retain
        &&& message.payload@ == payload
    }

    /// The action reads the status text at `path`.
    pub open spec fn reads(self, path: Seq<char>) -> bool {
        self matches Action::ReadStatus { path: p } && p@ == path
    }

    /// The action asks the SMART tool about the disk at `path`.
    pub open spec fn queries(self, path: Seq<char>) -> bool {
        self matches Action::QuerySmart { path: p } && p@ == path
    }

    /// The action polls a device.
    pub open spec fn polls(self) -> bool {
        self is ReadStatus || self is QuerySmart
    }
}

impl Stage {
    /// The stage belongs to the cycles, and to the device at `device`.
    pub open spec fn works_on(self, device: int) -> bool {
        match self {
            Stage::Querying { device: d } => d == device,
            Stage::ReadingUuid { device: d } => d == device,
            Stage::ReadingSyncAction { device: d, .. } => d == device,
            Stage::ReadingSyncCompleted { device: d, .. } => d == device,
            Stage::ReadingDegraded { device: d, .. } => d == device,
            Stage::PublishingState { device: d, .. } => d == device,
            Stage::PublishingAttributes { device: d } => d == device,
            _ => false,
        }
    }
}

/// The text in `encoded`, if any.
pub open spec fn text_of(encoded: Option<String>) -> Option<Seq<char>> {
    match encoded {
        Some(text) => Some(text@),
        None => None,
    }
}

/// `step` ends the loop and reports `failure`.
pub open spec fn aborts(step: Step, failure: Option<Failure>) -> bool {
    &&& step.stage == Stage::Aborted
    &&& step.action == Action::Abort
    &&& step.failure == failure
}

/// `step` starts the work on the device at `device`: it asks for the SMART
/// report of a disk, or for the first status text of an array. Past the last
/// device it sleeps for the configured interval.
pub open spec fn begins(config: Config, device: int, step: Step) -> bool {
    if 0 <= device < config.devices@.len() {
        match config.devices@[device] {
            MonDevice::Sata { device: id, .. } => {
                &&& step.stage matches Stage::Querying { device: d }
                &&& d == device
                &&& step.action.queries(device_path(id@))
            },
            MonDevice::MdRaid { device: id, .. } => {
                &&& step.stage matches Stage::ReadingUuid { device: d }
                &&& d == device
                &&& step.action.reads(status_path(id@, RaidField::Uuid))
            },
        }
    } else {
        &&& step.stage == Stage::Sleeping
        &&& step.action == Action::Sleep { seconds: config.interval }
    }
}

/// `step` leaves the device at `device`, with `failure` on record, and
/// starts the work on the next one.
pub open spec fn moves_on(config: Config, device: int, failure: Option<Failure>, step: Step) -> bool {
    begins(config, device + 1, step) && step.failure == failure
}

/// `step` leaves the device at `device` because of `cause`.
pub open spec fn gives_up(config: Config, device: usize, cause: Cause, step: Step) -> bool {
    moves_on(config, device as int, Some(Failure { device, cause }), step)
}

/// `step` announces the device at `device` with the payload `encoded`,
/// retained; without a payload it ends the loop. Past the last device it
/// starts the first cycle.
pub open spec fn announces(
    config: Config,
    device: int,
    encoded: Option<Seq<char>>,
    step: Step,
) -> bool {
    if 0 <= device < config.devices@.len() {
        match encoded {
            Some(payload) => {
                &&& step.stage matches Stage::Announcing { device: d }
                &&& d == device
                &&& step.action.publishes(
                    discovery_topic(
                        config.prefix(),
                        config.node_id@,
                        config.devices@[device].id(),
                    ),
                    true,
                    payload,
                )
                &&& step.failure is None
            },
            None => {
                &&& step.stage == Stage::Aborted
                &&& step.action == Action::Abort
                &&& step.failure matches Some(failure)
                &&& failure.device == device
                &&& failure.cause == Cause::Encoding
            },
        }
    } else {
        begins(config, 0, step) && step.failure is None
    }
}

/// `step` publishes `state` as the state of the device at `device` and
/// keeps the attributes `encoded` for the next message; without them it
/// leaves the device.
pub open spec fn reports(
    config: Config,
    device: usize,
    state: Seq<char>,
    encoded: Option<Seq<char>>,
    step: Step,
) -> bool
    recommends
        device < config.devices@.len(),
{
    match encoded {
        Some(payload) => {
            &&& step.stage matches Stage::PublishingState { device: d, attributes }
            &&& d == device
            &&& attributes@ == payload
            &&& step.action.publishes(
                state_topic(config.node_id@, config.devices@[device as int].id()),
                false,
                state,
            )
            &&& step.failure is None
        },
        None => gives_up(config, device, Cause::Encoding, step),
    }
}

/// `step` asks for the status text `field` of the array at `device`.
pub open spec fn asks_for(config: Config, device: usize, field: RaidField, step: Step) -> bool
    recommends
        device < config.devices@.len(),
{
    &&& step.action.reads(status_path(config.devices@[device as int].id(), field))
    &&& step.failure is None
}

/// What is the matter when `event` is not the outcome that was hoped for.
pub open spec fn cause_of(event: Event) -> Cause {
    match event {
        Event::PublishFailed => Cause::Publish,
        Event::SmartUnavailable => Cause::Poll(PollError::ToolUnavailable),
        Event::SmartMalformed => Cause::Poll(PollError::MalformedOutput),
        _ => Cause::Unexpected,
    }
}

/// What is the matter when the status text `field` was not read.
pub open spec fn unread(field: RaidField, event: Event) -> Cause {
    match event {
        Event::StatusUnreadable => Cause::Poll(PollError::SourceUnavailable(field)),
        _ => Cause::Unexpected,
    }
}

/// What the loop has to write as JSON before it can decide: the discovery
/// of the next device, or the attributes of the device just polled.
pub open spec fn due(config: Config, stage: Stage, event: Event) -> Option<Json> {
    match (stage, event) {
        (Stage::Announcing { device }, Event::Published) => if device + 1
            < config.devices@.len() {
            Some(discovery_model(config.node_id@, config.devices@[device + 1]))
        } else {
            None
        },
        (Stage::Querying { device }, Event::SmartReported(results)) => if device
            < config.devices@.len() {
            Some(smart_model(results))
        } else {
            None
        },
        (
            Stage::ReadingDegraded { device, uuid, sync_action, sync_completed },
            Event::StatusRead(text),
        ) => match status_number(text@) {
            Some(n) => if device < config.devices@.len() {
                Some(
                    raid_model(
                        trimmed(uuid@),
                        trimmed(sync_action@),
                        sync_progress(sync_completed@),
                        n,
                    ),
                )
            } else {
                None
            },
            None => None,
        },
        _ => None,
    }
}

/// What the loop has to write as JSON before it starts.
pub open spec fn due_at_start(config: Config) -> Option<Json> {
    if config.devices@.len() > 0 {
        Some(discovery_model(config.node_id@, config.devices@[0]))
    } else {
        None
    }
}

/// `step` is the decision of the loop in `stage` on `event`, where
/// `encoded` is the JSON text of what was `due`, or nothing where that
/// could not be written.
pub open spec fn follows(
    config: Config,
    stage: Stage,
    event: Event,
    encoded: Option<Seq<char>>,
    step: Step,
) -> bool {
    match stage {
        Stage::Aborted => aborts(step, None),
        Stage::Sleeping => match event {
            Event::Slept => begins(config, 0, step) && step.failure is None,
            _ => {
                &&& step.stage == Stage::Sleeping
                &&& step.action == Action::Sleep { seconds: config.interval }
                &&& step.failure is None
            },
        },
        Stage::Announcing { device } => match event {
            Event::Published => announces(config, device + 1, encoded, step),
            _ => aborts(step, Some(Failure { device, cause: cause_of(event) })),
        },
        Stage::Querying { device } => if device < config.devices@.len() {
            match event {
                Event::SmartReported(results) => reports(
                    config,
                    device,
                    sata_state(results.smart_status.passed),
                    encoded,
                    step,
                ),
                _ => gives_up(config, device, cause_of(event), step),
            }
        } else {
            gives_up(config, device, Cause::Unexpected, step)
        },
        Stage::ReadingUuid { device } => if device < config.devices@.len() {
            match event {
                Event::StatusRead(text) => {
                    &&& step.stage matches Stage::ReadingSyncAction { device: d, uuid }
                    &&& d == device
                    &&& uuid@ == text@
                    &&& asks_for(config, device, RaidField::SyncAction, step)
                },
                _ => gives_up(config, device, unread(RaidField::Uuid, event), step),
            }
        } else {
            gives_up(config, device, Cause::Unexpected, step)
        },
        Stage::ReadingSyncAction { device, uuid } => if device < config.devices@.len() {
            match event {
                Event::StatusRead(text) => {
                    &&& step.stage matches Stage::ReadingSyncCompleted {
                        device: d,
                        uuid: u,
                        sync_action,
                    }
                    &&& d == device
                    &&& u@ == uuid@
                    &&& sync_action@ == text@
                    &&& asks_for(config, device, RaidField::SyncCompleted, step)
                },
                _ => gives_up(config, device, unread(RaidField::SyncAction, event), step),
            }
        } else {
            gives_up(config, device, Cause::Unexpected, step)
        },
        Stage::ReadingSyncCompleted { device, uuid, sync_action } => if device
            < config.devices@.len() {
            match event {
                Event::StatusRead(text) => {
                    &&& step.stage matches Stage::ReadingDegraded {
                        device: d,
                        uuid: u,
                        sync_action: a,
                        sync_completed,
                    }
                    &&& d == device
                    &&& u@ == uuid@
                    &&& a@ == sync_action@
                    &&& sync_completed@ == text@
                    &&& asks_for(config, device, RaidField::Degraded, step)
                },
                _ => gives_up(config, device, unread(RaidField::SyncCompleted, event), step),
            }
        } else {
            gives_up(config, device, Cause::Unexpected, step)
        },
        Stage::ReadingDegraded { device, uuid, sync_action, sync_completed } => if device
            < config.devices@.len() {
            match event {
                Event::StatusRead(text) => match status_number(text@) {
                    Some(n) => reports(
                        config,
                        device,
                        raid_state(n, sync_action@),
                        encoded,
                        step,
                    ),
                    None => gives_up(
                        config,
                        device,
                        Cause::Poll(PollError::MalformedOutput),
                        step,
                    ),
                },
                _ => gives_up(config, device, unread(RaidField::Degraded, event), step),
            }
        } else {
            gives_up(config, device, Cause::Unexpected, step)
        },
        Stage::PublishingState { device, attributes } => if device < config.devices@.len() {
            match event {
                Event::Published => {
                    &&& step.stage == Stage::PublishingAttributes { device }
                    &&& step.action.publishes(
                        attributes_topic(config.node_id@, config.devices@[device as int].id()),
                        false,
                        attributes@,
                    )
                    &&& step.failure is None
                },
                _ => gives_up(config, device, cause_of(event), step),
            }
        } else {
            gives_up(config, device, Cause::Unexpected, step)
        },
        Stage::PublishingAttributes { device } => match event {
            Event::Published => moves_on(config, device as int, None, step),
            _ => gives_up(config, device, cause_of(event), step),
        },
    }
}

/// The step that ends the loop.
fn abort(failure: Option<Failure>) -> (step: Step)
    ensures
        aborts(step, failure),
{
    Step { stage: Stage::Aborted, action: Action::Abort, failure }
}

/// The step that starts the work on the device at `device`.
fn begin(config: &Config, device: usize, failure: Option<Failure>) -> (step: Step)
    ensures
        begins(*config, device as int, step),
        step.failure == failure,
{
    if device < config.devices.len() {
        match &config.devices[device] {
            MonDevice::Sata { device: id, .. } => Step {
                stage: Stage::Querying { device },
                action: Action::QuerySmart { path: get_device_path(id.as_str()) },
                failure,
            },
            MonDevice::MdRaid { device: id, .. } => Step {
                stage: Stage::ReadingUuid { device },
                action: Action::ReadStatus {
                    path: get_status_path(id.as_str(), RaidField::Uuid),
                },
                failure,
            },
        }
    } else {
        Step { stage: Stage::Sleeping, action: Action::Sleep { seconds: config.interval }, failure }
    }
}

/// The step that leaves the device at `device` and starts the work on the
/// next one.
fn move_on(config: &Config, device: usize, failure: Option<Failure>) -> (step: Step)
    ensures
        moves_on(*config, device as int, failure, step),
{
    if device < config.devices.len() {
        begin(config, device + 1, failure)
    } else {
        begin(config, device, failure)
    }
}

/// The step that leaves the device at `device` because of `cause`.
fn give_up(config: &Config, device: usize, cause: Cause) -> (step: Step)
    ensures
        gives_up(*config, device, cause, step),
{
    move_on(config, device, Some(Failure { device, cause }))
}

/// The step that announces the device after the one at `device`.
fn announce_after(config: &Config, device: usize, encoded: Option<String>) -> (step: Step)
    ensures
        announces(*config, device + 1, text_of(encoded), step),
{
    if device < config.devices.len() {
        announce(config, device + 1, encoded)
    } else {
        begin(config, 0, None)
    }
}

/// The step that announces the device at `device`.
fn announce(config: &Config, device: usize, encoded: Option<String>) -> (step: Step)
    ensures
        announces(*config, device as int, text_of(encoded), step),
{
    if device < config.devices.len() {
        match encoded {
            Some(payload) => {
                let topic = get_discovery_topic(
                    discovery_prefix(config),
                    config.node_id.as_str(),
                    get_device_id(&config.devices[device]),
                );
                Step {
                    stage: Stage::Announcing { device },
                    action: Action::Publish(
                        Message { topic, delivery: Delivery::AtLeastOnce, retain: true, payload },
                    ),
                    failure: None,
                }
            },
            None => abort(Some(Failure { device, cause: Cause::Encoding })),
        }
    } else {
        begin(config, 0, None)
    }
}

/// The step that publishes `state` as the state of the device at `device`.
fn report(config: &Config, device: usize, state: String, encoded: Option<String>) -> (step: Step)
    requires
        device < config.devices@.len(),
    ensures
        reports(*config, device, state@, text_of(encoded), step),
{
    match encoded {
        Some(attributes) => {
            let topic = get_state_topic(
                config.node_id.as_str(),
                get_device_id(&config.devices[device]),
            );
            Step {
                stage: Stage::PublishingState { device, attributes },
                action: Action::Publish(
                    Message {
                        topic,
                        delivery: Delivery::AtLeastOnce,
                        retain: false,
                        payload: state,
                    },
                ),
                failure: None,
            }
        },
        None => give_up(config, device, Cause::Encoding),
    }
}

/// The action that reads the status text `field` of the array at `device`.
fn ask_for(config: &Config, device: usize, field: RaidField) -> (action: Action)
    requires
        device < config.devices@.len(),
    ensures
        action.reads(status_path(config.devices@[device as int].id(), field)),
{
    Action::ReadStatus { path: get_status_path(get_device_id(&config.devices[device]), field) }
}

/// What is the matter when `event` is not the outcome that was hoped for.
fn get_cause(event: &Event) -> (cause: Cause)
    ensures
        cause == cause_of(*event),
{
    match event {
        Event::PublishFailed => Cause::Publish,
        Event::SmartUnavailable => Cause::Poll(PollError::ToolUnavailable),
        Event::SmartMalformed => Cause::Poll(PollError::MalformedOutput),
        _ => Cause::Unexpected,
    }
}

/// What is the matter when the status text `field` was not read.
fn get_unread(field: RaidField, event: &Event) -> (cause: Cause)
    ensures
        cause == unread(field, *event),
{
    match event {
        Event::StatusUnreadable => Cause::Poll(PollError::SourceUnavailable(field)),
        _ => Cause::Unexpected,
    }
}

/// The decision of the loop in `stage` on `event`, given in `encoded` the
/// JSON text that the decision needs, or nothing where that text could not
/// be written or none is needed.
pub fn settle(config: &Config, stage: Stage, event: Event, encoded: Option<String>) -> (step: Step)
    ensures
        follows(*config, stage, event, text_of(encoded), step),
{
    match stage {
        Stage::Aborted => abort(None),
        Stage::Sleeping => match event {
            Event::Slept => begin(config, 0, None),
            _ => Step {
                stage: Stage::Sleeping,
                action: Action::Sleep { seconds: config.interval },
                failure: None,
            },
        },
        Stage::Announcing { device } => match event {
            Event::Published => announce_after(config, device, encoded),
            _ => abort(Some(Failure { device, cause: get_cause(&event) })),
        },
        Stage::Querying { device } => {
            if device >= config.devices.len() {
                return give_up(config, device, Cause::Unexpected);
            }
            match event {
                Event::SmartReported(results) => {
                    let health = sata_report(results);
                    report(config, device, health.state, encoded)
                },
                _ => give_up(config, device, get_cause(&event)),
            }
        },
        Stage::ReadingUuid { device } => {
            if device >= config.devices.len() {
                return give_up(config, device, Cause::Unexpected);
            }
            match event {
                Event::StatusRead(text) => Step {
                    stage: Stage::ReadingSyncAction { device, uuid: text },
                    action: ask_for(config, device, RaidField::SyncAction),
                    failure: None,
                },
                _ => give_up(config, device, get_unread(RaidField::Uuid, &event)),
            }
        },
        Stage::ReadingSyncAction { device, uuid } => {
            if device >= config.devices.len() {
                return give_up(config, device, Cause::Unexpected);
            }
            match event {
                Event::StatusRead(text) => Step {
                    stage: Stage::ReadingSyncCompleted { device, uuid, sync_action: text },
                    action: ask_for(config, device, RaidField::SyncCompleted),
                    failure: None,
                },
                _ => give_up(config, device, get_unread(RaidField::SyncAction, &event)),
            }
        },
        Stage::ReadingSyncCompleted { device, uuid, sync_action } => {
            if device >= config.devices.len() {
                return give_up(config, device, Cause::Unexpected);
            }
            match event {
                Event::StatusRead(text) => Step {
                    stage: Stage::ReadingDegraded {
                        device,
                        uuid,
                        sync_action,
                        sync_completed: text,
                    },
                    action: ask_for(config, device, RaidField::Degraded),
                    failure: None,
                },
                _ => give_up(config, device, get_unread(RaidField::SyncCompleted, &event)),
            }
        },
        Stage::ReadingDegraded { device, uuid, sync_action, sync_completed } => {
            if device >= config.devices.len() {
                return give_up(config, device, Cause::Unexpected);
            }
            match event {
                Event::StatusRead(text) => {
                    match raid_report(
                        uuid.as_str(),
                        sync_action.as_str(),
                        sync_completed.as_str(),
                        text.as_str(),
                    ) {
                        Ok(health) => report(config, device, health.state, encoded),
                        Err(error) => give_up(config, device, Cause::Poll(error)),
                    }
                },
                _ => give_up(config, device, get_unread(RaidField::Degraded, &event)),
            }
        },
        Stage::PublishingState { device, attributes } => {
            if device >= config.devices.len() {
                return give_up(config, device, Cause::Unexpected);
            }
            match event {
                Event::Published => {
                    let topic = get_attributes_topic(
                        config.node_id.as_str(),
                        get_device_id(&config.devices[device]),
                    );
                    Step {
                        stage: Stage::PublishingAttributes { device },
                        action: Action::Publish(
                            Message {
                                topic,
                                delivery: Delivery::AtLeastOnce,
                                retain: false,
                                payload: attributes,
                            },
                        ),
                        failure: None,
                    }
                },
                _ => give_up(config, device, get_cause(&event)),
            }
        },
        Stage::PublishingAttributes { device } => match event {
            Event::Published => move_on(config, device, None),
            _ => give_up(config, device, get_cause(&event)),
        },
    }
}

/// The JSON value that the loop has to write before it can decide.
fn due_value(config: &Config, stage: &Stage, event: &Event) -> (value: Option<serde_json::Value>)
    ensures
        match due(*config, *stage, *event) {
            Some(model) => value matches Some(v) && value_model(v) == model,
            None => value is None,
        },
{
    match (stage, event) {
        (Stage::Announcing { device }, Event::Published) => {
            let count = config.devices.len();
            if *device < count && *device + 1 < count {
                Some(discovery_value(config.node_id.as_str(), &config.devices[*device + 1]))
            } else {
                None
            }
        },
        (Stage::Querying { device }, Event::SmartReported(results)) => {
            if *device < config.devices.len() {
                Some(smart_value(results))
            } else {
                None
            }
        },
        (
            Stage::ReadingDegraded { device, uuid, sync_action, sync_completed },
            Event::StatusRead(text),
        ) => {
            match raid_report(
                uuid.as_str(),
                sync_action.as_str(),
                sync_completed.as_str(),
                text.as_str(),
            ) {
                Ok(health) => {
                    if *device < config.devices.len() {
                        Some(attributes_value(&health.attributes))
                    } else {
                        None
                    }
                },
                Err(_) => None,
            }
        },
        _ => None,
    }
}

/// The JSON text of `value`, where there is one.
fn encode(value: Option<serde_json::Value>) -> (encoded: Option<String>)
    ensures
        match value {
            Some(v) => encoded matches Some(text) && text@ == json_text(value_model(v)),
            None => encoded is None,
        },
{
    match value {
        Some(v) => match value_text(&v) {
            Ok(text) => Some(text),
            Err(_) => None,
        },
        None => None,
    }
}

/// The first decision of the loop: it announces the first device, or
/// starts the first cycle where there is no device.
pub fn start(config: &Config) -> (step: Step)
    ensures
        match due_at_start(*config) {
            Some(model) => announces(*config, 0, Some(json_text(model)), step),
            None => announces(*config, 0, None, step),
        },
{
    let value = if config.devices.len() > 0 {
        Some(discovery_value(config.node_id.as_str(), &config.devices[0]))
    } else {
        None
    };
    announce(config, 0, encode(value))
}

/// The decision of the loop in `stage` on `event`.
///
/// Where the decision needs a JSON text, the step is the one for that text.
pub fn step(config: &Config, stage: Stage, event: Event) -> (step: Step)
    ensures
        match due(*config, stage, event) {
            Some(model) => follows(*config, stage, event, Some(json_text(model)), step),
            None => follows(*config, stage, event, None, step),
        },
{
    let encoded = encode(due_value(config, &stage, &event));
    settle(config, stage, event, encoded)
}

/// A run of the loop: the first step is the start, and each further step is
/// the decision on the outcome of the one before. `encoded[i]` is the JSON
/// text that step `i` was decided with, if any.
pub open spec fn is_run(
    config: Config,
    events: Seq<Event>,
    encoded: Seq<Option<Seq<char>>>,
    steps: Seq<Step>,
) -> bool {
    &&& steps.len() == events.len() + 1
    &&& encoded.len() == steps.len()
    &&& announces(config, 0, encoded[0], steps[0])
    &&& forall|i: int|
        0 <= i < events.len() ==> #[trigger] decided(config, events, encoded, steps, i)
}

/// Step `i + 1` is the decision on the outcome of step `i`.
#[verifier::opaque]
pub open spec fn decided(
    config: Config,
    events: Seq<Event>,
    encoded: Seq<Option<Seq<char>>>,
    steps: Seq<Step>,
    i: int,
) -> bool {
    follows(config, steps[i].stage, events[i], encoded[i + 1], steps[i + 1])
}

/// In a run, each step but the first is the decision on the outcome of the
/// step before.
pub proof fn lemma_run_step(
    config: Config,
    events: Seq<Event>,
    encoded: Seq<Option<Seq<char>>>,
    steps: Seq<Step>,
    i: int,
)
    requires
        is_run(config, events, encoded, steps),
        0 <= i < events.len(),
    ensures
        follows(config, steps[i].stage, events[i], encoded[i + 1], steps[i + 1]),
{
    reveal(decided);
    assert(decided(config, events, encoded, steps, i));
}

impl Stage {
    /// How many decisions the work on the stage's device can still take,
    /// this one included.
    pub open spec fn rank(self) -> nat {
        match self {
            Stage::ReadingUuid { .. } => 6,
            Stage::ReadingSyncAction { .. } => 5,
            Stage::ReadingSyncCompleted { .. } => 4,
            Stage::ReadingDegraded { .. } => 3,
            Stage::Querying { .. } => 3,
            Stage::PublishingState { .. } => 2,
            Stage::PublishingAttributes { .. } => 1,
            _ => 0,
        }
    }
}

/// An announcement that is not published ends the loop, whichever device
/// it was for and whatever else the outcome is.
pub proof fn lemma_failed_announcement_aborts(
    config: Config,
    device: usize,
    event: Event,
    encoded: Option<Seq<char>>,
    step: Step,
)
    requires
        !(event is Published),
        follows(config, Stage::Announcing { device }, event, encoded, step),
    ensures
        step.stage == Stage::Aborted,
        step.action == Action::Abort,
        step.failure matches Some(failure) && failure.device == device,
{
}

/// Once the loop has ended, every decision is to end it.
pub proof fn lemma_aborted_is_final(
    config: Config,
    event: Event,
    encoded: Option<Seq<char>>,
    step: Step,
)
    requires
        follows(config, Stage::Aborted, event, encoded, step),
    ensures
        aborts(step, None),
{
}

/// While the loop announces, it publishes retained messages and nothing
/// else, and only a stage that announces leads to one that announces.
proof fn lemma_announcing_comes_from_announcing(
    config: Config,
    stage: Stage,
    event: Event,
    encoded: Option<Seq<char>>,
    step: Step,
)
    requires
        follows(config, stage, event, encoded, step),
        step.stage is Announcing,
    ensures
        stage is Announcing,
        step.action matches Action::Publish(message) && message.retain,
{
}

/// In a run, every step up to one that announces also announces, with a
/// retained message.
proof fn lemma_announcing_is_a_prefix(
    config: Config,
    events: Seq<Event>,
    encoded: Seq<Option<Seq<char>>>,
    steps: Seq<Step>,
    k: int,
    j: int,
)
    requires
        is_run(config, events, encoded, steps),
        0 <= j <= k < steps.len(),
        steps[k].stage is Announcing,
    ensures
        steps[j].stage is Announcing,
        steps[j].action matches Action::Publish(message) && message.retain,
    decreases k - j,
{
    if j < k {
        lemma_announcing_is_a_prefix(config, events, encoded, steps, k, j + 1);
        lemma_run_step(config, events, encoded, steps, j);
        lemma_announcing_comes_from_announcing(
            config,
            steps[j].stage,
            events[j],
            encoded[j + 1],
            steps[j + 1],
        );
    }
    if j > 0 {
        lemma_run_step(config, events, encoded, steps, j - 1);
        lemma_announcing_comes_from_announcing(
            config,
            steps[j - 1].stage,
            events[j - 1],
            encoded[j],
            steps[j],
        );
    }
}

/// In a run, every step after one that ends the loop ends the loop.
proof fn lemma_aborted_is_a_suffix(
    config: Config,
    events: Seq<Event>,
    encoded: Seq<Option<Seq<char>>>,
    steps: Seq<Step>,
    k: int,
    j: int,
)
    requires
        is_run(config, events, encoded, steps),
        0 <= k <= j < steps.len(),
        steps[k].stage is Aborted,
        steps[k].action is Abort,
    ensures
        steps[j].stage is Aborted,
        steps[j].action is Abort,
    decreases j - k,
{
    if k < j {
        lemma_aborted_is_a_suffix(config, events, encoded, steps, k, j - 1);
        lemma_run_step(config, events, encoded, steps, j - 1);
    }
}

/// Where an announcement fails in a run, no step of the run polls a device
/// or sleeps: up to the failure the loop publishes retained announcements,
/// and from there on it only ends.
pub proof fn lemma_no_polling_after_failed_announcement(
    config: Config,
    events: Seq<Event>,
    encoded: Seq<Option<Seq<char>>>,
    steps: Seq<Step>,
    k: int,
)
    requires
        is_run(config, events, encoded, steps),
        0 <= k < events.len(),
        steps[k].stage is Announcing,
        !(events[k] is Published),
    ensures
        forall|j: int|
            0 <= j <= k ==> ((#[trigger] steps[j]).action matches Action::Publish(message)
                && message.retain),
        forall|j: int| k < j < steps.len() ==> (#[trigger] steps[j]).action is Abort,
        forall|j: int|
            0 <= j < steps.len() ==> !(#[trigger] steps[j]).action.polls() && !(
            steps[j].action is Sleep),
{
    assert forall|j: int| 0 <= j <= k implies ((#[trigger] steps[j]).action matches Action::Publish(
        message,
    ) && message.retain) by {
        lemma_announcing_is_a_prefix(config, events, encoded, steps, k, j);
    }
    lemma_run_step(config, events, encoded, steps, k);
    assert forall|j: int| k < j < steps.len() implies (#[trigger] steps[j]).action is Abort by {
        lemma_aborted_is_a_suffix(config, events, encoded, steps, k + 1, j);
    }
}

/// Whatever the outcome of an action for a device, the loop goes on: it
/// neither ends nor sleeps before its time. It stays with the device, one
/// decision nearer to leaving it, or it starts the work on the next device.
pub proof fn lemma_device_outcome_goes_on(
    config: Config,
    device: int,
    stage: Stage,
    event: Event,
    encoded: Option<Seq<char>>,
    step: Step,
)
    requires
        stage.works_on(device),
        follows(config, stage, event, encoded, step),
    ensures
        !(step.stage is Aborted),
        !(step.action is Abort),
        begins(config, device + 1, step) || (step.stage.works_on(device) && step.stage.rank()
            < stage.rank() ),
{
}

/// An action for a device that fails makes the loop leave that device, put
/// the failure on record, and start the work on the next one.
pub proof fn lemma_device_failure_moves_on(
    config: Config,
    device: usize,
    stage: Stage,
    event: Event,
    encoded: Option<Seq<char>>,
    step: Step,
)
    requires
        stage.works_on(device as int),
        event is PublishFailed || event is StatusUnreadable || event is SmartUnavailable
            || event is SmartMalformed,
        follows(config, stage, event, encoded, step),
    ensures
        begins(config, device + 1, step),
        step.failure matches Some(failure) && failure.device == device,
{
}

/// In a run, the work on a device is over within as many decisions as its
/// stage's rank, whatever the outcomes are, and the loop then starts the
/// work on the next device.
pub proof fn lemma_next_device_is_reached(
    config: Config,
    events: Seq<Event>,
    encoded: Seq<Option<Seq<char>>>,
    steps: Seq<Step>,
    i: int,
    device: int,
) -> (j: int)
    requires
        is_run(config, events, encoded, steps),
        0 <= i,
        steps[i].stage.works_on(device),
        i + steps[i].stage.rank() < steps.len(),
    ensures
        i < j <= i + steps[i].stage.rank(),
        begins(config, device + 1, steps[j]),
        forall|m: int| i <= m < j ==> (#[trigger] steps[m]).stage.works_on(device),
    decreases steps[i].stage.rank(),
{
    lemma_run_step(config, events, encoded, steps, i);
    lemma_device_outcome_goes_on(
        config,
        device,
        steps[i].stage,
        events[i],
        encoded[i + 1],
        steps[i + 1],
    );
    if begins(config, device + 1, steps[i + 1]) {
        i + 1
    } else {
        lemma_next_device_is_reached(config, events, encoded, steps, i + 1, device)
    }
}

/// In a run, once the loop starts the work on the device at `from`, it
/// starts the work on every later device `to` of the configuration within
/// six decisions per device, whatever happens to the devices between them:
/// no outcome of one device keeps another from being polled in the same
/// cycle.
pub proof fn lemma_every_device_is_polled(
    config: Config,
    events: Seq<Event>,
    encoded: Seq<Option<Seq<char>>>,
    steps: Seq<Step>,
    i: int,
    from: int,
    to: int,
) -> (j: int)
    requires
        is_run(config, events, encoded, steps),
        0 <= i,
        0 <= from <= to < config.devices@.len(),
        begins(config, from, steps[i]),
        i + 6 * (to - from) < steps.len(),
    ensures
        i <= j <= i + 6 * (to - from),
        begins(config, to, steps[j]),
        steps[j].action.polls(),
        forall|m: int|
            i <= m < j ==> !((#[trigger] steps[m]).stage is Sleeping) && !(steps[m].stage
                is Aborted),
    decreases to - from,
{
    if from == to {
        i
    } else {
        assert(steps[i].stage.works_on(from));
        let next = lemma_next_device_is_reached(config, events, encoded, steps, i, from);
        let j = lemma_every_device_is_polled(config, events, encoded, steps, next, from + 1, to);
        assert forall|m: int| i <= m < j implies !((#[trigger] steps[m]).stage is Sleeping) && !(
        steps[m].stage is Aborted) by {
            if m < next {
                assert(steps[m].stage.works_on(from));
            }
        }
        j
    }
}

} // verus!
