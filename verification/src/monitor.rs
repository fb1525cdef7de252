//! What polling one device yields: a short state and a set of attributes,
//! for a SATA disk from its SMART report and for a software RAID array from
//! the four status texts that the kernel offers.

use crate::json::{
    bool_value, number_value, object_fields, object_value, text_value, value_model, Json,
};
use crate::percent::{convert_percent, fraction, percent_text};
use crate::smartmon_types::SmartMonResults;
use crate::text::{number, parse_u64, trim, trimmed};
use vstd::prelude::*;

verus! {

/// The status texts of an array.
#[derive(Debug, Clone, Copy, PartialEq, Eq)]
pub enum RaidField {
    Uuid,
    SyncAction,
    SyncCompleted,
    Degraded,
}

/// Why a device could not be polled.
#[derive(Debug, Clone, Copy, PartialEq, Eq)]
pub enum PollError {
    /// The SMART tool could not be run.
    ToolUnavailable,
    /// What the tool or the kernel gave is not of the expected form.
    MalformedOutput,
    /// A status text could not be read.
    SourceUnavailable(RaidField),
}

/// The attributes of an array, each text without surrounding white space.
#[derive(Debug, Clone)]
pub struct RaidStatus {
    pub uuid: String,
    pub sync_action: String,
    pub sync_progress: String,
    pub degraded_by: usize,
}

/// The attributes of a device.
#[derive(Debug, Clone)]
pub enum Attributes {
    Sata(SmartMonResults),
    MdRaid(RaidStatus),
}

/// The outcome of polling one device.
#[derive(Debug, Clone)]
pub struct HealthReport {
    pub state: String,
    pub attributes: Attributes,
}

pub open spec fn healthy() -> Seq<char> {
    seq!['H', 'e', 'a', 'l', 't', 'h', 'y']
}

pub open spec fn not_healthy() -> Seq<char> {
    seq!['N', 'o', 't', ' ', 'h', 'e', 'a', 'l', 't', 'h', 'y']
}

pub open spec fn degraded_state() -> Seq<char> {
    seq!['D', 'e', 'g', 'r', 'a', 'd', 'e', 'd']
}

/// The state of a disk: healthy where its self-assessment passed.
pub open spec fn sata_state(passed: bool) -> Seq<char> {
    if passed {
        healthy()
    } else {
        not_healthy()
    }
}

/// The state of an array: degraded where it misses a member, whatever it is
/// doing; else what it is doing.
pub open spec fn raid_state(degraded: nat, sync_action: Seq<char>) -> Seq<char> {
    if degraded > 0 {
        degraded_state()
    } else {
        trimmed(sync_action)
    }
}

/// The progress of an array's synchronisation: a percentage where the text is
/// a fraction, else the text itself without surrounding white space.
pub open spec fn sync_progress(sync_completed: Seq<char>) -> Seq<char> {
    match fraction(sync_completed) {
        Some((count, total)) => percent_text(count, total),
        None => trimmed(sync_completed),
    }
}

/// The number in a status text, white space around it allowed, where it
/// fits in a `usize`.
pub open spec fn status_number(text: Seq<char>) -> Option<nat> {
    match number(trimmed(text)) {
        Some(n) => if n <= usize::MAX {
            Some(n)
        } else {
            None
        },
        None => None,
    }
}

/// A state that can be published as it is: not empty and without control
/// characters.
pub open spec fn is_plain_state(state: Seq<char>) -> bool {
    &&& state.len() > 0
    &&& forall|i: int| 0 <= i < state.len() ==> !is_control(#[trigger] state[i])
}

pub open spec fn is_control(c: char) -> bool {
    c as u32 <= 0x1F || 0x7F <= c as u32 <= 0x9F
}

pub open spec fn key_uuid() -> Seq<char> {
    seq!['u', 'u', 'i', 'd']
}

pub open spec fn key_sync_action() -> Seq<char> {
    seq!['s', 'y', 'n', 'c', '_', 'a', 'c', 't', 'i', 'o', 'n']
}

pub open spec fn key_sync_progress() -> Seq<char> {
    seq!['s', 'y', 'n', 'c', '_', 'p', 'r', 'o', 'g', 'r', 'e', 's', 's']
}

pub open spec fn key_degraded_by() -> Seq<char> {
    seq!['d', 'e', 'g', 'r', 'a', 'd', 'e', 'd', '_', 'b', 'y']
}

pub open spec fn key_serial_number() -> Seq<char> {
    seq!['s', 'e', 'r', 'i', 'a', 'l', '_', 'n', 'u', 'm', 'b', 'e', 'r']
}

pub open spec fn key_smart_status() -> Seq<char> {
    seq!['s', 'm', 'a', 'r', 't', '_', 's', 't', 'a', 't', 'u', 's']
}

pub open spec fn key_passed() -> Seq<char> {
    seq!['p', 'a', 's', 's', 'e', 'd']
}

pub open spec fn key_model_family() -> Seq<char> {
    seq!['m', 'o', 'd', 'e', 'l', '_', 'f', 'a', 'm', 'i', 'l', 'y']
}

pub open spec fn key_model_name() -> Seq<char> {
    seq!['m', 'o', 'd', 'e', 'l', '_', 'n', 'a', 'm', 'e']
}

pub open spec fn key_temperature() -> Seq<char> {
    seq!['t', 'e', 'm', 'p', 'e', 'r', 'a', 't', 'u', 'r', 'e']
}

pub open spec fn key_current() -> Seq<char> {
    seq!['c', 'u', 'r', 'r', 'e', 'n', 't']
}

/// The JSON object that holds an array's attributes.
pub open spec fn raid_model(
    uuid: Seq<char>,
    sync_action: Seq<char>,
    sync_progress: Seq<char>,
    degraded_by: nat,
) -> Json {
    Json::Object(
        Map::empty().insert(key_uuid(), Json::Text(uuid)).insert(
            key_sync_action(),
            Json::Text(sync_action),
        ).insert(key_sync_progress(), Json::Text(sync_progress)).insert(
            key_degraded_by(),
            Json::Number(degraded_by),
        ),
    )
}

impl RaidStatus {
    /// The JSON object that holds the array's attributes.
    pub open spec fn model(self) -> Json {
        raid_model(self.uuid@, self.sync_action@, self.sync_progress@, self.degraded_by as nat)
    }
}

/// The JSON object that holds a SMART report.
pub open spec fn smart_model(results: SmartMonResults) -> Json {
    Json::Object(
        Map::empty().insert(key_serial_number(), Json::Text(results.serial_number@)).insert(
            key_smart_status(),
            Json::Object(Map::empty().insert(key_passed(), Json::Bool(results.smart_status.passed))),
        ).insert(key_model_family(), Json::Text(results.model_family@)).insert(
            key_model_name(),
            Json::Text(results.model_name@),
        ).insert(
            key_temperature(),
            Json::Object(
                Map::empty().insert(
                    key_current(),
                    Json::Number(results.temperature.current as nat),
                ),
            ),
        ),
    )
}

impl Attributes {
    /// The JSON object that holds the attributes.
    pub open spec fn model(self) -> Json {
        match self {
            Attributes::Sata(results) => smart_model(results),
            Attributes::MdRaid(status) => status.model(),
        }
    }
}

/// The states of a disk and the state of a degraded array can be published
/// as they are.
pub proof fn lemma_fixed_states_are_plain()
    ensures
        is_plain_state(healthy()),
        is_plain_state(not_healthy()),
        is_plain_state(degraded_state()),
{
}

/// The number in the text of a status file.
///
/// `Ok` with the number where the text, white space aside, is a decimal
/// number that fits in a `usize`; else `PollError::MalformedOutput`.
pub fn parse_file(text: &str) -> (parsed: Result<usize, PollError>)
    ensures
        match status_number(text@) {
            Some(n) => parsed == Ok::<usize, PollError>(n as usize),
            None => parsed == Err::<usize, PollError>(PollError::MalformedOutput),
        },
{
    match parse_u64(trim(text)) {
        Some(n) => {
            if n <= usize::MAX as u64 {
                Ok(n as usize)
            } else {
                Err(PollError::MalformedOutput)
            }
        },
        None => Err(PollError::MalformedOutput),
    }
}

/// The report on a disk with the SMART report `results`.
pub fn sata_report(results: SmartMonResults) -> (report: HealthReport)
    ensures
        report.state@ == sata_state(results.smart_status.passed),
        results.smart_status.passed ==> report.state@ == healthy(),
        !results.smart_status.passed ==> report.state@ == not_healthy(),
        report.attributes == Attributes::Sata(results),
        is_plain_state(report.state@),
{
    let state = if results.smart_status.passed {
        "Healthy"
    } else {
        "Not healthy"
    };
    proof {
        reveal_strlit("Healthy");
        reveal_strlit("Not healthy");
        assert("Healthy"@ =~= healthy());
        assert("Not healthy"@ =~= not_healthy());
    }
    HealthReport { state: state.to_owned(), attributes: Attributes::Sata(results) }
}

/// The report on an array with the four status texts as they were read.
///
/// `Ok` where `degraded` holds a number, else `PollError::MalformedOutput`.
/// The state is `Degraded` where that number is above zero, whatever
/// `sync_action` says, and else `sync_action` without surrounding white
/// space.
pub fn raid_report(uuid: &str, sync_action: &str, sync_completed: &str, degraded: &str) -> (report:
    Result<HealthReport, PollError>)
    ensures
        match status_number(degraded@) {
            Some(n) => {
                &&& report matches Ok(r)
                &&& r.state@ == raid_state(n, sync_action@)
                &&& n > 0 ==> r.state@ == degraded_state() && is_plain_state(r.state@)
                &&& n == 0 ==> r.state@ == trimmed(sync_action@)
                &&& r.attributes matches Attributes::MdRaid(status)
                &&& status.uuid@ == trimmed(uuid@)
                &&& status.sync_action@ == trimmed(sync_action@)
                &&& status.sync_progress@ == sync_progress(sync_completed@)
                &&& status.degraded_by == n
            },
            None => report == Err::<HealthReport, PollError>(PollError::MalformedOutput),
        },
{
    let degraded_by = match parse_file(degraded) {
        Ok(n) => n,
        Err(e) => {
            return Err(e);
        },
    };
    let progress = match convert_percent(sync_completed) {
        Some(percent) => percent,
        None => trim(sync_completed).to_owned(),
    };
    let state = if degraded_by > 0 {
        proof {
            reveal_strlit("Degraded");
            assert("Degraded"@ =~= degraded_state());
        }
        "Degraded".to_owned()
    } else {
        trim(sync_action).to_owned()
    };
    Ok(
        HealthReport {
            state,
            attributes: Attributes::MdRaid(
                RaidStatus {
                    uuid: trim(uuid).to_owned(),
                    sync_action: trim(sync_action).to_owned(),
                    sync_progress: progress,
                    degraded_by,
                },
            ),
        },
    )
}

/// The JSON value that holds a SMART report.
pub fn smart_value(results: &SmartMonResults) -> (value: serde_json::Value)
    ensures
        value_model(value) == smart_model(*results),
{
    let mut status = serde_json::Map::new();
    status.insert("passed".to_owned(), bool_value(results.smart_status.passed));
    let mut temperature = serde_json::Map::new();
    temperature.insert("current".to_owned(), number_value(results.temperature.current as u64));
    let mut object = serde_json::Map::new();
    object.insert("serial_number".to_owned(), text_value(results.serial_number.as_str()));
    object.insert("smart_status".to_owned(), object_value(status));
    object.insert("model_family".to_owned(), text_value(results.model_family.as_str()));
    object.insert("model_name".to_owned(), text_value(results.model_name.as_str()));
    object.insert("temperature".to_owned(), object_value(temperature));
    proof {
        reveal_strlit("passed");
        reveal_strlit("current");
        reveal_strlit("serial_number");
        reveal_strlit("smart_status");
        reveal_strlit("model_family");
        reveal_strlit("model_name");
        reveal_strlit("temperature");
        assert("passed"@ =~= key_passed());
        assert("current"@ =~= key_current());
        assert("serial_number"@ =~= key_serial_number());
        assert("smart_status"@ =~= key_smart_status());
        assert("model_family"@ =~= key_model_family());
        assert("model_name"@ =~= key_model_name());
        assert("temperature"@ =~= key_temperature());
    }
    object_value(object)
}

/// The JSON value that holds an array's attributes.
pub fn raid_value(status: &RaidStatus) -> (value: serde_json::Value)
    ensures
        value_model(value) == status.model(),
{
    let mut object = serde_json::Map::new();
    object.insert("uuid".to_owned(), text_value(status.uuid.as_str()));
    object.insert("sync_action".to_owned(), text_value(status.sync_action.as_str()));
    object.insert("sync_progress".to_owned(), text_value(status.sync_progress.as_str()));
    object.insert("degraded_by".to_owned(), number_value(status.degraded_by as u64));
    proof {
        reveal_strlit("uuid");
        reveal_strlit("sync_action");
        reveal_strlit("sync_progress");
        reveal_strlit("degraded_by");
        assert("uuid"@ =~= key_uuid());
        assert("sync_action"@ =~= key_sync_action());
        assert("sync_progress"@ =~= key_sync_progress());
        assert("degraded_by"@ =~= key_degraded_by());
    }
    object_value(object)
}

/// The JSON value that holds a device's attributes.
pub fn attributes_value(attributes: &Attributes) -> (value: serde_json::Value)
    ensures
        value_model(value) == attributes.model(),
{
    match attributes {
        Attributes::Sata(results) => smart_value(results),
        Attributes::MdRaid(status) => raid_value(status),
    }
}

pub open spec fn dev_prefix() -> Seq<char> {
    seq!['/', 'd', 'e', 'v', '/']
}

pub open spec fn block_prefix() -> Seq<char> {
    seq!['/', 's', 'y', 's', '/', 'c', 'l', 'a', 's', 's', '/', 'b', 'l', 'o', 'c', 'k', '/']
}

pub open spec fn md_infix() -> Seq<char> {
    seq!['/', 'm', 'd', '/']
}

/// The name of the file that holds a status text.
pub open spec fn field_name(field: RaidField) -> Seq<char> {
    match field {
        RaidField::Uuid => key_uuid(),
        RaidField::SyncAction => key_sync_action(),
        RaidField::SyncCompleted => seq![
            's',
            'y',
            'n',
            'c',
            '_',
            'c',
            'o',
            'm',
            'p',
            'l',
            'e',
            't',
            'e',
            'd',
        ],
        RaidField::Degraded => seq!['d', 'e', 'g', 'r', 'a', 'd', 'e', 'd'],
    }
}

/// `/dev/<id>`: where the SMART tool finds the disk `id`.
pub open spec fn device_path(id: Seq<char>) -> Seq<char> {
    dev_prefix() + id
}

/// `/sys/class/block/<id>/md/<field>`: where the kernel offers a status text
/// of the array `id`.
pub open spec fn status_path(id: Seq<char>, field: RaidField) -> Seq<char> {
    block_prefix() + id + md_infix() + field_name(field)
}

/// The path at which the SMART tool finds the disk `id`.
pub fn get_device_path(id: &str) -> (path: String)
    ensures
        path@ == device_path(id@),
{
    let mut path = "/dev/".to_owned();
    path.append(id);
    proof {
        reveal_strlit("/dev/");
        assert("/dev/"@ =~= dev_prefix());
    }
    path
}

/// The path at which the kernel offers the status text `field` of the array
/// `id`.
pub fn get_status_path(id: &str, field: RaidField) -> (path: String)
    ensures
        path@ == status_path(id@, field),
{
    let name = match field {
        RaidField::Uuid => "uuid",
        RaidField::SyncAction => "sync_action",
        RaidField::SyncCompleted => "sync_completed",
        RaidField::Degraded => "degraded",
    };
    let mut path = "/sys/class/block/".to_owned();
    path.append(id);
    path.append("/md/");
    path.append(name);
    proof {
        reveal_strlit("uuid");
        reveal_strlit("sync_action");
        reveal_strlit("sync_completed");
        reveal_strlit("degraded");
        reveal_strlit("/sys/class/block/");
        reveal_strlit("/md/");
        assert(name@ =~= field_name(field));
        assert("/sys/class/block/"@ =~= block_prefix());
        assert("/md/"@ =~= md_infix());
    }
    path
}

} // verus!
