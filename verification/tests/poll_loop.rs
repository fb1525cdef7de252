use disk_monitor::config_types::{Config, MonDevice};
use disk_monitor::monitor::{PollError, RaidField};
use disk_monitor::poll_loop::{
    settle, start, step, Action, Cause, Delivery, Event, Failure, Message, Stage, Step,
};
use disk_monitor::smartmon_types::{SmartMonResults, SmartMonStatus, SmartMonTemp};

fn sata(name: &str, device: &str) -> MonDevice {
    MonDevice::Sata { name: name.to_string(), device: device.to_string() }
}

fn raid(name: &str, device: &str) -> MonDevice {
    MonDevice::MdRaid { name: name.to_string(), device: device.to_string() }
}

fn config(devices: Vec<MonDevice>) -> Config {
    Config {
        discovery_prefix: None,
        node_id: "nas".to_string(),
        mqtt_host: "localhost".to_string(),
        mqtt_port: Some(1883),
        mqtt_user: "user".to_string(),
        mqtt_pass: "pass".to_string(),
        devices,
        interval: 30,
    }
}

fn smart(passed: bool) -> SmartMonResults {
    SmartMonResults {
        serial_number: "WD-123".to_string(),
        smart_status: SmartMonStatus { passed },
        model_family: "Red".to_string(),
        model_name: "WD40EFRX".to_string(),
        temperature: SmartMonTemp { current: 35 },
    }
}

fn read(text: &str) -> Event {
    Event::StatusRead(text.to_string())
}

fn parsed(text: &str) -> serde_json::Value {
    serde_json::from_str(text).unwrap()
}

fn message(step: &Step) -> Message {
    match &step.action {
        Action::Publish(message) => message.clone(),
        other => panic!("{:?} publishes nothing", other),
    }
}

fn read_path(step: &Step) -> String {
    match &step.action {
        Action::ReadStatus { path } => path.clone(),
        other => panic!("{:?} reads nothing", other),
    }
}

fn query_path(step: &Step) -> String {
    match &step.action {
        Action::QuerySmart { path } => path.clone(),
        other => panic!("{:?} asks nothing", other),
    }
}

fn is_abort(step: &Step) -> bool {
    matches!(step.action, Action::Abort) && matches!(step.stage, Stage::Aborted)
}

fn sleep_seconds(step: &Step) -> u64 {
    assert!(matches!(step.stage, Stage::Sleeping));
    match &step.action {
        Action::Sleep { seconds } => *seconds,
        other => panic!("{:?} does not sleep", other),
    }
}

/// Runs the loop from `first` through `events` and returns the last step.
fn run(config: &Config, first: Step, events: Vec<Event>) -> Step {
    let mut current = first;
    for event in events {
        current = step(config, current.stage, event);
    }
    current
}

/// The steps of one array that is read without trouble, up to the state message.
fn poll_array(config: &Config, first: Step, degraded: &str, action: &str, completed: &str, uuid: &str) -> Step {
    run(config, first, vec![read(uuid), read(action), read(completed), read(degraded)])
}

/// The first step of the first cycle.
fn announced(config: &Config) -> Step {
    let mut current = start(config);
    let mut left = config.devices.len();
    while left > 0 {
        assert!(message(&current).retain);
        current = step(config, current.stage, Event::Published);
        left -= 1;
    }
    current
}

#[test]
fn the_loop_starts_by_announcing_the_first_device() {
    let config = config(vec![raid("Data array", "md0"), sata("System disk", "sda")]);
    let first = start(&config);
    assert!(matches!(first.stage, Stage::Announcing { device: 0 }));
    assert_eq!(first.failure, None);
    let announcement = message(&first);
    assert_eq!(announcement.topic, "homeassistant/sensor/nas/md0/config");
    assert_eq!(announcement.delivery, Delivery::AtLeastOnce);
    assert!(announcement.retain);
    assert_eq!(
        parsed(&announcement.payload),
        parsed(
            r#"{"icon":"mdi:harddisk","name":"Data array","state_topic":"nas/md0/state","json_attributes_topic":"nas/md0/attributes","unique_id":"md0"}"#
        )
    );
}

#[test]
fn every_device_is_announced_in_order_before_the_first_poll() {
    let config = config(vec![raid("Data array", "md0"), sata("System disk", "sda")]);
    let first = start(&config);
    let second = step(&config, first.stage, Event::Published);
    assert!(matches!(second.stage, Stage::Announcing { device: 1 }));
    let announcement = message(&second);
    assert_eq!(announcement.topic, "homeassistant/sensor/nas/sda/config");
    assert!(announcement.retain);
    assert_eq!(parsed(&announcement.payload)["name"], "System disk");
    let third = step(&config, second.stage, Event::Published);
    assert!(matches!(third.stage, Stage::ReadingUuid { device: 0 }));
    assert_eq!(read_path(&third), "/sys/class/block/md0/md/uuid");
}

#[test]
fn a_configured_prefix_is_used_for_discovery() {
    let mut config = config(vec![sata("System disk", "sda")]);
    config.discovery_prefix = Some("discover".to_string());
    assert_eq!(message(&start(&config)).topic, "discover/sensor/nas/sda/config");
}

#[test]
fn a_failed_announcement_ends_the_loop() {
    let config = config(vec![raid("Data array", "md0"), sata("System disk", "sda")]);
    let first = start(&config);
    let ended = step(&config, first.stage, Event::PublishFailed);
    assert!(is_abort(&ended));
    assert_eq!(ended.failure, Some(Failure { device: 0, cause: Cause::Publish }));
    let second = step(&config, start(&config).stage, Event::Published);
    let ended = step(&config, second.stage, Event::PublishFailed);
    assert!(is_abort(&ended));
    assert_eq!(ended.failure, Some(Failure { device: 1, cause: Cause::Publish }));
}

#[test]
fn the_loop_stays_ended() {
    let config = config(vec![sata("System disk", "sda")]);
    let events = vec![
        Event::Published,
        Event::PublishFailed,
        read("x"),
        Event::StatusUnreadable,
        Event::SmartReported(smart(true)),
        Event::SmartUnavailable,
        Event::SmartMalformed,
        Event::Slept,
    ];
    for event in events {
        let next = step(&config, Stage::Aborted, event);
        assert!(is_abort(&next));
        assert_eq!(next.failure, None);
    }
}

#[test]
fn an_outcome_that_is_no_publication_ends_an_announcement() {
    let config = config(vec![sata("System disk", "sda")]);
    let ended = step(&config, start(&config).stage, Event::Slept);
    assert!(is_abort(&ended));
    assert_eq!(ended.failure, Some(Failure { device: 0, cause: Cause::Unexpected }));
}

#[test]
fn without_devices_the_loop_only_sleeps() {
    let config = config(Vec::new());
    let first = start(&config);
    assert_eq!(sleep_seconds(&first), 30);
    let second = step(&config, first.stage, Event::Slept);
    assert_eq!(sleep_seconds(&second), 30);
}

#[test]
fn an_idle_array_is_published_as_idle() {
    let config = config(vec![raid("Data array", "md0")]);
    let first = announced(&config);
    assert_eq!(read_path(&first), "/sys/class/block/md0/md/uuid");
    let second = step(&config, first.stage, read("abcd-1234\n"));
    assert_eq!(read_path(&second), "/sys/class/block/md0/md/sync_action");
    let third = step(&config, second.stage, read("idle\n"));
    assert_eq!(read_path(&third), "/sys/class/block/md0/md/sync_completed");
    let fourth = step(&config, third.stage, read("none\n"));
    assert_eq!(read_path(&fourth), "/sys/class/block/md0/md/degraded");
    let state = step(&config, fourth.stage, read("0\n"));
    assert_eq!(state.failure, None);
    let published = message(&state);
    assert_eq!(published.topic, "nas/md0/state");
    assert_eq!(published.payload, "idle");
    assert_eq!(published.delivery, Delivery::AtLeastOnce);
    assert!(!published.retain);
    let attributes = step(&config, state.stage, Event::Published);
    assert_eq!(attributes.failure, None);
    let published = message(&attributes);
    assert_eq!(published.topic, "nas/md0/attributes");
    assert_eq!(published.delivery, Delivery::AtLeastOnce);
    assert!(!published.retain);
    assert_eq!(
        parsed(&published.payload),
        parsed(r#"{"uuid":"abcd-1234","sync_action":"idle","sync_progress":"none","degraded_by":0}"#)
    );
    let rest = step(&config, attributes.stage, Event::Published);
    assert_eq!(rest.failure, None);
    assert_eq!(sleep_seconds(&rest), 30);
}

#[test]
fn a_degraded_array_is_published_as_degraded() {
    let config = config(vec![raid("Data array", "md0")]);
    let state = poll_array(&config, announced(&config), "1\n", "idle\n", "500/2000\n", "abcd-1234\n");
    assert_eq!(message(&state).payload, "Degraded");
    let attributes = step(&config, state.stage, Event::Published);
    let payload = parsed(&message(&attributes).payload);
    assert_eq!(payload["sync_progress"], "25.00%");
    assert_eq!(payload["degraded_by"], 1);
    assert_eq!(payload["uuid"], "abcd-1234");
    assert_eq!(payload["sync_action"], "idle");
}

#[test]
fn a_disk_is_asked_and_published() {
    let config = config(vec![sata("System disk", "sda")]);
    let first = announced(&config);
    assert!(matches!(first.stage, Stage::Querying { device: 0 }));
    assert_eq!(query_path(&first), "/dev/sda");
    let state = step(&config, first.stage, Event::SmartReported(smart(true)));
    let published = message(&state);
    assert_eq!(published.topic, "nas/sda/state");
    assert_eq!(published.payload, "Healthy");
    assert!(!published.retain);
    let attributes = step(&config, state.stage, Event::Published);
    let published = message(&attributes);
    assert_eq!(published.topic, "nas/sda/attributes");
    assert_eq!(
        parsed(&published.payload),
        parsed(
            r#"{"serial_number":"WD-123","smart_status":{"passed":true},"model_family":"Red","model_name":"WD40EFRX","temperature":{"current":35}}"#
        )
    );
    assert_eq!(sleep_seconds(&step(&config, attributes.stage, Event::Published)), 30);
}

#[test]
fn a_disk_that_failed_its_assessment_is_not_healthy() {
    let config = config(vec![sata("System disk", "sda")]);
    let state = step(&config, announced(&config).stage, Event::SmartReported(smart(false)));
    assert_eq!(message(&state).payload, "Not healthy");
}

#[test]
fn after_the_sleep_the_next_cycle_starts_with_the_first_device() {
    let config = config(vec![sata("System disk", "sda"), raid("Data array", "md0")]);
    let next = step(&config, Stage::Sleeping, Event::Slept);
    assert!(matches!(next.stage, Stage::Querying { device: 0 }));
    assert_eq!(query_path(&next), "/dev/sda");
    assert_eq!(next.failure, None);
}

#[test]
fn the_loop_sleeps_on_until_the_sleep_is_over() {
    let config = config(vec![sata("System disk", "sda")]);
    for event in [Event::Published, Event::PublishFailed, Event::StatusUnreadable, Event::SmartUnavailable] {
        let next = step(&config, Stage::Sleeping, event);
        assert_eq!(sleep_seconds(&next), 30);
        assert_eq!(next.failure, None);
    }
}

#[test]
fn a_disk_that_cannot_be_asked_does_not_stop_the_next_device() {
    let config = config(vec![sata("System disk", "sda"), raid("Data array", "md0")]);
    let first = announced(&config);
    let next = step(&config, first.stage, Event::SmartUnavailable);
    assert_eq!(next.failure, Some(Failure { device: 0, cause: Cause::Poll(PollError::ToolUnavailable) }));
    assert!(matches!(next.stage, Stage::ReadingUuid { device: 1 }));
    assert_eq!(read_path(&next), "/sys/class/block/md0/md/uuid");
    let state = poll_array(&config, next, "0", "check", "1/8", "u");
    assert_eq!(message(&state).topic, "nas/md0/state");
    assert_eq!(message(&state).payload, "check");
}

#[test]
fn a_malformed_report_does_not_stop_the_next_device() {
    let config = config(vec![sata("System disk", "sda"), sata("Second disk", "sdb")]);
    let next = step(&config, announced(&config).stage, Event::SmartMalformed);
    assert_eq!(next.failure, Some(Failure { device: 0, cause: Cause::Poll(PollError::MalformedOutput) }));
    assert_eq!(query_path(&next), "/dev/sdb");
}

#[test]
fn each_unreadable_status_text_is_named() {
    let config = config(vec![raid("Data array", "md0"), sata("System disk", "sda")]);
    let fields = [RaidField::Uuid, RaidField::SyncAction, RaidField::SyncCompleted, RaidField::Degraded];
    for (reads, field) in fields.iter().enumerate() {
        let mut current = announced(&config);
        for _ in 0..reads {
            current = step(&config, current.stage, read("x"));
        }
        let next = step(&config, current.stage, Event::StatusUnreadable);
        assert_eq!(
            next.failure,
            Some(Failure { device: 0, cause: Cause::Poll(PollError::SourceUnavailable(*field)) })
        );
        assert_eq!(query_path(&next), "/dev/sda");
    }
}

#[test]
fn an_array_without_a_number_of_missing_members_is_left() {
    let config = config(vec![raid("Data array", "md0"), sata("System disk", "sda")]);
    let next = poll_array(&config, announced(&config), "many", "idle", "none", "u");
    assert_eq!(next.failure, Some(Failure { device: 0, cause: Cause::Poll(PollError::MalformedOutput) }));
    assert_eq!(query_path(&next), "/dev/sda");
}

#[test]
fn a_state_that_cannot_be_published_leaves_the_attributes_out() {
    let config = config(vec![sata("System disk", "sda"), raid("Data array", "md0")]);
    let state = step(&config, announced(&config).stage, Event::SmartReported(smart(true)));
    let next = step(&config, state.stage, Event::PublishFailed);
    assert_eq!(next.failure, Some(Failure { device: 0, cause: Cause::Publish }));
    assert_eq!(read_path(&next), "/sys/class/block/md0/md/uuid");
}

#[test]
fn attributes_that_cannot_be_published_do_not_stop_the_next_device() {
    let config = config(vec![sata("System disk", "sda"), raid("Data array", "md0")]);
    let state = step(&config, announced(&config).stage, Event::SmartReported(smart(true)));
    let attributes = step(&config, state.stage, Event::Published);
    let next = step(&config, attributes.stage, Event::PublishFailed);
    assert_eq!(next.failure, Some(Failure { device: 0, cause: Cause::Publish }));
    assert_eq!(read_path(&next), "/sys/class/block/md0/md/uuid");
}

#[test]
fn the_last_device_that_fails_is_followed_by_the_sleep() {
    let config = config(vec![sata("System disk", "sda")]);
    let next = step(&config, announced(&config).stage, Event::SmartUnavailable);
    assert_eq!(sleep_seconds(&next), 30);
    assert!(next.failure.is_some());
}

#[test]
fn an_outcome_of_another_action_leaves_the_device() {
    let config = config(vec![raid("Data array", "md0"), sata("System disk", "sda")]);
    let next = step(&config, announced(&config).stage, Event::Published);
    assert_eq!(next.failure, Some(Failure { device: 0, cause: Cause::Unexpected }));
    assert_eq!(query_path(&next), "/dev/sda");
}

#[test]
fn a_stage_of_a_device_that_is_not_configured_leads_to_the_sleep() {
    let config = config(vec![sata("System disk", "sda")]);
    let next = step(&config, Stage::Querying { device: 7 }, Event::SmartReported(smart(true)));
    assert_eq!(sleep_seconds(&next), 30);
    assert_eq!(next.failure, Some(Failure { device: 7, cause: Cause::Unexpected }));
    let next = step(&config, Stage::PublishingAttributes { device: usize::MAX }, Event::Published);
    assert_eq!(sleep_seconds(&next), 30);
}

#[test]
fn settle_takes_the_payload_as_it_is_given() {
    let config = config(vec![sata("System disk", "sda"), raid("Data array", "md0")]);
    let state = settle(
        &config,
        Stage::Querying { device: 0 },
        Event::SmartReported(smart(true)),
        Some("{}".to_string()),
    );
    assert_eq!(message(&state).payload, "Healthy");
    let attributes = settle(&config, state.stage, Event::Published, None);
    assert_eq!(message(&attributes).payload, "{}");
    let second = settle(&config, Stage::Announcing { device: 0 }, Event::Published, Some("x".to_string()));
    assert_eq!(message(&second).payload, "x");
    assert_eq!(message(&second).topic, "homeassistant/sensor/nas/md0/config");
}

#[test]
fn settle_without_a_payload_leaves_the_device() {
    let config = config(vec![sata("System disk", "sda"), raid("Data array", "md0")]);
    let next = settle(&config, Stage::Querying { device: 0 }, Event::SmartReported(smart(true)), None);
    assert_eq!(next.failure, Some(Failure { device: 0, cause: Cause::Encoding }));
    assert_eq!(read_path(&next), "/sys/class/block/md0/md/uuid");
    let ended = settle(&config, Stage::Announcing { device: 0 }, Event::Published, None);
    assert!(is_abort(&ended));
    assert_eq!(ended.failure, Some(Failure { device: 1, cause: Cause::Encoding }));
}

#[test]
fn a_cycle_polls_every_device_whatever_fails() {
    let config = config(vec![
        sata("a", "sda"),
        raid("b", "md0"),
        sata("c", "sdb"),
        raid("d", "md1"),
    ]);
    let mut current = step(&config, Stage::Sleeping, Event::Slept);
    let mut polled: Vec<String> = Vec::new();
    let mut steps = 0;
    loop {
        match &current.action {
            Action::QuerySmart { path } => polled.push(path.clone()),
            Action::ReadStatus { path } if path.ends_with("/uuid") => polled.push(path.clone()),
            Action::Sleep { .. } => break,
            Action::Abort => panic!("a cycle does not end the loop"),
            _ => {}
        }
        let event = match &current.action {
            Action::QuerySmart { .. } => Event::SmartUnavailable,
            Action::ReadStatus { .. } => Event::StatusUnreadable,
            _ => Event::PublishFailed,
        };
        current = step(&config, current.stage, event);
        steps += 1;
        assert!(steps <= 24);
    }
    assert_eq!(
        polled,
        vec!["/dev/sda", "/sys/class/block/md0/md/uuid", "/dev/sdb", "/sys/class/block/md1/md/uuid"]
    );
}
