use disk_monitor::monitor::{
    attributes_value, get_device_path, get_status_path, parse_file, raid_report, raid_value,
    sata_report, smart_value, Attributes, PollError, RaidField, RaidStatus,
};
use disk_monitor::smartmon_types::{SmartMonResults, SmartMonStatus, SmartMonTemp};

fn smart(passed: bool) -> SmartMonResults {
    SmartMonResults {
        serial_number: "WD-123".to_string(),
        smart_status: SmartMonStatus { passed },
        model_family: "Red".to_string(),
        model_name: "WD40EFRX".to_string(),
        temperature: SmartMonTemp { current: 35 },
    }
}

fn parsed(text: &str) -> serde_json::Value {
    serde_json::from_str(text).unwrap()
}

#[test]
fn parse_file_reads_the_number_in_a_status_text() {
    assert_eq!(parse_file("0\n"), Ok(0));
    assert_eq!(parse_file(" 2 "), Ok(2));
    assert_eq!(parse_file("+3"), Ok(3));
    assert_eq!(parse_file("17"), Ok(17));
}

#[test]
fn parse_file_rejects_what_is_no_number() {
    assert_eq!(parse_file(""), Err(PollError::MalformedOutput));
    assert_eq!(parse_file("\n"), Err(PollError::MalformedOutput));
    assert_eq!(parse_file("-1"), Err(PollError::MalformedOutput));
    assert_eq!(parse_file("one"), Err(PollError::MalformedOutput));
    assert_eq!(parse_file("1 2"), Err(PollError::MalformedOutput));
    assert_eq!(parse_file("99999999999999999999999999"), Err(PollError::MalformedOutput));
}

#[test]
fn parse_file_agrees_with_std_on_samples() {
    let samples = ["0", " 1\n", "+2", "-3", "", "x", "18446744073709551615", "18446744073709551616"];
    for s in samples {
        assert_eq!(parse_file(s).ok(), s.trim().parse::<usize>().ok(), "{:?}", s);
    }
}

#[test]
fn a_disk_that_passed_is_healthy() {
    let report = sata_report(smart(true));
    assert_eq!(report.state, "Healthy");
    match report.attributes {
        Attributes::Sata(results) => {
            assert_eq!(results.serial_number, "WD-123");
            assert!(results.smart_status.passed);
            assert_eq!(results.temperature.current, 35);
        }
        Attributes::MdRaid(_) => panic!("a disk has the attributes of a disk"),
    }
}

#[test]
fn a_disk_that_failed_is_not_healthy() {
    assert_eq!(sata_report(smart(false)).state, "Not healthy");
}

#[test]
fn a_degraded_array_is_degraded_whatever_it_does() {
    for action in ["idle\n", "resync\n", "recover", "", "check"] {
        for degraded in ["1\n", "2", " 7 "] {
            let report = raid_report("u", action, "none", degraded).unwrap();
            assert_eq!(report.state, "Degraded");
        }
    }
}

#[test]
fn a_whole_array_is_what_it_does() {
    assert_eq!(raid_report("u", "idle\n", "none", "0\n").unwrap().state, "idle");
    assert_eq!(raid_report("u", " resync ", "1/2", "0").unwrap().state, "resync");
    assert_eq!(raid_report("u", "recover", "none", "0").unwrap().state, "recover");
    assert_eq!(raid_report("u", "\n", "none", "0").unwrap().state, "");
}

fn status_of(uuid: &str, action: &str, completed: &str, degraded: &str) -> RaidStatus {
    match raid_report(uuid, action, completed, degraded).unwrap().attributes {
        Attributes::MdRaid(status) => status,
        Attributes::Sata(_) => panic!("an array has the attributes of an array"),
    }
}

#[test]
fn the_attributes_of_an_array_are_trimmed() {
    let status = status_of("abcd-1234\n", "idle\n", "none\n", "0\n");
    assert_eq!(status.uuid, "abcd-1234");
    assert_eq!(status.sync_action, "idle");
    assert_eq!(status.sync_progress, "none");
    assert_eq!(status.degraded_by, 0);
}

#[test]
fn the_progress_of_an_array_is_a_percentage() {
    let status = status_of("abcd-1234\n", "recover\n", "500 / 2000\n", "1\n");
    assert_eq!(status.sync_progress, "25.00%");
    assert_eq!(status.degraded_by, 1);
    assert_eq!(status_of("u", "idle", " delayed ", "0").sync_progress, "delayed");
}

#[test]
fn an_array_without_a_count_of_missing_members_is_malformed() {
    for degraded in ["", "x", "-1", "1.0"] {
        match raid_report("u", "idle", "none", degraded) {
            Err(error) => assert_eq!(error, PollError::MalformedOutput),
            Ok(_) => panic!("{:?} is no number", degraded),
        }
    }
}

#[test]
fn the_attributes_of_an_array_as_json() {
    let status = status_of("abcd-1234\n", "idle\n", "none\n", "0\n");
    let expected = parsed(r#"{"uuid":"abcd-1234","sync_action":"idle","sync_progress":"none","degraded_by":0}"#);
    assert_eq!(raid_value(&status), expected);
    assert_eq!(attributes_value(&Attributes::MdRaid(status)), expected);
}

#[test]
fn the_attributes_of_a_disk_as_json() {
    let expected = parsed(
        r#"{"serial_number":"WD-123","smart_status":{"passed":true},"model_family":"Red","model_name":"WD40EFRX","temperature":{"current":35}}"#,
    );
    assert_eq!(smart_value(&smart(true)), expected);
    assert_eq!(attributes_value(&Attributes::Sata(smart(true))), expected);
    assert_ne!(smart_value(&smart(false)), expected);
}

#[test]
fn json_keeps_text_as_it_is() {
    let status = RaidStatus {
        uuid: "a\"b\\c\n".to_string(),
        sync_action: "é".to_string(),
        sync_progress: String::new(),
        degraded_by: usize::MAX,
    };
    let value = raid_value(&status);
    assert_eq!(value["uuid"].as_str(), Some("a\"b\\c\n"));
    assert_eq!(value["sync_action"].as_str(), Some("é"));
    assert_eq!(value["sync_progress"].as_str(), Some(""));
    assert_eq!(value["degraded_by"].as_u64(), Some(usize::MAX as u64));
}

#[test]
fn paths_of_a_disk_and_of_the_status_texts() {
    assert_eq!(get_device_path("sda"), "/dev/sda");
    assert_eq!(get_status_path("md0", RaidField::Uuid), "/sys/class/block/md0/md/uuid");
    assert_eq!(get_status_path("md0", RaidField::SyncAction), "/sys/class/block/md0/md/sync_action");
    assert_eq!(get_status_path("md0", RaidField::SyncCompleted), "/sys/class/block/md0/md/sync_completed");
    assert_eq!(get_status_path("md0", RaidField::Degraded), "/sys/class/block/md0/md/degraded");
}
