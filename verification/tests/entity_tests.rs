use chrono::{TimeZone, Utc};
use operation_center::entity::main_task_messageinfo::{self, MainTaskStatus, MainTaskStatusDef};
use operation_center::entity::subtask_messageinfo::{self, SubTaskStatus, SubTaskStatusDef};
use operation_center::entity::timestamp::{elapsed_millis, Timestamp};
use operation_center::utils::validation::InvalidField;

fn now() -> Timestamp {
    let t = Utc::now();
    Timestamp { secs: t.timestamp(), nanos: t.timestamp_subsec_nanos() }
}

#[test]
fn test_main_task_model_validation() {
    let valid_task = main_task_messageinfo::Model {
        id: 1,
        name: "Valid Task".to_string(),
        description: Some("Description".to_string()),
        status: MainTaskStatus::Pending,
        log: None,
        priority: Some(3),
        task_type: "business".to_string(),
        worker_name: "worker1".to_string(),
        create_timestamp: Some(now()),
        update_timestamp: Some(now()),
        bak1: None,
        bak2: None,
    };
    assert!(valid_task.validate().is_ok());

    let invalid_name = main_task_messageinfo::Model {
        name: "".to_string(),
        ..valid_task.clone()
    };
    assert!(invalid_name.validate().is_err());

    let invalid_priority = main_task_messageinfo::Model {
        priority: Some(6),
        ..valid_task
    };
    assert!(invalid_priority.validate().is_err());
}

#[test]
fn test_main_task_status_conversion() {
    let def_status = MainTaskStatusDef::Inprogress;
    let status: MainTaskStatus = def_status.into();
    assert_eq!(status, MainTaskStatus::Inprogress);
    assert_eq!(status.to_string(), "in_progress");
}

#[test]
fn test_subtask_model_validation() {
    let valid_subtask = subtask_messageinfo::Model {
        id: 1,
        sub_title: "Sub Task".to_string(),
        description: Some("Description".to_string()),
        status: SubTaskStatus::Pending,
        log: None,
        task_order: Some(1),
        task_type: "processing".to_string(),
        parent_id: 100,
        create_timestamp: Some(now()),
        update_timestamp: Some(now()),
        bak1: None,
        bak2: None,
    };
    assert!(valid_subtask.validate().is_ok());

    let invalid_title = subtask_messageinfo::Model {
        sub_title: "".to_string(),
        ..valid_subtask.clone()
    };
    assert!(invalid_title.validate().is_err());

    let invalid_order = subtask_messageinfo::Model {
        task_order: Some(0),
        ..valid_subtask
    };
    assert!(invalid_order.validate().is_err());
}

#[test]
fn test_subtask_status_conversion() {
    let def_status = SubTaskStatusDef::Success;
    let status: SubTaskStatus = def_status.into();
    assert_eq!(status, SubTaskStatus::Success);
    assert_eq!(status.to_string(), "success");
}

fn main_task(name: &str, priority: Option<i32>) -> main_task_messageinfo::Model {
    main_task_messageinfo::Model {
        id: 7,
        name: name.to_string(),
        description: None,
        status: MainTaskStatus::Pending,
        log: None,
        priority,
        task_type: "system".to_string(),
        worker_name: "w".to_string(),
        create_timestamp: None,
        update_timestamp: None,
        bak1: None,
        bak2: None,
    }
}

#[test]
fn main_task_validation_lists_failed_fields_in_order() {
    let err = main_task("", Some(0)).validate().unwrap_err();
    assert_eq!(err.fields, vec![InvalidField::Name, InvalidField::Priority]);
    let err = main_task("ok", Some(9)).validate().unwrap_err();
    assert_eq!(err.fields, vec![InvalidField::Priority]);
}

#[test]
fn main_task_validation_edges() {
    // 255 characters pass, 256 do not; characters, not bytes, are counted.
    assert!(main_task(&"a".repeat(255), Some(1)).validate().is_ok());
    assert!(main_task(&"a".repeat(256), Some(5)).validate().is_err());
    assert!(main_task(&"任".repeat(255), None).validate().is_ok());
    assert!(main_task("x", None).validate().is_ok());
    assert!(main_task("x", Some(5)).validate().is_ok());
}

#[test]
fn subtask_order_must_be_positive() {
    let m = subtask_messageinfo::Model {
        id: 1,
        sub_title: "t".to_string(),
        description: None,
        status: SubTaskStatus::Pending,
        log: None,
        task_order: None,
        task_type: "k".to_string(),
        parent_id: 1,
        create_timestamp: None,
        update_timestamp: None,
        bak1: None,
        bak2: None,
    };
    assert!(m.validate().is_ok());
    let bad = subtask_messageinfo::Model { task_order: Some(-3), sub_title: String::new(), ..m };
    assert_eq!(bad.validate().unwrap_err().fields, vec![InvalidField::SubTitle, InvalidField::TaskOrder]);
}

#[test]
fn status_texts_are_distinct() {
    let all = [
        MainTaskStatus::Pending,
        MainTaskStatus::Inprogress,
        MainTaskStatus::Success,
        MainTaskStatus::Failure,
    ];
    let texts: Vec<String> = all.iter().map(|s| s.to_string()).collect();
    assert_eq!(texts, vec!["pending", "in_progress", "success", "failure"]);
    let sub: Vec<String> = [SubTaskStatus::Pending, SubTaskStatus::Failure]
        .iter()
        .map(|s| s.to_string())
        .collect();
    assert_eq!(sub, vec!["pending", "failure"]);
    let from_def: SubTaskStatus = SubTaskStatusDef::Inprogress.into();
    assert_eq!(from_def, SubTaskStatus::Inprogress);
    let main_from_def: MainTaskStatus = MainTaskStatusDef::Failure.into();
    assert_eq!(main_from_def, MainTaskStatus::Failure);
}

#[test]
fn elapsed_millis_counts_whole_milliseconds_toward_zero() {
    let a = Timestamp { secs: 100, nanos: 900_000 };
    let b = Timestamp { secs: 101, nanos: 2_100_000 };
    assert_eq!(elapsed_millis(a, b), Some(1001));
    assert_eq!(elapsed_millis(b, a), Some(-1001));
    assert_eq!(elapsed_millis(a, a), Some(0));
    let c = Timestamp { secs: 100, nanos: 999_999 };
    let d = Timestamp { secs: 100, nanos: 0 };
    assert_eq!(elapsed_millis(d, c), Some(0));
    assert_eq!(elapsed_millis(c, d), Some(0));
    let far = Timestamp { secs: i64::MAX, nanos: 0 };
    let early = Timestamp { secs: i64::MIN, nanos: 0 };
    assert_eq!(elapsed_millis(early, far), None);
}

#[test]
fn elapsed_millis_agrees_with_chrono() {
    let x = Utc.timestamp_opt(1_700_000_000, 123_456_789).unwrap();
    let y = Utc.timestamp_opt(1_700_000_003, 987_654_321).unwrap();
    let tx = Timestamp { secs: x.timestamp(), nanos: x.timestamp_subsec_nanos() };
    let ty = Timestamp { secs: y.timestamp(), nanos: y.timestamp_subsec_nanos() };
    assert_eq!(elapsed_millis(tx, ty), Some((y - x).num_milliseconds()));
    assert_eq!(elapsed_millis(ty, tx), Some((x - y).num_milliseconds()));
}

#[test]
fn elapsed_millis_counts_leap_seconds_as_chrono_does() {
    let day = chrono::NaiveDate::from_ymd_opt(2016, 12, 31).unwrap();
    let next = chrono::NaiveDate::from_ymd_opt(2017, 1, 1).unwrap();
    let leap = day.and_hms_nano_opt(23, 59, 59, 1_500_000_000).unwrap().and_utc();
    let before = day.and_hms_nano_opt(23, 59, 58, 0).unwrap().and_utc();
    let same = day.and_hms_nano_opt(23, 59, 59, 0).unwrap().and_utc();
    let after = next.and_hms_nano_opt(0, 0, 1, 0).unwrap().and_utc();
    let stamp = |t: chrono::DateTime<Utc>| Timestamp { secs: t.timestamp(), nanos: t.timestamp_subsec_nanos() };
    for (x, y) in [(before, leap), (leap, before), (same, leap), (leap, same), (leap, after), (after, leap)] {
        assert_eq!(elapsed_millis(stamp(x), stamp(y)), Some((y - x).num_milliseconds()));
    }
    assert_eq!(elapsed_millis(stamp(before), stamp(leap)), Some(2500));
    assert_eq!(elapsed_millis(stamp(leap), stamp(before)), Some(-2500));
}
