use operation_center::entity::main_task_messageinfo::{self, MainTaskStatus};
use operation_center::entity::subtask_messageinfo::{self, SubTaskStatus};
use operation_center::entity::timestamp::Timestamp;
use operation_center::handlers::main_task_handler::{
    first_task, main_task_insert_result, main_task_record, new_main_task, InsertOutcome,
};
use operation_center::handlers::subtask_handler::{
    new_failure_subtask, plan_subtask_update, plan_subtask_update_now, CreationAction,
    SubtaskCreation,
};
use operation_center::handlers::update_handler::{archive_entry, ArchiveEntry};
use operation_center::models::task_model::{
    CreateMainTaskRequest, Detail, FailedTaskRequest, TaskBody, UpdateTaskRequest,
};
use operation_center::utils::web_error::WebError;

const T: Timestamp = Timestamp { secs: 1_750_000_000, nanos: 5 };

fn main_task() -> main_task_messageinfo::Model {
    main_task_messageinfo::Model {
        id: 42,
        name: "deploy".to_string(),
        description: None,
        status: MainTaskStatus::Pending,
        log: None,
        priority: Some(1),
        task_type: "system".to_string(),
        worker_name: "w1".to_string(),
        create_timestamp: Some(T),
        update_timestamp: Some(T),
        bak1: None,
        bak2: None,
    }
}

fn task(name: &str, order: i32) -> TaskBody {
    TaskBody { parent_id: 42, name: name.to_string(), description: Some(format!("{} step", name)), order }
}

fn stored(row: &subtask_messageinfo::Model) -> subtask_messageinfo::Model {
    row.clone()
}

#[test]
fn first_task_takes_the_first_row() {
    assert_eq!(first_task(vec![3, 4]), Ok(3));
    assert_eq!(first_task::<i32>(vec![]), Err(WebError::NotFound("Task not found".to_string())));
}

#[test]
fn new_main_task_record() {
    let req = CreateMainTaskRequest {
        maintask_name: "install".to_string(),
        worker_name: "worker1".to_string(),
        description: Some("d".to_string()),
        task_type: "business".to_string(),
        id: 9,
    };
    let m = new_main_task(&req, T);
    assert_eq!(m.id, 9);
    assert_eq!(m.name, "install");
    assert_eq!(m.description, Some("d".to_string()));
    assert_eq!(m.status, MainTaskStatus::Pending);
    assert_eq!(m.priority, Some(1));
    assert_eq!(m.worker_name, "worker1");
    assert_eq!(m.task_type, "business");
    assert_eq!(m.create_timestamp, Some(T));
    assert_eq!(m.update_timestamp, Some(T));
    assert_eq!(m.log, None);
}

#[test]
fn main_task_insert_outcomes() {
    assert_eq!(main_task_insert_result(InsertOutcome::Inserted), Ok(()));
    assert_eq!(main_task_insert_result(InsertOutcome::RecordNotFound), Ok(()));
    assert_eq!(
        main_task_insert_result(InsertOutcome::Failed("UNIQUE constraint failed".to_string())),
        Err(WebError::ActixError("UNIQUE constraint failed".to_string()))
    );
}

#[test]
fn empty_batch_is_refused() {
    match SubtaskCreation::for_batch(vec![]) {
        Err(e) => assert_eq!(e, WebError::DBError("Tasks vector cannot be empty".to_string())),
        Ok(_) => panic!("an empty batch must be refused"),
    }
}

#[test]
fn batch_creation_runs_to_the_end() {
    let (mut m, a) = SubtaskCreation::for_batch(vec![task("a", 1), task("b", 2)]).ok().unwrap();
    assert!(matches!(a, CreationAction::LookupMainTask(42)));
    assert!(matches!(m.on_main_task(Ok(Some(main_task()))), CreationAction::IssueId));
    let mut rows = Vec::new();
    for (i, (name, order)) in [("a", 1), ("b", 2)].iter().enumerate() {
        let id = 1000 + i as i64;
        let row = match m.on_id(id, T) {
            CreationAction::Insert(row) => row,
            other => panic!("unexpected {:?}", other),
        };
        assert_eq!(row.id, id);
        assert_eq!(row.sub_title, *name);
        assert_eq!(row.description, Some(format!("{} step", name)));
        assert_eq!(row.status, SubTaskStatus::Inprogress);
        assert_eq!(row.task_order, Some(*order));
        assert_eq!(row.task_type, "system");
        assert_eq!(row.parent_id, 42);
        assert_eq!(row.create_timestamp, Some(T));
        let outcome = if i == 0 { InsertOutcome::Inserted } else { InsertOutcome::RecordNotFound };
        assert!(matches!(m.on_insert(outcome), CreationAction::FindInserted(x) if x == id));
        rows.push(stored(&row));
        let next = m.on_row(Ok(Some(stored(&row))));
        if i == 0 {
            assert!(matches!(next, CreationAction::IssueId));
        } else {
            match next {
                CreationAction::Done(Ok(done)) => assert_eq!(done, rows),
                other => panic!("unexpected {:?}", other),
            }
        }
    }
}

#[test]
fn batch_creation_stops_on_errors() {
    let (mut m, _) = SubtaskCreation::for_batch(vec![task("a", 1)]).ok().unwrap();
    match m.on_main_task(Ok(None)) {
        CreationAction::Done(Err(e)) => {
            assert_eq!(e, WebError::NotFound("主任务不存在,无法更新子任务".to_string()))
        }
        other => panic!("unexpected {:?}", other),
    }
    let (mut m, _) = SubtaskCreation::for_batch(vec![task("a", 1)]).ok().unwrap();
    match m.on_main_task(Err("connection reset".to_string())) {
        CreationAction::Done(Err(e)) => assert_eq!(e, WebError::DBError("connection reset".to_string())),
        other => panic!("unexpected {:?}", other),
    }
    let (mut m, _) = SubtaskCreation::for_batch(vec![task("a", 1)]).ok().unwrap();
    m.on_main_task(Ok(Some(main_task())));
    m.on_id(1, T);
    match m.on_insert(InsertOutcome::Failed("disk full".to_string())) {
        CreationAction::Done(Err(e)) => assert_eq!(e, WebError::ActixError("disk full".to_string())),
        other => panic!("unexpected {:?}", other),
    }
    let (mut m, _) = SubtaskCreation::for_batch(vec![task("a", 1)]).ok().unwrap();
    m.on_main_task(Ok(Some(main_task())));
    m.on_id(1, T);
    m.on_insert(InsertOutcome::Inserted);
    match m.on_row(Ok(None)) {
        CreationAction::Done(Err(e)) => {
            assert_eq!(e, WebError::NotFound("未能找到刚刚插入的任务。".to_string()))
        }
        other => panic!("unexpected {:?}", other),
    }
}

fn failure_request() -> FailedTaskRequest {
    FailedTaskRequest {
        id: 42,
        log: "boom".to_string(),
        status: "failure".to_string(),
        overview: Detail { code: 17, msg: "no \"disk\"".to_string() },
    }
}

#[test]
fn failure_record() {
    let row = new_failure_subtask(&failure_request(), &main_task(), 77, T);
    assert_eq!(row.id, 77);
    assert_eq!(row.sub_title, "deploy");
    assert_eq!(row.status, SubTaskStatus::Failure);
    assert_eq!(row.parent_id, 42);
    assert_eq!(row.task_type, "system");
    assert_eq!(row.task_order, None);
    assert_eq!(
        row.log,
        Some("log: boom\n            (code: 17, msg: no \"disk\")".to_string())
    );
    assert_eq!(row.description, Some("Detail { code: 17, msg: \"no \\\"disk\\\"\" }".to_string()));
    let expected_debug = format!(
        "{:?}",
        operation_center::models::task_model::Detail { code: 17, msg: "no \"disk\"".to_string() }
    );
    assert_eq!(row.description, Some(expected_debug));
}

#[test]
fn failure_creation_flow() {
    let (mut m, a) = SubtaskCreation::for_failure(failure_request());
    assert!(matches!(a, CreationAction::LookupMainTask(42)));
    match SubtaskCreation::for_failure(failure_request()).0.on_main_task(Ok(None)) {
        CreationAction::Done(Err(e)) => {
            assert_eq!(e, WebError::NotFound("主任务不存在，无法登记失败子任务".to_string()))
        }
        other => panic!("unexpected {:?}", other),
    }
    m.on_main_task(Ok(Some(main_task())));
    let row = match m.on_id(5, T) {
        CreationAction::Insert(row) => row,
        other => panic!("unexpected {:?}", other),
    };
    m.on_insert(InsertOutcome::Inserted);
    match m.on_row(Ok(Some(row.clone()))) {
        CreationAction::Done(Ok(rows)) => assert_eq!(rows, vec![row]),
        other => panic!("unexpected {:?}", other),
    }
}

#[test]
fn progress_report_updates_status_log_and_time() {
    let existing = subtask_messageinfo::Model {
        id: 3,
        sub_title: "copy".to_string(),
        description: Some("d".to_string()),
        status: SubTaskStatus::Inprogress,
        log: None,
        task_order: Some(2),
        task_type: "system".to_string(),
        parent_id: 42,
        create_timestamp: Some(Timestamp { secs: 1, nanos: 0 }),
        update_timestamp: Some(Timestamp { secs: 1, nanos: 0 }),
        bak1: Some(5),
        bak2: None,
    };
    let req = UpdateTaskRequest {
        parent_id: 42,
        name: "copy".to_string(),
        log: "done".to_string(),
        status: SubTaskStatus::Success,
        order: 2,
    };
    let updated = plan_subtask_update(Some(existing.clone()), req.clone(), T).unwrap();
    assert_eq!(
        updated,
        subtask_messageinfo::Model {
            status: SubTaskStatus::Success,
            log: Some("done".to_string()),
            update_timestamp: Some(T),
            ..existing
        }
    );
    assert_eq!(
        plan_subtask_update(None, req, T),
        Err(WebError::NotFound("SubTask not found".to_string()))
    );
}

#[test]
fn archive_entries() {
    assert_eq!(archive_entry("/data/app", "/data/app", "app", true, false, true), ArchiveEntry::Skip);
    assert_eq!(
        archive_entry("/data/app", "/data/app/bin/run.sh", "run.sh", false, true, false),
        ArchiveEntry::File("bin/run.sh".to_string())
    );
    assert_eq!(
        archive_entry("/data/app/", "/data/app/bin", "bin", false, false, true),
        ArchiveEntry::Directory("bin/".to_string())
    );
    assert_eq!(
        archive_entry("/data/app", "/data/app/bin/", "bin", false, false, true),
        ArchiveEntry::Skip
    );
    assert_eq!(
        archive_entry("/data/app", "/data/app/x", "x", false, false, false),
        ArchiveEntry::Skip
    );
    // Nothing follows the prefix: the file name is used.
    assert_eq!(
        archive_entry("/data/app", "/data/app/", "app", false, true, false),
        ArchiveEntry::File("app".to_string())
    );
    assert_eq!(
        archive_entry("/数据", "/数据/文件", "文件", false, true, false),
        ArchiveEntry::File("文件".to_string())
    );
}

#[test]
fn records_made_now_carry_the_clock() {
    let req = CreateMainTaskRequest {
        maintask_name: "n".to_string(),
        worker_name: "w".to_string(),
        description: None,
        task_type: "t".to_string(),
        id: 1,
    };
    let m = main_task_record(&req).unwrap();
    let stamp = m.create_timestamp.unwrap();
    assert!(stamp.secs > 1_600_000_000);
    assert_eq!(m.update_timestamp, Some(stamp));
    assert_eq!(new_main_task(&req, stamp), m);

    let (mut c, _) = SubtaskCreation::for_batch(vec![task("a", 1)]).ok().unwrap();
    c.on_main_task(Ok(Some(main_task())));
    match c.on_new_id(9).unwrap() {
        CreationAction::Insert(row) => {
            assert_eq!(row.id, 9);
            assert!(row.create_timestamp.unwrap().secs > 1_600_000_000);
        }
        other => panic!("unexpected {:?}", other),
    }

    let req = UpdateTaskRequest {
        parent_id: 42,
        name: "copy".to_string(),
        log: "l".to_string(),
        status: SubTaskStatus::Failure,
        order: 1,
    };
    assert_eq!(
        plan_subtask_update_now(None, req.clone()),
        Some(Err(WebError::NotFound("SubTask not found".to_string())))
    );
    let existing = new_failure_subtask(&failure_request(), &main_task(), 3, T);
    let updated = plan_subtask_update_now(Some(existing), req).unwrap().unwrap();
    assert_eq!(updated.status, SubTaskStatus::Failure);
    assert_eq!(updated.log, Some("l".to_string()));
    assert!(updated.update_timestamp.unwrap().secs > 1_600_000_000);
    assert_eq!(updated.create_timestamp, Some(T));
}
