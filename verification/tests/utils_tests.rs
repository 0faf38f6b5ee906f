use operation_center::config::settings::{
    config_candidates, config_error, connection_plan, pool_missing_error, select_config_path,
    ConfigFailure, DatabaseConfig, WebConfig,
};
use operation_center::models::task_model::{
    AppResponse, MainTasksRequest, ServiceRequest, SubTasksRequest, TaskCreateRequest,
    TaskUpdateRequest,
};
use operation_center::utils::id_generator::{ClockError, TimestampIdGenerator};
use operation_center::utils::validation::InvalidField;
use operation_center::utils::web_error::WebError;

#[test]
fn ids_within_one_millisecond_count_up() {
    let mut g = TimestampIdGenerator::new();
    assert_eq!(g.last_timestamp(), 0);
    assert_eq!(g.next_id_at(1_000), 1_000_000);
    assert_eq!(g.last_timestamp(), 1_000);
    assert_eq!(g.next_id_at(1_000), 1_000_001);
    assert_eq!(g.next_id_at(1_000), 1_000_002);
    assert_eq!(g.next_id_at(1_000), 1_000_003);
    assert_eq!(g.next_id_at(1_001), 1_001_000);
    assert_eq!(g.next_id_at(1_001), 1_001_001);
}

#[test]
fn ids_wrap_after_a_thousand_in_one_millisecond() {
    let mut g = TimestampIdGenerator::new();
    assert_eq!(g.next_id_at(5), 5000);
    let mut previous = 5000;
    for _ in 0..999 {
        let id = g.next_id_at(5);
        assert!(id > previous);
        previous = id;
    }
    assert_eq!(previous, 5999);
    assert_eq!(g.next_id_at(5), 5000);
}

#[test]
fn ids_from_the_clock() {
    let mut g = TimestampIdGenerator::new();
    let a = g.next_id().unwrap();
    let b = g.next_id().unwrap();
    assert!(a >= 1_600_000_000_000_000);
    assert!(b > a);
    let mut late = TimestampIdGenerator::new();
    late.next_id_at(operation_center::utils::id_generator::MAX_ID_MILLIS);
    assert_eq!(late.next_id(), Err(ClockError::MovedBackwards));
}

#[test]
fn ids_from_clock_readings() {
    let mut g = TimestampIdGenerator::new();
    assert_eq!(g.next_id_from(None), Err(ClockError::BeforeEpoch));
    assert_eq!(g.next_id_from(Some(5)), Ok(5000));
    assert_eq!(g.next_id_from(Some(5)), Ok(5001));
    assert_eq!(g.next_id_from(Some(4)), Err(ClockError::MovedBackwards));
    assert_eq!(g.last_timestamp(), 5);
    assert_eq!(g.next_id_from(Some(5)), Ok(5002));
    assert_eq!(g.next_id_from(Some(i64::MAX)), Err(ClockError::OutOfRange));
    assert_eq!(g.next_id_from(Some(6)), Ok(6000));
}

#[test]
fn a_fresh_generator_at_millisecond_zero() {
    let mut g = TimestampIdGenerator::new();
    assert_eq!(g.next_id_at(0), 1);
    assert_eq!(g.next_id_at(0), 2);
}

#[test]
fn ids_for_rising_readings_are_distinct() {
    let mut g = TimestampIdGenerator::new();
    let readings = [3, 3, 3, 7, 7, 8, 8, 8, 8];
    let ids: Vec<i64> = readings.iter().map(|t| g.next_id_at(*t)).collect();
    assert_eq!(ids, vec![3000, 3001, 3002, 7000, 7001, 8000, 8001, 8002, 8003]);
}

#[test]
fn web_error_messages_and_statuses() {
    let e = WebError::NotFound("gone".to_string());
    assert_eq!(e.status_code(), 404);
    assert_eq!(e.to_string(), "gone");
    assert_eq!(e.error_response(), "gone");
    let body = e.to_response();
    assert_eq!(body.error, "gone");
    assert_eq!(body.code, 404);
    let d = WebError::DBError("db down".to_string());
    assert_eq!(d.status_code(), 500);
    assert_eq!(d.to_string(), "db down");
    let a = WebError::ActixError("bad".to_string());
    assert_eq!(a.status_code(), 500);
    let body = a.to_response();
    assert_eq!(body.error, "bad");
    assert_eq!(body.code, 500);
    assert_eq!(d.to_response().code, 500);
}

#[test]
fn web_config_address() {
    let c = WebConfig { host: "0.0.0.0".to_string(), port: 8080 };
    assert_eq!(c.format(), "0.0.0.0:8080");
    let c = WebConfig { host: "localhost".to_string(), port: 0 };
    assert_eq!(c.format(), "localhost:0");
    let c = WebConfig { host: String::new(), port: u32::MAX };
    assert_eq!(c.format(), ":4294967295");
}

#[test]
fn connection_plans() {
    let p = connection_plan("sqlite::memory:");
    assert!(!p.use_pool_sizes);
    assert!(p.reset_before_migrate);
    let p = connection_plan("sqlite://data.db?mode=rwc");
    assert!(!p.use_pool_sizes);
    assert!(!p.reset_before_migrate);
    let p = connection_plan("postgres://u:p@localhost/db");
    assert!(p.use_pool_sizes);
    assert!(!p.reset_before_migrate);
    let d = DatabaseConfig { url: "sqlite::memory:".to_string(), max_connections: 5, min_connections: 1 };
    assert!(connection_plan(&d.url).reset_before_migrate);
}

#[test]
fn config_paths_and_choice() {
    let c = config_candidates(Some("/home/ops".to_string()));
    assert_eq!(c, vec!["config/config.toml".to_string(), "/home/ops/.dss/config.toml".to_string()]);
    let c = config_candidates(None);
    assert_eq!(c[1], "/root/.dss/config.toml");
    assert_eq!(select_config_path(&c, &vec![false, true]), Ok(1));
    assert_eq!(select_config_path(&c, &vec![true, true]), Ok(0));
    assert_eq!(
        select_config_path(&c, &vec![false, false]),
        Err(WebError::NotFound("未找到有效的配置文件".to_string()))
    );
}

#[test]
fn config_and_pool_errors() {
    assert_eq!(
        config_error(ConfigFailure::Parse("line 1".to_string())),
        WebError::ActixError("配置文件解析错误: line 1".to_string())
    );
    assert_eq!(
        config_error(ConfigFailure::Deserialize("missing port".to_string())),
        WebError::ActixError("配置文件反序列化错误: missing port".to_string())
    );
    assert_eq!(
        pool_missing_error(),
        WebError::DBError("Database connection pool not initialized".to_string())
    );
}

#[test]
fn request_validation() {
    let r = TaskCreateRequest {
        name: "n".to_string(),
        description: Some("d".repeat(1000)),
        status: "s".to_string(),
        priority: 5,
        task_type: "t".to_string(),
    };
    assert!(r.validate().is_ok());
    let bad = TaskCreateRequest {
        name: String::new(),
        description: Some("d".repeat(1001)),
        status: String::new(),
        priority: 0,
        task_type: String::new(),
    };
    assert_eq!(
        bad.validate().unwrap_err().fields,
        vec![
            InvalidField::Name,
            InvalidField::Description,
            InvalidField::Status,
            InvalidField::Priority,
            InvalidField::TaskType
        ]
    );
    assert!(SubTasksRequest { id: 1 }.validate().is_ok());
    assert_eq!(SubTasksRequest { id: 0 }.validate().unwrap_err().fields, vec![InvalidField::Id]);
    assert!(MainTasksRequest { page: None, pagesize: None }.validate().is_ok());
    assert_eq!(
        MainTasksRequest { page: Some(0), pagesize: Some(0) }.validate().unwrap_err().fields,
        vec![InvalidField::PageSize]
    );
    assert!(ServiceRequest { page: Some(3), pagesize: Some(1) }.validate().is_ok());
    let u = TaskUpdateRequest {
        id: 0,
        description: None,
        status: String::new(),
        priority: None,
        task_type: None,
    };
    assert_eq!(u.validate().unwrap_err().fields, vec![InvalidField::Id, InvalidField::Status]);
}

#[test]
fn app_response_constructors() {
    let r = AppResponse::new(Some(vec![1, 2]), None);
    assert_eq!(r.list, Some(vec![1, 2]));
    assert_eq!(r.total_count, None);
    let s = AppResponse::success("x", Some(4));
    assert_eq!(s.list, Some("x"));
    assert_eq!(s.total_count, Some(4));
}
