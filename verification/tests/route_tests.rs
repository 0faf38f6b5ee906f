use operation_center::assets::{
    cache_policy, content_type_for, etag, extension_of, is_file_request, request_path,
};
use operation_center::entity::main_task_messageinfo::{self, MainTaskStatus};
use operation_center::entity::subtask_messageinfo::{self, SubTaskStatus};
use operation_center::entity::timestamp::Timestamp;
use operation_center::models::task_model::{MainTasksRequest, PagedResult};
use operation_center::routes::command::{
    localize_failure_reply, setup_spawn_failed_reply, unzip_missing_reply, unzip_reply, CommandRun,
    LocalizeFailure,
};
use operation_center::routes::instanll::{
    file_settings, info_file_reply, insert_settings, is_yaml_extension, save_dir_missing_reply,
    save_reply, setting_reply, settings_dir_missing_reply, settings_file_name, settings_json_reply,
    settings_reply, settings_yaml, yaml_step, FileRead, SaveSettingsRequest,
};
use operation_center::routes::maintask::{created_message, main_tasks_response, page_and_size};
use operation_center::routes::reply::{error_reply, route_error, Reply};
use operation_center::routes::subtask::{log_result, subtasks_response};
use operation_center::routes::update::{
    archive_path, file_name_of, stamp_text, Backup, BackupAction, BackupEvent, LocalDateTime,
};
use operation_center::utils::web_error::WebError;

fn plain(status: u16, body: &str) -> Reply {
    Reply { status, content_type: None, body: body.to_string() }
}

fn error(status: u16, message: &str) -> Reply {
    let body = format!("{{\"error\":\"{}\",\"code\":{}}}", message, status);
    Reply { status, content_type: Some("application/json".to_string()), body }
}

fn typed(status: u16, ct: &str, body: &str) -> Reply {
    Reply { status, content_type: Some(ct.to_string()), body: body.to_string() }
}

#[test]
fn paging_defaults() {
    assert_eq!(page_and_size(&MainTasksRequest { page: None, pagesize: None }), (0, 10));
    assert_eq!(page_and_size(&MainTasksRequest { page: Some(2), pagesize: Some(25) }), (2, 25));
}

fn main_task(id: i64, priority: Option<i32>) -> main_task_messageinfo::Model {
    main_task_messageinfo::Model {
        id,
        name: format!("task{}", id),
        description: None,
        status: MainTaskStatus::Inprogress,
        log: None,
        priority,
        task_type: "system".to_string(),
        worker_name: "w".to_string(),
        create_timestamp: None,
        update_timestamp: None,
        bak1: None,
        bak2: None,
    }
}

#[test]
fn main_task_listing() {
    let paged = PagedResult { total: 12, data: vec![main_task(1, Some(3)), main_task(2, None)] };
    let r = main_tasks_response(&paged);
    assert_eq!(r.total_count, Some(12));
    let list = r.list.unwrap();
    assert_eq!(list.len(), 2);
    assert_eq!(list[0].id, 1);
    assert_eq!(list[0].name, "task1");
    assert_eq!(list[0].status, "in_progress");
    assert_eq!(list[0].task_order, 3);
    assert_eq!(list[1].task_order, 0);
    assert_eq!(list[1].elapsed_millis, None);
    assert_eq!(created_message(), "新增主任务成功");
}

fn subtask(log: Option<&str>, c: Option<Timestamp>, u: Option<Timestamp>) -> subtask_messageinfo::Model {
    subtask_messageinfo::Model {
        id: 5,
        sub_title: "copy".to_string(),
        description: None,
        status: SubTaskStatus::Success,
        log: log.map(|s| s.to_string()),
        task_order: None,
        task_type: "system".to_string(),
        parent_id: 1,
        create_timestamp: c,
        update_timestamp: u,
        bak1: None,
        bak2: None,
    }
}

#[test]
fn subtask_listing_and_log() {
    let c = Timestamp { secs: 10, nanos: 0 };
    let u = Timestamp { secs: 12, nanos: 345_678_901 };
    let rows = vec![subtask(Some("ok"), Some(c), Some(u)), subtask(None, Some(c), None)];
    let r = subtasks_response(&rows);
    assert_eq!(r.total_count, Some(2));
    let list = r.list.unwrap();
    assert_eq!(list[0].elapsed_millis, Some(2345));
    assert_eq!(list[0].status, "success");
    assert_eq!(list[0].task_order, 0);
    assert_eq!(list[1].elapsed_millis, None);
    assert_eq!(log_result(&rows[0]).log, "ok");
    assert_eq!(log_result(&rows[1]).log, "");
    assert_eq!(subtasks_response(&vec![]).total_count, Some(0));
}

#[test]
fn route_errors_keep_the_message() {
    let e = route_error(WebError::NotFound("Task not found".to_string()));
    assert_eq!(e, WebError::NotFound("Task not found".to_string()));
    assert_eq!(e.status_code(), 404);
    let d = route_error(WebError::DBError("db down".to_string()));
    assert_eq!(d, WebError::ActixError("db down".to_string()));
    assert_eq!(d.status_code(), 500);
}

#[test]
fn version_file_replies() {
    assert_eq!(
        info_file_reply("/opt/pkg", FileRead::Missing),
        error(404, "在路径 /opt/pkg 下未找到 version.txt 文件")
    );
    assert_eq!(
        info_file_reply("/opt/pkg", FileRead::Failed("denied".to_string())),
        error(500, "读取文件失败: denied")
    );
    assert_eq!(
        info_file_reply("/opt/pkg", FileRead::Read("1.0.0".to_string())),
        typed(200, "text/plain", "1.0.0")
    );
}

#[test]
fn single_settings_file() {
    assert_eq!(
        setting_reply("\"/p/values/value.yml\"", FileRead::Missing),
        error(404, "未找到\\\"/p/values/value.yml\\\"文件，请检查")
    );
    assert_eq!(
        setting_reply("x", FileRead::Failed("io".to_string())),
        error(500, "读取文件时出错: io")
    );
    let ok = setting_reply("x", FileRead::Read("host: localhost\nport: \"8080\"\n".to_string()));
    assert_eq!(ok, typed(200, "application/json", "{\"host\":\"localhost\",\"port\":\"8080\"}"));
    let bad = setting_reply("x", FileRead::Read("- a\n- b\n".to_string()));
    assert_eq!(bad.status, 500);
    assert!(bad.body.starts_with("{\"error\":\"解析YAML文件时出错: "));
    assert!(bad.body.ends_with("\",\"code\":500}"));
    assert_eq!(settings_json_reply(Ok("{}".to_string())), typed(200, "application/json", "{}"));
    assert_eq!(
        settings_json_reply(Err("e".to_string())),
        error(500, "将设置转换为JSON时出错: e")
    );
}

#[test]
fn settings_directory() {
    assert!(is_yaml_extension("yml"));
    assert!(is_yaml_extension("yaml"));
    assert!(!is_yaml_extension("YML"));
    assert!(!is_yaml_extension("txt"));
    assert_eq!(file_settings(FileRead::Missing), vec![]);
    assert_eq!(file_settings(FileRead::Failed("x".to_string())), vec![]);
    assert_eq!(file_settings(FileRead::Read(": : :\n- [".to_string())), vec![]);
    let parsed = file_settings(FileRead::Read("b: 2\na: \"1\"\n".to_string()));
    assert_eq!(parsed, vec![("b".to_string(), "2".to_string()), ("a".to_string(), "1".to_string())]);
    let mut all = Vec::new();
    insert_settings(&mut all, "value.yml".to_string(), parsed.clone());
    insert_settings(&mut all, "extra.yaml".to_string(), vec![]);
    insert_settings(&mut all, "value.yml".to_string(), vec![("k".to_string(), "v".to_string())]);
    assert_eq!(all.len(), 2);
    assert_eq!(all[0], ("value.yml".to_string(), vec![("k".to_string(), "v".to_string())]));
    assert_eq!(all[1], ("extra.yaml".to_string(), vec![]));
    assert_eq!(
        settings_reply(&all),
        typed(200, "application/json", "{\"value.yml\":{\"k\":\"v\"},\"extra.yaml\":{}}")
    );
    assert_eq!(
        settings_dir_missing_reply("\"/p/values\""),
        error(404, "未找到目录:\\\"/p/values\\\"，请检查")
    );
}

#[test]
fn saving_settings() {
    assert_eq!(settings_file_name(&None), "value.yml");
    assert_eq!(settings_file_name(&Some("a.yml".to_string())), "a.yml");
    assert_eq!(save_dir_missing_reply("/nope"), error(404, "目录不存在: /nope"));
    let req = SaveSettingsRequest {
        file_name: None,
        settings: vec![("host".to_string(), "localhost".to_string()), ("port".to_string(), "8080".to_string())],
    };
    assert_eq!(settings_yaml(&req), Ok("host: localhost\nport: '8080'\n".to_string()));
    assert_eq!(yaml_step(Err("bad".to_string())), Err(error(500, "转换配置为YAML失败: bad")));
    assert_eq!(save_reply("value.yml", Ok(())), plain(200, "配置保存成功到文件 value.yml"));
    assert_eq!(save_reply("value.yml", Err("ro".to_string())), error(500, "保存配置文件失败: ro"));
}

#[test]
fn unzip_and_commands() {
    assert_eq!(unzip_missing_reply("/a.zip"), error(400, "文件不存在: /a.zip"));
    assert_eq!(
        unzip_reply(CommandRun::Finished { success: true, stdout: b"inflating: x".to_vec(), stderr: vec![] }),
        plain(200, "解压成功! 输出: inflating: x")
    );
    assert_eq!(
        unzip_reply(CommandRun::Finished { success: false, stdout: vec![], stderr: vec![0xff, b'!'] }),
        error(500, "解压失败: \u{fffd}!")
    );
    assert_eq!(
        unzip_reply(CommandRun::NotStarted("not found".to_string())),
        error(500, "执行解压命令失败: not found")
    );
    assert_eq!(setup_spawn_failed_reply("no gflow"), error(500, "Failed to spawn command: no gflow"));
    assert_eq!(
        localize_failure_reply(LocalizeFailure::NotStarted("x".to_string())),
        error(500, "Failed to start command: x")
    );
    assert_eq!(localize_failure_reply(LocalizeFailure::NoOutput), error(500, "Failed to capture stdout"));
}

#[test]
fn backup_paths() {
    assert_eq!(
        archive_path(&Some("app".to_string()), "20250101_120000"),
        "/Users/ldd/Workspaces/zip/bak-apk/app_20250101_120000.zip"
    );
    assert_eq!(archive_path(&None, "s"), "/Users/ldd/Workspaces/zip/bak-apk/backup_s.zip");
}

fn noon() -> LocalDateTime {
    LocalDateTime { year: 2025, month: 1, day: 2, hour: 3, minute: 4, second: 5 }
}

#[test]
fn backup_runs() {
    let (mut b, a) = Backup::start("/src/app/".to_string());
    assert_eq!(a, BackupAction::CheckSource("/src/app/".to_string()));
    assert_eq!(
        b.step(BackupEvent::SourceExists(true)),
        BackupAction::CheckBackupDir("/Users/ldd/Workspaces/zip/bak-apk".to_string())
    );
    assert_eq!(
        b.step(BackupEvent::BackupDirExists(false)),
        BackupAction::CreateBackupDir("/Users/ldd/Workspaces/zip/bak-apk".to_string())
    );
    assert_eq!(b.step(BackupEvent::BackupDirCreated(Ok(()))), BackupAction::NameArchive);
    let archive = "/Users/ldd/Workspaces/zip/bak-apk/app_20250102_030405.zip".to_string();
    assert_eq!(
        b.name_archive(noon()),
        BackupAction::WriteArchive { source: "/src/app/".to_string(), archive: archive.clone() }
    );
    assert_eq!(b.step(BackupEvent::ArchiveWritten(Ok(()))), BackupAction::CheckArchive(archive.clone()));
    assert_eq!(b.step(BackupEvent::ArchiveExists(true)), BackupAction::ValidateArchive(archive.clone()));
    assert_eq!(
        b.step(BackupEvent::ArchiveValid(true)),
        BackupAction::Done(plain(
            200,
            "备份成功，文件已保存至: /Users/ldd/Workspaces/zip/bak-apk/app_20250102_030405.zip"
        ))
    );
}

#[test]
fn backup_failures() {
    let start = || Backup::start("/src/app/..".to_string()).0;
    let mut b = start();
    assert_eq!(
        b.step(BackupEvent::SourceExists(false)),
        BackupAction::Done(error(404, "没有找到此路径: /src/app/.."))
    );
    let mut b = start();
    b.step(BackupEvent::SourceExists(true));
    b.step(BackupEvent::BackupDirExists(false));
    assert_eq!(
        b.step(BackupEvent::BackupDirCreated(Err("denied".to_string()))),
        BackupAction::Done(error(500, "备份文件不存在，且创建备份目录失败: denied"))
    );
    let mut b = start();
    b.step(BackupEvent::SourceExists(true));
    b.step(BackupEvent::BackupDirExists(true));
    b.name_archive(noon());
    assert_eq!(
        b.step(BackupEvent::ArchiveWritten(Err("io".to_string()))),
        BackupAction::Done(error(500, "创建备份文件失败: io"))
    );
    let mut b = start();
    b.step(BackupEvent::SourceExists(true));
    b.step(BackupEvent::BackupDirExists(true));
    b.name_archive(noon());
    b.step(BackupEvent::ArchiveWritten(Ok(())));
    assert_eq!(b.step(BackupEvent::ArchiveExists(false)), BackupAction::Done(error(500, "备份文件创建失败")));
    let mut b = start();
    b.step(BackupEvent::SourceExists(true));
    b.step(BackupEvent::BackupDirExists(true));
    b.name_archive(noon());
    b.step(BackupEvent::ArchiveWritten(Ok(())));
    b.step(BackupEvent::ArchiveExists(true));
    assert_eq!(
        b.step(BackupEvent::ArchiveValid(false)),
        BackupAction::Discard {
            archive: "/Users/ldd/Workspaces/zip/bak-apk/backup_20250102_030405.zip".to_string(),
            reply: error(500, "备份文件无效，可能压缩过程出错"),
        }
    );
}

#[test]
fn archive_stamps() {
    assert_eq!(stamp_text(2025, 1, 2, 3, 4, 5), "20250102_030405");
    assert_eq!(stamp_text(1999, 12, 31, 23, 59, 59), "19991231_235959");
    assert_eq!(stamp_text(7, 10, 11, 12, 13, 14), "00071011_121314");
    assert_eq!(stamp_text(12345, 6, 7, 0, 0, 0), "+123450607_000000");
    assert_eq!(stamp_text(-5, 6, 7, 0, 0, 0), "-00050607_000000");
    assert_eq!(stamp_text(-12345, 6, 7, 0, 0, 0), "-123450607_000000");
}

#[test]
fn front_end_assets() {
    assert_eq!(request_path("///assets/app.js"), "assets/app.js");
    assert_eq!(request_path(&request_path("//x")), "x");
    assert_eq!(request_path(""), "");
    assert!(is_file_request("assets/app.js"));
    assert!(!is_file_request("dashboard/tasks"));
    assert_eq!(extension_of("a.b.css"), "css");
    assert_eq!(extension_of("noext"), "noext");
    assert_eq!(content_type_for("app.js"), mime::APPLICATION_JAVASCRIPT.as_ref());
    assert_eq!(content_type_for("s.css"), mime::TEXT_CSS.as_ref());
    assert_eq!(content_type_for("index.html"), mime::TEXT_HTML.as_ref());
    assert_eq!(content_type_for("d.json"), mime::APPLICATION_JSON.as_ref());
    assert_eq!(content_type_for("p.png"), mime::IMAGE_PNG.as_ref());
    assert_eq!(content_type_for("p.jpg"), mime::IMAGE_JPEG.as_ref());
    assert_eq!(content_type_for("p.jpeg"), mime::IMAGE_JPEG.as_ref());
    assert_eq!(content_type_for("i.svg"), mime::IMAGE_SVG.as_ref());
    assert_eq!(content_type_for("font.woff2"), "font/woff2");
    assert_eq!(content_type_for("blob.unknownext"), "application/octet-stream");
    assert_eq!(cache_policy("index.html"), "no-cache");
    assert_eq!(cache_policy("app.js"), "public, max-age=31536000");
    assert_eq!(etag(&[0x01, 0xab, 0xff]), "\"01abff\"");
    assert_eq!(etag(&[]), "\"\"");
}


#[test]
fn error_answers_are_json() {
    let r = error_reply(400, "a\"b\\c\n\u{1}".to_string());
    assert_eq!(r.status, 400);
    assert_eq!(r.content_type, Some("application/json".to_string()));
    assert_eq!(r.body, "{\"error\":\"a\\\"b\\\\c\\n\\u0001\",\"code\":400}");
    assert_eq!(error_reply(500, String::new()).body, "{\"error\":\"\",\"code\":500}");
}

#[test]
fn directory_names() {
    let name = |p: &str| file_name_of(p);
    assert_eq!(name("/src/app"), Some("app".to_string()));
    assert_eq!(name("/src/app/"), Some("app".to_string()));
    assert_eq!(name("/src/app/."), Some("app".to_string()));
    assert_eq!(name("a//b/./"), Some("b".to_string()));
    assert_eq!(name("app"), Some("app".to_string()));
    assert_eq!(name("/src/app/.."), None);
    assert_eq!(name(".."), None);
    assert_eq!(name("."), None);
    assert_eq!(name("/"), None);
    assert_eq!(name(""), None);
    for p in ["/src/app", "/src/app/", "/src/app/.", "a//b/./", "/src/app/..", ".", "/", "", "./x", "x/../y"] {
        let expected = std::path::Path::new(p).file_name().and_then(|n| n.to_str()).map(|s| s.to_string());
        assert_eq!(name(p), expected, "{}", p);
    }
}
