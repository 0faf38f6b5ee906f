//! Installation endpoints: the version file of an unpacked package and its
//! settings files under `values/`.

use vstd::prelude::*;
use crate::formats::{
    directory_to_json, directory_view, json_of_settings_directory, json_of_string_map, map_to_json,
    map_to_yaml, map_view, parse_yaml_map, text_result_view, yaml_of_string_map, yaml_string_map,
    SettingsDirectory, SettingsMap,
};
use crate::routes::reply::{error_reply, is_error_reply, plain_reply, typed_reply, Reply};
use crate::text::{concat2, concat3, str_eq};

verus! {

/// The version file of an unpacked package.
pub const VERSION_FILE: &'static str = "version.txt";

/// The settings file of an unpacked package, relative to its directory.
pub const SETTINGS_FILE: &'static str = "values/value.yml";

/// The directory of settings files, relative to the package directory.
pub const SETTINGS_DIR: &'static str = "values";

/// The settings file written when a save request names none.
pub const DEFAULT_SETTINGS_FILE: &'static str = "value.yml";

/// A request naming a package directory.
#[derive(Clone, Debug, PartialEq, Eq)]
pub struct FilePathRequest {
    pub dir_path: String,
}

/// A request to save settings.
#[derive(Clone, Debug, PartialEq, Eq)]
pub struct SaveSettingsRequest {
    /// The file name under `values/`, without a path.
    pub file_name: Option<String>,
    /// The settings, in order.
    pub settings: SettingsMap,
}

/// What reading a file gave.
#[derive(Clone, Debug, PartialEq, Eq)]
pub enum FileRead {
    /// The file does not exist.
    Missing,
    /// Reading failed with this message.
    Failed(String),
    /// The file's text.
    Read(String),
}

/// The answer for the version file: its text, or why it is missing or
/// unreadable.
pub fn info_file_reply(dir_path: &str, read: FileRead) -> (r: Reply)
    ensures
        read is Missing ==> is_error_reply(r, 404, "在路径 "@ + dir_path@ + " 下未找到 version.txt 文件"@),
        read matches FileRead::Failed(e) ==> is_error_reply(r, 500, "读取文件失败: "@ + e@),
        read matches FileRead::Read(c) ==> r.status == 200
            && (r.content_type matches Some(t) && t@ == "text/plain"@) && r.body == c,
{
    match read {
        FileRead::Missing => error_reply(404, concat3("在路径 ", dir_path, " 下未找到 version.txt 文件")),
        FileRead::Failed(e) => error_reply(500, concat2("读取文件失败: ", e.as_str())),
        FileRead::Read(c) => typed_reply(200, "text/plain", c),
    }
}

/// The answer for settings turned into JSON text: that text, or the
/// serializer's message.
pub fn settings_json_reply(json: Result<String, String>) -> (r: Reply)
    ensures
        json matches Ok(j) ==> r.status == 200
            && (r.content_type matches Some(t) && t@ == "application/json"@) && r.body == j,
        json matches Err(e) ==> is_error_reply(r, 500, "将设置转换为JSON时出错: "@ + e@),
{
    match json {
        Ok(j) => typed_reply(200, "application/json", j),
        Err(e) => error_reply(500, concat2("将设置转换为JSON时出错: ", e.as_str())),
    }
}

/// The answer for a parsed settings file: its settings as JSON (writing a
/// map of strings as JSON does not fail), or the parser's message.
pub fn parsed_settings_reply(parsed: Result<SettingsMap, String>) -> (r: Reply)
    ensures
        parsed matches Err(e) ==> is_error_reply(r, 500, "解析YAML文件时出错: "@ + e@),
        parsed matches Ok(m) ==> (json_of_string_map(map_view(m@)) matches Ok(j) && r.status == 200
            && (r.content_type matches Some(t) && t@ == "application/json"@) && r.body@ == j),
{
    match parsed {
        Err(e) => error_reply(500, concat2("解析YAML文件时出错: ", e.as_str())),
        Ok(m) => settings_json_reply(map_to_json(&m)),
    }
}

/// The answer for the settings file `values/value.yml`: its settings as
/// JSON, or why it is missing, unreadable or not YAML.
/// `path_text` is how the file's path is written in messages.
pub fn setting_reply(path_text: &str, read: FileRead) -> (r: Reply)
    ensures
        read is Missing ==> is_error_reply(r, 404, "未找到"@ + path_text@ + "文件，请检查"@),
        read matches FileRead::Failed(e) ==> is_error_reply(r, 500, "读取文件时出错: "@ + e@),
        read matches FileRead::Read(c) ==> (yaml_string_map(c@) matches Err(e) ==> is_error_reply(
            r,
            500,
            "解析YAML文件时出错: "@ + e,
        )),
        read matches FileRead::Read(c) ==> (yaml_string_map(c@) matches Ok(m) ==> (
            json_of_string_map(m) matches Ok(j) && r.status == 200
            && (r.content_type matches Some(t) && t@ == "application/json"@) && r.body@ == j)),
{
    match read {
        FileRead::Missing => error_reply(404, concat3("未找到", path_text, "文件，请检查")),
        FileRead::Failed(e) => error_reply(500, concat2("读取文件时出错: ", e.as_str())),
        FileRead::Read(c) => parsed_settings_reply(parse_yaml_map(c.as_str())),
    }
}

/// Files with the extension `yml` or `yaml` are settings files.
pub fn is_yaml_extension(ext: &str) -> (b: bool)
    ensures
        b == (ext@ == "yml"@ || ext@ == "yaml"@),
{
    str_eq(ext, "yml") || str_eq(ext, "yaml")
}

/// The settings of one file of the settings directory: what it holds when
/// it reads and parses, and no settings when it is missing, unreadable or
/// not YAML.
pub fn file_settings(read: FileRead) -> (m: SettingsMap)
    ensures
        !(read is Read) ==> m@.len() == 0,
        read matches FileRead::Read(c) ==> (yaml_string_map(c@) matches Ok(p) ==> map_view(m@) == p),
        read matches FileRead::Read(c) ==> (yaml_string_map(c@) is Err ==> m@.len() == 0),
{
    match read {
        FileRead::Read(c) => match parse_yaml_map(c.as_str()) {
            Ok(m) => m,
            Err(_) => Vec::new(),
        },
        _ => Vec::new(),
    }
}

/// No two entries have the same name.
pub open spec fn names_distinct(d: Seq<(String, SettingsMap)>) -> bool {
    forall|i: int, j: int| 0 <= i < j < d.len() ==> d[i].0@ != d[j].0@
}

/// Records the settings of one file: an entry of that name has its settings
/// replaced; otherwise the file is added at the end.
pub fn insert_settings(all: &mut SettingsDirectory, file_name: String, map: SettingsMap)
    ensures
        (exists|i: int| 0 <= i < old(all)@.len() && old(all)@[i].0@ == file_name@) ==> {
            let i = choose|i: int| 0 <= i < old(all)@.len() && old(all)@[i].0@ == file_name@
                && forall|j: int| 0 <= j < i ==> old(all)@[j].0@ != file_name@;
            final(all)@ == old(all)@.update(i, (old(all)@[i].0, map))
        },
        !(exists|i: int| 0 <= i < old(all)@.len() && old(all)@[i].0@ == file_name@) ==> final(all)@
            == old(all)@.push((file_name, map)),
{
    let mut i: usize = 0;
    while i < all.len()
        invariant
            i <= all@.len(),
            all@ == old(all)@,
            forall|j: int| 0 <= j < i ==> all@[j].0@ != file_name@,
        decreases all.len() - i,
    {
        if str_eq(all[i].0.as_str(), file_name.as_str()) {
            let ghost first = i as int;
            assert(forall|j: int| 0 <= j < first ==> old(all)@[j].0@ != file_name@);
            let name = all[i].0.clone();
            all.set(i, (name, map));
            proof {
                let c = choose|k: int| 0 <= k < old(all)@.len() && old(all)@[k].0@ == file_name@
                    && forall|j: int| 0 <= j < k ==> old(all)@[j].0@ != file_name@;
                assert(c == first) by {
                    if c < first {
                    } else if c > first {
                        assert(old(all)@[first].0@ == file_name@);
                    }
                }
            }
            return;
        }
        i = i + 1;
    }
    all.push((file_name, map));
}

/// Replacing or adding an entry keeps names distinct, and afterwards the
/// file's name has exactly the recorded settings.
pub proof fn lemma_insert_settings(
    before: Seq<(String, SettingsMap)>,
    after: Seq<(String, SettingsMap)>,
    file_name: String,
    map: SettingsMap,
)
    requires
        names_distinct(before),
        (exists|i: int| 0 <= i < before.len() && before[i].0@ == file_name@) ==> {
            let i = choose|i: int| 0 <= i < before.len() && before[i].0@ == file_name@
                && forall|j: int| 0 <= j < i ==> before[j].0@ != file_name@;
            after == before.update(i, (before[i].0, map))
        },
        !(exists|i: int| 0 <= i < before.len() && before[i].0@ == file_name@) ==> after == before.push(
            (file_name, map),
        ),
    ensures
        names_distinct(after),
        exists|i: int| 0 <= i < after.len() && after[i].0@ == file_name@ && after[i].1 == map,
        forall|i: int| 0 <= i < after.len() && after[i].0@ != file_name@ ==> exists|j: int|
            0 <= j < before.len() && before[j] == after[i],
{
    if exists|i: int| 0 <= i < before.len() && before[i].0@ == file_name@ {
        let i = choose|i: int| 0 <= i < before.len() && before[i].0@ == file_name@
            && forall|j: int| 0 <= j < i ==> before[j].0@ != file_name@;
        assert(after[i].1 == map);
        assert forall|k: int| 0 <= k < after.len() && after[k].0@ != file_name@ implies exists|j: int|
            0 <= j < before.len() && before[j] == after[k] by {
            assert(before[k] == after[k]);
        }
    } else {
        let n = before.len() as int;
        assert(after[n].1 == map);
        assert forall|k: int| 0 <= k < after.len() && after[k].0@ != file_name@ implies exists|j: int|
            0 <= j < before.len() && before[j] == after[k] by {
            assert(before[k] == after[k]);
        }
    }
}

/// The answer when the settings directory does not exist. `dir_text` is
/// how the directory's path is written in messages.
pub fn settings_dir_missing_reply(dir_text: &str) -> (r: Reply)
    ensures
        is_error_reply(r, 404, "未找到目录:"@ + dir_text@ + "，请检查"@),
{
    error_reply(404, concat3("未找到目录:", dir_text, "，请检查"))
}

/// The answer when the settings directory cannot be listed.
pub fn settings_dir_unreadable_reply(error: &str) -> (r: Reply)
    ensures
        is_error_reply(r, 500, "读取目录时出错: "@ + error@),
{
    error_reply(500, concat2("读取目录时出错: ", error))
}

/// The answer with the settings of every settings file, as nested JSON
/// (writing maps of strings as JSON does not fail).
pub fn settings_reply(all: &SettingsDirectory) -> (r: Reply)
    ensures
        json_of_settings_directory(directory_view(all@)) matches Ok(j) && r.status == 200
            && (r.content_type matches Some(t) && t@ == "application/json"@) && r.body@ == j,
{
    settings_json_reply(directory_to_json(all))
}

/// The file a save request writes: the one it names, or `value.yml`.
pub fn settings_file_name(file_name: &Option<String>) -> (s: String)
    ensures
        s@ == match file_name { Some(f) => f@, None => DEFAULT_SETTINGS_FILE@ },
{
    match file_name {
        Some(f) => f.clone(),
        None => String::from_str(DEFAULT_SETTINGS_FILE),
    }
}

/// The answer when the package directory of a save request does not exist.
pub fn save_dir_missing_reply(dir_path: &str) -> (r: Reply)
    ensures
        is_error_reply(r, 404, "目录不存在: "@ + dir_path@),
{
    error_reply(404, concat2("目录不存在: ", dir_path))
}

/// The answer when the settings directory cannot be created.
pub fn create_dir_failed_reply(error: &str) -> (r: Reply)
    ensures
        is_error_reply(r, 500, "创建目录失败: "@ + error@),
{
    error_reply(500, concat2("创建目录失败: ", error))
}

/// The YAML text to write, or the answer when the settings cannot be
/// written as YAML.
pub fn yaml_step(yaml: Result<String, String>) -> (r: Result<String, Reply>)
    ensures
        yaml matches Ok(y) ==> r == Ok::<String, Reply>(y),
        yaml matches Err(e) ==> (r matches Err(reply) && is_error_reply(reply, 500, "转换配置为YAML失败: "@ + e@)),
{
    match yaml {
        Ok(y) => Ok(y),
        Err(e) => Err(error_reply(500, concat2("转换配置为YAML失败: ", e.as_str()))),
    }
}

/// The settings of a save request as YAML text, or the answer when they
/// cannot be written as YAML.
pub fn settings_yaml(request: &SaveSettingsRequest) -> (r: Result<String, Reply>)
    ensures
        yaml_of_string_map(map_view(request.settings@)) matches Ok(y) ==> (r matches Ok(t) && t@ == y),
        yaml_of_string_map(map_view(request.settings@)) matches Err(e) ==> (r matches Err(reply)
            && is_error_reply(reply, 500, "转换配置为YAML失败: "@ + e)),
{
    let y = map_to_yaml(&request.settings);
    proof {
        assert(text_result_view(y) == yaml_of_string_map(map_view(request.settings@)));
    }
    yaml_step(y)
}

/// The answer after writing the settings file `file_name`.
pub fn save_reply(file_name: &str, written: Result<(), String>) -> (r: Reply)
    ensures
        written is Ok ==> r.status == 200 && r.content_type is None
            && r.body@ == "配置保存成功到文件 "@ + file_name@,
        written matches Err(e) ==> is_error_reply(r, 500, "保存配置文件失败: "@ + e@),
{
    match written {
        Ok(()) => plain_reply(200, concat2("配置保存成功到文件 ", file_name)),
        Err(e) => error_reply(500, concat2("保存配置文件失败: ", e.as_str())),
    }
}

} // verus!
