//! Command endpoints: unpacking a package and running the installer and
//! the localizer.

use vstd::prelude::*;
use vstd::utf8::{decode_utf8, valid_utf8};
use crate::routes::reply::{error_reply, is_error_reply, plain_reply, Reply};
use crate::text::concat2;

verus! {

/// A request to unpack a package archive.
#[derive(Clone, Debug, PartialEq, Eq)]
pub struct UnzipRequest {
    /// The archive's path.
    pub zip_path: String,
}

/// A request naming the directory to run a command in.
#[derive(Clone, Debug, PartialEq, Eq)]
pub struct FilePathRequest {
    pub dir_path: String,
}

/// How running a command went.
#[derive(Clone, Debug, PartialEq, Eq)]
pub enum CommandRun {
    /// It ran to the end, successfully or not, with its output.
    Finished { success: bool, stdout: Vec<u8>, stderr: Vec<u8> },
    /// It could not be started; the system's message.
    NotStarted(String),
}

/// What `String::from_utf8_lossy` makes of some bytes: the text they encode,
/// with each invalid sequence replaced by U+FFFD.
pub uninterp spec fn utf8_lossy(bytes: Seq<u8>) -> Seq<char>;

/// `String::from_utf8_lossy` of the standard library. Valid UTF-8 is
/// decoded unchanged, as its documentation says.
#[verifier::external_body]
fn lossy_text(bytes: &[u8]) -> (s: String)
    ensures
        s@ == utf8_lossy(bytes@),
        valid_utf8(bytes@) ==> s@ == decode_utf8(bytes@),
{
    String::from_utf8_lossy(bytes).into_owned()
}

/// The answer when the archive to unpack does not exist.
pub fn unzip_missing_reply(zip_path: &str) -> (r: Reply)
    ensures
        is_error_reply(r, 400, "文件不存在: "@ + zip_path@),
{
    error_reply(400, concat2("文件不存在: ", zip_path))
}

/// The answer after running the unpacker: its output when it succeeded,
/// its error output when it failed, or why it could not start.
pub fn unzip_reply(run: CommandRun) -> (r: Reply)
    ensures
        run matches CommandRun::Finished { success, stdout, stderr } ==> (success ==> r.status == 200
            && r.content_type is None && r.body@ == "解压成功! 输出: "@ + utf8_lossy(stdout@)),
        run matches CommandRun::Finished { success, stdout, stderr } ==> (!success ==> is_error_reply(
            r,
            500,
            "解压失败: "@ + utf8_lossy(stderr@),
        )),
        run matches CommandRun::NotStarted(e) ==> is_error_reply(r, 500, "执行解压命令失败: "@ + e@),
{
    match run {
        CommandRun::Finished { success, stdout, stderr } => {
            if success {
                let out = lossy_text(stdout.as_slice());
                plain_reply(200, concat2("解压成功! 输出: ", out.as_str()))
            } else {
                let err = lossy_text(stderr.as_slice());
                error_reply(500, concat2("解压失败: ", err.as_str()))
            }
        },
        CommandRun::NotStarted(e) => error_reply(500, concat2("执行解压命令失败: ", e.as_str())),
    }
}

/// The answer when the installer cannot be started.
pub fn setup_spawn_failed_reply(error: &str) -> (r: Reply)
    ensures
        is_error_reply(r, 500, "Failed to spawn command: "@ + error@),
{
    error_reply(500, concat2("Failed to spawn command: ", error))
}

/// Why the localizer's output cannot be streamed.
#[derive(Clone, Debug, PartialEq, Eq)]
pub enum LocalizeFailure {
    /// It could not be started; the system's message.
    NotStarted(String),
    /// Its output could not be captured.
    NoOutput,
}

/// The answer when the localizer's output cannot be streamed.
pub fn localize_failure_reply(failure: LocalizeFailure) -> (r: Reply)
    ensures
        failure matches LocalizeFailure::NotStarted(e) ==> is_error_reply(
            r,
            500,
            "Failed to start command: "@ + e@,
        ),
        failure is NoOutput ==> is_error_reply(r, 500, "Failed to capture stdout"@),
{
    match failure {
        LocalizeFailure::NotStarted(e) => error_reply(500, concat2("Failed to start command: ", e.as_str())),
        LocalizeFailure::NoOutput => error_reply(500, String::from_str("Failed to capture stdout")),
    }
}

} // verus!
