//! The backup endpoint: archive a directory into the backup directory and
//! check the archive.
//!
//! Backing up alternates file-system work with decisions, so it is a state
//! machine: each step takes what the file system answered and says what to
//! do next, until it says `Done` or `Discard`.

use vstd::prelude::*;
use crate::routes::reply::{error_reply, is_error_reply, plain_reply, Reply};
use crate::text::{
    chars_of, concat2, string_of_range, decimal_digits, four_digits, opt_chars, push_decimal, push_four_digits, push_str,
    push_two_digits, two_digits,
};

verus! {

/// Where archives are written.
pub const BACKUP_DIR: &'static str = "/Users/ldd/Workspaces/zip/bak-apk";

/// The file name used when the backed-up directory has none.
pub const DEFAULT_BACKUP_NAME: &'static str = "backup";

/// A request to back up a directory.
#[derive(Clone, Debug, PartialEq, Eq)]
pub struct BakeupRequest {
    pub file_dir: String,
}

/// The archive's file name: the directory's own name (or `backup`), an
/// underscore, the time stamp and `.zip`.
pub open spec fn spec_archive_name(source_name: Option<Seq<char>>, stamp: Seq<char>) -> Seq<char> {
    let base = match source_name {
        Some(n) => n,
        None => DEFAULT_BACKUP_NAME@,
    };
    base + "_"@ + stamp + ".zip"@
}

/// The archive's path: the file name inside the backup directory.
pub open spec fn spec_archive_path(source_name: Option<Seq<char>>, stamp: Seq<char>) -> Seq<char> {
    BACKUP_DIR@ + "/"@ + spec_archive_name(source_name, stamp)
}

/// The characters after the last `/` of `s` (all of `s` when it has none).
pub open spec fn last_component(s: Seq<char>) -> Seq<char>
    decreases s.len(),
{
    if s.len() == 0 || s.last() == '/' {
        Seq::empty()
    } else {
        last_component(s.drop_last()).push(s.last())
    }
}

/// The last component of a path, as `Path::file_name` gives it: trailing
/// slashes and `.` components are passed over; there is none for a path
/// with no component left, or one that ends in `..`.
pub open spec fn spec_file_name(s: Seq<char>) -> Option<Seq<char>>
    decreases s.len(),
{
    if s.len() == 0 {
        None
    } else if s.last() == '/' {
        spec_file_name(s.drop_last())
    } else if last_component(s) == seq!['.'] {
        if s.len() == 1 {
            None
        } else {
            spec_file_name(s.drop_last())
        }
    } else if last_component(s) == seq!['.', '.'] {
        None
    } else {
        Some(last_component(s))
    }
}

/// With no `/` from `i` on and a `/` (or the start) just before `i`, the
/// last component is what follows `i`.
proof fn lemma_last_component(s: Seq<char>, i: int)
    requires
        0 <= i <= s.len(),
        forall|k: int| i <= k < s.len() ==> s[k] != '/',
        i == 0 || s[i - 1] == '/',
    ensures
        last_component(s) == s.subrange(i, s.len() as int),
    decreases s.len() - i,
{
    if s.len() > i {
        lemma_last_component(s.drop_last(), i);
        assert(s.drop_last().subrange(i, s.len() - 1).push(s.last()) =~= s.subrange(i, s.len() as int));
    } else {
        assert(s.subrange(i, s.len() as int) =~= Seq::<char>::empty());
    }
}

/// The name of the directory `path` names, as `Path::file_name` gives it.
pub fn file_name_of(path: &str) -> (r: Option<String>)
    ensures
        opt_chars(r) == spec_file_name(path@),
{
    let v = chars_of(path);
    let mut end: usize = v.len();
    assert(v@.subrange(0, end as int) =~= v@);
    loop
        invariant
            end <= v@.len(),
            v@ == path@,
            spec_file_name(v@.subrange(0, end as int)) == spec_file_name(path@),
        decreases end,
    {
        let ghost s = v@.subrange(0, end as int);
        if end == 0 {
            return None;
        }
        assert(s.drop_last() =~= v@.subrange(0, end - 1));
        if v[end - 1] == '/' {
            end = end - 1;
        } else {
            let mut i: usize = end;
            while i > 0 && v[i - 1] != '/'
                invariant
                    i <= end <= v@.len(),
                    forall|k: int| i <= k < end ==> v@[k] != '/',
                decreases i,
            {
                i = i - 1;
            }
            proof {
                lemma_last_component(s, i as int);
                assert(s.subrange(i as int, end as int) =~= v@.subrange(i as int, end as int));
            }
            if end - i == 1 && v[i] == '.' {
                assert(last_component(s) =~= seq!['.']);
                if end == 1 {
                    return None;
                }
                end = end - 1;
            } else if end - i == 2 && v[i] == '.' && v[i + 1] == '.' {
                assert(last_component(s) =~= seq!['.', '.']);
                return None;
            } else {
                let ghost c = v@.subrange(i as int, end as int);
                assert(last_component(s) == c);
                if end - i >= 1 {
                    assert(c[0] == v@[i as int]);
                }
                if end - i >= 2 {
                    assert(c[1] == v@[i + 1]);
                }
                assert(c != seq!['.']);
                assert(c != seq!['.', '.']);
                return Some(string_of_range(&v, i, end));
            }
        }
    }
}

/// The path of the archive for a directory with this name, stamped `stamp`.
pub fn archive_path(source_name: &Option<String>, stamp: &str) -> (p: String)
    ensures
        p@ == spec_archive_path(opt_chars(*source_name), stamp@),
{
    let mut p = String::from_str(BACKUP_DIR);
    push_str(&mut p, "/");
    match source_name {
        Some(n) => push_str(&mut p, n.as_str()),
        None => push_str(&mut p, DEFAULT_BACKUP_NAME),
    }
    push_str(&mut p, "_");
    push_str(&mut p, stamp);
    push_str(&mut p, ".zip");
    p
}

/// A date and time as the local calendar and clock show it.
#[derive(Clone, Copy, Debug, PartialEq, Eq, Structural)]
pub struct LocalDateTime {
    pub year: i32,
    pub month: u32,
    pub day: u32,
    pub hour: u32,
    pub minute: u32,
    pub second: u32,
}

impl LocalDateTime {
    /// The month, day, hour, minute and second are those of a calendar
    /// and a clock.
    pub open spec fn in_range(self) -> bool {
        &&& 1 <= self.month <= 12
        &&& 1 <= self.day <= 31
        &&& self.hour <= 23
        &&& self.minute <= 59
        &&& self.second <= 59
    }
}

/// A year as `%Y` writes it: four digits with leading zeros for the years 0
/// to 9999, otherwise its sign and at least four digits.
pub open spec fn year_text(y: int) -> Seq<char> {
    if 0 <= y <= 9999 {
        four_digits(y as nat)
    } else if y > 9999 {
        "+"@ + decimal_digits(y as nat)
    } else if y > -10000 {
        "-"@ + four_digits((-y) as nat)
    } else {
        "-"@ + decimal_digits((-y) as nat)
    }
}

/// The archive's time stamp, `%Y%m%d_%H%M%S`: the year, then the month,
/// day, hour, minute and second in two digits each, with an underscore
/// between the date and the time.
pub open spec fn spec_stamp_text(t: LocalDateTime) -> Seq<char> {
    year_text(t.year as int) + two_digits(t.month as nat) + two_digits(t.day as nat) + "_"@
        + two_digits(t.hour as nat) + two_digits(t.minute as nat) + two_digits(t.second as nat)
}

/// The time stamp `YYYYmmdd_HHMMSS` of a local date and time.
pub fn stamp_text(year: i32, month: u32, day: u32, hour: u32, minute: u32, second: u32) -> (s: String)
    requires
        month < 100,
        day < 100,
        hour < 100,
        minute < 100,
        second < 100,
    ensures
        s@ == spec_stamp_text(LocalDateTime { year, month, day, hour, minute, second }),
{
    let mut s = String::new();
    let y: i64 = year as i64;
    if 0 <= y && y <= 9999 {
        push_four_digits(&mut s, y as u64);
    } else if y > 9999 {
        push_str(&mut s, "+");
        push_decimal(&mut s, y as u64);
    } else if y > -10000 {
        push_str(&mut s, "-");
        push_four_digits(&mut s, (-y) as u64);
    } else {
        push_str(&mut s, "-");
        push_decimal(&mut s, (-y) as u64);
    }
    push_two_digits(&mut s, month as u64);
    push_two_digits(&mut s, day as u64);
    push_str(&mut s, "_");
    push_two_digits(&mut s, hour as u64);
    push_two_digits(&mut s, minute as u64);
    push_two_digits(&mut s, second as u64);
    s
}

/// Which answer a backup waits for.
#[derive(Clone, Copy, Debug, PartialEq, Eq, Structural)]
pub enum BackupPhase {
    AwaitSource,
    AwaitBackupDirCheck,
    AwaitBackupDirCreation,
    AwaitStamp,
    AwaitArchive,
    AwaitArchiveCheck,
    AwaitValidation,
    Finished,
}

/// What the file system answered.
#[derive(Debug, PartialEq, Eq)]
pub enum BackupEvent {
    /// Whether the directory to back up exists.
    SourceExists(bool),
    /// Whether the backup directory exists.
    BackupDirExists(bool),
    /// How creating the backup directory went.
    BackupDirCreated(Result<(), String>),
    /// How writing the archive went.
    ArchiveWritten(Result<(), String>),
    /// Whether the archive exists after writing it.
    ArchiveExists(bool),
    /// Whether the archive tests as a valid ZIP archive.
    ArchiveValid(bool),
}

/// The phase in which each answer is expected.
pub open spec fn phase_for(e: BackupEvent) -> BackupPhase {
    match e {
        BackupEvent::SourceExists(_) => BackupPhase::AwaitSource,
        BackupEvent::BackupDirExists(_) => BackupPhase::AwaitBackupDirCheck,
        BackupEvent::BackupDirCreated(_) => BackupPhase::AwaitBackupDirCreation,
        BackupEvent::ArchiveWritten(_) => BackupPhase::AwaitArchive,
        BackupEvent::ArchiveExists(_) => BackupPhase::AwaitArchiveCheck,
        BackupEvent::ArchiveValid(_) => BackupPhase::AwaitValidation,
    }
}

/// What to do next.
#[derive(Clone, Debug, PartialEq, Eq)]
pub enum BackupAction {
    /// Check whether this directory exists.
    CheckSource(String),
    /// Check whether this backup directory exists.
    CheckBackupDir(String),
    /// Create this backup directory and its parents.
    CreateBackupDir(String),
    /// Read the local time and name the archive with it (`name_archive`).
    NameArchive,
    /// Write the archive of `source` to `archive`.
    WriteArchive { source: String, archive: String },
    /// Check whether this archive exists.
    CheckArchive(String),
    /// Test this archive.
    ValidateArchive(String),
    /// Delete this archive (whatever comes of it) and answer with the reply.
    Discard { archive: String, reply: Reply },
    /// Answer with the reply.
    Done(Reply),
}

/// A backup in progress.
pub struct Backup {
    file_dir: String,
    source_name: Option<String>,
    archive: String,
    phase: BackupPhase,
}

/// The month, day, hour, minute and second each fit in two digits.
pub open spec fn two_digit_fields(t: LocalDateTime) -> bool {
    &&& t.month < 100
    &&& t.day < 100
    &&& t.hour < 100
    &&& t.minute < 100
    &&& t.second < 100
}

impl Backup {
    /// The directory being backed up.
    pub closed spec fn file_dir(&self) -> Seq<char> {
        self.file_dir@
    }

    /// The directory's own name, if it has one.
    pub closed spec fn source_name(&self) -> Option<Seq<char>> {
        opt_chars(self.source_name)
    }

    /// The archive's path (empty until the archive is named).
    pub closed spec fn archive(&self) -> Seq<char> {
        self.archive@
    }

    /// The answer the backup waits for.
    pub closed spec fn phase(&self) -> BackupPhase {
        self.phase
    }

    /// How many more steps the backup can take at most.
    pub closed spec fn remaining_steps(&self) -> nat {
        match self.phase {
            BackupPhase::AwaitSource => 7,
            BackupPhase::AwaitBackupDirCheck => 6,
            BackupPhase::AwaitBackupDirCreation => 5,
            BackupPhase::AwaitStamp => 4,
            BackupPhase::AwaitArchive => 3,
            BackupPhase::AwaitArchiveCheck => 2,
            BackupPhase::AwaitValidation => 1,
            BackupPhase::Finished => 0,
        }
    }

    /// Starts backing up `file_dir`, named after the directory's own name:
    /// first check that the directory exists.
    pub fn start(file_dir: String) -> (r: (Backup, BackupAction))
        ensures
            r.0.file_dir() == file_dir@,
            r.0.source_name() == spec_file_name(file_dir@),
            r.0.archive() == Seq::<char>::empty(),
            r.0.phase() == BackupPhase::AwaitSource,
            r.0.remaining_steps() == 7,
            r.1 matches BackupAction::CheckSource(d) && d@ == file_dir@,
    {
        let check = file_dir.clone();
        let source_name = file_name_of(file_dir.as_str());
        let backup = Backup {
            file_dir,
            source_name,
            archive: String::new(),
            phase: BackupPhase::AwaitSource,
        };
        (backup, BackupAction::CheckSource(check))
    }

    /// Names the archive after the directory and the local time `now`, once
    /// the backup directory is there, and asks for the archive to be written.
    pub fn name_archive(&mut self, now: LocalDateTime) -> (a: BackupAction)
        requires
            old(self).phase() == BackupPhase::AwaitStamp,
            two_digit_fields(now),
        ensures
            final(self).phase() == BackupPhase::AwaitArchive,
            final(self).remaining_steps() < old(self).remaining_steps(),
            final(self).file_dir() == old(self).file_dir(),
            final(self).source_name() == old(self).source_name(),
            final(self).archive() == spec_archive_path(old(self).source_name(), spec_stamp_text(now)),
            a matches BackupAction::WriteArchive { source, archive } && source@ == old(self).file_dir()
                && archive@ == final(self).archive(),
    {
        let stamp = stamp_text(now.year, now.month, now.day, now.hour, now.minute, now.second);
        self.archive = archive_path(&self.source_name, stamp.as_str());
        self.phase = BackupPhase::AwaitArchive;
        BackupAction::WriteArchive { source: self.file_dir.clone(), archive: self.archive.clone() }
    }

    /// Takes one answer. A missing directory is answered 404; the backup
    /// directory is created when missing, and a failure to create it, to
    /// write the archive, or to find the archive afterwards is answered
    /// 500; an archive that does not test valid is deleted and answered
    /// 500; a valid archive is answered 200 with its path.
    pub fn step(&mut self, event: BackupEvent) -> (a: BackupAction)
        requires
            old(self).phase() == phase_for(event),
        ensures
            final(self).remaining_steps() < old(self).remaining_steps(),
            final(self).phase() == BackupPhase::Finished <==> (a is Done || a is Discard),
            final(self).file_dir() == old(self).file_dir(),
            final(self).source_name() == old(self).source_name(),
            final(self).archive() == old(self).archive(),
            event == BackupEvent::SourceExists(false) ==> final(self).phase() == BackupPhase::Finished
                && (a matches BackupAction::Done(r) && is_error_reply(r, 404, "没有找到此路径: "@ + old(self).file_dir())),
            event == BackupEvent::SourceExists(true) ==> final(self).phase() == BackupPhase::AwaitBackupDirCheck
                && (a matches BackupAction::CheckBackupDir(d) && d@ == BACKUP_DIR@),
            event == BackupEvent::BackupDirExists(false) ==> final(self).phase() == BackupPhase::AwaitBackupDirCreation
                && (a matches BackupAction::CreateBackupDir(d) && d@ == BACKUP_DIR@),
            (event == BackupEvent::BackupDirExists(true) || event == BackupEvent::BackupDirCreated(Ok(())))
                ==> final(self).phase() == BackupPhase::AwaitStamp && a is NameArchive,
            event matches BackupEvent::BackupDirCreated(Err(e)) ==> final(self).phase() == BackupPhase::Finished
                && (a matches BackupAction::Done(r) && is_error_reply(r, 500, "备份文件不存在，且创建备份目录失败: "@ + e@)),
            event == BackupEvent::ArchiveWritten(Ok(())) ==> final(self).phase() == BackupPhase::AwaitArchiveCheck
                && (a matches BackupAction::CheckArchive(p) && p@ == old(self).archive()),
            event matches BackupEvent::ArchiveWritten(Err(e)) ==> final(self).phase() == BackupPhase::Finished
                && (a matches BackupAction::Done(r) && is_error_reply(r, 500, "创建备份文件失败: "@ + e@)),
            event == BackupEvent::ArchiveExists(false) ==> final(self).phase() == BackupPhase::Finished
                && (a matches BackupAction::Done(r) && is_error_reply(r, 500, "备份文件创建失败"@)),
            event == BackupEvent::ArchiveExists(true) ==> final(self).phase() == BackupPhase::AwaitValidation
                && (a matches BackupAction::ValidateArchive(p) && p@ == old(self).archive()),
            event == BackupEvent::ArchiveValid(false) ==> final(self).phase() == BackupPhase::Finished
                && (a matches BackupAction::Discard { archive, reply } && archive@ == old(self).archive()
                && is_error_reply(reply, 500, "备份文件无效，可能压缩过程出错"@)),
            event == BackupEvent::ArchiveValid(true) ==> final(self).phase() == BackupPhase::Finished
                && (a matches BackupAction::Done(r) && r.status == 200 && r.content_type is None
                && r.body@ == "备份成功，文件已保存至: "@ + old(self).archive()),
    {
        match event {
            BackupEvent::SourceExists(false) => {
                self.phase = BackupPhase::Finished;
                BackupAction::Done(error_reply(404, concat2("没有找到此路径: ", self.file_dir.as_str())))
            },
            BackupEvent::SourceExists(true) => {
                self.phase = BackupPhase::AwaitBackupDirCheck;
                BackupAction::CheckBackupDir(String::from_str(BACKUP_DIR))
            },
            BackupEvent::BackupDirExists(false) => {
                self.phase = BackupPhase::AwaitBackupDirCreation;
                BackupAction::CreateBackupDir(String::from_str(BACKUP_DIR))
            },
            BackupEvent::BackupDirExists(true) | BackupEvent::BackupDirCreated(Ok(())) => {
                self.phase = BackupPhase::AwaitStamp;
                BackupAction::NameArchive
            },
            BackupEvent::BackupDirCreated(Err(e)) => {
                self.phase = BackupPhase::Finished;
                BackupAction::Done(error_reply(500, concat2("备份文件不存在，且创建备份目录失败: ", e.as_str())))
            },
            BackupEvent::ArchiveWritten(Ok(())) => {
                self.phase = BackupPhase::AwaitArchiveCheck;
                BackupAction::CheckArchive(self.archive.clone())
            },
            BackupEvent::ArchiveWritten(Err(e)) => {
                self.phase = BackupPhase::Finished;
                BackupAction::Done(error_reply(500, concat2("创建备份文件失败: ", e.as_str())))
            },
            BackupEvent::ArchiveExists(false) => {
                self.phase = BackupPhase::Finished;
                BackupAction::Done(error_reply(500, String::from_str("备份文件创建失败")))
            },
            BackupEvent::ArchiveExists(true) => {
                self.phase = BackupPhase::AwaitValidation;
                BackupAction::ValidateArchive(self.archive.clone())
            },
            BackupEvent::ArchiveValid(false) => {
                self.phase = BackupPhase::Finished;
                BackupAction::Discard {
                    archive: self.archive.clone(),
                    reply: error_reply(500, String::from_str("备份文件无效，可能压缩过程出错")),
                }
            },
            BackupEvent::ArchiveValid(true) => {
                self.phase = BackupPhase::Finished;
                BackupAction::Done(plain_reply(200, concat2("备份成功，文件已保存至: ", self.archive.as_str())))
            },
        }
    }
}

} // verus!
