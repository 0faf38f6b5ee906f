//! Backups: which archive entry each file or directory under the backed-up
//! directory becomes.

use vstd::prelude::*;
use vstd::string::StringSliceAdditionalSpecFns;
use vstd::utf8::{encode_utf8, is_char_boundary};
use crate::text::push_char;

verus! {

/// What to add to the archive for one walked path.
#[derive(Clone, Debug, PartialEq, Eq)]
pub enum ArchiveEntry {
    /// Nothing.
    Skip,
    /// A file, stored under this name.
    File(String),
    /// A directory, stored under this name (which ends with `/`).
    Directory(String),
}

/// The text ends with a slash.
pub open spec fn ends_with_slash(s: Seq<char>) -> bool {
    s.len() > 0 && s.last() == '/'
}

/// How many leading bytes of a walked path name the backed-up directory and
/// the separator after it.
pub open spec fn prefix_len(src_dir: &str) -> int {
    src_dir.spec_bytes().len() + if ends_with_slash(src_dir@) { 0int } else { 1int }
}

/// The name of a walked path inside the archive, as bytes: what follows
/// the backed-up directory's prefix, or, when nothing follows it, the
/// path's own file name.
pub open spec fn relative_bytes(src_dir: &str, entry: &str, file_name: &str) -> Seq<u8> {
    if entry.spec_bytes().len() > prefix_len(src_dir) {
        entry.spec_bytes().subrange(prefix_len(src_dir), entry.spec_bytes().len() as int)
    } else {
        file_name.spec_bytes()
    }
}

/// The name can be cut there: either nothing follows the prefix, or the
/// prefix ends on a character boundary.
pub open spec fn cuttable(src_dir: &str, entry: &str) -> bool {
    entry.spec_bytes().len() > prefix_len(src_dir) ==> is_char_boundary(
        entry.spec_bytes(),
        prefix_len(src_dir),
    )
}

fn ends_with_slash_exec(s: &str) -> (b: bool)
    ensures
        b == ends_with_slash(s@),
{
    let n = s.unicode_len();
    n > 0 && s.get_char(n - 1) == '/'
}

fn relative_name(src_dir: &str, entry: &str, file_name: &str) -> (r: String)
    requires
        src_dir.spec_bytes().len() < usize::MAX,
        entry.spec_bytes().len() <= usize::MAX,
        cuttable(src_dir, entry),
    ensures
        encode_utf8(r@) == relative_bytes(src_dir, entry, file_name),
{
    let k: usize = src_dir.len() + if ends_with_slash_exec(src_dir) { 0 } else { 1 };
    assert(k == prefix_len(src_dir));
    if entry.len() > k {
        let (_, rest) = entry.split_at(k);
        assert(rest.spec_bytes() =~= entry.spec_bytes().subrange(k as int, entry.spec_bytes().len() as int));
        rest.to_owned()
    } else {
        file_name.to_owned()
    }
}

/// The archive entry for one walked path. The backed-up directory itself
/// adds nothing; a file is stored under its relative name; a directory
/// whose walked name does not end with a slash is stored under its relative
/// name followed by a slash; anything else adds nothing.
pub fn archive_entry(
    src_dir: &str,
    entry: &str,
    file_name: &str,
    is_root: bool,
    is_file: bool,
    is_dir: bool,
) -> (e: ArchiveEntry)
    requires
        src_dir.spec_bytes().len() < usize::MAX,
        entry.spec_bytes().len() <= usize::MAX,
        !is_root ==> cuttable(src_dir, entry),
    ensures
        is_root ==> e == ArchiveEntry::Skip,
        !is_root && is_file ==> (e matches ArchiveEntry::File(n) && encode_utf8(n@) == relative_bytes(
            src_dir,
            entry,
            file_name,
        )),
        !is_root && !is_file && is_dir && !ends_with_slash(entry@) ==> (e matches ArchiveEntry::Directory(n)
            && ends_with_slash(n@) && encode_utf8(n@.drop_last()) == relative_bytes(src_dir, entry, file_name)),
        !is_root && !is_file && !(is_dir && !ends_with_slash(entry@)) ==> e == ArchiveEntry::Skip,
{
    if is_root {
        return ArchiveEntry::Skip;
    }
    let rel = relative_name(src_dir, entry, file_name);
    if is_file {
        ArchiveEntry::File(rel)
    } else if is_dir && !ends_with_slash_exec(entry) {
        let mut d = rel;
        push_char(&mut d, '/');
        assert(d@.drop_last() =~= rel@);
        ArchiveEntry::Directory(d)
    } else {
        ArchiveEntry::Skip
    }
}

} // verus!
