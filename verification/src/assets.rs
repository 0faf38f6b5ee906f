//! The web front end: which requests ask for a file, how a served file is
//! labelled and cached, and its entity tag.

use vstd::prelude::*;
use crate::text::{chars_of, push_char, push_str, str_eq, string_of_suffix};

verus! {

/// The page served for every request that does not name a file.
pub const INDEX_FILE: &'static str = "index.html";

/// The body when not even the index page exists.
pub const NOT_FOUND_BODY: &'static str = "404 Not Found";

/// How the index page is labelled.
pub const INDEX_CONTENT_TYPE: &'static str = "text/html";

/// Caching for the index page.
pub const NO_CACHE: &'static str = "no-cache";

/// Caching for every other file.
pub const LONG_CACHE: &'static str = "public, max-age=31536000";

/// `path` without its leading slashes.
pub open spec fn trim_leading_slashes(path: Seq<char>) -> Seq<char>
    decreases path.len(),
{
    if path.len() > 0 && path[0] == '/' {
        trim_leading_slashes(path.drop_first())
    } else {
        path
    }
}

/// The requested path without its leading slashes.
pub fn request_path(raw: &str) -> (p: String)
    ensures
        p@ == trim_leading_slashes(raw@),
{
    let v = chars_of(raw);
    assert(raw@.subrange(0, raw@.len() as int) =~= raw@);
    let mut i: usize = 0;
    while i < v.len() && v[i] == '/'
        invariant
            v@ == raw@,
            i <= v@.len(),
            trim_leading_slashes(raw@) == trim_leading_slashes(raw@.subrange(i as int, raw@.len() as int)),
        decreases v.len() - i,
    {
        assert(raw@.subrange(i as int, raw@.len() as int).drop_first() =~= raw@.subrange(i + 1, raw@.len() as int));
        i = i + 1;
    }
    string_of_suffix(&v, i)
}

/// Trimming twice trims nothing more.
pub proof fn lemma_trim_idempotent(path: Seq<char>)
    ensures
        trim_leading_slashes(trim_leading_slashes(path)) == trim_leading_slashes(path),
        trim_leading_slashes(path).len() == 0 || trim_leading_slashes(path)[0] != '/',
    decreases path.len(),
{
    if path.len() > 0 && path[0] == '/' {
        lemma_trim_idempotent(path.drop_first());
    }
}

/// A path with a dot names a file; anything else is a front-end route.
pub fn is_file_request(path: &str) -> (b: bool)
    ensures
        b == path@.contains('.'),
{
    crate::text::str_contains_char(path, '.')
}

/// The position just after the last dot, or 0 when there is none.
pub open spec fn after_last_dot(path: Seq<char>) -> int
    decreases path.len(),
{
    if path.len() == 0 {
        0
    } else if path.last() == '.' {
        path.len() as int
    } else {
        after_last_dot(path.drop_last())
    }
}

/// What follows the last dot of the path (the whole path when it has no
/// dot).
pub open spec fn last_segment(path: Seq<char>) -> Seq<char> {
    path.subrange(after_last_dot(path), path.len() as int)
}

/// The text after the last dot of a path.
pub fn extension_of(path: &str) -> (e: String)
    ensures
        e@ == last_segment(path@),
{
    let v = chars_of(path);
    assert(path@.subrange(0, path@.len() as int) =~= path@);
    let mut i: usize = v.len();
    while i > 0 && v[i - 1] != '.'
        invariant
            v@ == path@,
            i <= v@.len(),
            after_last_dot(path@) == after_last_dot(path@.subrange(0, i as int)),
        decreases i,
    {
        assert(path@.subrange(0, i as int).drop_last() =~= path@.subrange(0, i - 1));
        i = i - 1;
    }
    proof {
        if i > 0 {
            assert(path@.subrange(0, i as int).last() == '.');
        } else {
            assert(path@.subrange(0, 0) =~= Seq::<char>::empty());
        }
    }
    string_of_suffix(&v, i)
}

/// What `mime_guess` guesses for a path from its extension, written out;
/// `application/octet-stream` when it knows none.
pub uninterp spec fn guessed_mime(path: Seq<char>) -> Seq<char>;

/// `mime_guess::from_path(path).first_or_octet_stream()`, written out. A
/// path without any dot has no extension, and its guess is
/// `application/octet-stream`, as the crate documents.
#[verifier::external_body]
fn guess_mime(path: &str) -> (m: String)
    ensures
        m@ == guessed_mime(path@),
        !path@.contains('.') ==> m@ == "application/octet-stream"@,
{
    mime_guess::from_path(path).first_or_octet_stream().to_string()
}

/// The content type of a served file, from the text after its last dot:
/// the JavaScript, CSS, HTML, JSON, PNG, JPEG and SVG types of the `mime`
/// crate for `js`, `css`, `html`, `json`, `png`, `jpg`/`jpeg` and `svg`,
/// and otherwise what `mime_guess` guesses for the path.
pub open spec fn spec_content_type(path: Seq<char>) -> Seq<char> {
    let ext = last_segment(path);
    if ext == "js"@ {
        "application/javascript"@
    } else if ext == "css"@ {
        "text/css"@
    } else if ext == "html"@ {
        "text/html"@
    } else if ext == "json"@ {
        "application/json"@
    } else if ext == "png"@ {
        "image/png"@
    } else if ext == "jpg"@ || ext == "jpeg"@ {
        "image/jpeg"@
    } else if ext == "svg"@ {
        "image/svg+xml"@
    } else {
        guessed_mime(path)
    }
}

/// A served file whose extension is none of `js`, `css`, `html`, `json`,
/// `png`, `jpg`, `jpeg` and `svg` is labelled with what `mime_guess`
/// guesses for its path (a `.gif` file with its guess, not as PNG); a file
/// with one of those extensions is labelled the same whatever the rest of
/// its path.
pub proof fn lemma_other_extensions_follow_mime_guess(path: Seq<char>, other: Seq<char>)
    ensures
        ({
            let ext = last_segment(path);
            ext != "js"@ && ext != "css"@ && ext != "html"@ && ext != "json"@ && ext != "png"@
                && ext != "jpg"@ && ext != "jpeg"@ && ext != "svg"@ ==> spec_content_type(path)
                == guessed_mime(path)
        }),
        ({
            let ext = last_segment(path);
            ext == last_segment(other) && (ext == "js"@ || ext == "css"@ || ext == "html"@
                || ext == "json"@ || ext == "png"@ || ext == "jpg"@ || ext == "jpeg"@ || ext
                == "svg"@) ==> spec_content_type(path) == spec_content_type(other)
        }),
{
}

/// How a served file is labelled.
pub fn content_type_for(path: &str) -> (t: String)
    ensures
        t@ == spec_content_type(path@),
        ({
            let ext = last_segment(path@);
            ext != "js"@ && ext != "css"@ && ext != "html"@ && ext != "json"@ && ext != "png"@
                && ext != "jpg"@ && ext != "jpeg"@ && ext != "svg"@ ==> t@ == guessed_mime(path@)
        }),
{
    let ext = extension_of(path);
    let e = ext.as_str();
    if str_eq(e, "js") {
        String::from_str("application/javascript")
    } else if str_eq(e, "css") {
        String::from_str("text/css")
    } else if str_eq(e, "html") {
        String::from_str("text/html")
    } else if str_eq(e, "json") {
        String::from_str("application/json")
    } else if str_eq(e, "png") {
        String::from_str("image/png")
    } else if str_eq(e, "jpg") || str_eq(e, "jpeg") {
        String::from_str("image/jpeg")
    } else if str_eq(e, "svg") {
        String::from_str("image/svg+xml")
    } else {
        guess_mime(path)
    }
}

/// The index page is never cached; every other file is cached for a year.
pub fn cache_policy(path: &str) -> (c: String)
    ensures
        c@ == if path@ == INDEX_FILE@ { NO_CACHE@ } else { LONG_CACHE@ },
{
    if str_eq(path, INDEX_FILE) {
        String::from_str(NO_CACHE)
    } else {
        String::from_str(LONG_CACHE)
    }
}

/// The lower-case hexadecimal digit for a value below sixteen.
pub open spec fn hex_digit(n: int) -> char {
    if n < 10 {
        ((n + 48) as u8) as char
    } else {
        ((n + 87) as u8) as char
    }
}

/// Lower-case hexadecimal text of the bytes, two digits per byte, high
/// half first.
pub open spec fn hex_lower(b: Seq<u8>) -> Seq<char>
    decreases b.len(),
{
    if b.len() == 0 {
        Seq::empty()
    } else {
        seq![hex_digit((b[0] / 16) as int), hex_digit((b[0] % 16) as int)] + hex_lower(b.drop_first())
    }
}

/// The hexadecimal text has two digits per byte, so an entity tag is two
/// characters longer than twice the hash.
pub proof fn lemma_hex_length(b: Seq<u8>)
    ensures
        hex_lower(b).len() == 2 * b.len(),
    decreases b.len(),
{
    if b.len() > 0 {
        lemma_hex_length(b.drop_first());
    }
}

/// `hex::encode`: lower-case hexadecimal text of the bytes, two digits per
/// byte with the high half first, as the crate documents.
#[verifier::external_body]
fn hex_encode(data: &[u8]) -> (s: String)
    ensures
        s@ == hex_lower(data@),
{
    hex::encode(data)
}

/// The entity tag of a served file: the hexadecimal text of its content
/// hash, in double quotes.
pub fn etag(hash: &[u8]) -> (t: String)
    ensures
        t@ == seq!['"'] + hex_lower(hash@) + seq!['"'],
{
    let mut t = String::new();
    push_char(&mut t, '"');
    let h = hex_encode(hash);
    push_str(&mut t, h.as_str());
    push_char(&mut t, '"');
    t
}

} // verus!
