//! Field rules of the stored records and the request bodies: text lengths
//! counted in characters and integer ranges, where an absent optional field
//! always passes.

use vstd::prelude::*;
use crate::text::opt_chars;

verus! {

/// A field that broke its rule.
#[derive(Clone, Copy, Debug, PartialEq, Eq, Structural)]
pub enum InvalidField {
    Id,
    Name,
    SubTitle,
    Description,
    Status,
    Priority,
    TaskType,
    TaskOrder,
    Page,
    PageSize,
}

/// The fields that broke their rules, in the order the record declares them.
#[derive(Clone, Debug, PartialEq, Eq)]
pub struct ValidationErrors {
    pub fields: Vec<InvalidField>,
}

/// The number of characters of `s` lies in `min..=max`.
pub open spec fn length_within(s: Seq<char>, min: int, max: int) -> bool {
    min <= s.len() <= max
}

/// Either no text, or text whose length lies in `min..=max`.
pub open spec fn opt_length_within(s: Option<Seq<char>>, min: int, max: int) -> bool {
    match s {
        Some(t) => length_within(t, min, max),
        None => true,
    }
}

/// Either no number, or a number in `min..=max`.
pub open spec fn opt_within(v: Option<int>, min: int, max: int) -> bool {
    match v {
        Some(x) => min <= x <= max,
        None => true,
    }
}

/// The view of an optional `i32` as an optional integer.
pub open spec fn opt_i32(v: Option<i32>) -> Option<int> {
    match v {
        Some(x) => Some(x as int),
        None => None,
    }
}

/// The view of an optional `u64` as an optional integer.
pub open spec fn opt_u64(v: Option<u64>) -> Option<int> {
    match v {
        Some(x) => Some(x as int),
        None => None,
    }
}

/// `field` when `ok` fails, nothing otherwise.
pub open spec fn failed_if(ok: bool, field: InvalidField) -> Seq<InvalidField> {
    if ok {
        seq![]
    } else {
        seq![field]
    }
}

/// Whether the text length lies in `min..=max` characters.
pub fn check_length(s: &String, min: usize, max: usize) -> (b: bool)
    ensures
        b == length_within(s@, min as int, max as int),
{
    let n = s.as_str().unicode_len();
    min <= n && n <= max
}

/// Whether the optional text is absent or its length lies in `min..=max`.
pub fn check_opt_length(s: &Option<String>, min: usize, max: usize) -> (b: bool)
    ensures
        b == opt_length_within(opt_chars(*s), min as int, max as int),
{
    match s {
        Some(t) => check_length(t, min, max),
        None => true,
    }
}

/// Appends `field` to `fields` when `ok` is false.
pub fn record_failure(fields: &mut Vec<InvalidField>, ok: bool, field: InvalidField)
    ensures
        final(fields)@ == old(fields)@ + failed_if(ok, field),
{
    if !ok {
        fields.push(field);
    }
    assert(final(fields)@ =~= old(fields)@ + failed_if(ok, field)) by {
        if ok {
            assert(old(fields)@ + failed_if(ok, field) =~= old(fields)@);
        }
    }
}

/// `Ok` when nothing failed, otherwise the failed fields.
pub fn outcome(fields: Vec<InvalidField>) -> (r: Result<(), ValidationErrors>)
    ensures
        r is Ok <==> fields@.len() == 0,
        r matches Err(e) ==> e.fields@ == fields@,
{
    if fields.len() == 0 {
        Ok(())
    } else {
        Err(ValidationErrors { fields })
    }
}

} // verus!
