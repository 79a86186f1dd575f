//! The lines of the two logs.
//!
//! A log holds one record on each line. This module says what the line of a
//! record is; appending it to a file is left to the caller.

use crate::json::{compact_text, Document, Json};
use vstd::prelude::*;

verus! {

/// The line of a record: its compact JSON text, ended by a line feed.
pub open spec fn line_of(record: Json) -> Seq<char> {
    compact_text(record).push('\n')
}

/// Calls `String::push`. Claimed: the character is added at the end of the
/// string, and the rest of the string stays as it was.
#[verifier::external_body]
fn string_push(s: &mut String, c: char)
    ensures
        final(s)@ == old(s)@.push(c),
{
    s.push(c)
}

/// The line to append to a log for `record`.
pub fn log_line(record: &Document) -> (r: String)
    ensures
        r@ == line_of(record@),
{
    let mut line = record.to_text();
    string_push(&mut line, '\n');
    line
}

} // verus!
