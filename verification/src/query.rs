//! Parsing of the product-UUID query's captured output.
//!
//! The system-information process prints a header line followed by the UUID
//! value; the parser returns the trimmed second line, and reports malformed
//! output when there is no usable second line.

use vstd::prelude::*;
use vstd::string::StrSliceExecFns;
use crate::outcome::Identifier;
use crate::outcome::ResolutionFailure;
use crate::text::trim;
use crate::text::trimmed;

verus! {

/// Whether the captured query output carries a usable identifier: at least
/// two lines, and a second line that is not blank once trimmed (the first
/// line is the header).
pub open spec fn uuid_query_ok(lines: Seq<String>) -> bool {
    lines.len() >= 2 && trimmed(lines[1]@).len() > 0
}

/// The identifier carried by the query output: its second line, trimmed of
/// surrounding whitespace.
pub open spec fn uuid_identifier_of(lines: Seq<String>) -> Seq<char> {
    trimmed(lines[1]@)
}

/// Extracts the identifier from the lines of the query's standard output.
///
/// Returns the trimmed second line exactly when the output is well formed;
/// every rejection is `MalformedOutput`, never a panic.
pub fn parse_uuid_query_output(lines: &Vec<String>) -> (r: Result<
    Identifier,
    ResolutionFailure,
>)
    ensures
        r is Ok <==> uuid_query_ok(lines@),
        r is Ok ==> r->Ok_0@ == uuid_identifier_of(lines@),
        r is Err ==> r->Err_0 is MalformedOutput,
{
    if lines.len() < 2 {
        return Err(ResolutionFailure::MalformedOutput);
    }
    let second: &String = &lines[1];
    let t = trim(second.as_str());
    if t.unicode_len() == 0 {
        return Err(ResolutionFailure::MalformedOutput);
    }
    Ok(Identifier::new(t.to_owned()))
}

} // verus!
