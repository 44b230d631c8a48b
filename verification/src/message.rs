//! The message that carries one chunk's result to the result sink.
//!
//! A message is the JSON text of an array with one entry per matching
//! document, each entry the array of that document's snippets. The `serde_json`
//! crate writes it.

use vstd::pervasive::unreached;
use vstd::prelude::*;

verus! {

#[verifier::external_type_specification]
#[verifier::external_body]
pub struct ExJsonError(serde_json::Error);

/// The snippets of one matching document, in the order of the matches.
pub type DocumentMatchGroup<'a> = Vec<&'a str>;

/// The groups of the matching documents of one chunk, in corpus order.
pub type ChunkResult<'a> = Vec<DocumentMatchGroup<'a>>;

/// The JSON text that `serde_json::to_string` writes for an array of arrays
/// of strings.
pub uninterp spec fn json_text(groups: Seq<Seq<Seq<char>>>) -> Seq<char>;

/// `serde_json::to_string` on nested vectors of string slices. Assumed: the
/// text depends on the strings alone, and the call succeeds, since it fails
/// only where a `Serialize` impl chooses to or a map has a key that is no
/// string, and vectors and string slices do neither.
#[verifier::external_body]
fn json_to_string(groups: &Vec<Vec<&str>>) -> (r: Result<String, serde_json::Error>)
    ensures
        r is Ok,
        r matches Ok(text) ==> text@ == json_text(groups.deep_view()),
{
    serde_json::to_string(groups)
}

/// Encodes the result of one chunk as the message to publish for it. A chunk
/// in which no document matched has a message too: the empty array.
pub fn encode_chunk(result: &ChunkResult) -> (message: String)
    ensures
        message@ == json_text(result.deep_view()),
{
    match json_to_string(result) {
        Ok(text) => text,
        Err(_) => unreached(),
    }
}

} // verus!
