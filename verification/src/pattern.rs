//! Compiled search patterns and the successive matches they yield on a text.
//!
//! Matching itself is the work of the `regex` crate. What it computes is
//! named here by uninterpreted functions, and the few items that call into
//! the crate state their results over those names.

use regex::CaptureMatches;
use regex::Regex;
use vstd::prelude::*;

verus! {

#[verifier::external_type_specification]
#[verifier::external_body]
pub struct ExRegex(regex::Regex);

#[verifier::external_type_specification]
#[verifier::external_body]
pub struct ExRegexError(regex::Error);

#[verifier::external_type_specification]
#[verifier::external_body]
pub struct ExCaptureMatches<'r, 'h>(regex::CaptureMatches<'r, 'h>);

/// Whether `regex::Regex::new` accepts `pattern`.
pub uninterp spec fn pattern_compiles(pattern: Seq<char>) -> bool;

/// The texts of the successive non-overlapping matches in `text` of the
/// expression that `regex::Regex::new` compiles from `pattern`, in the order
/// in which they occur.
pub uninterp spec fn regex_matches(pattern: Seq<char>, text: Seq<char>) -> Seq<Seq<char>>;

/// The texts of the successive non-overlapping matches of `re` in `text`, as
/// `regex::Regex::captures_iter` yields them.
pub uninterp spec fn engine_matches(re: Regex, text: Seq<char>) -> Seq<Seq<char>>;

/// The texts of the matches that a `regex::CaptureMatches` has yet to yield.
pub uninterp spec fn pending(it: CaptureMatches<'_, '_>) -> Seq<Seq<char>>;

/// `regex::Regex::new`. Assumed: whether compilation succeeds depends on the
/// pattern text alone, and the expression it returns matches, on every text,
/// what `regex_matches` names for that pattern.
#[verifier::external_body]
fn regex_new(pattern: &str) -> (r: Result<Regex, regex::Error>)
    ensures
        r is Ok <==> pattern_compiles(pattern@),
        r matches Ok(re) ==> forall|text: Seq<char>| #[trigger]
            engine_matches(re, text) == regex_matches(pattern@, text),
{
    Regex::new(pattern)
}

/// `ToString::to_string` on a `regex::Error`: the diagnostic text. Nothing
/// is assumed of it.
#[verifier::external_body]
fn regex_error_text(e: &regex::Error) -> String {
    e.to_string()
}

/// `regex::Regex::captures_iter`. Assumed: the iterator starts with every
/// match of `re` in `text` still to come.
#[verifier::external_body]
fn regex_captures_iter<'r, 'h>(re: &'r Regex, text: &'h str) -> (it: CaptureMatches<'r, 'h>)
    ensures
        pending(it) == engine_matches(*re, text@),
{
    re.captures_iter(text)
}

/// `Iterator::next` of `regex::CaptureMatches`, the whole match taken out of
/// the captures by `regex::Captures::get_match` and `regex::Match::as_str`.
/// Assumed: it yields the text of the first pending match and leaves the
/// others pending, and yields nothing once none is pending.
#[verifier::external_body]
fn capture_matches_next<'r, 'h>(it: &mut CaptureMatches<'r, 'h>) -> (m: Option<&'h str>)
    ensures
        pending(*old(it)).len() == 0 ==> m is None && pending(*final(it)) == pending(*old(it)),
        pending(*old(it)).len() > 0 ==> m is Some && m.unwrap()@ == pending(*old(it))[0]
            && pending(*final(it)) == pending(*old(it)).drop_first(),
{
    it.next().map(|c| c.get_match().as_str())
}

/// Why a pattern was rejected.
#[derive(Debug)]
pub struct PatternError {
    /// The diagnostic that the regular-expression compiler gave.
    pub message: String,
}

/// A search pattern that compiled, ready to be shared by every worker for the
/// duration of one job.
pub struct CompiledPattern {
    source: String,
    engine: Regex,
}

/// A search over one text in progress: it hands out the matches one at a time
/// and examines the text no further than it was asked to.
pub struct Search<'r, 'h> {
    cursor: CaptureMatches<'r, 'h>,
}

impl CompiledPattern {
    #[verifier::type_invariant]
    spec fn engine_follows_source(&self) -> bool {
        forall|text: Seq<char>| #[trigger]
            engine_matches(self.engine, text) == regex_matches(self.source@, text)
    }

    /// The pattern text that this pattern was compiled from.
    pub closed spec fn source(&self) -> Seq<char> {
        self.source@
    }

    /// The match texts that this pattern finds in `text`, in order.
    pub open spec fn matches_in(&self, text: Seq<char>) -> Seq<Seq<char>> {
        regex_matches(self.source(), text)
    }

    /// Compiles `pattern`. Fails exactly on the texts that the
    /// regular-expression compiler rejects.
    pub fn compile(pattern: &str) -> (r: Result<CompiledPattern, PatternError>)
        ensures
            r is Ok <==> pattern_compiles(pattern@),
            r matches Ok(p) ==> p.source() == pattern@,
    {
        match regex_new(pattern) {
            Ok(engine) => Ok(CompiledPattern { source: pattern.to_owned(), engine }),
            Err(e) => Err(PatternError { message: regex_error_text(&e) }),
        }
    }

    /// The pattern text.
    pub fn as_str(&self) -> (s: &str)
        ensures
            s@ == self.source(),
    {
        self.source.as_str()
    }

    /// Begins a search of `text`, with every match still to come.
    pub fn search<'r, 'h>(&'r self, text: &'h str) -> (s: Search<'r, 'h>)
        ensures
            s.remaining() == self.matches_in(text@),
    {
        proof {
            use_type_invariant(self);
        }
        Search { cursor: regex_captures_iter(&self.engine, text) }
    }
}

impl<'r, 'h> Search<'r, 'h> {
    /// The match texts still to be handed out, in order.
    pub closed spec fn remaining(&self) -> Seq<Seq<char>> {
        pending(self.cursor)
    }

    /// Hands out the next match text, if there is one.
    pub fn next_match(&mut self) -> (m: Option<&'h str>)
        ensures
            old(self).remaining().len() == 0 ==> m is None && final(self).remaining() == old(
                self,
            ).remaining(),
            old(self).remaining().len() > 0 ==> m is Some && m.unwrap()@ == old(
                self,
            ).remaining()[0] && final(self).remaining() == old(self).remaining().drop_first(),
    {
        capture_matches_next(&mut self.cursor)
    }
}

} // verus!
