//! The snippets of one document: its matches, cut to a character budget.

use crate::pattern::CompiledPattern;
use crate::pattern::Search;
use vstd::prelude::*;
use vstd::string::StrSliceExecFns;

verus! {

/// The number of characters that a document may contribute to a result
/// unless the caller configures another budget.
pub const CHARS_PER_DOC: usize = 200;

/// The number of characters in all of `texts` together.
pub open spec fn total_chars(texts: Seq<Seq<char>>) -> nat
    decreases texts.len(),
{
    if texts.len() == 0 {
        0
    } else {
        texts[0].len() + total_chars(texts.drop_first())
    }
}

/// `text`, cut after `budget` characters if it is longer.
pub open spec fn truncated(text: Seq<char>, budget: nat) -> Seq<char> {
    if text.len() <= budget {
        text
    } else {
        text.take(budget as int)
    }
}

/// The snippets kept of `matches` under `budget`: each match in turn, cut to
/// what is left of the budget, up to and including the one that uses the
/// budget up. The matches after that one are not looked at.
pub open spec fn within_budget(matches: Seq<Seq<char>>, budget: nat) -> Seq<Seq<char>>
    decreases matches.len(),
{
    if matches.len() == 0 {
        Seq::empty()
    } else {
        let first = truncated(matches[0], budget);
        let left = (budget - first.len()) as nat;
        if left == 0 {
            seq![first]
        } else {
            seq![first] + within_budget(matches.drop_first(), left)
        }
    }
}

/// The snippets of a document with text `text` for the pattern compiled from
/// `pattern`.
pub open spec fn document_snippets(pattern: Seq<char>, text: Seq<char>, budget: nat) -> Seq<
    Seq<char>,
> {
    within_budget(crate::pattern::regex_matches(pattern, text), budget)
}

/// Cuts `text` after `budget` characters if it is longer.
pub fn cut_to_budget<'a>(text: &'a str, budget: usize) -> (kept: &'a str)
    ensures
        kept@ == truncated(text@, budget as nat),
{
    if text.unicode_len() <= budget {
        text
    } else {
        text.substring_char(0, budget)
    }
}

/// Takes matches out of `search` and keeps each as a snippet, cut to what is
/// left of `budget`, until the budget is used up or the matches are. The
/// search is asked for no match beyond the one that uses the budget up: the
/// matches after it are still to come when the function returns.
pub fn collect_within_budget<'r, 'h>(search: &mut Search<'r, 'h>, budget: usize) -> (snippets:
    Vec<&'h str>)
    ensures
        snippets.deep_view() == within_budget(old(search).remaining(), budget as nat),
        final(search).remaining() == old(search).remaining().skip(snippets.len() as int),
{
    let mut results: Vec<&'h str> = Vec::new();
    let mut remaining_len: usize = budget;
    let ghost ahead = search.remaining();
    let ghost target = within_budget(ahead, budget as nat);
    assert(results.deep_view() =~= Seq::<Seq<char>>::empty());
    assert(ahead.skip(0) =~= ahead);
    loop
        invariant_except_break
            target == results.deep_view() + within_budget(
                search.remaining(),
                remaining_len as nat,
            ),
        invariant
            results.len() <= ahead.len(),
            search.remaining() == ahead.skip(results.len() as int),
        ensures
            target == results.deep_view(),
        decreases search.remaining().len(),
    {
        let ghost collected = results.deep_view();
        match search.next_match() {
            None => {
                break ;
            },
            Some(m) => {
                let snippet = cut_to_budget(m, remaining_len);
                results.push(snippet);
                proof {
                    assert(results.deep_view() =~= collected.push(snippet@));
                    assert(collected.push(snippet@) =~= collected + seq![snippet@]);
                    assert(ahead.skip(results.len() - 1).drop_first() =~= ahead.skip(
                        results.len() as int,
                    ));
                }
                remaining_len = remaining_len - snippet.unicode_len();
                if remaining_len == 0 {
                    break ;
                }
            },
        }
    }
    results
}

/// Collects the snippets of one document: the text of each successive match
/// of `re` in `contents`, cut to what is left of `budget`, until the budget is
/// used up or the matches are. The snippets never hold more than `budget`
/// characters, and a document in which the pattern does not occur has none.
pub fn get_matches<'a>(contents: &'a str, re: &CompiledPattern, budget: usize) -> (snippets: Vec<
    &'a str,
>)
    ensures
        snippets.deep_view() == document_snippets(re.source(), contents@, budget as nat),
        total_chars(snippets.deep_view()) <= budget,
        snippets.len() <= re.matches_in(contents@).len(),
{
    proof {
        lemma_within_budget(re.matches_in(contents@), budget as nat);
    }
    let mut search = re.search(contents);
    collect_within_budget(&mut search, budget)
}

/// What budgeted truncation keeps, stated without reference to how it is
/// computed. The snippets are a prefix of the matches in which only the last
/// may be cut short; they never hold more than `budget` characters; they are
/// all of the matches when these hold fewer than `budget` characters; and
/// when the matches hold `budget` characters or more, the last snippet is cut
/// so that the snippets hold `budget` characters exactly.
pub proof fn lemma_within_budget(matches: Seq<Seq<char>>, budget: nat)
    ensures
        within_budget(matches, budget).len() <= matches.len(),
        matches.len() > 0 ==> within_budget(matches, budget).len() > 0,
        forall|i: int|
            0 <= i < within_budget(matches, budget).len() - 1 ==> #[trigger] within_budget(
                matches,
                budget,
            )[i] == matches[i],
        matches.len() > 0 ==> {
            let kept = within_budget(matches, budget);
            let before = total_chars(matches.take(kept.len() - 1));
            &&& before <= budget
            &&& kept.last() == truncated(matches[kept.len() - 1], (budget - before) as nat)
        },
        total_chars(within_budget(matches, budget)) <= budget,
        total_chars(matches) < budget ==> within_budget(matches, budget) == matches,
        matches.len() > 0 && total_chars(matches) >= budget ==> total_chars(
            within_budget(matches, budget),
        ) == budget,
    decreases matches.len(),
{
    let kept = within_budget(matches, budget);
    if matches.len() == 0 {
    } else {
        let first = truncated(matches[0], budget);
        let left = (budget - first.len()) as nat;
        let rest = matches.drop_first();
        assert(matches.take(0) =~= Seq::<Seq<char>>::empty());
        if left == 0 {
            assert(kept.drop_first() =~= Seq::<Seq<char>>::empty());
        } else {
            let tail = within_budget(rest, left);
            lemma_within_budget(rest, left);
            assert(kept.drop_first() =~= tail);
            assert(first == matches[0]);
            if tail.len() == 0 {
                assert(rest.len() == 0);
                assert(kept =~= matches);
            } else {
                let n = kept.len() - 1;
                assert(matches.take(n).drop_first() =~= rest.take(n - 1));
                assert(kept.last() == tail.last());
                assert(rest[tail.len() - 1] == matches[n]);
                assert forall|i: int| 0 <= i < kept.len() - 1 implies #[trigger] kept[i]
                    == matches[i] by {
                    if i > 0 {
                        assert(kept[i] == tail[i - 1]);
                        assert(rest[i - 1] == matches[i]);
                    }
                }
                if total_chars(matches) < budget {
                    assert(tail == rest);
                    assert(kept =~= matches);
                }
            }
        }
    }
}

} // verus!
