//! The scan engine: one pattern run over the corpus chunk by chunk, with one
//! message per chunk.

use crate::chunk::chunk_bounds;
use crate::chunk::chunk_count;
use crate::chunk::chunk_end;
use crate::chunk::chunk_of;
use crate::chunk::chunk_start;
use crate::chunk::count_chunks;
use crate::chunk::lemma_chunk_count_is_ceiling;
use crate::chunk::lemma_chunk_exists;
use crate::chunk::lemma_chunks_partition;
use crate::corpus::texts_of;
use crate::corpus::Corpus;
use crate::corpus::Document;
use crate::message::encode_chunk;
use crate::message::json_text;
use crate::message::ChunkResult;
use crate::pattern::regex_matches;
use crate::pattern::CompiledPattern;
use crate::snippet::document_snippets;
use crate::snippet::get_matches;
use vstd::prelude::*;
use vstd::slice::slice_subrange;

verus! {

/// The groups of a chunk whose documents have the texts `texts`: the snippets
/// of each document that has any, in document order. A document without
/// snippets leaves no trace.
pub open spec fn chunk_groups(pattern: Seq<char>, texts: Seq<Seq<char>>, budget: nat) -> Seq<
    Seq<Seq<char>>,
>
    decreases texts.len(),
{
    if texts.len() == 0 {
        Seq::empty()
    } else {
        let earlier = chunk_groups(pattern, texts.drop_last(), budget);
        let snippets = document_snippets(pattern, texts.last(), budget);
        if snippets.len() > 0 {
            earlier.push(snippets)
        } else {
            earlier
        }
    }
}

/// The messages of one job, in chunk order: for each chunk of the partition
/// the encoding of its groups.
pub open spec fn scan_messages(
    pattern: Seq<char>,
    texts: Seq<Seq<char>>,
    chunk_size: nat,
    budget: nat,
) -> Seq<Seq<char>> {
    Seq::new(
        chunk_count(texts.len(), chunk_size),
        |k: int| json_text(chunk_groups(pattern, chunk_of(texts, k as nat, chunk_size), budget)),
    )
}

/// What scanning the whole corpus for one job produced.
pub struct ScanOutcome {
    /// The message of each chunk, in chunk order.
    pub messages: Vec<String>,
    /// How many documents of the corpus had at least one snippet.
    pub matching_documents: usize,
}

/// Whether `outcome` is what a scan gives for the pattern compiled from
/// `pattern` over `documents`: the messages of the chunks in chunk order, and
/// the number of documents with at least one snippet.
pub open spec fn is_outcome_of(
    outcome: ScanOutcome,
    pattern: Seq<char>,
    documents: Seq<Document>,
    chunk_size: nat,
    budget: nat,
) -> bool {
    &&& outcome.messages.deep_view() == scan_messages(
        pattern,
        texts_of(documents),
        chunk_size,
        budget,
    )
    &&& outcome.matching_documents == chunk_groups(pattern, texts_of(documents), budget).len()
}

/// Scanning two runs of documents one after the other gives the groups of
/// the first followed by the groups of the second.
pub proof fn lemma_chunk_groups_concat(
    pattern: Seq<char>,
    first: Seq<Seq<char>>,
    second: Seq<Seq<char>>,
    budget: nat,
)
    ensures
        chunk_groups(pattern, first + second, budget) == chunk_groups(pattern, first, budget)
            + chunk_groups(pattern, second, budget),
    decreases second.len(),
{
    if second.len() == 0 {
        assert(first + second =~= first);
        assert(chunk_groups(pattern, first, budget) + chunk_groups(pattern, second, budget)
            =~= chunk_groups(pattern, first, budget));
    } else {
        lemma_chunk_groups_concat(pattern, first, second.drop_last(), budget);
        assert((first + second).drop_last() =~= first + second.drop_last());
        assert((first + second).last() == second.last());
        let snippets = document_snippets(pattern, second.last(), budget);
        let a = chunk_groups(pattern, first, budget);
        let b = chunk_groups(pattern, second.drop_last(), budget);
        assert((a + b).push(snippets) =~= a + b.push(snippets));
    }
}

/// Every group belongs to a document in which the pattern occurs, and holds
/// at least one snippet: a document without an occurrence of the pattern is
/// in no group. There are no more groups than documents.
pub proof fn lemma_groups_have_matches(pattern: Seq<char>, texts: Seq<Seq<char>>, budget: nat)
    ensures
        chunk_groups(pattern, texts, budget).len() <= texts.len(),
        forall|g: int|
            0 <= g < chunk_groups(pattern, texts, budget).len() ==> {
                let group = #[trigger] chunk_groups(pattern, texts, budget)[g];
                &&& group.len() > 0
                &&& exists|d: int|
                    0 <= d < texts.len() && regex_matches(pattern, texts[d]).len() > 0 && group
                        == document_snippets(pattern, #[trigger] texts[d], budget)
            },
        (forall|d: int| 0 <= d < texts.len() ==> regex_matches(pattern, #[trigger] texts[d]).len()
            == 0) ==> chunk_groups(pattern, texts, budget).len() == 0,
    decreases texts.len(),
{
    if texts.len() > 0 {
        let shorter = texts.drop_last();
        lemma_groups_have_matches(pattern, shorter, budget);
        let groups = chunk_groups(pattern, texts, budget);
        let earlier = chunk_groups(pattern, shorter, budget);
        let snippets = document_snippets(pattern, texts.last(), budget);
        assert forall|g: int| 0 <= g < groups.len() implies {
            let group = #[trigger] groups[g];
            &&& group.len() > 0
            &&& exists|d: int|
                0 <= d < texts.len() && regex_matches(pattern, texts[d]).len() > 0 && group
                    == document_snippets(pattern, #[trigger] texts[d], budget)
        } by {
            if g < earlier.len() {
                assert(groups[g] == earlier[g]);
                let d = choose|d: int|
                    0 <= d < shorter.len() && regex_matches(pattern, shorter[d]).len() > 0
                        && earlier[g] == document_snippets(pattern, #[trigger] shorter[d], budget);
                assert(shorter[d] == texts[d]);
            } else {
                let d = texts.len() - 1;
                assert(groups[g] == document_snippets(pattern, texts[d], budget));
            }
        }
        if forall|d: int| 0 <= d < texts.len() ==> regex_matches(pattern, #[trigger] texts[d]).len()
            == 0 {
            assert(regex_matches(pattern, texts[texts.len() - 1]).len() == 0);
            assert forall|d: int| 0 <= d < shorter.len() implies regex_matches(
                pattern,
                #[trigger] shorter[d],
            ).len() == 0 by {
                assert(shorter[d] == texts[d]);
            }
        }
    }
}

/// A job over `len` documents in chunks of `chunk_size` has one message for
/// each chunk: `len / chunk_size` of them, rounded up.
pub proof fn lemma_one_message_per_chunk(
    pattern: Seq<char>,
    texts: Seq<Seq<char>>,
    chunk_size: nat,
    budget: nat,
)
    requires
        chunk_size > 0,
    ensures
        scan_messages(pattern, texts, chunk_size, budget).len() == chunk_count(
            texts.len(),
            chunk_size,
        ),
        texts.len() % chunk_size == 0 ==> scan_messages(pattern, texts, chunk_size, budget).len()
            == texts.len() / chunk_size,
        texts.len() % chunk_size != 0 ==> scan_messages(pattern, texts, chunk_size, budget).len()
            == texts.len() / chunk_size + 1,
{
    lemma_chunk_count_is_ceiling(texts.len(), chunk_size);
}

/// Running the same job again over an unchanged corpus gives the same
/// messages in the same order, and the same count: the pattern text, the
/// texts of the documents in corpus order, the chunk size and the budget fix
/// the partition and every message. Neither the paths of the documents nor
/// the compiled pattern of the one run or the other play a part.
pub proof fn lemma_scan_is_deterministic(
    first: ScanOutcome,
    second: ScanOutcome,
    pattern: Seq<char>,
    first_corpus: Seq<Document>,
    second_corpus: Seq<Document>,
    chunk_size: nat,
    budget: nat,
)
    requires
        texts_of(first_corpus) == texts_of(second_corpus),
        is_outcome_of(first, pattern, first_corpus, chunk_size, budget),
        is_outcome_of(second, pattern, second_corpus, chunk_size, budget),
    ensures
        first.messages.deep_view() == second.messages.deep_view(),
        first.matching_documents == second.matching_documents,
{
}

/// Scans the documents of one chunk in order and collects the snippets of
/// those that have any.
pub fn scan_chunk<'a>(chunk: &'a [Document], pattern: &CompiledPattern, budget: usize) -> (result:
    ChunkResult<'a>)
    ensures
        result.deep_view() == chunk_groups(pattern.source(), texts_of(chunk@), budget as nat),
        result.len() <= chunk@.len(),
        forall|g: int| 0 <= g < result.len() ==> (#[trigger] result[g]).len() > 0,
{
    let mut matches: ChunkResult<'a> = Vec::new();
    let ghost texts = texts_of(chunk@);
    assert(texts.take(0) =~= Seq::<Seq<char>>::empty());
    assert(matches.deep_view() =~= Seq::<Seq<Seq<char>>>::empty());
    let mut i: usize = 0;
    while i < chunk.len()
        invariant
            i <= chunk.len(),
            texts == texts_of(chunk@),
            matches.deep_view() == chunk_groups(pattern.source(), texts.take(i as int), budget as nat),
            matches.len() <= i,
            forall|g: int| 0 <= g < matches.len() ==> (#[trigger] matches[g]).len() > 0,
        decreases chunk.len() - i,
    {
        let ghost collected = matches.deep_view();
        let file_matches = get_matches(chunk[i].contents.as_str(), pattern, budget);
        proof {
            assert(texts.take(i + 1).drop_last() =~= texts.take(i as int));
            assert(texts.take(i + 1).last() == chunk@[i as int].contents@);
        }
        if file_matches.len() > 0 {
            let ghost snippets = file_matches.deep_view();
            matches.push(file_matches);
            assert(matches.deep_view() =~= collected.push(snippets));
        }
        i = i + 1;
    }
    assert(texts.take(i as int) =~= texts);
    matches
}

/// What a worker has to show for one chunk.
pub struct ChunkReport {
    /// The message to publish for the chunk under the id of the job.
    pub message: String,
    /// How many documents of the chunk had at least one snippet.
    pub matching_documents: usize,
}

/// Does the work of one chunk: scans its documents in order, encodes the
/// groups as the chunk's message, and counts the documents that matched. The
/// message is there whether or not any document matched.
pub fn process_chunk(chunk: &[Document], pattern: &CompiledPattern, budget: usize) -> (report:
    ChunkReport)
    ensures
        report.message@ == json_text(
            chunk_groups(pattern.source(), texts_of(chunk@), budget as nat),
        ),
        report.matching_documents == chunk_groups(
            pattern.source(),
            texts_of(chunk@),
            budget as nat,
        ).len(),
        report.matching_documents <= chunk@.len(),
{
    let result = scan_chunk(chunk, pattern, budget);
    proof {
        lemma_groups_have_matches(pattern.source(), texts_of(chunk@), budget as nat);
    }
    ChunkReport { message: encode_chunk(&result), matching_documents: result.len() }
}

/// Runs one job over the corpus, one chunk after the other: partitions the
/// corpus into chunks of `chunk_size` documents, scans each, and encodes each
/// chunk's result as its message, whether or not anything in it matched.
pub fn scan(corpus: &Corpus, pattern: &CompiledPattern, chunk_size: usize, budget: usize) -> (outcome:
    ScanOutcome)
    requires
        chunk_size > 0,
    ensures
        is_outcome_of(outcome, pattern.source(), corpus@, chunk_size as nat, budget as nat),
        outcome.messages.len() == chunk_count(corpus@.len(), chunk_size as nat),
        outcome.matching_documents <= corpus@.len(),
{
    let documents = corpus.documents();
    let len = documents.len();
    let count = count_chunks(len, chunk_size);
    let ghost texts = texts_of(corpus@);
    let ghost source = pattern.source();
    let mut messages: Vec<String> = Vec::new();
    let mut matching: usize = 0;
    let mut done: usize = 0;
    let mut index: usize = 0;
    proof {
        assert(texts.take(0) =~= Seq::<Seq<char>>::empty());
        lemma_chunk_exists(len as nat, chunk_size as nat, 0);
    }
    while index < count
        invariant
            chunk_size > 0,
            documents@ == corpus@,
            len == documents@.len(),
            texts == texts_of(corpus@),
            source == pattern.source(),
            count == chunk_count(len as nat, chunk_size as nat),
            index <= count,
            messages.len() == index,
            forall|k: int|
                0 <= k < index ==> (#[trigger] messages[k])@ == json_text(
                    chunk_groups(source, chunk_of(texts, k as nat, chunk_size as nat), budget as nat),
                ),
            index < count ==> done == chunk_start(index as nat, chunk_size as nat),
            index == count ==> done == len,
            matching == chunk_groups(source, texts.take(done as int), budget as nat).len(),
        decreases count - index,
    {
        let (start, end) = chunk_bounds(len, chunk_size, index);
        proof {
            lemma_chunks_partition(len as nat, chunk_size as nat, index as nat);
        }
        let chunk = slice_subrange(documents, start, end);
        let report = process_chunk(chunk, pattern, budget);
        proof {
            let part = texts.subrange(start as int, end as int);
            assert(texts_of(chunk@) =~= part);
            assert(part == chunk_of(texts, index as nat, chunk_size as nat));
            assert(texts.take(end as int) =~= texts.take(start as int) + part);
            lemma_chunk_groups_concat(source, texts.take(start as int), part, budget as nat);
            lemma_groups_have_matches(source, texts.take(start as int), budget as nat);
            lemma_groups_have_matches(source, part, budget as nat);
        }
        messages.push(report.message);
        matching = matching + report.matching_documents;
        done = end;
        index = index + 1;
    }
    proof {
        assert(texts.take(len as int) =~= texts);
        lemma_groups_have_matches(source, texts, budget as nat);
        assert(messages.deep_view() =~= scan_messages(
            source,
            texts,
            chunk_size as nat,
            budget as nat,
        ));
    }
    ScanOutcome { messages, matching_documents: matching }
}

} // verus!
