use grep_caselaw::chunk::chunk_bounds;
use grep_caselaw::chunk::count_chunks;
use grep_caselaw::chunk::DEFAULT_CHUNK_SIZE;
use grep_caselaw::corpus::Corpus;
use grep_caselaw::corpus::Document;
use grep_caselaw::message::encode_chunk;
use grep_caselaw::pattern::CompiledPattern;
use grep_caselaw::scan::process_chunk;
use grep_caselaw::scan::scan;
use grep_caselaw::scan::scan_chunk;
use grep_caselaw::snippet::CHARS_PER_DOC;

fn corpus_of(texts: &[&str]) -> Corpus {
    let mut documents = Vec::new();
    for (i, text) in texts.iter().enumerate() {
        documents.push(Document { path: format!("doc{}.txt", i), contents: text.to_string() });
    }
    Corpus::new(documents)
}

fn compiled(pattern: &str) -> CompiledPattern {
    CompiledPattern::compile(pattern).expect("the pattern compiles")
}

#[test]
fn three_documents_in_chunks_of_two() {
    let corpus = corpus_of(&["Plaintiff filed suit.", "No mention here.", "Defendant moved."]);
    let re = compiled("([dD])efendant|([Pp])laintiff");
    let outcome = scan(&corpus, &re, 2, CHARS_PER_DOC);
    assert_eq!(outcome.messages, vec![r#"[["Plaintiff"]]"#, r#"[["Defendant"]]"#]);
    assert_eq!(outcome.matching_documents, 2);
}

#[test]
fn three_documents_chunk_by_chunk() {
    let corpus = corpus_of(&["Plaintiff filed suit.", "No mention here.", "Defendant moved."]);
    let re = compiled("([dD])efendant|([Pp])laintiff");
    let documents = corpus.documents();
    let first = scan_chunk(&documents[0..2], &re, CHARS_PER_DOC);
    assert_eq!(first, vec![vec!["Plaintiff"]]);
    let second = scan_chunk(&documents[2..3], &re, CHARS_PER_DOC);
    assert_eq!(second, vec![vec!["Defendant"]]);
}

// The group `(Pp)` stands for the two letters `Pp` in a row, so the canned
// pattern finds `Pplaintiff` and not `Plaintiff`.
#[test]
fn the_canned_pattern_on_three_documents() {
    let corpus = corpus_of(&["Plaintiff filed suit.", "No mention here.", "Defendant moved."]);
    let re = compiled("([dD])efendant|(Pp)laintiff");
    let outcome = scan(&corpus, &re, 2, CHARS_PER_DOC);
    assert_eq!(outcome.messages, vec!["[]", r#"[["Defendant"]]"#]);
    assert_eq!(outcome.matching_documents, 1);
    let other = corpus_of(&["Pplaintiff filed suit."]);
    assert_eq!(scan(&other, &re, 2, CHARS_PER_DOC).messages, vec![r#"[["Pplaintiff"]]"#]);
}

#[test]
fn one_message_per_chunk_rounded_up() {
    let re = compiled("x");
    for n in 0..12usize {
        let texts: Vec<&str> = (0..n).map(|_| "x").collect();
        let corpus = corpus_of(&texts);
        for c in 1..14usize {
            let outcome = scan(&corpus, &re, c, CHARS_PER_DOC);
            assert_eq!(outcome.messages.len(), (n + c - 1) / c);
            assert_eq!(outcome.matching_documents, n);
        }
    }
}

#[test]
fn a_chunk_without_matches_still_has_a_message() {
    let corpus = corpus_of(&["nothing", "to", "see", "match"]);
    let re = compiled("match");
    let outcome = scan(&corpus, &re, 2, CHARS_PER_DOC);
    assert_eq!(outcome.messages, vec!["[]", r#"[["match"]]"#]);
    assert_eq!(outcome.matching_documents, 1);
}

#[test]
fn an_empty_corpus_has_no_chunk_and_no_message() {
    let corpus = corpus_of(&[]);
    let re = compiled("a");
    let outcome = scan(&corpus, &re, DEFAULT_CHUNK_SIZE, CHARS_PER_DOC);
    assert!(outcome.messages.is_empty());
    assert_eq!(outcome.matching_documents, 0);
}

#[test]
fn a_document_without_occurrence_is_in_no_group() {
    let corpus = corpus_of(&["aa", "bb", "ab", "cc", "ba"]);
    let re = compiled("a+");
    let groups = scan_chunk(corpus.documents(), &re, CHARS_PER_DOC);
    assert_eq!(groups, vec![vec!["aa"], vec!["a"], vec!["a"]]);
    for group in &groups {
        assert!(!group.is_empty());
    }
}

#[test]
fn groups_keep_corpus_order_and_match_order() {
    let corpus = corpus_of(&["b1 a2", "none", "c3 d4 e5"]);
    let re = compiled("[a-z][0-9]");
    let groups = scan_chunk(corpus.documents(), &re, CHARS_PER_DOC);
    assert_eq!(groups, vec![vec!["b1", "a2"], vec!["c3", "d4", "e5"]]);
}

#[test]
fn the_budget_applies_to_each_document_separately() {
    let corpus = corpus_of(&["aaaaa bbbbb ccccc", "aaaaa bbbbb ccccc"]);
    let re = compiled("a+|b+|c+");
    let outcome = scan(&corpus, &re, 1, 8);
    assert_eq!(outcome.messages, vec![r#"[["aaaaa","bbb"]]"#, r#"[["aaaaa","bbb"]]"#]);
}

#[test]
fn running_a_job_again_gives_the_same_messages() {
    let texts = ["Plaintiff v. Defendant", "", "the defendant", "x", "plaintiff Plaintiff"];
    let first = scan(&corpus_of(&texts), &compiled("([dD])efendant|([Pp])laintiff"), 2, 12);
    let second = scan(&corpus_of(&texts), &compiled("([dD])efendant|([Pp])laintiff"), 2, 12);
    assert_eq!(first.messages, second.messages);
    assert_eq!(first.matching_documents, second.matching_documents);
    assert_eq!(first.messages.len(), 3);
}

#[test]
fn messages_escape_what_json_requires() {
    let result = vec![vec!["say \"hi\"", "a\\b"], vec!["tab\there"]];
    assert_eq!(encode_chunk(&result), r#"[["say \"hi\"","a\\b"],["tab\there"]]"#);
}

#[test]
fn the_message_of_an_empty_result_is_the_empty_array() {
    let result: Vec<Vec<&str>> = Vec::new();
    assert_eq!(encode_chunk(&result), "[]");
}

#[test]
fn chunk_counts_round_up() {
    assert_eq!(count_chunks(0, 1000), 0);
    assert_eq!(count_chunks(1, 1000), 1);
    assert_eq!(count_chunks(1000, 1000), 1);
    assert_eq!(count_chunks(1001, 1000), 2);
    assert_eq!(count_chunks(3, 2), 2);
    assert_eq!(count_chunks(usize::MAX, 1), usize::MAX);
    assert_eq!(count_chunks(usize::MAX, usize::MAX), 1);
}

#[test]
fn chunk_bounds_are_contiguous_and_the_last_chunk_is_short() {
    assert_eq!(chunk_bounds(5, 2, 0), (0, 2));
    assert_eq!(chunk_bounds(5, 2, 1), (2, 4));
    assert_eq!(chunk_bounds(5, 2, 2), (4, 5));
    assert_eq!(chunk_bounds(4, 2, 1), (2, 4));
    assert_eq!(chunk_bounds(3, 1000, 0), (0, 3));
    assert_eq!(chunk_bounds(usize::MAX, usize::MAX - 1, 1), (usize::MAX - 1, usize::MAX));
}

#[test]
fn the_corpus_keeps_its_documents_in_order() {
    let corpus = corpus_of(&["first", "second"]);
    assert_eq!(corpus.len(), 2);
    assert!(!corpus.is_empty());
    assert_eq!(corpus.get(0).map(|d| d.contents.as_str()), Some("first"));
    assert_eq!(corpus.get(1).map(|d| d.path.as_str()), Some("doc1.txt"));
    assert!(corpus.get(2).is_none());
    assert_eq!(corpus.documents().len(), 2);
    assert!(corpus_of(&[]).is_empty());
}

#[test]
fn a_chunk_report_holds_the_message_and_the_count() {
    let corpus = corpus_of(&["b1 a2", "none", "c3 d4 e5"]);
    let re = compiled("[a-z][0-9]");
    let report = process_chunk(corpus.documents(), &re, 5);
    assert_eq!(report.message, r#"[["b1","a2"],["c3","d4","e"]]"#);
    assert_eq!(report.matching_documents, 2);
    let empty = process_chunk(&corpus.documents()[1..2], &re, 5);
    assert_eq!(empty.message, "[]");
    assert_eq!(empty.matching_documents, 0);
}
