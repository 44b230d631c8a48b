//! The corpus: an ordered collection of documents that is built once and
//! only read afterwards.

use vstd::prelude::*;

verus! {

/// One text document of the corpus.
pub struct Document {
    /// Where the document was loaded from.
    pub path: String,
    /// The full text of the document.
    pub contents: String,
}

/// The texts of `documents`, in the same order.
pub open spec fn texts_of(documents: Seq<Document>) -> Seq<Seq<char>> {
    Seq::new(documents.len(), |i: int| documents[i].contents@)
}

/// The documents that every job is run against. A corpus offers no way to
/// add, remove or change a document once it is built.
pub struct Corpus {
    documents: Vec<Document>,
}

impl View for Corpus {
    type V = Seq<Document>;

    closed spec fn view(&self) -> Seq<Document> {
        self.documents@
    }
}

impl Corpus {
    /// Builds the corpus from `documents`, keeping their order.
    pub fn new(documents: Vec<Document>) -> (corpus: Corpus)
        ensures
            corpus@ == documents@,
    {
        Corpus { documents }
    }

    /// The number of documents.
    pub fn len(&self) -> (n: usize)
        ensures
            n == self@.len(),
    {
        self.documents.len()
    }

    /// Whether the corpus holds no document.
    pub fn is_empty(&self) -> (b: bool)
        ensures
            b == (self@.len() == 0),
    {
        self.documents.len() == 0
    }

    /// The document at `index`, if there is one.
    pub fn get(&self, index: usize) -> (d: Option<&Document>)
        ensures
            index < self@.len() ==> d == Some(&self@[index as int]),
            index >= self@.len() ==> d is None,
    {
        if index < self.documents.len() {
            Some(&self.documents[index])
        } else {
            None
        }
    }

    /// All documents, in corpus order.
    pub fn documents(&self) -> (all: &[Document])
        ensures
            all@ == self@,
    {
        self.documents.as_slice()
    }
}

} // verus!
