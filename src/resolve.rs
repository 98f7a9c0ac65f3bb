use vstd::prelude::*;

use crate::address::{texts, Request};
use crate::corpus::{
    chapter_count, verse_count, Corpus, Resolution,
};

verus! {

/// Where resolving a request stands: finished, or waiting for the corpus's
/// reference search on the given book, chapter and verse, whose result
/// `resolve_content` then turns into the outcome.
#[derive(Debug, Clone, PartialEq, Eq)]
pub enum Step {
    Done(Resolution),
    Search { book: String, chapter: Option<u32>, verse: Option<u32> },
}

/// Resolves a well-formed request against the corpus's shape. Listings are
/// answered at once. Content always goes to the corpus's reference search, with
/// the book, chapter and verse unchanged, whatever the corpus's shape: the search
/// alone decides what an address names, a verse without a chapter included.
pub fn resolve_request(corpus: &Corpus, req: &Request) -> (r: Step)
    ensures
        match *req {
            Request::Books => match r {
                Step::Done(Resolution::BookListing(books)) => texts(books@) == corpus.ids(),
                _ => false,
            },
            Request::Chapters { book } => r == Step::Done(
                match chapter_count(*corpus, book@) {
                    Some(n) => Resolution::ChapterListing(n as usize),
                    None => Resolution::NotFound,
                },
            ),
            Request::Verses { book, chapter } => r == Step::Done(
                match verse_count(*corpus, book@, chapter as int) {
                    Some(n) => Resolution::VerseListing(n as usize),
                    None => Resolution::NotFound,
                },
            ),
            Request::Content { book, chapter, verse } => r == Step::Search { book, chapter, verse },
        },
{
    match req {
        Request::Books => {
            let books = corpus.list_books();
            assert(texts(books@) =~= corpus.ids());
            Step::Done(Resolution::BookListing(books))
        },
        Request::Chapters { book } => Step::Done(corpus.list_chapters(book.as_str())),
        Request::Verses { book, chapter } => Step::Done(corpus.list_verses(book.as_str(), *chapter)),
        Request::Content { book, chapter, verse } => Step::Search {
            book: book.clone(),
            chapter: *chapter,
            verse: *verse,
        },
    }
}

} // verus!
