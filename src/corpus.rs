use vstd::prelude::*;

use crate::text::same_text;

verus! {

/// The shape of one book of a corpus snapshot: its identifier and, for each
/// chapter in order, how many verses it has. Chapter `k` (1-based) is
/// `verse_counts[k - 1]`.
#[derive(Debug, Clone)]
pub struct BookEntry {
    pub id: String,
    pub verse_counts: Vec<usize>,
}

/// A snapshot of the corpus's shape: its books, in the corpus's own order.
#[derive(Debug, Clone)]
pub struct Corpus {
    pub books: Vec<BookEntry>,
}

/// What a well-formed address resolves to.
#[derive(Debug, Clone, PartialEq, Eq)]
pub enum Resolution {
    /// The books, in corpus order.
    BookListing(Vec<String>),
    /// How many chapters a book has; they are numbered `1..=n`.
    ChapterListing(usize),
    /// How many verses a chapter has; they are numbered `1..=n`.
    VerseListing(usize),
    /// The text found at an address.
    Content(String),
    /// Nothing in the corpus answers the address.
    NotFound,
}

impl Corpus {
    /// The book identifiers, in corpus order.
    pub open spec fn ids(&self) -> Seq<Seq<char>> {
        self.books@.map_values(|b: BookEntry| b.id@)
    }

    /// The verse counts of book `i`, chapter by chapter.
    pub open spec fn shape(&self, i: int) -> Seq<usize> {
        self.books@[i].verse_counts@
    }
}

/// The position of the first `id` in `ids`, if any.
pub open spec fn index_of(ids: Seq<Seq<char>>, id: Seq<char>) -> Option<int>
    decreases ids.len(),
{
    if ids.len() == 0 {
        None
    } else {
        match index_of(ids.drop_last(), id) {
            Some(i) => Some(i),
            None => if ids.last() == id {
                Some(ids.len() - 1)
            } else {
                None
            },
        }
    }
}

/// A first match in a prefix is the first match in the whole sequence.
proof fn lemma_index_of_prefix(ids: Seq<Seq<char>>, j: int, id: Seq<char>)
    requires
        0 <= j <= ids.len(),
        index_of(ids.subrange(0, j), id) is Some,
    ensures
        index_of(ids, id) == index_of(ids.subrange(0, j), id),
    decreases ids.len(),
{
    if j == ids.len() {
        assert(ids.subrange(0, j) == ids);
    } else {
        assert(ids.drop_last().subrange(0, j) == ids.subrange(0, j));
        lemma_index_of_prefix(ids.drop_last(), j, id);
    }
}

/// How many chapters the book `book` has, or `None` for a book the corpus lacks.
pub open spec fn chapter_count(c: Corpus, book: Seq<char>) -> Option<nat> {
    match index_of(c.ids(), book) {
        Some(i) => Some(c.shape(i).len()),
        None => None,
    }
}

/// How many verses chapter `chapter` of `book` has, or `None` where the book is
/// unknown or the chapter is outside `1..=chapter_count`.
pub open spec fn verse_count(c: Corpus, book: Seq<char>, chapter: int) -> Option<nat> {
    match index_of(c.ids(), book) {
        Some(i) => if 1 <= chapter <= c.shape(i).len() {
            Some(c.shape(i)[chapter - 1] as nat)
        } else {
            None
        },
        None => None,
    }
}

impl Corpus {
    /// The position of book `book` in the corpus, if it is there.
    pub fn find_book(&self, book: &str) -> (r: Option<usize>)
        ensures
            match r {
                Some(i) => index_of(self.ids(), book@) == Some(i as int),
                None => index_of(self.ids(), book@) is None,
            },
            r is Some ==> r->0 < self.books@.len(),
    {
        let mut i: usize = 0;
        while i < self.books.len()
            invariant
                i <= self.books@.len(),
                index_of(self.ids().subrange(0, i as int), book@) is None,
            decreases self.books@.len() - i,
        {
            let found = same_text(self.books[i].id.as_str(), book);
            assert(self.ids().subrange(0, i + 1 as int).drop_last() == self.ids().subrange(0, i as int));
            if found {
                proof {
                    lemma_index_of_prefix(self.ids(), i + 1, book@);
                }
                return Some(i);
            }
            i = i + 1;
        }
        assert(self.ids().subrange(0, i as int) == self.ids());
        None
    }

    /// The book identifiers, in corpus order.
    pub fn list_books(&self) -> (r: Vec<String>)
        ensures
            r@.len() == self.books@.len(),
            forall|k: int| 0 <= k < r@.len() ==> #[trigger] r@[k]@ == self.books@[k].id@,
    {
        let mut out: Vec<String> = Vec::new();
        let mut i: usize = 0;
        while i < self.books.len()
            invariant
                i <= self.books@.len(),
                out@.len() == i,
                forall|k: int| 0 <= k < i ==> #[trigger] out@[k]@ == self.books@[k].id@,
            decreases self.books@.len() - i,
        {
            out.push(self.books[i].id.clone());
            i = i + 1;
        }
        out
    }

    /// The chapter listing of `book`: its chapter count, or `NotFound` for a book
    /// the corpus lacks.
    pub fn list_chapters(&self, book: &str) -> (r: Resolution)
        ensures
            r == match chapter_count(*self, book@) {
                Some(n) => Resolution::ChapterListing(n as usize),
                None => Resolution::NotFound,
            },
    {
        match self.find_book(book) {
            Some(i) => Resolution::ChapterListing(self.books[i].verse_counts.len()),
            None => Resolution::NotFound,
        }
    }

    /// The verse listing of chapter `chapter` of `book`: its verse count, or
    /// `NotFound` for an unknown book or a chapter outside `1..=chapter_count`.
    pub fn list_verses(&self, book: &str, chapter: u32) -> (r: Resolution)
        ensures
            r == match verse_count(*self, book@, chapter as int) {
                Some(n) => Resolution::VerseListing(n as usize),
                None => Resolution::NotFound,
            },
    {
        match self.find_book(book) {
            Some(i) => {
                let counts = &self.books[i].verse_counts;
                if 1 <= chapter && (chapter as usize) <= counts.len() {
                    Resolution::VerseListing(counts[(chapter - 1) as usize])
                } else {
                    Resolution::NotFound
                }
            },
            None => Resolution::NotFound,
        }
    }

}

/// The outcome of content lookup, given what the corpus's reference search
/// returned: the text it found, or `NotFound` where it found nothing.
pub open spec fn content_resolution(found: Option<String>) -> Resolution {
    match found {
        Some(text) => Resolution::Content(text),
        None => Resolution::NotFound,
    }
}

/// The outcome of content lookup, given what the corpus's reference search
/// returned for the address.
pub fn resolve_content(found: Option<String>) -> (r: Resolution)
    ensures
        r == content_resolution(found),
{
    match found {
        Some(text) => Resolution::Content(text),
        None => Resolution::NotFound,
    }
}

/// How many child links a listing page shows: the count of a chapter or verse
/// listing, the number of books of a book listing, and none for anything else, so
/// that an absent book or chapter gives an empty page.
pub open spec fn listed_count_of(r: Resolution) -> nat {
    match r {
        Resolution::BookListing(books) => books@.len(),
        Resolution::ChapterListing(n) => n as nat,
        Resolution::VerseListing(n) => n as nat,
        _ => 0,
    }
}

/// How many child links a listing page shows for `r`.
pub fn listed_count(r: &Resolution) -> (n: usize)
    ensures
        n == listed_count_of(*r),
{
    match r {
        Resolution::BookListing(books) => books.len(),
        Resolution::ChapterListing(n) => *n,
        Resolution::VerseListing(n) => *n,
        _ => 0,
    }
}

/// The first match of `index_of` is a match, and nothing before it matches; there
/// is none exactly where `id` does not occur.
pub proof fn lemma_index_of(ids: Seq<Seq<char>>, id: Seq<char>)
    ensures
        match index_of(ids, id) {
            Some(j) => 0 <= j < ids.len() && ids[j] == id && forall|k: int| 0 <= k < j ==> ids[k] != id,
            None => !ids.contains(id),
        },
    decreases ids.len(),
{
    if ids.len() > 0 {
        let p = ids.drop_last();
        lemma_index_of(p, id);
        match index_of(p, id) {
            Some(j) => {
                assert(p[j] == ids[j]);
                assert forall|k: int| 0 <= k < j implies ids[k] != id by {
                    assert(p[k] == ids[k]);
                }
            },
            None => {
                assert forall|k: int| 0 <= k < ids.len() - 1 implies ids[k] != id by {
                    assert(p[k] == ids[k]);
                    if ids[k] == id {
                        assert(p.contains(id));
                    }
                }
                if ids.last() != id {
                    assert forall|k: int| 0 <= k < ids.len() implies ids[k] != id by {}
                }
            },
        }
    }
}

/// Every book present in the corpus has a chapter listing, whose count is the
/// number of chapters of that book (its first entry, should the identifier
/// repeat); chapters are then numbered by their corpus position.
pub proof fn lemma_present_book_listed(c: Corpus, book: Seq<char>)
    requires
        c.ids().contains(book),
    ensures
        exists|j: int|
            0 <= j < c.books@.len() && #[trigger] c.books@[j].id@ == book
                && chapter_count(c, book) == Some(c.shape(j).len()),
{
    lemma_index_of(c.ids(), book);
    let j = index_of(c.ids(), book)->0;
    assert(c.ids()[j] == c.books@[j].id@);
}

/// A chapter outside `1..=chapter_count(book)`, or any chapter of a book the corpus
/// lacks, has no verse listing.
pub proof fn lemma_out_of_range_chapter(c: Corpus, book: Seq<char>, chapter: int)
    requires
        match chapter_count(c, book) {
            Some(n) => chapter < 1 || chapter > n,
            None => true,
        },
    ensures
        verse_count(c, book, chapter) is None,
{
}

} // verus!
