use vstd::prelude::*;

use crate::corpus::Resolution;
use crate::text::{chars_of, push_all, string_of};
use crate::title::{kebab_to_title_case, title_of};

verus! {

/// The decimal digit character for `d < 10`.
pub open spec fn digit_char(d: nat) -> char {
    ((d + 48) as u8) as char
}

/// The decimal form of `n`, without leading zeros.
pub open spec fn decimal_of(n: nat) -> Seq<char>
    decreases n,
{
    if n < 10 {
        seq![digit_char(n)]
    } else {
        decimal_of(n / 10) + seq![digit_char(n % 10)]
    }
}

/// The decimal form of a number that may be absent: empty where it is.
pub open spec fn optional_decimal(n: Option<u32>) -> Seq<char> {
    match n {
        Some(v) => decimal_of(v as nat),
        None => Seq::empty(),
    }
}

/// Appends the decimal form of `n` to `out`.
pub(crate) fn push_decimal(out: &mut Vec<char>, n: u64)
    ensures
        final(out)@ == old(out)@ + decimal_of(n as nat),
    decreases n,
{
    if n >= 10 {
        push_decimal(out, n / 10);
    }
    out.push(((n % 10) as u8 + 48) as char);
    assert(decimal_of(n as nat) == if n < 10 { seq![digit_char(n as nat)] } else { decimal_of((n / 10) as nat) + seq![digit_char((n % 10) as nat)] });
}

/// The decimal form of `n`.
pub fn decimal_text(n: u64) -> (r: String)
    ensures
        r@ == decimal_of(n as nat),
{
    let mut out: Vec<char> = Vec::new();
    push_decimal(&mut out, n);
    assert(out@ =~= decimal_of(n as nat));
    string_of(&out)
}

/// A link to a child page: where it goes and what it shows.
#[derive(Debug, Clone, PartialEq, Eq)]
pub struct Link {
    pub href: String,
    pub label: String,
}

/// The path of a book's page.
pub open spec fn book_path(book: Seq<char>) -> Seq<char> {
    seq!['/'] + book
}

/// The path of a chapter's page.
pub open spec fn chapter_path(book: Seq<char>, chapter: nat) -> Seq<char> {
    book_path(book) + seq!['/'] + decimal_of(chapter)
}

/// The path of a verse's page.
pub open spec fn verse_path(book: Seq<char>, chapter: nat, verse: nat) -> Seq<char> {
    chapter_path(book, chapter) + seq!['/'] + decimal_of(verse)
}

/// The label of the link to chapter `k`.
pub open spec fn chapter_label(k: nat) -> Seq<char> {
    seq!['C', 'h', 'a', 'p', 't', 'e', 'r', ' '] + decimal_of(k)
}

/// The label of the link to verse `k`.
pub open spec fn verse_label(k: nat) -> Seq<char> {
    seq!['V', 'e', 'r', 's', 'e', ' '] + decimal_of(k)
}

fn path_prefix(book: &str) -> (r: Vec<char>)
    ensures
        r@ == book_path(book@),
{
    let mut out: Vec<char> = Vec::new();
    out.push('/');
    let b = chars_of(book);
    push_all(&mut out, &b);
    assert(out@ =~= book_path(book@));
    out
}

/// One link per book, in the given order: to the book's page, labelled with its
/// title-case form.
pub fn book_links(books: &Vec<String>) -> (r: Vec<Link>)
    ensures
        r@.len() == books@.len(),
        forall|k: int|
            0 <= k < r@.len() ==> (#[trigger] r@[k]).href@ == book_path(books@[k]@)
                && r@[k].label@ == title_of(books@[k]@),
{
    let mut out: Vec<Link> = Vec::new();
    let mut i: usize = 0;
    while i < books.len()
        invariant
            i <= books@.len(),
            out@.len() == i,
            forall|k: int|
                0 <= k < i ==> (#[trigger] out@[k]).href@ == book_path(books@[k]@)
                    && out@[k].label@ == title_of(books@[k]@),
        decreases books@.len() - i,
    {
        let book = books[i].as_str();
        let href = string_of(&path_prefix(book));
        let label = kebab_to_title_case(book);
        out.push(Link { href, label });
        i = i + 1;
    }
    out
}

/// The links to chapters `1..=count` of `book`, in order: link `k - 1` goes to
/// chapter `k` and reads "Chapter k".
pub fn chapter_links(book: &str, count: usize) -> (r: Vec<Link>)
    ensures
        r@.len() == count,
        forall|k: int|
            0 <= k < count ==> (#[trigger] r@[k]).href@ == chapter_path(book@, (k + 1) as nat)
                && r@[k].label@ == chapter_label((k + 1) as nat),
{
    let prefix = path_prefix(book);
    let mut out: Vec<Link> = Vec::new();
    let mut i: usize = 0;
    while i < count
        invariant
            prefix@ == book_path(book@),
            i <= count,
            out@.len() == i,
            forall|k: int|
                0 <= k < i ==> (#[trigger] out@[k]).href@ == chapter_path(book@, (k + 1) as nat)
                    && out@[k].label@ == chapter_label((k + 1) as nat),
        decreases count - i,
    {
        let n = (i as u64) + 1;
        let mut href = prefix.clone();
        href.push('/');
        push_decimal(&mut href, n);
        let mut label: Vec<char> = vec!['C', 'h', 'a', 'p', 't', 'e', 'r', ' '];
        push_decimal(&mut label, n);
        assert(href@ =~= chapter_path(book@, (i + 1) as nat));
        assert(label@ =~= chapter_label((i + 1) as nat));
        out.push(Link { href: string_of(&href), label: string_of(&label) });
        i = i + 1;
    }
    out
}

/// The links to verses `1..=count` of chapter `chapter` of `book`, in order: link
/// `k - 1` goes to verse `k` and reads "Verse k".
pub fn verse_links(book: &str, chapter: u32, count: usize) -> (r: Vec<Link>)
    ensures
        r@.len() == count,
        forall|k: int|
            0 <= k < count ==> (#[trigger] r@[k]).href@ == verse_path(book@, chapter as nat, (k + 1) as nat)
                && r@[k].label@ == verse_label((k + 1) as nat),
{
    let mut prefix = path_prefix(book);
    prefix.push('/');
    push_decimal(&mut prefix, chapter as u64);
    assert(prefix@ =~= chapter_path(book@, chapter as nat));
    let mut out: Vec<Link> = Vec::new();
    let mut i: usize = 0;
    while i < count
        invariant
            prefix@ == chapter_path(book@, chapter as nat),
            i <= count,
            out@.len() == i,
            forall|k: int|
                0 <= k < i ==> (#[trigger] out@[k]).href@ == verse_path(book@, chapter as nat, (k + 1) as nat)
                    && out@[k].label@ == verse_label((k + 1) as nat),
        decreases count - i,
    {
        let n = (i as u64) + 1;
        let mut href = prefix.clone();
        href.push('/');
        push_decimal(&mut href, n);
        let mut label: Vec<char> = vec!['V', 'e', 'r', 's', 'e', ' '];
        push_decimal(&mut label, n);
        assert(href@ =~= verse_path(book@, chapter as nat, (i + 1) as nat));
        assert(label@ =~= verse_label((i + 1) as nat));
        out.push(Link { href: string_of(&href), label: string_of(&label) });
        i = i + 1;
    }
    out
}

/// The `chapter:verse` label of a content page, an absent number shown as nothing.
pub fn reference_label(chapter: Option<u32>, verse: Option<u32>) -> (r: String)
    ensures
        r@ == optional_decimal(chapter) + seq![':'] + optional_decimal(verse),
{
    let mut out: Vec<char> = Vec::new();
    if let Some(c) = chapter {
        push_decimal(&mut out, c as u64);
    }
    out.push(':');
    if let Some(v) = verse {
        push_decimal(&mut out, v as u64);
    }
    assert(out@ =~= optional_decimal(chapter) + seq![':'] + optional_decimal(verse));
    string_of(&out)
}

/// The text shown for placeholder content.
pub open spec fn not_found_text() -> Seq<char> {
    seq!['R', 'e', 'f', 'e', 'r', 'e', 'n', 'c', 'e', ' ', 'n', 'o', 't', ' ', 'f', 'o', 'u', 'n', 'd', '.']
}

/// The body of a content page: the text found, or "Reference not found." for any
/// other outcome.
pub fn content_text(r: Resolution) -> (t: String)
    ensures
        t@ == match r {
            Resolution::Content(text) => text@,
            _ => not_found_text(),
        },
{
    match r {
        Resolution::Content(text) => text,
        _ => {
            let v: Vec<char> = vec!['R', 'e', 'f', 'e', 'r', 'e', 'n', 'c', 'e', ' ', 'n', 'o', 't', ' ', 'f', 'o', 'u', 'n', 'd', '.'];
            assert(v@ =~= not_found_text());
            string_of(&v)
        },
    }
}

} // verus!
