use bible_api::address::{parse_address, parse_segment, AddressError, Request};
use bible_api::corpus::{listed_count, resolve_content, BookEntry, Corpus, Resolution};
use bible_api::render::{book_links, chapter_links, content_text, decimal_text, reference_label, verse_links};
use bible_api::resolve::{resolve_request, Step};
use bible_api::title::{kebab_to_title_case, title_to_kebab};

fn segs(parts: &[&str]) -> Vec<String> {
    parts.iter().map(|s| s.to_string()).collect()
}

fn book(id: &str, verse_counts: Vec<usize>) -> BookEntry {
    BookEntry { id: id.to_string(), verse_counts }
}

fn sample_corpus() -> Corpus {
    let mut genesis = vec![31, 25];
    genesis.extend(std::iter::repeat(20).take(48));
    Corpus {
        books: vec![
            book("genesis", genesis),
            book("song-of-songs", vec![17, 17, 11]),
            book("empty-book", vec![]),
        ],
    }
}

#[test]
fn title_case_of_plain_identifier() {
    assert_eq!(kebab_to_title_case("song-of-songs"), "Song Of Songs");
    assert_eq!(kebab_to_title_case("genesis"), "Genesis");
    assert_eq!(kebab_to_title_case(""), "");
}

#[test]
fn title_case_round_trips_through_kebab() {
    for x in ["genesis", "song-of-songs", "first-kings", "a-b-c"] {
        let title = kebab_to_title_case(x);
        let kebab = title_to_kebab(&title);
        assert_eq!(kebab, x);
        assert_eq!(kebab_to_title_case(&kebab), title);
    }
}

#[test]
fn title_case_double_hyphen_gives_double_space() {
    assert_eq!(kebab_to_title_case("song--of-songs"), "Song  Of Songs");
    assert_eq!(kebab_to_title_case("-a-"), " A ");
}

#[test]
fn title_case_non_ascii_first_letter() {
    assert_eq!(kebab_to_title_case("élan-vital"), "Élan Vital");
}

#[test]
fn title_to_kebab_lowers_and_hyphenates() {
    assert_eq!(title_to_kebab("Song Of Songs"), "song-of-songs");
    assert_eq!(title_to_kebab(""), "");
}

#[test]
fn segment_parsing_policy() {
    assert_eq!(parse_segment(""), Some(None));
    assert_eq!(parse_segment("1"), Some(Some(1)));
    assert_eq!(parse_segment("007"), Some(Some(7)));
    assert_eq!(parse_segment("+5"), Some(Some(5)));
    assert_eq!(parse_segment("4294967295"), Some(Some(4294967295)));
    assert_eq!(parse_segment("4294967296"), None);
    assert_eq!(parse_segment("-1"), None);
    assert_eq!(parse_segment("+"), None);
    assert_eq!(parse_segment("abc"), None);
    assert_eq!(parse_segment(" 1"), None);
}

#[test]
fn address_by_depth() {
    assert_eq!(parse_address(&segs(&[])), Ok(Request::Books));
    assert_eq!(
        parse_address(&segs(&["genesis"])),
        Ok(Request::Chapters { book: "genesis".to_string() })
    );
    assert_eq!(
        parse_address(&segs(&["genesis", "3"])),
        Ok(Request::Verses { book: "genesis".to_string(), chapter: 3 })
    );
    assert_eq!(
        parse_address(&segs(&["genesis", "", ""])),
        Ok(Request::Content { book: "genesis".to_string(), chapter: None, verse: None })
    );
}

#[test]
fn address_errors() {
    assert_eq!(parse_address(&segs(&["genesis", "abc"])), Err(AddressError::InvalidChapter));
    assert_eq!(parse_address(&segs(&["genesis", ""])), Err(AddressError::InvalidChapter));
    assert_eq!(parse_address(&segs(&["genesis", "x", "1"])), Err(AddressError::InvalidChapter));
    assert_eq!(parse_address(&segs(&["genesis", "1", "v"])), Err(AddressError::InvalidVerse));
    assert_eq!(parse_address(&segs(&["genesis", "1", "1", "1"])), Err(AddressError::TooDeep));
}

#[test]
fn malformed_chapter_segment_is_refused() {
    assert_eq!(parse_address(&segs(&["genesis", "abc"])), Err(AddressError::InvalidChapter));
}

#[test]
fn books_listed_in_corpus_order() {
    let c = sample_corpus();
    assert_eq!(c.list_books(), segs(&["genesis", "song-of-songs", "empty-book"]));
    let links = book_links(&c.list_books());
    assert_eq!(links.len(), 3);
    assert_eq!(links[1].href, "/song-of-songs");
    assert_eq!(links[1].label, "Song Of Songs");
}

#[test]
fn chapter_listing_counts_chapters() {
    let c = sample_corpus();
    assert_eq!(c.list_chapters("song-of-songs"), Resolution::ChapterListing(3));
    assert_eq!(c.list_chapters("empty-book"), Resolution::ChapterListing(0));
}

#[test]
fn genesis_lists_fifty_chapters() {
    let c = sample_corpus();
    let req = parse_address(&segs(&["genesis"])).unwrap();
    let step = resolve_request(&c, &req);
    assert_eq!(step, Step::Done(Resolution::ChapterListing(50)));
    let links = chapter_links("genesis", listed_count(&Resolution::ChapterListing(50)));
    assert_eq!(links.len(), 50);
    for (i, link) in links.iter().enumerate() {
        assert_eq!(link.label, format!("Chapter {}", i + 1));
        assert_eq!(link.href, format!("/genesis/{}", i + 1));
    }
}

#[test]
fn unknown_book_gives_empty_listing() {
    let c = sample_corpus();
    let req = parse_address(&segs(&["atlantis"])).unwrap();
    let step = resolve_request(&c, &req);
    assert_eq!(step, Step::Done(Resolution::NotFound));
    assert_eq!(listed_count(&Resolution::NotFound), 0);
    assert!(chapter_links("atlantis", 0).is_empty());
}

#[test]
fn verse_listing_in_and_out_of_range() {
    let c = sample_corpus();
    assert_eq!(c.list_verses("genesis", 1), Resolution::VerseListing(31));
    assert_eq!(c.list_verses("genesis", 50), Resolution::VerseListing(20));
    assert_eq!(c.list_verses("genesis", 0), Resolution::NotFound);
    assert_eq!(c.list_verses("genesis", 51), Resolution::NotFound);
    assert_eq!(c.list_verses("empty-book", 1), Resolution::NotFound);
    assert_eq!(c.list_verses("atlantis", 1), Resolution::NotFound);
    let links = verse_links("genesis", 2, 25);
    assert_eq!(links.len(), 25);
    assert_eq!(links[0].href, "/genesis/2/1");
    assert_eq!(links[24].label, "Verse 25");
}

#[test]
fn empty_book_content_is_searched_then_not_found() {
    let c = sample_corpus();
    for (chapter, seg) in [(None, ""), (Some(1), "1")] {
        let req = parse_address(&segs(&["empty-book", seg, ""])).unwrap();
        assert_eq!(
            resolve_request(&c, &req),
            Step::Search { book: "empty-book".to_string(), chapter, verse: None }
        );
        let r = resolve_content(None);
        assert_eq!(r, Resolution::NotFound);
        assert_eq!(content_text(r), "Reference not found.");
    }
}

#[test]
fn exact_verse_reaches_search() {
    let c = sample_corpus();
    let req = parse_address(&segs(&["genesis", "1", "1"])).unwrap();
    let step = resolve_request(&c, &req);
    assert_eq!(
        step,
        Step::Search { book: "genesis".to_string(), chapter: Some(1), verse: Some(1) }
    );
    let text = "In the beginning God created the heaven and the earth.";
    let r = resolve_content(Some(text.to_string()));
    assert_eq!(r, Resolution::Content(text.to_string()));
    assert_eq!(content_text(r), text);
}

#[test]
fn verse_without_chapter_is_forwarded() {
    let c = sample_corpus();
    let req = parse_address(&segs(&["genesis", "", "1"])).unwrap();
    assert_eq!(
        req,
        Request::Content { book: "genesis".to_string(), chapter: None, verse: Some(1) }
    );
    assert_eq!(
        resolve_request(&c, &req),
        Step::Search { book: "genesis".to_string(), chapter: None, verse: Some(1) }
    );
}

#[test]
fn every_content_address_is_forwarded_unchanged() {
    let c = sample_corpus();
    let cases = [
        (["genesis", "2", "26"], Some(2), Some(26)),
        (["genesis", "51", ""], Some(51), None),
        (["atlantis", "", ""], None, None),
        (["genesis", "", "999"], None, Some(999)),
        (["genesis", "0", "0"], Some(0), Some(0)),
    ];
    for (parts, chapter, verse) in cases {
        let req = parse_address(&segs(&parts)).unwrap();
        assert_eq!(
            resolve_request(&c, &req),
            Step::Search { book: parts[0].to_string(), chapter, verse }
        );
    }
}

#[test]
fn search_without_result_is_not_found() {
    let r = resolve_content(None);
    assert_eq!(r, Resolution::NotFound);
    assert_eq!(content_text(r), "Reference not found.");
}

#[test]
fn title_case_keeps_non_letters() {
    assert_eq!(kebab_to_title_case("1-samuel"), "1 Samuel");
    assert_eq!(kebab_to_title_case("Song-of-songs"), "Song Of Songs");
    assert_eq!(kebab_to_title_case("x-"), "X ");
}

#[test]
fn decimal_and_reference_labels() {
    assert_eq!(decimal_text(0), "0");
    assert_eq!(decimal_text(1234), "1234");
    assert_eq!(decimal_text(u64::MAX), u64::MAX.to_string());
    assert_eq!(reference_label(Some(3), Some(16)), "3:16");
    assert_eq!(reference_label(Some(3), None), "3:");
    assert_eq!(reference_label(None, Some(1)), ":1");
}

#[test]
fn book_listing_count() {
    let c = sample_corpus();
    match resolve_request(&c, &Request::Books) {
        Step::Done(r) => assert_eq!(listed_count(&r), 3),
        other => panic!("unexpected {:?}", other),
    }
}
