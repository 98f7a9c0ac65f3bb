use vstd::prelude::*;

verus! {

/// Whether every character of `d` is an ASCII decimal digit.
pub open spec fn all_digits(d: Seq<char>) -> bool {
    forall|i: int| 0 <= i < d.len() ==> '0' <= #[trigger] d[i] <= '9'
}

/// The number that the decimal digits `d` spell, most significant first.
pub open spec fn digits_value(d: Seq<char>) -> nat
    decreases d.len(),
{
    if d.len() == 0 {
        0
    } else {
        digits_value(d.drop_last()) * 10 + ((d.last() as u32) - ('0' as u32)) as nat
    }
}

/// `s` without one leading `+`, if it has one.
pub open spec fn unsigned_digits(s: Seq<char>) -> Seq<char> {
    if s.len() > 0 && s[0] == '+' {
        s.drop_first()
    } else {
        s
    }
}

/// The `u32` that `s` spells in decimal (an optional `+`, then one or more
/// digits), or `None` where it spells none or one too large.
pub open spec fn decimal_u32(s: Seq<char>) -> Option<u32> {
    let d = unsigned_digits(s);
    if d.len() > 0 && all_digits(d) && digits_value(d) <= u32::MAX {
        Some(digits_value(d) as u32)
    } else {
        None
    }
}

/// Relies on `<u32 as FromStr>::from_str`: an optional `+` followed by decimal digits
/// whose value fits, anything else is an error.
#[verifier::external_body]
fn parse_u32(s: &str) -> (r: Option<u32>)
    ensures
        r == decimal_u32(s@),
{
    s.parse::<u32>().ok()
}

/// A numeric address segment: empty means absent, otherwise a `u32` in decimal.
/// `None` where the segment is present and malformed.
pub open spec fn segment_number(seg: Seq<char>) -> Option<Option<u32>> {
    if seg.len() == 0 {
        Some(None)
    } else {
        match decimal_u32(seg) {
            Some(n) => Some(Some(n)),
            None => None,
        }
    }
}

/// Reads an optional numeric segment: an empty segment is absent (`Some(None)`), a
/// decimal `u32` is present, and anything else is malformed (`None`).
pub fn parse_segment(seg: &str) -> (r: Option<Option<u32>>)
    ensures
        r == segment_number(seg@),
{
    let n = seg.unicode_len();
    if n == 0 {
        Some(None)
    } else {
        match parse_u32(seg) {
            Some(v) => Some(Some(v)),
            None => None,
        }
    }
}

/// A well-formed address, classified by its depth.
#[derive(Debug, Clone, PartialEq, Eq)]
pub enum Request {
    /// No segment: the list of books.
    Books,
    /// A book: its chapters.
    Chapters { book: String },
    /// A book and a chapter: the chapter's verses.
    Verses { book: String, chapter: u32 },
    /// A book, then a chapter and a verse that may each be absent: text.
    Content { book: String, chapter: Option<u32>, verse: Option<u32> },
}

/// Why an address is refused before any corpus lookup.
#[derive(Debug, Clone, Copy, PartialEq, Eq, Structural)]
pub enum AddressError {
    /// The chapter segment is present but is no number.
    InvalidChapter,
    /// The verse segment is present but is no number.
    InvalidVerse,
    /// More than three segments.
    TooDeep,
}

impl Request {
    /// The request as a value of the model: book identifiers as character sequences.
    pub open spec fn view_parts(self) -> (nat, Seq<char>, Option<u32>, Option<u32>) {
        match self {
            Request::Books => (0, Seq::empty(), None, None),
            Request::Chapters { book } => (1, book@, None, None),
            Request::Verses { book, chapter } => (2, book@, Some(chapter), None),
            Request::Content { book, chapter, verse } => (3, book@, chapter, verse),
        }
    }
}

/// What the address made of the segments `segs` asks for: the model of
/// `parse_address`, with a request written as its `view_parts`.
pub open spec fn address_of(segs: Seq<Seq<char>>) -> Result<(nat, Seq<char>, Option<u32>, Option<u32>), AddressError> {
    if segs.len() == 0 {
        Ok((0, Seq::empty(), None, None))
    } else if segs.len() == 1 {
        Ok((1, segs[0], None, None))
    } else if segs.len() == 2 {
        match decimal_u32(segs[1]) {
            Some(c) => Ok((2, segs[0], Some(c), None)),
            None => Err(AddressError::InvalidChapter),
        }
    } else if segs.len() == 3 {
        match (segment_number(segs[1]), segment_number(segs[2])) {
            (None, _) => Err(AddressError::InvalidChapter),
            (Some(_), None) => Err(AddressError::InvalidVerse),
            (Some(c), Some(v)) => Ok((3, segs[0], c, v)),
        }
    } else {
        Err(AddressError::TooDeep)
    }
}

/// The character sequences of a list of strings.
pub open spec fn texts(v: Seq<String>) -> Seq<Seq<char>> {
    v.map_values(|s: String| s@)
}

/// Classifies an address given as its path segments. The chapter of a two-segment
/// address must be a number; in a three-segment address an empty chapter or verse
/// segment is absent, and a malformed one is refused.
pub fn parse_address(segs: &Vec<String>) -> (r: Result<Request, AddressError>)
    ensures
        match r {
            Ok(req) => address_of(texts(segs@)) == Ok::<_, AddressError>(req.view_parts()),
            Err(e) => address_of(texts(segs@)) == Err::<(nat, Seq<char>, Option<u32>, Option<u32>), _>(e),
        },
{
    let n = segs.len();
    if n == 0 {
        Ok(Request::Books)
    } else if n == 1 {
        Ok(Request::Chapters { book: segs[0].clone() })
    } else if n == 2 {
        match parse_u32(segs[1].as_str()) {
            Some(c) => Ok(Request::Verses { book: segs[0].clone(), chapter: c }),
            None => Err(AddressError::InvalidChapter),
        }
    } else if n == 3 {
        let chapter = match parse_segment(segs[1].as_str()) {
            Some(c) => c,
            None => {
                return Err(AddressError::InvalidChapter);
            },
        };
        let verse = match parse_segment(segs[2].as_str()) {
            Some(v) => v,
            None => {
                return Err(AddressError::InvalidVerse);
            },
        };
        Ok(Request::Content { book: segs[0].clone(), chapter, verse })
    } else {
        Err(AddressError::TooDeep)
    }
}

} // verus!
