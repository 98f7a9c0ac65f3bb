use vstd::prelude::*;

use crate::text::{chars_of, push_all, string_of};

verus! {

/// What `char::to_uppercase` yields for `c`, as a character sequence.
pub uninterp spec fn upper_of(c: char) -> Seq<char>;

/// The characters of `c.to_uppercase()`.
///
/// Relies on `char::to_uppercase`: its result depends on `c` alone, an ASCII
/// lowercase letter maps to the single matching ASCII uppercase letter, and a
/// character without an uppercase mapping (any other ASCII character) comes back
/// unchanged.
#[verifier::external_body]
fn uppercase(c: char) -> (r: Vec<char>)
    ensures
        r@ == upper_of(c),
        'a' <= c <= 'z' ==> r@ == seq![upper_ascii(c)],
        (c as u32) < 128 && !('a' <= c <= 'z') ==> r@ == seq![c],
{
    c.to_uppercase().collect()
}

/// The ASCII uppercase letter of an ASCII lowercase letter `c`.
pub open spec fn upper_ascii(c: char) -> char {
    ((c as u8) - 32) as u8 as char
}

/// Whether `c` is an ASCII character.
pub open spec fn is_ascii_char(c: char) -> bool {
    (c as u32) < 128
}

/// What upper-casing `c` yields: stated for ASCII characters (only lowercase
/// letters change), named for any other character.
pub open spec fn upper_chars(c: char) -> Seq<char> {
    if 'a' <= c <= 'z' {
        seq![upper_ascii(c)]
    } else if is_ascii_char(c) {
        seq![c]
    } else {
        upper_of(c)
    }
}

/// Whether position `i` of `s` starts a word: the first position, or one right
/// after a hyphen.
pub open spec fn starts_word(s: Seq<char>, i: int) -> bool {
    i == 0 || s[i - 1] == '-'
}

/// What position `i` of the kebab-case text `s` turns into in title case: a hyphen
/// becomes a space, the first character of a word is upper-cased, any other
/// character is kept.
pub open spec fn title_piece(s: Seq<char>, i: int) -> Seq<char> {
    if s[i] == '-' {
        seq![' ']
    } else if starts_word(s, i) {
        upper_chars(s[i])
    } else {
        seq![s[i]]
    }
}

/// The title-case form of kebab-case text: split on `-`, upper-case the first
/// character of each part, join the parts with single spaces. An empty part stays
/// empty, so `--` becomes two spaces.
pub open spec fn title_of(s: Seq<char>) -> Seq<char>
    decreases s.len(),
{
    if s.len() == 0 {
        seq![]
    } else {
        title_of(s.drop_last()) + title_piece(s, s.len() - 1)
    }
}

/// The title-case form of a book identifier, for display.
pub fn kebab_to_title_case(s: &str) -> (r: String)
    ensures
        r@ == title_of(s@),
{
    let cs = chars_of(s);
    let mut out: Vec<char> = Vec::new();
    let mut i: usize = 0;
    while i < cs.len()
        invariant
            cs@ == s@,
            i <= cs@.len(),
            out@ == title_of(cs@.subrange(0, i as int)),
        decreases cs@.len() - i,
    {
        let c = cs[i];
        let ghost before = cs@.subrange(0, i as int);
        let ghost upto = cs@.subrange(0, i + 1 as int);
        if c == '-' {
            out.push(' ');
        } else if i == 0 || cs[i - 1] == '-' {
            let up = uppercase(c);
            push_all(&mut out, &up);
        } else {
            out.push(c);
        }
        assert(upto.drop_last() == before);
        i = i + 1;
    }
    assert(cs@.subrange(0, cs@.len() as int) == cs@);
    string_of(&out)
}

} // verus!

verus! {

/// Whether `c` is an ASCII uppercase letter.
pub open spec fn is_upper_ascii(c: char) -> bool {
    'A' <= c <= 'Z'
}

/// What a character of title-case text turns into in kebab case: a space becomes a
/// hyphen, an ASCII uppercase letter becomes its lowercase letter, any other
/// character is kept.
pub open spec fn kebab_char(c: char) -> char {
    if c == ' ' {
        '-'
    } else if is_upper_ascii(c) {
        ((c as u8) + 32) as u8 as char
    } else {
        c
    }
}

/// The kebab-case form of title-case text, one character for one.
pub open spec fn kebab_of(t: Seq<char>) -> Seq<char> {
    t.map_values(|c: char| kebab_char(c))
}

/// The kebab-case form of a displayed title: spaces become hyphens and ASCII
/// uppercase letters become lowercase.
pub fn title_to_kebab(t: &str) -> (r: String)
    ensures
        r@ == kebab_of(t@),
{
    let cs = chars_of(t);
    let mut out: Vec<char> = Vec::new();
    let mut i: usize = 0;
    while i < cs.len()
        invariant
            cs@ == t@,
            i <= cs@.len(),
            out@ == kebab_of(cs@.subrange(0, i as int)),
        decreases cs@.len() - i,
    {
        let c = cs[i];
        if c == ' ' {
            out.push('-');
        } else if 'A' <= c && c <= 'Z' {
            out.push(((c as u8) + 32) as char);
        } else {
            out.push(c);
        }
        assert(kebab_of(cs@.subrange(0, i + 1 as int)) =~= kebab_of(cs@.subrange(0, i as int)).push(kebab_char(c)));
        i = i + 1;
    }
    assert(cs@.subrange(0, cs@.len() as int) == cs@);
    string_of(&out)
}

} // verus!

verus! {

/// Whether `s` is made of ASCII lowercase letters and hyphens only.
pub open spec fn is_lower_kebab(s: Seq<char>) -> bool {
    forall|i: int| 0 <= i < s.len() ==> ('a' <= #[trigger] s[i] <= 'z' || s[i] == '-')
}

proof fn lemma_kebab_of_concat(x: Seq<char>, y: Seq<char>)
    ensures
        kebab_of(x + y) == kebab_of(x) + kebab_of(y),
{
    assert(kebab_of(x + y) =~= kebab_of(x) + kebab_of(y));
}

/// Title case undone: turning the title-case form of lowercase kebab-case text back
/// into kebab case gives the text again, so title-casing that gives the same title.
pub proof fn lemma_title_round_trip(s: Seq<char>)
    requires
        is_lower_kebab(s),
    ensures
        kebab_of(title_of(s)) == s,
        title_of(kebab_of(title_of(s))) == title_of(s),
    decreases s.len(),
{
    if s.len() > 0 {
        let p = s.drop_last();
        let n = s.len() - 1;
        assert(is_lower_kebab(p)) by {
            assert forall|i: int| 0 <= i < p.len() implies ('a' <= #[trigger] p[i] <= 'z' || p[i] == '-') by {
                assert(p[i] == s[i]);
            }
        }
        lemma_title_round_trip(p);
        lemma_kebab_of_concat(title_of(p), title_piece(s, n));
        let c = s[n];
        assert('a' <= s[n] <= 'z' || s[n] == '-');
        if c != '-' && starts_word(s, n) {
            assert(kebab_of(upper_chars(c)) =~= seq![kebab_char(upper_ascii(c))]);
        } else {
            assert(kebab_of(title_piece(s, n)) =~= seq![c]);
        }
        assert(p.push(c) =~= s);
    }
}

/// Splitting at one hyphen: the part before it and the part after it are
/// title-cased on their own, and the hyphen becomes one space.
pub proof fn lemma_title_split(a: Seq<char>, b: Seq<char>)
    ensures
        title_of(a + seq!['-'] + b) == title_of(a) + seq![' '] + title_of(b),
    decreases b.len(),
{
    let s = a + seq!['-'] + b;
    if b.len() == 0 {
        assert(s.drop_last() =~= a);
        assert(a + seq!['-'] + b =~= a + seq!['-']);
    } else {
        let bp = b.drop_last();
        lemma_title_split(a, bp);
        assert(s.drop_last() =~= a + seq!['-'] + bp);
        assert(title_piece(s, s.len() - 1) == title_piece(b, b.len() - 1));
        assert(title_of(s) =~= title_of(a) + seq![' '] + title_of(b));
    }
}

/// A double hyphen stands for an empty part: it becomes two spaces, and the parts
/// on either side are title-cased on their own.
pub proof fn lemma_title_double_hyphen(a: Seq<char>, b: Seq<char>)
    ensures
        title_of(a + seq!['-', '-'] + b) == title_of(a) + seq![' ', ' '] + title_of(b),
{
    let rest = seq!['-'] + b;
    lemma_title_split(a, rest);
    lemma_title_split(seq![], b);
    assert(seq![] + seq!['-'] + b =~= rest);
    assert(title_of(Seq::<char>::empty()) == Seq::<char>::empty());
    assert(a + seq!['-', '-'] + b =~= a + seq!['-'] + rest);
    assert(title_of(a) + seq![' '] + (Seq::<char>::empty() + seq![' '] + title_of(b)) =~= title_of(a) + seq![' ', ' '] + title_of(b));
}

} // verus!

verus! {

/// Whether every character of `s` is ASCII.
pub open spec fn is_ascii_text(s: Seq<char>) -> bool {
    forall|i: int| 0 <= i < s.len() ==> is_ascii_char(#[trigger] s[i])
}

/// The character that position `i` of ASCII kebab-case text turns into.
pub open spec fn title_char(s: Seq<char>, i: int) -> char {
    if s[i] == '-' {
        ' '
    } else if starts_word(s, i) && 'a' <= s[i] <= 'z' {
        upper_ascii(s[i])
    } else {
        s[i]
    }
}

/// Title case of ASCII text, character by character: the length is kept, each
/// hyphen becomes a space, a lowercase letter that starts a word becomes its
/// uppercase letter, and every other character is kept.
pub proof fn lemma_title_ascii(s: Seq<char>)
    requires
        is_ascii_text(s),
    ensures
        title_of(s).len() == s.len(),
        forall|i: int| 0 <= i < s.len() ==> #[trigger] title_of(s)[i] == title_char(s, i),
    decreases s.len(),
{
    if s.len() > 0 {
        let p = s.drop_last();
        let n = s.len() - 1;
        assert(is_ascii_text(p)) by {
            assert forall|i: int| 0 <= i < p.len() implies is_ascii_char(#[trigger] p[i]) by {
                assert(p[i] == s[i]);
            }
        }
        lemma_title_ascii(p);
        assert(is_ascii_char(s[n]));
        assert(title_piece(s, n) =~= seq![title_char(s, n)]);
        assert forall|i: int| 0 <= i < s.len() implies #[trigger] title_of(s)[i] == title_char(s, i) by {
            if i < n {
                assert(title_of(s)[i] == title_of(p)[i]);
                assert(p[i] == s[i]);
                if i > 0 {
                    assert(p[i - 1] == s[i - 1]);
                }
            }
        }
    }
}

/// In the title case of ASCII text without spaces, the spaces stand exactly where
/// the hyphens stood, and no hyphen is left; so the parts between separators
/// match one for one, an empty part (from `--`, or a hyphen at either end) staying
/// empty.
pub proof fn lemma_title_separators(s: Seq<char>)
    requires
        is_ascii_text(s),
        !s.contains(' '),
    ensures
        title_of(s).len() == s.len(),
        forall|i: int| 0 <= i < s.len() ==> (#[trigger] title_of(s)[i] == ' ' <==> s[i] == '-'),
        !title_of(s).contains('-'),
{
    lemma_title_ascii(s);
    assert forall|i: int| 0 <= i < s.len() implies (#[trigger] title_of(s)[i] == ' ' <==> s[i] == '-') by {
        if s[i] != '-' && title_of(s)[i] == ' ' {
            assert(s[i] != ' ');
        }
    }
    if title_of(s).contains('-') {
        let i = choose|i: int| 0 <= i < title_of(s).len() && title_of(s)[i] == '-';
        assert(title_of(s)[i] == title_char(s, i));
    }
}

} // verus!
