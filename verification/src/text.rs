use vstd::prelude::*;

verus! {

/// Appends one character to a string.
///
/// Calls `String::push`; the contract claims that the string afterwards is the
/// old string followed by `c`, as std documents.
#[verifier::external_body]
pub(crate) fn push_char(s: &mut String, c: char)
    ensures
        final(s)@ == old(s)@.push(c),
{
    s.push(c);
}

/// The characters of `s`, in order.
pub fn chars_of(s: &str) -> (chars: Vec<char>)
    ensures
        chars@ == s@,
{
    let mut chars: Vec<char> = Vec::new();
    for c in it: s.chars()
        invariant
            chars@ == it.seq().take(it.index() as int),
            it.seq() == s@,
    {
        chars.push(c);
    }
    chars
}

/// ASCII lower-casing of one character: `A`..`Z` become `a`..`z`, every other
/// character is kept (what `char::to_ascii_lowercase` does).
pub open spec fn ascii_lower(c: char) -> char {
    if 65 <= c as u32 <= 90 {
        (((c as u32) + 32) as u8) as char
    } else {
        c
    }
}

/// ASCII lower-casing of a whole text (what `str::to_ascii_lowercase` does).
pub open spec fn lower_text(s: Seq<char>) -> Seq<char> {
    s.map_values(|c: char| ascii_lower(c))
}

/// ASCII lower-casing maps each upper-case letter `A`..`Z` to the letter 32
/// code points above it (`a`..`z`) and keeps every other character; a
/// lower-cased text has the same length and is lower-cased position by
/// position.
pub proof fn lemma_ascii_lower_letters(c: char, s: Seq<char>)
    ensures
        65 <= c as u32 <= 90 ==> ascii_lower(c) as u32 == c as u32 + 32,
        !(65 <= c as u32 <= 90) ==> ascii_lower(c) == c,
        'A' <= c <= 'Z' ==> 'a' <= ascii_lower(c) <= 'z',
        ascii_lower('A') == 'a',
        ascii_lower('Z') == 'z',
        lower_text(s).len() == s.len(),
        forall|i: int| 0 <= i < s.len() ==> #[trigger] lower_text(s)[i] == ascii_lower(s[i]),
{
    if 65 <= c as u32 <= 90 {
        vstd::utf8::char_u32_cast(c, c as u32);
    }
}

/// `char::to_ascii_lowercase`.
pub fn ascii_lower_char(c: char) -> (lower: char)
    ensures
        lower == ascii_lower(c),
{
    let u = c as u32;
    if 65 <= u && u <= 90 {
        ((u + 32) as u8) as char
    } else {
        c
    }
}

/// `str::to_ascii_lowercase`: the text with `A`..`Z` replaced by `a`..`z`.
pub fn to_ascii_lowercase(s: &str) -> (lower: String)
    ensures
        lower@ == lower_text(s@),
{
    let chars = chars_of(s);
    let mut lower = String::new();
    let mut i: usize = 0;
    while i < chars.len()
        invariant
            chars@ == s@,
            i <= chars@.len(),
            lower@ == lower_text(s@.take(i as int)),
        decreases chars@.len() - i,
    {
        let c = ascii_lower_char(chars[i]);
        push_char(&mut lower, c);
        assert(lower_text(s@.take(i + 1)) == lower_text(s@.take(i as int)).push(c));
        i = i + 1;
    }
    assert(s@.take(i as int) == s@);
    lower
}

/// Unicode `White_Space` (what `char::is_whitespace` tests, and what
/// `str::split_whitespace` splits on).
pub open spec fn is_whitespace(c: char) -> bool {
    let u = c as u32;
    ||| 0x09 <= u <= 0x0D
    ||| u == 0x20
    ||| u == 0x85
    ||| u == 0xA0
    ||| u == 0x1680
    ||| 0x2000 <= u <= 0x200A
    ||| u == 0x2028
    ||| u == 0x2029
    ||| u == 0x202F
    ||| u == 0x205F
    ||| u == 0x3000
}

/// On ASCII, whitespace is exactly the space and the controls tab, line
/// feed, vertical tab, form feed and carriage return; letters, digits and
/// punctuation are never whitespace.
pub proof fn lemma_ascii_whitespace(c: char)
    ensures
        (c as u32) < 128 ==> (is_whitespace(c) <==> (c == ' ' || '\t' <= c <= '\r')),
        ('a' <= c <= 'z' || 'A' <= c <= 'Z' || '0' <= c <= '9') ==> !is_whitespace(c),
        is_whitespace('\u{00A0}') && is_whitespace('\u{3000}'),
{
}

/// `char::is_whitespace`.
pub fn is_whitespace_char(c: char) -> (ws: bool)
    ensures
        ws == is_whitespace(c),
{
    let u = c as u32;
    (0x09 <= u && u <= 0x0D) || u == 0x20 || u == 0x85 || u == 0xA0 || u == 0x1680 || (0x2000
        <= u && u <= 0x200A) || u == 0x2028 || u == 0x2029 || u == 0x202F || u == 0x205F || u
        == 0x3000
}

/// Whether `needle` occurs in `hay` at position `at`.
pub open spec fn occurs_at(hay: Seq<char>, needle: Seq<char>, at: int) -> bool {
    0 <= at && at + needle.len() <= hay.len() && hay.subrange(at, at + needle.len()) == needle
}

/// Whether `needle` is a substring of `hay` (what `str::contains` with a
/// string pattern tests).
pub open spec fn contains_text(hay: Seq<char>, needle: Seq<char>) -> bool {
    exists|at: int| occurs_at(hay, needle, at)
}

/// `str::contains` with a string pattern, on character sequences.
pub fn contains_chars(hay: &Vec<char>, needle: &Vec<char>) -> (found: bool)
    ensures
        found == contains_text(hay@, needle@),
{
    if needle.len() > hay.len() {
        return false;
    }
    if needle.len() == 0 {
        assert(hay@.subrange(0, 0) =~= needle@);
        assert(occurs_at(hay@, needle@, 0));
        return true;
    }
    let last = hay.len() - needle.len();
    let mut at: usize = 0;
    while at <= last
        invariant
            last == hay@.len() - needle@.len(),
            1 <= needle@.len() <= hay@.len() <= usize::MAX,
            forall|p: int| 0 <= p < at ==> !occurs_at(hay@, needle@, p),
        decreases last + 1 - at,
    {
        let mut k: usize = 0;
        let mut same = true;
        while k < needle.len()
            invariant
                at <= last,
                last == hay@.len() - needle@.len(),
                1 <= needle@.len() <= hay@.len() <= usize::MAX,
                k <= needle@.len(),
                same == (forall|q: int| 0 <= q < k ==> hay@[at + q] == needle@[q]),
            decreases needle@.len() - k,
        {
            if hay[at + k] != needle[k] {
                same = false;
            }
            k = k + 1;
        }
        if same {
            assert(hay@.subrange(at as int, at + needle@.len()) =~= needle@);
            assert(occurs_at(hay@, needle@, at as int));
            return true;
        }
        assert(!occurs_at(hay@, needle@, at as int)) by {
            if occurs_at(hay@, needle@, at as int) {
                let q = choose|q: int| 0 <= q < needle@.len() && hay@[at + q] != needle@[q];
                assert(hay@.subrange(at as int, at + needle@.len())[q] == hay@[at + q]);
            }
        }
        at = at + 1;
    }
    assert forall|p: int| !occurs_at(hay@, needle@, p) by {
        if 0 <= p && p + needle@.len() <= hay@.len() {
            assert(p < at);
        }
    }
    false
}

} // verus!
