use vstd::prelude::*;
use vstd::utf8::{encode_scalar, encode_utf8};
use std::collections::HashSet;

use crate::text::{ascii_lower, ascii_lower_char, chars_of, is_whitespace, is_whitespace_char, lower_text};

verus! {

broadcast use vstd::std_specs::hash::group_hash_axioms;

/// Size of the character set `abcdefghijklmnopqrstuvwxyz0123456789 _-./`.
pub const CHARSET_LEN: usize = 41;

/// Number of character-frequency dimensions of an embedding.
pub const CHAR_DIMS: usize = 40;

/// Number of bigram buckets of an embedding.
pub const BIGRAM_BUCKETS: usize = 16;

/// Position of a byte in the character set
/// `abcdefghijklmnopqrstuvwxyz0123456789 _-./`, or the last position (40)
/// for a byte that is not in it.
pub open spec fn charset_index(b: u8) -> int {
    if 97 <= b <= 122 {
        b - 97
    } else if 48 <= b <= 57 {
        b - 48 + 26
    } else if b == 32 {
        36
    } else if b == 95 {
        37
    } else if b == 45 {
        38
    } else if b == 46 {
        39
    } else {
        40
    }
}

/// Character-set index of a character: the position of its ASCII lower-case
/// form in the character set, or the last position (40) for a character
/// whose lower-case form is not in the set (every non-ASCII character
/// included).
pub open spec fn char_index(c: char) -> int {
    let l = ascii_lower(c) as u32;
    if l < 128 {
        charset_index(l as u8)
    } else {
        40
    }
}

/// Characters per frequency bucket: the character-set size divided by the
/// number of frequency dimensions, rounded up.
pub open spec fn bucket_width() -> int {
    (CHARSET_LEN + CHAR_DIMS - 1) / CHAR_DIMS as int
}

/// Frequency dimension of a character.
pub open spec fn char_bucket(c: char) -> int {
    let b = char_index(c) / bucket_width();
    if b < CHAR_DIMS - 1 {
        b
    } else {
        CHAR_DIMS - 1
    }
}

/// Bigram bucket of two adjacent characters, from their code points.
pub open spec fn bigram_bucket(a: char, b: char) -> int {
    ((a as u32) * 31 + (b as u32)) % BIGRAM_BUCKETS as int
}

/// Number of words: maximal runs of non-whitespace characters (what
/// `str::split_whitespace().count()` gives).
pub open spec fn word_count(t: Seq<char>) -> nat
    decreases t.len(),
{
    if t.len() == 0 {
        0
    } else {
        word_count(t.drop_last()) + if !is_whitespace(t.last()) && (t.len() == 1 || is_whitespace(
            t[t.len() - 2],
        )) {
            1nat
        } else {
            0nat
        }
    }
}

/// Bytes of the UTF-8 encoding of a character.
pub open spec fn utf8_width(c: char) -> nat {
    encode_scalar(c as u32).len()
}

/// Total UTF-8 length of the words of a text, i.e. of its non-whitespace
/// characters (the sum of `len()` over `split_whitespace`).
pub open spec fn word_bytes(t: Seq<char>) -> nat
    decreases t.len(),
{
    if t.len() == 0 {
        0
    } else {
        word_bytes(t.drop_last()) + if is_whitespace(t.last()) {
            0nat
        } else {
            utf8_width(t.last())
        }
    }
}

/// Whether a character is a separator (`' '` or `'-'`).
pub open spec fn is_separator(c: char) -> bool {
    c == ' ' || c == '-'
}

/// Number of separator characters.
pub open spec fn separator_count(t: Seq<char>) -> nat
    decreases t.len(),
{
    if t.len() == 0 {
        0
    } else {
        separator_count(t.drop_last()) + if is_separator(t.last()) {
            1nat
        } else {
            0nat
        }
    }
}

/// Whether a character is an ASCII digit.
pub open spec fn is_ascii_digit(c: char) -> bool {
    48 <= c as u32 <= 57
}

/// Whether a character marks a path (`'/'` or `'.'`).
pub open spec fn is_path_char(c: char) -> bool {
    c == '/' || c == '.'
}

/// Number of distinct characters of a text.
pub open spec fn distinct_chars(t: Seq<char>) -> nat {
    t.map_values(|c: char| c as u32).to_set().len()
}

/// The integer features of an intent from which its embedding is computed.
/// All of them are taken over the ASCII lower-cased intent.
pub struct IntentFeatures {
    /// Number of characters.
    pub char_count: usize,
    /// Frequency dimension of each character, in order.
    pub char_buckets: Vec<usize>,
    /// Bigram bucket of each pair of adjacent characters, in order (empty
    /// for fewer than two characters).
    pub bigram_buckets: Vec<usize>,
    /// Number of whitespace-separated words.
    pub words: usize,
    /// Total UTF-8 length of the words.
    pub word_bytes: usize,
    /// Number of distinct characters.
    pub distinct: usize,
    /// Whether some character is an ASCII digit.
    pub has_digit: bool,
    /// Whether some character is `'/'` or `'.'`.
    pub has_path: bool,
    /// Number of `' '` and `'-'` characters.
    pub separators: usize,
}

/// The features of a text, as the embedding reads them.
pub open spec fn features_match(f: IntentFeatures, t: Seq<char>) -> bool {
    &&& f.char_count == t.len()
    &&& f.char_buckets@ == Seq::new(t.len(), |i: int| char_bucket(t[i]) as usize)
    &&& f.bigram_buckets@ == Seq::new(
        if t.len() >= 2 {
            (t.len() - 1) as nat
        } else {
            0nat
        },
        |i: int| bigram_bucket(t[i], t[i + 1]) as usize,
    )
    &&& f.words == word_count(t)
    &&& f.word_bytes == word_bytes(t)
    &&& f.distinct == distinct_chars(t)
    &&& f.has_digit == (exists|i: int| 0 <= i < t.len() && is_ascii_digit(t[i]))
    &&& f.has_path == (exists|i: int| 0 <= i < t.len() && is_path_char(t[i]))
    &&& f.separators == separator_count(t)
}

/// Every character falls in one of the frequency dimensions and every pair
/// of characters in one of the bigram buckets, so the embedding indices that
/// the features give are in range.
pub proof fn lemma_feature_indices_in_range(a: char, b: char)
    ensures
        0 <= char_index(a) < CHARSET_LEN,
        0 <= char_bucket(a) < CHAR_DIMS,
        0 <= bigram_bucket(a, b) < BIGRAM_BUCKETS,
{
}

/// The empty intent has no features: no characters, buckets, words, bytes,
/// digits, path characters or separators (so its embedding is all zero).
pub proof fn lemma_empty_intent_has_no_features(f: IntentFeatures)
    requires
        features_match(f, lower_text(Seq::<char>::empty())),
    ensures
        f.char_count == 0,
        f.char_buckets@.len() == 0,
        f.bigram_buckets@.len() == 0,
        f.words == 0,
        f.word_bytes == 0,
        f.distinct == 0,
        !f.has_digit,
        !f.has_path,
        f.separators == 0,
{
    let t = lower_text(Seq::<char>::empty());
    assert(t.map_values(|c: char| c as u32).to_set() =~= Set::<u32>::empty());
}

/// The character-set index in plain terms: `a`..`z` (and `A`..`Z`, which
/// are lower-cased first) take 0..25, `0`..`9` take 26..35, then `' '` 36,
/// `'_'` 37, `'-'` 38, `'.'` 39, `'/'` 40, and every other character the last
/// slot 40.
pub proof fn lemma_char_index_positions(c: char)
    ensures
        'a' <= c <= 'z' ==> char_index(c) == c as u32 - 97,
        'A' <= c <= 'Z' ==> char_index(c) == c as u32 - 65,
        '0' <= c <= '9' ==> char_index(c) == c as u32 - 22,
        c == ' ' ==> char_index(c) == 36,
        c == '_' ==> char_index(c) == 37,
        c == '-' ==> char_index(c) == 38,
        c == '.' ==> char_index(c) == 39,
        c == '/' ==> char_index(c) == 40,
        !('a' <= c <= 'z' || 'A' <= c <= 'Z' || '0' <= c <= '9' || c == ' ' || c == '_' || c == '-'
            || c == '.' || c == '/') ==> char_index(c) == 40,
        0 <= char_index(c) < 41,
{
    if 'A' <= c <= 'Z' {
        vstd::utf8::char_u32_cast(c, c as u32);
    }
}

proof fn lemma_separator_count_is_filter(t: Seq<char>)
    ensures
        separator_count(t) == t.filter(|c: char| c == ' ' || c == '-').len(),
    decreases t.len(),
{
    reveal(Seq::filter);
    if t.len() > 0 {
        lemma_separator_count_is_filter(t.drop_last());
    }
}

/// What the features say about a text, in plain terms: one frequency bucket
/// per character, two characters of the set per bucket (`a`,`b` share 0,
/// ..., `'/'` and every character outside the set are in 20); one bigram
/// bucket per adjacent pair, `(31 * first + second) mod 16` over code points;
/// the path flag is set exactly when the text has a `'/'` or a `'.'`, the
/// digit flag exactly when it has one of `0`..`9`; the separators are the
/// `' '` and `'-'` characters.
pub proof fn lemma_features_meaning(f: IntentFeatures, t: Seq<char>)
    requires
        features_match(f, t),
    ensures
        f.char_count == t.len(),
        f.char_buckets@.len() == t.len(),
        forall|i: int|
            0 <= i < t.len() && 'a' <= t[i] <= 'z' ==> #[trigger] f.char_buckets@[i] == (t[i] as u32
                - 97) / 2,
        forall|i: int|
            0 <= i < t.len() && '0' <= t[i] <= '9' ==> #[trigger] f.char_buckets@[i] == (t[i] as u32
                - 22) / 2,
        forall|i: int|
            0 <= i < t.len() && (t[i] == ' ' || t[i] == '_') ==> #[trigger] f.char_buckets@[i] == 18,
        forall|i: int|
            0 <= i < t.len() && (t[i] == '-' || t[i] == '.') ==> #[trigger] f.char_buckets@[i] == 19,
        forall|i: int|
            0 <= i < t.len() && !('a' <= t[i] <= 'z' || 'A' <= t[i] <= 'Z' || '0' <= t[i] <= '9'
                || t[i] == ' ' || t[i] == '_' || t[i] == '-' || t[i] == '.') ==> #[trigger] f.char_buckets@[i]
                == 20,
        f.bigram_buckets@.len() == if t.len() >= 2 {
            t.len() - 1
        } else {
            0
        },
        forall|i: int|
            0 <= i < t.len() - 1 ==> #[trigger] f.bigram_buckets@[i] == ((t[i] as u32) * 31 + (t[i
                + 1] as u32)) % 16,
        f.has_path == (exists|i: int| 0 <= i < t.len() && (#[trigger] t[i] == '/' || t[i] == '.')),
        f.has_digit == (exists|i: int| 0 <= i < t.len() && '0' <= #[trigger] t[i] <= '9'),
        f.separators == t.filter(|c: char| c == ' ' || c == '-').len(),
{
    assert forall|i: int| 0 <= i < t.len() implies #[trigger] f.char_buckets@[i] == char_index(t[i])
        / 2 by {
        lemma_char_index_positions(t[i]);
    }
    assert forall|i: int|
        0 <= i < t.len() && !('a' <= t[i] <= 'z' || 'A' <= t[i] <= 'Z' || '0' <= t[i] <= '9' || t[i]
            == ' ' || t[i] == '_' || t[i] == '-' || t[i] == '.') implies #[trigger] f.char_buckets@[i]
        == 20 by {
        lemma_char_index_positions(t[i]);
    }
    assert forall|i: int|
        0 <= i < t.len() && ('a' <= t[i] <= 'z' || '0' <= t[i] <= '9' || t[i] == ' ' || t[i] == '_'
            || t[i] == '-' || t[i] == '.') implies #[trigger] f.char_buckets@[i] == char_index(t[i])
        / 2 by {
        lemma_char_index_positions(t[i]);
    }
    assert forall|i: int| 0 <= i < t.len() && '0' <= t[i] <= '9' implies #[trigger] is_ascii_digit(t[i]) by {}
    assert forall|i: int| 0 <= i < t.len() && #[trigger] is_ascii_digit(t[i]) implies '0' <= t[i] <= '9' by {
        vstd::utf8::char_u32_cast(t[i], t[i] as u32);
    }
    lemma_separator_count_is_filter(t);
}

/// Distinct characters are the size of the set of characters of the text,
/// at most the text's length.
pub proof fn lemma_distinct_chars_is_set_size(t: Seq<char>)
    ensures
        distinct_chars(t) == t.to_set().len(),
        distinct_chars(t) <= t.len(),
{
    let f = |c: char| c as u32;
    t.lemma_to_set_map_commutes(f);
    vstd::seq_lib::seq_to_set_is_finite(t);
    assert(vstd::relations::injective_on(f, t.to_set())) by {
        assert forall|x: char, y: char|
            t.to_set().contains(x) && t.to_set().contains(y) && #[trigger] f(x) == #[trigger] f(y)
            implies x == y by {
            vstd::utf8::char_u32_cast(x, x as u32);
            vstd::utf8::char_u32_cast(y, y as u32);
        }
    }
    vstd::set_lib::lemma_map_size(t.to_set(), t.map_values(f).to_set(), f);
    t.lemma_cardinality_of_set();
}

/// Words and their bytes add up over a split at whitespace: joining two
/// texts with a space adds their word counts and their word bytes; a
/// non-empty text without whitespace is one word whose bytes are its whole
/// UTF-8 length.
pub proof fn lemma_words_split(a: Seq<char>, b: Seq<char>)
    ensures
        word_count(a + seq![' '] + b) == word_count(a) + word_count(b),
        word_bytes(a + seq![' '] + b) == word_bytes(a) + word_bytes(b),
        a.len() > 0 && (forall|i: int| 0 <= i < a.len() ==> !is_whitespace(#[trigger] a[i]))
            ==> word_count(a) == 1 && word_bytes(a) == encode_utf8(a).len(),
    decreases b.len(),
{
    let ab = a + seq![' '] + b;
    if b.len() == 0 {
        assert(ab.drop_last() =~= a);
    } else {
        lemma_words_split(a, b.drop_last());
        assert(ab.drop_last() =~= a + seq![' '] + b.drop_last());
        if b.len() >= 2 {
            assert(ab[ab.len() - 2] == b[b.len() - 2]);
        } else {
            assert(ab[ab.len() - 2] == ' ');
        }
    }
    if a.len() > 0 && (forall|i: int| 0 <= i < a.len() ==> !is_whitespace(#[trigger] a[i])) {
        lemma_one_word(a);
    }
}

proof fn lemma_one_word(a: Seq<char>)
    requires
        a.len() > 0,
        forall|i: int| 0 <= i < a.len() ==> !is_whitespace(#[trigger] a[i]),
    ensures
        word_count(a) == 1,
        word_bytes(a) == encode_utf8(a).len(),
    decreases a.len(),
{
    let init = a.drop_last();
    assert(!is_whitespace(a[a.len() - 1]));
    if init.len() > 0 {
        assert forall|i: int| 0 <= i < init.len() implies !is_whitespace(#[trigger] init[i]) by {
            assert(init[i] == a[i]);
        }
        lemma_one_word(init);
        assert(!is_whitespace(a[a.len() - 2]));
    }
    assert(a =~= init + seq![a.last()]);
    lemma_utf8_len_concat(init, seq![a.last()]);
    assert(seq![a.last()].drop_first() =~= Seq::<char>::empty());
    assert(encode_utf8(Seq::<char>::empty()).len() == 0);
    assert(encode_utf8(seq![a.last()]).len() == utf8_width(a.last()));
    assert(a.drop_last() == init);
    if init.len() == 0 {
        assert(word_count(init) == 0);
        assert(word_bytes(init) == 0);
        assert(encode_utf8(init).len() == 0);
    }
    assert(word_count(a) == word_count(init) + if a.len() == 1 || is_whitespace(a[a.len() - 2]) {
        1nat
    } else {
        0nat
    });
}

/// The character-set position of a character (see `char_index`).
pub fn char_index_of(c: char) -> (index: usize)
    ensures
        index == char_index(c),
        index < CHARSET_LEN,
{
    let l = ascii_lower_char(c) as u32;
    if l >= 128 {
        return 40;
    }
    let b = l as u8;
    if 97 <= b && b <= 122 {
        (b - 97) as usize
    } else if 48 <= b && b <= 57 {
        (b - 48 + 26) as usize
    } else if b == 32 {
        36
    } else if b == 95 {
        37
    } else if b == 45 {
        38
    } else if b == 46 {
        39
    } else {
        40
    }
}

fn utf8_width_of(c: char) -> (w: usize)
    ensures
        w == utf8_width(c),
{
    let u = c as u32;
    proof {
        vstd::utf8::char_is_scalar(c);
    }
    if u <= 0x7F {
        1
    } else if u <= 0x7FF {
        2
    } else if u <= 0xFFFF {
        3
    } else {
        4
    }
}

/// UTF-8 length is additive over concatenation.
proof fn lemma_utf8_len_concat(a: Seq<char>, b: Seq<char>)
    ensures
        encode_utf8(a + b).len() == encode_utf8(a).len() + encode_utf8(b).len(),
    decreases a.len(),
{
    if a.len() > 0 {
        assert((a + b).drop_first() =~= a.drop_first() + b);
        lemma_utf8_len_concat(a.drop_first(), b);
    } else {
        assert(a + b =~= b);
    }
}

/// ASCII lower-casing keeps the UTF-8 length.
proof fn lemma_lower_keeps_utf8_len(s: Seq<char>)
    ensures
        encode_utf8(lower_text(s)).len() == encode_utf8(s).len(),
    decreases s.len(),
{
    if s.len() > 0 {
        assert(lower_text(s).drop_first() =~= lower_text(s.drop_first()));
        lemma_lower_keeps_utf8_len(s.drop_first());
    }
}

/// The word bytes of a prefix are bounded by the prefix's UTF-8 length.
proof fn lemma_word_bytes_bound(t: Seq<char>)
    ensures
        word_bytes(t) <= encode_utf8(t).len(),
    decreases t.len(),
{
    if t.len() > 0 {
        lemma_word_bytes_bound(t.drop_last());
        assert(t =~= t.drop_last() + seq![t.last()]);
        lemma_utf8_len_concat(t.drop_last(), seq![t.last()]);
        assert(seq![t.last()].drop_first() =~= Seq::<char>::empty());
    }
}

/// Computes the integer features of an intent (over its ASCII lower-cased
/// text) from which `embed_intent` derives the embedding.
pub fn intent_features(intent: &str) -> (f: IntentFeatures)
    ensures
        features_match(f, lower_text(intent@)),
{
    let bytes_len = intent.as_bytes().len();
    let chars = chars_of(intent);
    let n = chars.len();
    let ghost t = lower_text(intent@);
    proof {
        lemma_lower_keeps_utf8_len(intent@);
    }
    let width = (CHARSET_LEN + CHAR_DIMS - 1) / CHAR_DIMS;
    let mut char_buckets: Vec<usize> = Vec::new();
    let mut bigram_buckets: Vec<usize> = Vec::new();
    let mut words: usize = 0;
    let mut word_byte_total: usize = 0;
    let mut has_digit = false;
    let mut has_path = false;
    let mut separators: usize = 0;
    let mut seen: HashSet<u32> = HashSet::new();
    let mut prev_ws = true;
    let mut i: usize = 0;
    while i < n
        invariant
            n == chars@.len(),
            chars@ == intent@,
            t == lower_text(intent@),
            t.len() == n,
            bytes_len == encode_utf8(t).len(),
            width == bucket_width(),
            0 <= i <= n,
            char_buckets@ == Seq::new(i as nat, |k: int| char_bucket(t[k]) as usize),
            bigram_buckets@ == Seq::new(
                if i >= 1 {
                    (i - 1) as nat
                } else {
                    0nat
                },
                |k: int| bigram_bucket(t[k], t[k + 1]) as usize,
            ),
            words == word_count(t.take(i as int)),
            words <= i,
            word_byte_total == word_bytes(t.take(i as int)),
            has_digit == (exists|k: int| 0 <= k < i && is_ascii_digit(t[k])),
            has_path == (exists|k: int| 0 <= k < i && is_path_char(t[k])),
            separators == separator_count(t.take(i as int)),
            separators <= i,
            seen@ == t.take(i as int).map_values(|c: char| c as u32).to_set(),
            prev_ws == (i == 0 || is_whitespace(t[i - 1])),
        decreases n - i,
    {
        let c = ascii_lower_char(chars[i]);
        assert(c == t[i as int]);
        let ghost pre = t.take(i as int);
        assert(t.take(i + 1) =~= pre.push(c));
        assert(t.take(i + 1).drop_last() =~= pre);
        let idx = char_index_of(c);
        let bucket = if idx / width < CHAR_DIMS - 1 {
            idx / width
        } else {
            CHAR_DIMS - 1
        };
        char_buckets.push(bucket);
        if i >= 1 {
            let p = ascii_lower_char(chars[i - 1]);
            assert(p == t[i - 1]);
            let h = ((p as u32 as usize) * 31 + (c as u32 as usize)) % BIGRAM_BUCKETS;
            bigram_buckets.push(h);
        }
        let ws = is_whitespace_char(c);
        if !ws && prev_ws {
            words = words + 1;
        }
        if !ws {
            proof {
                lemma_word_bytes_bound(t.take(i + 1));
                lemma_utf8_len_concat(t.take(i + 1), t.skip(i + 1));
                assert(t.take(i + 1) + t.skip(i + 1) =~= t);
            }
            word_byte_total = word_byte_total + utf8_width_of(c);
        }
        let u = c as u32;
        if 48 <= u && u <= 57 {
            has_digit = true;
        }
        if c == '/' || c == '.' {
            has_path = true;
        }
        if c == ' ' || c == '-' {
            separators = separators + 1;
        }
        seen.insert(u);
        proof {
            pre.lemma_push_map_commute(|c: char| c as u32, c);
            pre.map_values(|c: char| c as u32).lemma_push_to_set_commute(u);
        }
        prev_ws = ws;
        assert(char_buckets@ =~= Seq::new((i + 1) as nat, |k: int| char_bucket(t[k]) as usize));
        assert(bigram_buckets@ =~= Seq::new(
            i as nat,
            |k: int| bigram_bucket(t[k], t[k + 1]) as usize,
        ));
        i = i + 1;
    }
    assert(t.take(n as int) =~= t);
    IntentFeatures {
        char_count: n,
        char_buckets,
        bigram_buckets,
        words,
        word_bytes: word_byte_total,
        distinct: seen.len(),
        has_digit,
        has_path,
        separators,
    }
}

} // verus!
