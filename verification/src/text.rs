//! Text: white space, substrings, letter case and cutting at character
//! boundaries.

use vstd::prelude::*;
use vstd::string::*;
use vstd::utf8::*;

verus! {

/// A character with the Unicode property `White_Space`.
pub open spec fn white_space(c: char) -> bool {
    ||| '\u{9}' <= c <= '\u{d}'
    ||| c == ' '
    ||| c == '\u{85}'
    ||| c == '\u{a0}'
    ||| c == '\u{1680}'
    ||| '\u{2000}' <= c <= '\u{200a}'
    ||| c == '\u{2028}'
    ||| c == '\u{2029}'
    ||| c == '\u{202f}'
    ||| c == '\u{205f}'
    ||| c == '\u{3000}'
}

/// `s` without the white space that it starts with.
pub open spec fn trimmed_start(s: Seq<char>) -> Seq<char>
    decreases s.len(),
{
    if s.len() > 0 && white_space(s.first()) {
        trimmed_start(s.drop_first())
    } else {
        s
    }
}

/// `s` without the white space that it ends with.
pub open spec fn trimmed_end(s: Seq<char>) -> Seq<char>
    decreases s.len(),
{
    if s.len() > 0 && white_space(s.last()) {
        trimmed_end(s.drop_last())
    } else {
        s
    }
}

/// `s` without the white space at either end.
pub open spec fn trimmed(s: Seq<char>) -> Seq<char> {
    trimmed_end(trimmed_start(s))
}

/// `str::trim`: what is left of the text without the white space at either
/// end, where white space is what has the Unicode property `White_Space`.
pub assume_specification[ str::trim ](s: &str) -> (res: &str)
    ensures
        res@ == trimmed(s@),
;

/// What is left after trimming neither starts nor ends with white space, and
/// nothing is left exactly when the text is white space throughout.
pub proof fn lemma_trimmed(s: Seq<char>)
    ensures
        trimmed(s).len() > 0 ==> !white_space(trimmed(s).first()) && !white_space(
            trimmed(s).last(),
        ),
        trimmed(s).len() == 0 <==> (forall|i: int| 0 <= i < s.len() ==> white_space(#[trigger] s[i])),
{
    lemma_trimmed_start(s);
    lemma_trimmed_end(trimmed_start(s));
}

proof fn lemma_trimmed_start(s: Seq<char>)
    ensures
        trimmed_start(s).len() > 0 ==> !white_space(trimmed_start(s).first()),
        trimmed_start(s).len() == 0 <==> (forall|i: int|
            0 <= i < s.len() ==> white_space(#[trigger] s[i])),
    decreases s.len(),
{
    if s.len() > 0 && white_space(s.first()) {
        let rest = s.drop_first();
        lemma_trimmed_start(rest);
        if trimmed_start(s).len() == 0 {
            assert forall|i: int| 0 <= i < s.len() implies white_space(#[trigger] s[i]) by {
                if i > 0 {
                    assert(rest[i - 1] == s[i]);
                }
            }
        } else {
            let j: int = choose|j: int| 0 <= j < rest.len() && !white_space(rest[j]);
            assert(s[j + 1] == rest[j]);
        }
    } else if s.len() > 0 {
        assert(!white_space(s[0]));
    }
}

proof fn lemma_trimmed_end(s: Seq<char>)
    ensures
        trimmed_end(s).len() > 0 ==> !white_space(trimmed_end(s).last()) && trimmed_end(s).first()
            == s.first(),
        s.len() > 0 && !white_space(s.first()) ==> trimmed_end(s).len() > 0,
    decreases s.len(),
{
    if s.len() > 0 && white_space(s.last()) {
        lemma_trimmed_end(s.drop_last());
    }
}

/// A text that starts and, before white space of one character, ends with
/// something else loses that one character by trimming, and no more.
pub proof fn lemma_trimmed_drops_last(s: Seq<char>)
    requires
        s.len() >= 2,
        !white_space(s.first()),
        white_space(s.last()),
        !white_space(s[s.len() - 2]),
    ensures
        trimmed(s) == s.drop_last(),
{
    assert(trimmed_start(s) == s);
    assert(s.drop_last().last() == s[s.len() - 2]);
    assert(trimmed_end(s.drop_last()) == s.drop_last());
}

/// Whether `needle` stands somewhere in `hay`, without a gap.
pub open spec fn occurs_in(needle: Seq<char>, hay: Seq<char>) -> bool {
    exists|i: int|
        0 <= i <= hay.len() - needle.len() && #[trigger] hay.subrange(i, i + needle.len())
            == needle
}

/// The characters of a text.
fn characters(s: &str) -> (res: Vec<char>)
    ensures
        res@ == s@,
{
    let mut out: Vec<char> = Vec::new();
    for c in iter: s.chars()
        invariant
            iter.seq() == s@,
            out@ == s@.take(iter.index()),
    {
        out.push(c);
        proof {
            assert(s@.take(iter.index() + 1) =~= s@.take(iter.index()).push(c));
        }
    }
    proof {
        assert(s@.take(s@.len() as int) =~= s@);
    }
    out
}

/// Whether `needle` stands in `hay` from `at` on.
fn stands_at(hay: &[char], needle: &[char], at: usize) -> (res: bool)
    requires
        at + needle@.len() <= hay@.len(),
    ensures
        res == (hay@.subrange(at as int, at + needle@.len()) == needle@),
{
    let len: usize = hay.len();
    let mut i: usize = 0;
    while i < needle.len()
        invariant
            i <= needle@.len(),
            at + needle@.len() <= hay@.len(),
            len == hay@.len(),
            forall|j: int| 0 <= j < i ==> hay@[at + j] == #[trigger] needle@[j],
        decreases needle.len() - i,
    {
        if hay[at + i] != needle[i] {
            assert(hay@.subrange(at as int, at + needle@.len())[i as int] != needle@[i as int]);
            return false;
        }
        i = i + 1;
    }
    assert(hay@.subrange(at as int, at + needle@.len()) =~= needle@);
    true
}

/// Whether `needle` stands somewhere in `hay`, without a gap.
pub fn contains_text(hay: &str, needle: &str) -> (res: bool)
    ensures
        res == occurs_in(needle@, hay@),
{
    let hay_chars = characters(hay);
    let needle_chars = characters(needle);
    if needle_chars.len() > hay_chars.len() {
        return false;
    }
    let last: usize = hay_chars.len() - needle_chars.len();
    let mut at: usize = 0;
    loop
        invariant
            hay_chars@ == hay@,
            needle_chars@ == needle@,
            last == hay@.len() - needle@.len(),
            at <= last,
            forall|i: int|
                0 <= i < at ==> #[trigger] hay@.subrange(i, i + needle@.len()) != needle@,
        decreases last - at,
    {
        if stands_at(hay_chars.as_slice(), needle_chars.as_slice(), at) {
            return true;
        }
        if at == last {
            return false;
        }
        at = at + 1;
    }
}

/// What `str::to_lowercase` makes of a text.
pub uninterp spec fn lowercase(s: Seq<char>) -> Seq<char>;

/// A character with `A` to `Z` made `a` to `z`, and any other as it is.
pub open spec fn ascii_lower_char(c: char) -> char {
    if 'A' <= c <= 'Z' {
        (c as u32 + 32) as char
    } else {
        c
    }
}

/// A text with `A` to `Z` made `a` to `z`.
pub open spec fn ascii_lower(s: Seq<char>) -> Seq<char> {
    s.map_values(|c: char| ascii_lower_char(c))
}

/// `str::to_lowercase`: the text in lower case as Unicode defines it. The
/// result depends on the text alone. In a text that is ASCII throughout, `A` to
/// `Z` become `a` to `z` and nothing else changes; how other characters map is
/// not stated.
pub assume_specification[ str::to_lowercase ](s: &str) -> (res: String)
    ensures
        res@ == lowercase(s@),
        is_ascii_chars(s@) ==> res@ == ascii_lower(s@),
;

/// A character with `A` to `Z` made `a` to `z`, and any other as it is.
fn to_ascii_lower(c: char) -> (res: char)
    ensures
        res == ascii_lower_char(c),
{
    if 'A' <= c && c <= 'Z' {
        (c as u8 + 32) as char
    } else {
        c
    }
}

/// Whether two texts are the same once `A` to `Z` are made `a` to `z` in both.
pub fn same_ignoring_ascii_case(a: &str, b: &str) -> (res: bool)
    ensures
        res == (ascii_lower(a@) == ascii_lower(b@)),
{
    let a_chars = characters(a);
    let b_chars = characters(b);
    if a_chars.len() != b_chars.len() {
        assert(ascii_lower(a@).len() != ascii_lower(b@).len());
        return false;
    }
    let mut i: usize = 0;
    while i < a_chars.len()
        invariant
            a_chars@ == a@,
            b_chars@ == b@,
            a@.len() == b@.len(),
            i <= a@.len(),
            forall|j: int|
                0 <= j < i ==> ascii_lower_char(#[trigger] a@[j]) == ascii_lower_char(b@[j]),
        decreases a_chars.len() - i,
    {
        if to_ascii_lower(a_chars[i]) != to_ascii_lower(b_chars[i]) {
            assert(ascii_lower(a@)[i as int] != ascii_lower(b@)[i as int]);
            return false;
        }
        i = i + 1;
    }
    assert(ascii_lower(a@) =~= ascii_lower(b@));
    true
}

/// What `String::from_utf8_lossy` makes of bytes.
pub uninterp spec fn lossy_utf8(bytes: Seq<u8>) -> Seq<char>;

/// `String::from_utf8_lossy`: the text that the bytes encode, with a
/// replacement character for each sequence that is not UTF-8. Bytes that are
/// UTF-8 throughout give the text that they encode; what is replaced in other
/// bytes, and by how many characters, is not stated.
#[verifier::external_body]
pub(crate) fn lossy_text(bytes: &[u8]) -> (res: String)
    ensures
        res@ == lossy_utf8(bytes@),
        valid_utf8(bytes@) ==> res@ == decode_utf8(bytes@),
{
    String::from_utf8_lossy(bytes).into_owned()
}

/// The number of bytes that a text takes in UTF-8.
pub open spec fn byte_len(s: Seq<char>) -> nat {
    encode_utf8(s).len()
}

/// The longest beginning of `s` that takes at most `limit` bytes.
pub open spec fn longest_prefix(s: Seq<char>, limit: nat) -> Seq<char>
    decreases s.len(),
{
    if byte_len(s) <= limit || s.len() == 0 {
        s
    } else {
        longest_prefix(s.drop_last(), limit)
    }
}

/// The longest end of `s` that takes at most `limit` bytes.
pub open spec fn longest_suffix(s: Seq<char>, limit: nat) -> Seq<char>
    decreases s.len(),
{
    if byte_len(s) <= limit || s.len() == 0 {
        s
    } else {
        longest_suffix(s.drop_first(), limit)
    }
}

/// Encoding goes character by character: the encoding of a text in two parts
/// is the encodings of the parts, one after the other.
pub proof fn lemma_encode_concat(a: Seq<char>, b: Seq<char>)
    ensures
        encode_utf8(a + b) == encode_utf8(a) + encode_utf8(b),
        byte_len(a + b) == byte_len(a) + byte_len(b),
    decreases a.len(),
{
    if a.len() == 0 {
        assert(a + b =~= b);
        assert(encode_utf8(a) =~= Seq::<u8>::empty());
        assert(Seq::<u8>::empty() + encode_utf8(b) =~= encode_utf8(b));
    } else {
        assert((a + b).drop_first() =~= a.drop_first() + b);
        lemma_encode_concat(a.drop_first(), b);
        assert(encode_utf8(a + b) =~= encode_utf8(a) + encode_utf8(b));
    }
}

/// A character takes one to four bytes.
pub proof fn lemma_char_width(c: char)
    ensures
        byte_len(seq![c]) == encode_scalar(c as u32).len(),
        1 <= byte_len(seq![c]) <= 4,
{
    reveal_with_fuel(encode_utf8, 2);
    assert(seq![c].drop_first() =~= Seq::<char>::empty());
}

/// Two texts with the same encoding are the same text.
pub proof fn lemma_encode_injective(a: Seq<char>, b: Seq<char>)
    requires
        encode_utf8(a) == encode_utf8(b),
    ensures
        a == b,
{
    encode_utf8_decode_utf8(a);
    encode_utf8_decode_utf8(b);
}

/// The bytes of the first `k` characters end on a character boundary.
proof fn lemma_prefix_is_boundary(s: Seq<char>, k: int)
    requires
        0 <= k <= s.len(),
    ensures
        is_char_boundary(encode_utf8(s), byte_len(s.take(k)) as int),
    decreases k,
{
    encode_utf8_valid_utf8(s);
    if k == 0 {
        assert(s.take(0) =~= Seq::<char>::empty());
    } else {
        let rest = s.drop_first();
        encode_utf8_first_scalar(s);
        encode_utf8_valid_utf8(rest);
        assert(pop_first_scalar(encode_utf8(s)) =~= encode_utf8(rest));
        lemma_prefix_is_boundary(rest, k - 1);
        assert(s.take(k).drop_first() =~= rest.take(k - 1));
        assert(s.take(k)[0] == s[0]);
        assert(s.take(k) + s.skip(k) =~= s);
        lemma_encode_concat(s.take(k), s.skip(k));
    }
}

/// A character boundary splits a text into its first `k` characters and the
/// others.
proof fn lemma_boundary_splits(s: Seq<char>, at: int) -> (k: int)
    requires
        is_char_boundary(encode_utf8(s), at),
        0 <= at <= byte_len(s),
    ensures
        0 <= k <= s.len(),
        encode_utf8(s).subrange(0, at) == encode_utf8(s.take(k)),
        encode_utf8(s).subrange(at, byte_len(s) as int) == encode_utf8(s.skip(k)),
        at == byte_len(s.take(k)),
{
    let bytes = encode_utf8(s);
    encode_utf8_valid_utf8(s);
    encode_utf8_decode_utf8(s);
    valid_utf8_split(bytes, at);
    decode_utf8_split(bytes, at);
    let head = decode_utf8(bytes.subrange(0, at));
    let tail = decode_utf8(bytes.subrange(at, bytes.len() as int));
    decode_utf8_encode_utf8(bytes.subrange(0, at));
    decode_utf8_encode_utf8(bytes.subrange(at, bytes.len() as int));
    let k: int = head.len() as int;
    assert(s =~= head + tail);
    assert(s.take(k) =~= head);
    assert(s.skip(k) =~= tail);
    k
}

/// A beginning that fits and cannot be made longer is the longest one.
proof fn lemma_is_longest_prefix(s: Seq<char>, k: int, limit: nat)
    requires
        0 <= k <= s.len(),
        byte_len(s.take(k)) <= limit,
        k < s.len() ==> byte_len(s.take(k + 1)) > limit,
    ensures
        longest_prefix(s, limit) == s.take(k),
    decreases s.len(),
{
    if k == s.len() {
        assert(s.take(k) =~= s);
    } else {
        assert(s.take(k + 1) + s.skip(k + 1) =~= s);
        lemma_encode_concat(s.take(k + 1), s.skip(k + 1));
        let shorter = s.drop_last();
        assert(shorter.take(k) =~= s.take(k));
        if k < shorter.len() {
            assert(shorter.take(k + 1) =~= s.take(k + 1));
        }
        lemma_is_longest_prefix(shorter, k, limit);
    }
}

/// An end that fits and cannot be made longer is the longest one.
proof fn lemma_is_longest_suffix(s: Seq<char>, k: int, limit: nat)
    requires
        0 <= k <= s.len(),
        byte_len(s.skip(k)) <= limit,
        k > 0 ==> byte_len(s.skip(k - 1)) > limit,
    ensures
        longest_suffix(s, limit) == s.skip(k),
    decreases s.len(),
{
    if k == 0 {
        assert(s.skip(0) =~= s);
    } else {
        assert(s.take(k - 1) + s.skip(k - 1) =~= s);
        lemma_encode_concat(s.take(k - 1), s.skip(k - 1));
        let shorter = s.drop_first();
        assert(shorter.skip(k - 1) =~= s.skip(k));
        if k > 1 {
            assert(shorter.skip(k - 2) =~= s.skip(k - 1));
        }
        lemma_is_longest_suffix(shorter, k - 1, limit);
    }
}

/// Of ASCII characters exactly as many fit as there are bytes.
pub proof fn lemma_ascii_ends(s: Seq<char>, n: int)
    requires
        is_ascii_chars(s),
        0 <= n <= s.len(),
    ensures
        longest_prefix(s, n as nat) == s.take(n),
        longest_suffix(s, n as nat) == s.skip(s.len() - n),
{
    is_ascii_chars_encode_utf8(s.take(n));
    is_ascii_chars_encode_utf8(s.skip(s.len() - n));
    if n < s.len() {
        is_ascii_chars_encode_utf8(s.take(n + 1));
        is_ascii_chars_encode_utf8(s.skip(s.len() - n - 1));
    }
    lemma_is_longest_prefix(s, n, n as nat);
    lemma_is_longest_suffix(s, s.len() - n, n as nat);
}

/// The longest beginning is a beginning, fits, and no longer beginning fits.
pub proof fn lemma_longest_prefix(s: Seq<char>, limit: nat)
    ensures
        longest_prefix(s, limit).is_prefix_of(s),
        byte_len(longest_prefix(s, limit)) <= limit,
        forall|k: int|
            0 <= k <= s.len() && byte_len(#[trigger] s.take(k)) <= limit ==> k <= longest_prefix(
                s,
                limit,
            ).len(),
    decreases s.len(),
{
    if byte_len(s) > limit && s.len() > 0 {
        let shorter = s.drop_last();
        lemma_longest_prefix(shorter, limit);
        assert forall|k: int|
            0 <= k <= s.len() && byte_len(#[trigger] s.take(k)) <= limit implies k
            <= longest_prefix(s, limit).len() by {
            if k == s.len() {
                assert(s.take(k) =~= s);
            } else {
                assert(shorter.take(k) =~= s.take(k));
            }
        }
    }
}

/// The longest end is an end, fits, and no longer end fits.
pub proof fn lemma_longest_suffix(s: Seq<char>, limit: nat)
    ensures
        longest_suffix(s, limit).is_suffix_of(s),
        byte_len(longest_suffix(s, limit)) <= limit,
        forall|k: int|
            0 <= k <= s.len() && byte_len(#[trigger] s.skip(k)) <= limit ==> s.len() - k
                <= longest_suffix(s, limit).len(),
    decreases s.len(),
{
    if byte_len(s) > limit && s.len() > 0 {
        let shorter = s.drop_first();
        lemma_longest_suffix(shorter, limit);
        assert forall|k: int|
            0 <= k <= s.len() && byte_len(#[trigger] s.skip(k)) <= limit implies s.len() - k
            <= longest_suffix(s, limit).len() by {
            if k == 0 {
                assert(s.skip(k) =~= s);
            } else {
                assert(shorter.skip(k - 1) =~= s.skip(k));
            }
        }
    }
}

/// The longest beginning of `s` that takes at most `limit` bytes.
pub fn prefix_within(s: &str, limit: usize) -> (res: &str)
    ensures
        res@ == longest_prefix(s@, limit as nat),
{
    let len: usize = s.as_bytes().len();
    let mut end: usize = if limit < len {
        limit
    } else {
        len
    };
    proof {
        encode_utf8_valid_utf8(s@);
        is_char_boundary_start_end_of_seq(s.spec_bytes());
    }
    while !s.is_char_boundary(end)
        invariant
            end <= len,
            end <= limit,
            len == byte_len(s@),
            valid_utf8(s.spec_bytes()),
            is_char_boundary(s.spec_bytes(), 0),
            is_char_boundary(s.spec_bytes(), len as int),
            forall|b: int|
                end < b <= limit && b <= len ==> !#[trigger] is_char_boundary(s.spec_bytes(), b),
        decreases end,
    {
        end = end - 1;
    }
    let parts = s.split_at(end);
    proof {
        let k: int = lemma_boundary_splits(s@, end as int);
        lemma_encode_injective(parts.0@, s@.take(k));
        if k < s@.len() {
            lemma_prefix_is_boundary(s@, k + 1);
            assert(s@.take(k + 1) =~= s@.take(k) + seq![s@[k]]);
            lemma_encode_concat(s@.take(k), seq![s@[k]]);
            lemma_char_width(s@[k]);
            assert(s@.take(k + 1) + s@.skip(k + 1) =~= s@);
            lemma_encode_concat(s@.take(k + 1), s@.skip(k + 1));
        }
        lemma_is_longest_prefix(s@, k, limit as nat);
    }
    parts.0
}

/// The longest end of `s` that takes at most `limit` bytes.
pub fn suffix_within(s: &str, limit: usize) -> (res: &str)
    ensures
        res@ == longest_suffix(s@, limit as nat),
{
    let len: usize = s.as_bytes().len();
    let mut start: usize = if limit < len {
        len - limit
    } else {
        0
    };
    let ghost first: int = start as int;
    proof {
        encode_utf8_valid_utf8(s@);
        is_char_boundary_start_end_of_seq(s.spec_bytes());
    }
    while !s.is_char_boundary(start)
        invariant
            first <= start <= len,
            len == byte_len(s@),
            valid_utf8(s.spec_bytes()),
            is_char_boundary(s.spec_bytes(), len as int),
            forall|b: int|
                first <= b < start ==> !#[trigger] is_char_boundary(s.spec_bytes(), b),
        decreases len - start,
    {
        start = start + 1;
    }
    let parts = s.split_at(start);
    proof {
        let k: int = lemma_boundary_splits(s@, start as int);
        lemma_encode_injective(parts.1@, s@.skip(k));
        assert(s@.take(k) + s@.skip(k) =~= s@);
        lemma_encode_concat(s@.take(k), s@.skip(k));
        if k > 0 {
            lemma_prefix_is_boundary(s@, k - 1);
            assert(s@.take(k) =~= s@.take(k - 1) + seq![s@[k - 1]]);
            lemma_encode_concat(s@.take(k - 1), seq![s@[k - 1]]);
            lemma_char_width(s@[k - 1]);
            assert(s@.take(k - 1) + s@.skip(k - 1) =~= s@);
            lemma_encode_concat(s@.take(k - 1), s@.skip(k - 1));
        }
        lemma_is_longest_suffix(s@, k, limit as nat);
    }
    parts.1
}

/// `a` and `b`, one after the other.
pub fn joined(a: &str, b: &str) -> (res: String)
    ensures
        res@ == a@ + b@,
{
    let mut out = a.to_owned();
    out.append(b);
    out
}

/// Whether two texts are the same.
pub fn same_text(a: &str, b: &str) -> (res: bool)
    ensures
        res == (a@ == b@),
{
    let x: &[u8] = a.as_bytes();
    let y: &[u8] = b.as_bytes();
    if x.len() != y.len() {
        return false;
    }
    let mut i: usize = 0;
    while i < x.len()
        invariant
            i <= x.len(),
            x.len() == y.len(),
            x@ == encode_utf8(a@),
            y@ == encode_utf8(b@),
            forall|j: int| 0 <= j < i ==> x@[j] == y@[j],
        decreases x.len() - i,
    {
        if x[i] != y[i] {
            return false;
        }
        i = i + 1;
    }
    proof {
        assert(x@ =~= y@);
        lemma_encode_injective(a@, b@);
    }
    true
}

/// White space, and nothing else.
pub open spec fn all_white(s: Seq<char>) -> bool {
    forall|i: int| 0 <= i < s.len() ==> white_space(#[trigger] s[i])
}

proof fn lemma_trimmed_start_splits(s: Seq<char>) -> (before: Seq<char>)
    ensures
        s == before + trimmed_start(s),
        all_white(before),
    decreases s.len(),
{
    if s.len() > 0 && white_space(s.first()) {
        let rest = lemma_trimmed_start_splits(s.drop_first());
        let before = seq![s.first()] + rest;
        assert(s =~= seq![s.first()] + s.drop_first());
        assert(before + trimmed_start(s) =~= seq![s.first()] + (rest + trimmed_start(s)));
        before
    } else {
        assert(s =~= Seq::<char>::empty() + s);
        Seq::empty()
    }
}

proof fn lemma_trimmed_end_splits(s: Seq<char>) -> (after: Seq<char>)
    ensures
        s == trimmed_end(s) + after,
        all_white(after),
    decreases s.len(),
{
    if s.len() > 0 && white_space(s.last()) {
        let rest = lemma_trimmed_end_splits(s.drop_last());
        let after = rest.push(s.last());
        assert(s =~= s.drop_last().push(s.last()));
        assert(trimmed_end(s) + after =~= (trimmed_end(s) + rest).push(s.last()));
        after
    } else {
        assert(s =~= s + Seq::<char>::empty());
        Seq::empty()
    }
}

/// Trimming takes white space away at both ends, all of it, and nothing else:
/// the text is what is left with white space around it, and what is left
/// neither starts nor ends with white space.
pub proof fn law_trimming_takes_white_space_only(s: Seq<char>) -> (around: (Seq<char>, Seq<char>))
    ensures
        s == around.0 + trimmed(s) + around.1,
        all_white(around.0),
        all_white(around.1),
        trimmed(s).len() > 0 ==> !white_space(trimmed(s).first()) && !white_space(
            trimmed(s).last(),
        ),
{
    lemma_trimmed(s);
    let before = lemma_trimmed_start_splits(s);
    let after = lemma_trimmed_end_splits(trimmed_start(s));
    assert(s =~= before + trimmed(s) + after);
    (before, after)
}

/// A text occurs in another exactly where the other is the text with something
/// before and something after it, either of which may be empty.
pub proof fn law_occurring_is_standing_between(needle: Seq<char>, hay: Seq<char>)
    ensures
        occurs_in(needle, hay) <==> exists|before: Seq<char>, after: Seq<char>|
            hay == #[trigger] (before + needle + after),
{
    if occurs_in(needle, hay) {
        let i: int = choose|i: int|
            0 <= i <= hay.len() - needle.len() && #[trigger] hay.subrange(i, i + needle.len())
                == needle;
        assert(hay =~= hay.take(i) + needle + hay.skip(i + needle.len()));
    }
    if exists|before: Seq<char>, after: Seq<char>| hay == #[trigger] (before + needle + after) {
        let (before, after): (Seq<char>, Seq<char>) = choose|before: Seq<char>, after: Seq<char>|
            hay == #[trigger] (before + needle + after);
        let i: int = before.len() as int;
        assert(hay.subrange(i, i + needle.len()) =~= needle);
    }
}

/// Two texts are the same without regard to ASCII case exactly where they are
/// as long as each other and differ at most in that one has a letter from `A`
/// to `Z` where the other has it from `a` to `z`.
pub proof fn law_ascii_case_is_all_that_is_ignored(a: Seq<char>, b: Seq<char>)
    ensures
        ascii_lower(a) == ascii_lower(b) <==> a.len() == b.len() && forall|i: int|
            0 <= i < a.len() ==> {
                ||| #[trigger] a[i] == b[i]
                ||| 'A' <= a[i] <= 'Z' && b[i] as int == a[i] as int + 32
                ||| 'A' <= b[i] <= 'Z' && a[i] as int == b[i] as int + 32
            },
{
    if ascii_lower(a) == ascii_lower(b) {
        assert(ascii_lower(a).len() == ascii_lower(b).len());
        assert forall|i: int| 0 <= i < a.len() implies {
            ||| #[trigger] a[i] == b[i]
            ||| 'A' <= a[i] <= 'Z' && b[i] as int == a[i] as int + 32
            ||| 'A' <= b[i] <= 'Z' && a[i] as int == b[i] as int + 32
        } by {
            assert(ascii_lower(a)[i] == ascii_lower(b)[i]);
        }
    } else if a.len() == b.len() {
        if forall|i: int|
            0 <= i < a.len() ==> {
                ||| #[trigger] a[i] == b[i]
                ||| 'A' <= a[i] <= 'Z' && b[i] as int == a[i] as int + 32
                ||| 'A' <= b[i] <= 'Z' && a[i] as int == b[i] as int + 32
            } {
            assert forall|i: int| 0 <= i < a.len() implies ascii_lower(a)[i] == ascii_lower(
                b,
            )[i] by {
                let c = a[i];
            }
            assert(ascii_lower(a) =~= ascii_lower(b));
        }
    }
}

} // verus!
