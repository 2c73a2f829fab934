//! Plain text: white space, prefixes, and bytes that arrive as UTF-8.

use vstd::prelude::*;
use vstd::utf8::{
    decode_utf8, decode_utf8_encode_utf8, encode_utf8, encode_utf8_decode_utf8,
    encode_utf8_valid_utf8, valid_utf8,
};

verus! {

/// The characters with the Unicode property `White_Space`.
pub open spec fn white_space(c: char) -> bool {
    ||| '\u{9}' <= c <= '\u{d}'
    ||| c == '\u{20}'
    ||| c == '\u{85}'
    ||| c == '\u{a0}'
    ||| c == '\u{1680}'
    ||| '\u{2000}' <= c <= '\u{200a}'
    ||| c == '\u{2028}'
    ||| c == '\u{2029}'
    ||| c == '\u{202f}'
    ||| c == '\u{205f}'
    ||| c == '\u{3000}'
}

/// Whether `c` has the Unicode property `White_Space`.
pub fn is_white_space(c: char) -> (r: bool)
    ensures
        r == white_space(c),
{
    ('\u{9}' <= c && c <= '\u{d}') || c == '\u{20}' || c == '\u{85}' || c == '\u{a0}' || c
        == '\u{1680}' || ('\u{2000}' <= c && c <= '\u{200a}') || c == '\u{2028}' || c == '\u{2029}'
        || c == '\u{202f}' || c == '\u{205f}' || c == '\u{3000}'
}

/// What is left of `s` once the white space at both ends is gone.
pub open spec fn trimmed(s: Seq<char>) -> Seq<char>
    decreases s.len(),
{
    if s.len() == 0 {
        s
    } else if white_space(s.first()) {
        trimmed(s.drop_first())
    } else if white_space(s.last()) {
        trimmed(s.drop_last())
    } else {
        s
    }
}

/// White space at either end of a text does not count.
pub proof fn law_white_space_at_the_ends(s: Seq<char>, c: char)
    requires
        white_space(c),
    ensures
        trimmed(s.push(c)) == trimmed(s),
        trimmed(seq![c] + s) == trimmed(s),
    decreases s.len(),
{
    assert((seq![c] + s).drop_first() =~= s);
    if s.len() == 0 {
        assert(s.push(c).drop_first() =~= s);
    } else if white_space(s.first()) {
        law_white_space_at_the_ends(s.drop_first(), c);
        assert(s.push(c).drop_first() =~= s.drop_first().push(c));
    } else {
        assert(s.push(c).drop_last() =~= s);
    }
}

/// White space is these characters, and no others.
pub proof fn law_white_space(c: char)
    ensures
        white_space(c) <==> ("\u{9}\u{a}\u{b}\u{c}\u{d}\u{20}\u{85}\u{a0}\u{1680}"@
            + "\u{2000}\u{2001}\u{2002}\u{2003}\u{2004}\u{2005}\u{2006}\u{2007}\u{2008}\u{2009}\u{200a}"@
            + "\u{2028}\u{2029}\u{202f}\u{205f}\u{3000}"@).contains(c),
{
    let narrow = "\u{9}\u{a}\u{b}\u{c}\u{d}\u{20}\u{85}\u{a0}\u{1680}"@;
    let spaces =
        "\u{2000}\u{2001}\u{2002}\u{2003}\u{2004}\u{2005}\u{2006}\u{2007}\u{2008}\u{2009}\u{200a}"@;
    let wide = "\u{2028}\u{2029}\u{202f}\u{205f}\u{3000}"@;
    let all = narrow + spaces + wide;
    reveal_strlit("\u{9}\u{a}\u{b}\u{c}\u{d}\u{20}\u{85}\u{a0}\u{1680}");
    reveal_strlit(
        "\u{2000}\u{2001}\u{2002}\u{2003}\u{2004}\u{2005}\u{2006}\u{2007}\u{2008}\u{2009}\u{200a}",
    );
    reveal_strlit("\u{2028}\u{2029}\u{202f}\u{205f}\u{3000}");
    if white_space(c) {
        let i: int = if '\u{9}' <= c <= '\u{d}' {
            c as int - 9
        } else if c == '\u{20}' {
            5
        } else if c == '\u{85}' {
            6
        } else if c == '\u{a0}' {
            7
        } else if c == '\u{1680}' {
            8
        } else if '\u{2000}' <= c <= '\u{200a}' {
            9 + (c as int - 0x2000)
        } else if c == '\u{2028}' {
            20
        } else if c == '\u{2029}' {
            21
        } else if c == '\u{202f}' {
            22
        } else if c == '\u{205f}' {
            23
        } else {
            24
        };
        assert(all[i] == c);
    }
}

proof fn lemma_trimmed(s: Seq<char>) -> (r: (int, int))
    ensures
        0 <= r.0 <= r.1 <= s.len(),
        trimmed(s) == s.subrange(r.0, r.1),
        forall|i: int| 0 <= i < r.0 ==> white_space(#[trigger] s[i]),
        forall|i: int| r.1 <= i < s.len() ==> white_space(#[trigger] s[i]),
    decreases s.len(),
{
    if s.len() == 0 {
        assert(s.subrange(0, 0) =~= s);
        (0, 0)
    } else if white_space(s.first()) {
        let rest = s.drop_first();
        let (from, to) = lemma_trimmed(rest);
        assert(rest.subrange(from, to) =~= s.subrange(from + 1, to + 1));
        assert forall|i: int| 0 <= i < from + 1 implies white_space(#[trigger] s[i]) by {
            if i > 0 {
                assert(white_space(rest[i - 1]));
            }
        }
        assert forall|i: int| to + 1 <= i < s.len() implies white_space(#[trigger] s[i]) by {
            assert(white_space(rest[i - 1]));
        }
        (from + 1, to + 1)
    } else if white_space(s.last()) {
        let rest = s.drop_last();
        let (from, to) = lemma_trimmed(rest);
        assert(rest.subrange(from, to) =~= s.subrange(from, to));
        assert forall|i: int| 0 <= i < from implies white_space(#[trigger] s[i]) by {
            assert(white_space(rest[i]));
        }
        assert forall|i: int| to <= i < s.len() implies white_space(#[trigger] s[i]) by {
            if i < s.len() - 1 {
                assert(white_space(rest[i]));
            }
        }
        (from, to)
    } else {
        assert(s.subrange(0, s.len() as int) =~= s);
        (0, s.len() as int)
    }
}

proof fn lemma_trimmed_ends(s: Seq<char>)
    ensures
        trimmed(s).len() > 0 ==> !white_space(trimmed(s).first()) && !white_space(
            trimmed(s).last(),
        ),
        trimmed(trimmed(s)) == trimmed(s),
    decreases s.len(),
{
    if s.len() > 0 {
        if white_space(s.first()) {
            lemma_trimmed_ends(s.drop_first());
        } else if white_space(s.last()) {
            lemma_trimmed_ends(s.drop_last());
        }
    }
}

/// A trimmed text is the whole one less white space: nothing but white space is cut off, at the
/// start and at the end, and none is left there. Trimming it again changes nothing.
pub proof fn law_trimmed(s: Seq<char>)
    ensures
        exists|from: int, to: int|
            0 <= from <= to <= s.len() && trimmed(s) == #[trigger] s.subrange(from, to) && (
            forall|i: int| 0 <= i < from || to <= i < s.len() ==> white_space(#[trigger] s[i])),
        trimmed(s).len() > 0 ==> !white_space(trimmed(s).first()) && !white_space(
            trimmed(s).last(),
        ),
        trimmed(trimmed(s)) == trimmed(s),
{
    let (from, to) = lemma_trimmed(s);
    lemma_trimmed_ends(s);
    assert(trimmed(s) == s.subrange(from, to));
}

/// Removes the white space at both ends of `s`.
pub fn trim(s: &str) -> (t: &str)
    ensures
        t@ == trimmed(s@),
{
    let len: usize = s.unicode_len();
    let mut from: usize = 0;
    assert(s@.subrange(0, len as int) =~= s@);
    while from < len && is_white_space(s.get_char(from))
        invariant
            from <= len,
            len == s@.len(),
            trimmed(s@) == trimmed(s@.subrange(from as int, len as int)),
        ensures
            from <= len,
            from < len ==> !white_space(s@[from as int]),
            trimmed(s@) == trimmed(s@.subrange(from as int, len as int)),
        decreases len - from,
    {
        assert(s@.subrange(from as int, len as int).drop_first() =~= s@.subrange(
            from + 1,
            len as int,
        ));
        from = from + 1;
    }
    let mut to: usize = len;
    while from < to && is_white_space(s.get_char(to - 1))
        invariant
            from <= to <= len,
            len == s@.len(),
            from < to ==> !white_space(s@[from as int]),
            trimmed(s@) == trimmed(s@.subrange(from as int, to as int)),
        ensures
            from <= to <= len,
            from < to ==> !white_space(s@[from as int]) && !white_space(s@[to - 1]),
            trimmed(s@) == trimmed(s@.subrange(from as int, to as int)),
        decreases to,
    {
        assert(s@.subrange(from as int, to as int).drop_last() =~= s@.subrange(
            from as int,
            to - 1,
        ));
        to = to - 1;
    }
    s.substring_char(from, to)
}

/// `s` starts with `prefix`.
pub open spec fn starts_with(s: Seq<char>, prefix: Seq<char>) -> bool {
    prefix.is_prefix_of(s)
}

/// Whether `s` starts with `prefix`.
pub fn has_prefix(s: &str, prefix: &str) -> (r: bool)
    ensures
        r == starts_with(s@, prefix@),
        r == prefix@.is_prefix_of(s@),
{
    let len: usize = s.unicode_len();
    let wanted: usize = prefix.unicode_len();
    if wanted > len {
        return false;
    }
    let mut i: usize = 0;
    while i < wanted
        invariant
            i <= wanted <= len,
            len == s@.len(),
            wanted == prefix@.len(),
            forall|j: int| 0 <= j < i ==> #[trigger] s@[j] == prefix@[j],
        decreases wanted - i,
    {
        if s.get_char(i) != prefix.get_char(i) {
            assert(s@[i as int] != prefix@[i as int]);
            assert(s@.subrange(0, wanted as int)[i as int] != prefix@[i as int]);
            return false;
        }
        i = i + 1;
    }
    assert(s@.subrange(0, wanted as int) =~= prefix@);
    true
}

/// Whether two texts hold the same characters.
pub fn same_text(a: &str, b: &str) -> (r: bool)
    ensures
        r == (a@ == b@),
{
    let r: bool = a.unicode_len() == b.unicode_len() && has_prefix(a, b);
    proof {
        if a@.len() == b@.len() {
            assert(a@.subrange(0, b@.len() as int) =~= a@);
        }
    }
    r
}

/// The text that `bytes` encode in UTF-8, or nothing where they are not valid UTF-8.
pub open spec fn utf8_text(bytes: Seq<u8>) -> Option<Seq<char>> {
    if valid_utf8(bytes) {
        Some(decode_utf8(bytes))
    } else {
        None
    }
}

/// Every text is read back from its own bytes, and bytes give no other text than the one that they
/// are the bytes of: what is no text gives none.
pub proof fn law_text_from_bytes(text: Seq<char>, bytes: Seq<u8>)
    ensures
        utf8_text(encode_utf8(text)) == Some(text),
        utf8_text(bytes) matches Some(t) ==> encode_utf8(t) == bytes,
        utf8_text(bytes) is Some <==> valid_utf8(bytes),
{
    encode_utf8_valid_utf8(text);
    encode_utf8_decode_utf8(text);
    if valid_utf8(bytes) {
        decode_utf8_encode_utf8(bytes);
    }
}

/// Calls `String::from_utf8`, which checks that the bytes are valid UTF-8 and keeps them as
/// they are: the text is the one that they encode, and there is none where they are invalid.
#[verifier::external_body]
fn string_from_utf8(bytes: Vec<u8>) -> (r: Option<String>)
    ensures
        r is Some <==> utf8_text(bytes@) is Some,
        r matches Some(s) ==> utf8_text(bytes@) == Some(s@),
{
    String::from_utf8(bytes).ok()
}

/// The text of a message that came as bytes; `None` where the bytes are not valid UTF-8.
pub fn decode_text(bytes: Vec<u8>) -> (r: Option<String>)
    ensures
        r is Some <==> utf8_text(bytes@) is Some,
        r matches Some(s) ==> utf8_text(bytes@) == Some(s@),
{
    string_from_utf8(bytes)
}

} // verus!
