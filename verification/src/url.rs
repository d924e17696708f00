//! Percent-encoding of article and category titles.
//!
//! Titles pass through `encode_unsafe_url_chars` before they are placed in
//! any query parameter.  The encoding works byte-wise over the UTF-8
//! encoding of the title: every byte that is unsafe in a URL query
//! component is replaced by `%` and two upper-case hex digits, and every
//! other byte stands as itself.

use vstd::prelude::*;
use vstd::string::StringSliceAdditionalSpecFns;

verus! {

/// A byte that must be percent-encoded before use in a URL query
/// component: the ASCII control characters, space, `<`, `>`, `[`, `]`,
/// `{`, `}`, `|`, backslash, caret, and every non-ASCII byte.
pub open spec fn is_url_unsafe_byte(b: u8) -> bool {
    b <= 0x20 || b >= 0x7f || b == 0x3c || b == 0x3e || b == 0x5b || b == 0x5d || b == 0x7b
        || b == 0x7d || b == 0x7c || b == 0x5c || b == 0x5e
}

/// The character for the hex digit `n`, upper case.
pub open spec fn hex_upper_char(n: u8) -> char
    recommends
        n < 16,
{
    if n < 10 {
        (0x30 + n) as char
    } else {
        (0x41 + (n - 10)) as char
    }
}

/// How one byte of the input appears in the encoded output: either as its
/// own character, or as a `%`-escape of two upper-case hex digits.
pub open spec fn encoded_byte(b: u8) -> Seq<char> {
    if is_url_unsafe_byte(b) {
        seq!['%', hex_upper_char(b / 16), hex_upper_char(b % 16)]
    } else {
        seq![b as char]
    }
}

/// Percent-encoding of a whole byte sequence, byte by byte.
pub open spec fn percent_encode(bytes: Seq<u8>) -> Seq<char>
    decreases bytes.len(),
{
    if bytes.len() == 0 {
        Seq::empty()
    } else {
        encoded_byte(bytes[0]) + percent_encode(bytes.drop_first())
    }
}

proof fn lemma_percent_encode_snoc(bytes: Seq<u8>, b: u8)
    ensures
        percent_encode(bytes.push(b)) =~= percent_encode(bytes) + encoded_byte(b),
    decreases bytes.len(),
{
    if bytes.len() == 0 {
        assert(bytes.push(b).drop_first() =~= Seq::<u8>::empty());
        assert(bytes.push(b)[0] == b);
        assert(percent_encode(bytes.push(b)) == encoded_byte(b) + percent_encode(
            Seq::<u8>::empty(),
        ));
        assert(encoded_byte(b) + percent_encode(Seq::<u8>::empty()) =~= encoded_byte(b));
        assert(percent_encode(bytes) + encoded_byte(b) =~= encoded_byte(b));
    } else {
        assert(bytes.push(b).drop_first() =~= bytes.drop_first().push(b));
        lemma_percent_encode_snoc(bytes.drop_first(), b);
        assert(percent_encode(bytes.push(b)) =~= encoded_byte(bytes[0]) + (percent_encode(
            bytes.drop_first(),
        ) + encoded_byte(b)));
    }
}

/// Law: a byte sequence in which no byte is unsafe encodes to itself,
/// character for character.
pub proof fn lemma_percent_encode_safe_identity(bytes: Seq<u8>)
    requires
        forall|i: int| 0 <= i < bytes.len() ==> !is_url_unsafe_byte(#[trigger] bytes[i]),
    ensures
        percent_encode(bytes) =~= bytes.map_values(|b: u8| b as char),
    decreases bytes.len(),
{
    if bytes.len() == 0 {
    } else {
        lemma_percent_encode_safe_identity(bytes.drop_first());
        assert(bytes.drop_first().map_values(|b: u8| b as char) =~= bytes.map_values(
            |b: u8| b as char,
        ).drop_first());
        assert(percent_encode(bytes) =~= bytes.map_values(|b: u8| b as char));
    }
}

/// A character whose single UTF-8 byte needs no escaping.
pub open spec fn is_url_safe_char(c: char) -> bool {
    ' ' < c < (0x7f as char) && !is_url_unsafe_byte(c as u8)
}

/// Law: a title of URL-safe characters only is returned unchanged by the
/// encoder.
pub proof fn lemma_encode_safe_title_unchanged(s: &str)
    requires
        forall|i: int| 0 <= i < s@.len() ==> is_url_safe_char(#[trigger] s@[i]),
    ensures
        percent_encode(s.spec_bytes()) == s@,
{
    assert(vstd::utf8::is_ascii_chars(s@)) by {
        assert forall|i: int| 0 <= i < s@.len() implies '\0' <= #[trigger] s@[i] <= '\u{7f}' by {
            assert(is_url_safe_char(s@[i]));
        }
    }
    vstd::string::is_ascii_spec_bytes(s);
    let bytes = s.spec_bytes();
    assert(bytes =~= Seq::new(s@.len(), |i: int| s@.index(i) as u8));
    assert forall|i: int| 0 <= i < bytes.len() implies !is_url_unsafe_byte(#[trigger] bytes[i]) by {
        assert(bytes[i] == s@[i] as u8);
        assert(is_url_safe_char(s@[i]));
    }
    lemma_percent_encode_safe_identity(bytes);
    assert(bytes.map_values(|b: u8| b as char) =~= s@) by {
        assert forall|i: int| 0 <= i < bytes.len() implies bytes.map_values(|b: u8| b as char)[i]
            == s@[i] by {
            assert(bytes[i] == s@[i] as u8);
            assert(is_url_safe_char(s@[i]));
        }
    }
}

/// Relies on `String::push`: appends one character at the end.
#[verifier::external_body]
pub(crate) fn push_char(s: &mut String, c: char)
    ensures
        final(s)@ == old(s)@.push(c),
{
    s.push(c)
}

fn hex_upper(n: u8) -> (c: char)
    requires
        n < 16,
    ensures
        c == hex_upper_char(n),
{
    if n < 10 {
        (0x30 + n) as char
    } else {
        (0x41 + (n - 10)) as char
    }
}

/// Percent-encode the characters that are unsafe in a URL query component,
/// byte-wise over the UTF-8 encoding of the input title.
pub fn encode_unsafe_url_chars(url: &str) -> (r: String)
    ensures
        r@ == percent_encode(url.spec_bytes()),
{
    let bytes: &[u8] = url.as_bytes();
    let mut out: String = String::new();
    let mut i: usize = 0;
    while i < bytes.len()
        invariant
            i <= bytes@.len(),
            bytes@ == url.spec_bytes(),
            out@ == percent_encode(bytes@.take(i as int)),
        decreases bytes@.len() - i,
    {
        let b = bytes[i];
        proof {
            assert(bytes@.take(i as int + 1) =~= bytes@.take(i as int).push(b));
            lemma_percent_encode_snoc(bytes@.take(i as int), b);
        }
        if b <= 0x20 || b >= 0x7f || b == 0x3c || b == 0x3e || b == 0x5b || b == 0x5d || b == 0x7b
            || b == 0x7d || b == 0x7c || b == 0x5c || b == 0x5e {
            push_char(&mut out, '%');
            push_char(&mut out, hex_upper(b / 16));
            push_char(&mut out, hex_upper(b % 16));
            proof {
                assert(out@ =~= percent_encode(bytes@.take(i as int + 1)));
            }
        } else {
            push_char(&mut out, b as char);
            proof {
                assert(out@ =~= percent_encode(bytes@.take(i as int + 1)));
            }
        }
        i = i + 1;
    }
    proof {
        assert(bytes@.take(bytes@.len() as int) =~= bytes@);
    }
    out
}

} // verus!
