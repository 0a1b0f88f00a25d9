//! The `application/x-www-form-urlencoded` syntax of query strings: what a
//! serialized list of name/value pairs looks like, and a serializer for it.

use vstd::prelude::*;
use vstd::string::*;
use vstd::utf8::*;

verus! {

/// Bytes that the serialization leaves as they are: ASCII letters and digits
/// and `*`, `-`, `.`, `_`.
pub open spec fn is_unchanged(b: u8) -> bool {
    ||| b == '*' as u8
    ||| b == '-' as u8
    ||| b == '.' as u8
    ||| b == '_' as u8
    ||| '0' as u8 <= b <= '9' as u8
    ||| 'A' as u8 <= b <= 'Z' as u8
    ||| 'a' as u8 <= b <= 'z' as u8
}

/// The upper-case hexadecimal digit for `n`, which is below 16.
pub open spec fn hex_digit(n: u8) -> char {
    if n < 10 {
        (('0' as u8 + n) as u8) as char
    } else {
        (('A' as u8 + n - 10) as u8) as char
    }
}

/// The serialization of one byte: itself where [`is_unchanged`], `+` for a
/// space, and otherwise `%` with its two hexadecimal digits.
pub open spec fn encode_byte(b: u8) -> Seq<char> {
    if is_unchanged(b) {
        seq![b as char]
    } else if b == ' ' as u8 {
        seq!['+']
    } else {
        seq!['%', hex_digit(b / 16), hex_digit(b % 16)]
    }
}

/// The serialization of a byte string, byte by byte.
pub open spec fn encode_bytes(bytes: Seq<u8>) -> Seq<char>
    decreases bytes.len(),
{
    if bytes.len() == 0 {
        Seq::empty()
    } else {
        encode_byte(bytes.first()) + encode_bytes(bytes.drop_first())
    }
}

/// The serialization of a text: that of its UTF-8 bytes.
pub open spec fn form_encode(text: Seq<char>) -> Seq<char> {
    encode_bytes(encode_utf8(text))
}

/// `query` followed by the pair `name=value`, after an `&` where `query`
/// already holds something.
pub open spec fn with_pair(query: Seq<char>, name: Seq<char>, value: Seq<char>) -> Seq<char> {
    let head = if query.len() > 0 {
        query.push('&')
    } else {
        query
    };
    head + form_encode(name) + seq!['='] + form_encode(value)
}

/// The query string that holds `pairs` in order.
pub open spec fn query_string(pairs: Seq<(Seq<char>, Seq<char>)>) -> Seq<char>
    decreases pairs.len(),
{
    if pairs.len() == 0 {
        Seq::empty()
    } else {
        with_pair(query_string(pairs.drop_last()), pairs.last().0, pairs.last().1)
    }
}

/// Characters that a serialized name or value is made of. None of them
/// delimits a pair (`&`), a name (`=`), a query (`?`) or a fragment (`#`).
pub open spec fn is_encoded_char(c: char) -> bool {
    ||| c == '*'
    ||| c == '-'
    ||| c == '.'
    ||| c == '_'
    ||| c == '+'
    ||| c == '%'
    ||| '0' <= c <= '9'
    ||| 'A' <= c <= 'Z'
    ||| 'a' <= c <= 'z'
}

/// Serializing one more pair appends it to the query string of the others.
pub proof fn lemma_query_string_push(
    pairs: Seq<(Seq<char>, Seq<char>)>,
    name: Seq<char>,
    value: Seq<char>,
)
    ensures
        query_string(Seq::empty()) == Seq::<char>::empty(),
        query_string(pairs.push((name, value))) == with_pair(query_string(pairs), name, value),
{
    assert(pairs.push((name, value)).drop_last() =~= pairs);
}

/// What the serialization makes of a text of letters, digits, `*-._` and
/// spaces: the text itself, with `+` for each space.
pub open spec fn plus_for_space(text: Seq<char>) -> Seq<char> {
    text.map_values(|c: char| if c == ' ' { '+' } else { c })
}

/// Whether the serialization keeps `c` or writes it as `+`.
pub open spec fn is_word_char(c: char) -> bool {
    c <= '\u{7f}' && (is_unchanged(c as u8) || c == ' ')
}

proof fn lemma_char_is_not_negative(c: char)
    ensures
        '\0' <= c,
{
}

proof fn lemma_encode_byte_chars(b: u8)
    ensures
        0 < encode_byte(b).len() <= 3,
        forall|i: int|
            0 <= i < encode_byte(b).len() ==> is_encoded_char(#[trigger] encode_byte(b)[i]),
{
    assert(b / 16 < 16 && b % 16 < 16);
}

/// A serialized byte string is made of [`is_encoded_char`] characters only.
pub proof fn lemma_encode_bytes_chars(bytes: Seq<u8>)
    ensures
        forall|i: int|
            0 <= i < encode_bytes(bytes).len() ==> is_encoded_char(
                #[trigger] encode_bytes(bytes)[i],
            ),
    decreases bytes.len(),
{
    if bytes.len() > 0 {
        let head = encode_byte(bytes.first());
        let tail = encode_bytes(bytes.drop_first());
        lemma_encode_byte_chars(bytes.first());
        lemma_encode_bytes_chars(bytes.drop_first());
        assert forall|i: int| 0 <= i < (head + tail).len() implies is_encoded_char(
            #[trigger] (head + tail)[i],
        ) by {
            if i < head.len() {
                assert((head + tail)[i] == head[i]);
            } else {
                assert((head + tail)[i] == tail[i - head.len()]);
            }
        }
    }
}

/// A serialized text holds no character that delimits pairs, names, queries
/// or fragments.
pub proof fn lemma_form_encode_chars(text: Seq<char>)
    ensures
        forall|i: int|
            0 <= i < form_encode(text).len() ==> is_encoded_char(#[trigger] form_encode(text)[i]),
        !form_encode(text).contains('&'),
        !form_encode(text).contains('='),
        !form_encode(text).contains('?'),
        !form_encode(text).contains('#'),
{
    lemma_encode_bytes_chars(encode_utf8(text));
}

proof fn lemma_encode_word_bytes(bytes: Seq<u8>)
    requires
        forall|i: int|
            0 <= i < bytes.len() ==> is_unchanged(#[trigger] bytes[i]) || bytes[i] == ' ' as u8,
    ensures
        encode_bytes(bytes) == bytes.map_values(
            |b: u8| if b == ' ' as u8 { '+' } else { b as char },
        ),
    decreases bytes.len(),
{
    let image = bytes.map_values(|b: u8| if b == ' ' as u8 { '+' } else { b as char });
    if bytes.len() > 0 {
        let rest = bytes.drop_first();
        assert forall|i: int| 0 <= i < rest.len() implies is_unchanged(#[trigger] rest[i])
            || rest[i] == ' ' as u8 by {
            assert(rest[i] == bytes[i + 1]);
        }
        lemma_encode_word_bytes(rest);
        assert(encode_bytes(bytes) =~= image);
    } else {
        assert(encode_bytes(bytes) =~= image);
    }
}

/// The serialization of a text of letters, digits, `*-._` and spaces is the
/// text itself with `+` for each space.
pub proof fn lemma_form_encode_words(text: Seq<char>)
    requires
        forall|i: int| 0 <= i < text.len() ==> is_word_char(#[trigger] text[i]),
    ensures
        form_encode(text) == plus_for_space(text),
{
    let bytes = encode_utf8(text);
    assert forall|i: int| 0 <= i < text.len() implies '\0' <= #[trigger] text[i] <= '\u{7f}' by {
        assert(is_word_char(text[i]));
        lemma_char_is_not_negative(text[i]);
    }
    is_ascii_chars_encode_utf8(text);
    assert forall|i: int| 0 <= i < bytes.len() implies is_unchanged(#[trigger] bytes[i])
        || bytes[i] == ' ' as u8 by {
        assert(is_word_char(text[i]));
    }
    lemma_encode_word_bytes(bytes);
    assert(form_encode(text) =~= plus_for_space(text)) by {
        assert forall|i: int| 0 <= i < text.len() implies form_encode(text)[i] == plus_for_space(
            text,
        )[i] by {
            assert(is_word_char(text[i]));
            assert(text[i] as u8 == bytes[i]);
        }
    }
}

/// Whether `c` is a hexadecimal digit, in either case.
pub open spec fn is_hex_digit(c: char) -> bool {
    '0' <= c <= '9' || 'A' <= c <= 'F' || 'a' <= c <= 'f'
}

/// The value of the hexadecimal digit `c`.
pub open spec fn hex_value(c: char) -> u8 {
    if '0' <= c <= '9' {
        (c as u8 - '0' as u8) as u8
    } else if 'A' <= c <= 'F' {
        (c as u8 - 'A' as u8 + 10) as u8
    } else {
        (c as u8 - 'a' as u8 + 10) as u8
    }
}

/// The bytes that a serialized text stands for: `+` is a space, `%` with two
/// hexadecimal digits is the byte they write, and every other character is
/// its own byte.
pub open spec fn decode_chars(text: Seq<char>) -> Seq<u8>
    decreases text.len(),
{
    if text.len() == 0 {
        Seq::empty()
    } else if text[0] == '%' && text.len() >= 3 && is_hex_digit(text[1]) && is_hex_digit(text[2]) {
        seq![(hex_value(text[1]) * 16 + hex_value(text[2])) as u8] + decode_chars(text.skip(3))
    } else if text[0] == '+' {
        seq![' ' as u8] + decode_chars(text.drop_first())
    } else {
        seq![text[0] as u8] + decode_chars(text.drop_first())
    }
}

/// The text that a serialized text stands for.
pub open spec fn form_decode(text: Seq<char>) -> Seq<char> {
    decode_utf8(decode_chars(text))
}

proof fn lemma_hex_digit_value(n: u8)
    requires
        n < 16,
    ensures
        is_hex_digit(hex_digit(n)),
        hex_value(hex_digit(n)) == n,
{
}

/// Decoding the serialization of a byte string gives the byte string back.
pub proof fn lemma_decode_encoded_bytes(bytes: Seq<u8>)
    ensures
        decode_chars(encode_bytes(bytes)) == bytes,
    decreases bytes.len(),
{
    if bytes.len() > 0 {
        let b = bytes.first();
        let head = encode_byte(b);
        let tail = encode_bytes(bytes.drop_first());
        let whole = head + tail;
        lemma_decode_encoded_bytes(bytes.drop_first());
        if is_unchanged(b) {
            assert(whole[0] == b as char);
            assert(whole.drop_first() =~= tail);
        } else if b == ' ' as u8 {
            assert(whole[0] == '+');
            assert(whole.drop_first() =~= tail);
        } else {
            assert(b / 16 < 16 && b % 16 < 16 && (b / 16) * 16 + b % 16 == b);
            lemma_hex_digit_value(b / 16);
            lemma_hex_digit_value(b % 16);
            assert(whole[0] == '%' && whole[1] == hex_digit(b / 16) && whole[2] == hex_digit(
                b % 16,
            ));
            assert(whole.skip(3) =~= tail);
        }
        assert(seq![b] + bytes.drop_first() =~= bytes);
    }
}

/// What was serialized can be read back: decoding the serialization of a
/// text gives the text, so no two texts serialize alike.
pub proof fn law_form_encode_reads_back(text: Seq<char>, other: Seq<char>)
    ensures
        form_decode(form_encode(text)) == text,
        form_encode(text) == form_encode(other) ==> text == other,
{
    lemma_decode_encoded_bytes(encode_utf8(text));
    lemma_decode_encoded_bytes(encode_utf8(other));
    encode_utf8_decode_utf8(text);
    encode_utf8_decode_utf8(other);
}

/// `form_urlencoded::Serializer::append_pair` of the `url` crate, on a
/// serializer made by `Serializer::new` over `query` and closed by `finish`.
/// As its source has it: an `&` goes first if the target is not empty, then
/// the name, `=` and the value, each through the byte serializer, which keeps
/// ASCII letters, digits and `*-._`, writes a space as `+`, and writes any
/// other byte of the UTF-8 text as `%` and two upper-case hexadecimal digits.
#[verifier::external_body]
fn append_pair(query: String, name: &str, value: &str) -> (r: String)
    ensures
        r@ == with_pair(query@, name@, value@),
{
    url::form_urlencoded::Serializer::new(query).append_pair(name, value).finish()
}

/// Serializes `pairs` in order into a query string.
pub fn serialize_pairs(pairs: &Vec<(String, String)>) -> (r: String)
    ensures
        r@ == query_string(pairs.deep_view()),
{
    let mut query = String::new();
    let mut i: usize = 0;
    while i < pairs.len()
        invariant
            i <= pairs.len(),
            query@ == query_string(pairs.deep_view().take(i as int)),
        decreases pairs.len() - i,
    {
        let pair = &pairs[i];
        proof {
            let done = pairs.deep_view().take(i + 1);
            assert(done.drop_last() =~= pairs.deep_view().take(i as int));
            assert(done.last() == (pair.0@, pair.1@));
        }
        query = append_pair(query, pair.0.as_str(), pair.1.as_str());
        i = i + 1;
    }
    assert(pairs.deep_view().take(i as int) =~= pairs.deep_view());
    query
}

} // verus!
