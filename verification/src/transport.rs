//! Text-safe transport encoding of image bytes.
//!
//! The encoded image crosses the process boundary as standard base64 text:
//! the alphabet `A-Z a-z 0-9 + /`, `=` padding, and no line breaks.

use vstd::prelude::*;
use base64::Engine;

verus! {

/// The character that stands for the six-bit value `value`.
pub open spec fn alphabet_char(value: int) -> char {
    if value < 26 {
        ('A' as int + value) as char
    } else if value < 52 {
        ('a' as int + value - 26) as char
    } else if value < 62 {
        ('0' as int + value - 52) as char
    } else if value == 62 {
        '+'
    } else {
        '/'
    }
}

/// The byte at `index`, or zero past the end.
pub open spec fn byte_or_zero(bytes: Seq<u8>, index: int) -> int {
    if 0 <= index < bytes.len() {
        bytes[index] as int
    } else {
        0
    }
}

/// The six-bit group number `index` of the bits of `bytes`, taken most
/// significant bit first and continued with zero bits.
pub open spec fn sextet(bytes: Seq<u8>, index: int) -> int {
    let first = byte_or_zero(bytes, 3 * (index / 4));
    let second = byte_or_zero(bytes, 3 * (index / 4) + 1);
    let third = byte_or_zero(bytes, 3 * (index / 4) + 2);
    if index % 4 == 0 {
        first / 4
    } else if index % 4 == 1 {
        (first % 4) * 16 + second / 16
    } else if index % 4 == 2 {
        (second % 16) * 4 + third / 64
    } else {
        third % 64
    }
}

/// The length of the text that encodes `count` bytes.
pub open spec fn text_len(count: nat) -> nat {
    4 * ((count + 2) / 3)
}

/// The number of characters of that text that carry data; the rest is
/// padding.
pub open spec fn digit_count(count: nat) -> nat {
    (4 * count + 2) / 3
}

/// The standard base64 text of `bytes`.
pub open spec fn base64_text(bytes: Seq<u8>) -> Seq<char> {
    Seq::new(
        text_len(bytes.len()),
        |i: int|
            if i < digit_count(bytes.len()) {
                alphabet_char(sextet(bytes, i))
            } else {
                '='
            },
    )
}

/// The six-bit value that `c` stands for, if it belongs to the alphabet.
pub open spec fn digit_value(c: char) -> Option<int> {
    if 'A' <= c <= 'Z' {
        Some(c as int - 'A' as int)
    } else if 'a' <= c <= 'z' {
        Some(c as int - 'a' as int + 26)
    } else if '0' <= c <= '9' {
        Some(c as int - '0' as int + 52)
    } else if c == '+' {
        Some(62)
    } else if c == '/' {
        Some(63)
    } else {
        None
    }
}

/// The character is one that the transport text is made of: a letter or a
/// digit of the basic Latin alphabet, `+`, `/` or `=`.
pub open spec fn is_transport_char(c: char) -> bool {
    digit_value(c) is Some || c == '='
}

/// The number of padding characters at the end of `text`: none, one or two.
pub open spec fn padding_len(text: Seq<char>) -> nat {
    if text.len() >= 1 && text[text.len() - 1] == '=' {
        if text.len() >= 2 && text[text.len() - 2] == '=' {
            2
        } else {
            1
        }
    } else {
        0
    }
}

/// The value of the character at `index`, or zero where it has none.
pub open spec fn value_at(text: Seq<char>, index: int) -> int {
    match digit_value(text[index]) {
        Some(value) => value,
        None => 0,
    }
}

/// The number of bytes that `text` decodes to.
pub open spec fn decoded_len(text: Seq<char>) -> nat {
    (3 * (text.len() / 4) - padding_len(text)) as nat
}

/// Byte number `index` of what `text` decodes to.
pub open spec fn decoded_byte(text: Seq<char>, index: int) -> int {
    let first = value_at(text, 4 * (index / 3));
    let second = value_at(text, 4 * (index / 3) + 1);
    let third = value_at(text, 4 * (index / 3) + 2);
    let fourth = value_at(text, 4 * (index / 3) + 3);
    if index % 3 == 0 {
        first * 4 + second / 16
    } else if index % 3 == 1 {
        (second % 16) * 16 + third / 4
    } else {
        (third % 4) * 64 + fourth
    }
}

/// `text` is canonical standard base64: whole groups of four characters, at
/// most two padding characters at the very end, every other character from
/// the alphabet, and no stray bits in the last data character.
pub open spec fn is_base64(text: Seq<char>) -> bool {
    let digits = text.len() - padding_len(text);
    &&& text.len() % 4 == 0
    &&& forall|i: int| 0 <= i < digits ==> (#[trigger] digit_value(text[i])) is Some
    &&& padding_len(text) == 1 ==> value_at(text, digits - 1) % 4 == 0
    &&& padding_len(text) == 2 ==> value_at(text, digits - 1) % 16 == 0
}

/// What `text` decodes to, if it is canonical standard base64.
pub open spec fn base64_decoded(text: Seq<char>) -> Option<Seq<u8>> {
    if is_base64(text) {
        Some(Seq::new(decoded_len(text), |j: int| decoded_byte(text, j) as u8))
    } else {
        None
    }
}

/// The alphabet is one to one: every six-bit value is read back from its
/// character.
pub proof fn lemma_digit_of_alphabet(value: int)
    requires
        0 <= value < 64,
    ensures
        digit_value(alphabet_char(value)) == Some(value),
        alphabet_char(value) != '=',
{
}

/// Every six-bit group of a byte sequence is a six-bit value.
pub proof fn lemma_sextet_range(bytes: Seq<u8>, index: int)
    requires
        0 <= index,
    ensures
        0 <= sextet(bytes, index) < 64,
{
}

/// Three bytes are read back from the four six-bit groups they are split
/// into.
proof fn lemma_regroup(first: int, second: int, third: int)
    requires
        0 <= first < 256,
        0 <= second < 256,
        0 <= third < 256,
    ensures
        (first / 4) * 4 + ((first % 4) * 16 + second / 16) / 16 == first,
        (((first % 4) * 16 + second / 16) % 16) * 16 + ((second % 16) * 4 + third / 64) / 4
            == second,
        (((second % 16) * 4 + third / 64) % 4) * 64 + third % 64 == third,
        ((first % 4) * 16) % 16 == 0,
        ((second % 16) * 4) % 4 == 0,
{
}

/// The data characters of the transport text are the characters of the
/// six-bit groups, and what follows them is padding.
proof fn lemma_text_shape(bytes: Seq<u8>)
    ensures
        base64_text(bytes).len() == text_len(bytes.len()),
        digit_count(bytes.len()) <= text_len(bytes.len()),
        padding_len(base64_text(bytes)) == text_len(bytes.len()) - digit_count(bytes.len()),
        forall|i: int|
            0 <= i < digit_count(bytes.len()) ==> digit_value(#[trigger] base64_text(bytes)[i])
                == Some(sextet(bytes, i)),
{
    let text = base64_text(bytes);
    let digits = digit_count(bytes.len()) as int;
    assert forall|i: int| 0 <= i < digits implies digit_value(#[trigger] text[i]) == Some(
        sextet(bytes, i),
    ) && text[i] != '=' by {
        lemma_sextet_range(bytes, i);
        lemma_digit_of_alphabet(sextet(bytes, i));
    }
    if bytes.len() % 3 == 0 {
        if bytes.len() > 0 {
            assert(text[text.len() - 1] != '=');
        }
    } else if bytes.len() % 3 == 1 {
        assert(text[text.len() - 1] == '=');
        assert(text[text.len() - 2] == '=');
    } else {
        assert(text[text.len() - 1] == '=');
        assert(text[text.len() - 2] != '=');
    }
}

/// The transport text of a byte sequence is canonical standard base64.
proof fn lemma_text_is_base64(bytes: Seq<u8>)
    ensures
        is_base64(base64_text(bytes)),
        decoded_len(base64_text(bytes)) == bytes.len(),
{
    let text = base64_text(bytes);
    let count = bytes.len() as int;
    let digits = digit_count(bytes.len()) as int;
    lemma_text_shape(bytes);
    assert(text.len() - padding_len(text) == digits);
    assert forall|i: int| 0 <= i < digits implies (#[trigger] digit_value(text[i])) is Some by {
        assert(digit_value(text[i]) == Some(sextet(bytes, i)));
    }
    if count % 3 != 0 {
        let last = digits - 1;
        let group = last / 4;
        assert(digit_value(text[last]) == Some(sextet(bytes, last)));
        lemma_regroup(
            byte_or_zero(bytes, 3 * group),
            byte_or_zero(bytes, 3 * group + 1),
            byte_or_zero(bytes, 3 * group + 2),
        );
        if count % 3 == 1 {
            assert(last % 4 == 1);
            assert(byte_or_zero(bytes, 3 * group + 1) == 0);
        } else {
            assert(last % 4 == 2);
            assert(byte_or_zero(bytes, 3 * group + 2) == 0);
        }
    }
}

/// Every byte is read back from the transport text at its own position.
proof fn lemma_decoded_byte(bytes: Seq<u8>, index: int)
    requires
        0 <= index < bytes.len(),
    ensures
        decoded_byte(base64_text(bytes), index) == bytes[index],
{
    let text = base64_text(bytes);
    let group = index / 3;
    let digits = digit_count(bytes.len()) as int;
    lemma_text_shape(bytes);
    lemma_regroup(
        byte_or_zero(bytes, 3 * group),
        byte_or_zero(bytes, 3 * group + 1),
        byte_or_zero(bytes, 3 * group + 2),
    );
    assert(4 * group + (index % 3) + 1 < digits);
    assert(digit_value(text[4 * group]) == Some(sextet(bytes, 4 * group)));
    assert(digit_value(text[4 * group + 1]) == Some(sextet(bytes, 4 * group + 1)));
    assert((4 * group) / 4 == group && (4 * group) % 4 == 0);
    assert((4 * group + 1) / 4 == group && (4 * group + 1) % 4 == 1);
    assert((4 * group + 2) / 4 == group && (4 * group + 2) % 4 == 2);
    assert((4 * group + 3) / 4 == group && (4 * group + 3) % 4 == 3);
    if index % 3 >= 1 {
        assert(digit_value(text[4 * group + 2]) == Some(sextet(bytes, 4 * group + 2)));
    }
    if index % 3 == 2 {
        assert(digit_value(text[4 * group + 3]) == Some(sextet(bytes, 4 * group + 3)));
    }
}

/// Decoding the transport text of a byte sequence reproduces exactly that
/// byte sequence.
pub proof fn lemma_transport_round_trip(bytes: Seq<u8>)
    ensures
        base64_decoded(base64_text(bytes)) == Some(bytes),
{
    let text = base64_text(bytes);
    lemma_text_is_base64(bytes);
    let decoded = base64_decoded(text).unwrap();
    assert forall|j: int| 0 <= j < bytes.len() implies decoded[j] == bytes[j] by {
        lemma_decoded_byte(bytes, j);
    }
    assert(decoded =~= bytes);
}

/// The transport text is safe to pass on as text: it consists of letters and
/// digits of the basic Latin alphabet, `+`, `/` and `=` and holds no line
/// break or other white space.
pub proof fn lemma_transport_text_is_plain(bytes: Seq<u8>)
    ensures
        forall|i: int|
            0 <= i < base64_text(bytes).len() ==> is_transport_char(
                #[trigger] base64_text(bytes)[i],
            ),
{
    lemma_text_shape(bytes);
}

/// Two byte sequences with the same transport text are the same sequence.
pub proof fn lemma_transport_text_is_injective(first: Seq<u8>, second: Seq<u8>)
    requires
        base64_text(first) == base64_text(second),
    ensures
        first == second,
{
    lemma_transport_round_trip(first);
    lemma_transport_round_trip(second);
}

/// Calls `Engine::encode` of the `base64` crate on its `STANDARD` engine.
///
/// Trusted: the engine writes, for every six bits of the input, the
/// character of the standard alphabet, and pads the last group of four
/// characters with `=`. The engine panics where the length of the text
/// cannot be represented, so such inputs are excluded.
#[verifier::external_body]
fn standard_base64(bytes: &[u8]) -> (text: String)
    requires
        text_len(bytes@.len()) <= usize::MAX,
    ensures
        text@ == base64_text(bytes@),
{
    base64::engine::general_purpose::STANDARD.encode(bytes)
}

/// Encodes image bytes as standard base64 text without line breaks.
///
/// The length of the text must fit the address space: an image so large
/// that it does not could not be held in memory together with its text.
pub fn encode_transport(image: &[u8]) -> (text: String)
    requires
        text_len(image@.len()) <= usize::MAX,
    ensures
        text@ == base64_text(image@),
        text@.len() == text_len(image@.len()),
        forall|i: int| 0 <= i < text@.len() ==> is_transport_char(#[trigger] text@[i]),
        base64_decoded(text@) == Some(image@),
{
    proof {
        lemma_transport_text_is_plain(image@);
        lemma_transport_round_trip(image@);
    }
    standard_base64(image)
}

} // verus!
