//! Base64 in the standard alphabet, with padding.
use base64::engine::general_purpose::STANDARD;
use base64::Engine;
use vstd::prelude::*;

verus! {

/// The character of the standard alphabet for six bits.
pub open spec fn sextet_char(v: int) -> char {
    if v < 26 {
        (65 + v) as char
    } else if v < 52 {
        (97 + (v - 26)) as char
    } else if v < 62 {
        (48 + (v - 52)) as char
    } else if v == 62 {
        '+'
    } else {
        '/'
    }
}

/// A byte, or zero behind the end.
pub open spec fn byte_or_zero(bytes: Seq<u8>, i: int) -> int {
    if i < bytes.len() {
        bytes[i] as int
    } else {
        0
    }
}

/// The 24 bits of the group of three bytes that begins at byte `i`.
pub open spec fn group_bits(bytes: Seq<u8>, i: int) -> int {
    65536 * byte_or_zero(bytes, i) + 256 * byte_or_zero(bytes, i + 1) + byte_or_zero(bytes, i + 2)
}

/// The place value of the `k`th of four groups of six bits.
pub open spec fn sextet_weight(k: int) -> int {
    if k == 0 {
        262144
    } else if k == 1 {
        4096
    } else if k == 2 {
        64
    } else {
        1
    }
}

/// The Base64 text of `bytes`: four characters for each group of three bytes, six bits each;
/// padding stands where no bit of a byte is left.
pub open spec fn base64_text(bytes: Seq<u8>) -> Seq<char> {
    Seq::new(
        base64_length(bytes.len()),
        |j: int|
            if 6 * j >= 8 * bytes.len() {
                '='
            } else {
                sextet_char(group_bits(bytes, 3 * (j / 4)) / sextet_weight(j % 4) % 64)
            },
    )
}

/// The length of the Base64 text of so many bytes.
pub open spec fn base64_length(count: nat) -> nat {
    (count + 2) / 3 * 4
}

/// Whether memory could hold the Base64 text of so many bytes.
pub fn fits(count: usize) -> (fit: bool)
    ensures
        fit == (base64_length(count as nat) <= isize::MAX),
{
    let groups = count / 3 + if count % 3 == 0 { 0 } else { 1 };
    groups <= isize::MAX as usize / 4
}

/// Calls `base64::Engine::encode` of the engine `STANDARD`.
///
/// Trusted: the result is the Base64 text of RFC 4648 in the standard alphabet, with padding. A
/// text that is too long for any allocation is left out: the call would panic on it.
#[verifier::external_body]
pub(crate) fn encode_standard(bytes: &[u8]) -> (text: String)
    requires
        base64_length(bytes@.len()) <= isize::MAX,
    ensures
        text@ == base64_text(bytes@),
{
    STANDARD.encode(bytes)
}

/// The six bits that a character of the standard alphabet stands for; none for padding.
pub open spec fn sextet_value(c: char) -> int {
    if 'A' <= c && c <= 'Z' {
        c as int - 65
    } else if 'a' <= c && c <= 'z' {
        c as int - 97 + 26
    } else if '0' <= c && c <= '9' {
        c as int - 48 + 52
    } else if c == '+' {
        62
    } else if c == '/' {
        63
    } else {
        0
    }
}

/// How many characters of padding stand at the end of a Base64 text.
pub open spec fn padding(text: Seq<char>) -> int {
    if text.len() < 4 || text.last() != '=' {
        0
    } else if text[text.len() - 2] != '=' {
        1
    } else {
        2
    }
}

/// The place value of the `k`th of three bytes.
pub open spec fn byte_weight(k: int) -> int {
    if k == 0 {
        65536
    } else if k == 1 {
        256
    } else {
        1
    }
}

/// The 24 bits of the group of four characters that begins at character `j`.
pub open spec fn quad_bits(text: Seq<char>, j: int) -> int {
    262144 * sextet_value(text[j]) + 4096 * sextet_value(text[j + 1]) + 64 * sextet_value(
        text[j + 2],
    ) + sextet_value(text[j + 3])
}

/// The bytes that a Base64 text stands for.
pub open spec fn base64_bytes(text: Seq<char>) -> Seq<u8> {
    Seq::new(
        (text.len() / 4 * 3 - padding(text)) as nat,
        |i: int| (quad_bits(text, 4 * (i / 3)) / byte_weight(i % 3) % 256) as u8,
    )
}

proof fn lemma_sextet(v: int)
    requires
        0 <= v < 64,
    ensures
        sextet_value(sextet_char(v)) == v,
        sextet_char(v) != '=',
        sextet_char(v) != '\n',
{
}

/// Six bits at a time add up to the whole.
proof fn lemma_sextets_add_up(bits: int)
    requires
        0 <= bits < 16777216,
    ensures
        bits == 262144 * (bits / 262144 % 64) + 4096 * (bits / 4096 % 64) + 64 * (bits / 64 % 64)
            + bits % 64,
{
    assert(bits / 4096 == bits / 64 / 64);
    assert(bits / 262144 == bits / 4096 / 64);
}

/// Eight bits at a time are the bytes.
proof fn lemma_bytes_of_bits(b0: int, b1: int, b2: int)
    requires
        0 <= b0 < 256,
        0 <= b1 < 256,
        0 <= b2 < 256,
    ensures
        (65536 * b0 + 256 * b1 + b2) / 65536 % 256 == b0,
        (65536 * b0 + 256 * b1 + b2) / 256 % 256 == b1,
        (65536 * b0 + 256 * b1 + b2) % 256 == b2,
{
    let bits = 65536 * b0 + 256 * b1 + b2;
    assert(bits / 256 == 256 * b0 + b1);
    assert(bits / 65536 == b0);
}

proof fn lemma_char_value(bytes: Seq<u8>, g: int, k: int)
    requires
        0 <= g,
        3 * g < bytes.len(),
        0 <= k < 4,
    ensures
        4 * g + k < base64_length(bytes.len()),
        sextet_value(base64_text(bytes)[4 * g + k]) == group_bits(bytes, 3 * g) / sextet_weight(k)
            % 64,
{
    let j = 4 * g + k;
    assert(j / 4 == g && j % 4 == k);
    let bits = group_bits(bytes, 3 * g);
    let v = bits / sextet_weight(k) % 64;
    if 6 * j >= 8 * bytes.len() {
        assert(k >= 2);
        assert(byte_or_zero(bytes, 3 * g + 2) == 0);
        if k == 2 {
            assert(byte_or_zero(bytes, 3 * g + 1) == 0);
            assert(bits == 64 * (64 * (16 * byte_or_zero(bytes, 3 * g))));
        } else {
            assert(bits == 64 * (1024 * byte_or_zero(bytes, 3 * g) + 4 * byte_or_zero(
                bytes,
                3 * g + 1,
            )));
        }
        assert(v == 0);
    } else {
        lemma_sextet(v);
    }
}

proof fn lemma_quad_is_group(bytes: Seq<u8>, g: int)
    requires
        0 <= g,
        3 * g < bytes.len(),
    ensures
        quad_bits(base64_text(bytes), 4 * g) == group_bits(bytes, 3 * g),
{
    lemma_char_value(bytes, g, 0);
    lemma_char_value(bytes, g, 1);
    lemma_char_value(bytes, g, 2);
    lemma_char_value(bytes, g, 3);
    lemma_sextets_add_up(group_bits(bytes, 3 * g));
}

proof fn lemma_decoded_length(bytes: Seq<u8>)
    ensures
        base64_text(bytes).len() / 4 * 3 - padding(base64_text(bytes)) == bytes.len(),
{
    let text = base64_text(bytes);
    if bytes.len() > 0 {
        let last = text.len() - 1;
        lemma_data_char(bytes, last);
        lemma_data_char(bytes, last - 1);
    }
}

/// Decoding the Base64 text of some bytes gives these bytes back.
pub proof fn law_base64_decodes(bytes: Seq<u8>)
    ensures
        base64_bytes(base64_text(bytes)) == bytes,
{
    let text = base64_text(bytes);
    lemma_decoded_length(bytes);
    assert forall|i: int| 0 <= i < bytes.len() implies #[trigger] base64_bytes(text)[i]
        == bytes[i] by {
        let g = i / 3;
        lemma_quad_is_group(bytes, g);
        lemma_bytes_of_bits(
            byte_or_zero(bytes, 3 * g),
            byte_or_zero(bytes, 3 * g + 1),
            byte_or_zero(bytes, 3 * g + 2),
        );
        assert(i == 3 * g + i % 3);
    }
    assert(base64_bytes(text) =~= bytes);
}

/// Padding stands only behind the data.
proof fn lemma_data_char(bytes: Seq<u8>, j: int)
    requires
        0 <= j < base64_length(bytes.len()),
    ensures
        base64_text(bytes)[j] == '=' <==> 6 * j >= 8 * bytes.len(),
        base64_text(bytes)[j] != '\n',
{
    if 6 * j < 8 * bytes.len() {
        let v = group_bits(bytes, 3 * (j / 4)) / sextet_weight(j % 4) % 64;
        lemma_sextet(v);
    }
}

/// A Base64 text is a single line.
pub proof fn law_base64_is_one_line(bytes: Seq<u8>)
    ensures
        !base64_text(bytes).contains('\n'),
{
    let text = base64_text(bytes);
    if text.contains('\n') {
        let j = text.index_of('\n');
        lemma_data_char(bytes, j);
    }
}

} // verus!
