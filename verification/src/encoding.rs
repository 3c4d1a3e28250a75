//! Base64 (RFC 4648, with padding) as a mathematical function on bytes, and the
//! two encoders of the `base64` crate that compute it.

use vstd::prelude::*;
use vstd::string::{is_ascii, is_ascii_spec_bytes, StringSliceAdditionalSpecFns};

verus! {

/// The two sets of 64 digits. They differ in the last two digits only.
#[derive(Clone, Copy, Debug, PartialEq, Eq, Structural)]
pub enum Alphabet {
    /// `A-Z a-z 0-9 + /`
    Standard,
    /// `A-Z a-z 0-9 - _`
    UrlSafe,
}

/// The padding character that fills the last group of four.
pub open spec fn pad_char() -> char {
    '='
}

/// The digit that stands for the six-bit value `v`.
pub open spec fn digit(alphabet: Alphabet, v: int) -> char {
    if v < 26 {
        ('A' as int + v) as char
    } else if v < 52 {
        ('a' as int + (v - 26)) as char
    } else if v < 62 {
        ('0' as int + (v - 52)) as char
    } else if v == 62 {
        match alphabet {
            Alphabet::Standard => '+',
            Alphabet::UrlSafe => '-',
        }
    } else {
        match alphabet {
            Alphabet::Standard => '/',
            Alphabet::UrlSafe => '_',
        }
    }
}

/// The byte at `j`, or zero past the end of the input.
pub open spec fn octet(bytes: Seq<u8>, j: int) -> int {
    if 0 <= j < bytes.len() {
        bytes[j] as int
    } else {
        0
    }
}

/// The six-bit value at output position `i`: every three bytes are read as
/// 24 bits, most significant first, and cut into four groups of six.
pub open spec fn sextet(bytes: Seq<u8>, i: int) -> int {
    let b0 = octet(bytes, 3 * (i / 4));
    let b1 = octet(bytes, 3 * (i / 4) + 1);
    let b2 = octet(bytes, 3 * (i / 4) + 2);
    if i % 4 == 0 {
        b0 / 4
    } else if i % 4 == 1 {
        (b0 % 4) * 16 + b1 / 16
    } else if i % 4 == 2 {
        (b1 % 16) * 4 + b2 / 64
    } else {
        b2 % 64
    }
}

/// Whether output position `i` holds no bit of an input of `len` bytes.
pub open spec fn is_padding(len: nat, i: int) -> bool {
    ||| i % 4 == 2 && 3 * (i / 4) + 1 >= len
    ||| i % 4 == 3 && 3 * (i / 4) + 2 >= len
}

/// Length of the encoding of `len` bytes: four characters for every started
/// group of three bytes.
pub open spec fn encoded_len(len: nat) -> nat {
    4 * ((len + 2) / 3) as nat
}

/// The padded base64 encoding of `bytes` in `alphabet`.
pub open spec fn encoded(alphabet: Alphabet, bytes: Seq<u8>) -> Seq<char> {
    Seq::new(
        encoded_len(bytes.len()),
        |i: int|
            if is_padding(bytes.len(), i) {
                pad_char()
            } else {
                digit(alphabet, sextet(bytes, i))
            },
    )
}

/// Whether `c` is a digit of `alphabet` or the padding character.
pub open spec fn in_alphabet(alphabet: Alphabet, c: char) -> bool {
    ||| 'A' <= c <= 'Z'
    ||| 'a' <= c <= 'z'
    ||| '0' <= c <= '9'
    ||| c == pad_char()
    ||| alphabet == Alphabet::Standard && (c == '+' || c == '/')
    ||| alphabet == Alphabet::UrlSafe && (c == '-' || c == '_')
}

/// Six-bit values stay below 64.
pub proof fn lemma_sextet_range(bytes: Seq<u8>, i: int)
    ensures
        0 <= sextet(bytes, i) < 64,
{
}

/// Distinct six-bit values have distinct digits, and no digit is the padding
/// character.
pub proof fn lemma_digit_injective(alphabet: Alphabet, v: int, w: int)
    requires
        0 <= v < 64,
        0 <= w < 64,
    ensures
        digit(alphabet, v) != pad_char(),
        in_alphabet(alphabet, digit(alphabet, v)),
        digit(alphabet, v) == digit(alphabet, w) ==> v == w,
{
}

/// Every character of an encoding belongs to its alphabet.
pub proof fn lemma_encoded_in_alphabet(alphabet: Alphabet, bytes: Seq<u8>)
    ensures
        forall|i: int|
            0 <= i < encoded(alphabet, bytes).len() ==> in_alphabet(
                alphabet,
                #[trigger] encoded(alphabet, bytes)[i],
            ),
{
    assert forall|i: int| 0 <= i < encoded(alphabet, bytes).len() implies in_alphabet(
        alphabet,
        #[trigger] encoded(alphabet, bytes)[i],
    ) by {
        lemma_sextet_range(bytes, i);
        lemma_digit_injective(alphabet, sextet(bytes, i), 0);
    }
}

/// Two inputs with the same encoding have the same length: the number of
/// groups fixes the length up to two bytes, and the padding fixes the rest.
pub proof fn lemma_encoded_len_injective(alphabet: Alphabet, a: Seq<u8>, b: Seq<u8>)
    requires
        encoded(alphabet, a) == encoded(alphabet, b),
    ensures
        a.len() == b.len(),
{
    let ea = encoded(alphabet, a);
    let eb = encoded(alphabet, b);
    assert(ea.len() == encoded_len(a.len()));
    assert(eb.len() == encoded_len(b.len()));
    if a.len() != b.len() {
        let groups = (a.len() + 2) / 3;
        assert(groups == (b.len() + 2) / 3);
        assert(groups >= 1);
        let i2 = 4 * (groups - 1) + 2;
        let i3 = 4 * (groups - 1) + 3;
        assert(i2 / 4 == groups - 1 && i2 % 4 == 2);
        assert(i3 / 4 == groups - 1 && i3 % 4 == 3);
        lemma_sextet_range(a, i2);
        lemma_sextet_range(a, i3);
        lemma_sextet_range(b, i2);
        lemma_sextet_range(b, i3);
        lemma_digit_injective(alphabet, sextet(a, i2), sextet(b, i2));
        lemma_digit_injective(alphabet, sextet(a, i3), sextet(b, i3));
        lemma_digit_injective(alphabet, sextet(b, i2), sextet(a, i2));
        lemma_digit_injective(alphabet, sextet(b, i3), sextet(a, i3));
        assert(ea[i2] == eb[i2]);
        assert(ea[i3] == eb[i3]);
        assert(is_padding(a.len(), i2) == is_padding(b.len(), i2));
        assert(is_padding(a.len(), i3) == is_padding(b.len(), i3));
        assert(false);
    }
}

/// Encoding loses nothing: two inputs with the same encoding are the same
/// bytes.
pub proof fn lemma_encoded_injective(alphabet: Alphabet, a: Seq<u8>, b: Seq<u8>)
    requires
        encoded(alphabet, a) == encoded(alphabet, b),
    ensures
        a == b,
{
    lemma_encoded_len_injective(alphabet, a, b);
    let ea = encoded(alphabet, a);
    let eb = encoded(alphabet, b);
    assert forall|j: int| 0 <= j < a.len() implies a[j] == b[j] by {
        let g = j / 3;
        let i = 4 * g + j % 3;
        // The byte at `j` is spread over the digits at `i` and `i + 1`.
        assert(i / 4 == g && i % 4 == j % 3);
        assert((i + 1) / 4 == g && (i + 1) % 4 == j % 3 + 1);
        assert(i + 1 < ea.len());
        assert(!is_padding(a.len(), i));
        assert(!is_padding(a.len(), i + 1));
        lemma_sextet_range(a, i);
        lemma_sextet_range(b, i);
        lemma_sextet_range(a, i + 1);
        lemma_sextet_range(b, i + 1);
        lemma_digit_injective(alphabet, sextet(a, i), sextet(b, i));
        lemma_digit_injective(alphabet, sextet(a, i + 1), sextet(b, i + 1));
        assert(ea[i] == eb[i]);
        assert(ea[i + 1] == eb[i + 1]);
        assert(sextet(a, i) == sextet(b, i));
        assert(sextet(a, i + 1) == sextet(b, i + 1));
        assert(octet(a, j) == a[j] as int);
        assert(octet(b, j) == b[j] as int);
    }
    assert(a =~= b);
}

/// The character of the encoding of `bytes` at the position `i`, as a byte.
fn encoded_byte(alphabet: Alphabet, bytes: &Vec<u8>, i: usize) -> (byte: u8)
    requires
        i < encoded_len(bytes@.len()),
    ensures
        byte as char == encoded(alphabet, bytes@)[i as int],
        byte < 128,
{
    let group = i / 4;
    let place = i % 4;
    let len = bytes.len();
    assert(3 * group + 2 <= len + 2) by (nonlinear_arith)
        requires
            i < 4 * ((len + 2) / 3),
            group == i / 4,
    ;
    let first = 3 * group;
    let b0: u8 = bytes[first];
    let b1: u8 = if first + 1 < len {
        bytes[first + 1]
    } else {
        0
    };
    let b2: u8 = if first + 2 < len {
        bytes[first + 2]
    } else {
        0
    };
    if (place == 2 && first + 1 >= len) || (place == 3 && first + 2 >= len) {
        return 61;
    }
    let value: u8 = if place == 0 {
        b0 / 4
    } else if place == 1 {
        (b0 % 4) * 16 + b1 / 16
    } else if place == 2 {
        (b1 % 16) * 4 + b2 / 64
    } else {
        b2 % 64
    };
    assert(value as int == sextet(bytes@, i as int));
    if value < 26 {
        65 + value
    } else if value < 52 {
        97 + (value - 26)
    } else if value < 62 {
        48 + (value - 52)
    } else if value == 62 {
        match alphabet {
            Alphabet::Standard => 43,
            Alphabet::UrlSafe => 45,
        }
    } else {
        match alphabet {
            Alphabet::Standard => 47,
            Alphabet::UrlSafe => 95,
        }
    }
}

/// Whether `text` is the padded base64 encoding of `bytes` in `alphabet`.
/// This decides the very statement that the contracts of the two encoders
/// below make, so that what they return can be held against it.
pub fn is_encoding_of(alphabet: Alphabet, text: &str, bytes: &Vec<u8>) -> (same: bool)
    ensures
        same == (text@ == encoded(alphabet, bytes@)),
{
    let ghost expected = encoded(alphabet, bytes@);
    proof {
        lemma_encoded_in_alphabet(alphabet, bytes@);
    }
    if !text.is_ascii() {
        assert(text@ != expected) by {
            if text@ == expected {
                assert forall|i: int| 0 <= i < text@.len() implies '\0' <= #[trigger] text@[i]
                    <= '\u{7f}' by {
                    assert(in_alphabet(alphabet, expected[i]));
                }
            }
        }
        return false;
    }
    let chars = text.as_bytes_vec();
    proof {
        is_ascii_spec_bytes(text);
    }
    assert(chars@.len() == text@.len());
    let groups = bytes.len() / 3 + if bytes.len() % 3 == 0 {
        0
    } else {
        1
    };
    assert(groups == (bytes@.len() + 2) / 3);
    if chars.len() % 4 != 0 || chars.len() / 4 != groups {
        assert(text@.len() != expected.len());
        return false;
    }
    assert(chars@.len() == encoded_len(bytes@.len()));
    let mut i: usize = 0;
    while i < chars.len()
        invariant
            0 <= i <= chars@.len(),
            chars@.len() == text@.len(),
            chars@.len() == encoded_len(bytes@.len()),
            expected == encoded(alphabet, bytes@),
            is_ascii(text),
            chars@ == text.spec_bytes(),
            text.spec_bytes() =~= Seq::new(text@.len(), |k: int| text@.index(k) as u8),
            forall|k: int| 0 <= k < i ==> text@[k] == expected[k],
        decreases chars@.len() - i,
    {
        let byte = encoded_byte(alphabet, bytes, i);
        assert(chars@[i as int] == text@[i as int] as u8);
        assert('\0' <= text@[i as int] <= '\u{7f}');
        if chars[i] != byte {
            assert(text@[i as int] != expected[i as int]);
            return false;
        }
        assert(text@[i as int] == expected[i as int]);
        i += 1;
    }
    assert(text@ =~= expected);
    true
}

/// Whether the encoding of `len` bytes fits a buffer: the encoders panic
/// where the size of their output overflows, and no buffer is longer than
/// `isize::MAX`.
pub open spec fn fits(len: nat) -> bool {
    encoded_len(len) <= isize::MAX
}

/// Whether the encoding of `len` bytes fits a buffer.
pub fn can_encode(len: usize) -> (ok: bool)
    ensures
        ok == fits(len as nat),
{
    let groups = len / 3 + if len % 3 == 0 {
        0
    } else {
        1
    };
    assert(groups == (len + 2) / 3);
    groups <= (isize::MAX as usize) / 4
}

/// Calls `base64::encode`, which encodes with the standard alphabet and with
/// padding. The contract states the whole result: it is the string `encoded`
/// gives for these bytes. The length bound keeps the crate from panicking
/// over the size of its output.
#[verifier::external_body]
pub(crate) fn encode_standard(bytes: &Vec<u8>) -> (text: String)
    requires
        fits(bytes@.len()),
    ensures
        text@ == encoded(Alphabet::Standard, bytes@),
{
    base64::encode(bytes)
}

/// Calls `base64::encode_config` with the crate's `URL_SAFE` configuration:
/// the URL-safe alphabet, with padding. The contract states the whole result,
/// under the same length bound as for the standard alphabet.
#[verifier::external_body]
pub(crate) fn encode_url_safe(bytes: &Vec<u8>) -> (text: String)
    requires
        fits(bytes@.len()),
    ensures
        text@ == encoded(Alphabet::UrlSafe, bytes@),
{
    base64::encode_config(bytes, base64::URL_SAFE)
}

} // verus!
