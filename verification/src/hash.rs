//! The content hash of an upload: the SHA-1 digest of the bytes, in lower-case
//! hexadecimal.

use sha1::{Digest, Sha1};
use vstd::prelude::*;
use vstd::string::StringExecFns;

verus! {

/// The SHA-1 digest of a byte sequence, as the `sha1` crate computes it.
pub uninterp spec fn sha1_of(data: Seq<u8>) -> Seq<u8>;

/// The number of bytes in a SHA-1 digest.
pub const DIGEST_LEN: usize = 20;

/// `sha1::Sha1::digest` (the `Digest::digest` of the `digest` crate): feeds the
/// bytes to a fresh hasher and finalizes it. The result depends on the bytes
/// alone and is 20 bytes long, the output size that `Sha1Core` declares.
#[verifier::external_body]
fn sha1_digest(data: &[u8]) -> (digest: Vec<u8>)
    ensures
        digest@ == sha1_of(data@),
        digest@.len() == DIGEST_LEN,
{
    Sha1::digest(data).to_vec()
}

/// The lower-case hexadecimal digit of a value below 16.
pub open spec fn hex_digit(n: u8) -> char {
    if n == 0 {
        '0'
    } else if n == 1 {
        '1'
    } else if n == 2 {
        '2'
    } else if n == 3 {
        '3'
    } else if n == 4 {
        '4'
    } else if n == 5 {
        '5'
    } else if n == 6 {
        '6'
    } else if n == 7 {
        '7'
    } else if n == 8 {
        '8'
    } else if n == 9 {
        '9'
    } else if n == 10 {
        'a'
    } else if n == 11 {
        'b'
    } else if n == 12 {
        'c'
    } else if n == 13 {
        'd'
    } else if n == 14 {
        'e'
    } else {
        'f'
    }
}

/// The character at position `i` of the hexadecimal form of `bytes`: the high
/// half of a byte comes first, then its low half.
pub open spec fn hex_char_at(bytes: Seq<u8>, i: int) -> char {
    if i % 2 == 0 {
        hex_digit(bytes[i / 2] / 16)
    } else {
        hex_digit(bytes[i / 2] % 16)
    }
}

/// The lower-case hexadecimal form of a byte sequence: two digits per byte.
pub open spec fn hex_lower(bytes: Seq<u8>) -> Seq<char> {
    Seq::new(2 * bytes.len(), |i: int| hex_char_at(bytes, i))
}

/// Whether a character is a lower-case hexadecimal digit.
pub open spec fn is_lower_hex(c: char) -> bool {
    ('0' <= c && c <= '9') || ('a' <= c && c <= 'f')
}

/// The hexadecimal form of a byte sequence has two characters per byte, each
/// a lower-case hexadecimal digit, and two byte sequences with the same form
/// are the same.
pub proof fn lemma_hex_lower_is_faithful(a: Seq<u8>, b: Seq<u8>)
    ensures
        hex_lower(a).len() == 2 * a.len(),
        forall|i: int| 0 <= i < hex_lower(a).len() ==> is_lower_hex(#[trigger] hex_lower(a)[i]),
        hex_lower(a) == hex_lower(b) ==> a == b,
{
    if hex_lower(a) == hex_lower(b) {
        assert(hex_lower(a).len() == 2 * a.len());
        assert(hex_lower(b).len() == 2 * b.len());
        assert(a.len() == b.len());
        assert forall|k: int| 0 <= k < a.len() implies a[k] == b[k] by {
            assert(hex_lower(a)[2 * k] == hex_lower(b)[2 * k]);
            assert(hex_lower(a)[2 * k + 1] == hex_lower(b)[2 * k + 1]);
            assert(hex_char_at(a, 2 * k) == hex_digit(a[k] / 16));
            assert(hex_char_at(a, 2 * k + 1) == hex_digit(a[k] % 16));
            assert(hex_char_at(b, 2 * k) == hex_digit(b[k] / 16));
            assert(hex_char_at(b, 2 * k + 1) == hex_digit(b[k] % 16));
            assert(a[k] / 16 == b[k] / 16);
            assert(a[k] % 16 == b[k] % 16);
        }
        assert(a =~= b);
    }
}

fn hex_digit_str(n: u8) -> (digit: &'static str)
    requires
        n < 16,
    ensures
        digit@ == seq![hex_digit(n)],
{
    proof {
        reveal_strlit("0");
        reveal_strlit("1");
        reveal_strlit("2");
        reveal_strlit("3");
        reveal_strlit("4");
        reveal_strlit("5");
        reveal_strlit("6");
        reveal_strlit("7");
        reveal_strlit("8");
        reveal_strlit("9");
        reveal_strlit("a");
        reveal_strlit("b");
        reveal_strlit("c");
        reveal_strlit("d");
        reveal_strlit("e");
        reveal_strlit("f");
    }
    let digit = if n == 0 {
        "0"
    } else if n == 1 {
        "1"
    } else if n == 2 {
        "2"
    } else if n == 3 {
        "3"
    } else if n == 4 {
        "4"
    } else if n == 5 {
        "5"
    } else if n == 6 {
        "6"
    } else if n == 7 {
        "7"
    } else if n == 8 {
        "8"
    } else if n == 9 {
        "9"
    } else if n == 10 {
        "a"
    } else if n == 11 {
        "b"
    } else if n == 12 {
        "c"
    } else if n == 13 {
        "d"
    } else if n == 14 {
        "e"
    } else {
        "f"
    };
    assert(digit@ =~= seq![hex_digit(n)]);
    digit
}

/// Writes bytes in lower-case hexadecimal.
pub fn to_hex(bytes: &[u8]) -> (text: String)
    ensures
        text@ == hex_lower(bytes@),
{
    let mut text = String::new();
    let mut i: usize = 0;
    while i < bytes.len()
        invariant
            i <= bytes.len(),
            text@ == hex_lower(bytes@.take(i as int)),
        decreases bytes.len() - i,
    {
        let b: u8 = bytes[i];
        let ghost before = text@;
        text.append(hex_digit_str(b / 16));
        text.append(hex_digit_str(b % 16));
        proof {
            let done = bytes@.take(i as int);
            let next = bytes@.take(i + 1);
            assert(text@ =~= before + seq![hex_digit(b / 16)] + seq![hex_digit(b % 16)]);
            assert forall|k: int| 0 <= k < 2 * (i + 1) implies #[trigger] text@[k] == hex_char_at(
                next,
                k,
            ) by {
                if k < 2 * i {
                    assert(before[k] == hex_char_at(done, k));
                    assert(done[k / 2] == next[k / 2]);
                } else {
                    assert(next[k / 2] == b);
                }
            }
            assert(text@ =~= hex_lower(next));
        }
        i += 1;
    }
    assert(bytes@.take(i as int) =~= bytes@);
    text
}

/// The content hash that goes with an upload: the SHA-1 digest of the content,
/// in lower-case hexadecimal. The empty content has a hash like any other.
pub fn content_hash(content: &[u8]) -> (hash: String)
    ensures
        hash@ == hex_lower(sha1_of(content@)),
        hash@.len() == 2 * DIGEST_LEN,
{
    let digest = sha1_digest(content);
    to_hex(digest.as_slice())
}

} // verus!
