//! SHA-256 digests: their text form, and the running hash of a stream.

use sha2::Digest;
use vstd::prelude::*;
use vstd::string::*;

use crate::error::Error;
use crate::text::str_eq;

verus! {

/// The number of bytes of a SHA-256 hash.
pub const HASH_LEN: usize = 32;

/// `0`-`9` or `a`-`f`.
pub open spec fn is_lower_hex(c: char) -> bool {
    ('0' <= c && c <= '9') || ('a' <= c && c <= 'f')
}

/// A hex digit of either case.
pub open spec fn is_hex(c: char) -> bool {
    is_lower_hex(c) || ('A' <= c && c <= 'F')
}

/// The number that a hex digit stands for.
pub open spec fn hex_value(c: char) -> int {
    if '0' <= c && c <= '9' {
        c as int - '0' as int
    } else if 'a' <= c && c <= 'f' {
        c as int - 'a' as int + 10
    } else {
        c as int - 'A' as int + 10
    }
}

/// The bytes that a text of hex digits stands for, two digits to a byte, the
/// high one first.
pub open spec fn hex_decoded(text: Seq<char>) -> Seq<u8> {
    Seq::new(
        (text.len() / 2) as nat,
        |i: int| (16 * hex_value(text[2 * i]) + hex_value(text[2 * i + 1])) as u8,
    )
}

/// The lowercase hex digit that stands for a number below 16.
pub open spec fn hex_digit(n: int) -> char {
    if n < 10 {
        (('0' as int + n) as u8) as char
    } else {
        (('a' as int + n - 10) as u8) as char
    }
}

/// The lowercase hex text of a byte string: two digits for each byte, the
/// high one first.
pub open spec fn hex_encoded(bytes: Seq<u8>) -> Seq<char> {
    Seq::new(
        2 * bytes.len(),
        |i: int|
            if i % 2 == 0 {
                hex_digit(bytes[i / 2] as int / 16)
            } else {
                hex_digit(bytes[i / 2] as int % 16)
            },
    )
}

/// The text form of a SHA-256 digest: `sha256:` and 64 lowercase hex digits.
pub open spec fn is_sha256_digest(text: Seq<char>) -> bool {
    &&& text.len() == 71
    &&& text.take(7) == "sha256:"@
    &&& forall|i: int| 7 <= i < 71 ==> is_lower_hex(#[trigger] text[i])
}

/// The error of `hex::decode_to_slice`, of which nothing is read here.
#[verifier::external_type_specification]
#[verifier::external_body]
pub struct ExFromHexError(hex::FromHexError);

/// `hex::decode_to_slice` on a buffer of 32 bytes. It succeeds exactly on 64
/// hex digits of either case, and then fills the buffer with the bytes they
/// stand for. On failure the buffer may have been written in part.
#[verifier::external_body]
fn decode_hex(text: &str, out: &mut [u8; 32]) -> (r: Result<(), hex::FromHexError>)
    ensures
        r is Ok <==> (text@.len() == 64 && forall|i: int| 0 <= i < 64 ==> is_hex(#[trigger] text@[i])),
        r is Ok ==> final(out)@ == hex_decoded(text@),
{
    hex::decode_to_slice(text, &mut out[..])
}

/// `hex::encode` on 32 bytes: their lowercase hex text, two digits for each
/// byte, the high one first.
#[verifier::external_body]
fn encode_hex(bytes: &[u8; 32]) -> (r: String)
    ensures
        r@ == hex_encoded(bytes@),
{
    hex::encode(bytes)
}

/// A SHA-256 hash value.
#[derive(Clone, Copy, Debug)]
pub struct BlobDigest {
    bytes: [u8; 32],
}

impl View for BlobDigest {
    type V = Seq<u8>;

    closed spec fn view(&self) -> Seq<u8> {
        self.bytes@
    }
}

impl BlobDigest {
    /// The digest with the given hash value.
    pub fn new(bytes: [u8; 32]) -> (r: Self)
        ensures
            r@ == bytes@,
    {
        BlobDigest { bytes }
    }

    /// The 32 bytes of the hash.
    pub fn as_bytes(&self) -> (r: &[u8; 32])
        ensures
            r@ == self@,
    {
        &self.bytes
    }

    /// A hash has 32 bytes.
    pub proof fn lemma_len(&self)
        ensures
            self@.len() == 32,
    {
    }

    /// The hash as 64 lowercase hex digits.
    pub fn hex(&self) -> (r: String)
        ensures
            r@ == hex_encoded(self@),
    {
        encode_hex(&self.bytes)
    }

    /// The text form of the digest: `sha256:` and the hash as 64 lowercase
    /// hex digits.
    pub fn text(&self) -> (r: String)
        ensures
            r@ == "sha256:"@ + hex_encoded(self@),
    {
        let mut r = String::from_str("sha256:");
        let hex = encode_hex(&self.bytes);
        r.append(hex.as_str());
        r
    }

    /// Whether this is the hash value `bytes`.
    pub fn matches(&self, bytes: &[u8; 32]) -> (r: bool)
        ensures
            r == (self@ == bytes@),
    {
        let mut i: usize = 0;
        while i < 32
            invariant
                0 <= i <= 32,
                forall|j: int| 0 <= j < i ==> self.bytes@[j] == bytes@[j],
            decreases 32 - i,
        {
            if self.bytes[i] != bytes[i] {
                return false;
            }
            i = i + 1;
        }
        assert(self.bytes@ =~= bytes@);
        true
    }

    /// Reads a digest from its text form. Anything but `sha256:` and 64
    /// lowercase hex digits is refused as [`Error::InvalidDigest`].
    pub fn parse(text: &str) -> (r: Result<BlobDigest, Error>)
        ensures
            r is Ok <==> is_sha256_digest(text@),
            r matches Ok(d) ==> d@ == hex_decoded(text@.skip(7)),
            r matches Err(e) ==> e == Error::InvalidDigest,
    {
        let n: usize = text.unicode_len();
        if n < 7 {
            return Err(Error::InvalidDigest);
        }
        if !str_eq(text.substring_char(0, 7), "sha256:") {
            return Err(Error::InvalidDigest);
        }
        let hex_text = text.substring_char(7, n);
        if !is_lower_hex_text(hex_text) {
            assert(!is_sha256_digest(text@)) by {
                if is_sha256_digest(text@) {
                    assert forall|i: int| 0 <= i < hex_text@.len() implies is_lower_hex(
                        #[trigger] hex_text@[i],
                    ) by {
                        assert(hex_text@[i] == text@[i + 7]);
                    }
                }
            }
            return Err(Error::InvalidDigest);
        }
        let mut bytes = [0u8; 32];
        match decode_hex(hex_text, &mut bytes) {
            Ok(_) => {
                assert forall|i: int| 7 <= i < 71 implies is_lower_hex(#[trigger] text@[i]) by {
                    assert(text@[i] == hex_text@[i - 7]);
                }
                Ok(BlobDigest { bytes })
            },
            Err(_) => Err(Error::InvalidDigest),
        }
    }
}

/// What is written as hex is read back as it was.
pub proof fn lemma_hex_round_trip(bytes: Seq<u8>)
    ensures
        hex_encoded(bytes).len() == 2 * bytes.len(),
        forall|i: int| 0 <= i < 2 * bytes.len() ==> is_lower_hex(#[trigger] hex_encoded(bytes)[i]),
        hex_decoded(hex_encoded(bytes)) == bytes,
{
    let text = hex_encoded(bytes);
    assert forall|n: int| 0 <= n < 16 implies is_lower_hex(#[trigger] hex_digit(n)) && hex_value(
        hex_digit(n),
    ) == n by {}
    assert forall|i: int| 0 <= i < bytes.len() implies #[trigger] hex_decoded(text)[i]
        == bytes[i] by {
        let b = bytes[i] as int;
        assert(text[2 * i] == hex_digit(b / 16));
        assert(text[2 * i + 1] == hex_digit(b % 16));
        assert(hex_value(hex_digit(b / 16)) == b / 16);
        assert(hex_value(hex_digit(b % 16)) == b % 16);
    }
    assert(hex_decoded(text) =~= bytes);
}

/// The text form of a digest is well formed, and names the digest: reading
/// it gives the hash back.
pub proof fn lemma_text_round_trip(hash: Seq<u8>)
    requires
        hash.len() == 32,
    ensures
        is_sha256_digest("sha256:"@ + hex_encoded(hash)),
        hex_decoded(("sha256:"@ + hex_encoded(hash)).skip(7)) == hash,
{
    reveal_strlit("sha256:");
    lemma_hex_round_trip(hash);
    let text = "sha256:"@ + hex_encoded(hash);
    assert(text.take(7) =~= "sha256:"@);
    assert(text.skip(7) =~= hex_encoded(hash));
    assert forall|i: int| 7 <= i < 71 implies is_lower_hex(#[trigger] text[i]) by {
        assert(text[i] == hex_encoded(hash)[i - 7]);
    }
}

/// Whether every character of `s` is a lowercase hex digit.
fn is_lower_hex_text(s: &str) -> (r: bool)
    ensures
        r == forall|i: int| 0 <= i < s@.len() ==> is_lower_hex(#[trigger] s@[i]),
{
    broadcast use vstd::string::is_ascii_spec_bytes;

    if !s.is_ascii() {
        assert(exists|i: int| 0 <= i < s@.len() && !is_lower_hex(#[trigger] s@[i])) by {
            let i = choose|i: int| 0 <= i < s@.len() && !('\0' <= #[trigger] s@[i] <= '\u{7f}');
            assert(!is_lower_hex(s@[i]));
        }
        return false;
    }
    let b = s.as_bytes();
    let mut i: usize = 0;
    while i < b.len()
        invariant
            0 <= i <= b@.len(),
            b@.len() == s@.len(),
            vstd::utf8::is_ascii_chars(s@),
            forall|j: int| 0 <= j < b@.len() ==> b@[j] == #[trigger] s@[j] as u8,
            forall|j: int| 0 <= j < i ==> is_lower_hex(#[trigger] s@[j]),
        decreases b@.len() - i,
    {
        let c: u8 = b[i];
        assert(c as int == s@[i as int] as int);
        if !((0x30 <= c && c <= 0x39) || (0x61 <= c && c <= 0x66)) {
            assert(!is_lower_hex(s@[i as int]));
            return false;
        }
        assert(is_lower_hex(s@[i as int]));
        i = i + 1;
    }
    true
}

/// A running SHA-256 hash: a `sha2::Sha256`, of which nothing is known here
/// but what [`absorbed`] says it has taken in.
#[verifier::external_body]
pub struct Hasher {
    inner: sha2::Sha256,
}

/// The bytes that a hasher has taken in so far, in order.
pub uninterp spec fn absorbed(h: Hasher) -> Seq<u8>;

/// The SHA-256 hash of a byte string, as `sha2` computes it.
pub uninterp spec fn sha256(data: Seq<u8>) -> Seq<u8>;

/// `Sha256::new`: a hasher that has taken in nothing.
#[verifier::external_body]
pub(crate) fn hasher_new() -> (h: Hasher)
    ensures
        absorbed(h) == Seq::<u8>::empty(),
{
    Hasher { inner: sha2::Sha256::new() }
}

/// `Digest::update` of `Sha256`: the hasher takes in `data` after what it
/// holds.
#[verifier::external_body]
pub(crate) fn hasher_update(h: &mut Hasher, data: &[u8])
    ensures
        absorbed(*final(h)) == absorbed(*old(h)) + data@,
{
    h.inner.update(data)
}

/// `Digest::finalize` of `Sha256`: the hash of all that the hasher has taken
/// in.
#[verifier::external_body]
pub(crate) fn hasher_finalize(h: Hasher) -> (d: [u8; 32])
    ensures
        d@ == sha256(absorbed(h)),
{
    h.inner.finalize().into()
}

} // verus!
