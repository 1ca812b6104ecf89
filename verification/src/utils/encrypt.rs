//! Field cipher (ChaCha20-Poly1305) and blind index (HMAC-SHA-256).
//!
//! A sensitive value is stored as a ciphertext with its nonce; a searchable
//! value is stored with a keyed digest beside it, so that equality can be
//! tested without decrypting anything.
//!
//! The digest of a value from a small input space (a phone number) can be
//! found by trying every candidate once the secret is known: digests are
//! for equality predicates inside the store and are never shown to callers.

use chacha20poly1305::aead::{Aead, AeadCore, KeyInit, OsRng};
use chacha20poly1305::ChaCha20Poly1305;
use hmac::{Hmac, Mac};
use sha2::Sha256;
use vstd::prelude::*;
use vstd::utf8::*;

verus! {

/// Length of an encryption key in bytes.
pub const KEY_LEN: usize = 32;

/// Length of a nonce in bytes.
pub const NONCE_LEN: usize = 12;

/// Length of the authentication tag that ends every ciphertext.
pub const TAG_LEN: usize = 16;

/// Length of a blind-index digest in bytes.
pub const DIGEST_LEN: usize = 32;

/// The cipher encrypts a plaintext only if it has fewer bytes than this: the
/// block counter of the key stream has 32 bits and a block has 64 bytes.
pub const PLAINTEXT_LIMIT: u64 = 0x3f_ffff_ffc0;

/// The secret of the blind index.
pub type HmacSecret = Vec<u8>;

/// What `Aead::encrypt` of `ChaCha20Poly1305` returns for a key, a nonce and
/// a plaintext, with no associated data.
pub uninterp spec fn aead_seal(key: Seq<u8>, nonce: Seq<u8>, plaintext: Seq<u8>) -> Seq<u8>;

/// What `Aead::decrypt` of `ChaCha20Poly1305` returns for a key, a nonce and
/// a ciphertext, with no associated data; `None` stands for its error.
pub uninterp spec fn aead_open(key: Seq<u8>, nonce: Seq<u8>, ciphertext: Seq<u8>) -> Option<
    Seq<u8>,
>;

/// The HMAC-SHA-256 tag that the `hmac` crate computes for a key and a message.
pub uninterp spec fn hmac_sha256(secret: Seq<u8>, message: Seq<u8>) -> Seq<u8>;

/// The blind index of a value under a secret: the keyed digest of its UTF-8 bytes.
pub open spec fn blind_index(secret: Seq<u8>, value: Seq<char>) -> Seq<u8> {
    hmac_sha256(secret, encode_utf8(value))
}

/// Whether the cipher accepts a plaintext of this many bytes.
pub open spec fn fits_cipher(len: nat) -> bool {
    len < PLAINTEXT_LIMIT
}

/// What decrypting a stored field yields: the text, or `None` where the nonce
/// has the wrong size, authentication fails, or the bytes are no UTF-8.
pub open spec fn decrypted(key: Seq<u8>, ciphertext: Seq<u8>, nonce: Seq<u8>) -> Option<
    Seq<char>,
> {
    if nonce.len() != NONCE_LEN {
        None
    } else {
        match aead_open(key, nonce, ciphertext) {
            Some(bytes) => if valid_utf8(bytes) {
                Some(decode_utf8(bytes))
            } else {
                None
            },
            None => None,
        }
    }
}

/// Whether `(ciphertext, nonce)` is an encryption of `plaintext` under `key`.
pub open spec fn encrypts(
    key: Seq<u8>,
    plaintext: Seq<char>,
    ciphertext: Seq<u8>,
    nonce: Seq<u8>,
) -> bool {
    &&& nonce.len() == NONCE_LEN
    &&& ciphertext == aead_seal(key, nonce, encode_utf8(plaintext))
    &&& ciphertext.len() == encode_utf8(plaintext).len() + TAG_LEN
    &&& decrypted(key, ciphertext, nonce) == Some(plaintext)
}

/// A symmetric key of the field cipher: exactly `KEY_LEN` bytes.
pub struct Key {
    bytes: Vec<u8>,
}

impl View for Key {
    type V = Seq<u8>;

    closed spec fn view(&self) -> Seq<u8> {
        self.bytes@
    }
}

impl Key {
    #[verifier::type_invariant]
    spec fn well_formed(self) -> bool {
        self.bytes@.len() == KEY_LEN
    }

    /// Takes a key from a byte slice; `None` unless it has `KEY_LEN` bytes.
    pub fn from_slice(bytes: &[u8]) -> (key: Option<Key>)
        ensures
            key is Some <==> bytes@.len() == KEY_LEN,
            key is Some ==> key->0@ == bytes@,
    {
        if bytes.len() != KEY_LEN {
            return None;
        }
        let mut copy: Vec<u8> = Vec::new();
        let mut i: usize = 0;
        while i < bytes.len()
            invariant
                i <= bytes@.len(),
                copy@ == bytes@.subrange(0, i as int),
            decreases bytes@.len() - i,
        {
            copy.push(bytes[i]);
            i += 1;
        }
        Some(Key { bytes: copy })
    }

    /// The bytes of the key.
    pub fn as_bytes(&self) -> (bytes: &[u8])
        ensures
            bytes@ == self@,
            bytes@.len() == KEY_LEN,
    {
        proof {
            use_type_invariant(self);
        }
        self.bytes.as_slice()
    }
}

/// `Mac::new_from_slice`, `update` and `finalize` of `Hmac<Sha256>`: the tag
/// of the message under the secret. The contract names the tag and states its
/// length, which is the output size of SHA-256. HMAC accepts a key of any
/// length, so the constructor does not fail.
#[verifier::external_body]
fn hmac_sha256_tag(secret: &[u8], message: &[u8]) -> (tag: Vec<u8>)
    ensures
        tag@ == hmac_sha256(secret@, message@),
        tag@.len() == DIGEST_LEN,
{
    let mut mac = <Hmac<Sha256> as Mac>::new_from_slice(secret).unwrap();
    mac.update(message);
    mac.finalize().into_bytes().to_vec()
}

/// `AeadCore::generate_nonce` of `ChaCha20Poly1305` on the operating system's
/// random source: twelve bytes, of which nothing else is known.
#[verifier::external_body]
fn fresh_nonce() -> (nonce: Vec<u8>)
    ensures
        nonce@.len() == NONCE_LEN,
{
    ChaCha20Poly1305::generate_nonce(&mut OsRng).to_vec()
}

/// `Aead::encrypt` of `ChaCha20Poly1305`. The cipher refuses a plaintext of
/// `PLAINTEXT_LIMIT` bytes or more and otherwise returns the encrypted bytes
/// followed by the tag. The contract names that result, states its length,
/// and states that `Aead::decrypt` under the same key and nonce accepts it
/// and gives the plaintext back.
#[verifier::external_body]
fn seal(key: &[u8], nonce: &[u8], plaintext: &[u8]) -> (sealed: Option<Vec<u8>>)
    requires
        key@.len() == KEY_LEN,
        nonce@.len() == NONCE_LEN,
    ensures
        sealed is Some <==> fits_cipher(plaintext@.len()),
        sealed is Some ==> sealed->0@ == aead_seal(key@, nonce@, plaintext@),
        sealed is Some ==> sealed->0@.len() == plaintext@.len() + TAG_LEN,
        sealed is Some ==> aead_open(key@, nonce@, sealed->0@) == Some(plaintext@),
{
    let cipher = ChaCha20Poly1305::new(chacha20poly1305::Key::from_slice(key));
    cipher.encrypt(chacha20poly1305::Nonce::from_slice(nonce), plaintext).ok()
}

/// `Aead::decrypt` of `ChaCha20Poly1305`. The contract names the result and
/// states two things that the construction gives: an input shorter than the
/// tag is refused, and an input is accepted only if it is, byte for byte,
/// what `Aead::encrypt` returns for the plaintext that comes out.
#[verifier::external_body]
fn open(key: &[u8], nonce: &[u8], ciphertext: &[u8]) -> (opened: Option<Vec<u8>>)
    requires
        key@.len() == KEY_LEN,
        nonce@.len() == NONCE_LEN,
    ensures
        opened is Some <==> aead_open(key@, nonce@, ciphertext@) is Some,
        opened is Some ==> aead_open(key@, nonce@, ciphertext@) == Some(opened->0@),
        opened is Some ==> ciphertext@ == aead_seal(key@, nonce@, opened->0@),
        opened is Some ==> ciphertext@.len() == opened->0@.len() + TAG_LEN,
        ciphertext@.len() < TAG_LEN ==> opened is None,
{
    let cipher = ChaCha20Poly1305::new(chacha20poly1305::Key::from_slice(key));
    cipher.decrypt(chacha20poly1305::Nonce::from_slice(nonce), ciphertext).ok()
}

/// `String::from_utf8`: the string whose UTF-8 encoding the bytes are, or
/// `None` where they are not valid UTF-8.
#[verifier::external_body]
fn string_from_utf8(bytes: Vec<u8>) -> (text: Option<String>)
    ensures
        text is Some <==> valid_utf8(bytes@),
        text is Some ==> encode_utf8(text->0@) == bytes@,
{
    String::from_utf8(bytes).ok()
}

/// The blind index of `value` under `secret`.
pub fn hash_value(secret: &[u8], value: &str) -> (digest: Vec<u8>)
    ensures
        digest@ == blind_index(secret@, value@),
        digest@.len() == DIGEST_LEN,
{
    hmac_sha256_tag(secret, value.as_bytes())
}

/// Encrypts `plaintext` under `key` with a fresh random nonce and returns
/// the ciphertext and the nonce; `None` where the plaintext is too long for
/// the cipher. Decrypting the pair under the same key gives the plaintext
/// back.
pub fn encrypt_value(key: &Key, plaintext: &str) -> (sealed: Option<(Vec<u8>, Vec<u8>)>)
    ensures
        sealed is Some <==> fits_cipher(encode_utf8(plaintext@).len()),
        match sealed {
            Some((ciphertext, nonce)) => encrypts(key@, plaintext@, ciphertext@, nonce@),
            None => true,
        },
{
    let nonce = fresh_nonce();
    match seal(key.as_bytes(), nonce.as_slice(), plaintext.as_bytes()) {
        Some(ciphertext) => {
            proof {
                encode_utf8_valid_utf8(plaintext@);
                encode_utf8_decode_utf8(plaintext@);
            }
            Some((ciphertext, nonce))
        },
        None => None,
    }
}

/// The text of what the cipher handed out: the text that the bytes encode,
/// or `None` where the cipher refused or the bytes are no UTF-8.
pub fn plaintext_of(opened: Option<Vec<u8>>) -> (plaintext: Option<String>)
    ensures
        plaintext is Some <==> opened is Some && valid_utf8(opened->0@),
        plaintext is Some ==> plaintext->0@ == decode_utf8(opened->0@),
        plaintext is Some ==> encode_utf8(plaintext->0@) == opened->0@,
{
    match opened {
        Some(bytes) => {
            let text = string_from_utf8(bytes);
            proof {
                if text is Some {
                    encode_utf8_decode_utf8(text->0@);
                }
            }
            text
        },
        None => None,
    }
}

/// Decrypts a stored field. Returns `None`, and never other bytes, where the
/// nonce has the wrong size, the ciphertext is not authentic under this key
/// and nonce, or the plaintext is no UTF-8.
pub fn decrypt_value(key: &Key, ciphertext: &[u8], nonce: &[u8]) -> (plaintext: Option<String>)
    ensures
        plaintext is Some <==> decrypted(key@, ciphertext@, nonce@) is Some,
        plaintext is Some ==> decrypted(key@, ciphertext@, nonce@) == Some(plaintext->0@),
        plaintext is Some ==> ciphertext@ == aead_seal(key@, nonce@, encode_utf8(plaintext->0@)),
        ciphertext@.len() < TAG_LEN ==> plaintext is None,
{
    if nonce.len() != NONCE_LEN {
        return None;
    }
    plaintext_of(open(key.as_bytes(), nonce, ciphertext))
}

/// What a stored field is shown as: its text, or the empty text where it
/// cannot be decrypted.
pub open spec fn shown(key: Seq<u8>, ciphertext: Seq<u8>, nonce: Seq<u8>) -> Seq<char> {
    match decrypted(key, ciphertext, nonce) {
        Some(value) => value,
        None => Seq::empty(),
    }
}

/// Decrypts a stored field for display: a field that cannot be decrypted is
/// shown empty, which is no fault.
pub fn decrypt_or_empty(key: &Key, ciphertext: &[u8], nonce: &[u8]) -> (value: String)
    ensures
        value@ == shown(key@, ciphertext@, nonce@),
{
    match decrypt_value(key, ciphertext, nonce) {
        Some(value) => value,
        None => String::new(),
    }
}

/// The blind index is a function of the secret and the value: equal inputs
/// have equal digests, whenever and wherever they are computed.
pub proof fn lemma_blind_index_deterministic(
    secret_a: Seq<u8>,
    value_a: Seq<char>,
    secret_b: Seq<u8>,
    value_b: Seq<char>,
)
    requires
        secret_a == secret_b,
        value_a == value_b,
    ensures
        blind_index(secret_a, value_a) == blind_index(secret_b, value_b),
{
}

/// What is accepted is authentic. If decryption yields a text, the
/// ciphertext is exactly the encryption of that text under the key and the
/// nonce. So a ciphertext that differs from a produced one is refused or
/// yields another text, of which it is itself the encryption; it never
/// yields the text that was encrypted.
pub proof fn lemma_altered_ciphertext(
    key: Seq<u8>,
    plaintext: Seq<char>,
    ciphertext: Seq<u8>,
    nonce: Seq<u8>,
    altered: Seq<u8>,
    opened: Seq<char>,
)
    requires
        encrypts(key, plaintext, ciphertext, nonce),
        altered != ciphertext,
        altered == aead_seal(key, nonce, encode_utf8(opened)),
    ensures
        opened != plaintext,
{
}

/// A nonce of another length than `NONCE_LEN` decrypts nothing.
pub proof fn lemma_wrong_nonce_length(key: Seq<u8>, ciphertext: Seq<u8>, nonce: Seq<u8>)
    requires
        nonce.len() != NONCE_LEN,
    ensures
        decrypted(key, ciphertext, nonce) is None,
        shown(key, ciphertext, nonce) == Seq::<char>::empty(),
{
}

} // verus!
