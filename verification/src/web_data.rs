//! The secrets that every component is handed: the encryption key and the
//! secret of the blind index. Both are read once, when the process starts;
//! a value that cannot be used ends the start and is no fault of a request.
//! The two are separate secrets: a blind index under the encryption key
//! itself is refused.

use crate::utils::encrypt::{HmacSecret, Key, KEY_LEN};
use crate::utils::text::same_bytes;
use base64::engine::general_purpose::STANDARD;
use base64::Engine;
use vstd::prelude::*;
use vstd::string::StrSliceExecFns;
use vstd::utf8::*;

verus! {

/// The secrets of the process.
pub struct WebData {
    pub key: Key,
    pub hmac_secret: HmacSecret,
}

/// Why the configured secrets cannot be used.
#[derive(Debug, Clone, Copy, PartialEq, Eq, Structural)]
pub enum ConfigError {
    /// The encryption key is not base64.
    KeyNotBase64,
    /// The encryption key does not decode to `KEY_LEN` bytes.
    KeyLength,
    /// The secret of the blind index is the encryption key itself.
    SecretIsKey,
}

/// What `Engine::decode` of the standard base64 engine returns for a text;
/// `None` stands for its error.
pub uninterp spec fn base64_decoded(encoded: Seq<char>) -> Option<Seq<u8>>;

/// The secrets that the configured values give, or why they give none.
pub open spec fn configured(key_bytes: Option<Seq<u8>>, hmac_secret: Seq<char>) -> Result<
    (Seq<u8>, Seq<u8>),
    ConfigError,
> {
    match key_bytes {
        None => Err(ConfigError::KeyNotBase64),
        Some(bytes) => if bytes.len() != KEY_LEN {
            Err(ConfigError::KeyLength)
        } else if encode_utf8(hmac_secret) == bytes {
            Err(ConfigError::SecretIsKey)
        } else {
            Ok((bytes, encode_utf8(hmac_secret)))
        },
    }
}

/// `Engine::decode` of `base64::engine::general_purpose::STANDARD`: the
/// bytes that a base64 text stands for, or `None` where it is not base64.
#[verifier::external_body]
fn base64_decode(encoded: &str) -> (decoded: Option<Vec<u8>>)
    ensures
        decoded is Some <==> base64_decoded(encoded@) is Some,
        decoded is Some ==> base64_decoded(encoded@) == Some(decoded->0@),
{
    STANDARD.decode(encoded).ok()
}

impl WebData {
    /// Whether these are the secrets that the configured values give.
    pub open spec fn holds(self, secrets: (Seq<u8>, Seq<u8>)) -> bool {
        self.key@ == secrets.0 && self.hmac_secret@ == secrets.1
    }

    /// The secrets from the decoded key, `None` where it did not decode, and
    /// the secret of the blind index as text.
    pub fn from_parts(key_bytes: Option<Vec<u8>>, hmac_secret: &str) -> (data: Result<
        WebData,
        ConfigError,
    >)
        ensures
            match data {
                Ok(data) => {
                    &&& key_bytes is Some
                    &&& configured(Some(key_bytes->0@), hmac_secret@) is Ok
                    &&& data.holds(configured(Some(key_bytes->0@), hmac_secret@)->Ok_0)
                },
                Err(e) => match key_bytes {
                    Some(bytes) => configured(Some(bytes@), hmac_secret@) == Err::<
                        (Seq<u8>, Seq<u8>),
                        ConfigError,
                    >(e),
                    None => e == ConfigError::KeyNotBase64,
                },
            },
    {
        let bytes = match key_bytes {
            Some(bytes) => bytes,
            None => {
                return Err(ConfigError::KeyNotBase64);
            },
        };
        let key = match Key::from_slice(bytes.as_slice()) {
            Some(key) => key,
            None => {
                return Err(ConfigError::KeyLength);
            },
        };
        let secret = hmac_secret.as_bytes_vec();
        if same_bytes(secret.as_slice(), bytes.as_slice()) {
            return Err(ConfigError::SecretIsKey);
        }
        Ok(WebData { key, hmac_secret: secret })
    }

    /// The secrets from their configured form: the encryption key in
    /// base64 and the secret of the blind index as text.
    pub fn new(key_b64: &str, hmac_secret: &str) -> (data: Result<WebData, ConfigError>)
        ensures
            match data {
                Ok(data) => {
                    &&& configured(base64_decoded(key_b64@), hmac_secret@) is Ok
                    &&& data.holds(configured(base64_decoded(key_b64@), hmac_secret@)->Ok_0)
                },
                Err(e) => configured(base64_decoded(key_b64@), hmac_secret@) == Err::<
                    (Seq<u8>, Seq<u8>),
                    ConfigError,
                >(e),
            },
    {
        WebData::from_parts(base64_decode(key_b64), hmac_secret)
    }
}

} // verus!
