//! The claims of a session token, and the header that carries the token.

use crate::utils::text::same_text;
use vstd::prelude::*;
use vstd::string::{StrSliceExecFns, StringExecFns};

verus! {

/// How long a session token is valid, in seconds: three hours.
pub const TOKEN_LIFETIME: i64 = 10800;

/// What a session token states: the user and the time at which it expires,
/// in seconds since the Unix epoch.
#[derive(Debug, Clone, Copy, PartialEq, Eq, Structural)]
pub struct Claims {
    pub id: usize,
    pub exp: usize,
}

/// A request to decode a token.
#[derive(Debug, Clone)]
pub struct DecodeBody {
    pub token: String,
}

/// The time at which a token issued at `now` expires, where that is a time
/// that both a signed 64-bit count of seconds and the claims can hold.
pub open spec fn expiry(now: i64) -> Option<usize> {
    if 0 <= now + TOKEN_LIFETIME <= i64::MAX && now + TOKEN_LIFETIME <= usize::MAX {
        Some((now + TOKEN_LIFETIME) as usize)
    } else {
        None
    }
}

/// The token that an authorization header carries: what follows the word
/// `Bearer` and one space, or the whole header where it does not start so.
pub open spec fn bearer(header: Seq<char>) -> Seq<char> {
    if header.len() >= 7 && header.subrange(0, 7) == "Bearer "@ {
        header.subrange(7, header.len() as int)
    } else {
        header
    }
}

/// The token that an authorization header carries.
pub fn bearer_token(header: &str) -> (token: String)
    ensures
        token@ == bearer(header@),
{
    let len = header.unicode_len();
    if len >= 7 && same_text(header.substring_char(0, 7), "Bearer ") {
        String::from_str(header.substring_char(7, len))
    } else {
        String::from_str(header)
    }
}

impl Claims {
    /// The claims of a token issued to a user at `now`, in seconds since the
    /// Unix epoch: it expires `TOKEN_LIFETIME` seconds later. `None` where
    /// that time cannot be held.
    pub fn issue(id: usize, now: i64) -> (claims: Option<Claims>)
        ensures
            claims == match expiry(now) {
                Some(exp) => Some(Claims { id, exp }),
                None => None,
            },
    {
        if now > i64::MAX - TOKEN_LIFETIME {
            return None;
        }
        let exp = now + TOKEN_LIFETIME;
        if exp < 0 {
            return None;
        }
        if exp as u64 > usize::MAX as u64 {
            return None;
        }
        Some(Claims { id, exp: exp as usize })
    }
}

} // verus!
