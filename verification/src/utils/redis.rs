//! Session tokens and what the key-value store holds for them.
//!
//! A token is stored as a key whose value names the user, `user:` followed
//! by the user's id in decimal, and which expires after a given time. The
//! commands are computed here and carried out by the caller.

use crate::utils::error::{CoreError, Entity};
use crate::utils::text::same_text;
use rand::Rng;
use vstd::prelude::*;
use vstd::string::{StrSliceExecFns, StringExecFns};

verus! {

/// A command for the key-value store.
#[derive(Debug, Clone)]
pub enum RedisCommand {
    /// Store `value` under `key`.
    Store { key: String, value: String },
    /// Let `key` expire after `seconds`.
    Expire { key: String, seconds: i64 },
}

/// The session store.
pub struct Redis;

/// The generator of tokens.
pub struct Token;

/// Length of a session token in characters.
pub const TOKEN_LEN: usize = 32;

/// Length of a numeric code in digits.
pub const CODE_LEN: usize = 6;

/// Number of characters that a token is made of.
pub const ALPHABET_LEN: usize = 62;

/// The characters that a token is made of: the letters and digits of ASCII.
pub open spec fn token_alphabet() -> Seq<char> {
    "ABCDEFGHIJKLMNOPQRSTUVWXYZabcdefghijklmnopqrstuvwxyz0123456789"@
}

/// The character of the alphabet at an index, counted round the alphabet.
pub open spec fn letter(index: usize) -> char {
    token_alphabet()[(index % ALPHABET_LEN) as int]
}

/// The decimal digit of a number below ten.
pub open spec fn digit(d: nat) -> char {
    (48 + d) as char
}

/// Whether a character is a decimal digit.
pub open spec fn is_digit(c: char) -> bool {
    48 <= c as nat <= 57
}

/// The decimal spelling of a number, without leading zeros.
pub open spec fn decimal(n: nat) -> Seq<char>
    decreases n,
{
    if n < 10 {
        seq![digit(n)]
    } else {
        decimal(n / 10).push(digit(n % 10))
    }
}

/// The number that a sequence of decimal digits spells.
pub open spec fn number(digits: Seq<char>) -> nat
    decreases digits.len(),
{
    if digits.len() == 0 {
        0
    } else {
        number(digits.drop_last()) * 10 + (digits.last() as nat - 48) as nat
    }
}

/// Whether every character is a decimal digit.
pub open spec fn all_digits(digits: Seq<char>) -> bool {
    forall|i: int| 0 <= i < digits.len() ==> is_digit(#[trigger] digits[i])
}

/// The value that is stored for a user.
pub open spec fn user_value(user_id: nat) -> Seq<char> {
    "user:"@ + decimal(user_id)
}

/// The user id that a stored value names: the value is `user:` followed by
/// at least one decimal digit, and the number fits a signed 32-bit integer.
pub open spec fn named_user(value: Seq<char>) -> Option<i32> {
    if value.len() > 5 && value.subrange(0, 5) == "user:"@ && all_digits(
        value.subrange(5, value.len() as int),
    ) && number(value.subrange(5, value.len() as int)) <= i32::MAX {
        Some(number(value.subrange(5, value.len() as int)) as i32)
    } else {
        None
    }
}

/// `Rng::random_range` on the thread's generator, for the range from zero
/// up to, and without, `bound`: some index below the bound.
#[verifier::external_body]
fn random_below(bound: usize) -> (index: usize)
    requires
        bound > 0,
    ensures
        index < bound,
{
    rand::rng().random_range(0..bound)
}

/// The one-character string of a decimal digit.
fn digit_str(d: u32) -> (s: &'static str)
    requires
        d < 10,
    ensures
        s@ == seq![digit(d as nat)],
{
    let digits = "0123456789";
    proof {
        reveal_strlit("0123456789");
    }
    digits.substring_char(d as usize, d as usize + 1)
}

/// The decimal spelling of a number.
pub fn format_decimal(n: u32) -> (s: String)
    ensures
        s@ == decimal(n as nat),
    decreases n,
{
    if n < 10 {
        String::from_str(digit_str(n))
    } else {
        format_decimal(n / 10).concat(digit_str(n % 10))
    }
}

/// A number is read back from its decimal spelling.
pub proof fn lemma_decimal_round_trip(n: nat)
    ensures
        all_digits(decimal(n)),
        number(decimal(n)) == n,
        decimal(n).len() >= 1,
    decreases n,
{
    if n < 10 {
        assert(number(decimal(n).drop_last()) == 0);
    } else {
        lemma_decimal_round_trip(n / 10);
        assert(decimal(n).drop_last() =~= decimal(n / 10));
    }
}

/// The number that a prefix of a digit sequence spells is at most the
/// number that the whole sequence spells.
pub proof fn lemma_number_of_prefix(digits: Seq<char>, k: int)
    requires
        0 <= k <= digits.len(),
    ensures
        number(digits.subrange(0, k)) <= number(digits),
    decreases digits.len() - k,
{
    if k == digits.len() {
        assert(digits.subrange(0, k) =~= digits);
    } else {
        lemma_number_of_prefix(digits, k + 1);
        assert(digits.subrange(0, k + 1).drop_last() =~= digits.subrange(0, k));
    }
}

impl Redis {
    /// The commands that bind a token to a user for `exp_time` seconds:
    /// store the user's name under the token, then let the token expire.
    pub fn set_token_to_user(user_id: u32, token: &str, exp_time: i64) -> (commands: Vec<
        RedisCommand,
    >)
        ensures
            commands@.len() == 2,
            match commands@[0] {
                RedisCommand::Store { key, value } => key@ == token@ && value@ == user_value(
                    user_id as nat,
                ),
                _ => false,
            },
            match commands@[1] {
                RedisCommand::Expire { key, seconds } => key@ == token@ && seconds == exp_time,
                _ => false,
            },
    {
        let number = format_decimal(user_id);
        let value = String::from_str("user:").concat(number.as_str());
        let mut commands: Vec<RedisCommand> = Vec::new();
        commands.push(RedisCommand::Store { key: String::from_str(token), value });
        commands.push(RedisCommand::Expire { key: String::from_str(token), seconds: exp_time });
        commands
    }

    /// The user that a token is bound to, from the value that the store
    /// holds under the token: -1 where it holds none, and `Corrupt` where
    /// the value names no user.
    pub fn get_user_id_by_token(stored: Option<&str>) -> (user_id: Result<i32, CoreError>)
        ensures
            user_id == match stored {
                None => Ok::<i32, CoreError>(-1i32),
                Some(value) => match named_user(value@) {
                    Some(id) => Ok(id),
                    None => Err(CoreError::Corrupt(Entity::Session)),
                },
            },
    {
        let value = match stored {
            Some(value) => value,
            None => {
                return Ok(-1);
            },
        };
        let len = value.unicode_len();
        if len <= 5 {
            return Err(CoreError::Corrupt(Entity::Session));
        }
        let prefix = value.substring_char(0, 5);
        if !same_text(prefix, "user:") {
            return Err(CoreError::Corrupt(Entity::Session));
        }
        let ghost digits = value@.subrange(5, len as int);
        let mut acc: u32 = 0;
        let mut i: usize = 5;
        while i < len
            invariant
                stored == Some(value),
                value@.subrange(0, 5) == "user:"@,
                5 <= i <= len,
                len == value@.len(),
                digits == value@.subrange(5, len as int),
                all_digits(digits.subrange(0, i - 5)),
                acc == number(digits.subrange(0, i - 5)),
                acc <= i32::MAX,
            decreases len - i,
        {
            let c = value.get_char(i);
            let code = c as u32;
            let ghost k = i - 5;
            if code < 48 || code > 57 {
                assert(!is_digit(digits[k]));
                return Err(CoreError::Corrupt(Entity::Session));
            }
            let d = code - 48;
            assert(digits.subrange(0, k + 1).drop_last() =~= digits.subrange(0, k));
            if acc > 214748364 || (acc == 214748364 && d > 7) {
                proof {
                    lemma_number_of_prefix(digits, k + 1);
                }
                return Err(CoreError::Corrupt(Entity::Session));
            }
            acc = acc * 10 + d;
            assert forall|j: int| 0 <= j < k + 1 implies is_digit(
                #[trigger] digits.subrange(0, k + 1)[j],
            ) by {
                if j < k {
                    assert(is_digit(digits.subrange(0, k)[j]));
                }
            }
            i += 1;
        }
        assert(digits.subrange(0, len - 5) =~= digits);
        Ok(acc as i32)
    }
}

/// A token that was bound to a user names that user again, as long as the
/// id fits a signed 32-bit integer.
pub proof fn lemma_token_names_its_user(user_id: nat)
    requires
        user_id <= i32::MAX,
    ensures
        named_user(user_value(user_id)) == Some(user_id as i32),
{
    reveal_strlit("user:");
    lemma_decimal_round_trip(user_id);
    let value = user_value(user_id);
    assert(value.subrange(0, 5) =~= "user:"@);
    assert(value.subrange(5, value.len() as int) =~= decimal(user_id));
}

impl Token {
    /// The token that drawn indices spell: its characters are the letters
    /// and digits at the indices, in order. An index beyond the alphabet is
    /// counted round it.
    pub fn from_indices(indices: &[usize]) -> (token: String)
        ensures
            token@.len() == indices@.len(),
            forall|i: int| 0 <= i < indices@.len() ==> #[trigger] token@[i] == letter(indices@[i]),
    {
        let alphabet = "ABCDEFGHIJKLMNOPQRSTUVWXYZabcdefghijklmnopqrstuvwxyz0123456789";
        proof {
            reveal_strlit("ABCDEFGHIJKLMNOPQRSTUVWXYZabcdefghijklmnopqrstuvwxyz0123456789");
        }
        let mut token = String::new();
        let mut n: usize = 0;
        while n < indices.len()
            invariant
                n <= indices@.len(),
                alphabet@ == token_alphabet(),
                alphabet@.len() == ALPHABET_LEN,
                token@.len() == n,
                forall|i: int| 0 <= i < n ==> #[trigger] token@[i] == letter(indices@[i]),
            decreases indices@.len() - n,
        {
            let at = indices[n] % ALPHABET_LEN;
            let ghost before = token@;
            token.append(alphabet.substring_char(at, at + 1));
            assert(token@ =~= before.push(letter(indices@[n as int])));
            n += 1;
        }
        token
    }

    /// The code that drawn numbers spell: its characters are their last
    /// decimal digits, in order.
    pub fn from_digits(digits: &[usize]) -> (code: String)
        ensures
            code@.len() == digits@.len(),
            forall|i: int|
                0 <= i < digits@.len() ==> #[trigger] code@[i] == digit((digits@[i] % 10) as nat),
    {
        let mut code = String::new();
        let mut n: usize = 0;
        while n < digits.len()
            invariant
                n <= digits@.len(),
                code@.len() == n,
                forall|i: int|
                    0 <= i < n ==> #[trigger] code@[i] == digit((digits@[i] % 10) as nat),
            decreases digits@.len() - n,
        {
            let d = digits[n] % 10;
            let ghost before = code@;
            code.append(digit_str(d as u32));
            assert(code@ =~= before.push(digit((digits@[n as int] % 10) as nat)));
            n += 1;
        }
        code
    }

    /// Draws `count` numbers below `bound`.
    fn draw(count: usize, bound: usize) -> (drawn: Vec<usize>)
        requires
            bound > 0,
        ensures
            drawn@.len() == count,
            forall|i: int| 0 <= i < count ==> #[trigger] drawn@[i] < bound,
    {
        let mut drawn: Vec<usize> = Vec::new();
        while drawn.len() < count
            invariant
                bound > 0,
                drawn@.len() <= count,
                forall|i: int| 0 <= i < drawn@.len() ==> #[trigger] drawn@[i] < bound,
            decreases count - drawn@.len(),
        {
            drawn.push(random_below(bound));
        }
        drawn
    }

    /// A random token: `TOKEN_LEN` characters, each a letter or a digit,
    /// spelled by as many indices drawn at random.
    pub fn generate_token() -> (token: String)
        ensures
            token@.len() == TOKEN_LEN,
            forall|i: int|
                0 <= i < token@.len() ==> token_alphabet().contains(#[trigger] token@[i]),
    {
        let indices = Token::draw(TOKEN_LEN, ALPHABET_LEN);
        let token = Token::from_indices(indices.as_slice());
        proof {
            reveal_strlit("ABCDEFGHIJKLMNOPQRSTUVWXYZabcdefghijklmnopqrstuvwxyz0123456789");
            assert forall|i: int| 0 <= i < token@.len() implies token_alphabet().contains(
                #[trigger] token@[i],
            ) by {
                assert(token@[i] == letter(indices@[i]));
                assert(token_alphabet()[(indices@[i] % ALPHABET_LEN) as int] == token@[i]);
            }
        }
        token
    }

    /// A random numeric code: `CODE_LEN` decimal digits, spelled by as many
    /// numbers drawn at random.
    pub fn generate_six_digit_number() -> (code: String)
        ensures
            code@.len() == CODE_LEN,
            all_digits(code@),
    {
        let digits = Token::draw(CODE_LEN, 10);
        let code = Token::from_digits(digits.as_slice());
        assert forall|i: int| 0 <= i < code@.len() implies is_digit(#[trigger] code@[i]) by {
            assert(code@[i] == digit((digits@[i] % 10) as nat));
        }
        code
    }
}

} // verus!
