//! The error taxonomy of the core and of the boundary above it.
//!
//! Every core operation reports a typed `CoreError`; the boundary turns it
//! into an `ApiError`, which carries the status class and the message that
//! a client is shown. A stored field that cannot be decrypted is no error:
//! it reads as absent, or as empty in a list, and the operation goes on.

use vstd::prelude::*;
use vstd::string::StringExecFns;

verus! {

/// The kinds of record that an error can be about.
#[derive(Clone, Copy, Debug, PartialEq, Eq, Structural)]
pub enum Entity {
    User,
    Customer,
    Contact,
    Recommendation,
    Recruitment,
    Contract,
    Lead,
    InterventionTask,
    Meeting,
    Session,
}

/// The fields that a record cannot be written without, or that the cipher can refuse.
#[derive(Clone, Copy, Debug, PartialEq, Eq, Structural)]
pub enum Field {
    Email,
    PhoneNumber,
    Address,
    City,
    Password,
}

/// A typed failure of a core operation.
#[derive(Clone, Copy, Debug, PartialEq, Eq, Structural)]
pub enum CoreError {
    /// The acting user could not be resolved from its public identifier.
    ActorNotFound,
    /// A record with the same identity exists where none was allowed.
    AlreadyExists(Entity),
    /// The acting user's role is below the required minimum.
    Forbidden,
    /// A referenced record is missing.
    NotFound(Entity),
    /// A field that the operation needs was not given.
    MissingField(Field),
    /// A field is longer than the cipher can encrypt.
    FieldTooLong(Field),
    /// The password does not match the stored hash.
    WrongPassword,
    /// A stored record holds a value that cannot be read.
    Corrupt(Entity),
}

/// A failure as the boundary reports it.
#[derive(Debug)]
pub enum ApiError {
    Validation(String),
    NotFound(String),
    Unauthorized(String),
    Forbidden(String),
    Conflict(String),
    Internal,
}

/// The message of a core error, as a client reads it.
pub open spec fn core_message(error: CoreError) -> Seq<char> {
    match error {
        CoreError::ActorNotFound => "Felhasználó nem található!"@,
        CoreError::AlreadyExists(Entity::User) =>
            "Ez az e-mail cím vagy felhasználónév már létezik."@,
        CoreError::AlreadyExists(Entity::Customer) =>
            "Az ügyfél már szerepel az adatbázisban."@,
        CoreError::AlreadyExists(Entity::Contact) => "contact already in the database"@,
        CoreError::AlreadyExists(Entity::Recommendation) =>
            "Az ügyfél már szerepel az ajánlásban!"@,
        CoreError::AlreadyExists(Entity::Recruitment) => "A jelölt már szerepel!"@,
        CoreError::AlreadyExists(_) => "A rekord már szerepel az adatbázisban."@,
        CoreError::Forbidden => "Ehez a folyamathoz nincs jogosultságod!"@,
        CoreError::NotFound(Entity::User) => "Felhasználó nem létezik"@,
        CoreError::NotFound(Entity::Customer) => "Nem létező ügyfél"@,
        CoreError::NotFound(Entity::Contact) => "contact is not in the database!"@,
        CoreError::NotFound(Entity::Recommendation) => "Nem létező ajánlás"@,
        CoreError::NotFound(Entity::Recruitment) => "Nem létező jelölt"@,
        CoreError::NotFound(Entity::Contract) => "Nem létező szerződés"@,
        CoreError::NotFound(Entity::Lead) => "Nem létező érdeklődő"@,
        CoreError::NotFound(Entity::InterventionTask) => "Nem létező intervenciós feladat"@,
        CoreError::NotFound(Entity::Meeting) => "Nem létező időpont"@,
        CoreError::NotFound(Entity::Session) => "Nem létező munkamenet"@,
        CoreError::MissingField(Field::Email) => "Email megadása kötelező!"@,
        CoreError::MissingField(Field::PhoneNumber) => "Telefonszám megadása kötelező!"@,
        CoreError::MissingField(Field::Address) => "Cím megadása kötelező!"@,
        CoreError::MissingField(Field::City) => "Település megadása kötelező!"@,
        CoreError::MissingField(Field::Password) => "Jelszó megadása kötelező!"@,
        CoreError::FieldTooLong(Field::Email) => "Túl hosszú email!"@,
        CoreError::FieldTooLong(Field::PhoneNumber) => "Túl hosszú telefonszám!"@,
        CoreError::FieldTooLong(Field::Address) => "Túl hosszú cím!"@,
        CoreError::FieldTooLong(Field::City) => "Túl hosszú település!"@,
        CoreError::FieldTooLong(Field::Password) => "Túl hosszú jelszó!"@,
        CoreError::WrongPassword => "Helytelen jelszó!"@,
        CoreError::Corrupt(_) => "internal server error"@,
    }
}

/// The status class of a core error: 400 for a refused input, 401 for a wrong
/// password, 403 for a refused role, 404 for a missing record, 409 for a
/// duplicate, 500 for a stored record that cannot be read.
pub open spec fn core_status(error: CoreError) -> u16 {
    match error {
        CoreError::ActorNotFound => 404,
        CoreError::AlreadyExists(_) => 409,
        CoreError::Forbidden => 403,
        CoreError::NotFound(_) => 404,
        CoreError::MissingField(_) => 400,
        CoreError::FieldTooLong(_) => 400,
        CoreError::WrongPassword => 401,
        CoreError::Corrupt(_) => 500,
    }
}

impl CoreError {
    /// What a lookup answers: the record where the store holds it, and
    /// `NotFound` for its kind where it holds none.
    pub fn found<T>(record: Option<T>, entity: Entity) -> (answer: Result<T, CoreError>)
        ensures
            answer == match record {
                Some(value) => Ok::<T, CoreError>(value),
                None => Err(CoreError::NotFound(entity)),
            },
    {
        match record {
            Some(value) => Ok(value),
            None => Err(CoreError::NotFound(entity)),
        }
    }

    /// The message of this error.
    pub fn message(&self) -> (text: String)
        ensures
            text@ == core_message(*self),
    {
        let text = match self {
            CoreError::ActorNotFound => "Felhasználó nem található!",
            CoreError::AlreadyExists(Entity::User) =>
                "Ez az e-mail cím vagy felhasználónév már létezik.",
            CoreError::AlreadyExists(Entity::Customer) =>
                "Az ügyfél már szerepel az adatbázisban.",
            CoreError::AlreadyExists(Entity::Contact) => "contact already in the database",
            CoreError::AlreadyExists(Entity::Recommendation) =>
                "Az ügyfél már szerepel az ajánlásban!",
            CoreError::AlreadyExists(Entity::Recruitment) => "A jelölt már szerepel!",
            CoreError::AlreadyExists(_) => "A rekord már szerepel az adatbázisban.",
            CoreError::Forbidden => "Ehez a folyamathoz nincs jogosultságod!",
            CoreError::NotFound(Entity::User) => "Felhasználó nem létezik",
            CoreError::NotFound(Entity::Customer) => "Nem létező ügyfél",
            CoreError::NotFound(Entity::Contact) => "contact is not in the database!",
            CoreError::NotFound(Entity::Recommendation) => "Nem létező ajánlás",
            CoreError::NotFound(Entity::Recruitment) => "Nem létező jelölt",
            CoreError::NotFound(Entity::Contract) => "Nem létező szerződés",
            CoreError::NotFound(Entity::Lead) => "Nem létező érdeklődő",
            CoreError::NotFound(Entity::InterventionTask) => "Nem létező intervenciós feladat",
            CoreError::NotFound(Entity::Meeting) => "Nem létező időpont",
            CoreError::NotFound(Entity::Session) => "Nem létező munkamenet",
            CoreError::MissingField(Field::Email) => "Email megadása kötelező!",
            CoreError::MissingField(Field::PhoneNumber) => "Telefonszám megadása kötelező!",
            CoreError::MissingField(Field::Address) => "Cím megadása kötelező!",
            CoreError::MissingField(Field::City) => "Település megadása kötelező!",
            CoreError::MissingField(Field::Password) => "Jelszó megadása kötelező!",
            CoreError::FieldTooLong(Field::Email) => "Túl hosszú email!",
            CoreError::FieldTooLong(Field::PhoneNumber) => "Túl hosszú telefonszám!",
            CoreError::FieldTooLong(Field::Address) => "Túl hosszú cím!",
            CoreError::FieldTooLong(Field::City) => "Túl hosszú település!",
            CoreError::FieldTooLong(Field::Password) => "Túl hosszú jelszó!",
            CoreError::WrongPassword => "Helytelen jelszó!",
            CoreError::Corrupt(_) => "internal server error",
        };
        String::from_str(text)
    }
}

impl ApiError {
    /// The HTTP status of this error.
    pub open spec fn status(self) -> u16 {
        match self {
            ApiError::Validation(_) => 400,
            ApiError::Unauthorized(_) => 401,
            ApiError::Forbidden(_) => 403,
            ApiError::NotFound(_) => 404,
            ApiError::Conflict(_) => 409,
            ApiError::Internal => 500,
        }
    }

    /// The text of the response body.
    pub open spec fn body(self) -> Seq<char> {
        match self {
            ApiError::Validation(msg) => msg@,
            ApiError::NotFound(msg) => msg@,
            ApiError::Unauthorized(msg) => msg@,
            ApiError::Forbidden(msg) => msg@,
            ApiError::Conflict(msg) => msg@,
            ApiError::Internal => "internal server error"@,
        }
    }

    /// The words that stand before the message in the printed form.
    pub open spec fn label(self) -> Seq<char> {
        match self {
            ApiError::Validation(_) => "validation error: "@,
            ApiError::NotFound(_) => "not found: "@,
            ApiError::Unauthorized(_) => "unauthorized: "@,
            ApiError::Forbidden(_) => "forbidden: "@,
            ApiError::Conflict(_) => "conflict: "@,
            ApiError::Internal => "internal server error"@,
        }
    }

    /// The printed form: the label, followed by the message where there is one.
    pub open spec fn printed(self) -> Seq<char> {
        match self {
            ApiError::Internal => self.label(),
            _ => self.label() + self.body(),
        }
    }

    /// The HTTP status with which this error is answered.
    pub fn status_code(&self) -> (code: u16)
        ensures
            code == self.status(),
    {
        match self {
            ApiError::Validation(_) => 400,
            ApiError::Unauthorized(_) => 401,
            ApiError::Forbidden(_) => 403,
            ApiError::NotFound(_) => 404,
            ApiError::Conflict(_) => 409,
            ApiError::Internal => 500,
        }
    }

    /// The text that the response body carries under `error`.
    pub fn error_body(&self) -> (text: String)
        ensures
            text@ == self.body(),
    {
        match self {
            ApiError::Validation(msg) => msg.clone(),
            ApiError::NotFound(msg) => msg.clone(),
            ApiError::Unauthorized(msg) => msg.clone(),
            ApiError::Forbidden(msg) => msg.clone(),
            ApiError::Conflict(msg) => msg.clone(),
            ApiError::Internal => String::from_str("internal server error"),
        }
    }

    /// The printed form of this error.
    pub fn to_string(&self) -> (text: String)
        ensures
            text@ == self.printed(),
    {
        match self {
            ApiError::Validation(msg) => String::from_str("validation error: ").concat(
                msg.as_str(),
            ),
            ApiError::NotFound(msg) => String::from_str("not found: ").concat(msg.as_str()),
            ApiError::Unauthorized(msg) => String::from_str("unauthorized: ").concat(msg.as_str()),
            ApiError::Forbidden(msg) => String::from_str("forbidden: ").concat(msg.as_str()),
            ApiError::Conflict(msg) => String::from_str("conflict: ").concat(msg.as_str()),
            ApiError::Internal => String::from_str("internal server error"),
        }
    }

    /// Turns a core error into the error that the boundary answers with.
    pub fn from_core(error: CoreError) -> (api: ApiError)
        ensures
            api.status() == core_status(error),
            api.body() == core_message(error),
    {
        let text = error.message();
        match error {
            CoreError::ActorNotFound => ApiError::NotFound(text),
            CoreError::AlreadyExists(_) => ApiError::Conflict(text),
            CoreError::Forbidden => ApiError::Forbidden(text),
            CoreError::NotFound(_) => ApiError::NotFound(text),
            CoreError::MissingField(_) => ApiError::Validation(text),
            CoreError::FieldTooLong(_) => ApiError::Validation(text),
            CoreError::WrongPassword => ApiError::Unauthorized(text),
            CoreError::Corrupt(_) => ApiError::Internal,
        }
    }
}

} // verus!
