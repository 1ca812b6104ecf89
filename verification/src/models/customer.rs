//! Customers: the codec between a customer and its stored form, and the
//! find-or-create resolution that every record attached to a customer goes
//! through.
//!
//! Phone number and email are stored encrypted and with a blind index;
//! the address is stored encrypted only. A customer is looked up by blind
//! index alone, so nothing is decrypted to find one. Where a request names
//! a customer that the store already holds, the stored customer is used and
//! the request's other customer fields are dropped: the first writer wins.
//! That holds for the creation of a customer as for every record that is
//! attached to one: creating a customer twice yields one row and one id.
//!
//! The lookup and the insert that follows it are two steps. Unless the
//! store itself refuses a second row with the same blind index, two
//! requests that arrive together for the same new customer can both find no
//! match and both insert.

use crate::models::identity::Uuid;
use crate::models::ownership::{owner_by_name, NamedUser, Owned, Reassignment};
use crate::utils::encrypt::{
    blind_index, decrypt_value, decrypted, encrypt_value, encrypts, fits_cipher, hash_value,
    HmacSecret, Key,
};
use crate::utils::error::{CoreError, Entity, Field};
use crate::utils::text::{clone_text, first_text, or_text, same_bytes, text, unwrap_text};
use vstd::prelude::*;
use vstd::utf8::*;

verus! {

/// A customer with its fields in the clear.
#[derive(Debug, Default, Clone)]
pub struct Customer {
    pub id: Option<i32>,
    pub uuid: Option<Uuid>,
    pub full_name: Option<String>,
    pub phone_number: Option<String>,
    pub email: Option<String>,
    pub address: Option<String>,
    pub comment: Option<String>,
    pub user_id: Option<i32>,
    pub created_by: Option<String>,
}

/// What the store holds of one customer for equality search: its internal
/// id and its two blind indexes.
#[derive(Debug, Clone)]
pub struct CustomerIndex {
    pub id: i32,
    pub email_hash: Vec<u8>,
    pub phone_number_hash: Vec<u8>,
}

/// The sealed form of a customer, as it is written to the store. `user_id`
/// is the owner of a new row; an update carries none and leaves the owner.
#[derive(Debug, Clone)]
pub struct StoredCustomer {
    pub full_name: Option<String>,
    pub phone_number_enc: Vec<u8>,
    pub phone_number_nonce: Vec<u8>,
    pub phone_number_hash: Vec<u8>,
    pub email_enc: Vec<u8>,
    pub email_nonce: Vec<u8>,
    pub email_hash: Vec<u8>,
    pub address_enc: Vec<u8>,
    pub address_nonce: Vec<u8>,
    pub user_id: Option<i32>,
    pub created_by: Option<String>,
}

/// A customer row as it is read from the store.
#[derive(Debug, Clone)]
pub struct CustomerRow {
    pub uuid: Option<Uuid>,
    pub full_name: String,
    pub phone_number_enc: Vec<u8>,
    pub phone_number_nonce: Vec<u8>,
    pub email_enc: Vec<u8>,
    pub email_nonce: Vec<u8>,
    pub address_enc: Vec<u8>,
    pub address_nonce: Vec<u8>,
    pub comment: Option<String>,
    pub user_id: Option<i32>,
    pub created_by: Option<String>,
}

/// How a request's customer is resolved.
#[derive(Debug)]
pub enum Resolution {
    /// The store holds the customer under this internal id; nothing is written.
    Existing(i32),
    /// The store holds no such customer; this row is to be inserted.
    Insert(StoredCustomer),
}

/// Whether a value is too long for the cipher.
pub open spec fn too_long(value: Seq<char>) -> bool {
    !fits_cipher(encode_utf8(value).len())
}

/// The id of the first entry with one of the two blind indexes, if there is one.
pub open spec fn first_match(
    entries: Seq<CustomerIndex>,
    email_hash: Seq<u8>,
    phone_hash: Seq<u8>,
) -> Option<i32>
    decreases entries.len(),
{
    if entries.len() == 0 {
        None
    } else if entries[0].matches(email_hash, phone_hash) {
        Some(entries[0].id)
    } else {
        first_match(entries.drop_first(), email_hash, phone_hash)
    }
}

/// The first of the three sensitive values that the cipher refuses, as an error.
pub open spec fn sealing_refusal(email: Seq<char>, phone: Seq<char>, address: Seq<char>) -> Option<
    CoreError,
> {
    if too_long(email) {
        Some(CoreError::FieldTooLong(Field::Email))
    } else if too_long(phone) {
        Some(CoreError::FieldTooLong(Field::PhoneNumber))
    } else if too_long(address) {
        Some(CoreError::FieldTooLong(Field::Address))
    } else {
        None
    }
}

/// Why a search key cannot be computed for a customer: a searchable field is missing.
pub open spec fn search_refusal(customer: Customer) -> Option<CoreError> {
    if customer.email is None {
        Some(CoreError::MissingField(Field::Email))
    } else if customer.phone_number is None {
        Some(CoreError::MissingField(Field::PhoneNumber))
    } else {
        None
    }
}

/// The id of the stored customer that a request's customer matches, if any.
pub open spec fn existing_match(
    entries: Seq<CustomerIndex>,
    secret: Seq<u8>,
    customer: Customer,
) -> Option<i32>
    recommends
        search_refusal(customer) is None,
{
    first_match(
        entries,
        blind_index(secret, customer.email->0@),
        blind_index(secret, customer.phone_number->0@),
    )
}

/// Why the creation of a customer fails, or `None` where it does not. It
/// does not fail where the store holds the customer: the stored one is then
/// the answer, whoever asks.
pub open spec fn create_refusal(
    entries: Seq<CustomerIndex>,
    secret: Seq<u8>,
    user_id: Option<i32>,
    customer: Customer,
) -> Option<CoreError> {
    if search_refusal(customer) is Some {
        search_refusal(customer)
    } else if existing_match(entries, secret, customer) is Some {
        None
    } else if user_id is None {
        Some(CoreError::ActorNotFound)
    } else if customer.address is None {
        Some(CoreError::MissingField(Field::Address))
    } else {
        sealing_refusal(customer.email->0@, customer.phone_number->0@, customer.address->0@)
    }
}

/// Why a request's customer cannot be resolved, or `None` where it can: the
/// acting user has to be known, and apart from that it is the creation of a
/// customer.
pub open spec fn resolve_refusal(
    entries: Seq<CustomerIndex>,
    secret: Seq<u8>,
    user_id: Option<i32>,
    customer: Customer,
) -> Option<CoreError> {
    if user_id is None {
        Some(CoreError::ActorNotFound)
    } else {
        create_refusal(entries, secret, user_id, customer)
    }
}

/// Why a customer cannot be changed, or `None` where it can.
pub open spec fn modify_refusal(existing: Option<Customer>, updated: Customer) -> Option<
    CoreError,
> {
    match existing {
        None => Some(CoreError::NotFound(Entity::Customer)),
        Some(existing) => sealing_refusal(
            merged(updated.email, existing.email),
            merged(updated.phone_number, existing.phone_number),
            merged(updated.address, existing.address),
        ),
    }
}

impl Resolution {
    /// Whether this is how the customer of a request is resolved: the
    /// first stored customer with one of its blind indexes, or, where there
    /// is none, a sealed row of the customer itself, owned by the actor.
    pub open spec fn resolves(
        self,
        key: Seq<u8>,
        secret: Seq<u8>,
        entries: Seq<CustomerIndex>,
        user_id: Option<i32>,
        customer: Customer,
    ) -> bool {
        match self {
            Resolution::Existing(id) => existing_match(entries, secret, customer) == Some(id),
            Resolution::Insert(stored) => {
                &&& existing_match(entries, secret, customer) is None
                &&& stored.holds(
                    key,
                    secret,
                    customer.email->0@,
                    customer.phone_number->0@,
                    customer.address->0@,
                )
                &&& text(stored.full_name) == text(customer.full_name)
                &&& stored.user_id == user_id
                &&& text(stored.created_by) == text(customer.created_by)
            },
        }
    }

    /// The internal id of the customer where the store already has it.
    pub open spec fn known_id(self) -> Option<i32> {
        match self {
            Resolution::Existing(id) => Some(id),
            Resolution::Insert(_) => None,
        }
    }

    /// The internal id of the customer where the store already has it;
    /// `None` where the customer is yet to be inserted.
    pub fn customer_id(&self) -> (id: Option<i32>)
        ensures
            id == self.known_id(),
    {
        match self {
            Resolution::Existing(id) => Some(*id),
            Resolution::Insert(_) => None,
        }
    }
}

impl CustomerIndex {
    /// Whether this entry carries one of the two blind indexes.
    pub open spec fn matches(self, email_hash: Seq<u8>, phone_hash: Seq<u8>) -> bool {
        self.email_hash@ == email_hash || self.phone_number_hash@ == phone_hash
    }

    /// Whether this entry carries one of the two blind indexes.
    pub fn is_match(&self, email_hash: &[u8], phone_hash: &[u8]) -> (found: bool)
        ensures
            found == self.matches(email_hash@, phone_hash@),
    {
        same_bytes(self.email_hash.as_slice(), email_hash) || same_bytes(
            self.phone_number_hash.as_slice(),
            phone_hash,
        )
    }
}

impl StoredCustomer {
    /// Whether this is a sealed form of the three values under the key and
    /// the secret: each ciphertext decrypts to its value, and each blind
    /// index is that of its value.
    pub open spec fn holds(
        self,
        key: Seq<u8>,
        secret: Seq<u8>,
        email: Seq<char>,
        phone: Seq<char>,
        address: Seq<char>,
    ) -> bool {
        &&& encrypts(key, email, self.email_enc@, self.email_nonce@)
        &&& self.email_hash@ == blind_index(secret, email)
        &&& encrypts(key, phone, self.phone_number_enc@, self.phone_number_nonce@)
        &&& self.phone_number_hash@ == blind_index(secret, phone)
        &&& encrypts(key, address, self.address_enc@, self.address_nonce@)
    }

    /// Whether a row carries the ciphertexts and nonces of this stored form.
    pub open spec fn stored_in(self, row: CustomerRow) -> bool {
        &&& row.email_enc@ == self.email_enc@
        &&& row.email_nonce@ == self.email_nonce@
        &&& row.phone_number_enc@ == self.phone_number_enc@
        &&& row.phone_number_nonce@ == self.phone_number_nonce@
        &&& row.address_enc@ == self.address_enc@
        &&& row.address_nonce@ == self.address_nonce@
    }

    /// The index entry of this stored form under an internal id.
    pub open spec fn indexed_as(self, entry: CustomerIndex, id: i32) -> bool {
        &&& entry.id == id
        &&& entry.email_hash@ == self.email_hash@
        &&& entry.phone_number_hash@ == self.phone_number_hash@
    }
}

impl Customer {
    /// Whether this customer is what a row reads as under a key: the
    /// sensitive fields are the decrypted columns, absent where decryption
    /// fails, and the other fields are the row's own.
    pub open spec fn reads(self, key: Seq<u8>, row: CustomerRow) -> bool {
        &&& self.id is None
        &&& self.uuid == row.uuid
        &&& text(self.full_name) == Some(row.full_name@)
        &&& text(self.phone_number) == decrypted(
            key,
            row.phone_number_enc@,
            row.phone_number_nonce@,
        )
        &&& text(self.email) == decrypted(key, row.email_enc@, row.email_nonce@)
        &&& text(self.address) == decrypted(key, row.address_enc@, row.address_nonce@)
        &&& text(self.comment) == text(row.comment)
        &&& self.user_id == row.user_id
        &&& text(self.created_by) == text(row.created_by)
    }

    /// The blind indexes by which a customer is searched: that of its email
    /// and that of its phone number.
    pub fn search_key(hmac_secret: &HmacSecret, customer: &Customer) -> (key: Result<
        (Vec<u8>, Vec<u8>),
        CoreError,
    >)
        ensures
            match key {
                Ok((email_hash, phone_hash)) => {
                    &&& search_refusal(*customer) is None
                    &&& email_hash@ == blind_index(hmac_secret@, customer.email->0@)
                    &&& phone_hash@ == blind_index(hmac_secret@, customer.phone_number->0@)
                },
                Err(e) => search_refusal(*customer) == Some(e),
            },
    {
        let email = match &customer.email {
            Some(email) => email,
            None => {
                return Err(CoreError::MissingField(Field::Email));
            },
        };
        let phone = match &customer.phone_number {
            Some(phone) => phone,
            None => {
                return Err(CoreError::MissingField(Field::PhoneNumber));
            },
        };
        Ok(
            (
                hash_value(hmac_secret.as_slice(), email.as_str()),
                hash_value(hmac_secret.as_slice(), phone.as_str()),
            ),
        )
    }

    /// The id of the first entry that carries one of the two blind indexes.
    pub fn first_matching(
        entries: &Vec<CustomerIndex>,
        email_hash: &[u8],
        phone_hash: &[u8],
    ) -> (id: Option<i32>)
        ensures
            id == first_match(entries@, email_hash@, phone_hash@),
    {
        let mut i: usize = 0;
        assert(entries@.subrange(0, entries@.len() as int) =~= entries@);
        while i < entries.len()
            invariant
                i <= entries@.len(),
                first_match(entries@, email_hash@, phone_hash@) == first_match(
                    entries@.subrange(i as int, entries@.len() as int),
                    email_hash@,
                    phone_hash@,
                ),
            decreases entries@.len() - i,
        {
            let ghost rest = entries@.subrange(i as int, entries@.len() as int);
            if entries[i].is_match(email_hash, phone_hash) {
                return Some(entries[i].id);
            }
            assert(rest.drop_first() =~= entries@.subrange(i + 1, entries@.len() as int));
            i += 1;
        }
        None
    }

    /// The id of the first stored customer with the email's or the phone
    /// number's blind index.
    pub fn find_existing(
        hmac_secret: &HmacSecret,
        customer: &Customer,
        entries: &Vec<CustomerIndex>,
    ) -> (found: Result<Option<i32>, CoreError>)
        ensures
            match found {
                Ok(id) => {
                    &&& search_refusal(*customer) is None
                    &&& id == existing_match(entries@, hmac_secret@, *customer)
                },
                Err(e) => search_refusal(*customer) == Some(e),
            },
    {
        match Customer::search_key(hmac_secret, customer) {
            Ok((email_hash, phone_hash)) => Ok(
                Customer::first_matching(entries, email_hash.as_slice(), phone_hash.as_slice()),
            ),
            Err(e) => Err(e),
        }
    }

    /// Whether the store holds a customer with the email's or the phone
    /// number's blind index.
    pub fn is_exists(
        hmac_secret: &HmacSecret,
        customer: &Customer,
        entries: &Vec<CustomerIndex>,
    ) -> (found: Result<bool, CoreError>)
        ensures
            match found {
                Ok(b) => {
                    &&& search_refusal(*customer) is None
                    &&& b == (existing_match(entries@, hmac_secret@, *customer) is Some)
                },
                Err(e) => search_refusal(*customer) == Some(e),
            },
    {
        match Customer::find_existing(hmac_secret, customer, entries) {
            Ok(found) => Ok(found.is_some()),
            Err(e) => Err(e),
        }
    }

    /// Seals the three sensitive values: encrypts each under a nonce of its
    /// own and computes the blind indexes of email and phone number.
    fn seal(
        key: &Key,
        hmac_secret: &HmacSecret,
        full_name: Option<String>,
        email: &str,
        phone: &str,
        address: &str,
        user_id: Option<i32>,
        created_by: Option<String>,
    ) -> (sealed: Result<StoredCustomer, CoreError>)
        ensures
            match sealed {
                Ok(stored) => {
                    &&& sealing_refusal(email@, phone@, address@) is None
                    &&& stored.holds(key@, hmac_secret@, email@, phone@, address@)
                    &&& text(stored.full_name) == text(full_name)
                    &&& stored.user_id == user_id
                    &&& text(stored.created_by) == text(created_by)
                },
                Err(e) => sealing_refusal(email@, phone@, address@) == Some(e),
            },
    {
        let email_hash = hash_value(hmac_secret.as_slice(), email);
        let phone_hash = hash_value(hmac_secret.as_slice(), phone);
        let (email_enc, email_nonce) = match encrypt_value(key, email) {
            Some(pair) => pair,
            None => {
                return Err(CoreError::FieldTooLong(Field::Email));
            },
        };
        let (phone_enc, phone_nonce) = match encrypt_value(key, phone) {
            Some(pair) => pair,
            None => {
                return Err(CoreError::FieldTooLong(Field::PhoneNumber));
            },
        };
        let (address_enc, address_nonce) = match encrypt_value(key, address) {
            Some(pair) => pair,
            None => {
                return Err(CoreError::FieldTooLong(Field::Address));
            },
        };
        Ok(
            StoredCustomer {
                full_name,
                phone_number_enc: phone_enc,
                phone_number_nonce: phone_nonce,
                phone_number_hash: phone_hash,
                email_enc,
                email_nonce,
                email_hash,
                address_enc,
                address_nonce,
                user_id,
                created_by,
            },
        )
    }

    /// Creates a customer, unless the store holds it: where the email's or
    /// the phone number's blind index is found, the answer is the stored
    /// customer and nothing is written; else it is the sealed row to insert,
    /// owned by the acting user. `entries` is what the store holds for
    /// equality search and `user_id` the internal id of the acting user,
    /// `None` where it was not found.
    pub fn create(
        key: &Key,
        hmac_secret: &HmacSecret,
        entries: &Vec<CustomerIndex>,
        user_id: Option<i32>,
        new_customer: Customer,
    ) -> (created: Result<Resolution, CoreError>)
        ensures
            match created {
                Ok(resolution) => {
                    &&& create_refusal(entries@, hmac_secret@, user_id, new_customer) is None
                    &&& resolution.resolves(key@, hmac_secret@, entries@, user_id, new_customer)
                },
                Err(e) => create_refusal(entries@, hmac_secret@, user_id, new_customer) == Some(e),
            },
    {
        match Customer::find_existing(hmac_secret, &new_customer, entries) {
            Ok(Some(id)) => {
                return Ok(Resolution::Existing(id));
            },
            Ok(None) => {},
            Err(e) => {
                return Err(e);
            },
        }
        if user_id.is_none() {
            return Err(CoreError::ActorNotFound);
        }
        let Customer { full_name, phone_number, email, address, created_by, .. } = new_customer;
        let address = match address {
            Some(address) => address,
            None => {
                return Err(CoreError::MissingField(Field::Address));
            },
        };
        let email = email.unwrap();
        let phone = phone_number.unwrap();
        match Customer::seal(
            key,
            hmac_secret,
            full_name,
            email.as_str(),
            phone.as_str(),
            address.as_str(),
            user_id,
            created_by,
        ) {
            Ok(stored) => Ok(Resolution::Insert(stored)),
            Err(e) => Err(e),
        }
    }

    /// Resolves the customer of a request that attaches a record to one:
    /// the stored customer where the email's or the phone number's blind
    /// index is found, in which case the request's customer fields are
    /// dropped, and else a new row, owned by the acting user. Fails before
    /// anything else where the acting user was not found.
    pub fn resolve(
        key: &Key,
        hmac_secret: &HmacSecret,
        entries: &Vec<CustomerIndex>,
        user_id: Option<i32>,
        customer: Customer,
    ) -> (resolved: Result<Resolution, CoreError>)
        ensures
            match resolved {
                Ok(resolution) => {
                    &&& resolve_refusal(entries@, hmac_secret@, user_id, customer) is None
                    &&& resolution.resolves(key@, hmac_secret@, entries@, user_id, customer)
                },
                Err(e) => resolve_refusal(entries@, hmac_secret@, user_id, customer) == Some(e),
            },
    {
        if user_id.is_none() {
            return Err(CoreError::ActorNotFound);
        }
        Customer::create(key, hmac_secret, entries, user_id, customer)
    }

    /// Prepares the update of a customer; `NotFound` where the store has no
    /// such customer. A field that the update leaves out keeps the value
    /// that the record has; a sensitive field that neither has is written as
    /// the empty text. Every sensitive field is encrypted anew, changed or
    /// not. `existing` is the record as it reads now, `None` where the store
    /// does not hold it.
    pub fn modify(
        key: &Key,
        hmac_secret: &HmacSecret,
        existing: Option<Customer>,
        updated_customer: Customer,
    ) -> (modified: Result<StoredCustomer, CoreError>)
        ensures
            match modified {
                Ok(stored) => {
                    &&& modify_refusal(existing, updated_customer) is None
                    &&& stored.holds(
                        key@,
                        hmac_secret@,
                        merged(updated_customer.email, existing->0.email),
                        merged(updated_customer.phone_number, existing->0.phone_number),
                        merged(updated_customer.address, existing->0.address),
                    )
                    &&& text(stored.full_name) == first_text(
                        updated_customer.full_name,
                        existing->0.full_name,
                    )
                    &&& stored.user_id is None
                    &&& stored.created_by is None
                },
                Err(e) => modify_refusal(existing, updated_customer) == Some(e),
            },
    {
        let existing = match existing {
            Some(existing) => existing,
            None => {
                return Err(CoreError::NotFound(Entity::Customer));
            },
        };
        let full_name = or_text(updated_customer.full_name, existing.full_name);
        let email = unwrap_text(or_text(updated_customer.email, existing.email));
        let phone = unwrap_text(or_text(updated_customer.phone_number, existing.phone_number));
        let address = unwrap_text(or_text(updated_customer.address, existing.address));
        Customer::seal(
            key,
            hmac_secret,
            full_name,
            email.as_str(),
            phone.as_str(),
            address.as_str(),
            None,
            None,
        )
    }

    /// Reads one row: decrypts the sensitive columns, each to `None` where
    /// decryption fails, and takes the others as they are.
    pub fn get_by_uuid(key: &Key, row: &CustomerRow) -> (customer: Customer)
        ensures
            customer.reads(key@, *row),
    {
        Customer {
            id: None,
            uuid: row.uuid,
            full_name: Some(row.full_name.clone()),
            phone_number: decrypt_value(
                key,
                row.phone_number_enc.as_slice(),
                row.phone_number_nonce.as_slice(),
            ),
            email: decrypt_value(key, row.email_enc.as_slice(), row.email_nonce.as_slice()),
            address: decrypt_value(key, row.address_enc.as_slice(), row.address_nonce.as_slice()),
            comment: clone_text(&row.comment),
            user_id: row.user_id,
            created_by: clone_text(&row.created_by),
        }
    }

    /// Reads the rows of the customers that a user owns, in their order.
    /// `user_id` is the internal id of that user, `None` where it was not
    /// found.
    pub fn get_all(key: &Key, user_id: Option<i32>, rows: &Vec<CustomerRow>) -> (customers: Result<
        Vec<Customer>,
        CoreError,
    >)
        ensures
            customers is Ok <==> user_id is Some,
            customers is Err ==> customers == Err::<Vec<Customer>, CoreError>(
                CoreError::ActorNotFound,
            ),
            customers is Ok ==> {
                &&& customers->Ok_0@.len() == rows@.len()
                &&& forall|i: int|
                    0 <= i < rows@.len() ==> (#[trigger] customers->Ok_0@[i]).reads(key@, rows@[i])
            },
    {
        if user_id.is_none() {
            return Err(CoreError::ActorNotFound);
        }
        let mut customers: Vec<Customer> = Vec::new();
        let mut i: usize = 0;
        while i < rows.len()
            invariant
                i <= rows@.len(),
                customers@.len() == i,
                forall|j: int| 0 <= j < i ==> (#[trigger] customers@[j]).reads(key@, rows@[j]),
            decreases rows@.len() - i,
        {
            customers.push(Customer::get_by_uuid(key, &rows[i]));
            i += 1;
        }
        Ok(customers)
    }
}

/// The value that an update writes for a sensitive field: the update's own
/// where it has one, else the record's, else the empty text.
pub open spec fn merged(updated: Option<String>, existing: Option<String>) -> Seq<char> {
    match first_text(updated, existing) {
        Some(value) => value,
        None => Seq::empty(),
    }
}

impl Owned for Customer {
    open spec fn public_id(&self) -> Option<Uuid> {
        self.uuid
    }

    open spec fn owner(&self) -> Option<i32> {
        self.user_id
    }

    open spec fn differs_in_owner_only(&self, other: &Self) -> bool {
        *other == (Customer { user_id: other.user_id, ..*self })
    }

    fn uuid(&self) -> (id: Option<Uuid>) {
        self.uuid
    }

    fn set_owner(&mut self, user_id: i32) {
        self.user_id = Some(user_id);
    }
}

impl Customer {
    /// Plans handing the listed customers to the user with the given
    /// display name; `NotFound` where the directory has no such user.
    pub fn change_handler(
        directory: &Vec<NamedUser>,
        user_full_name: String,
        customer_ids: Vec<Uuid>,
    ) -> (plan: Result<Reassignment, CoreError>)
        ensures
            match plan {
                Ok(plan) => {
                    &&& owner_by_name(directory@, user_full_name@) == Some(plan.user_id)
                    &&& plan.uuids@ == customer_ids@
                },
                Err(e) => {
                    &&& owner_by_name(directory@, user_full_name@) is None
                    &&& e == CoreError::NotFound(Entity::User)
                },
            },
    {
        Reassignment::new(directory, user_full_name.as_str(), customer_ids)
    }

    /// Checks a bulk delete: `found` holds, for each customer named in the
    /// request, the internal id that the store has for it. Returns the ids to
    /// delete, in order, or `NotFound` where any of them is missing, in which
    /// case nothing is to be deleted.
    pub fn delete(found: &Vec<Option<i32>>) -> (ids: Result<Vec<i32>, CoreError>)
        ensures
            match ids {
                Ok(ids) => {
                    &&& ids@.len() == found@.len()
                    &&& forall|i: int|
                        0 <= i < found@.len() ==> found@[i] == Some(#[trigger] ids@[i])
                },
                Err(e) => {
                    &&& e == CoreError::NotFound(Entity::Customer)
                    &&& exists|i: int| 0 <= i < found@.len() && found@[i] is None
                },
            },
    {
        let mut ids: Vec<i32> = Vec::new();
        let mut i: usize = 0;
        while i < found.len()
            invariant
                i <= found@.len(),
                ids@.len() == i,
                forall|j: int| 0 <= j < i ==> found@[j] == Some(#[trigger] ids@[j]),
            decreases found@.len() - i,
        {
            match found[i] {
                Some(id) => {
                    ids.push(id);
                },
                None => {
                    return Err(CoreError::NotFound(Entity::Customer));
                },
            }
            i += 1;
        }
        Ok(ids)
    }
}

/// What the first match is once an entry has been appended: the earlier
/// first match where there is one, else the new entry where it matches.
pub proof fn lemma_first_match_push(
    entries: Seq<CustomerIndex>,
    entry: CustomerIndex,
    email_hash: Seq<u8>,
    phone_hash: Seq<u8>,
)
    ensures
        first_match(entries.push(entry), email_hash, phone_hash) == (if first_match(
            entries,
            email_hash,
            phone_hash,
        ) is Some {
            first_match(entries, email_hash, phone_hash)
        } else if entry.matches(email_hash, phone_hash) {
            Some(entry.id)
        } else {
            None
        }),
    decreases entries.len(),
{
    if entries.len() == 0 {
        assert(entries.push(entry).drop_first() =~= entries);
    } else {
        assert(entries.push(entry).drop_first() =~= entries.drop_first().push(entry));
        lemma_first_match_push(entries.drop_first(), entry, email_hash, phone_hash);
    }
}

/// A first match is the id of an entry that carries one of the two blind
/// indexes, and there is none exactly where no entry carries one.
pub proof fn lemma_first_match_is_a_match(
    entries: Seq<CustomerIndex>,
    email_hash: Seq<u8>,
    phone_hash: Seq<u8>,
)
    ensures
        first_match(entries, email_hash, phone_hash) is Some <==> exists|i: int|
            0 <= i < entries.len() && (#[trigger] entries[i]).matches(email_hash, phone_hash),
        first_match(entries, email_hash, phone_hash) is Some ==> exists|i: int|
            0 <= i < entries.len() && (#[trigger] entries[i]).matches(email_hash, phone_hash)
                && entries[i].id == first_match(entries, email_hash, phone_hash)->0,
    decreases entries.len(),
{
    if entries.len() == 0 {
    } else if entries[0].matches(email_hash, phone_hash) {
    } else {
        let rest = entries.drop_first();
        lemma_first_match_is_a_match(rest, email_hash, phone_hash);
        if first_match(rest, email_hash, phone_hash) is Some {
            let i = choose|i: int|
                0 <= i < rest.len() && (#[trigger] rest[i]).matches(email_hash, phone_hash)
                    && rest[i].id == first_match(rest, email_hash, phone_hash)->0;
            assert(entries[i + 1] == rest[i]);
        }
        if exists|i: int|
            0 <= i < entries.len() && (#[trigger] entries[i]).matches(email_hash, phone_hash) {
            let i = choose|i: int|
                0 <= i < entries.len() && (#[trigger] entries[i]).matches(email_hash, phone_hash);
            assert(rest[i - 1] == entries[i]);
        }
    }
}

/// Dedup is idempotent. Let a customer that the store did not hold be
/// stored under `id`, and let a later request carry the same email. Then
/// the later request, be it a creation or the resolution for another
/// record, does not fail, finds a stored customer, and has nothing inserted;
/// and it finds `id` itself, unless its phone number is that of a customer
/// stored before.
pub proof fn lemma_dedup_idempotent(
    key: Seq<u8>,
    secret: Seq<u8>,
    entries: Seq<CustomerIndex>,
    first: Customer,
    stored: StoredCustomer,
    entry: CustomerIndex,
    id: i32,
    later: Customer,
    actor: i32,
)
    requires
        search_refusal(first) is None,
        first.address is Some,
        existing_match(entries, secret, first) is None,
        stored.holds(key, secret, first.email->0@, first.phone_number->0@, first.address->0@),
        stored.indexed_as(entry, id),
        search_refusal(later) is None,
        later.email->0@ == first.email->0@,
    ensures
        existing_match(entries.push(entry), secret, later) is Some,
        resolve_refusal(entries.push(entry), secret, Some(actor), later) is None,
        forall|asking: Option<i32>|
            create_refusal(entries.push(entry), secret, asking, later) is None,
        forall|resolution: Resolution, asking: Option<i32>|
            #[trigger] resolution.resolves(key, secret, entries.push(entry), asking, later)
                ==> resolution.known_id() is Some,
        (forall|i: int|
            0 <= i < entries.len() ==> (#[trigger] entries[i]).phone_number_hash@ != blind_index(
                secret,
                later.phone_number->0@,
            )) ==> existing_match(entries.push(entry), secret, later) == Some(id),
{
    let email_hash = blind_index(secret, later.email->0@);
    let phone_hash = blind_index(secret, later.phone_number->0@);
    lemma_first_match_push(entries, entry, email_hash, phone_hash);
    lemma_first_match_is_a_match(entries, email_hash, phone_hash);
    lemma_first_match_is_a_match(
        entries,
        blind_index(secret, first.email->0@),
        blind_index(secret, first.phone_number->0@),
    );
}

/// A stored customer reads back: a row that carries what was stored
/// decrypts, under the key it was sealed with, to the values that were
/// sealed.
pub proof fn lemma_stored_customer_reads_back(
    key: Seq<u8>,
    secret: Seq<u8>,
    stored: StoredCustomer,
    row: CustomerRow,
    customer: Customer,
    email: Seq<char>,
    phone: Seq<char>,
    address: Seq<char>,
)
    requires
        stored.holds(key, secret, email, phone, address),
        stored.stored_in(row),
        customer.reads(key, row),
    ensures
        text(customer.email) == Some(email),
        text(customer.phone_number) == Some(phone),
        text(customer.address) == Some(address),
{
}

} // verus!
