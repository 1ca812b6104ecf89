//! Recruitment candidates.
//!
//! A candidate stands alone, with no link to a customer. Email and phone
//! number are stored encrypted and with a blind index. A candidate is a
//! duplicate exactly where the store holds one with the blind index of its
//! email or of its phone number; an equal name makes no duplicate.

use crate::models::identity::Uuid;
use crate::utils::encrypt::{
    blind_index, decrypt_value, decrypted, encrypt_value, encrypts, hash_value, HmacSecret, Key,
};
use crate::utils::error::{CoreError, Entity, Field};
use crate::utils::text::{
    bytes, first_text, or_text, same_bytes, text, text_or_empty, unwrap_text,
};
use crate::models::customer::{merged, too_long};
use vstd::prelude::*;

verus! {

/// A candidate with its fields in the clear.
#[derive(Debug, Default, Clone)]
pub struct Recruitment {
    pub uuid: Option<Uuid>,
    pub full_name: Option<String>,
    pub email: Option<String>,
    pub phone_number: Option<String>,
    pub description: Option<String>,
    pub created_by: Option<String>,
}

/// What the store holds of one candidate for equality search: its two
/// blind indexes, each absent where the stored value is empty.
#[derive(Debug, Clone)]
pub struct RecruitmentIndex {
    pub email_hash: Option<Vec<u8>>,
    pub phone_number_hash: Option<Vec<u8>>,
}

/// The sealed form of a candidate, as it is written to the store. A blind
/// index is absent where its value is empty.
#[derive(Debug, Clone)]
pub struct StoredRecruitment {
    pub full_name: Option<String>,
    pub email_enc: Vec<u8>,
    pub email_nonce: Vec<u8>,
    pub email_hash: Option<Vec<u8>>,
    pub phone_number_enc: Vec<u8>,
    pub phone_number_nonce: Vec<u8>,
    pub phone_number_hash: Option<Vec<u8>>,
    pub description: Option<String>,
    pub created_by: Option<String>,
}

/// A candidate row as it is read from the store.
#[derive(Debug, Clone)]
pub struct RecruitmentRow {
    pub uuid: Option<Uuid>,
    pub full_name: String,
    pub email_enc: Vec<u8>,
    pub email_nonce: Vec<u8>,
    pub phone_number_enc: Vec<u8>,
    pub phone_number_nonce: Vec<u8>,
    pub description: String,
    pub created_by: String,
}

/// The blind index that is written for a value: none for the empty text.
pub open spec fn written_index(secret: Seq<u8>, value: Seq<char>) -> Option<Seq<u8>> {
    if value.len() == 0 {
        None
    } else {
        Some(blind_index(secret, value))
    }
}

/// Whether the store holds a candidate with the blind index of the email or
/// of the phone number of this one. A field that is not given counts as
/// empty.
pub open spec fn candidate_known(
    entries: Seq<RecruitmentIndex>,
    secret: Seq<u8>,
    candidate: Recruitment,
) -> bool {
    exists|i: int|
        0 <= i < entries.len() && (#[trigger] entries[i]).matches(
            blind_index(secret, text_or_empty(candidate.email)),
            blind_index(secret, text_or_empty(candidate.phone_number)),
        )
}

/// Why a candidate cannot be created, or `None` where it can.
pub open spec fn create_refusal(
    entries: Seq<RecruitmentIndex>,
    secret: Seq<u8>,
    candidate: Recruitment,
) -> Option<CoreError> {
    if candidate_known(entries, secret, candidate) {
        Some(CoreError::AlreadyExists(Entity::Recruitment))
    } else if candidate.email is None {
        Some(CoreError::MissingField(Field::Email))
    } else if too_long(candidate.email->0@) {
        Some(CoreError::FieldTooLong(Field::Email))
    } else if candidate.phone_number is None {
        Some(CoreError::MissingField(Field::PhoneNumber))
    } else if too_long(candidate.phone_number->0@) {
        Some(CoreError::FieldTooLong(Field::PhoneNumber))
    } else {
        None
    }
}

/// Why a candidate cannot be changed, or `None` where it can.
pub open spec fn modify_refusal(existing: Option<Recruitment>, updated: Recruitment) -> Option<
    CoreError,
> {
    match existing {
        None => Some(CoreError::NotFound(Entity::Recruitment)),
        Some(existing) => if too_long(merged(updated.email, existing.email)) {
            Some(CoreError::FieldTooLong(Field::Email))
        } else if too_long(merged(updated.phone_number, existing.phone_number)) {
            Some(CoreError::FieldTooLong(Field::PhoneNumber))
        } else {
            None
        },
    }
}

impl RecruitmentIndex {
    /// Whether this entry carries one of the two blind indexes.
    pub open spec fn matches(self, email_hash: Seq<u8>, phone_hash: Seq<u8>) -> bool {
        ||| bytes(self.email_hash) == Some(email_hash)
        ||| bytes(self.phone_number_hash) == Some(phone_hash)
    }

    /// Whether this entry carries one of the two blind indexes.
    pub fn is_match(&self, email_hash: &[u8], phone_hash: &[u8]) -> (found: bool)
        ensures
            found == self.matches(email_hash@, phone_hash@),
    {
        let by_email = match &self.email_hash {
            Some(hash) => same_bytes(hash.as_slice(), email_hash),
            None => false,
        };
        if by_email {
            return true;
        }
        match &self.phone_number_hash {
            Some(hash) => same_bytes(hash.as_slice(), phone_hash),
            None => false,
        }
    }
}

impl StoredRecruitment {
    /// Whether the two ciphertexts are encryptions of the two values under the key.
    pub open spec fn holds(self, key: Seq<u8>, email: Seq<char>, phone: Seq<char>) -> bool {
        &&& encrypts(key, email, self.email_enc@, self.email_nonce@)
        &&& encrypts(key, phone, self.phone_number_enc@, self.phone_number_nonce@)
    }

    /// Whether both blind indexes are present and are those of the two values.
    pub open spec fn indexes(self, secret: Seq<u8>, email: Seq<char>, phone: Seq<char>) -> bool {
        &&& bytes(self.email_hash) == Some(blind_index(secret, email))
        &&& bytes(self.phone_number_hash) == Some(blind_index(secret, phone))
    }

    /// Whether each blind index is that of its value, and absent where the
    /// value is empty.
    pub open spec fn indexes_unless_empty(
        self,
        secret: Seq<u8>,
        email: Seq<char>,
        phone: Seq<char>,
    ) -> bool {
        &&& bytes(self.email_hash) == written_index(secret, email)
        &&& bytes(self.phone_number_hash) == written_index(secret, phone)
    }

    /// Whether a row carries the ciphertexts and nonces of this stored form.
    pub open spec fn stored_in(self, row: RecruitmentRow) -> bool {
        &&& row.email_enc@ == self.email_enc@
        &&& row.email_nonce@ == self.email_nonce@
        &&& row.phone_number_enc@ == self.phone_number_enc@
        &&& row.phone_number_nonce@ == self.phone_number_nonce@
    }

    /// Whether an entry is the index entry of this stored form.
    pub open spec fn indexed_as(self, entry: RecruitmentIndex) -> bool {
        &&& bytes(entry.email_hash) == bytes(self.email_hash)
        &&& bytes(entry.phone_number_hash) == bytes(self.phone_number_hash)
    }
}

impl Recruitment {
    /// Whether this candidate is what a row reads as under a key.
    pub open spec fn reads(self, key: Seq<u8>, row: RecruitmentRow) -> bool {
        &&& self.uuid == row.uuid
        &&& text(self.full_name) == Some(row.full_name@)
        &&& text(self.email) == decrypted(key, row.email_enc@, row.email_nonce@)
        &&& text(self.phone_number) == decrypted(
            key,
            row.phone_number_enc@,
            row.phone_number_nonce@,
        )
        &&& text(self.description) == Some(row.description@)
        &&& text(self.created_by) == Some(row.created_by@)
    }

    /// Whether any entry carries one of the two blind indexes.
    pub fn any_matching(
        entries: &Vec<RecruitmentIndex>,
        email_hash: &[u8],
        phone_hash: &[u8],
    ) -> (found: bool)
        ensures
            found == exists|i: int|
                0 <= i < entries@.len() && (#[trigger] entries@[i]).matches(
                    email_hash@,
                    phone_hash@,
                ),
    {
        let mut i: usize = 0;
        while i < entries.len()
            invariant
                i <= entries@.len(),
                forall|j: int|
                    0 <= j < i ==> !(#[trigger] entries@[j]).matches(email_hash@, phone_hash@),
            decreases entries@.len() - i,
        {
            if entries[i].is_match(email_hash, phone_hash) {
                return true;
            }
            i += 1;
        }
        false
    }

    /// Whether the store holds a candidate with the blind index of the
    /// email or of the phone number of this one.
    pub fn is_exists(
        hmac_secret: &HmacSecret,
        r: &Recruitment,
        entries: &Vec<RecruitmentIndex>,
    ) -> (known: bool)
        ensures
            known == candidate_known(entries@, hmac_secret@, *r),
    {
        let email = match &r.email {
            Some(s) => s.as_str(),
            None => "",
        };
        let phone = match &r.phone_number {
            Some(s) => s.as_str(),
            None => "",
        };
        proof {
            reveal_strlit("");
            assert(""@ =~= Seq::<char>::empty());
        }
        let email_hash = hash_value(hmac_secret.as_slice(), email);
        let phone_hash = hash_value(hmac_secret.as_slice(), phone);
        Recruitment::any_matching(entries, email_hash.as_slice(), phone_hash.as_slice())
    }

    /// The blind index that a change writes for a value: none for the empty text.
    fn index_unless_empty(hmac_secret: &HmacSecret, value: &str) -> (hash: Option<Vec<u8>>)
        ensures
            bytes(hash) == written_index(hmac_secret@, value@),
    {
        if value.is_empty() {
            None
        } else {
            Some(hash_value(hmac_secret.as_slice(), value))
        }
    }

    /// Creates a candidate: refuses one that the store already holds and one
    /// without email or phone number, and otherwise returns the sealed row to
    /// insert.
    pub fn create(
        key: &Key,
        hmac_secret: &HmacSecret,
        entries: &Vec<RecruitmentIndex>,
        recruitment: Recruitment,
    ) -> (created: Result<StoredRecruitment, CoreError>)
        ensures
            match created {
                Ok(stored) => {
                    &&& create_refusal(entries@, hmac_secret@, recruitment) is None
                    &&& stored.holds(key@, recruitment.email->0@, recruitment.phone_number->0@)
                    &&& stored.indexes(
                        hmac_secret@,
                        recruitment.email->0@,
                        recruitment.phone_number->0@,
                    )
                    &&& text(stored.full_name) == text(recruitment.full_name)
                    &&& text(stored.description) == text(recruitment.description)
                    &&& text(stored.created_by) == text(recruitment.created_by)
                },
                Err(e) => create_refusal(entries@, hmac_secret@, recruitment) == Some(e),
            },
    {
        if Recruitment::is_exists(hmac_secret, &recruitment, entries) {
            return Err(CoreError::AlreadyExists(Entity::Recruitment));
        }
        let Recruitment { full_name, email, phone_number, description, created_by, .. } =
            recruitment;
        let email = match email {
            Some(email) => email,
            None => {
                return Err(CoreError::MissingField(Field::Email));
            },
        };
        let email_hash = hash_value(hmac_secret.as_slice(), email.as_str());
        let (email_enc, email_nonce) = match encrypt_value(key, email.as_str()) {
            Some(sealed) => sealed,
            None => {
                return Err(CoreError::FieldTooLong(Field::Email));
            },
        };
        let phone = match phone_number {
            Some(phone) => phone,
            None => {
                return Err(CoreError::MissingField(Field::PhoneNumber));
            },
        };
        let phone_hash = hash_value(hmac_secret.as_slice(), phone.as_str());
        let (phone_number_enc, phone_number_nonce) = match encrypt_value(key, phone.as_str()) {
            Some(sealed) => sealed,
            None => {
                return Err(CoreError::FieldTooLong(Field::PhoneNumber));
            },
        };
        Ok(
            StoredRecruitment {
                full_name,
                email_enc,
                email_nonce,
                email_hash: Some(email_hash),
                phone_number_enc,
                phone_number_nonce,
                phone_number_hash: Some(phone_hash),
                description,
                created_by,
            },
        )
    }

    /// Prepares the change of a candidate; `NotFound` where the store has no
    /// such candidate. A field that the change leaves out keeps the value
    /// that the record has; a sensitive field that neither has is written as
    /// the empty text, without a blind index. Both sensitive fields are
    /// encrypted anew, changed or not. `existing` is the record as it reads
    /// now, `None` where the store does not hold it.
    pub fn modify(
        key: &Key,
        hmac_secret: &HmacSecret,
        existing: Option<Recruitment>,
        updated: Recruitment,
    ) -> (modified: Result<StoredRecruitment, CoreError>)
        ensures
            match modified {
                Ok(stored) => {
                    &&& modify_refusal(existing, updated) is None
                    &&& stored.holds(
                        key@,
                        merged(updated.email, existing->0.email),
                        merged(updated.phone_number, existing->0.phone_number),
                    )
                    &&& stored.indexes_unless_empty(
                        hmac_secret@,
                        merged(updated.email, existing->0.email),
                        merged(updated.phone_number, existing->0.phone_number),
                    )
                    &&& text(stored.full_name) == first_text(
                        updated.full_name,
                        existing->0.full_name,
                    )
                    &&& text(stored.description) == first_text(
                        updated.description,
                        existing->0.description,
                    )
                    &&& text(stored.created_by) == first_text(
                        updated.created_by,
                        existing->0.created_by,
                    )
                },
                Err(e) => modify_refusal(existing, updated) == Some(e),
            },
    {
        let existing = match existing {
            Some(existing) => existing,
            None => {
                return Err(CoreError::NotFound(Entity::Recruitment));
            },
        };
        let full_name = or_text(updated.full_name, existing.full_name);
        let description = or_text(updated.description, existing.description);
        let created_by = or_text(updated.created_by, existing.created_by);
        let effective_email = unwrap_text(or_text(updated.email, existing.email));
        let effective_phone = unwrap_text(or_text(updated.phone_number, existing.phone_number));
        let (email_enc, email_nonce) = match encrypt_value(key, effective_email.as_str()) {
            Some(sealed) => sealed,
            None => {
                return Err(CoreError::FieldTooLong(Field::Email));
            },
        };
        let email_hash = Recruitment::index_unless_empty(hmac_secret, effective_email.as_str());
        let (phone_number_enc, phone_number_nonce) = match encrypt_value(
            key,
            effective_phone.as_str(),
        ) {
            Some(sealed) => sealed,
            None => {
                return Err(CoreError::FieldTooLong(Field::PhoneNumber));
            },
        };
        let phone_number_hash = Recruitment::index_unless_empty(
            hmac_secret,
            effective_phone.as_str(),
        );
        Ok(
            StoredRecruitment {
                full_name,
                email_enc,
                email_nonce,
                email_hash,
                phone_number_enc,
                phone_number_nonce,
                phone_number_hash,
                description,
                created_by,
            },
        )
    }

    /// Reads one row: decrypts email and phone number, each to `None` where
    /// decryption fails, and takes the other fields as they are.
    pub fn get_by_uuid(key: &Key, row: &RecruitmentRow) -> (candidate: Recruitment)
        ensures
            candidate.reads(key@, *row),
    {
        Recruitment {
            uuid: row.uuid,
            full_name: Some(row.full_name.clone()),
            email: decrypt_value(key, row.email_enc.as_slice(), row.email_nonce.as_slice()),
            phone_number: decrypt_value(
                key,
                row.phone_number_enc.as_slice(),
                row.phone_number_nonce.as_slice(),
            ),
            description: Some(row.description.clone()),
            created_by: Some(row.created_by.clone()),
        }
    }

    /// Reads all rows, in their order.
    pub fn get_all(key: &Key, rows: &Vec<RecruitmentRow>) -> (candidates: Vec<Recruitment>)
        ensures
            candidates@.len() == rows@.len(),
            forall|i: int|
                0 <= i < rows@.len() ==> (#[trigger] candidates@[i]).reads(key@, rows@[i]),
    {
        let mut candidates: Vec<Recruitment> = Vec::new();
        let mut i: usize = 0;
        while i < rows.len()
            invariant
                i <= rows@.len(),
                candidates@.len() == i,
                forall|j: int| 0 <= j < i ==> (#[trigger] candidates@[j]).reads(key@, rows@[j]),
            decreases rows@.len() - i,
        {
            candidates.push(Recruitment::get_by_uuid(key, &rows[i]));
            i += 1;
        }
        candidates
    }
}

/// A candidate is created once. Let a candidate be created and its index
/// entry be added to the store. Then creating a candidate with the same
/// email, whatever its other fields, is refused as a duplicate.
pub proof fn lemma_second_candidate_refused(
    secret: Seq<u8>,
    entries: Seq<RecruitmentIndex>,
    first: Recruitment,
    stored: StoredRecruitment,
    entry: RecruitmentIndex,
    second: Recruitment,
)
    requires
        first.email is Some,
        first.phone_number is Some,
        stored.indexes(secret, first.email->0@, first.phone_number->0@),
        stored.indexed_as(entry),
        second.email is Some,
        second.email->0@ == first.email->0@,
    ensures
        candidate_known(entries.push(entry), secret, second),
        create_refusal(entries.push(entry), secret, second) == Some(
            CoreError::AlreadyExists(Entity::Recruitment),
        ),
{
    let after = entries.push(entry);
    assert(after[entries.len() as int] == entry);
    assert(entry.matches(
        blind_index(secret, text_or_empty(second.email)),
        blind_index(secret, text_or_empty(second.phone_number)),
    ));
}

/// A stored candidate reads back: a row that carries what was stored
/// decrypts, under the key it was sealed with, to the values that were
/// sealed.
pub proof fn lemma_stored_candidate_reads_back(
    key: Seq<u8>,
    stored: StoredRecruitment,
    row: RecruitmentRow,
    candidate: Recruitment,
    email: Seq<char>,
    phone: Seq<char>,
)
    requires
        stored.holds(key, email, phone),
        stored.stored_in(row),
        candidate.reads(key, row),
    ensures
        text(candidate.email) == Some(email),
        text(candidate.phone_number) == Some(phone),
{
}

} // verus!
