//! Recommendations: people whom a customer has recommended.
//!
//! A recommendation stands alone, with no link to a customer. The phone
//! number is stored encrypted and with a blind index, the city encrypted
//! only. A recommendation is a duplicate exactly where the store holds one
//! with the blind index of its phone number; an equal name makes no
//! duplicate.

use crate::models::customer::{merged, too_long};
use crate::models::identity::Uuid;
use crate::models::ownership::{owner_by_name, NamedUser, Reassignment};
use crate::models::recruitment::written_index;
use crate::utils::encrypt::{
    blind_index, decrypt_value, decrypted, encrypt_value, encrypts, hash_value, HmacSecret, Key,
};
use crate::utils::error::{CoreError, Entity, Field};
use crate::utils::text::{
    bytes, first_text, or_text, same_bytes, text, text_or_empty, unwrap_text,
};
use vstd::prelude::*;

verus! {

/// A recommendation with its fields in the clear.
#[derive(Debug, Default, Clone)]
pub struct CustomerRecommendation {
    pub uuid: Option<Uuid>,
    pub full_name: Option<String>,
    pub phone_number: Option<String>,
    pub city: Option<String>,
    pub referral_name: Option<String>,
    pub created_by: Option<String>,
}

/// What the store holds of one recommendation for equality search: its
/// blind index, absent where the stored phone number is empty.
#[derive(Debug, Clone)]
pub struct RecommendationIndex {
    pub phone_number_hash: Option<Vec<u8>>,
}

/// The sealed form of a recommendation, as it is written to the store.
/// `user_id` is the owner of a new row; a change carries none and leaves
/// the owner. The blind index is absent where a change writes an empty
/// phone number.
#[derive(Debug, Clone)]
pub struct StoredRecommendation {
    pub full_name: Option<String>,
    pub phone_number_enc: Vec<u8>,
    pub phone_number_nonce: Vec<u8>,
    pub phone_number_hash: Option<Vec<u8>>,
    pub city_enc: Vec<u8>,
    pub city_nonce: Vec<u8>,
    pub referral_name: Option<String>,
    pub user_id: Option<i32>,
    pub created_by: Option<String>,
}

/// A recommendation row as it is read from the store.
#[derive(Debug, Clone)]
pub struct RecommendationRow {
    pub uuid: Option<Uuid>,
    pub full_name: String,
    pub phone_number_enc: Vec<u8>,
    pub phone_number_nonce: Vec<u8>,
    pub city_enc: Vec<u8>,
    pub city_nonce: Vec<u8>,
    pub referral_name: String,
    pub created_by: String,
}

/// Whether the store holds a recommendation with the blind index of the
/// phone number of this one. A phone number that is not given counts as
/// empty.
pub open spec fn recommendation_known(
    entries: Seq<RecommendationIndex>,
    secret: Seq<u8>,
    recommendation: CustomerRecommendation,
) -> bool {
    exists|i: int|
        0 <= i < entries.len() && (#[trigger] entries[i]).matches(
            blind_index(secret, text_or_empty(recommendation.phone_number)),
        )
}

/// Why a recommendation cannot be created, or `None` where it can.
pub open spec fn create_refusal(
    entries: Seq<RecommendationIndex>,
    secret: Seq<u8>,
    user_id: Option<i32>,
    recommendation: CustomerRecommendation,
) -> Option<CoreError> {
    if recommendation_known(entries, secret, recommendation) {
        Some(CoreError::AlreadyExists(Entity::Recommendation))
    } else if recommendation.phone_number is None {
        Some(CoreError::MissingField(Field::PhoneNumber))
    } else if too_long(recommendation.phone_number->0@) {
        Some(CoreError::FieldTooLong(Field::PhoneNumber))
    } else if recommendation.city is None {
        Some(CoreError::MissingField(Field::City))
    } else if too_long(recommendation.city->0@) {
        Some(CoreError::FieldTooLong(Field::City))
    } else if user_id is None {
        Some(CoreError::ActorNotFound)
    } else {
        None
    }
}

/// Why a recommendation cannot be changed, or `None` where it can.
pub open spec fn modify_refusal(
    existing: Option<CustomerRecommendation>,
    updated: CustomerRecommendation,
) -> Option<CoreError> {
    match existing {
        None => Some(CoreError::NotFound(Entity::Recommendation)),
        Some(existing) => if too_long(merged(updated.phone_number, existing.phone_number)) {
            Some(CoreError::FieldTooLong(Field::PhoneNumber))
        } else if too_long(merged(updated.city, existing.city)) {
            Some(CoreError::FieldTooLong(Field::City))
        } else {
            None
        },
    }
}

impl RecommendationIndex {
    /// Whether this entry carries the blind index.
    pub open spec fn matches(self, phone_hash: Seq<u8>) -> bool {
        bytes(self.phone_number_hash) == Some(phone_hash)
    }

    /// Whether this entry carries the blind index.
    pub fn is_match(&self, phone_hash: &[u8]) -> (found: bool)
        ensures
            found == self.matches(phone_hash@),
    {
        match &self.phone_number_hash {
            Some(hash) => same_bytes(hash.as_slice(), phone_hash),
            None => false,
        }
    }
}

impl StoredRecommendation {
    /// Whether the two ciphertexts are encryptions of the two values under the key.
    pub open spec fn holds(self, key: Seq<u8>, phone: Seq<char>, city: Seq<char>) -> bool {
        &&& encrypts(key, phone, self.phone_number_enc@, self.phone_number_nonce@)
        &&& encrypts(key, city, self.city_enc@, self.city_nonce@)
    }

    /// Whether a row carries the ciphertexts and nonces of this stored form.
    pub open spec fn stored_in(self, row: RecommendationRow) -> bool {
        &&& row.phone_number_enc@ == self.phone_number_enc@
        &&& row.phone_number_nonce@ == self.phone_number_nonce@
        &&& row.city_enc@ == self.city_enc@
        &&& row.city_nonce@ == self.city_nonce@
    }

    /// Whether an entry is the index entry of this stored form.
    pub open spec fn indexed_as(self, entry: RecommendationIndex) -> bool {
        bytes(entry.phone_number_hash) == bytes(self.phone_number_hash)
    }
}

impl CustomerRecommendation {
    /// Whether this recommendation is what a row reads as under a key.
    pub open spec fn reads(self, key: Seq<u8>, row: RecommendationRow) -> bool {
        &&& self.uuid == row.uuid
        &&& text(self.full_name) == Some(row.full_name@)
        &&& text(self.phone_number) == decrypted(
            key,
            row.phone_number_enc@,
            row.phone_number_nonce@,
        )
        &&& text(self.city) == decrypted(key, row.city_enc@, row.city_nonce@)
        &&& text(self.referral_name) == Some(row.referral_name@)
        &&& text(self.created_by) == Some(row.created_by@)
    }

    /// Whether any entry carries the blind index.
    pub fn any_matching(entries: &Vec<RecommendationIndex>, phone_hash: &[u8]) -> (found: bool)
        ensures
            found == exists|i: int|
                0 <= i < entries@.len() && (#[trigger] entries@[i]).matches(phone_hash@),
    {
        let mut i: usize = 0;
        while i < entries.len()
            invariant
                i <= entries@.len(),
                forall|j: int| 0 <= j < i ==> !(#[trigger] entries@[j]).matches(phone_hash@),
            decreases entries@.len() - i,
        {
            if entries[i].is_match(phone_hash) {
                return true;
            }
            i += 1;
        }
        false
    }

    /// Whether the store holds a recommendation with the blind index of the
    /// phone number of this one.
    pub fn is_exists(
        hmac_secret: &HmacSecret,
        customer_recommendation: &CustomerRecommendation,
        entries: &Vec<RecommendationIndex>,
    ) -> (known: bool)
        ensures
            known == recommendation_known(entries@, hmac_secret@, *customer_recommendation),
    {
        let phone = match &customer_recommendation.phone_number {
            Some(s) => s.as_str(),
            None => "",
        };
        proof {
            reveal_strlit("");
            assert(""@ =~= Seq::<char>::empty());
        }
        let phone_hash = hash_value(hmac_secret.as_slice(), phone);
        CustomerRecommendation::any_matching(entries, phone_hash.as_slice())
    }

    /// Creates a recommendation, owned by the acting user: refuses one that
    /// the store already holds and one without phone number or city, and
    /// otherwise returns the sealed row to insert. `user_id` is the internal
    /// id of the acting user, `None` where it was not found.
    pub fn create(
        key: &Key,
        hmac_secret: &HmacSecret,
        entries: &Vec<RecommendationIndex>,
        user_id: Option<i32>,
        customer_recommendation: CustomerRecommendation,
    ) -> (created: Result<StoredRecommendation, CoreError>)
        ensures
            match created {
                Ok(stored) => {
                    &&& create_refusal(entries@, hmac_secret@, user_id, customer_recommendation)
                        is None
                    &&& stored.holds(
                        key@,
                        customer_recommendation.phone_number->0@,
                        customer_recommendation.city->0@,
                    )
                    &&& bytes(stored.phone_number_hash) == Some(
                        blind_index(hmac_secret@, customer_recommendation.phone_number->0@),
                    )
                    &&& text(stored.full_name) == text(customer_recommendation.full_name)
                    &&& text(stored.referral_name) == text(customer_recommendation.referral_name)
                    &&& stored.user_id == user_id
                    &&& text(stored.created_by) == text(customer_recommendation.created_by)
                },
                Err(e) => create_refusal(entries@, hmac_secret@, user_id, customer_recommendation)
                    == Some(e),
            },
    {
        if CustomerRecommendation::is_exists(hmac_secret, &customer_recommendation, entries) {
            return Err(CoreError::AlreadyExists(Entity::Recommendation));
        }
        let CustomerRecommendation {
            full_name,
            phone_number,
            city,
            referral_name,
            created_by,
            ..
        } = customer_recommendation;
        let phone = match phone_number {
            Some(phone) => phone,
            None => {
                return Err(CoreError::MissingField(Field::PhoneNumber));
            },
        };
        let phone_hash = hash_value(hmac_secret.as_slice(), phone.as_str());
        let (phone_number_enc, phone_number_nonce) = match encrypt_value(key, phone.as_str()) {
            Some(sealed) => sealed,
            None => {
                return Err(CoreError::FieldTooLong(Field::PhoneNumber));
            },
        };
        let city = match city {
            Some(city) => city,
            None => {
                return Err(CoreError::MissingField(Field::City));
            },
        };
        let (city_enc, city_nonce) = match encrypt_value(key, city.as_str()) {
            Some(sealed) => sealed,
            None => {
                return Err(CoreError::FieldTooLong(Field::City));
            },
        };
        if user_id.is_none() {
            return Err(CoreError::ActorNotFound);
        }
        Ok(
            StoredRecommendation {
                full_name,
                phone_number_enc,
                phone_number_nonce,
                phone_number_hash: Some(phone_hash),
                city_enc,
                city_nonce,
                referral_name,
                user_id,
                created_by,
            },
        )
    }

    /// Prepares the change of a recommendation; `NotFound` where the store
    /// has no such recommendation. A field that the change leaves out keeps
    /// the value that the record has; a sensitive field that neither has is
    /// written as the empty text, and an empty phone number without a blind
    /// index. Both sensitive fields are encrypted anew, changed or not.
    /// `existing` is the record as it reads now, `None` where the store does
    /// not hold it.
    pub fn modify(
        key: &Key,
        hmac_secret: &HmacSecret,
        existing: Option<CustomerRecommendation>,
        updated: CustomerRecommendation,
    ) -> (modified: Result<StoredRecommendation, CoreError>)
        ensures
            match modified {
                Ok(stored) => {
                    &&& modify_refusal(existing, updated) is None
                    &&& stored.holds(
                        key@,
                        merged(updated.phone_number, existing->0.phone_number),
                        merged(updated.city, existing->0.city),
                    )
                    &&& bytes(stored.phone_number_hash) == written_index(
                        hmac_secret@,
                        merged(updated.phone_number, existing->0.phone_number),
                    )
                    &&& text(stored.full_name) == first_text(
                        updated.full_name,
                        existing->0.full_name,
                    )
                    &&& text(stored.referral_name) == first_text(
                        updated.referral_name,
                        existing->0.referral_name,
                    )
                    &&& stored.user_id is None
                    &&& text(stored.created_by) == first_text(
                        updated.created_by,
                        existing->0.created_by,
                    )
                },
                Err(e) => modify_refusal(existing, updated) == Some(e),
            },
    {
        let existing = match existing {
            Some(existing) => existing,
            None => {
                return Err(CoreError::NotFound(Entity::Recommendation));
            },
        };
        let full_name = or_text(updated.full_name, existing.full_name);
        let effective_phone = unwrap_text(or_text(updated.phone_number, existing.phone_number));
        let effective_city = unwrap_text(or_text(updated.city, existing.city));
        let referral_name = or_text(updated.referral_name, existing.referral_name);
        let created_by = or_text(updated.created_by, existing.created_by);
        let (phone_number_enc, phone_number_nonce) = match encrypt_value(
            key,
            effective_phone.as_str(),
        ) {
            Some(sealed) => sealed,
            None => {
                return Err(CoreError::FieldTooLong(Field::PhoneNumber));
            },
        };
        let phone_number_hash = if effective_phone.as_str().is_empty() {
            None
        } else {
            Some(hash_value(hmac_secret.as_slice(), effective_phone.as_str()))
        };
        let (city_enc, city_nonce) = match encrypt_value(key, effective_city.as_str()) {
            Some(sealed) => sealed,
            None => {
                return Err(CoreError::FieldTooLong(Field::City));
            },
        };
        Ok(
            StoredRecommendation {
                full_name,
                phone_number_enc,
                phone_number_nonce,
                phone_number_hash,
                city_enc,
                city_nonce,
                referral_name,
                user_id: None,
                created_by,
            },
        )
    }

    /// Reads one row: decrypts phone number and city, each to `None` where
    /// decryption fails, and takes the other fields as they are.
    pub fn get_by_uuid(key: &Key, row: &RecommendationRow) -> (recommendation:
        CustomerRecommendation)
        ensures
            recommendation.reads(key@, *row),
    {
        CustomerRecommendation {
            uuid: row.uuid,
            full_name: Some(row.full_name.clone()),
            phone_number: decrypt_value(
                key,
                row.phone_number_enc.as_slice(),
                row.phone_number_nonce.as_slice(),
            ),
            city: decrypt_value(key, row.city_enc.as_slice(), row.city_nonce.as_slice()),
            referral_name: Some(row.referral_name.clone()),
            created_by: Some(row.created_by.clone()),
        }
    }

    /// Reads the rows of the recommendations that a user owns, in their
    /// order. `user_id` is the internal id of that user, `None` where it was
    /// not found.
    pub fn get_all(key: &Key, user_id: Option<i32>, rows: &Vec<RecommendationRow>) -> (all: Result<
        Vec<CustomerRecommendation>,
        CoreError,
    >)
        ensures
            all is Ok <==> user_id is Some,
            all is Err ==> all->Err_0 == CoreError::ActorNotFound,
            all is Ok ==> {
                &&& all->Ok_0@.len() == rows@.len()
                &&& forall|i: int|
                    0 <= i < rows@.len() ==> (#[trigger] all->Ok_0@[i]).reads(key@, rows@[i])
            },
    {
        if user_id.is_none() {
            return Err(CoreError::ActorNotFound);
        }
        let mut all: Vec<CustomerRecommendation> = Vec::new();
        let mut i: usize = 0;
        while i < rows.len()
            invariant
                i <= rows@.len(),
                all@.len() == i,
                forall|j: int| 0 <= j < i ==> (#[trigger] all@[j]).reads(key@, rows@[j]),
            decreases rows@.len() - i,
        {
            all.push(CustomerRecommendation::get_by_uuid(key, &rows[i]));
            i += 1;
        }
        Ok(all)
    }

    /// Plans handing the listed recommendations to the user with the given
    /// display name; `NotFound` where the directory has no such user.
    pub fn change_handler(
        directory: &Vec<NamedUser>,
        user_full_name: String,
        recommendation_uuids: Vec<Uuid>,
    ) -> (plan: Result<Reassignment, CoreError>)
        ensures
            match plan {
                Ok(plan) => {
                    &&& owner_by_name(directory@, user_full_name@) == Some(plan.user_id)
                    &&& plan.uuids@ == recommendation_uuids@
                },
                Err(e) => {
                    &&& owner_by_name(directory@, user_full_name@) is None
                    &&& e == CoreError::NotFound(Entity::User)
                },
            },
    {
        Reassignment::new(directory, user_full_name.as_str(), recommendation_uuids)
    }
}

/// A recommendation is created once. Let a recommendation be created and
/// its index entry be added to the store. Then creating one with the same
/// phone number, whatever its other fields, is refused as a duplicate.
pub proof fn lemma_second_recommendation_refused(
    secret: Seq<u8>,
    entries: Seq<RecommendationIndex>,
    first: CustomerRecommendation,
    stored: StoredRecommendation,
    entry: RecommendationIndex,
    second: CustomerRecommendation,
    actor: Option<i32>,
)
    requires
        first.phone_number is Some,
        bytes(stored.phone_number_hash) == Some(blind_index(secret, first.phone_number->0@)),
        stored.indexed_as(entry),
        second.phone_number is Some,
        second.phone_number->0@ == first.phone_number->0@,
    ensures
        recommendation_known(entries.push(entry), secret, second),
        create_refusal(entries.push(entry), secret, actor, second) == Some(
            CoreError::AlreadyExists(Entity::Recommendation),
        ),
{
    let after = entries.push(entry);
    assert(after[entries.len() as int] == entry);
    assert(entry.matches(blind_index(secret, text_or_empty(second.phone_number))));
}

/// A stored recommendation reads back: a row that carries what was stored
/// decrypts, under the key it was sealed with, to the values that were
/// sealed.
pub proof fn lemma_stored_recommendation_reads_back(
    key: Seq<u8>,
    stored: StoredRecommendation,
    row: RecommendationRow,
    recommendation: CustomerRecommendation,
    phone: Seq<char>,
    city: Seq<char>,
)
    requires
        stored.holds(key, phone, city),
        stored.stored_in(row),
        recommendation.reads(key, row),
    ensures
        text(recommendation.phone_number) == Some(phone),
        text(recommendation.city) == Some(city),
{
}

} // verus!
