//! Meetings of a user with a customer or a prospect.
//!
//! The phone number of the person met is stored encrypted and with a blind
//! index. The kind of meeting is stored under its spelling; a stored
//! spelling that is none of them makes the record unreadable.

use crate::models::customer::{merged, too_long};
use crate::models::identity::{Timestamp, Uuid};
use crate::models::ownership::{owner_by_name, NamedUser, Owned, Reassignment};
use crate::utils::encrypt::{
    blind_index, decrypt_value, decrypted, encrypt_value, encrypts, hash_value, HmacSecret, Key,
};
use crate::utils::error::{CoreError, Entity, Field};
use crate::utils::text::{first_text, or_text, same_text, text, unwrap_text};
use chrono::{DateTime, NaiveDateTime};
use vstd::prelude::*;
use vstd::string::StringExecFns;

verus! {

/// A meeting as the boundary sees it.
#[derive(Debug, Default, Clone)]
pub struct UserMeetDate {
    pub id: Option<i32>,
    pub uuid: Option<Uuid>,
    pub meet_date: Option<Timestamp>,
    pub full_name: Option<String>,
    pub phone_number: Option<String>,
    pub meet_location: Option<String>,
    pub meet_type: Option<MeetType>,
    pub is_completed: Option<bool>,
    pub created_by: Option<String>,
    pub created_at: Option<Timestamp>,
    pub user_id: Option<i32>,
}

/// The sealed form of a meeting, as it is written to the store. `user_id`
/// is the owner of a new row; a change carries none and leaves the owner.
#[derive(Debug, Clone)]
pub struct StoredMeetDate {
    pub meet_date: Option<Timestamp>,
    pub full_name: Option<String>,
    pub phone_number_enc: Vec<u8>,
    pub phone_number_nonce: Vec<u8>,
    pub phone_number_hash: Vec<u8>,
    pub meet_location: Option<String>,
    pub meet_type: Option<String>,
    pub created_by: Option<String>,
    pub user_id: Option<i32>,
}

/// A meeting row as it is read from the store.
#[derive(Debug, Clone)]
pub struct MeetDateRow {
    pub uuid: Option<Uuid>,
    pub meet_date: Timestamp,
    pub full_name: String,
    pub phone_number_enc: Vec<u8>,
    pub phone_number_nonce: Vec<u8>,
    pub meet_location: String,
    pub meet_type: String,
    pub is_completed: bool,
    pub created_by: String,
    pub created_at: Timestamp,
}

/// What a meeting is for.
#[derive(Debug, Clone, Copy, PartialEq, Eq, Structural)]
pub enum MeetType {
    NeedsAssessment,
    Consultation,
    Service,
    AnnualReview,
}

impl MeetType {
    /// The spelling under which the value is stored.
    pub open spec fn name(self) -> Seq<char> {
        match self {
            MeetType::NeedsAssessment => "NeedsAssessment"@,
            MeetType::Consultation => "Consultation"@,
            MeetType::Service => "Service"@,
            MeetType::AnnualReview => "AnnualReview"@,
        }
    }

    /// The value that a stored spelling stands for, if it is one.
    pub open spec fn named(spelling: Seq<char>) -> Option<MeetType> {
        if spelling == "NeedsAssessment"@ {
            Some(MeetType::NeedsAssessment)
        } else if spelling == "Consultation"@ {
            Some(MeetType::Consultation)
        } else if spelling == "Service"@ {
            Some(MeetType::Service)
        } else if spelling == "AnnualReview"@ {
            Some(MeetType::AnnualReview)
        } else {
            None
        }
    }

    /// The spelling under which the value is stored.
    pub fn as_str(&self) -> (name: &'static str)
        ensures
            name@ == self.name(),
    {
        match self {
            MeetType::NeedsAssessment => "NeedsAssessment",
            MeetType::Consultation => "Consultation",
            MeetType::Service => "Service",
            MeetType::AnnualReview => "AnnualReview",
        }
    }

    /// The stored spelling as an owned string.
    pub fn to_string(&self) -> (name: String)
        ensures
            name@ == self.name(),
    {
        String::from_str(self.as_str())
    }

    /// Reads a stored spelling; `None` for anything but the exact spelling of a value.
    pub fn from_str(spelling: &str) -> (value: Option<MeetType>)
        ensures
            value == MeetType::named(spelling@),
    {
        if same_text(spelling, "NeedsAssessment") {
            Some(MeetType::NeedsAssessment)
        } else if same_text(spelling, "Consultation") {
            Some(MeetType::Consultation)
        } else if same_text(spelling, "Service") {
            Some(MeetType::Service)
        } else if same_text(spelling, "AnnualReview") {
            Some(MeetType::AnnualReview)
        } else {
            None
        }
    }
}

/// Every value is read back from its own stored spelling.
pub proof fn lemma_meet_type_round_trip(value: MeetType)
    ensures
        MeetType::named(value.name()) == Some(value),
{
    reveal_strlit("NeedsAssessment");
    reveal_strlit("Consultation");
    reveal_strlit("Service");
    reveal_strlit("AnnualReview");
    assert("NeedsAssessment"@.len() == 15);
    assert("Consultation"@.len() == 12);
    assert("Service"@.len() == 7);
    assert("AnnualReview"@.len() == 12);
    assert("Consultation"@[0] != "AnnualReview"@[0]);
}

/// The stored spelling of an optional kind of meeting.
pub open spec fn meet_type_name(value: Option<MeetType>) -> Option<Seq<char>> {
    match value {
        Some(v) => Some(v.name()),
        None => None,
    }
}

/// The first of two optional kinds of meeting that is present.
pub open spec fn first_meet_type(first: Option<MeetType>, second: Option<MeetType>) -> Option<
    MeetType,
> {
    match first {
        Some(v) => Some(v),
        None => second,
    }
}

/// The first of two optional points in time that is present.
pub open spec fn first_time(first: Option<Timestamp>, second: Option<Timestamp>) -> Option<
    Timestamp,
> {
    match first {
        Some(v) => Some(v),
        None => second,
    }
}

/// What `NaiveDateTime::parse_from_str` makes of a text under the format
/// `%Y-%m-%dT%H:%M`, as microseconds since the epoch of the same time in
/// UTC; `None` stands for its error.
pub uninterp spec fn minute_text_micros(text: Seq<char>) -> Option<i64>;

/// What `DateTime::parse_from_rfc3339` makes of a text, as microseconds
/// since the epoch; `None` stands for its error.
pub uninterp spec fn rfc3339_micros(text: Seq<char>) -> Option<i64>;

/// The time of a meeting from the two readings of its text: the reading
/// to the minute where there is one, else the reading as RFC 3339.
pub open spec fn meet_date_of(minute: Option<i64>, rfc3339: Option<i64>) -> Option<Timestamp> {
    match minute {
        Some(micros) => Some(Timestamp { micros }),
        None => match rfc3339 {
            Some(micros) => Some(Timestamp { micros }),
            None => None,
        },
    }
}

/// `NaiveDateTime::parse_from_str` with the format `%Y-%m-%dT%H:%M`: a date
/// and a time of day to the minute, taken as UTC and handed on as
/// microseconds since the epoch.
#[verifier::external_body]
fn parse_minute_text(text: &str) -> (micros: Option<i64>)
    ensures
        micros == minute_text_micros(text@),
{
    match NaiveDateTime::parse_from_str(text, "%Y-%m-%dT%H:%M") {
        Ok(time) => Some(time.and_utc().timestamp_micros()),
        Err(_) => None,
    }
}

/// `DateTime::parse_from_rfc3339`: a point in time in RFC 3339, handed on
/// as microseconds since the epoch.
#[verifier::external_body]
fn parse_rfc3339(text: &str) -> (micros: Option<i64>)
    ensures
        micros == rfc3339_micros(text@),
{
    match DateTime::parse_from_rfc3339(text) {
        Ok(time) => Some(time.timestamp_micros()),
        Err(_) => None,
    }
}

/// Why a meeting cannot be created, or `None` where it can.
pub open spec fn create_refusal(user_id: Option<i32>, meeting: UserMeetDate) -> Option<CoreError> {
    if user_id is None {
        Some(CoreError::ActorNotFound)
    } else if meeting.phone_number is None {
        Some(CoreError::MissingField(Field::PhoneNumber))
    } else if too_long(meeting.phone_number->0@) {
        Some(CoreError::FieldTooLong(Field::PhoneNumber))
    } else {
        None
    }
}

/// Why a meeting cannot be changed, or `None` where it can.
pub open spec fn modify_refusal(existing: Option<UserMeetDate>, updated: UserMeetDate) -> Option<
    CoreError,
> {
    match existing {
        None => Some(CoreError::NotFound(Entity::Meeting)),
        Some(existing) => if too_long(merged(updated.phone_number, existing.phone_number)) {
            Some(CoreError::FieldTooLong(Field::PhoneNumber))
        } else {
            None
        },
    }
}

impl MeetDateRow {
    /// Whether the kind of the row can be read.
    pub open spec fn readable(self) -> bool {
        MeetType::named(self.meet_type@) is Some
    }
}

impl StoredMeetDate {
    /// Whether this is a sealed form of the phone number under the key and
    /// the secret.
    pub open spec fn holds(self, key: Seq<u8>, secret: Seq<u8>, phone: Seq<char>) -> bool {
        &&& encrypts(key, phone, self.phone_number_enc@, self.phone_number_nonce@)
        &&& self.phone_number_hash@ == blind_index(secret, phone)
    }

    /// Whether a row carries the ciphertext and nonce of this stored form.
    pub open spec fn stored_in(self, row: MeetDateRow) -> bool {
        &&& row.phone_number_enc@ == self.phone_number_enc@
        &&& row.phone_number_nonce@ == self.phone_number_nonce@
    }
}

impl UserMeetDate {
    /// The time of a meeting from the two readings of its text.
    pub fn first_reading(minute: Option<i64>, rfc3339: Option<i64>) -> (time: Option<Timestamp>)
        ensures
            time == meet_date_of(minute, rfc3339),
    {
        match minute {
            Some(micros) => Some(Timestamp { micros }),
            None => match rfc3339 {
                Some(micros) => Some(Timestamp { micros }),
                None => None,
            },
        }
    }

    /// Reads the time of a meeting from a request: a date and a time of day
    /// to the minute, as in `2024-05-17T14:30`, which is taken as UTC, or
    /// else a point in time in RFC 3339. `None` where the text is neither.
    pub fn parse_meet_date(text: &str) -> (time: Option<Timestamp>)
        ensures
            time == meet_date_of(minute_text_micros(text@), rfc3339_micros(text@)),
    {
        match parse_minute_text(text) {
            Some(micros) => UserMeetDate::first_reading(Some(micros), None),
            None => UserMeetDate::first_reading(None, parse_rfc3339(text)),
        }
    }

    /// Whether this meeting is what a row reads as under a key.
    pub open spec fn reads(self, key: Seq<u8>, row: MeetDateRow) -> bool {
        &&& self.id is None
        &&& self.uuid == row.uuid
        &&& self.meet_date == Some(row.meet_date)
        &&& text(self.full_name) == Some(row.full_name@)
        &&& text(self.phone_number) == decrypted(
            key,
            row.phone_number_enc@,
            row.phone_number_nonce@,
        )
        &&& text(self.meet_location) == Some(row.meet_location@)
        &&& self.meet_type == MeetType::named(row.meet_type@)
        &&& self.is_completed == Some(row.is_completed)
        &&& text(self.created_by) == Some(row.created_by@)
        &&& self.created_at == Some(row.created_at)
        &&& self.user_id is None
    }

    /// Creates a meeting, owned by the acting user: returns the sealed row
    /// to insert. `user_id` is the internal id of the acting user, `None`
    /// where it was not found.
    pub fn create(
        key: &Key,
        hmac_secret: &HmacSecret,
        user_id: Option<i32>,
        new_meet_date: UserMeetDate,
    ) -> (created: Result<StoredMeetDate, CoreError>)
        ensures
            match created {
                Ok(stored) => {
                    &&& create_refusal(user_id, new_meet_date) is None
                    &&& stored.holds(key@, hmac_secret@, new_meet_date.phone_number->0@)
                    &&& stored.meet_date == new_meet_date.meet_date
                    &&& text(stored.full_name) == text(new_meet_date.full_name)
                    &&& text(stored.meet_location) == text(new_meet_date.meet_location)
                    &&& text(stored.meet_type) == meet_type_name(new_meet_date.meet_type)
                    &&& text(stored.created_by) == text(new_meet_date.created_by)
                    &&& stored.user_id == user_id
                },
                Err(e) => create_refusal(user_id, new_meet_date) == Some(e),
            },
    {
        if user_id.is_none() {
            return Err(CoreError::ActorNotFound);
        }
        let UserMeetDate {
            meet_date,
            full_name,
            phone_number,
            meet_location,
            meet_type,
            created_by,
            ..
        } = new_meet_date;
        let phone = match phone_number {
            Some(phone) => phone,
            None => {
                return Err(CoreError::MissingField(Field::PhoneNumber));
            },
        };
        let phone_number_hash = hash_value(hmac_secret.as_slice(), phone.as_str());
        let (phone_number_enc, phone_number_nonce) = match encrypt_value(key, phone.as_str()) {
            Some(sealed) => sealed,
            None => {
                return Err(CoreError::FieldTooLong(Field::PhoneNumber));
            },
        };
        Ok(
            StoredMeetDate {
                meet_date,
                full_name,
                phone_number_enc,
                phone_number_nonce,
                phone_number_hash,
                meet_location,
                meet_type: match meet_type {
                    Some(v) => Some(v.to_string()),
                    None => None,
                },
                created_by,
                user_id,
            },
        )
    }

    /// Prepares the change of a meeting; `NotFound` where the store has no
    /// such meeting. A field that the change leaves out keeps the value that
    /// the record has; a phone number that neither has is written as the
    /// empty text. The phone number is encrypted anew, changed or not. Owner
    /// and creator are not part of a change. `existing` is the record as it
    /// reads now, `None` where the store does not hold it.
    pub fn modify(
        key: &Key,
        hmac_secret: &HmacSecret,
        existing: Option<UserMeetDate>,
        updated_user_date: UserMeetDate,
    ) -> (modified: Result<StoredMeetDate, CoreError>)
        ensures
            match modified {
                Ok(stored) => {
                    &&& modify_refusal(existing, updated_user_date) is None
                    &&& stored.holds(
                        key@,
                        hmac_secret@,
                        merged(updated_user_date.phone_number, existing->0.phone_number),
                    )
                    &&& stored.meet_date == first_time(
                        updated_user_date.meet_date,
                        existing->0.meet_date,
                    )
                    &&& text(stored.full_name) == first_text(
                        updated_user_date.full_name,
                        existing->0.full_name,
                    )
                    &&& text(stored.meet_location) == first_text(
                        updated_user_date.meet_location,
                        existing->0.meet_location,
                    )
                    &&& text(stored.meet_type) == meet_type_name(
                        first_meet_type(updated_user_date.meet_type, existing->0.meet_type),
                    )
                    &&& stored.created_by is None
                    &&& stored.user_id is None
                },
                Err(e) => modify_refusal(existing, updated_user_date) == Some(e),
            },
    {
        let existing = match existing {
            Some(existing) => existing,
            None => {
                return Err(CoreError::NotFound(Entity::Meeting));
            },
        };
        let phone = unwrap_text(or_text(updated_user_date.phone_number, existing.phone_number));
        let phone_number_hash = hash_value(hmac_secret.as_slice(), phone.as_str());
        let (phone_number_enc, phone_number_nonce) = match encrypt_value(key, phone.as_str()) {
            Some(sealed) => sealed,
            None => {
                return Err(CoreError::FieldTooLong(Field::PhoneNumber));
            },
        };
        let meet_type = match updated_user_date.meet_type {
            Some(v) => Some(v),
            None => existing.meet_type,
        };
        Ok(
            StoredMeetDate {
                meet_date: match updated_user_date.meet_date {
                    Some(v) => Some(v),
                    None => existing.meet_date,
                },
                full_name: or_text(updated_user_date.full_name, existing.full_name),
                phone_number_enc,
                phone_number_nonce,
                phone_number_hash,
                meet_location: or_text(updated_user_date.meet_location, existing.meet_location),
                meet_type: match meet_type {
                    Some(v) => Some(v.to_string()),
                    None => None,
                },
                created_by: None,
                user_id: None,
            },
        )
    }

    /// Reads one row: decrypts the phone number, to `None` where decryption
    /// fails; `Corrupt` where the stored kind is unknown.
    pub fn get_by_uuid(key: &Key, row: &MeetDateRow) -> (meeting: Result<UserMeetDate, CoreError>)
        ensures
            meeting is Ok <==> row.readable(),
            meeting is Ok ==> meeting->Ok_0.reads(key@, *row),
            meeting is Err ==> meeting->Err_0 == CoreError::Corrupt(Entity::Meeting),
    {
        let meet_type = match MeetType::from_str(row.meet_type.as_str()) {
            Some(v) => v,
            None => {
                return Err(CoreError::Corrupt(Entity::Meeting));
            },
        };
        Ok(
            UserMeetDate {
                id: None,
                uuid: row.uuid,
                meet_date: Some(row.meet_date),
                full_name: Some(row.full_name.clone()),
                phone_number: decrypt_value(
                    key,
                    row.phone_number_enc.as_slice(),
                    row.phone_number_nonce.as_slice(),
                ),
                meet_location: Some(row.meet_location.clone()),
                meet_type: Some(meet_type),
                is_completed: Some(row.is_completed),
                created_by: Some(row.created_by.clone()),
                created_at: Some(row.created_at),
                user_id: None,
            },
        )
    }

    /// Reads the meetings of a user, in the order of the rows. `user_id` is
    /// the internal id of that user, `None` where it was not found.
    pub fn get_all(key: &Key, user_id: Option<i32>, rows: &Vec<MeetDateRow>) -> (meetings: Result<
        Vec<UserMeetDate>,
        CoreError,
    >)
        ensures
            match meetings {
                Ok(meetings) => {
                    &&& user_id is Some
                    &&& meetings@.len() == rows@.len()
                    &&& forall|i: int|
                        0 <= i < rows@.len() ==> (#[trigger] rows@[i]).readable()
                            && meetings@[i].reads(key@, rows@[i])
                },
                Err(e) => if user_id is None {
                    e == CoreError::ActorNotFound
                } else {
                    &&& e == CoreError::Corrupt(Entity::Meeting)
                    &&& exists|i: int| 0 <= i < rows@.len() && !(#[trigger] rows@[i]).readable()
                },
            },
    {
        if user_id.is_none() {
            return Err(CoreError::ActorNotFound);
        }
        let mut meetings: Vec<UserMeetDate> = Vec::new();
        let mut i: usize = 0;
        while i < rows.len()
            invariant
                user_id is Some,
                i <= rows@.len(),
                meetings@.len() == i,
                forall|j: int|
                    0 <= j < i ==> (#[trigger] rows@[j]).readable() && meetings@[j].reads(
                        key@,
                        rows@[j],
                    ),
            decreases rows@.len() - i,
        {
            match UserMeetDate::get_by_uuid(key, &rows[i]) {
                Ok(meeting) => {
                    meetings.push(meeting);
                },
                Err(e) => {
                    return Err(e);
                },
            }
            i += 1;
        }
        Ok(meetings)
    }

    /// Plans handing the listed meetings to the user with the given display
    /// name; `NotFound` where the directory has no such user.
    pub fn change_handler(
        directory: &Vec<NamedUser>,
        user_full_name: String,
        date_uuids: Vec<Uuid>,
    ) -> (plan: Result<Reassignment, CoreError>)
        ensures
            match plan {
                Ok(plan) => {
                    &&& owner_by_name(directory@, user_full_name@) == Some(plan.user_id)
                    &&& plan.uuids@ == date_uuids@
                },
                Err(e) => {
                    &&& owner_by_name(directory@, user_full_name@) is None
                    &&& e == CoreError::NotFound(Entity::User)
                },
            },
    {
        Reassignment::new(directory, user_full_name.as_str(), date_uuids)
    }
}

/// A stored meeting reads back: a row that carries what was stored decrypts,
/// under the key it was sealed with, to the phone number that was sealed,
/// and a row that carries the spelling of a kind reads as that kind.
pub proof fn lemma_stored_meeting_reads_back(
    key: Seq<u8>,
    secret: Seq<u8>,
    stored: StoredMeetDate,
    row: MeetDateRow,
    meeting: UserMeetDate,
    phone: Seq<char>,
    kind: MeetType,
)
    requires
        stored.holds(key, secret, phone),
        stored.stored_in(row),
        text(stored.meet_type) == Some(kind.name()),
        Some(row.meet_type@) == text(stored.meet_type),
        meeting.reads(key, row),
    ensures
        text(meeting.phone_number) == Some(phone),
        row.readable(),
        meeting.meet_type == Some(kind),
{
    lemma_meet_type_round_trip(kind);
}

impl Owned for UserMeetDate {
    open spec fn public_id(&self) -> Option<Uuid> {
        self.uuid
    }

    open spec fn owner(&self) -> Option<i32> {
        self.user_id
    }

    open spec fn differs_in_owner_only(&self, other: &Self) -> bool {
        *other == (UserMeetDate { user_id: other.user_id, ..*self })
    }

    fn uuid(&self) -> (id: Option<Uuid>) {
        self.uuid
    }

    fn set_owner(&mut self, user_id: i32) {
        self.user_id = Some(user_id);
    }
}

} // verus!
