//! Leads: inquiries of customers.
//!
//! A lead refers to its customer by internal id; the customer is found or
//! created by the customer resolution. Kind and status are stored under
//! their spellings. A stored kind that is none of them makes the record
//! unreadable; a stored status that is none of them reads as no status.

use crate::models::customer::{resolve_refusal, Customer, CustomerIndex, Resolution};
use crate::models::dto::LeadListItemDto;
use crate::models::identity::{Timestamp, Uuid};
use crate::models::ownership::{owner_by_name, NamedUser, Reassignment};
use crate::utils::encrypt::{decrypt_or_empty, shown, HmacSecret, Key};
use crate::utils::error::{CoreError, Entity};
use crate::utils::text::{clone_text, same_text, text};
use vstd::prelude::*;
use vstd::string::StringExecFns;

verus! {

/// A lead as the boundary sees it.
#[derive(Debug, Default)]
pub struct Lead {
    pub id: Option<i32>,
    pub uuid: Option<Uuid>,
    pub lead_type: Option<LeadType>,
    pub inquiry_type: Option<String>,
    pub lead_status: Option<LeadStatus>,
    pub handle_at: Option<Timestamp>,
    pub created_by: Option<String>,
}

/// What is written to the store for a lead. A new lead carries its owner
/// in `user_id` and, once its customer has an internal id, that id in
/// `customer_id`; a change carries neither.
#[derive(Debug, Clone)]
pub struct StoredLead {
    pub lead_type: Option<String>,
    pub inquiry_type: Option<String>,
    pub lead_status: Option<String>,
    pub customer_id: Option<i32>,
    pub user_id: Option<i32>,
    pub created_by: Option<String>,
}

/// A lead row as it is read from the store.
#[derive(Debug, Clone)]
pub struct LeadRow {
    pub uuid: Option<Uuid>,
    pub lead_type: String,
    pub inquiry_type: String,
    pub lead_status: String,
    pub handle_at: Timestamp,
    pub created_by: String,
}

/// A lead row joined with the row of its customer.
#[derive(Debug, Clone)]
pub struct LeadCustomerRow {
    pub full_name: String,
    pub phone_number_enc: Vec<u8>,
    pub phone_number_nonce: Vec<u8>,
    pub email_enc: Vec<u8>,
    pub email_nonce: Vec<u8>,
    pub address_enc: Vec<u8>,
    pub address_nonce: Vec<u8>,
    pub lead: LeadRow,
}

/// Where a lead came from.
#[derive(Debug, Clone, Copy, PartialEq, Eq, Structural)]
pub enum LeadType {
    Personal,
    Recommendation,
    Salesforce,
    RedLead,
    BlueLead,
}

impl LeadType {
    /// The spelling under which the value is stored.
    pub open spec fn name(self) -> Seq<char> {
        match self {
            LeadType::Personal => "Personal"@,
            LeadType::Recommendation => "Recommendation"@,
            LeadType::Salesforce => "Salesforce"@,
            LeadType::RedLead => "RedLead"@,
            LeadType::BlueLead => "BlueLead"@,
        }
    }

    /// The value that a stored spelling stands for, if it is one.
    pub open spec fn named(spelling: Seq<char>) -> Option<LeadType> {
        if spelling == "Personal"@ {
            Some(LeadType::Personal)
        } else if spelling == "Recommendation"@ {
            Some(LeadType::Recommendation)
        } else if spelling == "Salesforce"@ {
            Some(LeadType::Salesforce)
        } else if spelling == "RedLead"@ {
            Some(LeadType::RedLead)
        } else if spelling == "BlueLead"@ {
            Some(LeadType::BlueLead)
        } else {
            None
        }
    }

    /// The spelling under which the value is stored.
    pub fn as_str(&self) -> (name: &'static str)
        ensures
            name@ == self.name(),
    {
        match self {
            LeadType::Personal => "Personal",
            LeadType::Recommendation => "Recommendation",
            LeadType::Salesforce => "Salesforce",
            LeadType::RedLead => "RedLead",
            LeadType::BlueLead => "BlueLead",
        }
    }

    /// The stored spelling as an owned string.
    pub fn to_string(&self) -> (name: String)
        ensures
            name@ == self.name(),
    {
        String::from_str(self.as_str())
    }

    /// Reads a stored spelling; `None` for anything but the exact spelling of a value.
    pub fn from_str(spelling: &str) -> (value: Option<LeadType>)
        ensures
            value == LeadType::named(spelling@),
    {
        if same_text(spelling, "Personal") {
            Some(LeadType::Personal)
        } else if same_text(spelling, "Recommendation") {
            Some(LeadType::Recommendation)
        } else if same_text(spelling, "Salesforce") {
            Some(LeadType::Salesforce)
        } else if same_text(spelling, "RedLead") {
            Some(LeadType::RedLead)
        } else if same_text(spelling, "BlueLead") {
            Some(LeadType::BlueLead)
        } else {
            None
        }
    }
}

/// Every value is read back from its own stored spelling.
pub proof fn lemma_lead_type_round_trip(value: LeadType)
    ensures
        LeadType::named(value.name()) == Some(value),
{
    reveal_strlit("Personal");
    reveal_strlit("Recommendation");
    reveal_strlit("Salesforce");
    reveal_strlit("RedLead");
    reveal_strlit("BlueLead");
    assert("Personal"@.len() == 8);
    assert("Recommendation"@.len() == 14);
    assert("Salesforce"@.len() == 10);
    assert("RedLead"@.len() == 7);
    assert("BlueLead"@.len() == 8);
    assert("Personal"@[0] != "BlueLead"@[0]);
}

/// How far the handling of a lead has come.
#[derive(Debug, Clone, Copy, PartialEq, Eq, Structural)]
pub enum LeadStatus {
    Opened,
    InProgress,
    Closed,
}

impl LeadStatus {
    /// The spelling under which the value is stored.
    pub open spec fn name(self) -> Seq<char> {
        match self {
            LeadStatus::Opened => "Opened"@,
            LeadStatus::InProgress => "InProgress"@,
            LeadStatus::Closed => "Closed"@,
        }
    }

    /// The value that a stored spelling stands for, if it is one.
    pub open spec fn named(spelling: Seq<char>) -> Option<LeadStatus> {
        if spelling == "Opened"@ {
            Some(LeadStatus::Opened)
        } else if spelling == "InProgress"@ {
            Some(LeadStatus::InProgress)
        } else if spelling == "Closed"@ {
            Some(LeadStatus::Closed)
        } else {
            None
        }
    }

    /// The spelling under which the value is stored.
    pub fn as_str(&self) -> (name: &'static str)
        ensures
            name@ == self.name(),
    {
        match self {
            LeadStatus::Opened => "Opened",
            LeadStatus::InProgress => "InProgress",
            LeadStatus::Closed => "Closed",
        }
    }

    /// The stored spelling as an owned string.
    pub fn to_string(&self) -> (name: String)
        ensures
            name@ == self.name(),
    {
        String::from_str(self.as_str())
    }

    /// Reads a stored spelling; `None` for anything but the exact spelling of a value.
    pub fn from_str(spelling: &str) -> (value: Option<LeadStatus>)
        ensures
            value == LeadStatus::named(spelling@),
    {
        if same_text(spelling, "Opened") {
            Some(LeadStatus::Opened)
        } else if same_text(spelling, "InProgress") {
            Some(LeadStatus::InProgress)
        } else if same_text(spelling, "Closed") {
            Some(LeadStatus::Closed)
        } else {
            None
        }
    }
}

/// Every value is read back from its own stored spelling.
pub proof fn lemma_lead_status_round_trip(value: LeadStatus)
    ensures
        LeadStatus::named(value.name()) == Some(value),
{
    reveal_strlit("Opened");
    reveal_strlit("InProgress");
    reveal_strlit("Closed");
    assert("Opened"@.len() == 6);
    assert("InProgress"@.len() == 10);
    assert("Closed"@.len() == 6);
    assert("Opened"@[0] != "Closed"@[0]);
}

/// The stored spelling of an optional kind of lead.
pub open spec fn lead_type_name(value: Option<LeadType>) -> Option<Seq<char>> {
    match value {
        Some(v) => Some(v.name()),
        None => None,
    }
}

/// The stored spelling of an optional status.
pub open spec fn lead_status_name(value: Option<LeadStatus>) -> Option<Seq<char>> {
    match value {
        Some(v) => Some(v.name()),
        None => None,
    }
}

impl LeadRow {
    /// Whether the kind of the row can be read.
    pub open spec fn readable(self) -> bool {
        LeadType::named(self.lead_type@) is Some
    }
}

impl StoredLead {
    /// Whether this is what is written for `lead`, apart from customer and owner.
    pub open spec fn writes(self, lead: Lead) -> bool {
        &&& text(self.lead_type) == lead_type_name(lead.lead_type)
        &&& text(self.inquiry_type) == text(lead.inquiry_type)
        &&& text(self.lead_status) == lead_status_name(lead.lead_status)
    }

    /// The same row, attached to the customer with this internal id.
    pub fn attach(self, customer_id: i32) -> (attached: StoredLead)
        ensures
            attached == (StoredLead { customer_id: Some(customer_id), ..self }),
    {
        StoredLead { customer_id: Some(customer_id), ..self }
    }

    /// Spells out the fields of a lead for the store.
    fn spell(lead: &Lead) -> (stored: StoredLead)
        ensures
            stored.writes(*lead),
            stored.customer_id is None,
            stored.user_id is None,
            stored.created_by is None,
    {
        StoredLead {
            lead_type: match lead.lead_type {
                Some(v) => Some(v.to_string()),
                None => None,
            },
            inquiry_type: clone_text(&lead.inquiry_type),
            lead_status: match lead.lead_status {
                Some(v) => Some(v.to_string()),
                None => None,
            },
            customer_id: None,
            user_id: None,
            created_by: None,
        }
    }
}

impl Lead {
    /// Whether this lead is what a row reads as.
    pub open spec fn reads(self, row: LeadRow) -> bool {
        &&& self.id is None
        &&& self.uuid == row.uuid
        &&& self.lead_type == LeadType::named(row.lead_type@)
        &&& text(self.inquiry_type) == Some(row.inquiry_type@)
        &&& self.lead_status == LeadStatus::named(row.lead_status@)
        &&& self.handle_at == Some(row.handle_at)
        &&& text(self.created_by) == Some(row.created_by@)
    }

    /// Creates a lead for a customer that is found or created first.
    /// Returns how the customer is resolved and the lead row to insert,
    /// owned by the acting user. Where the customer exists, the row is
    /// attached to it; where the customer is new, the row is attached once
    /// the customer has been inserted and has its id.
    pub fn create(
        key: &Key,
        hmac_secret: &HmacSecret,
        entries: &Vec<CustomerIndex>,
        user_id: Option<i32>,
        customer: Customer,
        lead: Lead,
    ) -> (created: Result<(Resolution, StoredLead), CoreError>)
        ensures
            match created {
                Ok((resolution, stored)) => {
                    &&& resolve_refusal(entries@, hmac_secret@, user_id, customer) is None
                    &&& resolution.resolves(key@, hmac_secret@, entries@, user_id, customer)
                    &&& stored.writes(lead)
                    &&& stored.customer_id == resolution.known_id()
                    &&& stored.user_id == user_id
                    &&& text(stored.created_by) == text(lead.created_by)
                },
                Err(e) => resolve_refusal(entries@, hmac_secret@, user_id, customer) == Some(e),
            },
    {
        let resolution = match Customer::resolve(key, hmac_secret, entries, user_id, customer) {
            Ok(resolution) => resolution,
            Err(e) => {
                return Err(e);
            },
        };
        let mut stored = StoredLead::spell(&lead);
        stored.customer_id = resolution.customer_id();
        stored.user_id = user_id;
        stored.created_by = lead.created_by;
        Ok((resolution, stored))
    }

    /// Prepares the change of a lead: the fields as they are written.
    /// Customer, owner and creator are not part of a change.
    pub fn modify(updated_lead: Lead) -> (stored: StoredLead)
        ensures
            stored.writes(updated_lead),
            stored.customer_id is None,
            stored.user_id is None,
            stored.created_by is None,
    {
        StoredLead::spell(&updated_lead)
    }

    /// Reads one lead row; `Corrupt` where the stored kind is unknown. An
    /// unknown stored status reads as no status.
    pub fn get_by_uuid(row: &LeadRow) -> (lead: Result<Lead, CoreError>)
        ensures
            lead is Ok <==> row.readable(),
            lead is Ok ==> lead->Ok_0.reads(*row),
            lead is Err ==> lead->Err_0 == CoreError::Corrupt(Entity::Lead),
    {
        let lead_type = match LeadType::from_str(row.lead_type.as_str()) {
            Some(v) => v,
            None => {
                return Err(CoreError::Corrupt(Entity::Lead));
            },
        };
        Ok(
            Lead {
                id: None,
                uuid: row.uuid,
                lead_type: Some(lead_type),
                inquiry_type: Some(row.inquiry_type.clone()),
                lead_status: LeadStatus::from_str(row.lead_status.as_str()),
                handle_at: Some(row.handle_at),
                created_by: Some(row.created_by.clone()),
            },
        )
    }

    /// Reads the leads of one customer, in the order of the rows.
    /// `customer_id` is the internal id of the customer, `None` where it was
    /// not found.
    pub fn get_by_customer_uuid(customer_id: Option<i32>, rows: &Vec<LeadRow>) -> (leads: Result<
        Vec<Lead>,
        CoreError,
    >)
        ensures
            match leads {
                Ok(leads) => {
                    &&& customer_id is Some
                    &&& leads@.len() == rows@.len()
                    &&& forall|i: int|
                        0 <= i < rows@.len() ==> (#[trigger] rows@[i]).readable()
                            && leads@[i].reads(rows@[i])
                },
                Err(e) => if customer_id is None {
                    e == CoreError::NotFound(Entity::Customer)
                } else {
                    &&& e == CoreError::Corrupt(Entity::Lead)
                    &&& exists|i: int| 0 <= i < rows@.len() && !(#[trigger] rows@[i]).readable()
                },
            },
    {
        if customer_id.is_none() {
            return Err(CoreError::NotFound(Entity::Customer));
        }
        let mut leads: Vec<Lead> = Vec::new();
        let mut i: usize = 0;
        while i < rows.len()
            invariant
                customer_id is Some,
                i <= rows@.len(),
                leads@.len() == i,
                forall|j: int|
                    0 <= j < i ==> (#[trigger] rows@[j]).readable() && leads@[j].reads(rows@[j]),
            decreases rows@.len() - i,
        {
            match Lead::get_by_uuid(&rows[i]) {
                Ok(lead) => {
                    leads.push(lead);
                },
                Err(e) => {
                    return Err(e);
                },
            }
            i += 1;
        }
        Ok(leads)
    }

    /// Reads the leads that a user owns, each with the details of its
    /// customer, in the order of the rows. A customer field that cannot be
    /// decrypted is shown empty; kind and status are shown as stored.
    /// `user_id` is the internal id of the user, `None` where it was not
    /// found.
    pub fn get_all(key: &Key, user_id: Option<i32>, rows: &Vec<LeadCustomerRow>) -> (leads: Result<
        Vec<LeadListItemDto>,
        CoreError,
    >)
        ensures
            leads is Ok <==> user_id is Some,
            leads is Err ==> leads->Err_0 == CoreError::ActorNotFound,
            leads is Ok ==> {
                &&& leads->Ok_0@.len() == rows@.len()
                &&& forall|i: int|
                    0 <= i < rows@.len() ==> (#[trigger] leads->Ok_0@[i]).reads(key@, rows@[i])
            },
    {
        if user_id.is_none() {
            return Err(CoreError::ActorNotFound);
        }
        let mut leads: Vec<LeadListItemDto> = Vec::new();
        let mut i: usize = 0;
        while i < rows.len()
            invariant
                i <= rows@.len(),
                leads@.len() == i,
                forall|j: int| 0 <= j < i ==> (#[trigger] leads@[j]).reads(key@, rows@[j]),
            decreases rows@.len() - i,
        {
            let row = &rows[i];
            leads.push(
                LeadListItemDto {
                    uuid: row.lead.uuid,
                    full_name: row.full_name.clone(),
                    phone_number: decrypt_or_empty(
                        key,
                        row.phone_number_enc.as_slice(),
                        row.phone_number_nonce.as_slice(),
                    ),
                    email: decrypt_or_empty(
                        key,
                        row.email_enc.as_slice(),
                        row.email_nonce.as_slice(),
                    ),
                    address: decrypt_or_empty(
                        key,
                        row.address_enc.as_slice(),
                        row.address_nonce.as_slice(),
                    ),
                    lead_type: row.lead.lead_type.clone(),
                    inquiry_type: row.lead.inquiry_type.clone(),
                    lead_status: row.lead.lead_status.clone(),
                    handle_at: row.lead.handle_at,
                    created_by: row.lead.created_by.clone(),
                },
            );
            i += 1;
        }
        Ok(leads)
    }

    /// Plans handing the listed leads to the user with the given display
    /// name; `NotFound` where the directory has no such user.
    pub fn change_handler(
        directory: &Vec<NamedUser>,
        user_full_name: String,
        lead_uuids: Vec<Uuid>,
    ) -> (plan: Result<Reassignment, CoreError>)
        ensures
            match plan {
                Ok(plan) => {
                    &&& owner_by_name(directory@, user_full_name@) == Some(plan.user_id)
                    &&& plan.uuids@ == lead_uuids@
                },
                Err(e) => {
                    &&& owner_by_name(directory@, user_full_name@) is None
                    &&& e == CoreError::NotFound(Entity::User)
                },
            },
    {
        Reassignment::new(directory, user_full_name.as_str(), lead_uuids)
    }
}

/// A written lead reads back: a row that carries the spellings that were
/// written for a lead is readable, and reads as the kind and the status of
/// that lead.
pub proof fn lemma_written_lead_reads_back(lead: Lead, stored: StoredLead, row: LeadRow, read: Lead)
    requires
        lead.lead_type is Some,
        lead.lead_status is Some,
        stored.writes(lead),
        Some(row.lead_type@) == text(stored.lead_type),
        Some(row.lead_status@) == text(stored.lead_status),
        read.reads(row),
    ensures
        row.readable(),
        read.lead_type == lead.lead_type,
        read.lead_status == lead.lead_status,
{
    lemma_lead_type_round_trip(lead.lead_type->0);
    lemma_lead_status_round_trip(lead.lead_status->0);
}

impl LeadListItemDto {
    /// Whether this is what a joined row is shown as under a key.
    pub open spec fn reads(self, key: Seq<u8>, row: LeadCustomerRow) -> bool {
        &&& self.uuid == row.lead.uuid
        &&& self.full_name@ == row.full_name@
        &&& self.phone_number@ == shown(key, row.phone_number_enc@, row.phone_number_nonce@)
        &&& self.email@ == shown(key, row.email_enc@, row.email_nonce@)
        &&& self.address@ == shown(key, row.address_enc@, row.address_nonce@)
        &&& self.lead_type@ == row.lead.lead_type@
        &&& self.inquiry_type@ == row.lead.inquiry_type@
        &&& self.lead_status@ == row.lead.lead_status@
        &&& self.handle_at == row.lead.handle_at
        &&& self.created_by@ == row.lead.created_by@
    }
}

} // verus!
