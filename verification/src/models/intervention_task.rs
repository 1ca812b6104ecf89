//! Intervention tasks: follow-ups on contracts with an outstanding balance.
//!
//! A task refers to its customer by internal id; the customer is found or
//! created by the customer resolution. The status is stored under its
//! spelling, and a stored spelling that is none of them makes the record
//! unreadable.

use crate::models::customer::{resolve_refusal, Customer, CustomerIndex, Resolution};
use crate::models::dto::InterventionTaskDto;
use crate::models::identity::{Timestamp, Uuid};
use crate::models::ownership::{owner_by_name, NamedUser, Owned, Reassignment};
use crate::utils::encrypt::{decrypt_or_empty, shown, HmacSecret, Key};
use crate::utils::error::{CoreError, Entity};
use crate::utils::text::{clone_text, same_text, text};
use vstd::prelude::*;
use vstd::string::StringExecFns;

verus! {

/// An intervention task as the boundary sees it.
#[derive(Debug, Default, Clone)]
pub struct InterventionTask {
    pub id: Option<i32>,
    pub uuid: Option<Uuid>,
    pub contract_number: Option<String>,
    pub product_name: Option<String>,
    pub outstanding_days: Option<i32>,
    pub balance: Option<i32>,
    pub processing_deadline: Option<Timestamp>,
    pub comment: Option<String>,
    pub status: Option<InterventionTaskStatus>,
    pub customer_id: Option<i32>,
    pub user_id: Option<i32>,
    pub created_by: Option<String>,
}

/// What is written to the store for an intervention task. A new task
/// carries its owner in `user_id` and, once its customer has an internal
/// id, that id in `customer_id`; a change carries neither.
#[derive(Debug, Clone)]
pub struct StoredInterventionTask {
    pub contract_number: Option<String>,
    pub product_name: Option<String>,
    pub outstanding_days: Option<i32>,
    pub balance: Option<i32>,
    pub processing_deadline: Option<Timestamp>,
    pub comment: Option<String>,
    pub status: Option<String>,
    pub customer_id: Option<i32>,
    pub user_id: Option<i32>,
    pub created_by: Option<String>,
}

/// An intervention task row as it is read from the store.
#[derive(Debug, Clone)]
pub struct InterventionTaskRow {
    pub uuid: Option<Uuid>,
    pub contract_number: String,
    pub product_name: String,
    pub outstanding_days: i32,
    pub balance: i32,
    pub processing_deadline: Timestamp,
    pub comment: Option<String>,
    pub status: String,
    pub created_by: String,
}

/// An intervention task row joined with the row of its customer.
#[derive(Debug, Clone)]
pub struct InterventionTaskCustomerRow {
    pub full_name: String,
    pub phone_number_enc: Vec<u8>,
    pub phone_number_nonce: Vec<u8>,
    pub email_enc: Vec<u8>,
    pub email_nonce: Vec<u8>,
    pub address_enc: Vec<u8>,
    pub address_nonce: Vec<u8>,
    pub task: InterventionTaskRow,
}

/// How far the handling of an intervention task has come.
#[derive(Debug, Clone, Copy, PartialEq, Eq, Structural)]
pub enum InterventionTaskStatus {
    Pending,
    PaymentPromise,
    Processed,
    Nonpayment,
    PendingDeletion,
}

impl InterventionTaskStatus {
    /// The spelling under which the value is stored.
    pub open spec fn name(self) -> Seq<char> {
        match self {
            InterventionTaskStatus::Pending => "Pending"@,
            InterventionTaskStatus::PaymentPromise => "PaymentPromise"@,
            InterventionTaskStatus::Processed => "Processed"@,
            InterventionTaskStatus::Nonpayment => "Nonpayment"@,
            InterventionTaskStatus::PendingDeletion => "PendingDeletion"@,
        }
    }

    /// The value that a stored spelling stands for, if it is one.
    pub open spec fn named(spelling: Seq<char>) -> Option<InterventionTaskStatus> {
        if spelling == "Pending"@ {
            Some(InterventionTaskStatus::Pending)
        } else if spelling == "PaymentPromise"@ {
            Some(InterventionTaskStatus::PaymentPromise)
        } else if spelling == "Processed"@ {
            Some(InterventionTaskStatus::Processed)
        } else if spelling == "Nonpayment"@ {
            Some(InterventionTaskStatus::Nonpayment)
        } else if spelling == "PendingDeletion"@ {
            Some(InterventionTaskStatus::PendingDeletion)
        } else {
            None
        }
    }

    /// The spelling under which the value is stored.
    pub fn as_str(&self) -> (name: &'static str)
        ensures
            name@ == self.name(),
    {
        match self {
            InterventionTaskStatus::Pending => "Pending",
            InterventionTaskStatus::PaymentPromise => "PaymentPromise",
            InterventionTaskStatus::Processed => "Processed",
            InterventionTaskStatus::Nonpayment => "Nonpayment",
            InterventionTaskStatus::PendingDeletion => "PendingDeletion",
        }
    }

    /// The stored spelling as an owned string.
    pub fn to_string(&self) -> (name: String)
        ensures
            name@ == self.name(),
    {
        String::from_str(self.as_str())
    }

    /// Reads a stored spelling; `None` for anything but the exact spelling of a value.
    pub fn from_str(spelling: &str) -> (value: Option<InterventionTaskStatus>)
        ensures
            value == InterventionTaskStatus::named(spelling@),
    {
        if same_text(spelling, "Pending") {
            Some(InterventionTaskStatus::Pending)
        } else if same_text(spelling, "PaymentPromise") {
            Some(InterventionTaskStatus::PaymentPromise)
        } else if same_text(spelling, "Processed") {
            Some(InterventionTaskStatus::Processed)
        } else if same_text(spelling, "Nonpayment") {
            Some(InterventionTaskStatus::Nonpayment)
        } else if same_text(spelling, "PendingDeletion") {
            Some(InterventionTaskStatus::PendingDeletion)
        } else {
            None
        }
    }
}

/// Every value is read back from its own stored spelling.
pub proof fn lemma_intervention_task_status_round_trip(value: InterventionTaskStatus)
    ensures
        InterventionTaskStatus::named(value.name()) == Some(value),
{
    reveal_strlit("Pending");
    reveal_strlit("PaymentPromise");
    reveal_strlit("Processed");
    reveal_strlit("Nonpayment");
    reveal_strlit("PendingDeletion");
    assert("Pending"@.len() == 7);
    assert("PaymentPromise"@.len() == 14);
    assert("Processed"@.len() == 9);
    assert("Nonpayment"@.len() == 10);
    assert("PendingDeletion"@.len() == 15);
}

/// The stored spelling of an optional status.
pub open spec fn status_name(value: Option<InterventionTaskStatus>) -> Option<Seq<char>> {
    match value {
        Some(v) => Some(v.name()),
        None => None,
    }
}

impl InterventionTaskRow {
    /// Whether the status of the row can be read.
    pub open spec fn readable(self) -> bool {
        InterventionTaskStatus::named(self.status@) is Some
    }
}

impl StoredInterventionTask {
    /// Whether this is what is written for `task`, apart from customer and owner.
    pub open spec fn writes(self, task: InterventionTask) -> bool {
        &&& text(self.contract_number) == text(task.contract_number)
        &&& text(self.product_name) == text(task.product_name)
        &&& self.outstanding_days == task.outstanding_days
        &&& self.balance == task.balance
        &&& self.processing_deadline == task.processing_deadline
        &&& text(self.comment) == text(task.comment)
        &&& text(self.status) == status_name(task.status)
    }

    /// The same row, attached to the customer with this internal id.
    pub fn attach(self, customer_id: i32) -> (attached: StoredInterventionTask)
        ensures
            attached == (StoredInterventionTask { customer_id: Some(customer_id), ..self }),
    {
        StoredInterventionTask { customer_id: Some(customer_id), ..self }
    }

    /// Spells out the fields of a task for the store.
    fn spell(task: &InterventionTask) -> (stored: StoredInterventionTask)
        ensures
            stored.writes(*task),
            stored.customer_id is None,
            stored.user_id is None,
            stored.created_by is None,
    {
        StoredInterventionTask {
            contract_number: clone_text(&task.contract_number),
            product_name: clone_text(&task.product_name),
            outstanding_days: task.outstanding_days,
            balance: task.balance,
            processing_deadline: task.processing_deadline,
            comment: clone_text(&task.comment),
            status: match task.status {
                Some(v) => Some(v.to_string()),
                None => None,
            },
            customer_id: None,
            user_id: None,
            created_by: None,
        }
    }
}

impl InterventionTask {
    /// Whether this record is what a row reads as.
    pub open spec fn reads(self, row: InterventionTaskRow) -> bool {
        &&& self.id is None
        &&& self.uuid == row.uuid
        &&& text(self.contract_number) == Some(row.contract_number@)
        &&& text(self.product_name) == Some(row.product_name@)
        &&& self.outstanding_days == Some(row.outstanding_days)
        &&& self.balance == Some(row.balance)
        &&& self.processing_deadline == Some(row.processing_deadline)
        &&& text(self.comment) == text(row.comment)
        &&& self.status == InterventionTaskStatus::named(row.status@)
        &&& self.customer_id is None
        &&& self.user_id is None
        &&& text(self.created_by) == Some(row.created_by@)
    }

    /// Creates a task for a customer that is found or created first.
    /// Returns how the customer is resolved and the task row to insert,
    /// owned by the acting user. Where the customer exists, the row is
    /// attached to it; where the customer is new, the row is attached once
    /// the customer has been inserted and has its id.
    pub fn create(
        key: &Key,
        hmac_secret: &HmacSecret,
        entries: &Vec<CustomerIndex>,
        user_id: Option<i32>,
        customer: Customer,
        intervention_task: InterventionTask,
    ) -> (created: Result<(Resolution, StoredInterventionTask), CoreError>)
        ensures
            match created {
                Ok((resolution, stored)) => {
                    &&& resolve_refusal(entries@, hmac_secret@, user_id, customer) is None
                    &&& resolution.resolves(key@, hmac_secret@, entries@, user_id, customer)
                    &&& stored.writes(intervention_task)
                    &&& stored.customer_id == resolution.known_id()
                    &&& stored.user_id == user_id
                    &&& text(stored.created_by) == text(intervention_task.created_by)
                },
                Err(e) => resolve_refusal(entries@, hmac_secret@, user_id, customer) == Some(e),
            },
    {
        let resolution = match Customer::resolve(key, hmac_secret, entries, user_id, customer) {
            Ok(resolution) => resolution,
            Err(e) => {
                return Err(e);
            },
        };
        let mut stored = StoredInterventionTask::spell(&intervention_task);
        stored.customer_id = resolution.customer_id();
        stored.user_id = user_id;
        stored.created_by = intervention_task.created_by;
        Ok((resolution, stored))
    }

    /// Prepares the change of a task: the fields as they are written.
    /// Customer, owner and creator are not part of a change.
    pub fn modify(updated_intervention_task: InterventionTask) -> (stored: StoredInterventionTask)
        ensures
            stored.writes(updated_intervention_task),
            stored.customer_id is None,
            stored.user_id is None,
            stored.created_by is None,
    {
        StoredInterventionTask::spell(&updated_intervention_task)
    }

    /// Reads one task row; `Corrupt` where the stored status is unknown.
    pub fn get_by_uuid(row: &InterventionTaskRow) -> (task: Result<InterventionTask, CoreError>)
        ensures
            task is Ok <==> row.readable(),
            task is Ok ==> task->Ok_0.reads(*row),
            task is Err ==> task->Err_0 == CoreError::Corrupt(Entity::InterventionTask),
    {
        let status = match InterventionTaskStatus::from_str(row.status.as_str()) {
            Some(v) => v,
            None => {
                return Err(CoreError::Corrupt(Entity::InterventionTask));
            },
        };
        Ok(
            InterventionTask {
                id: None,
                uuid: row.uuid,
                contract_number: Some(row.contract_number.clone()),
                product_name: Some(row.product_name.clone()),
                outstanding_days: Some(row.outstanding_days),
                balance: Some(row.balance),
                processing_deadline: Some(row.processing_deadline),
                comment: clone_text(&row.comment),
                status: Some(status),
                customer_id: None,
                user_id: None,
                created_by: Some(row.created_by.clone()),
            },
        )
    }

    /// Reads the tasks of one customer, in the order of the rows.
    /// `customer_id` is the internal id of the customer, `None` where it was
    /// not found.
    pub fn get_by_customer_uuid(
        customer_id: Option<i32>,
        rows: &Vec<InterventionTaskRow>,
    ) -> (tasks: Result<Vec<InterventionTask>, CoreError>)
        ensures
            match tasks {
                Ok(tasks) => {
                    &&& customer_id is Some
                    &&& tasks@.len() == rows@.len()
                    &&& forall|i: int|
                        0 <= i < rows@.len() ==> {
                            &&& (#[trigger] rows@[i]).readable()
                            &&& tasks@[i].reads(rows@[i])
                        }
                },
                Err(e) => if customer_id is None {
                    e == CoreError::NotFound(Entity::Customer)
                } else {
                    &&& e == CoreError::Corrupt(Entity::InterventionTask)
                    &&& exists|i: int| 0 <= i < rows@.len() && !(#[trigger] rows@[i]).readable()
                },
            },
    {
        if customer_id.is_none() {
            return Err(CoreError::NotFound(Entity::Customer));
        }
        let mut tasks: Vec<InterventionTask> = Vec::new();
        let mut i: usize = 0;
        while i < rows.len()
            invariant
                customer_id is Some,
                i <= rows@.len(),
                tasks@.len() == i,
                forall|j: int|
                    0 <= j < i ==> {
                        &&& (#[trigger] rows@[j]).readable()
                        &&& tasks@[j].reads(rows@[j])
                    },
            decreases rows@.len() - i,
        {
            match InterventionTask::get_by_uuid(&rows[i]) {
                Ok(task) => {
                    tasks.push(task);
                },
                Err(e) => {
                    return Err(e);
                },
            }
            i += 1;
        }
        Ok(tasks)
    }

    /// Reads the tasks that a user owns, each with the details of its
    /// customer, in the order of the rows. A customer field that cannot be
    /// decrypted is shown empty. `user_id` is the internal id of the user,
    /// `None` where it was not found.
    pub fn get_all(
        key: &Key,
        user_id: Option<i32>,
        rows: &Vec<InterventionTaskCustomerRow>,
    ) -> (tasks: Result<Vec<InterventionTaskDto>, CoreError>)
        ensures
            match tasks {
                Ok(tasks) => {
                    &&& user_id is Some
                    &&& tasks@.len() == rows@.len()
                    &&& forall|i: int|
                        0 <= i < rows@.len() ==> {
                            &&& (#[trigger] rows@[i]).task.readable()
                            &&& tasks@[i].reads(key@, rows@[i])
                        }
                },
                Err(e) => if user_id is None {
                    e == CoreError::ActorNotFound
                } else {
                    &&& e == CoreError::Corrupt(Entity::InterventionTask)
                    &&& exists|i: int|
                        0 <= i < rows@.len() && !(#[trigger] rows@[i]).task.readable()
                },
            },
    {
        if user_id.is_none() {
            return Err(CoreError::ActorNotFound);
        }
        let mut tasks: Vec<InterventionTaskDto> = Vec::new();
        let mut i: usize = 0;
        while i < rows.len()
            invariant
                user_id is Some,
                i <= rows@.len(),
                tasks@.len() == i,
                forall|j: int|
                    0 <= j < i ==> (#[trigger] rows@[j]).task.readable() && tasks@[j].reads(
                            key@,
                        rows@[j],
                        ),
            decreases rows@.len() - i,
        {
            let row = &rows[i];
            let status = match InterventionTaskStatus::from_str(row.task.status.as_str()) {
                Some(v) => v,
                None => {
                    return Err(CoreError::Corrupt(Entity::InterventionTask));
                },
            };
            tasks.push(
                InterventionTaskDto {
                    uuid: row.task.uuid,
                    full_name: row.full_name.clone(),
                    phone_number: decrypt_or_empty(
                        key,
                        row.phone_number_enc.as_slice(),
                        row.phone_number_nonce.as_slice(),
                    ),
                    email: decrypt_or_empty(
                        key,
                        row.email_enc.as_slice(),
                        row.email_nonce.as_slice(),
                    ),
                    address: decrypt_or_empty(
                        key,
                        row.address_enc.as_slice(),
                        row.address_nonce.as_slice(),
                    ),
                    contract_number: row.task.contract_number.clone(),
                    product_name: row.task.product_name.clone(),
                    outstanding_days: row.task.outstanding_days,
                    balance: row.task.balance,
                    processing_deadline: row.task.processing_deadline,
                    comment: clone_text(&row.task.comment),
                    status,
                    created_by: row.task.created_by.clone(),
                },
            );
            i += 1;
        }
        Ok(tasks)
    }

    /// Plans handing the listed tasks to the user with the given display
    /// name; `NotFound` where the directory has no such user.
    pub fn change_handler(
        directory: &Vec<NamedUser>,
        user_full_name: String,
        intervention_task_uuids: Vec<Uuid>,
    ) -> (plan: Result<Reassignment, CoreError>)
        ensures
            match plan {
                Ok(plan) => {
                    &&& owner_by_name(directory@, user_full_name@) == Some(plan.user_id)
                    &&& plan.uuids@ == intervention_task_uuids@
                },
                Err(e) => {
                    &&& owner_by_name(directory@, user_full_name@) is None
                    &&& e == CoreError::NotFound(Entity::User)
                },
            },
    {
        Reassignment::new(directory, user_full_name.as_str(), intervention_task_uuids)
    }
}

impl InterventionTaskDto {
    /// Whether this is what a joined row is shown as under a key.
    pub open spec fn reads(self, key: Seq<u8>, row: InterventionTaskCustomerRow) -> bool {
        &&& self.uuid == row.task.uuid
        &&& self.full_name@ == row.full_name@
        &&& self.phone_number@ == shown(key, row.phone_number_enc@, row.phone_number_nonce@)
        &&& self.email@ == shown(key, row.email_enc@, row.email_nonce@)
        &&& self.address@ == shown(key, row.address_enc@, row.address_nonce@)
        &&& self.contract_number@ == row.task.contract_number@
        &&& self.product_name@ == row.task.product_name@
        &&& self.outstanding_days == row.task.outstanding_days
        &&& self.balance == row.task.balance
        &&& self.processing_deadline == row.task.processing_deadline
        &&& text(self.comment) == text(row.task.comment)
        &&& Some(self.status) == InterventionTaskStatus::named(row.task.status@)
        &&& self.created_by@ == row.task.created_by@
    }
}

/// A written status reads back: a row that carries the spelling that was
/// written for a record is readable, and reads as the status of that record.
pub proof fn lemma_written_status_reads_back(
    task: InterventionTask,
    stored: StoredInterventionTask,
    row: InterventionTaskRow,
    read: InterventionTask,
)
    requires
        task.status is Some,
        stored.writes(task),
        Some(row.status@) == text(stored.status),
        read.reads(row),
    ensures
        row.readable(),
        read.status == task.status,
{
    lemma_intervention_task_status_round_trip(task.status->0);
}

impl Owned for InterventionTask {
    open spec fn public_id(&self) -> Option<Uuid> {
        self.uuid
    }

    open spec fn owner(&self) -> Option<i32> {
        self.user_id
    }

    open spec fn differs_in_owner_only(&self, other: &Self) -> bool {
        *other == (InterventionTask { user_id: other.user_id, ..*self })
    }

    fn uuid(&self) -> (id: Option<Uuid>) {
        self.uuid
    }

    fn set_owner(&mut self, user_id: i32) {
        self.user_id = Some(user_id);
    }
}

} // verus!
