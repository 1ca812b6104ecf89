//! Contracts: what is written for a new or a changed contract, and how
//! stored contracts are read, alone or joined with their customers.
//!
//! A contract holds no personal data of its own. It refers to its customer
//! by internal id, and that customer is found or created by the customer
//! resolution. Product, payment frequency and payment method are stored
//! under their spellings; a stored spelling that is none of them makes the
//! record unreadable, which is reported and never guessed.

use crate::models::customer::{resolve_refusal, Customer, CustomerIndex, Resolution};
use crate::models::dto::ContractDto;
use crate::models::identity::{Timestamp, Uuid};
use crate::models::ownership::{owner_by_name, NamedUser, Owned, Reassignment};
use crate::utils::encrypt::{decrypt_or_empty, shown, HmacSecret, Key};
use crate::utils::error::{CoreError, Entity};
use crate::utils::text::{clone_text, same_text, text};
use vstd::prelude::*;
use vstd::string::StringExecFns;

verus! {

/// A contract as the boundary sees it.
#[derive(Debug, Default, Clone)]
pub struct Contract {
    pub id: Option<i32>,
    pub uuid: Option<Uuid>,
    pub contract_number: Option<String>,
    pub contract_type: Option<ContractType>,
    pub annual_fee: Option<i32>,
    pub first_payment: Option<bool>,
    pub payment_frequency: Option<PaymentFrequency>,
    pub payment_method: Option<PaymentMethod>,
    pub customer_id: Option<i32>,
    pub user_id: Option<i32>,
    pub created_by: Option<String>,
    pub handle_at: Option<Timestamp>,
}

/// What is written to the store for a contract. A new contract carries its
/// owner in `user_id` and, once its customer has an internal id, that id in
/// `customer_id`; a change carries neither.
#[derive(Debug, Clone)]
pub struct StoredContract {
    pub contract_number: Option<String>,
    pub contract_type: Option<String>,
    pub annual_fee: Option<i32>,
    pub payment_frequency: Option<String>,
    pub payment_method: Option<String>,
    pub customer_id: Option<i32>,
    pub user_id: Option<i32>,
    pub created_by: Option<String>,
}

/// A contract row as it is read from the store.
#[derive(Debug, Clone)]
pub struct ContractRow {
    pub uuid: Option<Uuid>,
    pub contract_number: String,
    pub contract_type: String,
    pub annual_fee: i32,
    pub first_payment: bool,
    pub payment_frequency: String,
    pub payment_method: String,
    pub handle_at: Timestamp,
    pub created_by: String,
}

/// A contract row joined with the row of its customer.
#[derive(Debug, Clone)]
pub struct ContractCustomerRow {
    pub full_name: String,
    pub phone_number_enc: Vec<u8>,
    pub phone_number_nonce: Vec<u8>,
    pub email_enc: Vec<u8>,
    pub email_nonce: Vec<u8>,
    pub address_enc: Vec<u8>,
    pub address_nonce: Vec<u8>,
    pub contract: ContractRow,
}

/// The product that a contract is for.
#[derive(Debug, Clone, Copy, PartialEq, Eq, Structural)]
pub enum ContractType {
    BonusLifeProgram,
    LifeProgram,
    AllianzCareNow,
    HealthProgram,
    MyhomeHomeInsurance,
    MfoHomeInsurance,
    CorporatePropertyInsurance,
    Kgfb,
    Casco,
    TravelInsurance,
    CondominiumInsurance,
    AgriculturalInsurance,
}

impl ContractType {
    /// The spelling under which the value is stored.
    pub open spec fn name(self) -> Seq<char> {
        match self {
            ContractType::BonusLifeProgram => "BonusLifeProgram"@,
            ContractType::LifeProgram => "LifeProgram"@,
            ContractType::AllianzCareNow => "AllianzCareNow"@,
            ContractType::HealthProgram => "HealthProgram"@,
            ContractType::MyhomeHomeInsurance => "MyhomeHomeInsurance"@,
            ContractType::MfoHomeInsurance => "MfoHomeInsurance"@,
            ContractType::CorporatePropertyInsurance => "CorporatePropertyInsurance"@,
            ContractType::Kgfb => "Kgfb"@,
            ContractType::Casco => "Casco"@,
            ContractType::TravelInsurance => "TravelInsurance"@,
            ContractType::CondominiumInsurance => "CondominiumInsurance"@,
            ContractType::AgriculturalInsurance => "AgriculturalInsurance"@,
        }
    }

    /// The value that a stored spelling stands for, if it is one.
    pub open spec fn named(spelling: Seq<char>) -> Option<ContractType> {
        if spelling == "BonusLifeProgram"@ {
            Some(ContractType::BonusLifeProgram)
        } else if spelling == "LifeProgram"@ {
            Some(ContractType::LifeProgram)
        } else if spelling == "AllianzCareNow"@ {
            Some(ContractType::AllianzCareNow)
        } else if spelling == "HealthProgram"@ {
            Some(ContractType::HealthProgram)
        } else if spelling == "MyhomeHomeInsurance"@ {
            Some(ContractType::MyhomeHomeInsurance)
        } else if spelling == "MfoHomeInsurance"@ {
            Some(ContractType::MfoHomeInsurance)
        } else if spelling == "CorporatePropertyInsurance"@ {
            Some(ContractType::CorporatePropertyInsurance)
        } else if spelling == "Kgfb"@ {
            Some(ContractType::Kgfb)
        } else if spelling == "Casco"@ {
            Some(ContractType::Casco)
        } else if spelling == "TravelInsurance"@ {
            Some(ContractType::TravelInsurance)
        } else if spelling == "CondominiumInsurance"@ {
            Some(ContractType::CondominiumInsurance)
        } else if spelling == "AgriculturalInsurance"@ {
            Some(ContractType::AgriculturalInsurance)
        } else {
            None
        }
    }

    /// The spelling under which the value is stored.
    pub fn as_str(&self) -> (name: &'static str)
        ensures
            name@ == self.name(),
    {
        match self {
            ContractType::BonusLifeProgram => "BonusLifeProgram",
            ContractType::LifeProgram => "LifeProgram",
            ContractType::AllianzCareNow => "AllianzCareNow",
            ContractType::HealthProgram => "HealthProgram",
            ContractType::MyhomeHomeInsurance => "MyhomeHomeInsurance",
            ContractType::MfoHomeInsurance => "MfoHomeInsurance",
            ContractType::CorporatePropertyInsurance => "CorporatePropertyInsurance",
            ContractType::Kgfb => "Kgfb",
            ContractType::Casco => "Casco",
            ContractType::TravelInsurance => "TravelInsurance",
            ContractType::CondominiumInsurance => "CondominiumInsurance",
            ContractType::AgriculturalInsurance => "AgriculturalInsurance",
        }
    }

    /// The stored spelling as an owned string.
    pub fn to_string(&self) -> (name: String)
        ensures
            name@ == self.name(),
    {
        String::from_str(self.as_str())
    }

    /// Reads a stored spelling; `None` for anything but the exact spelling of a value.
    pub fn from_str(spelling: &str) -> (value: Option<ContractType>)
        ensures
            value == ContractType::named(spelling@),
    {
        if same_text(spelling, "BonusLifeProgram") {
            Some(ContractType::BonusLifeProgram)
        } else if same_text(spelling, "LifeProgram") {
            Some(ContractType::LifeProgram)
        } else if same_text(spelling, "AllianzCareNow") {
            Some(ContractType::AllianzCareNow)
        } else if same_text(spelling, "HealthProgram") {
            Some(ContractType::HealthProgram)
        } else if same_text(spelling, "MyhomeHomeInsurance") {
            Some(ContractType::MyhomeHomeInsurance)
        } else if same_text(spelling, "MfoHomeInsurance") {
            Some(ContractType::MfoHomeInsurance)
        } else if same_text(spelling, "CorporatePropertyInsurance") {
            Some(ContractType::CorporatePropertyInsurance)
        } else if same_text(spelling, "Kgfb") {
            Some(ContractType::Kgfb)
        } else if same_text(spelling, "Casco") {
            Some(ContractType::Casco)
        } else if same_text(spelling, "TravelInsurance") {
            Some(ContractType::TravelInsurance)
        } else if same_text(spelling, "CondominiumInsurance") {
            Some(ContractType::CondominiumInsurance)
        } else if same_text(spelling, "AgriculturalInsurance") {
            Some(ContractType::AgriculturalInsurance)
        } else {
            None
        }
    }
}

/// Every value is read back from its own stored spelling.
pub proof fn lemma_contract_type_round_trip(value: ContractType)
    ensures
        ContractType::named(value.name()) == Some(value),
{
    reveal_strlit("BonusLifeProgram");
    reveal_strlit("LifeProgram");
    reveal_strlit("AllianzCareNow");
    reveal_strlit("HealthProgram");
    reveal_strlit("MyhomeHomeInsurance");
    reveal_strlit("MfoHomeInsurance");
    reveal_strlit("CorporatePropertyInsurance");
    reveal_strlit("Kgfb");
    reveal_strlit("Casco");
    reveal_strlit("TravelInsurance");
    reveal_strlit("CondominiumInsurance");
    reveal_strlit("AgriculturalInsurance");
    assert("BonusLifeProgram"@.len() == 16);
    assert("LifeProgram"@.len() == 11);
    assert("AllianzCareNow"@.len() == 14);
    assert("HealthProgram"@.len() == 13);
    assert("MyhomeHomeInsurance"@.len() == 19);
    assert("MfoHomeInsurance"@.len() == 16);
    assert("CorporatePropertyInsurance"@.len() == 26);
    assert("Kgfb"@.len() == 4);
    assert("Casco"@.len() == 5);
    assert("TravelInsurance"@.len() == 15);
    assert("CondominiumInsurance"@.len() == 20);
    assert("AgriculturalInsurance"@.len() == 21);
    assert("BonusLifeProgram"@[0] != "MfoHomeInsurance"@[0]);
}

/// How often the fee of a contract is paid.
#[derive(Debug, Clone, Copy, PartialEq, Eq, Structural)]
pub enum PaymentFrequency {
    Monthly,
    Quarterly,
    Semiannual,
    Annual,
}

impl PaymentFrequency {
    /// The spelling under which the value is stored.
    pub open spec fn name(self) -> Seq<char> {
        match self {
            PaymentFrequency::Monthly => "Monthly"@,
            PaymentFrequency::Quarterly => "Quarterly"@,
            PaymentFrequency::Semiannual => "Semiannual"@,
            PaymentFrequency::Annual => "Annual"@,
        }
    }

    /// The value that a stored spelling stands for, if it is one.
    pub open spec fn named(spelling: Seq<char>) -> Option<PaymentFrequency> {
        if spelling == "Monthly"@ {
            Some(PaymentFrequency::Monthly)
        } else if spelling == "Quarterly"@ {
            Some(PaymentFrequency::Quarterly)
        } else if spelling == "Semiannual"@ {
            Some(PaymentFrequency::Semiannual)
        } else if spelling == "Annual"@ {
            Some(PaymentFrequency::Annual)
        } else {
            None
        }
    }

    /// The spelling under which the value is stored.
    pub fn as_str(&self) -> (name: &'static str)
        ensures
            name@ == self.name(),
    {
        match self {
            PaymentFrequency::Monthly => "Monthly",
            PaymentFrequency::Quarterly => "Quarterly",
            PaymentFrequency::Semiannual => "Semiannual",
            PaymentFrequency::Annual => "Annual",
        }
    }

    /// The stored spelling as an owned string.
    pub fn to_string(&self) -> (name: String)
        ensures
            name@ == self.name(),
    {
        String::from_str(self.as_str())
    }

    /// Reads a stored spelling; `None` for anything but the exact spelling of a value.
    pub fn from_str(spelling: &str) -> (value: Option<PaymentFrequency>)
        ensures
            value == PaymentFrequency::named(spelling@),
    {
        if same_text(spelling, "Monthly") {
            Some(PaymentFrequency::Monthly)
        } else if same_text(spelling, "Quarterly") {
            Some(PaymentFrequency::Quarterly)
        } else if same_text(spelling, "Semiannual") {
            Some(PaymentFrequency::Semiannual)
        } else if same_text(spelling, "Annual") {
            Some(PaymentFrequency::Annual)
        } else {
            None
        }
    }
}

/// Every value is read back from its own stored spelling.
pub proof fn lemma_payment_frequency_round_trip(value: PaymentFrequency)
    ensures
        PaymentFrequency::named(value.name()) == Some(value),
{
    reveal_strlit("Monthly");
    reveal_strlit("Quarterly");
    reveal_strlit("Semiannual");
    reveal_strlit("Annual");
    assert("Monthly"@.len() == 7);
    assert("Quarterly"@.len() == 9);
    assert("Semiannual"@.len() == 10);
    assert("Annual"@.len() == 6);
}

/// How the fee of a contract is paid.
#[derive(Debug, Clone, Copy, PartialEq, Eq, Structural)]
pub enum PaymentMethod {
    CreditCard,
    Transfer,
    DirectDebit,
    Check,
}

impl PaymentMethod {
    /// The spelling under which the value is stored.
    pub open spec fn name(self) -> Seq<char> {
        match self {
            PaymentMethod::CreditCard => "CreditCard"@,
            PaymentMethod::Transfer => "Transfer"@,
            PaymentMethod::DirectDebit => "DirectDebit"@,
            PaymentMethod::Check => "Check"@,
        }
    }

    /// The value that a stored spelling stands for, if it is one.
    pub open spec fn named(spelling: Seq<char>) -> Option<PaymentMethod> {
        if spelling == "CreditCard"@ {
            Some(PaymentMethod::CreditCard)
        } else if spelling == "Transfer"@ {
            Some(PaymentMethod::Transfer)
        } else if spelling == "DirectDebit"@ {
            Some(PaymentMethod::DirectDebit)
        } else if spelling == "Check"@ {
            Some(PaymentMethod::Check)
        } else {
            None
        }
    }

    /// The spelling under which the value is stored.
    pub fn as_str(&self) -> (name: &'static str)
        ensures
            name@ == self.name(),
    {
        match self {
            PaymentMethod::CreditCard => "CreditCard",
            PaymentMethod::Transfer => "Transfer",
            PaymentMethod::DirectDebit => "DirectDebit",
            PaymentMethod::Check => "Check",
        }
    }

    /// The stored spelling as an owned string.
    pub fn to_string(&self) -> (name: String)
        ensures
            name@ == self.name(),
    {
        String::from_str(self.as_str())
    }

    /// Reads a stored spelling; `None` for anything but the exact spelling of a value.
    pub fn from_str(spelling: &str) -> (value: Option<PaymentMethod>)
        ensures
            value == PaymentMethod::named(spelling@),
    {
        if same_text(spelling, "CreditCard") {
            Some(PaymentMethod::CreditCard)
        } else if same_text(spelling, "Transfer") {
            Some(PaymentMethod::Transfer)
        } else if same_text(spelling, "DirectDebit") {
            Some(PaymentMethod::DirectDebit)
        } else if same_text(spelling, "Check") {
            Some(PaymentMethod::Check)
        } else {
            None
        }
    }
}

/// Every value is read back from its own stored spelling.
pub proof fn lemma_payment_method_round_trip(value: PaymentMethod)
    ensures
        PaymentMethod::named(value.name()) == Some(value),
{
    reveal_strlit("CreditCard");
    reveal_strlit("Transfer");
    reveal_strlit("DirectDebit");
    reveal_strlit("Check");
    assert("CreditCard"@.len() == 10);
    assert("Transfer"@.len() == 8);
    assert("DirectDebit"@.len() == 11);
    assert("Check"@.len() == 5);
}

/// The stored spelling of an optional product.
pub open spec fn contract_type_name(value: Option<ContractType>) -> Option<Seq<char>> {
    match value {
        Some(v) => Some(v.name()),
        None => None,
    }
}

/// The stored spelling of an optional payment frequency.
pub open spec fn payment_frequency_name(value: Option<PaymentFrequency>) -> Option<Seq<char>> {
    match value {
        Some(v) => Some(v.name()),
        None => None,
    }
}

/// The stored spelling of an optional payment method.
pub open spec fn payment_method_name(value: Option<PaymentMethod>) -> Option<Seq<char>> {
    match value {
        Some(v) => Some(v.name()),
        None => None,
    }
}

impl ContractRow {
    /// Whether the three spellings of the row can be read.
    pub open spec fn readable(self) -> bool {
        &&& ContractType::named(self.contract_type@) is Some
        &&& PaymentFrequency::named(self.payment_frequency@) is Some
        &&& PaymentMethod::named(self.payment_method@) is Some
    }
}

impl StoredContract {
    /// Whether this is what is written for `contract`, apart from customer and owner.
    pub open spec fn writes(self, contract: Contract) -> bool {
        &&& text(self.contract_number) == text(contract.contract_number)
        &&& text(self.contract_type) == contract_type_name(contract.contract_type)
        &&& self.annual_fee == contract.annual_fee
        &&& text(self.payment_frequency) == payment_frequency_name(contract.payment_frequency)
        &&& text(self.payment_method) == payment_method_name(contract.payment_method)
    }

    /// The same row, attached to the customer with this internal id.
    pub fn attach(self, customer_id: i32) -> (attached: StoredContract)
        ensures
            attached == (StoredContract { customer_id: Some(customer_id), ..self }),
    {
        StoredContract { customer_id: Some(customer_id), ..self }
    }

    /// Spells out the fields of a contract for the store.
    fn spell(contract: &Contract) -> (stored: StoredContract)
        ensures
            stored.writes(*contract),
            stored.customer_id is None,
            stored.user_id is None,
            stored.created_by is None,
    {
        StoredContract {
            contract_number: clone_text(&contract.contract_number),
            contract_type: match contract.contract_type {
                Some(v) => Some(v.to_string()),
                None => None,
            },
            annual_fee: contract.annual_fee,
            payment_frequency: match contract.payment_frequency {
                Some(v) => Some(v.to_string()),
                None => None,
            },
            payment_method: match contract.payment_method {
                Some(v) => Some(v.to_string()),
                None => None,
            },
            customer_id: None,
            user_id: None,
            created_by: None,
        }
    }
}

impl Contract {
    /// Whether this contract is what a row reads as.
    pub open spec fn reads(self, row: ContractRow) -> bool {
        &&& self.id is None
        &&& self.uuid == row.uuid
        &&& text(self.contract_number) == Some(row.contract_number@)
        &&& self.contract_type == ContractType::named(row.contract_type@)
        &&& self.annual_fee == Some(row.annual_fee)
        &&& self.first_payment == Some(row.first_payment)
        &&& self.payment_frequency == PaymentFrequency::named(row.payment_frequency@)
        &&& self.payment_method == PaymentMethod::named(row.payment_method@)
        &&& self.customer_id is None
        &&& self.user_id is None
        &&& text(self.created_by) == Some(row.created_by@)
        &&& self.handle_at == Some(row.handle_at)
    }

    /// Creates a contract for a customer that is found or created first.
    /// Returns how the customer is resolved and the contract row to insert,
    /// owned by the acting user. Where the customer exists, the row is
    /// attached to it; where the customer is new, the row is attached once
    /// the customer has been inserted and has its id.
    pub fn create(
        key: &Key,
        hmac_secret: &HmacSecret,
        entries: &Vec<CustomerIndex>,
        user_id: Option<i32>,
        customer: Customer,
        contract: Contract,
    ) -> (created: Result<(Resolution, StoredContract), CoreError>)
        ensures
            match created {
                Ok((resolution, stored)) => {
                    &&& resolve_refusal(entries@, hmac_secret@, user_id, customer) is None
                    &&& resolution.resolves(key@, hmac_secret@, entries@, user_id, customer)
                    &&& stored.writes(contract)
                    &&& stored.customer_id == resolution.known_id()
                    &&& stored.user_id == user_id
                    &&& text(stored.created_by) == text(contract.created_by)
                },
                Err(e) => resolve_refusal(entries@, hmac_secret@, user_id, customer) == Some(e),
            },
    {
        let resolution = match Customer::resolve(key, hmac_secret, entries, user_id, customer) {
            Ok(resolution) => resolution,
            Err(e) => {
                return Err(e);
            },
        };
        let mut stored = StoredContract::spell(&contract);
        stored.customer_id = resolution.customer_id();
        stored.user_id = user_id;
        stored.created_by = contract.created_by;
        Ok((resolution, stored))
    }

    /// Prepares the change of a contract: the fields as they are written.
    /// Customer, owner and creator are not part of a change.
    pub fn modify(updated_contract: Contract) -> (stored: StoredContract)
        ensures
            stored.writes(updated_contract),
            stored.customer_id is None,
            stored.user_id is None,
            stored.created_by is None,
    {
        StoredContract::spell(&updated_contract)
    }

    /// Reads one contract row; `Corrupt` where a stored spelling is unknown.
    pub fn get_by_uuid(row: &ContractRow) -> (contract: Result<Contract, CoreError>)
        ensures
            contract is Ok <==> row.readable(),
            contract is Ok ==> contract->Ok_0.reads(*row),
            contract is Err ==> contract->Err_0 == CoreError::Corrupt(Entity::Contract),
    {
        let contract_type = match ContractType::from_str(row.contract_type.as_str()) {
            Some(v) => v,
            None => {
                return Err(CoreError::Corrupt(Entity::Contract));
            },
        };
        let payment_frequency = match PaymentFrequency::from_str(row.payment_frequency.as_str()) {
            Some(v) => v,
            None => {
                return Err(CoreError::Corrupt(Entity::Contract));
            },
        };
        let payment_method = match PaymentMethod::from_str(row.payment_method.as_str()) {
            Some(v) => v,
            None => {
                return Err(CoreError::Corrupt(Entity::Contract));
            },
        };
        Ok(
            Contract {
                id: None,
                uuid: row.uuid,
                contract_number: Some(row.contract_number.clone()),
                contract_type: Some(contract_type),
                annual_fee: Some(row.annual_fee),
                first_payment: Some(row.first_payment),
                payment_frequency: Some(payment_frequency),
                payment_method: Some(payment_method),
                customer_id: None,
                user_id: None,
                created_by: Some(row.created_by.clone()),
                handle_at: Some(row.handle_at),
            },
        )
    }

    /// Reads the contracts of one customer, in the order of the rows.
    /// `customer_id` is the internal id of the customer, `None` where it was
    /// not found.
    pub fn get_by_customer_uuid(
        customer_id: Option<i32>,
        rows: &Vec<ContractRow>,
    ) -> (contracts: Result<Vec<Contract>, CoreError>)
        ensures
            match contracts {
                Ok(contracts) => {
                    &&& customer_id is Some
                    &&& contracts@.len() == rows@.len()
                    &&& forall|i: int|
                        0 <= i < rows@.len() ==> {
                            &&& (#[trigger] rows@[i]).readable()
                            &&& contracts@[i].reads(rows@[i])
                        }
                },
                Err(e) => if customer_id is None {
                    e == CoreError::NotFound(Entity::Customer)
                } else {
                    &&& e == CoreError::Corrupt(Entity::Contract)
                    &&& exists|i: int| 0 <= i < rows@.len() && !(#[trigger] rows@[i]).readable()
                },
            },
    {
        if customer_id.is_none() {
            return Err(CoreError::NotFound(Entity::Customer));
        }
        let mut contracts: Vec<Contract> = Vec::new();
        let mut i: usize = 0;
        while i < rows.len()
            invariant
                customer_id is Some,
                i <= rows@.len(),
                contracts@.len() == i,
                forall|j: int|
                    0 <= j < i ==> {
                        &&& (#[trigger] rows@[j]).readable()
                        &&& contracts@[j].reads(rows@[j])
                    },
            decreases rows@.len() - i,
        {
            match Contract::get_by_uuid(&rows[i]) {
                Ok(contract) => {
                    contracts.push(contract);
                },
                Err(e) => {
                    return Err(e);
                },
            }
            i += 1;
        }
        Ok(contracts)
    }

    /// Reads the contracts that a user owns, each with the details of its
    /// customer, in the order of the rows. A customer field that cannot be
    /// decrypted is shown empty. `user_id` is the internal id of the user,
    /// `None` where it was not found.
    pub fn get_all(
        key: &Key,
        user_id: Option<i32>,
        rows: &Vec<ContractCustomerRow>,
    ) -> (contracts: Result<Vec<ContractDto>, CoreError>)
        ensures
            match contracts {
                Ok(contracts) => {
                    &&& user_id is Some
                    &&& contracts@.len() == rows@.len()
                    &&& forall|i: int|
                        0 <= i < rows@.len() ==> {
                            &&& (#[trigger] rows@[i]).contract.readable()
                            &&& contracts@[i].reads(key@, rows@[i])
                        }
                },
                Err(e) => if user_id is None {
                    e == CoreError::ActorNotFound
                } else {
                    &&& e == CoreError::Corrupt(Entity::Contract)
                    &&& exists|i: int|
                        0 <= i < rows@.len() && !(#[trigger] rows@[i]).contract.readable()
                },
            },
    {
        if user_id.is_none() {
            return Err(CoreError::ActorNotFound);
        }
        let mut contracts: Vec<ContractDto> = Vec::new();
        let mut i: usize = 0;
        while i < rows.len()
            invariant
                user_id is Some,
                i <= rows@.len(),
                contracts@.len() == i,
                forall|j: int|
                    0 <= j < i ==> {
                        &&& (#[trigger] rows@[j]).contract.readable()
                        &&& contracts@[j].reads(key@, rows@[j])
                    },
            decreases rows@.len() - i,
        {
            let row = &rows[i];
            let contract = match Contract::get_by_uuid(&row.contract) {
                Ok(contract) => contract,
                Err(e) => {
                    return Err(e);
                },
            };
            contracts.push(
                ContractDto {
                    uuid: row.contract.uuid,
                    full_name: row.full_name.clone(),
                    phone_number: decrypt_or_empty(
                        key,
                        row.phone_number_enc.as_slice(),
                        row.phone_number_nonce.as_slice(),
                    ),
                    email: decrypt_or_empty(
                        key,
                        row.email_enc.as_slice(),
                        row.email_nonce.as_slice(),
                    ),
                    address: decrypt_or_empty(
                        key,
                        row.address_enc.as_slice(),
                        row.address_nonce.as_slice(),
                    ),
                    contract_number: row.contract.contract_number.clone(),
                    contract_type: contract.contract_type.unwrap(),
                    annual_fee: row.contract.annual_fee,
                    first_payment: row.contract.first_payment,
                    payment_frequency: contract.payment_frequency.unwrap(),
                    payment_method: contract.payment_method.unwrap(),
                    created_by: row.contract.created_by.clone(),
                    handle_at: row.contract.handle_at,
                },
            );
            i += 1;
        }
        Ok(contracts)
    }

    /// Plans handing the listed contracts to the user with the given
    /// display name; `NotFound` where the directory has no such user.
    pub fn change_handler(
        directory: &Vec<NamedUser>,
        user_full_name: String,
        contract_uuids: Vec<Uuid>,
    ) -> (plan: Result<Reassignment, CoreError>)
        ensures
            match plan {
                Ok(plan) => {
                    &&& owner_by_name(directory@, user_full_name@) == Some(plan.user_id)
                    &&& plan.uuids@ == contract_uuids@
                },
                Err(e) => {
                    &&& owner_by_name(directory@, user_full_name@) is None
                    &&& e == CoreError::NotFound(Entity::User)
                },
            },
    {
        Reassignment::new(directory, user_full_name.as_str(), contract_uuids)
    }
}

impl ContractDto {
    /// Whether this is what a joined row is shown as under a key.
    pub open spec fn reads(self, key: Seq<u8>, row: ContractCustomerRow) -> bool {
        &&& self.uuid == row.contract.uuid
        &&& self.full_name@ == row.full_name@
        &&& self.phone_number@ == shown(key, row.phone_number_enc@, row.phone_number_nonce@)
        &&& self.email@ == shown(key, row.email_enc@, row.email_nonce@)
        &&& self.address@ == shown(key, row.address_enc@, row.address_nonce@)
        &&& self.contract_number@ == row.contract.contract_number@
        &&& Some(self.contract_type) == ContractType::named(row.contract.contract_type@)
        &&& self.annual_fee == row.contract.annual_fee
        &&& self.first_payment == row.contract.first_payment
        &&& Some(self.payment_frequency) == PaymentFrequency::named(
            row.contract.payment_frequency@,
        )
        &&& Some(self.payment_method) == PaymentMethod::named(row.contract.payment_method@)
        &&& self.created_by@ == row.contract.created_by@
        &&& self.handle_at == row.contract.handle_at
    }
}

/// A written contract reads back: a row that carries the spellings that
/// were written for a contract is readable, and reads as the product, the
/// payment frequency and the payment method of that contract.
pub proof fn lemma_written_contract_reads_back(
    contract: Contract,
    stored: StoredContract,
    row: ContractRow,
    read: Contract,
)
    requires
        contract.contract_type is Some,
        contract.payment_frequency is Some,
        contract.payment_method is Some,
        stored.writes(contract),
        Some(row.contract_type@) == text(stored.contract_type),
        Some(row.payment_frequency@) == text(stored.payment_frequency),
        Some(row.payment_method@) == text(stored.payment_method),
        read.reads(row),
    ensures
        row.readable(),
        read.contract_type == contract.contract_type,
        read.payment_frequency == contract.payment_frequency,
        read.payment_method == contract.payment_method,
{
    lemma_contract_type_round_trip(contract.contract_type->0);
    lemma_payment_frequency_round_trip(contract.payment_frequency->0);
    lemma_payment_method_round_trip(contract.payment_method->0);
}

impl Owned for Contract {
    open spec fn public_id(&self) -> Option<Uuid> {
        self.uuid
    }

    open spec fn owner(&self) -> Option<i32> {
        self.user_id
    }

    open spec fn differs_in_owner_only(&self, other: &Self) -> bool {
        *other == (Contract { user_id: other.user_id, ..*self })
    }

    fn uuid(&self) -> (id: Option<Uuid>) {
        self.uuid
    }

    fn set_owner(&mut self, user_id: i32) {
        self.user_id = Some(user_id);
    }
}

} // verus!
