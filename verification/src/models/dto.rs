//! What the boundary hands out: list items with the customer's details in
//! the clear, and the figures of the reports. None of them has a field for a
//! ciphertext, a nonce or a blind index.

use crate::models::contract::{ContractType, PaymentFrequency, PaymentMethod};
use crate::models::identity::{Timestamp, Uuid};
use crate::models::intervention_task::InterventionTaskStatus;
use vstd::prelude::*;

verus! {

/// A manager or leader by name.
#[derive(Debug, Clone)]
pub struct ManagerNameDto {
    pub uuid: Option<Uuid>,
    pub full_name: String,
    pub user_role: String,
}

/// A lead with the details of its customer.
#[derive(Debug, Clone)]
pub struct LeadListItemDto {
    pub uuid: Option<Uuid>,
    pub full_name: String,
    pub phone_number: String,
    pub email: String,
    pub address: String,
    pub lead_type: String,
    pub inquiry_type: String,
    pub lead_status: String,
    pub handle_at: Timestamp,
    pub created_by: String,
}

/// An intervention task with the details of its customer.
#[derive(Debug, Clone)]
pub struct InterventionTaskDto {
    pub uuid: Option<Uuid>,
    pub full_name: String,
    pub phone_number: String,
    pub email: String,
    pub address: String,
    pub contract_number: String,
    pub product_name: String,
    pub outstanding_days: i32,
    pub balance: i32,
    pub processing_deadline: Timestamp,
    pub comment: Option<String>,
    pub status: InterventionTaskStatus,
    pub created_by: String,
}

/// A contract with the details of its customer.
#[derive(Debug, Clone)]
pub struct ContractDto {
    pub uuid: Option<Uuid>,
    pub full_name: String,
    pub phone_number: String,
    pub email: String,
    pub address: String,
    pub contract_number: String,
    pub contract_type: ContractType,
    pub annual_fee: i32,
    pub first_payment: bool,
    pub payment_frequency: PaymentFrequency,
    pub payment_method: PaymentMethod,
    pub created_by: String,
    pub handle_at: Timestamp,
}

/// Meetings by whether they took place.
#[derive(Debug, Clone, Copy, PartialEq, Eq, Structural)]
pub struct IsCompletedChartDto {
    pub yes: i64,
    pub no: i64,
}

/// Meetings by kind.
#[derive(Debug, Clone, Copy, PartialEq, Eq, Structural)]
pub struct MeetTypeChartDto {
    pub needs_assessment: i64,
    pub consultation: i64,
    pub service: i64,
    pub annual_review: i64,
}

/// Meetings by day of the week.
#[derive(Debug, Clone, Copy, PartialEq, Eq, Structural)]
pub struct DatesWeeklyChartDto {
    pub monday: i64,
    pub tuesday: i64,
    pub wednesday: i64,
    pub thursday: i64,
    pub friday: i64,
    pub saturday: i64,
    pub sunday: i64,
}

/// Meetings of one month by week.
#[derive(Debug, Clone, Copy, PartialEq, Eq, Structural)]
pub struct DatesMonthlyChartDto {
    pub month: i16,
    pub week1: i64,
    pub week2: i64,
    pub week3: i64,
    pub week4: i64,
    pub week5: i64,
}

/// Contracts by product.
#[derive(Debug, Clone, Copy, PartialEq, Eq, Structural)]
pub struct PortfolioDto {
    pub bonus_life_program: i64,
    pub life_program: i64,
    pub allianz_care_now: i64,
    pub health_program: i64,
    pub myhome_home_insurance: i64,
    pub mfo_home_insurance: i64,
    pub corporate_property_insurance: i64,
    pub kgfb: i64,
    pub casco: i64,
    pub travel_insurance: i64,
    pub condominium_insurance: i64,
    pub agricultural_insurance: i64,
}

/// Contracts by day of the week.
#[derive(Debug, Clone, Copy, PartialEq, Eq, Structural)]
pub struct WeeklyProductionChartDto {
    pub monday: i64,
    pub tuesday: i64,
    pub wednesday: i64,
    pub thursday: i64,
    pub friday: i64,
    pub saturday: i64,
    pub sunday: i64,
}

/// Contracts of one month by week.
#[derive(Debug, Clone, Copy, PartialEq, Eq, Structural)]
pub struct MonthlyProductionChartDto {
    pub month: i16,
    pub week1: i64,
    pub week2: i64,
    pub week3: i64,
    pub week4: i64,
    pub week5: i64,
}

} // verus!
