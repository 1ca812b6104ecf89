//! The records of the CRM and their stored forms.

pub mod contact;
pub mod contract;
pub mod customer;
pub mod dto;
pub mod identity;
pub mod intervention_task;
pub mod lead;
pub mod ownership;
pub mod recommendation;
pub mod recruitment;
pub mod user;
pub mod user_date;
pub mod user_info;
