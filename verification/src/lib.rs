//! Confidential-field storage core of a back-office CRM: field encryption,
//! blind indexes, record codecs, customer resolution and the role check.

pub mod models;
pub mod utils;
pub mod web_data;
