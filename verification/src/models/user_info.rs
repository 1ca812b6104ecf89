//! The profile that belongs to a user.

use vstd::prelude::*;

verus! {

/// Name, phone number and agency codes of a user.
#[derive(Debug, Default, Clone)]
pub struct UserInfo {
    pub id: Option<i32>,
    pub full_name: Option<String>,
    pub phone_number: Option<String>,
    pub hufa_code: Option<String>,
    pub agent_code: Option<String>,
}

} // verus!
