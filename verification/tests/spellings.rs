use crm_core::models::contract::{ContractType, PaymentFrequency, PaymentMethod};
use crm_core::models::intervention_task::InterventionTaskStatus;
use crm_core::models::lead::{LeadStatus, LeadType};
use crm_core::models::user_date::MeetType;

#[test]
fn contract_type_spellings() {
    let all = [
        (ContractType::BonusLifeProgram, "BonusLifeProgram"),
        (ContractType::LifeProgram, "LifeProgram"),
        (ContractType::AllianzCareNow, "AllianzCareNow"),
        (ContractType::HealthProgram, "HealthProgram"),
        (ContractType::MyhomeHomeInsurance, "MyhomeHomeInsurance"),
        (ContractType::MfoHomeInsurance, "MfoHomeInsurance"),
        (ContractType::CorporatePropertyInsurance, "CorporatePropertyInsurance"),
        (ContractType::Kgfb, "Kgfb"),
        (ContractType::Casco, "Casco"),
        (ContractType::TravelInsurance, "TravelInsurance"),
        (ContractType::CondominiumInsurance, "CondominiumInsurance"),
        (ContractType::AgriculturalInsurance, "AgriculturalInsurance"),
    ];
    for (value, name) in all {
        assert_eq!(value.as_str(), name);
        assert_eq!(value.to_string(), name);
        assert_eq!(ContractType::from_str(name), Some(value));
    }
    assert_eq!(ContractType::from_str("kgfb"), None);
    assert_eq!(ContractType::from_str(""), None);
    assert_eq!(ContractType::from_str("Casco "), None);
}

#[test]
fn payment_spellings() {
    let frequencies = [
        (PaymentFrequency::Monthly, "Monthly"),
        (PaymentFrequency::Quarterly, "Quarterly"),
        (PaymentFrequency::Semiannual, "Semiannual"),
        (PaymentFrequency::Annual, "Annual"),
    ];
    for (value, name) in frequencies {
        assert_eq!(value.to_string(), name);
        assert_eq!(PaymentFrequency::from_str(name), Some(value));
    }
    assert_eq!(PaymentFrequency::from_str("Weekly"), None);
    let methods = [
        (PaymentMethod::CreditCard, "CreditCard"),
        (PaymentMethod::Transfer, "Transfer"),
        (PaymentMethod::DirectDebit, "DirectDebit"),
        (PaymentMethod::Check, "Check"),
    ];
    for (value, name) in methods {
        assert_eq!(value.to_string(), name);
        assert_eq!(PaymentMethod::from_str(name), Some(value));
    }
    assert_eq!(PaymentMethod::from_str("Cash"), None);
}

#[test]
fn status_and_kind_spellings() {
    let statuses = [
        (InterventionTaskStatus::Pending, "Pending"),
        (InterventionTaskStatus::PaymentPromise, "PaymentPromise"),
        (InterventionTaskStatus::Processed, "Processed"),
        (InterventionTaskStatus::Nonpayment, "Nonpayment"),
        (InterventionTaskStatus::PendingDeletion, "PendingDeletion"),
    ];
    for (value, name) in statuses {
        assert_eq!(value.to_string(), name);
        assert_eq!(InterventionTaskStatus::from_str(name), Some(value));
    }
    assert_eq!(InterventionTaskStatus::from_str("Done"), None);
    let kinds = [
        (LeadType::Personal, "Personal"),
        (LeadType::Recommendation, "Recommendation"),
        (LeadType::Salesforce, "Salesforce"),
        (LeadType::RedLead, "RedLead"),
        (LeadType::BlueLead, "BlueLead"),
    ];
    for (value, name) in kinds {
        assert_eq!(value.to_string(), name);
        assert_eq!(LeadType::from_str(name), Some(value));
    }
    assert_eq!(LeadType::from_str("GreenLead"), None);
    let lead_statuses = [
        (LeadStatus::Opened, "Opened"),
        (LeadStatus::InProgress, "InProgress"),
        (LeadStatus::Closed, "Closed"),
    ];
    for (value, name) in lead_statuses {
        assert_eq!(value.to_string(), name);
        assert_eq!(LeadStatus::from_str(name), Some(value));
    }
    assert_eq!(LeadStatus::from_str("Inprogress"), None);
    let meets = [
        (MeetType::NeedsAssessment, "NeedsAssessment"),
        (MeetType::Consultation, "Consultation"),
        (MeetType::Service, "Service"),
        (MeetType::AnnualReview, "AnnualReview"),
    ];
    for (value, name) in meets {
        assert_eq!(value.to_string(), name);
        assert_eq!(MeetType::from_str(name), Some(value));
    }
    assert_eq!(MeetType::from_str("Lunch"), None);
}
