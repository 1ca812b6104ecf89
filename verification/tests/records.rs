use crm_core::models::contact::{Contact, ContactHistory};
use crm_core::models::customer::{Customer, CustomerIndex, Resolution};
use crm_core::models::identity::{Timestamp, Uuid};
use crm_core::models::intervention_task::{
    InterventionTask, InterventionTaskCustomerRow, InterventionTaskRow, InterventionTaskStatus,
};
use crm_core::models::lead::{Lead, LeadCustomerRow, LeadRow, LeadStatus, LeadType};
use crm_core::models::user_date::{MeetDateRow, MeetType, UserMeetDate};
use crm_core::utils::encrypt::{decrypt_value, encrypt_value, hash_value, Key};
use crm_core::utils::error::{CoreError, Entity, Field};

fn record_key() -> Key {
    Key::from_slice(&[31u8; 32]).unwrap()
}

fn record_secret() -> Vec<u8> {
    b"records".to_vec()
}

fn requester() -> Customer {
    Customer {
        full_name: Some("Kiss Éva".to_string()),
        phone_number: Some("+3620".to_string()),
        email: Some("eva@x.com".to_string()),
        address: Some("Budapest".to_string()),
        ..Default::default()
    }
}

fn known(id: i32) -> Vec<CustomerIndex> {
    vec![CustomerIndex {
        id,
        email_hash: hash_value(&record_secret(), "eva@x.com"),
        phone_number_hash: hash_value(&record_secret(), "+3699"),
    }]
}

#[test]
fn lead_is_created_for_a_resolved_customer() {
    let lead = Lead {
        lead_type: Some(LeadType::RedLead),
        inquiry_type: Some("home insurance".to_string()),
        lead_status: Some(LeadStatus::Opened),
        created_by: Some("Nagy Béla".to_string()),
        ..Default::default()
    };
    let (resolution, stored) =
        Lead::create(&record_key(), &record_secret(), &known(12), Some(4), requester(), lead)
            .unwrap();
    assert!(matches!(resolution, Resolution::Existing(12)));
    assert_eq!(stored.customer_id, Some(12));
    assert_eq!(stored.user_id, Some(4));
    assert_eq!(stored.lead_type.as_deref(), Some("RedLead"));
    assert_eq!(stored.inquiry_type.as_deref(), Some("home insurance"));
    assert_eq!(stored.lead_status.as_deref(), Some("Opened"));
    assert_eq!(stored.created_by.as_deref(), Some("Nagy Béla"));

    let (resolution, stored) = Lead::create(
        &record_key(),
        &record_secret(),
        &vec![],
        Some(4),
        requester(),
        Lead::default(),
    )
    .unwrap();
    assert!(matches!(resolution, Resolution::Insert(_)));
    assert_eq!(stored.customer_id, None);
    assert_eq!(stored.lead_type, None);
    assert_eq!(stored.attach(9).customer_id, Some(9));
    assert_eq!(
        Lead::create(&record_key(), &record_secret(), &vec![], None, requester(), Lead::default())
            .unwrap_err(),
        CoreError::ActorNotFound
    );
}

fn lead_row(kind: &str, status: &str) -> LeadRow {
    LeadRow {
        uuid: Some(Uuid::from_u128(1)),
        lead_type: kind.to_string(),
        inquiry_type: "car".to_string(),
        lead_status: status.to_string(),
        handle_at: Timestamp::from_micros(5),
        created_by: "Nagy Béla".to_string(),
    }
}

#[test]
fn lead_rows_are_read() {
    let lead = Lead::get_by_uuid(&lead_row("Personal", "InProgress")).unwrap();
    assert_eq!(lead.lead_type, Some(LeadType::Personal));
    assert_eq!(lead.lead_status, Some(LeadStatus::InProgress));
    assert_eq!(lead.inquiry_type.as_deref(), Some("car"));
    assert_eq!(lead.handle_at, Some(Timestamp::from_micros(5)));
    let lead = Lead::get_by_uuid(&lead_row("Personal", "Paused")).unwrap();
    assert_eq!(lead.lead_status, None);
    assert_eq!(
        Lead::get_by_uuid(&lead_row("Cold", "Opened")).unwrap_err(),
        CoreError::Corrupt(Entity::Lead)
    );
    let rows = vec![lead_row("Personal", "Opened"), lead_row("BlueLead", "Closed")];
    let leads = Lead::get_by_customer_uuid(Some(1), &rows).unwrap();
    assert_eq!(leads.len(), 2);
    assert_eq!(leads[1].lead_type, Some(LeadType::BlueLead));
    assert_eq!(
        Lead::get_by_customer_uuid(None, &rows).unwrap_err(),
        CoreError::NotFound(Entity::Customer)
    );
    let stored = Lead::modify(Lead { lead_status: Some(LeadStatus::Closed), ..Default::default() });
    assert_eq!(stored.lead_status.as_deref(), Some("Closed"));
    assert_eq!(stored.user_id, None);
}

#[test]
fn leads_are_listed_with_their_customers() {
    let key = record_key();
    let (phone_enc, phone_nonce) = encrypt_value(&key, "+3620").unwrap();
    let rows = vec![LeadCustomerRow {
        full_name: "Kiss Éva".to_string(),
        phone_number_enc: phone_enc,
        phone_number_nonce: phone_nonce,
        email_enc: vec![1, 2, 3],
        email_nonce: vec![0; 12],
        address_enc: vec![],
        address_nonce: vec![],
        lead: lead_row("whatever", "Paused"),
    }];
    let list = Lead::get_all(&key, Some(1), &rows).unwrap();
    assert_eq!(list.len(), 1);
    assert_eq!(list[0].phone_number, "+3620");
    assert_eq!(list[0].email, "");
    assert_eq!(list[0].address, "");
    assert_eq!(list[0].lead_type, "whatever");
    assert_eq!(list[0].lead_status, "Paused");
    assert_eq!(list[0].inquiry_type, "car");
    assert_eq!(Lead::get_all(&key, None, &rows).unwrap_err(), CoreError::ActorNotFound);
}

fn task() -> InterventionTask {
    InterventionTask {
        contract_number: Some("C-9".to_string()),
        product_name: Some("Casco".to_string()),
        outstanding_days: Some(45),
        balance: Some(-12000),
        processing_deadline: Some(Timestamp::from_micros(77)),
        comment: Some("call back".to_string()),
        status: Some(InterventionTaskStatus::PaymentPromise),
        created_by: Some("Nagy Béla".to_string()),
        ..Default::default()
    }
}

#[test]
fn intervention_task_is_created_for_a_resolved_customer() {
    let (resolution, stored) = InterventionTask::create(
        &record_key(),
        &record_secret(),
        &known(3),
        Some(4),
        requester(),
        task(),
    )
    .unwrap();
    assert_eq!(resolution.customer_id(), Some(3));
    assert_eq!(stored.customer_id, Some(3));
    assert_eq!(stored.user_id, Some(4));
    assert_eq!(stored.status.as_deref(), Some("PaymentPromise"));
    assert_eq!(stored.balance, Some(-12000));
    assert_eq!(stored.outstanding_days, Some(45));
    assert_eq!(stored.processing_deadline, Some(Timestamp::from_micros(77)));
    assert_eq!(stored.comment.as_deref(), Some("call back"));
    let changed = InterventionTask::modify(task());
    assert_eq!(changed.product_name.as_deref(), Some("Casco"));
    assert_eq!(changed.customer_id, None);
    let mut broken = requester();
    broken.phone_number = None;
    assert_eq!(
        InterventionTask::create(&record_key(), &record_secret(), &known(3), Some(4), broken, task())
            .unwrap_err(),
        CoreError::MissingField(Field::PhoneNumber)
    );
}

fn task_row(status: &str) -> InterventionTaskRow {
    InterventionTaskRow {
        uuid: Some(Uuid::from_u128(2)),
        contract_number: "C-9".to_string(),
        product_name: "Casco".to_string(),
        outstanding_days: 45,
        balance: -12000,
        processing_deadline: Timestamp::from_micros(77),
        comment: None,
        status: status.to_string(),
        created_by: "Nagy Béla".to_string(),
    }
}

#[test]
fn intervention_task_rows_are_read() {
    let read = InterventionTask::get_by_uuid(&task_row("Nonpayment")).unwrap();
    assert_eq!(read.status, Some(InterventionTaskStatus::Nonpayment));
    assert_eq!(read.comment, None);
    assert_eq!(read.balance, Some(-12000));
    assert_eq!(
        InterventionTask::get_by_uuid(&task_row("nonpayment")).unwrap_err(),
        CoreError::Corrupt(Entity::InterventionTask)
    );
    let rows = vec![task_row("Pending"), task_row("Processed")];
    assert_eq!(InterventionTask::get_by_customer_uuid(Some(1), &rows).unwrap().len(), 2);
    assert_eq!(
        InterventionTask::get_by_customer_uuid(None, &rows).unwrap_err(),
        CoreError::NotFound(Entity::Customer)
    );
    let key = record_key();
    let (email_enc, email_nonce) = encrypt_value(&key, "eva@x.com").unwrap();
    let joined = |task: InterventionTaskRow| InterventionTaskCustomerRow {
        full_name: "Kiss Éva".to_string(),
        phone_number_enc: vec![],
        phone_number_nonce: vec![],
        email_enc: email_enc.clone(),
        email_nonce: email_nonce.clone(),
        address_enc: vec![],
        address_nonce: vec![],
        task,
    };
    let list =
        InterventionTask::get_all(&key, Some(1), &vec![joined(task_row("PendingDeletion"))]).unwrap();
    assert_eq!(list[0].status, InterventionTaskStatus::PendingDeletion);
    assert_eq!(list[0].email, "eva@x.com");
    assert_eq!(list[0].phone_number, "");
    assert_eq!(list[0].outstanding_days, 45);
    assert_eq!(
        InterventionTask::get_all(&key, Some(1), &vec![joined(task_row("?"))]).unwrap_err(),
        CoreError::Corrupt(Entity::InterventionTask)
    );
    assert_eq!(
        InterventionTask::get_all(&key, None, &vec![joined(task_row("?"))]).unwrap_err(),
        CoreError::ActorNotFound
    );
}

fn meeting() -> UserMeetDate {
    UserMeetDate {
        meet_date: Some(Timestamp::from_micros(1_000)),
        full_name: Some("Kiss Éva".to_string()),
        phone_number: Some("+3620".to_string()),
        meet_location: Some("office".to_string()),
        meet_type: Some(MeetType::Consultation),
        is_completed: Some(false),
        created_by: Some("Nagy Béla".to_string()),
        ..Default::default()
    }
}

#[test]
fn meeting_is_sealed_and_read_back() {
    let key = record_key();
    let secret = record_secret();
    let stored = UserMeetDate::create(&key, &secret, Some(6), meeting()).unwrap();
    assert_eq!(stored.user_id, Some(6));
    assert_eq!(stored.meet_type.as_deref(), Some("Consultation"));
    assert_eq!(stored.meet_date, Some(Timestamp::from_micros(1_000)));
    assert_eq!(stored.phone_number_hash, hash_value(&secret, "+3620"));
    let row = MeetDateRow {
        uuid: Some(Uuid::from_u128(3)),
        meet_date: Timestamp::from_micros(1_000),
        full_name: "Kiss Éva".to_string(),
        phone_number_enc: stored.phone_number_enc.clone(),
        phone_number_nonce: stored.phone_number_nonce.clone(),
        meet_location: "office".to_string(),
        meet_type: "Consultation".to_string(),
        is_completed: true,
        created_by: "Nagy Béla".to_string(),
        created_at: Timestamp::from_micros(999),
    };
    let read = UserMeetDate::get_by_uuid(&key, &row).unwrap();
    assert_eq!(read.phone_number.as_deref(), Some("+3620"));
    assert_eq!(read.meet_type, Some(MeetType::Consultation));
    assert_eq!(read.is_completed, Some(true));
    assert_eq!(read.created_at, Some(Timestamp::from_micros(999)));
    let rows = vec![row.clone()];
    assert_eq!(UserMeetDate::get_all(&key, Some(6), &rows).unwrap().len(), 1);
    assert_eq!(UserMeetDate::get_all(&key, None, &rows).unwrap_err(), CoreError::ActorNotFound);
    let mut bad = row;
    bad.meet_type = "Lunch".to_string();
    assert_eq!(
        UserMeetDate::get_by_uuid(&key, &bad).unwrap_err(),
        CoreError::Corrupt(Entity::Meeting)
    );
    assert_eq!(
        UserMeetDate::get_all(&key, Some(6), &vec![bad]).unwrap_err(),
        CoreError::Corrupt(Entity::Meeting)
    );
}

#[test]
fn meeting_refusals() {
    let key = record_key();
    let secret = record_secret();
    let mut no_phone = meeting();
    no_phone.phone_number = None;
    assert_eq!(
        UserMeetDate::create(&key, &secret, None, no_phone.clone()).unwrap_err(),
        CoreError::ActorNotFound
    );
    assert_eq!(
        UserMeetDate::create(&key, &secret, Some(1), no_phone).unwrap_err(),
        CoreError::MissingField(Field::PhoneNumber)
    );
}

#[test]
fn meeting_change_keeps_what_is_left_out() {
    let key = record_key();
    let secret = record_secret();
    let update = UserMeetDate {
        meet_location: Some("café".to_string()),
        meet_type: Some(MeetType::Service),
        ..Default::default()
    };
    let stored = UserMeetDate::modify(&key, &secret, Some(meeting()), update).unwrap();
    assert_eq!(stored.meet_location.as_deref(), Some("café"));
    assert_eq!(stored.meet_type.as_deref(), Some("Service"));
    assert_eq!(stored.full_name.as_deref(), Some("Kiss Éva"));
    assert_eq!(stored.meet_date, Some(Timestamp::from_micros(1_000)));
    assert_eq!(stored.user_id, None);
    assert_eq!(stored.created_by, None);
    assert_eq!(
        decrypt_value(&key, &stored.phone_number_enc, &stored.phone_number_nonce).as_deref(),
        Some("+3620")
    );
    let kept =
        UserMeetDate::modify(&key, &secret, Some(meeting()), UserMeetDate::default()).unwrap();
    assert_eq!(kept.meet_type.as_deref(), Some("Consultation"));
    let empty = UserMeetDate::modify(
        &key,
        &secret,
        Some(UserMeetDate::default()),
        UserMeetDate::default(),
    )
    .unwrap();
    assert_eq!(empty.meet_type, None);
    assert_eq!(empty.phone_number_hash, hash_value(&secret, ""));
    assert_eq!(
        UserMeetDate::modify(&key, &secret, None, meeting()).unwrap_err(),
        CoreError::NotFound(Entity::Meeting)
    );
}

#[test]
fn meet_date_is_read_to_the_minute_or_as_rfc3339() {
    // 2024-05-17T14:30:00Z is 1715956200 seconds after the epoch.
    let expected = Some(Timestamp::from_micros(1_715_956_200_000_000));
    assert_eq!(UserMeetDate::parse_meet_date("2024-05-17T14:30"), expected);
    assert_eq!(UserMeetDate::parse_meet_date("2024-05-17T14:30:00Z"), expected);
    assert_eq!(UserMeetDate::parse_meet_date("2024-05-17T16:30:00+02:00"), expected);
    assert_eq!(
        UserMeetDate::parse_meet_date("2024-05-17T14:30:00.250Z"),
        Some(Timestamp::from_micros(1_715_956_200_250_000))
    );
    assert_eq!(
        UserMeetDate::parse_meet_date("1970-01-01T00:00"),
        Some(Timestamp::from_micros(0))
    );
    assert_eq!(
        UserMeetDate::parse_meet_date("1969-12-31T23:59"),
        Some(Timestamp::from_micros(-60_000_000))
    );
    for text in ["", "tomorrow", "2024-05-17", "2024-05-17 14:30", "2024-13-01T10:00", "2024-05-17T24:00", "2024-05-17T14:30:00"] {
        assert_eq!(UserMeetDate::parse_meet_date(text), None);
    }
}

#[test]
fn first_reading_prefers_the_minute_form() {
    assert_eq!(UserMeetDate::first_reading(Some(1), Some(2)), Some(Timestamp::from_micros(1)));
    assert_eq!(UserMeetDate::first_reading(Some(1), None), Some(Timestamp::from_micros(1)));
    assert_eq!(UserMeetDate::first_reading(None, Some(2)), Some(Timestamp::from_micros(2)));
    assert_eq!(UserMeetDate::first_reading(None, None), None);
}

#[test]
fn page_is_kept_within_bounds() {
    assert_eq!(Contact::page(None, None), (20, 0));
    assert_eq!(Contact::page(Some(50), Some(10)), (50, 10));
    assert_eq!(Contact::page(Some(0), Some(-1)), (1, 0));
    assert_eq!(Contact::page(Some(-7), Some(i64::MIN)), (1, 0));
    assert_eq!(Contact::page(Some(1), Some(0)), (1, 0));
    assert_eq!(Contact::page(Some(100), Some(i64::MAX)), (100, i64::MAX));
    assert_eq!(Contact::page(Some(101), None), (100, 0));
    assert_eq!(Contact::page(Some(i64::MAX), None), (100, 0));
}

fn contact(email: Option<&str>, phone: Option<&str>) -> Contact {
    Contact {
        id: None,
        email: email.map(|s| s.to_string()),
        first_name: Some("Anna".to_string()),
        last_name: Some("Kovács".to_string()),
        phone_number: phone.map(|s| s.to_string()),
        user_id: Some(1),
    }
}

#[test]
fn contact_is_a_duplicate_by_email_or_phone() {
    let held = vec![contact(Some("a@x.com"), Some("+361")), contact(None, None)];
    assert!(Contact::is_contact_exists(&held, &contact(Some("a@x.com"), Some("+362"))));
    assert!(Contact::is_contact_exists(&held, &contact(Some("b@x.com"), Some("+361"))));
    assert!(!Contact::is_contact_exists(&held, &contact(Some("b@x.com"), Some("+362"))));
    assert!(!Contact::is_contact_exists(&held, &contact(None, None)));
    assert!(!Contact::is_contact_exists(&vec![], &contact(Some("a@x.com"), None)));
    assert_eq!(
        Contact::new(&held, contact(Some("a@x.com"), None)).unwrap_err(),
        CoreError::AlreadyExists(Entity::Contact)
    );
    let accepted = Contact::new(&held, contact(Some("c@x.com"), None)).unwrap();
    assert_eq!(accepted.email.as_deref(), Some("c@x.com"));
    assert_eq!(accepted.last_name.as_deref(), Some("Kovács"));
}

#[test]
fn contact_history_needs_the_contact() {
    let entry = || ContactHistory { id: None, p_type: "call".to_string(), time: Timestamp::from_micros(1) };
    assert_eq!(Contact::create_history(true, entry()).unwrap().p_type, "call");
    assert_eq!(
        Contact::create_history(false, entry()).unwrap_err(),
        CoreError::NotFound(Entity::Contact)
    );
    assert_eq!(Contact::get_history(true, vec![entry(), entry()]).unwrap().len(), 2);
    assert_eq!(
        Contact::get_history(false, vec![entry()]).unwrap_err(),
        CoreError::NotFound(Entity::Contact)
    );
}
