use crm_core::models::contract::Contract;
use crm_core::models::customer::Customer;
use crm_core::models::identity::Uuid;
use crm_core::models::intervention_task::InterventionTask;
use crm_core::models::lead::Lead;
use crm_core::models::ownership::{NamedUser, Reassignment};
use crm_core::models::recommendation::CustomerRecommendation;
use crm_core::models::user_date::UserMeetDate;
use crm_core::utils::error::{CoreError, Entity};

fn directory() -> Vec<NamedUser> {
    vec![
        NamedUser { user_id: 1, full_name: "Agent A".to_string() },
        NamedUser { user_id: 2, full_name: "Agent B".to_string() },
        NamedUser { user_id: 3, full_name: "Agent B".to_string() },
    ]
}

fn owned_customer(uuid: u128, owner: i32) -> Customer {
    Customer {
        id: Some(uuid as i32),
        uuid: Some(Uuid::from_u128(uuid)),
        full_name: Some(format!("customer {}", uuid)),
        phone_number: Some("+36".to_string()),
        email: Some("c@x.com".to_string()),
        address: Some("Budapest".to_string()),
        comment: Some("note".to_string()),
        user_id: Some(owner),
        created_by: Some("Agent A".to_string()),
    }
}

fn ids(list: &[u128]) -> Vec<Uuid> {
    list.iter().map(|bits| Uuid::from_u128(*bits)).collect()
}

#[test]
fn reassignment_changes_the_owner_and_nothing_else() {
    let plan = Customer::change_handler(&directory(), "Agent B".to_string(), ids(&[1, 2, 3])).unwrap();
    assert_eq!(plan.user_id, 2);
    assert_eq!(plan.uuids, ids(&[1, 2, 3]));
    let before = vec![owned_customer(1, 1), owned_customer(2, 1), owned_customer(3, 1)];
    let mut records = before.clone();
    plan.apply(&mut records);
    assert_eq!(records.len(), 3);
    for (old, new) in before.iter().zip(records.iter()) {
        assert_eq!(new.user_id, Some(2));
        assert_eq!(new.id, old.id);
        assert_eq!(new.uuid, old.uuid);
        assert_eq!(new.full_name, old.full_name);
        assert_eq!(new.phone_number, old.phone_number);
        assert_eq!(new.email, old.email);
        assert_eq!(new.address, old.address);
        assert_eq!(new.comment, old.comment);
        assert_eq!(new.created_by, old.created_by);
    }
}

#[test]
fn reassignment_leaves_unlisted_records() {
    let plan = Reassignment::new(&directory(), "Agent B", ids(&[2])).unwrap();
    let mut records = vec![owned_customer(1, 1), owned_customer(2, 1), owned_customer(3, 5)];
    let mut unnamed = owned_customer(4, 6);
    unnamed.uuid = None;
    records.push(unnamed);
    plan.apply(&mut records);
    assert_eq!(records[0].user_id, Some(1));
    assert_eq!(records[1].user_id, Some(2));
    assert_eq!(records[2].user_id, Some(5));
    assert_eq!(records[3].user_id, Some(6));
    assert!(plan.is_listed(Some(Uuid::from_u128(2))));
    assert!(!plan.is_listed(Some(Uuid::from_u128(1))));
    assert!(!plan.is_listed(None));
}

#[test]
fn reassignment_of_nothing_changes_nothing() {
    let plan = Reassignment::new(&directory(), "Agent A", vec![]).unwrap();
    let mut records = vec![owned_customer(1, 9)];
    plan.apply(&mut records);
    assert_eq!(records[0].user_id, Some(9));
    let mut none: Vec<Customer> = vec![];
    plan.apply(&mut none);
    assert!(none.is_empty());
}

#[test]
fn owner_is_the_first_with_the_name() {
    assert_eq!(Reassignment::new(&directory(), "Agent B", vec![]).unwrap().user_id, 2);
    assert_eq!(Reassignment::new(&directory(), "Agent A", vec![]).unwrap().user_id, 1);
}

#[test]
fn unknown_owner_is_refused() {
    let not_found = CoreError::NotFound(Entity::User);
    assert_eq!(Reassignment::new(&directory(), "Agent C", ids(&[1])).unwrap_err(), not_found);
    assert_eq!(Reassignment::new(&directory(), "agent a", ids(&[1])).unwrap_err(), not_found);
    assert_eq!(Reassignment::new(&vec![], "Agent A", ids(&[1])).unwrap_err(), not_found);
    assert_eq!(
        Contract::change_handler(&directory(), "X".to_string(), ids(&[1])).unwrap_err(),
        not_found
    );
    assert_eq!(
        Lead::change_handler(&directory(), "X".to_string(), ids(&[1])).unwrap_err(),
        not_found
    );
    assert_eq!(
        InterventionTask::change_handler(&directory(), "X".to_string(), ids(&[1])).unwrap_err(),
        not_found
    );
    assert_eq!(
        CustomerRecommendation::change_handler(&directory(), "X".to_string(), ids(&[1]))
            .unwrap_err(),
        not_found
    );
    assert_eq!(
        UserMeetDate::change_handler(&directory(), "X".to_string(), ids(&[1])).unwrap_err(),
        not_found
    );
}

#[test]
fn every_kind_of_record_is_reassigned() {
    let plan = Contract::change_handler(&directory(), "Agent A".to_string(), ids(&[5])).unwrap();
    let mut contracts = vec![Contract {
        uuid: Some(Uuid::from_u128(5)),
        contract_number: Some("C-1".to_string()),
        user_id: Some(8),
        ..Default::default()
    }];
    plan.apply(&mut contracts);
    assert_eq!(contracts[0].user_id, Some(1));
    assert_eq!(contracts[0].contract_number.as_deref(), Some("C-1"));

    let plan =
        InterventionTask::change_handler(&directory(), "Agent A".to_string(), ids(&[5])).unwrap();
    let mut tasks = vec![InterventionTask {
        uuid: Some(Uuid::from_u128(5)),
        balance: Some(-40),
        ..Default::default()
    }];
    plan.apply(&mut tasks);
    assert_eq!(tasks[0].user_id, Some(1));
    assert_eq!(tasks[0].balance, Some(-40));

    let plan = UserMeetDate::change_handler(&directory(), "Agent B".to_string(), ids(&[5])).unwrap();
    let mut meetings = vec![UserMeetDate {
        uuid: Some(Uuid::from_u128(6)),
        user_id: Some(1),
        ..Default::default()
    }];
    plan.apply(&mut meetings);
    assert_eq!(meetings[0].user_id, Some(1));

    let plan = Lead::change_handler(&directory(), "Agent B".to_string(), ids(&[5, 6])).unwrap();
    assert_eq!(plan.user_id, 2);
    assert_eq!(plan.uuids.len(), 2);
}
