use crm_core::models::user::{ManagerChange, SubUserRow, User, UserRole};
use crm_core::utils::error::CoreError;

fn stored(role: &str) -> Option<String> {
    Some(role.to_string())
}

#[test]
fn roles_are_ordered() {
    assert!(UserRole::Agent < UserRole::Manager);
    assert!(UserRole::Manager < UserRole::Leader);
    assert!(UserRole::Agent < UserRole::Leader);
    assert_eq!(UserRole::Agent.level(), 0);
    assert_eq!(UserRole::Manager.level(), 1);
    assert_eq!(UserRole::Leader.level(), 2);
    let all = [UserRole::Agent, UserRole::Manager, UserRole::Leader];
    for a in all {
        for b in all {
            assert_eq!(a.at_least(b), a >= b);
        }
    }
}

#[test]
fn role_is_read_from_its_spelling() {
    assert_eq!(UserRole::from("Leader".to_string()), UserRole::Leader);
    assert_eq!(UserRole::from("Manager".to_string()), UserRole::Manager);
    assert_eq!(UserRole::from("Agent".to_string()), UserRole::Agent);
    for role in [UserRole::Agent, UserRole::Manager, UserRole::Leader] {
        assert_eq!(UserRole::parse(role.as_str()), role);
        assert_eq!(UserRole::from(role.to_string()), role);
    }
}

#[test]
fn unknown_role_spelling_reads_as_agent() {
    assert_eq!(UserRole::from("".to_string()), UserRole::Agent);
    assert_eq!(UserRole::from("leader".to_string()), UserRole::Agent);
    assert_eq!(UserRole::from("Leader ".to_string()), UserRole::Agent);
    assert_eq!(UserRole::from("Director".to_string()), UserRole::Agent);
}

#[test]
fn manager_is_required() {
    assert_eq!(User::require_role(UserRole::Manager, stored("Manager")), Ok(()));
    assert_eq!(User::require_role(UserRole::Manager, stored("Leader")), Ok(()));
    assert_eq!(
        User::require_role(UserRole::Manager, stored("Agent")),
        Err(CoreError::Forbidden)
    );
}

#[test]
fn leader_is_required() {
    assert_eq!(User::require_role(UserRole::Leader, stored("Leader")), Ok(()));
    assert_eq!(
        User::require_role(UserRole::Leader, stored("Manager")),
        Err(CoreError::Forbidden)
    );
    assert_eq!(
        User::require_role(UserRole::Leader, stored("Agent")),
        Err(CoreError::Forbidden)
    );
}

#[test]
fn agent_is_required() {
    for role in ["Agent", "Manager", "Leader", "anything"] {
        assert_eq!(User::require_role(UserRole::Agent, stored(role)), Ok(()));
    }
}

#[test]
fn unknown_actor_is_refused() {
    for min in [UserRole::Agent, UserRole::Manager, UserRole::Leader] {
        assert_eq!(User::require_role(min, None), Err(CoreError::ActorNotFound));
    }
    assert_eq!(User::get_role(None), Err(CoreError::ActorNotFound));
    assert_eq!(User::get_role(stored("Leader")), Ok(UserRole::Leader));
}

#[test]
fn role_is_checked_anew_for_every_call() {
    assert_eq!(User::require_role(UserRole::Leader, stored("Leader")), Ok(()));
    assert_eq!(
        User::require_role(UserRole::Leader, stored("Agent")),
        Err(CoreError::Forbidden)
    );
}

#[test]
fn manager_change_infers_the_role() {
    assert_eq!(
        ManagerChange::to(Some(4)),
        ManagerChange { manager_id: Some(4), user_role: UserRole::Agent }
    );
    assert_eq!(
        ManagerChange::to(None),
        ManagerChange { manager_id: None, user_role: UserRole::Manager }
    );
    assert_eq!(
        User::modify_manager(true, Some(4)),
        Ok(ManagerChange { manager_id: Some(4), user_role: UserRole::Agent })
    );
    assert_eq!(
        User::modify_manager(false, Some(4)),
        Err(CoreError::NotFound(crm_core::utils::error::Entity::User))
    );
}

fn sub_row(id: i32, manager_id: Option<i32>, name: &str, role: &str) -> SubUserRow {
    SubUserRow {
        id,
        manager_id,
        uuid: None,
        full_name: name.to_string(),
        user_role: role.to_string(),
    }
}

fn organisation() -> Vec<SubUserRow> {
    vec![
        sub_row(1, None, "Lea", "Leader"),
        sub_row(2, Some(1), "Max", "Manager"),
        sub_row(3, Some(2), "Ann", "Agent"),
        sub_row(4, Some(2), "Bob", "Agent"),
        sub_row(5, Some(1), "Mia", "Manager"),
        sub_row(6, Some(5), "Cid", "Agent"),
    ]
}

fn names(users: Vec<User>) -> Vec<String> {
    users.into_iter().map(|u| u.info.full_name.unwrap()).collect()
}

#[test]
fn leader_sees_by_lowest_role() {
    let rows = organisation();
    let any = User::get_sub_users(stored("Leader"), 1, "Any".to_string(), &rows).unwrap();
    assert_eq!(names(any), ["Lea", "Max", "Ann", "Bob", "Mia", "Cid"]);
    let managers = User::get_sub_users(stored("Leader"), 1, "Manager".to_string(), &rows).unwrap();
    assert_eq!(names(managers), ["Lea", "Max", "Mia"]);
    let leaders = User::get_sub_users(stored("Leader"), 1, "Leader".to_string(), &rows).unwrap();
    assert_eq!(names(leaders), ["Lea"]);
    let none = User::get_sub_users(stored("Leader"), 1, "Agent".to_string(), &rows).unwrap();
    assert!(none.is_empty());
}

#[test]
fn manager_sees_itself_and_its_reports() {
    let rows = organisation();
    let any = User::get_sub_users(stored("Manager"), 2, "Any".to_string(), &rows).unwrap();
    assert_eq!(names(any), ["Max", "Ann", "Bob"]);
    let managers = User::get_sub_users(stored("Manager"), 2, "Manager".to_string(), &rows).unwrap();
    assert_eq!(names(managers), ["Max"]);
    let leaders = User::get_sub_users(stored("Manager"), 2, "Leader".to_string(), &rows).unwrap();
    assert_eq!(names(leaders), ["Max"]);
}

#[test]
fn agent_sees_itself_alone() {
    let rows = organisation();
    let seen = User::get_sub_users(stored("Agent"), 3, "Any".to_string(), &rows).unwrap();
    assert_eq!(seen.len(), 1);
    assert_eq!(seen[0].info.full_name.as_deref(), Some("Ann"));
    assert_eq!(seen[0].user_role, Some(UserRole::Agent));
    assert_eq!(
        User::get_sub_users(None, 3, "Any".to_string(), &rows).unwrap_err(),
        CoreError::ActorNotFound
    );
}
