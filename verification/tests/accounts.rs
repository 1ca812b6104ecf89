use crm_core::models::identity::Uuid;
use crm_core::models::user::{Account, Credentials, User, UserRole, UserRow};
use crm_core::models::user_info::UserInfo;
use crm_core::utils::encrypt::KEY_LEN;
use crm_core::utils::error::{CoreError, Entity, Field};
use crm_core::utils::password_hashing::{hash_password, verify_password};
use crm_core::web_data::{ConfigError, WebData};

fn registration(email: &str, username: &str, manager: Option<u128>) -> User {
    User {
        email: Some(email.to_string()),
        username: Some(username.to_string()),
        password: Some("correct horse".to_string()),
        info: UserInfo { full_name: Some("Nagy Béla".to_string()), ..Default::default() },
        manager_uuid: manager.map(Uuid::from_u128),
        ..Default::default()
    }
}

fn accounts() -> Vec<Account> {
    vec![Account { email: "taken@x.com".to_string(), username: "taken".to_string() }]
}

#[test]
fn password_hash_verifies() {
    let hashed = hash_password("correct horse").unwrap();
    assert_ne!(hashed, "correct horse");
    assert!(hashed.starts_with("$argon2"));
    assert!(verify_password("correct horse", &hashed));
    assert!(!verify_password("wrong horse", &hashed));
    assert!(!verify_password("", &hashed));
    assert_ne!(hash_password("correct horse").unwrap(), hashed);
}

#[test]
fn malformed_hash_matches_nothing() {
    assert!(!verify_password("x", ""));
    assert!(!verify_password("x", "x"));
    assert!(!verify_password("x", "not a hash"));
}

#[test]
fn user_with_manager_is_created_an_agent() {
    let stored = User::create(&accounts(), Some(2), registration("a@x.com", "a", Some(9))).unwrap();
    assert_eq!(stored.user_role, UserRole::Agent);
    assert_eq!(stored.manager_id, Some(2));
    assert_eq!(stored.email.as_deref(), Some("a@x.com"));
    assert_eq!(stored.username.as_deref(), Some("a"));
    assert_eq!(stored.info.full_name.as_deref(), Some("Nagy Béla"));
    assert!(verify_password("correct horse", &stored.password));
    // The role follows the link of the request, found or not.
    let stored = User::create(&accounts(), None, registration("a@x.com", "a", Some(9))).unwrap();
    assert_eq!(stored.user_role, UserRole::Agent);
    assert_eq!(stored.manager_id, None);
}

#[test]
fn user_without_manager_is_created_a_manager() {
    let stored = User::create(&accounts(), None, registration("a@x.com", "a", None)).unwrap();
    assert_eq!(stored.user_role, UserRole::Manager);
    assert_eq!(stored.manager_id, None);
}

#[test]
fn taken_email_or_username_is_refused() {
    let taken = CoreError::AlreadyExists(Entity::User);
    assert_eq!(
        User::create(&accounts(), None, registration("taken@x.com", "a", None)).unwrap_err(),
        taken
    );
    assert_eq!(
        User::create(&accounts(), None, registration("a@x.com", "taken", None)).unwrap_err(),
        taken
    );
    assert!(User::is_exists(&accounts(), &registration("taken@x.com", "a", None)));
    assert!(!User::is_exists(&accounts(), &registration("a@x.com", "a", None)));
    assert!(!User::is_exists(&accounts(), &User::default()));
    let mut no_password = registration("a@x.com", "a", None);
    no_password.password = None;
    assert_eq!(
        User::create(&accounts(), None, no_password).unwrap_err(),
        CoreError::MissingField(Field::Password)
    );
}

#[test]
fn sign_in_checks_the_password() {
    let hashed = hash_password("correct horse").unwrap();
    let found = || Some(Credentials { id: 17, password: hashed.clone() });
    let attempt = |password: Option<&str>| User {
        username: Some("bela".to_string()),
        password: password.map(|p| p.to_string()),
        ..Default::default()
    };
    assert_eq!(User::sign_in_with_username(found(), attempt(Some("correct horse"))), Ok(17));
    assert_eq!(
        User::sign_in_with_username(found(), attempt(Some("wrong"))),
        Err(CoreError::WrongPassword)
    );
    assert_eq!(
        User::sign_in_with_username(found(), attempt(None)),
        Err(CoreError::MissingField(Field::Password))
    );
    assert_eq!(
        User::sign_in_with_username(None, attempt(Some("correct horse"))),
        Err(CoreError::NotFound(Entity::User))
    );
    assert_eq!(User::grant(3, true), Ok(3));
    assert_eq!(User::grant(3, false), Err(CoreError::WrongPassword));
}

fn user_row(role: &str) -> UserRow {
    UserRow {
        uuid: Some(Uuid::from_u128(4)),
        email: Some("b@x.com".to_string()),
        username: Some("bela".to_string()),
        user_role: role.to_string(),
        manager_uuid: Some(Uuid::from_u128(1)),
        full_name: "Nagy Béla".to_string(),
        phone_number: "+3620".to_string(),
        hufa_code: "H1".to_string(),
        agent_code: "A1".to_string(),
    }
}

#[test]
fn user_rows_are_read() {
    let user = User::from_row(&user_row("Manager"));
    assert_eq!(user.uuid, Some(Uuid::from_u128(4)));
    assert_eq!(user.user_role, Some(UserRole::Manager));
    assert_eq!(user.manager_uuid, Some(Uuid::from_u128(1)));
    assert_eq!(user.email.as_deref(), Some("b@x.com"));
    assert_eq!(user.info.full_name.as_deref(), Some("Nagy Béla"));
    assert_eq!(user.info.hufa_code.as_deref(), Some("H1"));
    assert_eq!(user.info.agent_code.as_deref(), Some("A1"));
    assert_eq!(user.password, None);
    assert_eq!(User::from_row(&user_row("???")).user_role, Some(UserRole::Agent));
    let rows = vec![user_row("Leader"), user_row("Agent")];
    let users = User::get_users(true, &rows).unwrap();
    assert_eq!(users.len(), 2);
    assert_eq!(users[0].user_role, Some(UserRole::Leader));
    let missing = CoreError::NotFound(Entity::User);
    assert_eq!(User::get_users(false, &rows).unwrap_err(), missing);
    assert_eq!(User::get_users_by_id(Some(1), &rows).unwrap().len(), 2);
    assert_eq!(User::get_users_by_id(None, &rows).unwrap_err(), missing);
    assert_eq!(User::get_info_by_id(Some(&rows[1])).unwrap().user_role, Some(UserRole::Agent));
    assert_eq!(User::get_info_by_id(None).unwrap_err(), missing);
}

#[test]
fn secrets_are_read_from_configuration() {
    // 32 bytes of 0x01 in base64.
    let data = WebData::new("AQEBAQEBAQEBAQEBAQEBAQEBAQEBAQEBAQEBAQEBAQE=", "titok").unwrap();
    assert_eq!(data.key.as_bytes(), &[1u8; KEY_LEN]);
    assert_eq!(data.hmac_secret, "titok".as_bytes());
    let data = WebData::new("AAECAwQFBgcICQoLDA0ODxAREhMUFRYXGBkaGxwdHh8=", "ő").unwrap();
    let expected: Vec<u8> = (0u8..32).collect();
    assert_eq!(data.key.as_bytes(), &expected[..]);
    assert_eq!(data.hmac_secret, vec![0xc5, 0x91]);
}

#[test]
fn unusable_key_ends_the_start() {
    assert_eq!(WebData::new("not base64!", "s").err(), Some(ConfigError::KeyNotBase64));
    assert_eq!(WebData::new("AQEB", "s").err(), Some(ConfigError::KeyLength));
    assert_eq!(WebData::new("", "s").err(), Some(ConfigError::KeyLength));
    assert_eq!(
        WebData::new("AQEBAQEBAQEBAQEBAQEBAQEBAQEBAQEBAQEBAQEBAQEB", "s").err(),
        Some(ConfigError::KeyLength)
    );
    assert_eq!(WebData::from_parts(None, "s").err(), Some(ConfigError::KeyNotBase64));
    assert_eq!(WebData::from_parts(Some(vec![0; 31]), "s").err(), Some(ConfigError::KeyLength));
    assert!(WebData::from_parts(Some(vec![0; 32]), "").is_ok());
}

#[test]
fn blind_index_secret_must_not_be_the_key() {
    let same = "0123456789abcdef0123456789abcdef";
    assert_eq!(
        WebData::from_parts(Some(same.as_bytes().to_vec()), same).err(),
        Some(ConfigError::SecretIsKey)
    );
    assert_eq!(
        WebData::new("MDEyMzQ1Njc4OWFiY2RlZjAxMjM0NTY3ODlhYmNkZWY=", same).err(),
        Some(ConfigError::SecretIsKey)
    );
    assert!(WebData::from_parts(Some(same.as_bytes().to_vec()), "0123456789abcdef0123456789abcdeF")
        .is_ok());
}
