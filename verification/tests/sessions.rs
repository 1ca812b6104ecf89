use crm_core::utils::error::{CoreError, Entity};
use crm_core::utils::jwt::{bearer_token, Claims};
use crm_core::utils::redis::{format_decimal, Redis, RedisCommand, Token};

#[test]
fn token_is_bound_to_user() {
    let commands = Redis::set_token_to_user(42, "abc", 3600);
    assert_eq!(commands.len(), 2);
    match &commands[0] {
        RedisCommand::Store { key, value } => {
            assert_eq!(key, "abc");
            assert_eq!(value, "user:42");
        }
        other => panic!("unexpected {:?}", other),
    }
    match &commands[1] {
        RedisCommand::Expire { key, seconds } => {
            assert_eq!(key, "abc");
            assert_eq!(*seconds, 3600);
        }
        other => panic!("unexpected {:?}", other),
    }
}

#[test]
fn decimal_spelling() {
    assert_eq!(format_decimal(0), "0");
    assert_eq!(format_decimal(7), "7");
    assert_eq!(format_decimal(10), "10");
    assert_eq!(format_decimal(1203), "1203");
    assert_eq!(format_decimal(4294967295), "4294967295");
    for n in [1u32, 9, 11, 99, 100, 101, 65535, 1000000, 2147483647] {
        assert_eq!(format_decimal(n), n.to_string());
    }
}

#[test]
fn user_is_read_from_stored_value() {
    assert_eq!(Redis::get_user_id_by_token(None), Ok(-1));
    assert_eq!(Redis::get_user_id_by_token(Some("user:42")), Ok(42));
    assert_eq!(Redis::get_user_id_by_token(Some("user:0")), Ok(0));
    assert_eq!(Redis::get_user_id_by_token(Some("user:007")), Ok(7));
    assert_eq!(Redis::get_user_id_by_token(Some("user:2147483647")), Ok(2147483647));
}

#[test]
fn unreadable_stored_value_is_reported() {
    let corrupt = Err(CoreError::Corrupt(Entity::Session));
    assert_eq!(Redis::get_user_id_by_token(Some("")), corrupt);
    assert_eq!(Redis::get_user_id_by_token(Some("user:")), corrupt);
    assert_eq!(Redis::get_user_id_by_token(Some("user")), corrupt);
    assert_eq!(Redis::get_user_id_by_token(Some("User:42")), corrupt);
    assert_eq!(Redis::get_user_id_by_token(Some("user:4a")), corrupt);
    assert_eq!(Redis::get_user_id_by_token(Some("user:-4")), corrupt);
    assert_eq!(Redis::get_user_id_by_token(Some("user:2147483648")), corrupt);
    assert_eq!(Redis::get_user_id_by_token(Some("user:99999999999999999999")), corrupt);
    assert_eq!(Redis::get_user_id_by_token(Some("üser:42")), corrupt);
}

#[test]
fn stored_value_names_its_user_again() {
    for id in [0u32, 1, 9, 10, 12345, 2147483647] {
        let commands = Redis::set_token_to_user(id, "t", 1);
        let value = match &commands[0] {
            RedisCommand::Store { value, .. } => value.clone(),
            other => panic!("unexpected {:?}", other),
        };
        assert_eq!(Redis::get_user_id_by_token(Some(&value)), Ok(id as i32));
    }
}

#[test]
fn token_has_32_letters_and_digits() {
    for _ in 0..20 {
        let token = Token::generate_token();
        assert_eq!(token.chars().count(), 32);
        assert!(token.chars().all(|c| c.is_ascii_alphanumeric()));
    }
    assert_ne!(Token::generate_token(), Token::generate_token());
}

#[test]
fn code_has_six_digits() {
    let mut seen = std::collections::HashSet::new();
    for _ in 0..50 {
        let code = Token::generate_six_digit_number();
        assert_eq!(code.len(), 6);
        assert!(code.chars().all(|c| c.is_ascii_digit()));
        seen.insert(code);
    }
    assert!(seen.len() > 1);
}

#[test]
fn claims_expire_after_three_hours() {
    assert_eq!(Claims::issue(5, 1_700_000_000), Some(Claims { id: 5, exp: 1_700_010_800 }));
    assert_eq!(Claims::issue(5, 0), Some(Claims { id: 5, exp: 10_800 }));
    assert_eq!(Claims::issue(5, -10_800), Some(Claims { id: 5, exp: 0 }));
    assert_eq!(Claims::issue(5, -10_801), None);
    assert_eq!(Claims::issue(5, i64::MAX), None);
    assert_eq!(Claims::issue(5, i64::MAX - 10_799), None);
}

#[test]
fn token_is_taken_from_the_header() {
    assert_eq!(bearer_token("Bearer abc.def.ghi"), "abc.def.ghi");
    assert_eq!(bearer_token("abc.def.ghi"), "abc.def.ghi");
    assert_eq!(bearer_token("Bearer "), "");
    assert_eq!(bearer_token("Bearer"), "Bearer");
    assert_eq!(bearer_token("bearer abc"), "bearer abc");
    assert_eq!(bearer_token("Bearer  abc"), " abc");
    assert_eq!(bearer_token(""), "");
    assert_eq!(bearer_token("Bearer é"), "é");
}

#[test]
fn token_is_spelled_by_its_indices() {
    assert_eq!(Token::from_indices(&[]), "");
    assert_eq!(Token::from_indices(&[0, 25, 26, 51, 52, 61]), "AZaz09");
    assert_eq!(Token::from_indices(&[7, 4, 11, 11, 14]), "HELLO");
    assert_eq!(Token::from_indices(&[0, 0, 0]), "AAA");
    assert_eq!(Token::from_indices(&[62, 63, 113, 123]), "ABz9");
    let alphabet = "ABCDEFGHIJKLMNOPQRSTUVWXYZabcdefghijklmnopqrstuvwxyz0123456789";
    let all: Vec<usize> = (0..62).collect();
    assert_eq!(Token::from_indices(&all), alphabet);
}

#[test]
fn code_is_spelled_by_its_digits() {
    assert_eq!(Token::from_digits(&[]), "");
    assert_eq!(Token::from_digits(&[0, 1, 2, 3, 4, 5]), "012345");
    assert_eq!(Token::from_digits(&[9, 8, 7, 6, 5, 4]), "987654");
    assert_eq!(Token::from_digits(&[0, 0, 0, 0, 0, 0]), "000000");
    assert_eq!(Token::from_digits(&[10, 27, 99]), "079");
}

#[test]
fn missing_record_is_not_found() {
    assert_eq!(CoreError::found(Some(5), Entity::Customer), Ok(5));
    assert_eq!(
        CoreError::found(None::<i32>, Entity::Customer),
        Err(CoreError::NotFound(Entity::Customer))
    );
    assert_eq!(
        CoreError::found(None::<String>, Entity::Meeting),
        Err(CoreError::NotFound(Entity::Meeting))
    );
}
