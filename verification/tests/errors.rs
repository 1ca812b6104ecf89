use crm_core::utils::error::{ApiError, CoreError, Entity, Field};

#[test]
fn api_error_status_codes() {
    assert_eq!(ApiError::Validation("v".to_string()).status_code(), 400);
    assert_eq!(ApiError::Unauthorized("u".to_string()).status_code(), 401);
    assert_eq!(ApiError::Forbidden("f".to_string()).status_code(), 403);
    assert_eq!(ApiError::NotFound("n".to_string()).status_code(), 404);
    assert_eq!(ApiError::Conflict("c".to_string()).status_code(), 409);
    assert_eq!(ApiError::Internal.status_code(), 500);
}

#[test]
fn api_error_printed_form() {
    assert_eq!(ApiError::Validation("bad".to_string()).to_string(), "validation error: bad");
    assert_eq!(ApiError::NotFound("gone".to_string()).to_string(), "not found: gone");
    assert_eq!(ApiError::Unauthorized("who".to_string()).to_string(), "unauthorized: who");
    assert_eq!(ApiError::Forbidden("no".to_string()).to_string(), "forbidden: no");
    assert_eq!(ApiError::Conflict("twice".to_string()).to_string(), "conflict: twice");
    assert_eq!(ApiError::Internal.to_string(), "internal server error");
}

#[test]
fn api_error_body() {
    assert_eq!(ApiError::Validation("bad".to_string()).error_body(), "bad");
    assert_eq!(ApiError::Conflict("".to_string()).error_body(), "");
    assert_eq!(ApiError::Internal.error_body(), "internal server error");
}

fn status_and_body(error: CoreError) -> (u16, String) {
    let api = ApiError::from_core(error);
    (api.status_code(), api.error_body())
}

#[test]
fn core_errors_map_to_status_classes() {
    assert_eq!(
        status_and_body(CoreError::ActorNotFound),
        (404, "Felhasználó nem található!".to_string())
    );
    assert_eq!(
        status_and_body(CoreError::AlreadyExists(Entity::Customer)),
        (409, "Az ügyfél már szerepel az adatbázisban.".to_string())
    );
    assert_eq!(
        status_and_body(CoreError::AlreadyExists(Entity::Recruitment)),
        (409, "A jelölt már szerepel!".to_string())
    );
    assert_eq!(
        status_and_body(CoreError::Forbidden),
        (403, "Ehez a folyamathoz nincs jogosultságod!".to_string())
    );
    assert_eq!(
        status_and_body(CoreError::NotFound(Entity::Customer)),
        (404, "Nem létező ügyfél".to_string())
    );
    assert_eq!(
        status_and_body(CoreError::MissingField(Field::City)),
        (400, "Település megadása kötelező!".to_string())
    );
    assert_eq!(
        status_and_body(CoreError::FieldTooLong(Field::Email)),
        (400, "Túl hosszú email!".to_string())
    );
    assert_eq!(status_and_body(CoreError::WrongPassword), (401, "Helytelen jelszó!".to_string()));
    assert_eq!(
        status_and_body(CoreError::Corrupt(Entity::Contract)),
        (500, "internal server error".to_string())
    );
}

#[test]
fn core_error_variants_of_api_error() {
    assert!(matches!(ApiError::from_core(CoreError::ActorNotFound), ApiError::NotFound(_)));
    assert!(matches!(
        ApiError::from_core(CoreError::AlreadyExists(Entity::User)),
        ApiError::Conflict(_)
    ));
    assert!(matches!(ApiError::from_core(CoreError::Forbidden), ApiError::Forbidden(_)));
    assert!(matches!(
        ApiError::from_core(CoreError::MissingField(Field::Email)),
        ApiError::Validation(_)
    ));
    assert!(matches!(ApiError::from_core(CoreError::WrongPassword), ApiError::Unauthorized(_)));
    assert!(matches!(
        ApiError::from_core(CoreError::Corrupt(Entity::Lead)),
        ApiError::Internal
    ));
}

#[test]
fn every_core_error_has_a_message() {
    let entities = [
        Entity::User,
        Entity::Customer,
        Entity::Contact,
        Entity::Recommendation,
        Entity::Recruitment,
        Entity::Contract,
        Entity::Lead,
        Entity::InterventionTask,
        Entity::Meeting,
        Entity::Session,
    ];
    for entity in entities {
        assert!(!CoreError::AlreadyExists(entity).message().is_empty());
        assert!(!CoreError::NotFound(entity).message().is_empty());
        assert_eq!(CoreError::Corrupt(entity).message(), "internal server error");
    }
    for field in [Field::Email, Field::PhoneNumber, Field::Address, Field::City, Field::Password] {
        assert!(!CoreError::MissingField(field).message().is_empty());
        assert!(!CoreError::FieldTooLong(field).message().is_empty());
    }
    assert_eq!(CoreError::Forbidden.message(), "Ehez a folyamathoz nincs jogosultságod!");
}
