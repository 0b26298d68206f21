use session_auth::errors::{FieldErrors, MyError, StoreError};

#[test]
fn each_kind_has_its_status() {
    assert_eq!(MyError::Unauthorized("x".to_string()).status(), 401);
    assert_eq!(MyError::Forbidden("x".to_string()).status(), 403);
    assert_eq!(MyError::NotFound("x".to_string()).status(), 404);
    assert_eq!(MyError::UnprocessableEntity(Vec::new()).status(), 422);
    assert_eq!(MyError::InternalServerError.status(), 500);
}

#[test]
fn the_named_failures_carry_their_messages() {
    assert_eq!(MyError::new_unauthorized(), MyError::Unauthorized("Unauthorized".to_string()));
    assert_eq!(
        MyError::invalid_token(),
        MyError::Unauthorized("An issue was found with the token provided".to_string())
    );
    assert_eq!(
        MyError::credentials_mismatch(),
        MyError::Unauthorized("Name and password do not match".to_string())
    );
    assert_eq!(
        MyError::refresh_mismatch(),
        MyError::Unauthorized("Refresh token do not match".to_string())
    );
}

#[test]
fn a_missing_row_is_not_found_and_the_rest_is_internal() {
    assert_eq!(
        MyError::from_store(StoreError::RowNotFound),
        MyError::NotFound("Entity not found".to_string())
    );
    assert_eq!(MyError::from_store(StoreError::Other), MyError::InternalServerError);
    assert_eq!(MyError::from_store(StoreError::RowNotFound).status(), 404);
    assert_eq!(MyError::from_store(StoreError::Other).status(), 500);
}

#[test]
fn an_internal_failure_shows_no_cause() {
    assert_eq!(
        MyError::InternalServerError.message(),
        Some("Internal Server Error".to_string())
    );
}

#[test]
fn the_message_is_the_detail() {
    assert_eq!(MyError::Unauthorized("a".to_string()).message(), Some("a".to_string()));
    assert_eq!(MyError::Forbidden("b".to_string()).message(), Some("b".to_string()));
    assert_eq!(MyError::NotFound("c".to_string()).message(), Some("c".to_string()));
    assert_eq!(MyError::UnprocessableEntity(Vec::new()).message(), None);
}

#[test]
fn a_field_failure_lists_one_field_with_one_message() {
    assert_eq!(
        MyError::invalid_field("name", "too short"),
        MyError::UnprocessableEntity(vec![FieldErrors {
            field: "name".to_string(),
            messages: vec!["too short".to_string()],
        }])
    );
}
