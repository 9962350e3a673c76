use user_registry::password::verify_password_from_hash;
use user_registry::prelude::{ServiceError, ValidationError};
use user_registry::user::User;

fn demo_user() -> User {
    User::new(
        "demo".into(),
        "user".into(),
        "demo@user.com".into(),
        "".into(),
        "".into(),
    )
    .unwrap()
}

#[test]
fn test_user_id() {
    let mut user: User = demo_user();
    assert_eq!(user.get_user_id(), "demo");
    assert_eq!(user.set_user_id("de".into()).is_err(), true);
    assert_eq!(user.get_user_id(), "demo");
}

#[test]
fn test_user_email() {
    let mut user: User = demo_user();
    assert_eq!(user.set_user_email("demo@demo.com".into()).is_ok(), true);
    assert_eq!(user.set_user_email("wohoo".into()).is_err(), true);
    assert_eq!(user.set_user_email("demo@company.com".into()).is_ok(), true);
    assert_eq!(user.get_user_email(), "demo@company.com");
}

#[test]
fn test_user_name() {
    let mut user: User = demo_user();
    assert_eq!(user.get_user_name(), "user");
    assert_eq!(user.set_user_name("abc".into()).is_err(), true);
    assert_eq!(user.set_user_name("Demo User".into()).is_ok(), true);
    assert_eq!(user.set_user_name("Hello World".into()).is_ok(), true);
    assert_eq!(user.get_user_name(), "Hello World");
}

#[test]
fn test_user_phone() {
    let mut user: User = demo_user();
    let phone_number: &str = "+99 (701) 479 397129";
    assert_eq!(user.get_user_phone(), "");
    assert_eq!(user.set_user_phone(phone_number.into()).is_ok(), true);
    assert_eq!(user.set_user_phone("phn".into()).is_err(), true);
    assert_eq!(user.get_user_phone(), phone_number);
}

#[test]
fn test_user_set_password() {
    let mut user: User = demo_user();
    let password: &str = "HelloWorld749";
    assert_eq!(user.get_password_hash(), "");
    assert_eq!(user.set_password("pass".into()).is_ok(), false);
    assert_eq!(user.set_password("PAss7".into()).is_ok(), true);
    assert_eq!(user.set_password("password".into()).is_ok(), false);
    assert_eq!(user.set_password("Password".into()).is_ok(), false);
    assert_eq!(user.set_password("PAssword".into()).is_ok(), false);
    assert_eq!(user.set_password("PAssword7".into()).is_ok(), true);
    assert_eq!(user.set_password(password.into()).is_ok(), true);
    assert_eq!(
        verify_password_from_hash(password, user.get_password_hash()).unwrap(),
        true
    );
}

#[test]
fn construct_lowercases_id_and_email_and_keeps_the_rest() {
    let user = User::new(
        "Demo_USER1".into(),
        "Valid Name".into(),
        "Demo@Example.COM".into(),
        "+36 1 234 5678".into(),
        "Admin".into(),
    )
    .unwrap();
    assert_eq!(user.get_user_id(), "demo_user1");
    assert_eq!(user.get_id(), "demo_user1");
    assert_eq!(user.get_user_email(), "demo@example.com");
    assert_eq!(user.get_user_name(), "Valid Name");
    assert_eq!(user.get_user_phone(), "+36 1 234 5678");
    assert_eq!(user.get_created_by(), "Admin");
    assert_eq!(user.get_password_hash(), "");
    assert!(user.get_customers().is_empty());
    assert!(user.get_date_created() > 1_500_000_000);
}

#[test]
fn construct_rejects_short_id_with_length_error() {
    let r = User::new("ab".into(), "Valid Name".into(), "a@b.co".into(), "".into(), "x".into());
    let e = r.unwrap_err();
    assert_eq!(e, ValidationError::IdLength);
    assert!(e.is_length());
    assert!(!e.is_format());
    assert_eq!(e.field(), "id");
}

#[test]
fn construct_rejects_bad_email_with_format_error() {
    let r = User::new(
        "valid_id".into(),
        "Valid Name".into(),
        "not-an-email".into(),
        "".into(),
        "x".into(),
    );
    let e = r.unwrap_err();
    assert_eq!(e, ValidationError::EmailFormat);
    assert!(e.is_format());
    assert!(!e.is_length());
}

#[test]
fn construct_checks_rules_in_order() {
    let long_id = "a".repeat(21);
    let r = User::new(long_id, "x".into(), "bad".into(), "".into(), "".into());
    assert_eq!(r.unwrap_err(), ValidationError::IdLength);
    let r = User::new("bad-id".into(), "x".into(), "bad".into(), "".into(), "".into());
    assert_eq!(r.unwrap_err(), ValidationError::IdCharset);
    let r = User::new("good_id".into(), "x".into(), "ab".into(), "".into(), "".into());
    assert_eq!(r.unwrap_err(), ValidationError::EmailLength);
    let long_email = format!("{}@b.co", "a".repeat(46));
    let r = User::new("good_id".into(), "x".into(), long_email, "".into(), "".into());
    assert_eq!(r.unwrap_err(), ValidationError::EmailLength);
    let r = User::new("good_id".into(), "x".into(), "a@b.co".into(), "".into(), "".into());
    assert_eq!(r.unwrap_err(), ValidationError::NameLength);
    let long_name = "n".repeat(41);
    let r = User::new("good_id".into(), long_name, "a@b.co".into(), "".into(), "".into());
    assert_eq!(r.unwrap_err(), ValidationError::NameLength);
}

#[test]
fn construct_accepts_bounds() {
    assert!(User::new("abcd".into(), "ab".into(), "a@.".into(), "".into(), "".into()).is_ok());
    let id = "a".repeat(20);
    let name = "n".repeat(40);
    let email = format!("{}@b.co", "a".repeat(45));
    assert!(User::new(id, name, email, "".into(), "".into()).is_ok());
}

#[test]
fn from_normalized_keeps_given_time() {
    let u = User::from_normalized(
        "demo".into(),
        "user".into(),
        "demo@user.com".into(),
        "".into(),
        "me".into(),
        42,
    )
    .unwrap();
    assert_eq!(u.get_date_created(), 42);
    assert_eq!(u.get_created_by(), "me");
    let e = User::from_normalized("ab".into(), "user".into(), "a@b.co".into(), "".into(), "".into(), 0);
    assert_eq!(e.unwrap_err(), ValidationError::IdLength);
}

#[test]
fn set_user_id_lowercases() {
    let mut user = demo_user();
    assert!(user.set_user_id("New_ID_1".into()).is_ok());
    assert_eq!(user.get_user_id(), "new_id_1");
    assert_eq!(user.set_user_id("abcde".into()), Err(ValidationError::IdLength));
}

#[test]
fn email_update_errors_name_the_rule() {
    let mut user = demo_user();
    assert_eq!(user.set_user_email("wohoo".into()), Err(ValidationError::EmailFormat));
    assert_eq!(user.set_user_email("a@b.c".into()), Err(ValidationError::EmailLength));
    assert_eq!(user.set_user_phone("12345".into()), Err(ValidationError::PhoneLength));
    assert_eq!(user.set_user_name("abcd".into()), Err(ValidationError::NameLength));
    assert_eq!(user.get_user_email(), "demo@user.com");
}

#[test]
fn update_is_all_or_nothing() {
    let mut user = demo_user();
    let r = user.update("Hello World".into(), "new@mail.com".into(), "123".into());
    assert_eq!(r, Err(ValidationError::PhoneLength));
    assert_eq!(user.get_user_name(), "user");
    assert_eq!(user.get_user_email(), "demo@user.com");
    assert_eq!(user.get_user_phone(), "");
    let r = user.update("abc".into(), "bad".into(), "123".into());
    assert_eq!(r, Err(ValidationError::NameLength));
    let r = user.update("Hello World".into(), "New@Mail.COM".into(), "123456".into());
    assert!(r.is_ok());
    assert_eq!(user.get_user_name(), "Hello World");
    assert_eq!(user.get_user_email(), "new@mail.com");
    assert_eq!(user.get_user_phone(), "123456");
}

#[test]
fn set_password_then_verify() {
    let mut user = demo_user();
    let weak = user.set_password("weak".into());
    assert_eq!(weak, Err(ServiceError::Invalid(ValidationError::WeakPassword)));
    assert_eq!(user.get_password_hash(), "");
    assert!(user.set_password("Str0ngPass1".into()).is_ok());
    let stored = user.get_password_hash().to_string();
    assert_eq!(stored.len(), 60);
    assert_eq!(verify_password_from_hash("Str0ngPass1", &stored), Ok(true));
    assert_eq!(verify_password_from_hash("wrong", &stored), Ok(false));
}

#[test]
fn invalidate_and_reset_password() {
    let mut user = demo_user();
    assert!(user.set_password("Str0ngPass1".into()).is_ok());
    assert!(matches!(user.reset_password(), Err(ServiceError::Unsupported(_))));
    assert_eq!(user.get_password_hash().len(), 60);
    user.invalidate_credential();
    assert_eq!(user.get_password_hash(), "");
}

#[test]
fn snapshot_equals_original() {
    let user = demo_user();
    let copy = user.snapshot();
    assert_eq!(copy.get_user_id(), user.get_user_id());
    assert_eq!(copy.get_user_email(), user.get_user_email());
    assert_eq!(copy.get_date_created(), user.get_date_created());
}

#[test]
fn from_stored_keeps_every_field() {
    let u = User::from_stored(
        "stored".into(),
        "Stored Name".into(),
        "s@t.org".into(),
        "123456".into(),
        "h".into(),
        7,
        "boss".into(),
        vec!["c1".to_string(), "c2".to_string()],
    );
    assert_eq!(u.get_user_id(), "stored");
    assert_eq!(u.get_password_hash(), "h");
    assert_eq!(u.get_date_created(), 7);
    assert_eq!(u.get_customers(), &vec!["c1".to_string(), "c2".to_string()]);
    let c = u.snapshot();
    assert_eq!(c.get_customers(), &vec!["c1".to_string(), "c2".to_string()]);
}

#[test]
fn changed_email_is_lowercased() {
    let mut user = demo_user();
    assert!(user.set_user_email("Demo@Company.COM".into()).is_ok());
    assert_eq!(user.get_user_email(), "demo@company.com");
    let mut other = demo_user();
    assert!(other.update_normalized("Hello World".into(), "a@b.com".into(), "123456".into()).is_ok());
    assert_eq!(other.get_user_email(), "a@b.com");
    assert_eq!(
        other.update_normalized("Hello World".into(), "ab.com".into(), "123456".into()),
        Err(ValidationError::EmailFormat)
    );
}

#[test]
fn validation_error_descriptions() {
    assert_eq!(ValidationError::IdLength.field(), "id");
    assert_eq!(ValidationError::EmailFormat.field(), "email");
    assert_eq!(ValidationError::WeakPassword.field(), "password");
    assert_eq!(ValidationError::PhoneLength.describe(), "phone must be longer than 5 characters");
    let e = ServiceError::invalid(ValidationError::NameLength);
    assert_eq!(e, ServiceError::Invalid(ValidationError::NameLength));
    assert_eq!(e.message(), "name is too short or too long");
    assert!(e.is_input_error());
    assert!(ServiceError::bad_request("no payload").is_input_error());
    assert!(!ServiceError::not_found("x").is_input_error());
}
