use axum_playground::error::DemoError;
use axum_playground::services::user::models::{
    CreateUserPayload, SecretEmailAddress, User, UserId, UserName, UserRaw,
};
use chrono::NaiveDateTime;
use uuid::Uuid;

fn time(text: &str) -> NaiveDateTime {
    NaiveDateTime::parse_from_str(text, "%Y-%m-%d %H:%M:%S").unwrap()
}

fn raw(name: &str, email_address: &str) -> UserRaw {
    UserRaw {
        id: Uuid::from_u128(7),
        name: name.to_owned(),
        email_address: email_address.to_owned(),
        created_at: time("2024-03-01 10:20:30"),
        updated_at: Some(time("2024-03-02 11:00:00")),
    }
}

#[test]
fn a_new_user_was_never_updated() {
    let payload = CreateUserPayload {
        name: UserName::from_str("Jon Jonsson").unwrap(),
        email_address: SecretEmailAddress::from_str("some@email.com").unwrap(),
    };
    let id = UserId::default();
    let user = User::new(id, payload, time("2024-03-01 10:20:30"));
    assert_eq!(id.0, user.id.0);
    assert_eq!("Jon Jonsson", user.name.as_ref());
    assert_eq!("some@email.com", user.email_address.expose_secret());
    assert_eq!(time("2024-03-01 10:20:30"), user.created_at);
    assert_eq!(None, user.updated_at);
}

#[test]
fn a_raw_user_is_validated_and_trimmed() {
    let user = User::try_from(raw(" Jon Jonsson ", "\tsome@email.com")).unwrap();
    assert_eq!(Uuid::from_u128(7), user.id.0);
    assert_eq!("Jon Jonsson", user.name.as_ref());
    assert_eq!("some@email.com", user.email_address.expose_secret());
    assert_eq!(time("2024-03-01 10:20:30"), user.created_at);
    assert_eq!(Some(time("2024-03-02 11:00:00")), user.updated_at);
}

#[test]
fn a_raw_user_with_a_bad_name_is_refused_like_the_name() {
    assert!(matches!(
        User::try_from(raw("  ", "some@email.com")),
        Err(DemoError::Validation { message }) if message == "User name cannot be empty"
    ));
}

#[test]
fn a_raw_user_with_a_bad_email_address_is_refused_like_the_address() {
    assert!(matches!(
        User::try_from(raw("Jon", "not an email address")),
        Err(DemoError::Validation { message }) if message == "Email address must have the @ symbol"
    ));
}

#[test]
fn the_name_of_a_raw_user_is_checked_first() {
    assert!(matches!(
        User::try_from(raw("", "")),
        Err(DemoError::Validation { message }) if message == "User name cannot be empty"
    ));
}

#[test]
fn a_user_comes_back_from_its_raw_counterpart() {
    let user = User::try_from(raw(" Jon Jonsson ", " some@email.com ")).unwrap();
    let counterpart = UserRaw {
        id: user.id.0,
        name: user.name.as_ref().to_owned(),
        email_address: user.email_address.expose_secret().to_owned(),
        created_at: user.created_at,
        updated_at: user.updated_at,
    };
    let back = User::try_from(counterpart).unwrap();
    assert_eq!(user.id.0, back.id.0);
    assert_eq!(user.name.as_ref(), back.name.as_ref());
    assert_eq!(user.email_address.expose_secret(), back.email_address.expose_secret());
    assert_eq!(user.created_at, back.created_at);
    assert_eq!(user.updated_at, back.updated_at);
}

#[test]
fn the_default_user() {
    let user = User::default();
    assert_eq!("John Doe", user.name.as_ref());
    assert_eq!("me@mail.com", user.email_address.expose_secret());
    assert_eq!(NaiveDateTime::default(), user.created_at);
    assert_eq!(None, user.updated_at);
    assert_eq!(Some(uuid::Version::SortRand), user.id.0.get_version());
}

#[test]
fn fresh_ids_differ_and_are_ordered_by_their_making() {
    let first = UserId::default();
    let second = UserId::default();
    assert!(first.0 < second.0);
    assert_eq!(first.0, *first.as_ref());
}

#[test]
fn a_clone_of_a_user_holds_the_same() {
    let user = User::try_from(raw("Jon", "some@email.com")).unwrap();
    let copy = user.clone();
    assert_eq!(user.id.0, copy.id.0);
    assert_eq!("Jon", copy.name.as_ref());
    assert_eq!("some@email.com", copy.email_address.expose_secret());
    assert_eq!(user.created_at, copy.created_at);
    assert_eq!(user.updated_at, copy.updated_at);
}

#[test]
fn a_printed_user_hides_its_email_address() {
    let user = User::try_from(raw("Jon", "some@email.com")).unwrap();
    let printed = format!("{:?}", user);
    assert!(printed.contains("Jon"));
    assert!(!printed.contains("some@email.com"));
}

#[test]
fn the_default_raw_user_is_empty() {
    let empty = UserRaw::default();
    assert_eq!(Uuid::nil(), empty.id);
    assert_eq!("", empty.name);
    assert_eq!("", empty.email_address);
    assert_eq!(None, empty.updated_at);
}

#[test]
fn a_raw_user_converts_by_the_standard_traits_too() {
    let converted: Result<User, DemoError> = raw(" Jon ", "some@email.com").try_into();
    assert_eq!("Jon", converted.unwrap().name.as_ref());
    let refused: Result<User, DemoError> = raw("Jon", "none").try_into();
    assert!(matches!(refused, Err(DemoError::Validation { .. })));
}

#[test]
fn the_values_of_a_user_are_read_by_the_standard_trait_too() {
    let user = User::try_from(raw(" Jon ", " some@email.com ")).unwrap();
    assert_eq!("Jon", <UserName as AsRef<str>>::as_ref(&user.name));
    assert_eq!(Uuid::from_u128(7), *<UserId as AsRef<Uuid>>::as_ref(&user.id));
}
