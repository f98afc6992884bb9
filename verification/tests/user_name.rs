use axum_playground::error::DemoError;
use axum_playground::services::user::models::UserName;

fn refusal(value: &str) -> String {
    match UserName::from_str(value) {
        Err(DemoError::Validation { message }) => message,
        Err(other) => panic!("another error than a validation: {}", other.message()),
        Ok(name) => panic!("accepted as {}", name.as_ref()),
    }
}

#[test]
fn a_user_name_is_stored_trimmed() {
    let name = UserName::from_str("  Jon Jonsson \n").unwrap();
    assert_eq!("Jon Jonsson", name.as_ref());
}

#[test]
fn a_user_name_keeps_its_inner_white_space() {
    let name = UserName::from_str("\u{2003}Jon \t Jonsson\u{3000}").unwrap();
    assert_eq!("Jon \t Jonsson", name.as_ref());
}

#[test]
fn an_empty_user_name_is_refused() {
    assert_eq!("User name cannot be empty", refusal(""));
    assert_eq!("User name cannot be empty", refusal(" \t \r\n"));
    assert_eq!("User name cannot be empty", refusal("\u{a0}\u{1680}\u{2028}\u{205f}"));
}

#[test]
fn a_zero_width_space_is_no_white_space() {
    let name = UserName::from_str("\u{200b}").unwrap();
    assert_eq!("\u{200b}", name.as_ref());
}

#[test]
fn users_cannot_be_created_when_a_user_name_too_long_is_provided() {
    let refused = UserName::from_str(
        "Oh long Jonsson this is an incredibly long name that should never be accepted as valid as long as there's fresh water on planet earth",
    );
    assert!(matches!(&refused, Err(DemoError::Validation { .. })));
    assert_eq!(422, refused.unwrap_err().status_code());
}

#[test]
fn a_user_name_of_a_hundred_graphemes_is_the_longest() {
    let longest = "a".repeat(100);
    assert_eq!(longest, UserName::from_str(&longest).unwrap().as_ref());
    assert_eq!(
        "User name is too long. Maximum valid length is 100",
        refusal(&"a".repeat(101))
    );
}

#[test]
fn the_length_of_a_user_name_is_counted_after_trimming() {
    let padded = format!("{}{}{}", " ".repeat(50), "a".repeat(100), " ".repeat(50));
    assert_eq!("a".repeat(100), UserName::from_str(&padded).unwrap().as_ref());
}

#[test]
fn the_length_of_a_user_name_is_counted_in_graphemes() {
    let accented = "e\u{301}".repeat(100);
    assert_eq!(200, accented.chars().count());
    assert_eq!(accented, UserName::from_str(&accented).unwrap().as_ref());
    assert_eq!(
        "User name is too long. Maximum valid length is 100",
        refusal(&"e\u{301}".repeat(101))
    );
}

#[test]
fn a_user_name_parses_like_it_is_made() {
    let parsed: UserName = " Jon ".parse().unwrap();
    assert_eq!("Jon", parsed.as_ref());
    assert!(" ".parse::<UserName>().is_err());
}

#[test]
fn the_default_user_name() {
    assert_eq!("John Doe", UserName::default().as_ref());
    assert_eq!("John Doe", UserName::default().clone().as_ref());
}

#[test]
fn a_user_name_is_made_by_the_standard_trait_too() {
    let name = <UserName as std::str::FromStr>::from_str("  Jon Jonsson ").unwrap();
    assert_eq!("Jon Jonsson", <UserName as AsRef<str>>::as_ref(&name));
    let refused = <UserName as std::str::FromStr>::from_str(&"a".repeat(101));
    assert!(matches!(
        refused,
        Err(DemoError::Validation { message })
            if message == "User name is too long. Maximum valid length is 100"
    ));
}
