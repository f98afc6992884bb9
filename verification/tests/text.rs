use axum_playground::services::user::models::UserName;
use axum_playground::text::{contains_char, is_unicode_white_space};

#[test]
fn white_space_is_what_the_standard_library_says() {
    for code in 0..=0x10FFFFu32 {
        if let Some(c) = char::from_u32(code) {
            assert_eq!(c.is_whitespace(), is_unicode_white_space(c), "U+{:04X}", code);
        }
    }
}

#[test]
fn there_are_twenty_five_white_space_characters() {
    let count = (0..=0x10FFFFu32)
        .filter_map(char::from_u32)
        .filter(|c| is_unicode_white_space(*c))
        .count();
    assert_eq!(25, count);
}

#[test]
fn every_white_space_character_is_trimmed_away() {
    for c in (0..=0x10FFFFu32).filter_map(char::from_u32) {
        let padded = format!("{}x y{}", c, c);
        let name = UserName::from_str(&padded).unwrap();
        if is_unicode_white_space(c) {
            assert_eq!("x y", name.as_ref());
        } else {
            assert_eq!(padded, name.as_ref());
        }
    }
}

#[test]
fn a_character_is_found_where_it_occurs() {
    assert!(contains_char("some@email.com", '@'));
    assert!(contains_char("@", '@'));
    assert!(contains_char("a@", '@'));
    assert!(!contains_char("not an email address", '@'));
    assert!(!contains_char("", '@'));
    assert!(contains_char("na\u{ef}ve", '\u{ef}'));
}
