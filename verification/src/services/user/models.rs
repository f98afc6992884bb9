//! The validated values of a user, the user itself, its unchecked counterpart
//! as storage returns it, and the updates that can be asked for.

use crate::error::DemoError;
use crate::error::DemoErrorView;
use crate::services::user::secret::secret_text;
use crate::services::user::secret::SecretText;
use crate::text::contains_char;
use crate::text::count_graphemes;
use crate::text::grapheme_count;
use crate::text::is_trimmed;
use crate::text::lemma_trimmed;
use crate::text::lemma_trimmed_fixed;
use crate::text::lemma_trimmed_keeps;
use crate::text::trim;
use crate::text::trimmed;
use chrono::NaiveDateTime;
use uuid::Uuid;
use vstd::pervasive::unreached;
use vstd::prelude::*;
use vstd::std_specs::cmp::PartialEqSpecImpl;
use vstd::std_specs::convert::TryFromSpecImpl;

verus! {

/// `uuid::Uuid`, carried through as it is: nothing is read inside it.
#[verifier::external_type_specification]
#[verifier::external_body]
pub struct ExUuid(Uuid);

/// `chrono::NaiveDateTime`, carried through as it is. The library holds
/// times in UTC in it.
#[verifier::external_type_specification]
#[verifier::external_body]
pub struct ExNaiveDateTime(NaiveDateTime);

/// `Uuid::now_v7` of the crate `uuid` makes a version 7 identifier from the
/// current time and random bits; nothing is known of it beforehand, and
/// nothing is stated.
pub assume_specification[ Uuid::now_v7 ]() -> (id: Uuid)
;

/// `NaiveDateTime::default` of the crate `chrono` gives the start of the Unix
/// epoch; nothing is stated of it here.
pub assume_specification[ <NaiveDateTime as Default>::default ]() -> (t: NaiveDateTime)
;

/// The most grapheme clusters that a user name may have.
pub const MAX_USERNAME_LENGTH: usize = 100;

/// The most grapheme clusters that an email address may have.
pub const MAX_EMAIL_ADDRESS_LENGTH: usize = 100;

pub const USER_NAME_EMPTY: &'static str = "User name cannot be empty";

pub const USER_NAME_TOO_LONG: &'static str = "User name is too long. Maximum valid length is 100";

pub const EMAIL_ADDRESS_WITHOUT_AT: &'static str = "Email address must have the @ symbol";

pub const EMAIL_ADDRESS_EMPTY: &'static str = "Email address cannot be empty";

pub const EMAIL_ADDRESS_TOO_LONG: &'static str = "Email address is too long. Maximum valid length is 100";

pub const EMAIL_ADDRESS_FORBIDDEN: &'static str =
    "Email address is not valid. It should not contain any of the following characters: /, (, ), \", <, >, \\, {, }";

/// The identifier of a user: opaque, made once and never changed.
#[derive(Clone, Copy, Debug)]
pub struct UserId(pub Uuid);

impl UserId {
    /// The identifier itself.
    pub fn as_ref(&self) -> (id: &Uuid)
        ensures
            *id == self.0,
    {
        &self.0
    }
}

impl AsRef<Uuid> for UserId {
    /// The identifier itself.
    fn as_ref(&self) -> (id: &Uuid)
        ensures
            *id == self.0,
    {
        &self.0
    }
}

impl Default for UserId {
    /// A fresh, time-ordered identifier.
    fn default() -> UserId {
        UserId(Uuid::now_v7())
    }
}

/// What a text must be to be a user name: trimmed, not empty, and of at most
/// `MAX_USERNAME_LENGTH` grapheme clusters.
pub open spec fn is_user_name(s: Seq<char>) -> bool {
    &&& is_trimmed(s)
    &&& s.len() > 0
    &&& grapheme_count(s) <= MAX_USERNAME_LENGTH
}

/// What becomes of a text that is offered as a user name: the trimmed text, or
/// the validation error that names the rule it breaks.
pub open spec fn user_name_of(s: Seq<char>) -> Result<Seq<char>, DemoErrorView> {
    let t = trimmed(s);
    if t.len() == 0 {
        Err(DemoErrorView::Validation { message: USER_NAME_EMPTY@ })
    } else if grapheme_count(t) > MAX_USERNAME_LENGTH {
        Err(DemoErrorView::Validation { message: USER_NAME_TOO_LONG@ })
    } else {
        Ok(t)
    }
}

/// The name of a user. It can only be made by `UserName::from_str`, so every
/// value of it satisfies `is_user_name`.
#[derive(Debug)]
pub struct UserName(String);

impl View for UserName {
    type V = Seq<char>;

    closed spec fn view(&self) -> Seq<char> {
        self.0@
    }
}

impl UserName {
    #[verifier::type_invariant]
    spec fn well_formed(&self) -> bool {
        is_user_name(self.0@)
    }

    /// Validates `value` as a user name and stores it trimmed.
    pub fn from_str(value: &str) -> (r: Result<UserName, DemoError>)
        ensures
            r matches Ok(name) ==> user_name_of(value@) == Ok::<Seq<char>, DemoErrorView>(name@),
            r matches Err(e) ==> user_name_of(value@) == Err::<Seq<char>, DemoErrorView>(e@),
            r is Ok <==> trimmed(value@).len() > 0 && grapheme_count(trimmed(value@))
                <= MAX_USERNAME_LENGTH,
            r matches Ok(name) ==> name@ == trimmed(value@) && is_user_name(name@),
            grapheme_count(trimmed(value@)) <= trimmed(value@).len(),
    {
        let trimmed_value = trim(value);
        let is_empty_or_whitespace = trimmed_value.is_empty();
        let is_too_long = count_graphemes(trimmed_value) > MAX_USERNAME_LENGTH;
        if is_empty_or_whitespace {
            Err(DemoError::validation(USER_NAME_EMPTY))
        } else if is_too_long {
            Err(DemoError::validation(USER_NAME_TOO_LONG))
        } else {
            proof {
                lemma_trimmed(value@);
            }
            Ok(UserName(trimmed_value.to_owned()))
        }
    }

    /// The name as text.
    pub fn as_ref(&self) -> (s: &str)
        ensures
            s@ == self@,
            is_user_name(s@),
    {
        proof {
            use_type_invariant(self);
        }
        self.0.as_str()
    }
}

impl AsRef<str> for UserName {
    /// The name as text.
    fn as_ref(&self) -> (s: &str)
        ensures
            s@ == self@,
            is_user_name(s@),
    {
        proof {
            use_type_invariant(self);
        }
        self.0.as_str()
    }
}

impl Clone for UserName {
    fn clone(&self) -> (copy: UserName)
        ensures
            copy@ == self@,
    {
        proof {
            use_type_invariant(self);
        }
        UserName(self.0.clone())
    }
}

impl Default for UserName {
    fn default() -> (name: UserName)
        ensures
            name@ == "John Doe"@,
    {
        proof {
            reveal_strlit("John Doe");
            lemma_trimmed_fixed("John Doe"@);
        }
        match UserName::from_str("John Doe") {
            Ok(name) => name,
            Err(_) => unreached(),
        }
    }
}

impl core::str::FromStr for UserName {
    type Err = DemoError;

    /// Validates `value` as a user name and stores it trimmed, as
    /// `UserName::from_str` does.
    fn from_str(value: &str) -> (r: Result<UserName, DemoError>)
        ensures
            r matches Ok(name) ==> user_name_of(value@) == Ok::<Seq<char>, DemoErrorView>(name@),
            r matches Err(e) ==> user_name_of(value@) == Err::<Seq<char>, DemoErrorView>(e@),
            r is Ok <==> trimmed(value@).len() > 0 && grapheme_count(trimmed(value@))
                <= MAX_USERNAME_LENGTH,
            r matches Ok(name) ==> name@ == trimmed(value@) && is_user_name(name@),
    {
        UserName::from_str(value)
    }
}

/// The characters that an email address may not hold.
pub open spec fn is_forbidden_character(c: char) -> bool {
    ||| c == '/'
    ||| c == '('
    ||| c == ')'
    ||| c == '"'
    ||| c == '<'
    ||| c == '>'
    ||| c == '\\'
    ||| c == '{'
    ||| c == '}'
}

/// Whether a forbidden character occurs in `s`.
pub open spec fn has_forbidden_character(s: Seq<char>) -> bool {
    exists|i: int| 0 <= i < s.len() && is_forbidden_character(#[trigger] s[i])
}

/// What a text must be to be an email address: trimmed, with an `@`, of at
/// most `MAX_EMAIL_ADDRESS_LENGTH` grapheme clusters and without forbidden
/// characters.
pub open spec fn is_email_address(s: Seq<char>) -> bool {
    &&& is_trimmed(s)
    &&& s.contains('@')
    &&& grapheme_count(s) <= MAX_EMAIL_ADDRESS_LENGTH
    &&& !has_forbidden_character(s)
}

/// What becomes of a text that is offered as an email address: the trimmed
/// text, or the validation error of the first rule that it breaks, the rules
/// taken in this order: the `@` is missing, the text is empty, it is too long,
/// it holds a forbidden character.
pub open spec fn email_address_of(s: Seq<char>) -> Result<Seq<char>, DemoErrorView> {
    let t = trimmed(s);
    if !t.contains('@') {
        Err(DemoErrorView::Validation { message: EMAIL_ADDRESS_WITHOUT_AT@ })
    } else if t.len() == 0 {
        Err(DemoErrorView::Validation { message: EMAIL_ADDRESS_EMPTY@ })
    } else if grapheme_count(t) > MAX_EMAIL_ADDRESS_LENGTH {
        Err(DemoErrorView::Validation { message: EMAIL_ADDRESS_TOO_LONG@ })
    } else if has_forbidden_character(t) {
        Err(DemoErrorView::Validation { message: EMAIL_ADDRESS_FORBIDDEN@ })
    } else {
        Ok(t)
    }
}

fn is_forbidden(c: char) -> (forbidden: bool)
    ensures
        forbidden == is_forbidden_character(c),
{
    c == '/' || c == '(' || c == ')' || c == '"' || c == '<' || c == '>' || c == '\\' || c == '{'
        || c == '}'
}

fn contains_forbidden_character(s: &str) -> (found: bool)
    ensures
        found == has_forbidden_character(s@),
{
    let mut found = false;
    for c in it: s.chars()
        invariant
            it.seq() == s@,
            found == (exists|j: int|
                0 <= j < it.index() && is_forbidden_character(#[trigger] s@[j])),
    {
        if is_forbidden(c) {
            found = true;
        }
    }
    found
}

/// An email address, or what passes for one: see `is_email_address`. It can
/// only be made by `EmailAddress::from_str`.
#[derive(Debug)]
pub struct EmailAddress(String);

impl View for EmailAddress {
    type V = Seq<char>;

    closed spec fn view(&self) -> Seq<char> {
        self.0@
    }
}

impl EmailAddress {
    #[verifier::type_invariant]
    spec fn well_formed(&self) -> bool {
        is_email_address(self.0@)
    }

    /// Validates `value` as an email address and stores it trimmed.
    pub fn from_str(value: &str) -> (r: Result<EmailAddress, DemoError>)
        ensures
            r matches Ok(email) ==> email_address_of(value@) == Ok::<Seq<char>, DemoErrorView>(
                email@,
            ),
            r matches Err(e) ==> email_address_of(value@) == Err::<Seq<char>, DemoErrorView>(e@),
            r is Ok <==> {
                &&& value@.contains('@')
                &&& trimmed(value@).len() > 0
                &&& grapheme_count(trimmed(value@)) <= MAX_EMAIL_ADDRESS_LENGTH
                &&& !has_forbidden_character(trimmed(value@))
            },
            r matches Ok(email) ==> email@ == trimmed(value@) && is_email_address(email@),
            grapheme_count(trimmed(value@)) <= trimmed(value@).len(),
    {
        let trimmed_value = trim(value);
        let is_empty_or_whitespace = trimmed_value.is_empty();
        let is_too_long = count_graphemes(trimmed_value) > MAX_EMAIL_ADDRESS_LENGTH;
        let contains_forbidden_characters = contains_forbidden_character(trimmed_value);
        let contains_at_symbol = contains_char(trimmed_value, '@');
        proof {
            lemma_trimmed(value@);
            lemma_trimmed_keeps(value@, '@');
            if contains_at_symbol {
                assert(trimmed_value@.len() > 0);
            }
        }
        if !contains_at_symbol {
            Err(DemoError::validation(EMAIL_ADDRESS_WITHOUT_AT))
        } else if is_empty_or_whitespace {
            Err(DemoError::validation(EMAIL_ADDRESS_EMPTY))
        } else if is_too_long {
            Err(DemoError::validation(EMAIL_ADDRESS_TOO_LONG))
        } else if contains_forbidden_characters {
            Err(DemoError::validation(EMAIL_ADDRESS_FORBIDDEN))
        } else {
            Ok(EmailAddress(trimmed_value.to_owned()))
        }
    }

    /// The address as text.
    pub fn as_ref(&self) -> (s: &str)
        ensures
            s@ == self@,
            is_email_address(s@),
    {
        proof {
            use_type_invariant(self);
        }
        self.0.as_str()
    }
}

impl AsRef<str> for EmailAddress {
    /// The address as text.
    fn as_ref(&self) -> (s: &str)
        ensures
            s@ == self@,
            is_email_address(s@),
    {
        proof {
            use_type_invariant(self);
        }
        self.0.as_str()
    }
}

impl Clone for EmailAddress {
    fn clone(&self) -> (copy: EmailAddress)
        ensures
            copy@ == self@,
    {
        proof {
            use_type_invariant(self);
        }
        EmailAddress(self.0.clone())
    }
}

impl PartialEq for EmailAddress {
    fn eq(&self, other: &EmailAddress) -> (equal: bool) {
        self.0 == other.0
    }
}

impl Eq for EmailAddress {

}

impl PartialEqSpecImpl for EmailAddress {
    open spec fn obeys_eq_spec() -> bool {
        true
    }

    open spec fn eq_spec(&self, other: &EmailAddress) -> bool {
        self@ == other@
    }
}

impl Default for EmailAddress {
    fn default() -> (email: EmailAddress)
        ensures
            email@ == "me@mail.com"@,
    {
        proof {
            reveal_strlit("me@mail.com");
            lemma_trimmed_fixed("me@mail.com"@);
            assert("me@mail.com"@[2] == '@');
        }
        match EmailAddress::from_str("me@mail.com") {
            Ok(email) => email,
            Err(_) => unreached(),
        }
    }
}

impl core::str::FromStr for EmailAddress {
    type Err = DemoError;

    /// Validates `value` as an email address and stores it trimmed, as
    /// `EmailAddress::from_str` does.
    fn from_str(value: &str) -> (r: Result<EmailAddress, DemoError>)
        ensures
            r matches Ok(email) ==> email_address_of(value@) == Ok::<Seq<char>, DemoErrorView>(
                email@,
            ),
            r matches Err(e) ==> email_address_of(value@) == Err::<Seq<char>, DemoErrorView>(e@),
            r is Ok <==> {
                &&& value@.contains('@')
                &&& trimmed(value@).len() > 0
                &&& grapheme_count(trimmed(value@)) <= MAX_EMAIL_ADDRESS_LENGTH
                &&& !has_forbidden_character(trimmed(value@))
            },
            r matches Ok(email) ==> email@ == trimmed(value@) && is_email_address(email@),
    {
        EmailAddress::from_str(value)
    }
}

/// An email address in a secret box: it does not show in `Debug` output, it
/// is read only through `expose_secret`, and dropping it wipes it from memory.
#[derive(Debug)]
pub struct SecretEmailAddress {
    sealed: SecretText,
}

impl View for SecretEmailAddress {
    type V = Seq<char>;

    closed spec fn view(&self) -> Seq<char> {
        secret_text(self.sealed)
    }
}

impl SecretEmailAddress {
    #[verifier::type_invariant]
    spec fn well_formed(&self) -> bool {
        is_email_address(secret_text(self.sealed))
    }

    /// Wraps a validated email address.
    pub fn new(email: EmailAddress) -> (secret: SecretEmailAddress)
        ensures
            secret@ == email@,
    {
        proof {
            use_type_invariant(&email);
        }
        SecretEmailAddress { sealed: SecretText::seal(email.0) }
    }

    /// Validates `value` as an email address and wraps it.
    pub fn from_str(value: &str) -> (r: Result<SecretEmailAddress, DemoError>)
        ensures
            r matches Ok(secret) ==> email_address_of(value@) == Ok::<Seq<char>, DemoErrorView>(
                secret@,
            ),
            r matches Err(e) ==> email_address_of(value@) == Err::<Seq<char>, DemoErrorView>(e@),
            r matches Ok(secret) ==> is_email_address(secret@),
            grapheme_count(trimmed(value@)) <= trimmed(value@).len(),
    {
        match EmailAddress::from_str(value) {
            Ok(email) => Ok(SecretEmailAddress::new(email)),
            Err(e) => Err(e),
        }
    }

    /// The one deliberate way to read the address.
    pub fn expose_secret(&self) -> (text: &str)
        ensures
            text@ == self@,
            is_email_address(text@),
    {
        proof {
            use_type_invariant(self);
        }
        self.sealed.expose()
    }
}

impl Clone for SecretEmailAddress {
    /// An independent copy, still wrapped.
    fn clone(&self) -> (copy: SecretEmailAddress)
        ensures
            copy@ == self@,
    {
        proof {
            use_type_invariant(self);
        }
        SecretEmailAddress { sealed: self.sealed.duplicate() }
    }
}

impl Default for SecretEmailAddress {
    fn default() -> (secret: SecretEmailAddress)
        ensures
            secret@ == "me@mail.com"@,
    {
        SecretEmailAddress::new(EmailAddress::default())
    }
}

/// What a user record holds, with its texts as sequences of characters. It is
/// the view of a `User` and of a `UserRaw` alike.
pub struct UserRecord {
    pub id: Uuid,
    pub name: Seq<char>,
    pub email_address: Seq<char>,
    pub created_at: NaiveDateTime,
    pub updated_at: Option<NaiveDateTime>,
}

impl UserRecord {
    /// Whether the name and the email address of the record satisfy the rules
    /// of their types.
    pub open spec fn is_valid(self) -> bool {
        is_user_name(self.name) && is_email_address(self.email_address)
    }

    /// What becomes of a record that storage returned: the record with its name
    /// and its email address validated and trimmed, or the error of the first of
    /// the two that is refused.
    pub open spec fn validated(self) -> Result<UserRecord, DemoErrorView> {
        match user_name_of(self.name) {
            Err(e) => Err(e),
            Ok(name) => match email_address_of(self.email_address) {
                Err(e) => Err(e),
                Ok(email_address) => Ok(UserRecord { name, email_address, ..self }),
            },
        }
    }
}

/// A user. Times are in UTC.
#[derive(Debug)]
pub struct User {
    pub id: UserId,
    pub name: UserName,
    pub email_address: SecretEmailAddress,
    pub created_at: NaiveDateTime,
    pub updated_at: Option<NaiveDateTime>,
}

/// A user as storage returns it, before anything was checked.
#[derive(Debug, Default)]
pub struct UserRaw {
    pub id: Uuid,
    pub name: String,
    pub email_address: String,
    pub created_at: NaiveDateTime,
    pub updated_at: Option<NaiveDateTime>,
}

impl View for UserRaw {
    type V = UserRecord;

    open spec fn view(&self) -> UserRecord {
        UserRecord {
            id: self.id,
            name: self.name@,
            email_address: self.email_address@,
            created_at: self.created_at,
            updated_at: self.updated_at,
        }
    }
}

impl View for User {
    type V = UserRecord;

    open spec fn view(&self) -> UserRecord {
        UserRecord {
            id: self.id.0,
            name: self.name@,
            email_address: self.email_address@,
            created_at: self.created_at,
            updated_at: self.updated_at,
        }
    }
}

/// What a request to create a user carries.
#[derive(Debug)]
pub struct CreateUserPayload {
    pub name: UserName,
    pub email_address: SecretEmailAddress,
}

/// One update of one field of a user, with the new value already validated.
#[derive(Debug)]
#[allow(inconsistent_fields)]
pub enum UserUpdate {
    Name { value: UserName },
    EmailAddress { value: SecretEmailAddress },
}

/// What a request to update a user carries: the updates, in the order in which
/// they apply.
#[derive(Debug)]
pub struct UpdateUserPayload {
    pub updates: Vec<UserUpdate>,
}

impl User {
    /// The user that a request to create one describes, as it is before it was
    /// ever updated.
    pub fn new(id: UserId, payload: CreateUserPayload, created_at: NaiveDateTime) -> (user: User)
        ensures
            user@ == (UserRecord {
                id: id.0,
                name: payload.name@,
                email_address: payload.email_address@,
                created_at,
                updated_at: None,
            }),
            user@.is_valid(),
    {
        proof {
            use_type_invariant(&payload.name);
            use_type_invariant(&payload.email_address);
        }
        User {
            id,
            name: payload.name,
            email_address: payload.email_address,
            created_at,
            updated_at: None,
        }
    }

    /// Validates what storage returned: the name first, then the email address.
    /// Storage is not trusted to hold valid data.
    pub fn try_from(user_raw: UserRaw) -> (r: Result<User, DemoError>)
        ensures
            r matches Ok(user) ==> user_raw@.validated() == Ok::<UserRecord, DemoErrorView>(user@),
            r matches Err(e) ==> user_raw@.validated() == Err::<UserRecord, DemoErrorView>(e@),
            r matches Ok(user) ==> user@.is_valid(),
    {
        let name = match UserName::from_str(user_raw.name.as_str()) {
            Ok(name) => name,
            Err(e) => {
                return Err(e);
            },
        };
        let email_address = match SecretEmailAddress::from_str(user_raw.email_address.as_str()) {
            Ok(email_address) => email_address,
            Err(e) => {
                return Err(e);
            },
        };
        Ok(
            User {
                id: UserId(user_raw.id),
                name,
                email_address,
                created_at: user_raw.created_at,
                updated_at: user_raw.updated_at,
            },
        )
    }
}

impl TryFrom<UserRaw> for User {
    type Error = DemoError;

    /// Validates what storage returned, as `User::try_from` does: the name
    /// first, then the email address.
    fn try_from(user_raw: UserRaw) -> (r: Result<User, DemoError>)
        ensures
            r matches Ok(user) ==> user_raw@.validated() == Ok::<UserRecord, DemoErrorView>(user@),
            r matches Err(e) ==> user_raw@.validated() == Err::<UserRecord, DemoErrorView>(e@),
            r matches Ok(user) ==> user@.is_valid(),
    {
        User::try_from(user_raw)
    }
}

impl TryFromSpecImpl<UserRaw> for User {
    open spec fn obeys_try_from_spec() -> bool {
        false
    }

    open spec fn try_from_spec(user_raw: UserRaw) -> Result<User, DemoError> {
        arbitrary()
    }
}

impl Clone for User {
    fn clone(&self) -> (copy: User)
        ensures
            copy@ == self@,
    {
        User {
            id: self.id,
            name: self.name.clone(),
            email_address: self.email_address.clone(),
            created_at: self.created_at,
            updated_at: self.updated_at,
        }
    }
}

impl Default for User {
    /// A user with a fresh identifier, the default name and email address, and
    /// no update yet.
    fn default() -> (user: User)
        ensures
            user@.name == "John Doe"@,
            user@.email_address == "me@mail.com"@,
            user@.updated_at is None,
    {
        User {
            id: UserId::default(),
            name: UserName::default(),
            email_address: SecretEmailAddress::default(),
            created_at: NaiveDateTime::default(),
            updated_at: None,
        }
    }
}

/// A valid record is left as it is by validation: what was stored from a
/// user comes back as that user.
pub proof fn lemma_round_trip(record: UserRecord)
    requires
        record.is_valid(),
    ensures
        record.validated() == Ok::<UserRecord, DemoErrorView>(record),
{
    lemma_trimmed_fixed(record.name);
    lemma_trimmed_fixed(record.email_address);
}

} // verus!
