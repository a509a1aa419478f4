//! Data-transfer types shared between the HTTP surface and its clients,
//! and the validation error taxonomy with its translation keys.  The
//! engine itself never serves these; the embedding application derives
//! its serialization formats on its own copies.

use vstd::prelude::*;
use vstd::string::StringExecFns;

verus! {

/// A rejected request: a plain message, a validation failure, or one
/// already translated for display.
#[derive(Clone, Debug)]
pub enum BadRequestError {
    Message { message: String },
    Validation(ValidationError),
    ValidationWithTranslation(ValidationErrorWithTranslation),
}

#[derive(Clone, Debug)]
pub struct CompanyDepartmentDto {
    pub id: i32,
    pub name: String,
}

#[derive(Clone, Debug)]
pub struct ExternalPermissionDto {
    pub id: i32,
    pub name: String,
}

#[derive(Clone, Debug)]
pub struct SystemPermissionDto {
    pub id: i32,
    pub name: String,
    pub subpermission_of_id: Option<i32>,
}

#[derive(Clone, Debug)]
pub struct LicenseDto {
    pub id: i32,
    pub name: String,
}

#[derive(Clone, Debug)]
pub struct JobTitleDto {
    pub id: i32,
    pub name: Option<String>,
    pub intranet_name: String,
    pub company_department_id: Option<i32>,
    pub parent_job_title_id: Option<i32>,
}

#[derive(Clone, Debug)]
pub struct LicenseToJobTitleMappingDto {
    pub license_id: i32,
    pub job_title_id: i32,
}

#[derive(Clone, Debug)]
pub struct SystemPermissionToJobTitleMappingDto {
    pub system_permission_id: i32,
    pub job_title_id: i32,
}

#[derive(Clone, Debug)]
pub struct UserDto {
    pub id: i32,
    pub email: Option<String>,
    pub full_name: String,
    pub job_title: JobTitleDto,
    pub company_department: Option<CompanyDepartmentDto>,
}

#[derive(Clone, Debug)]
pub struct MailingGroupDto {
    pub id: i32,
    pub name: String,
    pub email: String,
}

#[derive(Debug)]
pub struct LoginRequestBody {
    pub email: String,
    pub password: String,
}

#[derive(Debug)]
pub struct LoginResponse {
    pub user: UserDto,
    pub authorization_token: String,
}

/// The language a message is rendered in.
#[derive(Debug, Clone, Copy, PartialEq, Eq, Structural)]
pub enum Language {
    Polish,
}

/// A value that can check itself and report the first field that fails.
pub trait Validator {
    fn validate(self) -> Result<(), ValidationError>;
}

/// A key that can render itself as a message in a given language; the
/// rendering is pinned, character for character, by `spec_translate`.
pub trait Translate {
    spec fn spec_translate(&self, language: Language) -> Seq<char>;

    fn translate(&self, language: Language) -> (r: String)
        ensures
            r@ == self.spec_translate(language),
    ;
}

/// The character of a single decimal digit.
pub open spec fn digit_char(d: nat) -> char {
    if d == 0 {
        '0'
    } else if d == 1 {
        '1'
    } else if d == 2 {
        '2'
    } else if d == 3 {
        '3'
    } else if d == 4 {
        '4'
    } else if d == 5 {
        '5'
    } else if d == 6 {
        '6'
    } else if d == 7 {
        '7'
    } else if d == 8 {
        '8'
    } else {
        '9'
    }
}

/// The decimal digits of `n`, most significant first.
pub open spec fn spec_decimal(n: nat) -> Seq<char>
    decreases n,
{
    if n < 10 {
        seq![digit_char(n)]
    } else {
        spec_decimal(n / 10).push(digit_char(n % 10))
    }
}

/// The single character of a decimal digit, as text.
fn digit_str(d: u64) -> (r: &'static str)
    requires
        d < 10,
    ensures
        r@ == seq![digit_char(d as nat)],
{
    proof {
        reveal_strlit("0");
        reveal_strlit("1");
        reveal_strlit("2");
        reveal_strlit("3");
        reveal_strlit("4");
        reveal_strlit("5");
        reveal_strlit("6");
        reveal_strlit("7");
        reveal_strlit("8");
        reveal_strlit("9");
    }
    let r: &'static str = match d {
        0 => "0",
        1 => "1",
        2 => "2",
        3 => "3",
        4 => "4",
        5 => "5",
        6 => "6",
        7 => "7",
        8 => "8",
        _ => "9",
    };
    proof {
        assert(r@ =~= seq![digit_char(d as nat)]);
    }
    r
}

/// Renders a number in decimal, exactly as `spec_decimal` states.
pub fn decimal_string(n: u64) -> (r: String)
    ensures
        r@ == spec_decimal(n as nat),
    decreases n,
{
    if n < 10 {
        digit_str(n).to_owned()
    } else {
        let prefix = decimal_string(n / 10);
        let r = prefix.concat(digit_str(n % 10));
        proof {
            assert(r@ =~= spec_decimal(n as nat));
        }
        r
    }
}

/// Which field of a request a message speaks about.
#[derive(Clone, Copy, Debug, PartialEq, Eq, Structural)]
pub enum FieldTranslationKey {
    Email,
    Password,
    SystemPermissionName,
    PaginationPage,
    PaginationPerPage,
}

/// Which rule a value broke, with the numbers the message needs.
#[derive(Clone, Debug)]
pub enum ValidationTranslationKey {
    StringTooShort { property_name: FieldTranslationKey, min_length: usize },
    StringTooLong { property_name: FieldTranslationKey, max_length: usize },
    InvalidEmail { property_name: FieldTranslationKey },
    InvalidCredentials,
    NumberTooSmall { property_name: FieldTranslationKey, min: u32 },
    NumberTooBig { property_name: FieldTranslationKey, max: u32 },
}

/// A translation key: either a broken rule or a field name.
#[derive(Clone, Debug)]
pub enum TranslationKey {
    Validation(ValidationTranslationKey),
    Field(FieldTranslationKey),
}

/// What each field key renders to.
pub open spec fn spec_field_message(key: FieldTranslationKey, language: Language) -> Seq<char> {
    match key {
        FieldTranslationKey::Email => "email"@,
        FieldTranslationKey::Password => "has\u{142}o"@,
        FieldTranslationKey::SystemPermissionName => "name"@,
        FieldTranslationKey::PaginationPage => "Numer porz\u{105}dkowy strony"@,
        FieldTranslationKey::PaginationPerPage => "Ilo\u{15b}\u{107} wierszy na jednej stronie"@,
    }
}

impl Translate for FieldTranslationKey {
    open spec fn spec_translate(&self, language: Language) -> Seq<char> {
        spec_field_message(*self, language)
    }

    fn translate(&self, language: Language) -> (r: String) {
        match self {
            FieldTranslationKey::Email => "email".to_owned(),
            FieldTranslationKey::Password => "has\u{142}o".to_owned(),
            FieldTranslationKey::SystemPermissionName => "name".to_owned(),
            FieldTranslationKey::PaginationPage => "Numer porz\u{105}dkowy strony".to_owned(),
            FieldTranslationKey::PaginationPerPage =>
                "Ilo\u{15b}\u{107} wierszy na jednej stronie".to_owned(),
        }
    }
}

/// What each broken rule renders to.
pub open spec fn spec_validation_message(
    key: ValidationTranslationKey,
    language: Language,
) -> Seq<char> {
    match key {
        ValidationTranslationKey::StringTooShort { property_name, min_length } => "Pole \""@
            + spec_field_message(property_name, language)
            + "\" jest za kr\u{f3}tkie, minimum "@ + spec_decimal(min_length as nat)
            + " znak\u{f3}w."@,
        ValidationTranslationKey::StringTooLong { property_name, max_length } => "Pole \""@
            + spec_field_message(property_name, language) + "\" jest za d\u{142}ugi, maksimum "@
            + spec_decimal(max_length as nat) + " znak\u{f3}w."@,
        ValidationTranslationKey::InvalidEmail { property_name } => "Pole \""@
            + spec_field_message(property_name, language)
            + "\" jest niepoprawnym adresem mailowym."@,
        ValidationTranslationKey::InvalidCredentials =>
            "Email lub has\u{142}o s\u{105} nieprawid\u{142}owe"@,
        ValidationTranslationKey::NumberTooSmall { property_name, min } => "Pole \""@
            + spec_field_message(property_name, language)
            + "\" ma za ma\u{142}\u{105} warto\u{15b}\u{107}! Minimum: "@ + spec_decimal(
            min as nat,
        ),
        ValidationTranslationKey::NumberTooBig { property_name, max } => "Pole \""@
            + spec_field_message(property_name, language)
            + "\" ma za du\u{17c}\u{105} warto\u{15b}\u{107}! Maximum: "@ + spec_decimal(
            max as nat,
        ),
    }
}

impl Translate for ValidationTranslationKey {
    open spec fn spec_translate(&self, language: Language) -> Seq<char> {
        spec_validation_message(*self, language)
    }

    fn translate(&self, language: Language) -> (r: String) {
        match self {
            ValidationTranslationKey::StringTooShort { property_name, min_length } => {
                let mut message = "Pole \"".to_owned();
                message.append(property_name.translate(language).as_str());
                message.append("\" jest za kr\u{f3}tkie, minimum ");
                message.append(decimal_string(*min_length as u64).as_str());
                message.append(" znak\u{f3}w.");
                message
            },
            ValidationTranslationKey::StringTooLong { property_name, max_length } => {
                let mut message = "Pole \"".to_owned();
                message.append(property_name.translate(language).as_str());
                message.append("\" jest za d\u{142}ugi, maksimum ");
                message.append(decimal_string(*max_length as u64).as_str());
                message.append(" znak\u{f3}w.");
                message
            },
            ValidationTranslationKey::InvalidEmail { property_name } => {
                let mut message = "Pole \"".to_owned();
                message.append(property_name.translate(language).as_str());
                message.append("\" jest niepoprawnym adresem mailowym.");
                message
            },
            ValidationTranslationKey::InvalidCredentials =>
                "Email lub has\u{142}o s\u{105} nieprawid\u{142}owe".to_owned(),
            ValidationTranslationKey::NumberTooSmall { property_name, min } => {
                let mut message = "Pole \"".to_owned();
                message.append(property_name.translate(language).as_str());
                message.append("\" ma za ma\u{142}\u{105} warto\u{15b}\u{107}! Minimum: ");
                message.append(decimal_string(*min as u64).as_str());
                message
            },
            ValidationTranslationKey::NumberTooBig { property_name, max } => {
                let mut message = "Pole \"".to_owned();
                message.append(property_name.translate(language).as_str());
                message.append("\" ma za du\u{17c}\u{105} warto\u{15b}\u{107}! Maximum: ");
                message.append(decimal_string(*max as u64).as_str());
                message
            },
        }
    }
}

impl Translate for TranslationKey {
    open spec fn spec_translate(&self, language: Language) -> Seq<char> {
        match self {
            TranslationKey::Validation(key) => spec_validation_message(*key, language),
            TranslationKey::Field(key) => spec_field_message(*key, language),
        }
    }

    fn translate(&self, language: Language) -> (r: String) {
        match self {
            TranslationKey::Validation(key) => key.translate(language),
            TranslationKey::Field(key) => key.translate(language),
        }
    }
}

/// A validation failure, not yet rendered.
#[derive(Clone, Debug)]
pub struct ValidationError {
    pub property_name: FieldTranslationKey,
    pub translation: TranslationKey,
}

impl ValidationError {
    /// Renders the failure's message for the given language, keeping the
    /// keys beside it.
    pub fn into_with_translation(self, language: Language) -> (r: ValidationErrorWithTranslation)
        ensures
            r.property_name == self.property_name,
            r.message@ == self.translation.spec_translate(language),
            r.translation == self.translation,
    {
        let message = self.translation.translate(language);
        ValidationErrorWithTranslation {
            property_name: self.property_name,
            message,
            translation: self.translation,
        }
    }
}

/// A validation failure together with its rendered message.
#[derive(Clone, Debug)]
pub struct ValidationErrorWithTranslation {
    pub property_name: FieldTranslationKey,
    pub message: String,
    pub translation: TranslationKey,
}

/// The answer to a request that lacked a valid authorization.
#[derive(Clone, Debug)]
pub struct UnauthorizedError {
    title: String,
    message: String,
}

impl View for UnauthorizedError {
    type V = (Seq<char>, Seq<char>);

    closed spec fn view(&self) -> (Seq<char>, Seq<char>) {
        (self.title@, self.message@)
    }
}

impl UnauthorizedError {
    pub fn new() -> (r: Self)
        ensures
            r@.0 == "Unauthorized"@,
            r@.1 == "You are unauthorized to view this resource."@,
    {
        UnauthorizedError {
            title: "Unauthorized".to_owned(),
            message: "You are unauthorized to view this resource.".to_owned(),
        }
    }
}

} // verus!
