//! The cache, the store operations, and the plain data surface.

use plaza::api::{ApiClient, AuthorizedApiClient};
use plaza::cache::JobTitleCache;
use plaza::connector::{
    decimal_string, FieldTranslationKey, Language, Translate, TranslationKey, UnauthorizedError,
    ValidationError, ValidationTranslationKey,
};
use plaza::ms_graph::UnauthenticatedClient;
use plaza::templating::TemplateState;
use plaza::uow::{CreateJobTitleArgs, CreateUserArgs, LocalStore, UpdateUserArgs};

#[test]
fn cache_insert_get_len() {
    let mut cache = JobTitleCache::new();
    assert_eq!(cache.len(), 0);
    assert_eq!(cache.get(&String::from("Engineer")), None);

    cache.insert(String::from("Engineer"), 4);
    cache.insert(String::from("Manager"), 9);
    assert_eq!(cache.len(), 2);
    assert_eq!(cache.get(&String::from("Engineer")), Some(4));
    assert_eq!(cache.get(&String::from("Manager")), Some(9));
    assert_eq!(cache.get(&String::from("Courier")), None);
}

#[test]
fn store_create_and_find() {
    let mut store = LocalStore::new();
    let title_id = store.create_job_title(CreateJobTitleArgs {
        name: None,
        intranet_name: "Engineer",
        company_department_id: None,
        parent_job_title_id: None,
    });
    let found = store
        .get_job_title_by_intranet_name(&String::from("Engineer"))
        .unwrap();
    assert_eq!(found.id, title_id);
    assert_eq!(found.name, None);

    let user_id = store.create_user(&CreateUserArgs {
        ad_id: Some(21),
        email: Some(String::from("u@x.com")),
        hashed_password: None,
        full_name: String::from("U"),
        job_title_id: title_id,
        is_active: true,
    });
    let user = store.find_user_by_ad_id(21).unwrap();
    assert_eq!(user.id, user_id);
    assert_eq!(user.full_name, "U");
    assert!(store.find_user_by_ad_id(22).is_none());

    store.update_user(&UpdateUserArgs {
        id: user_id,
        ad_id: Some(21),
        email: Some(String::from("u2@x.com")),
        hashed_password: None,
        full_name: String::from("U2"),
        job_title_id: title_id,
        is_active: true,
    });
    let updated = store.find_user_by_ad_id(21).unwrap();
    assert_eq!(updated.id, user_id);
    assert_eq!(updated.email.as_deref(), Some("u2@x.com"));
    assert_eq!(updated.full_name, "U2");
    assert_eq!(store.users().len(), 1);
}

#[test]
fn template_state_reports_logged_in_user() {
    let empty = TemplateState::new(None);
    assert!(!empty.is_logged_in());

    let mut store = LocalStore::new();
    let title_id = store.create_job_title(CreateJobTitleArgs {
        name: None,
        intranet_name: "Engineer",
        company_department_id: None,
        parent_job_title_id: None,
    });
    store.create_user(&CreateUserArgs {
        ad_id: Some(30),
        email: None,
        hashed_password: None,
        full_name: String::from("T"),
        job_title_id: title_id,
        is_active: true,
    });
    let user = store.find_user_by_ad_id(30);
    let state = TemplateState::new(user);
    assert!(state.is_logged_in());
}

#[test]
fn clients_keep_their_credentials() {
    let _anonymous = ApiClient::new();
    let _authorized = AuthorizedApiClient::new(String::from("bearer-token"));

    let unauthenticated = UnauthenticatedClient::new(
        String::from("tenant"),
        String::from("client"),
        String::from("secret"),
        String::from("https://example.com/callback"),
    );
    let mut authenticated =
        unauthenticated.into_authenticated_client(String::from("access"), String::from("refresh"));
    authenticated.update_access_token(String::from("renewed-access"));
}

#[test]
fn validation_error_carries_its_keys() {
    let error = ValidationError {
        property_name: FieldTranslationKey::Email,
        translation: TranslationKey::Validation(ValidationTranslationKey::StringTooShort {
            property_name: FieldTranslationKey::Email,
            min_length: 3,
        }),
    };
    assert_eq!(error.property_name, FieldTranslationKey::Email);
    assert!(matches!(
        error.translation,
        TranslationKey::Validation(ValidationTranslationKey::StringTooShort { min_length: 3, .. })
    ));
    assert_eq!(Language::Polish, Language::Polish);
    let _unauthorized = UnauthorizedError::new();
}

#[test]
fn decimal_string_renders_exact_digits() {
    assert_eq!(decimal_string(0), "0");
    assert_eq!(decimal_string(7), "7");
    assert_eq!(decimal_string(64), "64");
    assert_eq!(decimal_string(1500), "1500");
    assert_eq!(decimal_string(18446744073709551615), "18446744073709551615");
}

#[test]
fn translation_renders_exact_polish_messages() {
    assert_eq!(
        FieldTranslationKey::Password.translate(Language::Polish),
        "has\u{142}o"
    );
    let error = ValidationError {
        property_name: FieldTranslationKey::Email,
        translation: TranslationKey::Validation(ValidationTranslationKey::StringTooShort {
            property_name: FieldTranslationKey::Email,
            min_length: 3,
        }),
    };
    let rendered = error.into_with_translation(Language::Polish);
    assert_eq!(
        rendered.message,
        "Pole \"email\" jest za kr\u{f3}tkie, minimum 3 znak\u{f3}w."
    );
    assert_eq!(rendered.property_name, FieldTranslationKey::Email);

    let too_big = TranslationKey::Validation(ValidationTranslationKey::NumberTooBig {
        property_name: FieldTranslationKey::PaginationPerPage,
        max: 150,
    });
    assert_eq!(
        too_big.translate(Language::Polish),
        "Pole \"Ilo\u{15b}\u{107} wierszy na jednej stronie\" ma za du\u{17c}\u{105} warto\u{15b}\u{107}! Maximum: 150"
    );
}
