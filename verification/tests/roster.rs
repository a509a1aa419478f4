//! The directory client: normalization of raw roster entries.

use plaza::intranet::{
    check_response_status, normalize_users, IntranetApi, IntranetError, IntranetUserDto,
    IntranetUserDtoParsingError, IntranetUserRaw,
};

fn raw_entry(id: i32, is_enabled: i32, registered_at: Option<&str>) -> IntranetUserRaw {
    IntranetUserRaw {
        id,
        hostname: format!("host-{id}"),
        full_name: format!("Person {id}"),
        email: format!("p{id}@example.com"),
        is_enabled,
        job_title: String::from("Engineer"),
        manager: None,
        location: Some(String::from("PL")),
        registered_at: registered_at.map(String::from),
    }
}

#[test]
fn from_raw_normalizes_enabled_flag_zero() {
    let user = IntranetUserDto::from_raw(raw_entry(1, 0, None)).unwrap();
    assert!(!user.is_enabled);
    assert_eq!(user.id, 1);
    assert_eq!(user.email, "p1@example.com");
    assert_eq!(user.registered_at, None);
}

#[test]
fn from_raw_normalizes_enabled_flag_one() {
    let user = IntranetUserDto::from_raw(raw_entry(2, 1, None)).unwrap();
    assert!(user.is_enabled);
}

#[test]
fn from_raw_rejects_enabled_flag_out_of_range() {
    let error = IntranetUserDto::from_raw(raw_entry(3, 7, None)).unwrap_err();
    assert!(matches!(
        error,
        IntranetUserDtoParsingError::InvalidIsEnabledValue(7)
    ));
}

#[test]
fn from_raw_converts_registration_instant_to_utc() {
    // 2020-06-01 12:30:00 at the directory's fixed UTC+1 offset
    // is 2020-06-01 11:30:00 UTC.
    let user = IntranetUserDto::from_raw(raw_entry(4, 1, Some("2020-06-01 12:30:00"))).unwrap();
    assert_eq!(user.registered_at, Some(1_591_011_000));
}

#[test]
fn from_raw_converts_instants_before_the_epoch() {
    let user = IntranetUserDto::from_raw(raw_entry(5, 1, Some("1970-01-01 00:30:00"))).unwrap();
    assert_eq!(user.registered_at, Some(-1800));
}

#[test]
fn from_raw_rejects_malformed_registration_date() {
    let error = IntranetUserDto::from_raw(raw_entry(6, 1, Some("junk"))).unwrap_err();
    match error {
        IntranetUserDtoParsingError::InvalidRegistrationDate(text) => assert_eq!(text, "junk"),
        other => panic!("unexpected error: {other:?}"),
    }
}

#[test]
fn from_raw_checks_enabled_flag_before_the_date() {
    let error = IntranetUserDto::from_raw(raw_entry(7, 9, Some("junk"))).unwrap_err();
    assert!(matches!(
        error,
        IntranetUserDtoParsingError::InvalidIsEnabledValue(9)
    ));
}

#[test]
fn normalize_users_aborts_whole_fetch_on_first_malformed_entry() {
    let raws = vec![
        raw_entry(1, 1, None),
        raw_entry(2, 5, None),
        raw_entry(3, 1, Some("junk")),
    ];
    let error = normalize_users(raws).unwrap_err();
    match error {
        IntranetError::FailedToParseUser(IntranetUserDtoParsingError::InvalidIsEnabledValue(
            flag,
        )) => assert_eq!(flag, 5),
        other => panic!("unexpected error: {other:?}"),
    }
}

#[test]
fn normalize_users_keeps_every_record_in_order() {
    let raws = vec![raw_entry(1, 1, None), raw_entry(2, 0, None)];
    let users = normalize_users(raws).unwrap();
    assert_eq!(users.len(), 2);
    assert_eq!(users[0].id, 1);
    assert!(users[0].is_enabled);
    assert_eq!(users[1].id, 2);
    assert!(!users[1].is_enabled);
}

#[test]
fn check_response_status_accepts_only_200() {
    assert!(check_response_status(200, String::new()).is_ok());
    let error = check_response_status(503, String::from("overloaded")).unwrap_err();
    match error {
        IntranetError::InvalidStatusError { status, body } => {
            assert_eq!(status, 503);
            assert_eq!(body, "overloaded");
        }
        other => panic!("unexpected error: {other:?}"),
    }
}

#[test]
fn intranet_api_keeps_its_token() {
    let api = IntranetApi::new(String::from("directory-auth-token"));
    assert_eq!(api.token().as_str(), "directory-auth-token");
}
