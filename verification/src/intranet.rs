//! The directory client: normalization of one roster snapshot.
//!
//! The embedding application performs the HTTP request itself and hands the
//! decoded raw entries to this module.  Everything the engine decides about
//! a response — which statuses are acceptable, how a raw entry becomes a
//! roster record, and when the whole fetch is rejected — is verified here.

use vstd::prelude::*;

use crate::uow::opt_int64;

verus! {

/// Client handle for the external directory; holds the authentication
/// token that the embedding application puts on the request header.
pub struct IntranetApi {
    token: String,
}

impl View for IntranetApi {
    type V = Seq<char>;

    closed spec fn view(&self) -> Seq<char> {
        self.token@
    }
}

impl IntranetApi {
    pub fn new(token: String) -> (r: Self)
        ensures
            r@ == token@,
    {
        IntranetApi { token }
    }

    /// The authentication token to send under the directory's auth header.
    pub fn token(&self) -> (r: &String)
        ensures
            r@ == self@,
    {
        &self.token
    }
}

/// One raw roster entry, exactly as the directory serves it: the enabled
/// flag is an integer and the registration instant an unparsed text.
#[derive(Debug)]
pub struct IntranetUserRaw {
    pub id: i32,
    pub hostname: String,
    pub full_name: String,
    pub email: String,
    pub is_enabled: i32,
    pub job_title: String,
    pub manager: Option<String>,
    pub location: Option<String>,
    pub registered_at: Option<String>,
}

/// Mathematical image of an [`IntranetUserRaw`].
pub struct IntranetUserRawView {
    pub id: int,
    pub hostname: Seq<char>,
    pub full_name: Seq<char>,
    pub email: Seq<char>,
    pub is_enabled: int,
    pub job_title: Seq<char>,
    pub manager: Option<Seq<char>>,
    pub location: Option<Seq<char>>,
    pub registered_at: Option<Seq<char>>,
}

impl View for IntranetUserRaw {
    type V = IntranetUserRawView;

    open spec fn view(&self) -> IntranetUserRawView {
        IntranetUserRawView {
            id: self.id as int,
            hostname: self.hostname.view(),
            full_name: self.full_name.view(),
            email: self.email.view(),
            is_enabled: self.is_enabled as int,
            job_title: self.job_title.view(),
            manager: self.manager.deep_view(),
            location: self.location.deep_view(),
            registered_at: self.registered_at.deep_view(),
        }
    }
}

impl DeepView for IntranetUserRaw {
    type V = IntranetUserRawView;

    open spec fn deep_view(&self) -> IntranetUserRawView {
        self.view()
    }
}

impl Clone for IntranetUserRaw {
    fn clone(&self) -> (r: Self)
        ensures
            r@ == self@,
    {
        IntranetUserRaw {
            id: self.id,
            hostname: self.hostname.clone(),
            full_name: self.full_name.clone(),
            email: self.email.clone(),
            is_enabled: self.is_enabled,
            job_title: self.job_title.clone(),
            manager: crate::uow::clone_opt_string(&self.manager),
            location: crate::uow::clone_opt_string(&self.location),
            registered_at: crate::uow::clone_opt_string(&self.registered_at),
        }
    }
}

/// One normalized roster record.  `registered_at` is a UTC unix timestamp
/// in seconds; the directory reports the instant at a fixed UTC+1 offset.
#[derive(Debug)]
pub struct IntranetUserDto {
    pub id: i32,
    pub hostname: String,
    pub email: String,
    pub full_name: String,
    pub is_enabled: bool,
    pub job_title: String,
    pub location: Option<String>,
    pub manager: Option<String>,
    pub registered_at: Option<i64>,
}

/// Mathematical image of an [`IntranetUserDto`].
pub struct IntranetUserView {
    pub id: int,
    pub hostname: Seq<char>,
    pub email: Seq<char>,
    pub full_name: Seq<char>,
    pub is_enabled: bool,
    pub job_title: Seq<char>,
    pub location: Option<Seq<char>>,
    pub manager: Option<Seq<char>>,
    pub registered_at: Option<int>,
}

impl View for IntranetUserDto {
    type V = IntranetUserView;

    open spec fn view(&self) -> IntranetUserView {
        IntranetUserView {
            id: self.id as int,
            hostname: self.hostname.view(),
            email: self.email.view(),
            full_name: self.full_name.view(),
            is_enabled: self.is_enabled,
            job_title: self.job_title.view(),
            location: self.location.deep_view(),
            manager: self.manager.deep_view(),
            registered_at: opt_int64(self.registered_at),
        }
    }
}

impl DeepView for IntranetUserDto {
    type V = IntranetUserView;

    open spec fn deep_view(&self) -> IntranetUserView {
        self.view()
    }
}

impl Clone for IntranetUserDto {
    fn clone(&self) -> (r: Self)
        ensures
            r@ == self@,
    {
        IntranetUserDto {
            id: self.id,
            hostname: self.hostname.clone(),
            email: self.email.clone(),
            full_name: self.full_name.clone(),
            is_enabled: self.is_enabled,
            job_title: self.job_title.clone(),
            location: crate::uow::clone_opt_string(&self.location),
            manager: crate::uow::clone_opt_string(&self.manager),
            registered_at: self.registered_at,
        }
    }
}

/// Why a single raw entry was rejected during normalization.
#[derive(Clone, Debug)]
pub enum IntranetUserDtoParsingError {
    InvalidRegistrationDate(String),
    InvalidIsEnabledValue(i32),
}

/// Mathematical image of an [`IntranetUserDtoParsingError`].
pub enum IntranetUserDtoParsingErrorView {
    InvalidRegistrationDate(Seq<char>),
    InvalidIsEnabledValue(int),
}

impl View for IntranetUserDtoParsingError {
    type V = IntranetUserDtoParsingErrorView;

    open spec fn view(&self) -> IntranetUserDtoParsingErrorView {
        match self {
            IntranetUserDtoParsingError::InvalidRegistrationDate(s) =>
                IntranetUserDtoParsingErrorView::InvalidRegistrationDate(s.view()),
            IntranetUserDtoParsingError::InvalidIsEnabledValue(v) =>
                IntranetUserDtoParsingErrorView::InvalidIsEnabledValue(*v as int),
        }
    }
}

impl DeepView for IntranetUserDtoParsingError {
    type V = IntranetUserDtoParsingErrorView;

    open spec fn deep_view(&self) -> IntranetUserDtoParsingErrorView {
        self.view()
    }
}

/// Why a whole fetch failed.  Transport-level payloads are carried as the
/// text that the embedding application rendered from its HTTP client.
#[derive(Clone, Debug)]
pub enum IntranetError {
    FailedToParseHeaderValue(String),
    FailedToSendRequest(String),
    FailedToReadResponseBody(String),
    FailedToDeserializeBody(String),
    FailedToParseUser(IntranetUserDtoParsingError),
    InvalidStatusError { status: u16, body: String },
}

/// Mathematical image of an [`IntranetError`].
pub enum IntranetErrorView {
    FailedToParseHeaderValue(Seq<char>),
    FailedToSendRequest(Seq<char>),
    FailedToReadResponseBody(Seq<char>),
    FailedToDeserializeBody(Seq<char>),
    FailedToParseUser(IntranetUserDtoParsingErrorView),
    InvalidStatusError { status: int, body: Seq<char> },
}

impl View for IntranetError {
    type V = IntranetErrorView;

    open spec fn view(&self) -> IntranetErrorView {
        match self {
            IntranetError::FailedToParseHeaderValue(s) =>
                IntranetErrorView::FailedToParseHeaderValue(s.view()),
            IntranetError::FailedToSendRequest(s) => IntranetErrorView::FailedToSendRequest(
                s.view(),
            ),
            IntranetError::FailedToReadResponseBody(s) =>
                IntranetErrorView::FailedToReadResponseBody(s.view()),
            IntranetError::FailedToDeserializeBody(s) =>
                IntranetErrorView::FailedToDeserializeBody(s.view()),
            IntranetError::FailedToParseUser(e) => IntranetErrorView::FailedToParseUser(e.view()),
            IntranetError::InvalidStatusError { status, body } =>
                IntranetErrorView::InvalidStatusError { status: *status as int, body: body.view() },
        }
    }
}

impl DeepView for IntranetError {
    type V = IntranetErrorView;

    open spec fn deep_view(&self) -> IntranetErrorView {
        self.view()
    }
}

/// The UTC unix timestamp that chrono reads out of a registration text at
/// the directory's fixed UTC+1 offset, or `None` where the text does not
/// parse under the fixed format.  The result depends on the text alone.
pub uninterp spec fn registration_instant_of(s: Seq<char>) -> Option<i64>;

/// Relies on chrono: `NaiveDateTime::parse_from_str` with the fixed format
/// `%Y-%m-%d %H:%M:%S`, `FixedOffset::east_opt(3600)` for the directory's
/// UTC+1 source offset, `NaiveDateTime::and_local_timezone`, and
/// `DateTime::timestamp` after conversion to UTC.  Each of those is a pure
/// function of the text, so the composite result is named
/// [`registration_instant_of`].
#[verifier::external_body]
fn parse_registration_datetime(s: &str) -> (r: Option<i64>)
    ensures
        r == registration_instant_of(s@),
{
    let offset = match chrono::FixedOffset::east_opt(3600) {
        Some(offset) => offset,
        None => return None,
    };
    let naive = match chrono::NaiveDateTime::parse_from_str(s, "%Y-%m-%d %H:%M:%S") {
        Ok(naive) => naive,
        Err(_) => return None,
    };
    match naive.and_local_timezone(offset) {
        chrono::LocalResult::Single(instant) => Some(instant.to_utc().timestamp()),
        _ => None,
    }
}

/// The record that a raw entry normalizes to, where it normalizes at all.
pub open spec fn normalized_user(raw: IntranetUserRawView) -> IntranetUserView {
    IntranetUserView {
        id: raw.id,
        hostname: raw.hostname,
        email: raw.email,
        full_name: raw.full_name,
        is_enabled: raw.is_enabled == 1,
        job_title: raw.job_title,
        location: raw.location,
        manager: raw.manager,
        registered_at: match raw.registered_at {
            Some(text) => match registration_instant_of(text) {
                Some(instant) => Some(instant as int),
                None => None,
            },
            None => None,
        },
    }
}

/// Whether a raw entry normalizes: the enabled flag must be 0 or 1 and the
/// registration text, where present, must parse.
pub open spec fn raw_user_ok(raw: IntranetUserRawView) -> bool {
    &&& raw.is_enabled == 0 || raw.is_enabled == 1
    &&& raw.registered_at matches Some(text) ==> registration_instant_of(text) is Some
}

impl IntranetUserDto {
    /// Normalizes one raw entry: the enabled flag 0/1 becomes a bool, the
    /// registration text becomes a UTC timestamp.  A flag outside 0/1 is
    /// rejected first; then an unparsable registration text.
    pub fn from_raw(value: IntranetUserRaw) -> (r: Result<
        IntranetUserDto,
        IntranetUserDtoParsingError,
    >)
        ensures
            r is Ok <==> raw_user_ok(value@),
            r matches Ok(u) ==> u@ == normalized_user(value@),
            r matches Err(e) ==> e@ == (if value.is_enabled != 0 && value.is_enabled != 1 {
                IntranetUserDtoParsingErrorView::InvalidIsEnabledValue(value.is_enabled as int)
            } else {
                IntranetUserDtoParsingErrorView::InvalidRegistrationDate(
                    value@.registered_at->0,
                )
            }),
    {
        let is_enabled = if value.is_enabled == 0 {
            false
        } else if value.is_enabled == 1 {
            true
        } else {
            return Err(IntranetUserDtoParsingError::InvalidIsEnabledValue(value.is_enabled));
        };

        let registered_at = match value.registered_at {
            Some(text) => match parse_registration_datetime(text.as_str()) {
                Some(instant) => Some(instant),
                None => {
                    return Err(IntranetUserDtoParsingError::InvalidRegistrationDate(text));
                },
            },
            None => None,
        };

        Ok(IntranetUserDto {
            id: value.id,
            hostname: value.hostname,
            email: value.email,
            full_name: value.full_name,
            is_enabled,
            job_title: value.job_title,
            location: value.location,
            manager: value.manager,
            registered_at,
        })
    }
}

/// Rejects any response status other than 200, keeping the status and the
/// rendered body for the error event.
pub fn check_response_status(status: u16, body: String) -> (r: Result<(), IntranetError>)
    ensures
        r is Ok <==> status == 200,
        r matches Err(e) ==> e@ == (IntranetErrorView::InvalidStatusError {
            status: status as int,
            body: body@,
        }),
{
    if status != 200 {
        Err(IntranetError::InvalidStatusError { status, body })
    } else {
        Ok(())
    }
}

/// Whether every raw entry of a snapshot normalizes.
pub open spec fn all_raw_users_ok(raws: Seq<IntranetUserRawView>) -> bool {
    forall|i: int| 0 <= i < raws.len() ==> raw_user_ok(#[trigger] raws[i])
}

/// Index of the first raw entry that does not normalize.
pub open spec fn first_bad_raw_user(raws: Seq<IntranetUserRawView>) -> int {
    crate::uow::first_index_where(raws, |r: IntranetUserRawView| !raw_user_ok(r))
}

/// Normalizes a whole snapshot.  One malformed entry rejects the whole
/// fetch — the first one, so that a fetch error names a single entry.
pub fn normalize_users(raws: Vec<IntranetUserRaw>) -> (r: Result<
    Vec<IntranetUserDto>,
    IntranetError,
>)
    ensures
        r is Ok <==> all_raw_users_ok(raws.deep_view()),
        r matches Ok(users) ==> {
            &&& users.deep_view().len() == raws.deep_view().len()
            &&& forall|i: int|
                0 <= i < raws.deep_view().len() ==> users.deep_view()[i] == normalized_user(
                    #[trigger] raws.deep_view()[i],
                )
        },
        r matches Err(e) ==> e@ matches IntranetErrorView::FailedToParseUser(_),
{
    let mut users: Vec<IntranetUserDto> = Vec::new();
    let ghost raw_views = raws.deep_view();
    let mut i: usize = 0;
    while i < raws.len()
        invariant
            i <= raws.len(),
            raw_views == raws.deep_view(),
            users.deep_view().len() == i,
            forall|k: int| 0 <= k < i ==> raw_user_ok(#[trigger] raw_views[k]),
            forall|k: int|
                0 <= k < i ==> users.deep_view()[k] == normalized_user(#[trigger] raw_views[k]),
        decreases raws.len() - i,
    {
        let raw = raws[i].clone();
        proof {
            assert(raw@ == raw_views[i as int]);
        }
        match IntranetUserDto::from_raw(raw) {
            Ok(user) => {
                users.push(user);
            },
            Err(error) => {
                return Err(IntranetError::FailedToParseUser(error));
            },
        }
        i += 1;
    }
    Ok(users)
}

} // verus!
