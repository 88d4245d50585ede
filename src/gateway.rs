//! The gateway's decisions: the checks each middleware layer makes, how portal errors
//! become HTTP errors, and which drop a `drop_section` request asks for.

use vstd::prelude::*;
use crate::keys::{AuthCheckResult, BearerError};
use crate::text::{upper_of, uppercase, views_of};

verus! {

/// An error answer: its HTTP status, its `error` text and, if any, its `context` text.
pub struct ApiError {
    pub status: u16,
    pub message: String,
    pub context: Option<String>,
}

/// Where a section id was looked for and not found.
#[derive(PartialEq, Eq, Structural, Clone, Copy, Debug)]
pub enum NotFoundContext {
    Schedule,
    Catalog,
}

/// The errors the portal client reports, with the details the answers carry.
pub enum PortalError {
    /// An outbound request failed.
    Request(String),
    /// An internal URL could not be parsed.
    UrlParse,
    /// A bad argument was passed to the portal client: which input, and its bad value.
    Input(String, String),
    /// The portal's answer was not the JSON expected.
    Deserialize(String),
    /// The portal answered with a non-OK status code, and maybe a context text.
    BadStatusCode(u16, Option<String>),
    /// The portal refused the request with this message.
    Portal(String),
    /// A section id was not found.
    SectionIdNotFound(String, NotFoundContext),
    /// The portal's answer could not be turned into values.
    Parsing(String),
    /// The session is not valid any more.
    SessionNotValid,
    /// A time unit could not be parsed.
    BadTime,
}

/// The HTTP status for a portal error.
pub open spec fn portal_status(e: PortalError) -> u16 {
    match e {
        PortalError::Request(_) => 500,
        PortalError::UrlParse => 500,
        PortalError::Input(_, _) => 400,
        PortalError::Deserialize(_) => 418,
        PortalError::BadStatusCode(code, _) => if 100 <= code <= 999 { code } else { 500 },
        PortalError::Portal(_) => 400,
        PortalError::SectionIdNotFound(_, _) => 404,
        PortalError::Parsing(_) => 500,
        PortalError::SessionNotValid => 401,
        PortalError::BadTime => 500,
    }
}

/// The `context` text for a portal error.
pub open spec fn portal_context(e: PortalError) -> Option<Seq<char>> {
    match e {
        PortalError::Request(r) => Some(r@),
        PortalError::UrlParse => None,
        PortalError::Input(i, v) => Some("input="@ + i@ + ", bad arg value="@ + v@),
        PortalError::Deserialize(s) => Some(s@),
        PortalError::BadStatusCode(_, c) => match c {
            Some(t) => Some(t@),
            None => None,
        },
        PortalError::Portal(w) => Some(w@),
        PortalError::SectionIdNotFound(s, _) => Some(s@),
        PortalError::Parsing(p) => Some(p@),
        PortalError::SessionNotValid => None,
        PortalError::BadTime => None,
    }
}

/// The `error` text for a portal error.
pub open spec fn portal_message(e: PortalError) -> Seq<char> {
    match e {
        PortalError::Request(_) => "An internal request error occurred."@,
        PortalError::UrlParse => "An internal URL parsing error occurred."@,
        PortalError::Input(_, _) => "A bad argument was passed in."@,
        PortalError::Deserialize(_) =>
            "An error occurred when trying to convert a string to a JSON object. It's possible your session is not valid."@,
        PortalError::BadStatusCode(_, _) => "A non-OK status code was hit."@,
        PortalError::Portal(_) => "WebReg returned an error regarding your request."@,
        PortalError::SectionIdNotFound(_, NotFoundContext::Schedule) =>
            "The section ID you specified wasn't found in your schedule."@,
        PortalError::SectionIdNotFound(_, NotFoundContext::Catalog) =>
            "The section ID you specified doesn't appear to be offered in the specified term."@,
        PortalError::Parsing(_) =>
            "An error occurred when trying to convert the response JSON into an object."@,
        PortalError::SessionNotValid =>
            "Your session isn't valid. Try a different set of WebReg cookies."@,
        PortalError::BadTime => "An error occurred when trying to parse a time unit."@,
    }
}

pub open spec fn opt_view(o: Option<String>) -> Option<Seq<char>> {
    match o {
        Some(s) => Some(s@),
        None => None,
    }
}

/// Turns a portal error into the answer a handler gives.
pub fn api_error_of(e: PortalError) -> (r: ApiError)
    ensures
        r.status == portal_status(e),
        opt_view(r.context) == portal_context(e),
        r.message@ == portal_message(e),
{
    match e {
        PortalError::Request(r) => ApiError {
            status: 500,
            message: String::from_str("An internal request error occurred."),
            context: Some(r),
        },
        PortalError::UrlParse => ApiError {
            status: 500,
            message: String::from_str("An internal URL parsing error occurred."),
            context: None,
        },
        PortalError::Input(i, v) => {
            let mut c = String::from_str("input=");
            c.append(i.as_str());
            c.append(", bad arg value=");
            c.append(v.as_str());
            ApiError {
                status: 400,
                message: String::from_str("A bad argument was passed in."),
                context: Some(c),
            }
        },
        PortalError::Deserialize(s) => ApiError {
            status: 418,
            message: String::from_str(
                "An error occurred when trying to convert a string to a JSON object. It's possible your session is not valid.",
            ),
            context: Some(s),
        },
        PortalError::BadStatusCode(code, c) => ApiError {
            status: if 100 <= code && code <= 999 { code } else { 500 },
            message: String::from_str("A non-OK status code was hit."),
            context: c,
        },
        PortalError::Portal(w) => ApiError {
            status: 400,
            message: String::from_str("WebReg returned an error regarding your request."),
            context: Some(w),
        },
        PortalError::SectionIdNotFound(s, ctx) => {
            let message = match ctx {
                NotFoundContext::Schedule => String::from_str(
                    "The section ID you specified wasn't found in your schedule.",
                ),
                NotFoundContext::Catalog => String::from_str(
                    "The section ID you specified doesn't appear to be offered in the specified term.",
                ),
            };
            ApiError { status: 404, message, context: Some(s) }
        },
        PortalError::Parsing(p) => ApiError {
            status: 500,
            message: String::from_str(
                "An error occurred when trying to convert the response JSON into an object.",
            ),
            context: Some(p),
        },
        PortalError::SessionNotValid => ApiError {
            status: 401,
            message: String::from_str(
                "Your session isn't valid. Try a different set of WebReg cookies.",
            ),
            context: None,
        },
        PortalError::BadTime => ApiError {
            status: 500,
            message: String::from_str("An error occurred when trying to parse a time unit."),
            context: None,
        },
    }
}

// ---------------------------------------------------------------- middleware

/// The readiness layer: requests pass only while the trackers run.
pub fn check_running(is_running: bool) -> (r: Result<(), ApiError>)
    ensures
        r is Ok <==> is_running,
        r matches Err(e) ==> e.status == 500 && e.message@
            == "The API isn't ready to make requests at this time."@,
{
    if is_running {
        Ok(())
    } else {
        Err(ApiError {
            status: 500,
            message: String::from_str("The API isn't ready to make requests at this time."),
            context: None,
        })
    }
}

/// The index of `term` among `terms`, compared as written.
pub fn find_term(term: &str, terms: &Vec<String>) -> (r: Option<usize>)
    ensures
        match r {
            Some(i) => i < terms@.len() && terms@[i as int]@ == term@,
            None => !views_of(terms@).contains(term@),
        },
{
    let wanted = String::from_str(term);
    let mut i: usize = 0;
    while i < terms.len()
        invariant
            i <= terms@.len(),
            wanted@ == term@,
            forall|j: int| 0 <= j < i ==> terms@[j]@ != term@,
        decreases terms@.len() - i,
    {
        if terms[i] == wanted {
            return Some(i);
        }
        i = i + 1;
    }
    assert(!views_of(terms@).contains(term@)) by {
        if views_of(terms@).contains(term@) {
            let j = choose|j: int| 0 <= j < views_of(terms@).len() && views_of(terms@)[j] == term@;
            assert(terms@[j]@ == term@);
        }
    }
    None
}

/// The term layer, once the term is in capitals: it passes when the term is configured.
pub fn check_term_known(upper: &str, terms: &Vec<String>) -> (r: Result<(), ApiError>)
    ensures
        r is Ok <==> views_of(terms@).contains(upper@),
        r matches Err(e) ==> e.status == 404 && e.message@ == "The specified term cannot be found"@,
{
    match find_term(upper, terms) {
        Some(i) => {
            assert(views_of(terms@)[i as int] == upper@);
            Ok(())
        },
        None => Err(
            ApiError {
                status: 404,
                message: String::from_str("The specified term cannot be found"),
                context: None,
            },
        ),
    }
}

/// The term layer: the term from the path is put in capitals and must be configured.
/// Returns the term in capitals.
pub fn validate_term(term: &str, terms: &Vec<String>) -> (r: Result<String, ApiError>)
    ensures
        r is Ok <==> views_of(terms@).contains(upper_of(term@)),
        r matches Ok(u) ==> u@ == upper_of(term@),
        r matches Err(e) ==> e.status == 404,
{
    let upper = uppercase(term);
    match check_term_known(upper.as_str(), terms) {
        Ok(()) => Ok(upper),
        Err(e) => Err(e),
    }
}

/// The `Cookie` header of a request, as far as the cookie layer cares.
pub enum CookieHeader {
    Missing,
    /// Present, but not ASCII text.
    NotAscii,
    Present(String),
}

/// The cookie layer: the `Cookie` header must be there and be ASCII. Returns the cookies.
pub fn check_cookies(header: CookieHeader) -> (r: Result<String, ApiError>)
    ensures
        r is Ok <==> header is Present,
        header matches CookieHeader::Present(c) ==> (r matches Ok(o) && o@ == c@),
        r matches Err(e) ==> e.status == 400,
        header is Missing ==> (r matches Err(e) && e.message@
            == "You must provide your WebReg cookies for this endpoint."@),
        header is NotAscii ==> (r matches Err(e) && e.message@
            == "Your cookies must only contain ASCII characters."@),
{
    match header {
        CookieHeader::Present(c) => Ok(c),
        CookieHeader::NotAscii => Err(
            ApiError {
                status: 400,
                message: String::from_str("Your cookies must only contain ASCII characters."),
                context: None,
            },
        ),
        CookieHeader::Missing => Err(
            ApiError {
                status: 400,
                message: String::from_str("You must provide your WebReg cookies for this endpoint."),
                context: None,
            },
        ),
    }
}

/// The answer of the auth layer to a header that could not be read.
pub fn bearer_rejection(e: BearerError) -> (r: ApiError)
    ensures
        r.status == 401,
        e == BearerError::MissingToken ==> r.message@ == "You didn't provide a bearer token."@,
        e == BearerError::MissingSeparator ==> r.message@
            == "Token is in invalid format (missing separator)."@,
{
    let message = match e {
        BearerError::MissingToken => String::from_str("You didn't provide a bearer token."),
        BearerError::MissingSeparator => String::from_str(
            "Token is in invalid format (missing separator).",
        ),
    };
    ApiError { status: 401, message, context: None }
}

/// The auth layer once the key was checked: a valid key passes, anything else is refused
/// with 401 and a text that tells an unknown key from an expired one.
pub fn auth_outcome(result: AuthCheckResult) -> (r: Result<(), ApiError>)
    ensures
        r is Ok <==> result == AuthCheckResult::Valid,
        r matches Err(e) ==> e.status == 401,
        result == AuthCheckResult::NoPrefixOrKeyFound ==> (r matches Err(e) && e.message@
            == "Token is invalid or the key doesn't exist."@),
        result == AuthCheckResult::ExpiredKey ==> (r matches Err(e) && e.message@
            == "Token is expired."@),
{
    match result {
        AuthCheckResult::Valid => Ok(()),
        AuthCheckResult::NoPrefixOrKeyFound => Err(
            ApiError {
                status: 401,
                message: String::from_str("Token is invalid or the key doesn't exist."),
                context: None,
            },
        ),
        AuthCheckResult::ExpiredKey => Err(
            ApiError { status: 401, message: String::from_str("Token is expired."), context: None },
        ),
    }
}

// ---------------------------------------------------------------- cookie-server stats

/// The statistics of the cookie server that can be asked for.
#[derive(PartialEq, Eq, Structural, Clone, Copy, Debug)]
pub enum LoginStat {
    Start,
    History,
}

/// Reads the `:stat` path parameter: `start` or `history`, anything else is refused.
pub fn parse_login_stat(stat: &str) -> (r: Result<LoginStat, ApiError>)
    ensures
        stat@ == "start"@ ==> r == Ok::<LoginStat, ApiError>(LoginStat::Start),
        stat@ == "history"@ ==> r == Ok::<LoginStat, ApiError>(LoginStat::History),
        stat@ != "start"@ && stat@ != "history"@ ==> (r matches Err(e) && e.status == 400),
{
    proof {
        reveal_strlit("start");
        reveal_strlit("history");
        assert("start"@[0] != "history"@[0]);
    }
    let s = String::from_str(stat);
    if s == String::from_str("start") {
        Ok(LoginStat::Start)
    } else if s == String::from_str("history") {
        Ok(LoginStat::History)
    } else {
        Err(
            ApiError {
                status: 400,
                message: String::from_str("Use either 'start' or 'history' as the endpoint."),
                context: None,
            },
        )
    }
}

/// The path asked of the cookie server, and the body used when its answer cannot be read.
pub fn login_stat_path_and_fallback(stat: LoginStat) -> (r: (String, String))
    ensures
        stat == LoginStat::Start ==> r.0@ == "start"@ && r.1@ == "0"@,
        stat == LoginStat::History ==> r.0@ == "history"@ && r.1@ == "[]"@,
{
    match stat {
        LoginStat::Start => (String::from_str("start"), String::from_str("0")),
        LoginStat::History => (String::from_str("history"), String::from_str("[]")),
    }
}

// ---------------------------------------------------------------- drop section

/// A user's standing in a section of their schedule.
#[derive(PartialEq, Eq, Structural, Clone, Copy, Debug)]
pub enum EnrollmentStatus {
    Enrolled,
    /// On the waitlist, at this position.
    Waitlist(i64),
    Planned,
    Unknown,
}

/// One section of a user's schedule.
pub struct ScheduledEntry {
    pub section_id: String,
    pub enrolled_status: EnrollmentStatus,
}

/// Which kind of registration a drop undoes.
#[derive(PartialEq, Eq, Structural, Clone, Copy, Debug)]
pub enum ExplicitAddType {
    Enroll,
    Waitlist,
}

pub open spec fn droppable(s: EnrollmentStatus) -> bool {
    s is Enrolled || s is Waitlist
}

/// The index of the first droppable entry of `schedule` for `section_id`.
pub open spec fn first_droppable(schedule: Seq<ScheduledEntry>, section_id: Seq<char>) -> Option<int> {
    if exists|k: int|
        0 <= k < schedule.len() && schedule[k].section_id@ == section_id && droppable(
            schedule[k].enrolled_status,
        ) {
        Some(
            choose|k: int|
                0 <= k < schedule.len() && schedule[k].section_id@ == section_id && droppable(
                    schedule[k].enrolled_status,
                ) && forall|j: int|
                    0 <= j < k ==> !(schedule[j].section_id@ == section_id && droppable(
                        schedule[j].enrolled_status,
                    )),
        )
    } else {
        None
    }
}

/// Decides how to drop `section_id`: only a section the user is enrolled in or waitlisted
/// for can be dropped; otherwise the answer is 404.
pub fn drop_section_type(schedule: &Vec<ScheduledEntry>, section_id: &str) -> (r: Result<ExplicitAddType, ApiError>)
    ensures
        match first_droppable(schedule@, section_id@) {
            Some(k) => match schedule@[k].enrolled_status {
                EnrollmentStatus::Enrolled => r == Ok::<ExplicitAddType, ApiError>(ExplicitAddType::Enroll),
                _ => r == Ok::<ExplicitAddType, ApiError>(ExplicitAddType::Waitlist),
            },
            None => r matches Err(e) && e.status == 404 && e.message@
                == "You don't appeared to be enrolled in section "@ + section_id@,
        },
{
    let wanted = String::from_str(section_id);
    let mut i: usize = 0;
    while i < schedule.len()
        invariant
            i <= schedule@.len(),
            wanted@ == section_id@,
            forall|j: int|
                0 <= j < i ==> !(schedule@[j].section_id@ == section_id@ && droppable(
                    schedule@[j].enrolled_status,
                )),
        decreases schedule@.len() - i,
    {
        let entry = &schedule[i];
        let is_droppable = match entry.enrolled_status {
            EnrollmentStatus::Enrolled => true,
            EnrollmentStatus::Waitlist(_) => true,
            _ => false,
        };
        if is_droppable && entry.section_id == wanted {
            proof {
                let k = i as int;
                let w = choose|w: int|
                    0 <= w < schedule@.len() && schedule@[w].section_id@ == section_id@ && droppable(
                        schedule@[w].enrolled_status,
                    ) && forall|j: int|
                        0 <= j < w ==> !(schedule@[j].section_id@ == section_id@ && droppable(
                            schedule@[j].enrolled_status,
                        ));
                assert(first_droppable(schedule@, section_id@) == Some(w));
                if w < k {
                } else if w > k {
                    assert(!(schedule@[k].section_id@ == section_id@ && droppable(
                        schedule@[k].enrolled_status,
                    )));
                }
            }
            return match entry.enrolled_status {
                EnrollmentStatus::Enrolled => Ok(ExplicitAddType::Enroll),
                _ => Ok(ExplicitAddType::Waitlist),
            };
        }
        i = i + 1;
    }
    let mut message = String::from_str("You don't appeared to be enrolled in section ");
    message.append(section_id);
    Err(ApiError { status: 404, message, context: None })
}

} // verus!
