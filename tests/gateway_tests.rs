use webreg_scraper::gateway::{
    api_error_of, check_cookies, check_running, drop_section_type, find_term,
    login_stat_path_and_fallback, parse_login_stat, validate_term, CookieHeader,
    EnrollmentStatus, ExplicitAddType, LoginStat, NotFoundContext, PortalError, ScheduledEntry,
};

fn terms() -> Vec<String> {
    vec!["FA22".to_string()]
}

#[test]
fn term_is_found_whatever_its_case() {
    assert_eq!(validate_term("fa22", &terms()).ok().unwrap(), "FA22");
    assert_eq!(validate_term("FA22", &terms()).ok().unwrap(), "FA22");
}

#[test]
fn unknown_term_is_not_found() {
    let e = validate_term("xx99", &terms()).err().unwrap();
    assert_eq!(e.status, 404);
    assert_eq!(e.message, "The specified term cannot be found");
}

#[test]
fn timing_lookup_compares_as_written() {
    assert_eq!(find_term("FA22", &terms()), Some(0));
    assert_eq!(find_term("fa22", &terms()), None);
}

#[test]
fn readiness_gate_follows_the_running_flag() {
    let e = check_running(false).unwrap_err();
    assert_eq!(e.status, 500);
    assert!(check_running(true).is_ok());
}

#[test]
fn cookie_layer() {
    assert_eq!(check_cookies(CookieHeader::Present("a=b".to_string())).ok().unwrap(), "a=b");
    let e = check_cookies(CookieHeader::Missing).err().unwrap();
    assert_eq!((e.status, e.message.as_str()), (400, "You must provide your WebReg cookies for this endpoint."));
    let e = check_cookies(CookieHeader::NotAscii).err().unwrap();
    assert_eq!((e.status, e.message.as_str()), (400, "Your cookies must only contain ASCII characters."));
}

#[test]
fn planned_section_cannot_be_dropped() {
    let schedule = vec![ScheduledEntry {
        section_id: "079911".to_string(),
        enrolled_status: EnrollmentStatus::Planned,
    }];
    let e = drop_section_type(&schedule, "079911").err().unwrap();
    assert_eq!(e.status, 404);
    assert_eq!(e.message, "You don't appeared to be enrolled in section 079911");
}

#[test]
fn enrolled_and_waitlisted_sections_are_dropped_accordingly() {
    let schedule = vec![
        ScheduledEntry { section_id: "1".to_string(), enrolled_status: EnrollmentStatus::Planned },
        ScheduledEntry { section_id: "2".to_string(), enrolled_status: EnrollmentStatus::Waitlist(3) },
        ScheduledEntry { section_id: "3".to_string(), enrolled_status: EnrollmentStatus::Enrolled },
    ];
    assert_eq!(drop_section_type(&schedule, "2").ok().unwrap(), ExplicitAddType::Waitlist);
    assert_eq!(drop_section_type(&schedule, "3").ok().unwrap(), ExplicitAddType::Enroll);
    assert_eq!(drop_section_type(&schedule, "4").err().unwrap().status, 404);
}

#[test]
fn portal_errors_map_to_statuses() {
    assert_eq!(api_error_of(PortalError::Request("x".to_string())).status, 500);
    assert_eq!(api_error_of(PortalError::UrlParse).status, 500);
    let e = api_error_of(PortalError::Input("term".to_string(), "bad".to_string()));
    assert_eq!(e.status, 400);
    assert_eq!(e.context.as_deref(), Some("input=term, bad arg value=bad"));
    assert_eq!(api_error_of(PortalError::Deserialize("x".to_string())).status, 418);
    assert_eq!(api_error_of(PortalError::BadStatusCode(503, None)).status, 503);
    assert_eq!(api_error_of(PortalError::BadStatusCode(42, None)).status, 500);
    assert_eq!(api_error_of(PortalError::Portal("no".to_string())).status, 400);
    let e = api_error_of(PortalError::SectionIdNotFound("1".to_string(), NotFoundContext::Schedule));
    assert_eq!(e.status, 404);
    assert_eq!(e.message, "The section ID you specified wasn't found in your schedule.");
    assert_eq!(api_error_of(PortalError::Parsing("p".to_string())).status, 500);
    assert_eq!(api_error_of(PortalError::SessionNotValid).status, 401);
    assert_eq!(api_error_of(PortalError::BadTime).status, 500);
}

#[test]
fn login_stat_paths() {
    assert_eq!(parse_login_stat("start").ok().unwrap(), LoginStat::Start);
    assert_eq!(parse_login_stat("history").ok().unwrap(), LoginStat::History);
    assert_eq!(parse_login_stat("other").err().unwrap().status, 400);
    let (p, f) = login_stat_path_and_fallback(LoginStat::Start);
    assert_eq!((p.as_str(), f.as_str()), ("start", "0"));
    let (p, f) = login_stat_path_and_fallback(LoginStat::History);
    assert_eq!((p.as_str(), f.as_str()), ("history", "[]"));
}
