use webreg_scraper::config::{query_from_config, terms_from_config, ConfigSearchQuery, ConfigTermDatum};
use webreg_scraper::requests::{parse_grade_option_unit_count, GradeOption};
use webreg_scraper::sections::{
    is_useless_section, is_valid_meeting, parse_day_code, parse_meeting_type_date, Meeting,
    MeetingDay, WebRegMeeting,
};

fn raw_meeting() -> WebRegMeeting {
    WebRegMeeting {
        end_time_hr: 0,
        end_time_min: 0,
        section_capacity: 0,
        enrolled_count: 0,
        section_number: String::new(),
        count_on_waitlist: 0,
        room_code: String::new(),
        start_time_min: 0,
        start_time_hr: 0,
        day_code: String::new(),
        person_full_name: String::new(),
        special_meeting: String::new(),
        bldg_code: String::new(),
        meeting_type: String::new(),
        sect_code: String::new(),
        avail_seat: 0,
        start_date: String::new(),
        section_start_date: String::new(),
        display_type: String::new(),
        needs_waitlist: String::new(),
    }
}

#[test]
fn canceled_meeting_is_not_valid() {
    let mut m = raw_meeting();
    assert!(!is_valid_meeting(&m));
    m.section_capacity = 30;
    assert!(is_valid_meeting(&m));
}

#[test]
fn day_codes_name_days() {
    assert_eq!(parse_day_code("135"), vec!["M".to_string(), "W".to_string(), "F".to_string()]);
    assert_eq!(parse_day_code("06x9"), vec!["Su".to_string(), "Sa".to_string()]);
}

#[test]
fn useless_sections() {
    assert!(!is_useless_section("A01"));
    assert!(is_useless_section("A50"));
    assert!(!is_useless_section("050"));
}

#[test]
fn meeting_flat_string() {
    let m = Meeting {
        meeting_type: "LE".to_string(),
        meeting_days: MeetingDay::Repeated(vec!["M".to_string(), "W".to_string()]),
        start_hr: 9,
        start_min: 5,
        end_hr: 10,
        end_min: 50,
        building: "CENTR".to_string(),
        room: "115".to_string(),
    };
    assert_eq!(m.to_flat_str(), "MW LE 9:05 - 10:50");
    let m2 = Meeting { meeting_days: MeetingDay::Unscheduled, ..m };
    assert_eq!(m2.to_flat_str(), "N/A LE 9:05 - 10:50");
}

#[test]
fn configured_query_becomes_a_search() {
    let q = ConfigSearchQuery {
        levels: vec!["g".to_string(), "u".to_string(), "x".to_string()],
        departments: vec!["cse".to_string(), "TOOLONG".to_string()],
    };
    let b = query_from_config(&q);
    assert_eq!(b.level_filter, (1 << 5) | (1 << 8));
    assert_eq!(b.departments, vec!["CSE".to_string()]);
}

#[test]
fn configured_terms_keep_their_order() {
    let data = vec![
        ConfigTermDatum { term: "FA22".to_string(), cooldown_ms: 500, search_query: vec![], save_data_to_file: true },
        ConfigTermDatum { term: "WI23".to_string(), cooldown_ms: 0, search_query: vec![], save_data_to_file: false },
    ];
    let t = terms_from_config(data);
    assert_eq!(t.len(), 2);
    assert_eq!(t[0].term, "FA22");
    assert_eq!(t[1].term, "WI23");
    assert!(t[0].should_save);
    assert_eq!(t[0].tracker.snapshot(), (0, 0, vec![]));
}

#[test]
fn grade_options() {
    assert_eq!(parse_grade_option_unit_count(&Some("p".to_string()), Some(4)), (GradeOption::P, Some(4)));
    assert_eq!(parse_grade_option_unit_count(&Some("S".to_string()), Some(300)), (GradeOption::S, None));
    assert_eq!(parse_grade_option_unit_count(&None, Some(-1)), (GradeOption::L, None));
}

#[test]
fn regular_meeting_repeats_on_its_days() {
    let mut m = raw_meeting();
    m.meeting_type = " LE ".to_string();
    m.day_code = " 24 ".to_string();
    m.special_meeting = "TBA".to_string();
    let (kind, days) = parse_meeting_type_date(&m);
    assert_eq!(kind, "LE");
    match days {
        MeetingDay::Repeated(d) => assert_eq!(d, vec!["Tu".to_string(), "Th".to_string()]),
        _ => panic!("expected repeated days"),
    }
}

#[test]
fn special_meeting_happens_once() {
    let mut m = raw_meeting();
    m.meeting_type = "LE".to_string();
    m.special_meeting = " FI ".to_string();
    m.start_date = "2022-12-10".to_string();
    m.section_start_date = "2022-09-22".to_string();
    let (kind, days) = parse_meeting_type_date(&m);
    assert_eq!(kind, "FI");
    match days {
        MeetingDay::OneTime(d) => assert_eq!(d, "2022-12-10"),
        _ => panic!("expected a one-time meeting"),
    }
}

#[test]
fn meeting_without_days() {
    let mut m = raw_meeting();
    m.meeting_type = "DI".to_string();
    let (kind, days) = parse_meeting_type_date(&m);
    assert_eq!(kind, "DI");
    assert!(matches!(days, MeetingDay::Unscheduled));
}

#[test]
fn unicode_white_space_is_trimmed() {
    let mut m = raw_meeting();
    m.meeting_type = "\u{a0}\tLE\u{3000}\n".to_string();
    let (kind, _) = parse_meeting_type_date(&m);
    assert_eq!(kind, "LE");
    m.meeting_type = " \u{2003} ".to_string();
    assert_eq!(parse_meeting_type_date(&m).0, "");
}
