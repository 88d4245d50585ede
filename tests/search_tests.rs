use webreg_scraper::search::{
    parse_day_token, parse_level_token, search_type_from, BodySearchType, CourseLevelFilter,
    SearchRequestBuilder, SearchType,
};

#[test]
fn builder_filters_codes() {
    let b = SearchRequestBuilder::new()
        .add_subject("CSE")
        .add_subject("cse")
        .add_subject("TOOLONG")
        .add_department("MATH")
        .add_department("math")
        .add_course("20E");
    assert_eq!(b.subjects, vec!["CSE".to_string()]);
    assert_eq!(b.departments, vec!["MATH".to_string()]);
    assert_eq!(b.courses, vec!["20E".to_string()]);
}

#[test]
fn builder_masks_and_times() {
    let b = SearchRequestBuilder::new()
        .filter_courses_by(CourseLevelFilter::LowerDivision)
        .filter_courses_by(CourseLevelFilter::Graduate)
        .apply_days(1)
        .apply_days(7)
        .apply_days(8)
        .set_start_time(9, 30)
        .set_end_time(24, 0)
        .only_allow_open()
        .set_instructor("Doe, Jane".to_string())
        .set_title("data structures".to_string());
    assert_eq!(b.level_filter, (1 << 11) | (1 << 5));
    assert_eq!(b.days, (1 << 6) | 1);
    assert_eq!(b.start_time, Some((9, 30)));
    assert_eq!(b.end_time, None);
    assert!(b.only_open);
    assert_eq!(b.instructor.as_deref(), Some("Doe, Jane"));
    assert_eq!(b.title.as_deref(), Some("data structures"));
}

#[test]
fn day_and_level_tokens_ignore_case() {
    assert_eq!(parse_day_token("M"), 1);
    assert_eq!(parse_day_token("tu"), 2);
    assert_eq!(parse_day_token("TH"), 4);
    assert_eq!(parse_day_token("Su"), 7);
    assert_eq!(parse_day_token("x"), 0);
    assert_eq!(parse_level_token("G"), Some(CourseLevelFilter::Graduate));
    assert_eq!(parse_level_token("l"), Some(CourseLevelFilter::LowerDivision));
    assert_eq!(parse_level_token("q"), None);
}

#[test]
fn advanced_body_becomes_a_search() {
    let body = BodySearchType::SearchAdvanced {
        subjects: Some(vec!["CSE".to_string()]),
        courses: None,
        departments: None,
        instructor: None,
        title: Some("algo".to_string()),
        only_open: Some(true),
        start_hour: Some(10),
        start_min: None,
        end_hour: Some(15),
        end_min: Some(30),
        days: Some(vec!["M".to_string(), "w".to_string(), "xyz".to_string()]),
        level_filter: Some(vec!["u".to_string(), "Z".to_string()]),
    };
    match search_type_from(body) {
        SearchType::Advanced(b) => {
            assert_eq!(b.subjects, vec!["CSE".to_string()]);
            assert!(b.courses.is_empty());
            assert_eq!(b.title.as_deref(), Some("algo"));
            assert!(b.only_open);
            assert_eq!(b.start_time, None);
            assert_eq!(b.end_time, Some((15, 30)));
            assert_eq!(b.days, (1 << 6) | (1 << 4));
            assert_eq!(b.level_filter, 1 << 8);
        }
        _ => panic!("expected an advanced search"),
    }
}

#[test]
fn negative_time_is_dropped() {
    let body = BodySearchType::SearchAdvanced {
        subjects: None,
        courses: None,
        departments: None,
        instructor: None,
        title: None,
        only_open: None,
        start_hour: Some(-1),
        start_min: Some(0),
        end_hour: None,
        end_min: None,
        days: None,
        level_filter: None,
    };
    match search_type_from(body) {
        SearchType::Advanced(b) => {
            assert_eq!(b.start_time, None);
            assert_eq!(b.days, 0);
            assert!(!b.only_open);
        }
        _ => panic!("expected an advanced search"),
    }
}

#[test]
fn section_bodies_pass_through() {
    match search_type_from(BodySearchType::SectionId { section_id: "079911".to_string() }) {
        SearchType::BySection(s) => assert_eq!(s, "079911"),
        _ => panic!("expected a section search"),
    }
    match search_type_from(BodySearchType::SectionIds { section_ids: vec!["1".to_string(), "2".to_string()] }) {
        SearchType::ByMultipleSections(v) => assert_eq!(v, vec!["1".to_string(), "2".to_string()]),
        _ => panic!("expected a multi-section search"),
    }
}
