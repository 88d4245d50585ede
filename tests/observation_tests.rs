use webreg_scraper::observation::{csv_header, csv_row, instructor_field, parse_csv_row, SectionCount};

fn section(instructors: Vec<&str>) -> SectionCount {
    SectionCount {
        subj_course_id: "CSE 100".to_string(),
        section_code: "A01".to_string(),
        section_id: "079911".to_string(),
        all_instructors: instructors.into_iter().map(|s| s.to_string()).collect(),
        available_seats: 5,
        waitlist_ct: 0,
        total_seats: 30,
        enrolled_ct: 25,
    }
}

#[test]
fn instructors_are_joined_and_commas_replaced() {
    let names = vec!["Doe, Jane".to_string(), "Roe, John".to_string()];
    assert_eq!(instructor_field(&names), "Doe; Jane & Roe; John");
}

#[test]
fn single_and_no_instructor() {
    assert_eq!(instructor_field(&vec!["Staff".to_string()]), "Staff");
    assert_eq!(instructor_field(&vec![]), "");
}

#[test]
fn row_holds_nine_columns_in_order() {
    let row = csv_row(1700000000123, &section(vec!["Doe, Jane", "Roe, John"]));
    assert_eq!(row, "1700000000123,CSE 100,A01,079911,Doe; Jane & Roe; John,5,0,30,25");
}

#[test]
fn negative_counts_are_written_with_a_sign() {
    let mut s = section(vec![]);
    s.available_seats = -3;
    assert_eq!(csv_row(0, &s), "0,CSE 100,A01,079911,,-3,0,30,25");
}

#[test]
fn row_parses_back_into_its_columns() {
    let s = section(vec!["Doe, Jane", "Roe, John"]);
    let row = csv_row(42, &s);
    let cols = parse_csv_row(&row);
    assert_eq!(cols.len(), 9);
    assert_eq!(cols[4], "Doe; Jane & Roe; John");
    assert!(!cols[4].contains(','));
    assert_eq!(cols[0], "42");
    assert_eq!(cols[8], "25");
}

#[test]
fn header_names_the_columns() {
    assert_eq!(
        csv_header(),
        "time,subj_course_id,sec_code,sec_id,prof,available,waitlist,total,enrolled_ct"
    );
    assert_eq!(parse_csv_row(&csv_header()).len(), 9);
}

#[test]
fn parse_keeps_empty_columns() {
    assert_eq!(parse_csv_row(",a,"), vec!["".to_string(), "a".to_string(), "".to_string()]);
    assert_eq!(parse_csv_row(""), vec!["".to_string()]);
}
