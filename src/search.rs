//! Course searches: the builder of an advanced search, and how a search request's body
//! becomes a search.

use vstd::prelude::*;
use crate::text::{upper_of, uppercase, views_of};

verus! {

/// Course levels a search can be restricted to.
#[derive(PartialEq, Eq, Structural, Clone, Copy, Debug)]
pub enum CourseLevelFilter {
    /// Level 1-99 courses.
    LowerDivision,
    /// Level 87, 90 courses.
    FreshmenSeminar,
    /// Level 99 courses.
    LowerDivisionIndepStudy,
    /// Level 100-198 courses.
    UpperDivision,
    /// Level 195 courses.
    Apprenticeship,
    /// Level 199 courses.
    UpperDivisionIndepStudy,
    /// Level 200-297 courses.
    Graduate,
    /// Level 298 courses.
    GraduateIndepStudy,
    /// Level 299 courses.
    GraduateResearch,
    /// Level 300+ courses.
    Lvl300,
    /// Level 400+ courses.
    Lvl400,
    /// Level 500+ courses.
    Lvl500,
}

/// The bit of a level in the portal's level mask.
pub open spec fn level_bit(f: CourseLevelFilter) -> u32 {
    match f {
        CourseLevelFilter::LowerDivision => 1u32 << 11u32,
        CourseLevelFilter::FreshmenSeminar => 1u32 << 10u32,
        CourseLevelFilter::LowerDivisionIndepStudy => 1u32 << 9u32,
        CourseLevelFilter::UpperDivision => 1u32 << 8u32,
        CourseLevelFilter::Apprenticeship => 1u32 << 7u32,
        CourseLevelFilter::UpperDivisionIndepStudy => 1u32 << 6u32,
        CourseLevelFilter::Graduate => 1u32 << 5u32,
        CourseLevelFilter::GraduateIndepStudy => 1u32 << 4u32,
        CourseLevelFilter::GraduateResearch => 1u32 << 3u32,
        CourseLevelFilter::Lvl300 => 1u32 << 2u32,
        CourseLevelFilter::Lvl400 => 1u32 << 1u32,
        CourseLevelFilter::Lvl500 => 1u32 << 0u32,
    }
}

/// The bit of a day (Monday 1 to Sunday 7) in the portal's day mask.
pub open spec fn day_bit(day: u32) -> u32 {
    1u32 << (7 - day) as u32
}

/// An advanced course search.
pub struct SearchRequestBuilder {
    pub subjects: Vec<String>,
    pub courses: Vec<String>,
    pub departments: Vec<String>,
    pub instructor: Option<String>,
    pub title: Option<String>,
    pub level_filter: u32,
    pub days: u32,
    pub start_time: Option<(u32, u32)>,
    pub end_time: Option<(u32, u32)>,
    pub only_open: bool,
}

/// Whether a subject or department code is accepted: in capitals, at most 4 bytes.
pub open spec fn is_code(s: &str) -> bool {
    s@ == upper_of(s@) && s.len() <= 4
}

pub open spec fn same_search(a: SearchRequestBuilder, b: SearchRequestBuilder) -> bool {
    &&& views_of(a.subjects@) == views_of(b.subjects@)
    &&& views_of(a.courses@) == views_of(b.courses@)
    &&& views_of(a.departments@) == views_of(b.departments@)
    &&& a.instructor == b.instructor
    &&& a.title == b.title
    &&& a.level_filter == b.level_filter
    &&& a.days == b.days
    &&& a.start_time == b.start_time
    &&& a.end_time == b.end_time
    &&& a.only_open == b.only_open
}

/// Everything but the given parts is as in `a`.
pub open spec fn same_but_lists(a: SearchRequestBuilder, b: SearchRequestBuilder) -> bool {
    &&& a.instructor == b.instructor
    &&& a.title == b.title
    &&& a.level_filter == b.level_filter
    &&& a.days == b.days
    &&& a.start_time == b.start_time
    &&& a.end_time == b.end_time
    &&& a.only_open == b.only_open
}

pub open spec fn is_valid_clock(hour: u32, min: u32) -> bool {
    hour <= 23 && min <= 59
}

impl SearchRequestBuilder {
    /// An empty search: it asks for every course.
    pub fn new() -> (r: SearchRequestBuilder)
        ensures
            r.subjects@.len() == 0,
            r.courses@.len() == 0,
            r.departments@.len() == 0,
            r.instructor is None,
            r.title is None,
            r.level_filter == 0,
            r.days == 0,
            r.start_time is None,
            r.end_time is None,
            !r.only_open,
    {
        SearchRequestBuilder {
            subjects: Vec::new(),
            courses: Vec::new(),
            departments: Vec::new(),
            instructor: None,
            title: None,
            level_filter: 0,
            days: 0,
            start_time: None,
            end_time: None,
            only_open: false,
        }
    }

    /// Adds a subject such as `MATH` or `CSE`; one that is not in capitals or is longer
    /// than 4 bytes is ignored.
    pub fn add_subject(self, subject: &str) -> (r: SearchRequestBuilder)
        ensures
            is_code(subject) ==> views_of(r.subjects@) == views_of(self.subjects@).push(subject@),
            !is_code(subject) ==> views_of(r.subjects@) == views_of(self.subjects@),
            views_of(r.courses@) == views_of(self.courses@),
            views_of(r.departments@) == views_of(self.departments@),
            same_but_lists(r, self),
    {
        let mut s = self;
        let upper = uppercase(subject);
        if upper != String::from_str(subject) || subject.len() > 4 {
            return s;
        }
        s.subjects.push(String::from_str(subject));
        assert(views_of(s.subjects@) =~= views_of(self.subjects@).push(subject@));
        s
    }

    /// Adds a course (a subject code, a course code, or both), such as `20E` or `math 20d`.
    pub fn add_course(self, course: &str) -> (r: SearchRequestBuilder)
        ensures
            views_of(r.courses@) == views_of(self.courses@).push(course@),
            views_of(r.subjects@) == views_of(self.subjects@),
            views_of(r.departments@) == views_of(self.departments@),
            same_but_lists(r, self),
    {
        let mut s = self;
        s.courses.push(String::from_str(course));
        assert(views_of(s.courses@) =~= views_of(self.courses@).push(course@));
        s
    }

    /// Adds a department such as `MATH` or `CSE`; one that is not in capitals or is longer
    /// than 4 bytes is ignored.
    pub fn add_department(self, department: &str) -> (r: SearchRequestBuilder)
        ensures
            is_code(department) ==> views_of(r.departments@) == views_of(self.departments@).push(
                department@,
            ),
            !is_code(department) ==> views_of(r.departments@) == views_of(self.departments@),
            views_of(r.subjects@) == views_of(self.subjects@),
            views_of(r.courses@) == views_of(self.courses@),
            same_but_lists(r, self),
    {
        let mut s = self;
        let upper = uppercase(department);
        if upper != String::from_str(department) || department.len() > 4 {
            return s;
        }
        s.departments.push(String::from_str(department));
        assert(views_of(s.departments@) =~= views_of(self.departments@).push(department@));
        s
    }

    /// Sets the instructor, written `Last Name, First Name`.
    pub fn set_instructor(self, instructor: String) -> (r: SearchRequestBuilder)
        ensures
            r.instructor == Some(instructor),
            views_of(r.subjects@) == views_of(self.subjects@),
            views_of(r.courses@) == views_of(self.courses@),
            views_of(r.departments@) == views_of(self.departments@),
            r.title == self.title && r.level_filter == self.level_filter && r.days == self.days,
            r.start_time == self.start_time && r.end_time == self.end_time,
            r.only_open == self.only_open,
    {
        let mut s = self;
        s.instructor = Some(instructor);
        s
    }

    /// Sets (part of) the course title, such as `data structures`.
    pub fn set_title(self, title: String) -> (r: SearchRequestBuilder)
        ensures
            r.title == Some(title),
            views_of(r.subjects@) == views_of(self.subjects@),
            views_of(r.courses@) == views_of(self.courses@),
            views_of(r.departments@) == views_of(self.departments@),
            r.instructor == self.instructor && r.level_filter == self.level_filter && r.days
                == self.days,
            r.start_time == self.start_time && r.end_time == self.end_time,
            r.only_open == self.only_open,
    {
        let mut s = self;
        s.title = Some(title);
        s
    }

    /// Restricts the results to a course level as well; this can be applied several times.
    pub fn filter_courses_by(self, filter: CourseLevelFilter) -> (r: SearchRequestBuilder)
        ensures
            r.level_filter == self.level_filter | level_bit(filter),
            views_of(r.subjects@) == views_of(self.subjects@),
            views_of(r.courses@) == views_of(self.courses@),
            views_of(r.departments@) == views_of(self.departments@),
            r.instructor == self.instructor && r.title == self.title && r.days == self.days,
            r.start_time == self.start_time && r.end_time == self.end_time,
            r.only_open == self.only_open,
    {
        let mut s = self;
        let bit: u32 = match filter {
            CourseLevelFilter::LowerDivision => 1u32 << 11u32,
            CourseLevelFilter::FreshmenSeminar => 1u32 << 10u32,
            CourseLevelFilter::LowerDivisionIndepStudy => 1u32 << 9u32,
            CourseLevelFilter::UpperDivision => 1u32 << 8u32,
            CourseLevelFilter::Apprenticeship => 1u32 << 7u32,
            CourseLevelFilter::UpperDivisionIndepStudy => 1u32 << 6u32,
            CourseLevelFilter::Graduate => 1u32 << 5u32,
            CourseLevelFilter::GraduateIndepStudy => 1u32 << 4u32,
            CourseLevelFilter::GraduateResearch => 1u32 << 3u32,
            CourseLevelFilter::Lvl300 => 1u32 << 2u32,
            CourseLevelFilter::Lvl400 => 1u32 << 1u32,
            CourseLevelFilter::Lvl500 => 1u32 << 0u32,
        };
        s.level_filter = s.level_filter | bit;
        s
    }

    /// Shows only courses that meet on `day` as well (Monday 1, ..., Sunday 7); any other
    /// number is ignored.
    pub fn apply_days(self, day: u32) -> (r: SearchRequestBuilder)
        ensures
            1 <= day <= 7 ==> r.days == self.days | day_bit(day),
            !(1 <= day <= 7) ==> r.days == self.days,
            views_of(r.subjects@) == views_of(self.subjects@),
            views_of(r.courses@) == views_of(self.courses@),
            views_of(r.departments@) == views_of(self.departments@),
            r.instructor == self.instructor && r.title == self.title && r.level_filter
                == self.level_filter,
            r.start_time == self.start_time && r.end_time == self.end_time,
            r.only_open == self.only_open,
    {
        let mut s = self;
        if day < 1 || day > 7 {
            return s;
        }
        s.days = s.days | (1u32 << (7 - day));
        s
    }

    /// Sets the earliest start time; an hour above 23 or a minute above 59 is ignored.
    pub fn set_start_time(self, hour: u32, min: u32) -> (r: SearchRequestBuilder)
        ensures
            is_valid_clock(hour, min) ==> r.start_time == Some((hour, min)),
            !is_valid_clock(hour, min) ==> r.start_time == self.start_time,
            views_of(r.subjects@) == views_of(self.subjects@),
            views_of(r.courses@) == views_of(self.courses@),
            views_of(r.departments@) == views_of(self.departments@),
            r.instructor == self.instructor && r.title == self.title && r.level_filter
                == self.level_filter && r.days == self.days,
            r.end_time == self.end_time,
            r.only_open == self.only_open,
    {
        let mut s = self;
        if hour > 23 || min > 59 {
            return s;
        }
        s.start_time = Some((hour, min));
        s
    }

    /// Sets the latest end time; an hour above 23 or a minute above 59 is ignored.
    pub fn set_end_time(self, hour: u32, min: u32) -> (r: SearchRequestBuilder)
        ensures
            is_valid_clock(hour, min) ==> r.end_time == Some((hour, min)),
            !is_valid_clock(hour, min) ==> r.end_time == self.end_time,
            views_of(r.subjects@) == views_of(self.subjects@),
            views_of(r.courses@) == views_of(self.courses@),
            views_of(r.departments@) == views_of(self.departments@),
            r.instructor == self.instructor && r.title == self.title && r.level_filter
                == self.level_filter && r.days == self.days,
            r.start_time == self.start_time,
            r.only_open == self.only_open,
    {
        let mut s = self;
        if hour > 23 || min > 59 {
            return s;
        }
        s.end_time = Some((hour, min));
        s
    }

    /// Shows only sections with open seats.
    pub fn only_allow_open(self) -> (r: SearchRequestBuilder)
        ensures
            r.only_open,
            views_of(r.subjects@) == views_of(self.subjects@),
            views_of(r.courses@) == views_of(self.courses@),
            views_of(r.departments@) == views_of(self.departments@),
            r.instructor == self.instructor && r.title == self.title && r.level_filter
                == self.level_filter && r.days == self.days,
            r.start_time == self.start_time && r.end_time == self.end_time,
    {
        let mut s = self;
        s.only_open = true;
        s
    }
}

/// A search request's body: one section id, several, or an advanced search. Each field of
/// the advanced form is optional.
pub enum BodySearchType {
    SectionId { section_id: String },
    SectionIds { section_ids: Vec<String> },
    SearchAdvanced {
        subjects: Option<Vec<String>>,
        courses: Option<Vec<String>>,
        departments: Option<Vec<String>>,
        instructor: Option<String>,
        title: Option<String>,
        only_open: Option<bool>,
        start_hour: Option<i64>,
        start_min: Option<i64>,
        end_hour: Option<i64>,
        end_min: Option<i64>,
        days: Option<Vec<String>>,
        level_filter: Option<Vec<String>>,
    },
}

/// A search to hand to the portal.
pub enum SearchType {
    BySection(String),
    ByMultipleSections(Vec<String>),
    Advanced(SearchRequestBuilder),
}

/// `c` in lower case, for ASCII letters.
pub open spec fn ascii_lower(c: char) -> char {
    if 'A' <= c && c <= 'Z' {
        (((c as u32) + 32) as u8) as char
    } else {
        c
    }
}

pub open spec fn lower_text(s: Seq<char>) -> Seq<char> {
    s.map_values(|c: char| ascii_lower(c))
}

/// The day (Monday 1 to Sunday 7) that a token names, whatever its case.
pub open spec fn day_of_token(t: Seq<char>) -> u32 {
    let l = lower_text(t);
    if l == seq!['m'] {
        1
    } else if l == seq!['t', 'u'] {
        2
    } else if l == seq!['w'] {
        3
    } else if l == seq!['t', 'h'] {
        4
    } else if l == seq!['f'] {
        5
    } else if l == seq!['s', 'a'] {
        6
    } else if l == seq!['s', 'u'] {
        7
    } else {
        0
    }
}

/// The level that a token names (`l`, `u`, `g`, whatever the case), if any.
pub open spec fn level_of_token(t: Seq<char>) -> Option<CourseLevelFilter> {
    let l = lower_text(t);
    if l == seq!['l'] {
        Some(CourseLevelFilter::LowerDivision)
    } else if l == seq!['u'] {
        Some(CourseLevelFilter::UpperDivision)
    } else if l == seq!['g'] {
        Some(CourseLevelFilter::Graduate)
    } else {
        None
    }
}

/// The day mask that `tokens` ask for, on top of `days`; unknown tokens are ignored.
pub open spec fn days_mask(days: u32, tokens: Seq<Seq<char>>) -> u32
    decreases tokens.len(),
{
    if tokens.len() == 0 {
        days
    } else {
        let prev = days_mask(days, tokens.drop_last());
        let d = day_of_token(tokens.last());
        if 1 <= d <= 7 {
            prev | day_bit(d)
        } else {
            prev
        }
    }
}

/// The level mask that `tokens` ask for, on top of `levels`; unknown tokens are ignored.
pub open spec fn levels_mask(levels: u32, tokens: Seq<Seq<char>>) -> u32
    decreases tokens.len(),
{
    if tokens.len() == 0 {
        levels
    } else {
        let prev = levels_mask(levels, tokens.drop_last());
        match level_of_token(tokens.last()) {
            Some(f) => prev | level_bit(f),
            None => prev,
        }
    }
}

/// A clock time from a request: kept only when both parts are given, fit in `u32`, and
/// make a valid time.
pub open spec fn clock_from(hour: Option<i64>, min: Option<i64>) -> Option<(u32, u32)> {
    match (hour, min) {
        (Some(h), Some(m)) => {
            if 0 <= h <= 23 && 0 <= m <= 59 {
                Some((h as u32, m as u32))
            } else {
                None
            }
        },
        _ => None,
    }
}

fn text_eq(t: &str, expected: &str) -> (r: bool)
    ensures
        r == (t@ == expected@),
{
    String::from_str(t) == String::from_str(expected)
}

/// Copies `s` with its ASCII letters in lower case.
pub fn to_ascii_lower(s: &str) -> (r: String)
    ensures
        r@ == lower_text(s@),
{
    let n = s.unicode_len();
    let mut r = String::new();
    let mut i: usize = 0;
    while i < n
        invariant
            n == s@.len(),
            i <= n,
            r@ == lower_text(s@.take(i as int)),
        decreases n - i,
    {
        let c = s.get_char(i);
        let l = if 'A' <= c && c <= 'Z' {
            let code: u8 = ((c as u32) + 32) as u8;
            code as char
        } else {
            c
        };
        crate::text::push_char(&mut r, l);
        assert(r@ =~= lower_text(s@.take(i as int + 1)));
        i = i + 1;
    }
    assert(s@.take(n as int) =~= s@);
    r
}

/// The day (Monday 1 to Sunday 7) that a token names, or 0.
pub fn parse_day_token(token: &str) -> (r: u32)
    ensures
        r == day_of_token(token@),
{
    let l = to_ascii_lower(token);
    let ls = l.as_str();
    proof {
        reveal_strlit("m");
        reveal_strlit("tu");
        reveal_strlit("w");
        reveal_strlit("th");
        reveal_strlit("f");
        reveal_strlit("sa");
        reveal_strlit("su");
        assert("m"@ =~= seq!['m']);
        assert("tu"@ =~= seq!['t', 'u']);
        assert("w"@ =~= seq!['w']);
        assert("th"@ =~= seq!['t', 'h']);
        assert("f"@ =~= seq!['f']);
        assert("sa"@ =~= seq!['s', 'a']);
        assert("su"@ =~= seq!['s', 'u']);
    }
    if text_eq(ls, "m") {
        1
    } else if text_eq(ls, "tu") {
        2
    } else if text_eq(ls, "w") {
        3
    } else if text_eq(ls, "th") {
        4
    } else if text_eq(ls, "f") {
        5
    } else if text_eq(ls, "sa") {
        6
    } else if text_eq(ls, "su") {
        7
    } else {
        0
    }
}

/// The level that a token names, if any.
pub fn parse_level_token(token: &str) -> (r: Option<CourseLevelFilter>)
    ensures
        r == level_of_token(token@),
{
    let l = to_ascii_lower(token);
    let ls = l.as_str();
    proof {
        reveal_strlit("l");
        reveal_strlit("u");
        reveal_strlit("g");
        assert("l"@ =~= seq!['l']);
        assert("u"@ =~= seq!['u']);
        assert("g"@ =~= seq!['g']);
    }
    if text_eq(ls, "l") {
        Some(CourseLevelFilter::LowerDivision)
    } else if text_eq(ls, "u") {
        Some(CourseLevelFilter::UpperDivision)
    } else if text_eq(ls, "g") {
        Some(CourseLevelFilter::Graduate)
    } else {
        None
    }
}

fn clock_of(hour: Option<i64>, min: Option<i64>) -> (r: Option<(u32, u32)>)
    ensures
        r == clock_from(hour, min),
{
    match (hour, min) {
        (Some(h), Some(m)) => {
            if 0 <= h && h <= 23 && 0 <= m && m <= 59 {
                Some((h as u32, m as u32))
            } else {
                None
            }
        },
        _ => None,
    }
}

/// Adds the days that `tokens` name.
pub fn apply_day_tokens(search: SearchRequestBuilder, tokens: &Vec<String>) -> (r: SearchRequestBuilder)
    ensures
        r.days == days_mask(search.days, views_of(tokens@)),
        views_of(r.subjects@) == views_of(search.subjects@),
        views_of(r.courses@) == views_of(search.courses@),
        views_of(r.departments@) == views_of(search.departments@),
        r.instructor == search.instructor && r.title == search.title && r.level_filter
            == search.level_filter,
        r.start_time == search.start_time && r.end_time == search.end_time,
        r.only_open == search.only_open,
{
    let ghost v = views_of(tokens@);
    let mut s = search;
    let mut i: usize = 0;
    while i < tokens.len()
        invariant
            i <= tokens@.len(),
            v == views_of(tokens@),
            s.days == days_mask(search.days, v.take(i as int)),
            views_of(s.subjects@) == views_of(search.subjects@),
            views_of(s.courses@) == views_of(search.courses@),
            views_of(s.departments@) == views_of(search.departments@),
            s.instructor == search.instructor && s.title == search.title && s.level_filter
                == search.level_filter,
            s.start_time == search.start_time && s.end_time == search.end_time,
            s.only_open == search.only_open,
        decreases tokens@.len() - i,
    {
        let d = parse_day_token(tokens[i].as_str());
        s = s.apply_days(d);
        assert(v.take(i as int + 1).drop_last() =~= v.take(i as int));
        i = i + 1;
    }
    assert(v.take(tokens@.len() as int) =~= v);
    s
}

/// Adds the levels that `tokens` name.
pub fn apply_level_tokens(search: SearchRequestBuilder, tokens: &Vec<String>) -> (r: SearchRequestBuilder)
    ensures
        r.level_filter == levels_mask(search.level_filter, views_of(tokens@)),
        views_of(r.subjects@) == views_of(search.subjects@),
        views_of(r.courses@) == views_of(search.courses@),
        views_of(r.departments@) == views_of(search.departments@),
        r.instructor == search.instructor && r.title == search.title && r.days == search.days,
        r.start_time == search.start_time && r.end_time == search.end_time,
        r.only_open == search.only_open,
{
    let ghost v = views_of(tokens@);
    let mut s = search;
    let mut i: usize = 0;
    while i < tokens.len()
        invariant
            i <= tokens@.len(),
            v == views_of(tokens@),
            s.level_filter == levels_mask(search.level_filter, v.take(i as int)),
            views_of(s.subjects@) == views_of(search.subjects@),
            views_of(s.courses@) == views_of(search.courses@),
            views_of(s.departments@) == views_of(search.departments@),
            s.instructor == search.instructor && s.title == search.title && s.days
                == search.days,
            s.start_time == search.start_time && s.end_time == search.end_time,
            s.only_open == search.only_open,
        decreases tokens@.len() - i,
    {
        assert(v.take(i as int + 1).drop_last() =~= v.take(i as int));
        match parse_level_token(tokens[i].as_str()) {
            Some(f) => {
                s = s.filter_courses_by(f);
            },
            None => {},
        }
        i = i + 1;
    }
    assert(v.take(tokens@.len() as int) =~= v);
    s
}

pub open spec fn list_or_empty(o: Option<Vec<String>>) -> Seq<Seq<char>> {
    match o {
        Some(v) => views_of(v@),
        None => Seq::empty(),
    }
}

/// Turns a search request's body into the search to run: section ids as they are; the
/// advanced form field by field, times only when both parts are given and valid, and
/// day and level tokens whatever their case, unknown ones ignored.
pub fn search_type_from(body: BodySearchType) -> (r: SearchType)
    ensures
        body matches BodySearchType::SectionId { section_id } ==> (r matches SearchType::BySection(s) && s@ == section_id@),
        body matches BodySearchType::SectionIds { section_ids } ==> (r matches SearchType::ByMultipleSections(v) && views_of(v@) == views_of(section_ids@)),
        body matches BodySearchType::SearchAdvanced {
            subjects, courses, departments, instructor, title, only_open, start_hour, start_min,
            end_hour, end_min, days, level_filter,
        } ==> (r matches SearchType::Advanced(b) && {
            &&& views_of(b.subjects@) == list_or_empty(subjects)
            &&& views_of(b.courses@) == list_or_empty(courses)
            &&& views_of(b.departments@) == list_or_empty(departments)
            &&& b.instructor == instructor
            &&& b.title == title
            &&& b.only_open == (only_open == Some(true))
            &&& b.start_time == clock_from(start_hour, start_min)
            &&& b.end_time == clock_from(end_hour, end_min)
            &&& b.days == days_mask(0, list_or_empty(days))
            &&& b.level_filter == levels_mask(0, list_or_empty(level_filter))
        }),
{
    match body {
        BodySearchType::SectionId { section_id } => SearchType::BySection(section_id),
        BodySearchType::SectionIds { section_ids } => {
            let r = SearchType::ByMultipleSections(section_ids);
            r
        },
        BodySearchType::SearchAdvanced {
            subjects,
            courses,
            departments,
            instructor,
            title,
            only_open,
            start_hour,
            start_min,
            end_hour,
            end_min,
            days,
            level_filter,
        } => {
            let mut search = SearchRequestBuilder::new();
            assert(views_of(search.subjects@) =~= Seq::empty());
            assert(views_of(search.courses@) =~= Seq::empty());
            assert(views_of(search.departments@) =~= Seq::empty());
            if let Some(s) = subjects {
                search.subjects = s;
            }
            if let Some(c) = courses {
                search.courses = c;
            }
            if let Some(d) = departments {
                search.departments = d;
            }
            search.instructor = instructor;
            search.title = title;
            if let Some(o) = only_open {
                search.only_open = o;
            }
            search.start_time = clock_of(start_hour, start_min);
            search.end_time = clock_of(end_hour, end_min);
            let empty: Vec<String> = Vec::new();
            let search = match &days {
                Some(d) => apply_day_tokens(search, d),
                None => {
                    assert(views_of(empty@) =~= Seq::empty());
                    apply_day_tokens(search, &empty)
                },
            };
            let search = match &level_filter {
                Some(l) => apply_level_tokens(search, l),
                None => {
                    assert(views_of(empty@) =~= Seq::empty());
                    apply_level_tokens(search, &empty)
                },
            };
            SearchType::Advanced(search)
        },
    }
}

} // verus!
