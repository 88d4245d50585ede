//! Sections and meetings as the portal describes them, and the helpers that read the
//! portal's raw meeting records.

use vstd::prelude::*;
use vstd::string::StringSliceAdditionalSpecFns;
use crate::observation::{decimal_text, int_text};
use crate::text::{join_strings, join_with, trim_of, trimmed, views_of};

verus! {

/// A section: usually a lecture, a discussion and a final.
pub struct CourseSection {
    /// The subject and course, for example `CSE 100`.
    pub subj_course_id: String,
    /// The section id, for example `079912`.
    pub section_id: String,
    /// The section code, for example `B01`.
    pub section_code: String,
    pub instructor: String,
    pub available_seats: i64,
    pub total_seats: i64,
    pub waitlist_ct: i64,
    pub meetings: Vec<Meeting>,
}

/// When a meeting takes place.
pub enum MeetingDay {
    /// Every week, on these days (`M`, `Tu`, ...).
    Repeated(Vec<String>),
    /// Once, on this date.
    OneTime(String),
    /// No day is given.
    Unscheduled,
}

/// A meeting of a section.
pub struct Meeting {
    /// The meeting type, for example `LE`, `FI` or `DI`.
    pub meeting_type: String,
    pub meeting_days: MeetingDay,
    pub start_hr: i16,
    pub start_min: i16,
    pub end_hr: i16,
    pub end_min: i16,
    /// The building, for example `CENTR`.
    pub building: String,
    /// The room, for example `115`.
    pub room: String,
}

/// A meeting record as the portal sends it.
pub struct WebRegMeeting {
    pub end_time_hr: i16,
    pub end_time_min: i16,
    pub section_capacity: i64,
    pub enrolled_count: i64,
    pub section_number: String,
    pub count_on_waitlist: i64,
    pub room_code: String,
    pub start_time_min: i16,
    pub start_time_hr: i16,
    pub day_code: String,
    pub person_full_name: String,
    pub special_meeting: String,
    pub bldg_code: String,
    pub meeting_type: String,
    pub sect_code: String,
    pub avail_seat: i64,
    pub start_date: String,
    pub section_start_date: String,
    pub display_type: String,
    pub needs_waitlist: String,
}

/// A number written with at least two digits, as `{:02}` does.
pub open spec fn two_digits(n: int) -> Seq<char> {
    if 0 <= n < 10 {
        seq!['0'] + int_text(n)
    } else {
        int_text(n)
    }
}

/// The days of a meeting as one text.
pub open spec fn days_text(d: MeetingDay) -> Seq<char> {
    match d {
        MeetingDay::Repeated(r) => join_with(views_of(r@), Seq::empty()),
        MeetingDay::OneTime(r) => r@,
        MeetingDay::Unscheduled => seq!['N', '/', 'A'],
    }
}

/// `days type h:mm - h:mm`.
pub open spec fn flat_text(m: Meeting) -> Seq<char> {
    days_text(m.meeting_days) + seq![' '] + m.meeting_type@ + seq![' '] + int_text(m.start_hr as int)
        + seq![':'] + two_digits(m.start_min as int) + seq![' ', '-', ' '] + int_text(
        m.end_hr as int,
    ) + seq![':'] + two_digits(m.end_min as int)
}

fn two_digit_text(n: i16) -> (r: String)
    ensures
        r@ == two_digits(n as int),
{
    let t = decimal_text(n as i64);
    if 0 <= n && n < 10 {
        let mut r = String::from_str("0");
        r.append(t.as_str());
        proof {
            reveal_strlit("0");
        }
        assert(r@ =~= two_digits(n as int));
        r
    } else {
        t
    }
}

impl Meeting {
    /// The meeting in one line, for CSV files: its days, its type, and its times.
    pub fn to_flat_str(&self) -> (r: String)
        ensures
            r@ == flat_text(*self),
    {
        let mut s = match &self.meeting_days {
            MeetingDay::Repeated(r) => join_strings(r, ""),
            MeetingDay::OneTime(r) => r.clone(),
            MeetingDay::Unscheduled => String::from_str("N/A"),
        };
        proof {
            reveal_strlit("");
            reveal_strlit("N/A");
            reveal_strlit(" ");
            reveal_strlit(":");
            reveal_strlit(" - ");
            assert(""@ =~= Seq::<char>::empty());
            assert("N/A"@ =~= seq!['N', '/', 'A']);
        }
        assert(s@ == days_text(self.meeting_days));
        s.append(" ");
        s.append(self.meeting_type.as_str());
        s.append(" ");
        s.append(decimal_text(self.start_hr as i64).as_str());
        s.append(":");
        s.append(two_digit_text(self.start_min).as_str());
        s.append(" - ");
        s.append(decimal_text(self.end_hr as i64).as_str());
        s.append(":");
        s.append(two_digit_text(self.end_min).as_str());
        assert(s@ =~= flat_text(*self));
        s
    }
}

/// A meeting whose times and capacity are all zero belongs to a canceled section.
pub open spec fn valid_meeting(m: WebRegMeeting) -> bool {
    m.start_time_min != 0 || m.start_time_hr != 0 || m.end_time_min != 0 || m.end_time_hr != 0
        || m.section_capacity != 0
}

/// Whether a meeting record belongs to a section that was not canceled.
pub fn is_valid_meeting(webreg_meeting: &WebRegMeeting) -> (r: bool)
    ensures
        r == valid_meeting(*webreg_meeting),
{
    webreg_meeting.start_time_min != 0 || webreg_meeting.start_time_hr != 0
        || webreg_meeting.end_time_min != 0 || webreg_meeting.end_time_hr != 0
        || webreg_meeting.section_capacity != 0
}

/// The day name of a day digit (`0` Sunday to `6` Saturday).
pub open spec fn day_name(c: char) -> Seq<char> {
    if c == '0' {
        seq!['S', 'u']
    } else if c == '1' {
        seq!['M']
    } else if c == '2' {
        seq!['T', 'u']
    } else if c == '3' {
        seq!['W']
    } else if c == '4' {
        seq!['T', 'h']
    } else if c == '5' {
        seq!['F']
    } else {
        seq!['S', 'a']
    }
}

/// The days that a day code names, in its order; characters other than `0` to `6` are skipped.
pub open spec fn days_of_code(s: Seq<char>) -> Seq<Seq<char>>
    decreases s.len(),
{
    if s.len() == 0 {
        Seq::empty()
    } else {
        let prev = days_of_code(s.drop_last());
        if '0' <= s.last() && s.last() <= '6' {
            prev.push(day_name(s.last()))
        } else {
            prev
        }
    }
}

fn day_name_text(c: char) -> (r: String)
    requires
        '0' <= c <= '6',
    ensures
        r@ == day_name(c),
{
    proof {
        reveal_strlit("Su");
        reveal_strlit("M");
        reveal_strlit("Tu");
        reveal_strlit("W");
        reveal_strlit("Th");
        reveal_strlit("F");
        reveal_strlit("Sa");
    }
    let r = if c == '0' {
        String::from_str("Su")
    } else if c == '1' {
        String::from_str("M")
    } else if c == '2' {
        String::from_str("Tu")
    } else if c == '3' {
        String::from_str("W")
    } else if c == '4' {
        String::from_str("Th")
    } else if c == '5' {
        String::from_str("F")
    } else {
        String::from_str("Sa")
    };
    assert(r@ =~= day_name(c));
    r
}

/// Parses the days of the week out of a day code such as `135`.
pub fn parse_day_code(day_code_str: &str) -> (r: Vec<String>)
    ensures
        views_of(r@) == days_of_code(day_code_str@),
{
    let n = day_code_str.unicode_len();
    let mut s: Vec<String> = Vec::new();
    let mut i: usize = 0;
    while i < n
        invariant
            n == day_code_str@.len(),
            i <= n,
            views_of(s@) == days_of_code(day_code_str@.take(i as int)),
        decreases n - i,
    {
        let c = day_code_str.get_char(i);
        let ghost t = day_code_str@.take(i as int + 1);
        assert(t.drop_last() =~= day_code_str@.take(i as int));
        assert(t.last() == c);
        if '0' <= c && c <= '6' {
            s.push(day_name_text(c));
        }
        assert(views_of(s@) =~= days_of_code(t));
        i = i + 1;
    }
    assert(day_code_str@.take(n as int) =~= day_code_str@);
    s
}

/// The type and the days of a meeting, from its trimmed special-meeting text, type text
/// and day code: a special meeting (one that is neither empty nor `TBA`) happens once,
/// on its start date; any other meeting repeats on the days of its code, if it has one.
pub open spec fn meeting_type_date_spec(
    special: Seq<char>,
    regular: Seq<char>,
    day_code: Seq<char>,
    start_date: Seq<char>,
) -> (Seq<char>, Option<Seq<Seq<char>>>, Seq<char>) {
    if special.len() > 0 && special != seq!['T', 'B', 'A'] {
        (special, None, start_date)
    } else if day_code.len() == 0 {
        (regular, None, Seq::empty())
    } else {
        (regular, Some(days_of_code(day_code)), Seq::empty())
    }
}

/// What `meeting_type_date_spec` says of a result.
pub open spec fn meeting_matches(r: (String, MeetingDay), want: (Seq<char>, Option<Seq<Seq<char>>>, Seq<char>), one_time: bool) -> bool {
    &&& r.0@ == want.0
    &&& match r.1 {
        MeetingDay::Repeated(days) => want.1 == Some(views_of(days@)),
        MeetingDay::OneTime(d) => one_time && want.1 is None && d@ == want.2,
        MeetingDay::Unscheduled => !one_time && want.1 is None,
    }
}

/// The meeting type and days from already trimmed texts.
pub fn meeting_type_date_of(special: &str, regular: &str, day_code: &str, start_date: &str) -> (r: (String, MeetingDay))
    ensures
        meeting_matches(
            r,
            meeting_type_date_spec(special@, regular@, day_code@, start_date@),
            special@.len() > 0 && special@ != seq!['T', 'B', 'A'],
        ),
{
    proof {
        reveal_strlit("TBA");
        assert("TBA"@ =~= seq!['T', 'B', 'A']);
    }
    let is_special = special.unicode_len() > 0 && String::from_str(special) != String::from_str("TBA");
    if is_special {
        return (String::from_str(special), MeetingDay::OneTime(String::from_str(start_date)));
    }
    if day_code.unicode_len() == 0 {
        (String::from_str(regular), MeetingDay::Unscheduled)
    } else {
        (String::from_str(regular), MeetingDay::Repeated(parse_day_code(day_code)))
    }
}

/// The meeting type (lecture, final exam, discussion, ...) and the days of a meeting record.
pub fn parse_meeting_type_date(w_meeting: &WebRegMeeting) -> (r: (String, MeetingDay))
    ensures
        ({
            let special = trim_of(w_meeting.special_meeting@);
            meeting_matches(
                r,
                meeting_type_date_spec(
                    special,
                    trim_of(w_meeting.meeting_type@),
                    trim_of(w_meeting.day_code@),
                    w_meeting.start_date@,
                ),
                special.len() > 0 && special != seq!['T', 'B', 'A'],
            )
        }),
{
    let special = trimmed(w_meeting.special_meeting.as_str());
    let regular = trimmed(w_meeting.meeting_type.as_str());
    let day_code = trimmed(w_meeting.day_code.as_str());
    meeting_type_date_of(special, regular, day_code, w_meeting.start_date.as_str())
}

pub open spec fn is_ascii_alpha(b: u8) -> bool {
    (65 <= b <= 90) || (97 <= b <= 122)
}

pub open spec fn is_ascii_digit(b: u8) -> bool {
    48 <= b <= 57
}

/// A section code whose first character is a letter and whose second is a digit of 5 or
/// more, such as `A50`.
pub open spec fn useless_code(b: Seq<u8>) -> bool {
    is_ascii_alpha(b[0]) && is_ascii_digit(b[1]) && b[1] - 48 >= 5
}

/// Whether a section code, of at least two bytes, is one of the sections that are not
/// offered for enrollment: a letter followed by a digit of 5 or more.
pub fn is_useless_section(section_code: &str) -> (r: bool)
    requires
        section_code.spec_bytes().len() >= 2,
    ensures
        r == useless_code(section_code.spec_bytes()),
{
    let sec_code = section_code.as_bytes();
    let b0 = sec_code[0];
    let b1 = sec_code[1];
    ((65 <= b0 && b0 <= 90) || (97 <= b0 && b0 <= 122)) && (48 <= b1 && b1 <= 57) && b1 >= 53
}

} // verus!
