//! The shapes of what clients send: request bodies, query strings, and the key
//! manager's command line.

use vstd::prelude::*;

verus! {

/// A body naming one section.
pub struct BodySectionId {
    pub section_id: String,
}

/// A body naming a section and, optionally, a schedule.
pub struct BodySectionScheduleNameId {
    pub section_id: String,
    pub schedule_name: Option<String>,
}

/// A body renaming a schedule.
pub struct BodyScheduleNameChange {
    pub old_name: String,
    pub new_name: String,
}

/// A body enrolling in, or waitlisting, a section.
pub struct BodyAddInfo {
    pub section_id: String,
    pub grading_option: Option<String>,
    pub unit_count: Option<i64>,
    pub validate: Option<bool>,
}

/// A body adding a section to a planned schedule.
pub struct BodyPlanAdd {
    pub subject_code: String,
    pub course_code: String,
    pub section_id: String,
    pub section_code: String,
    pub grading_option: Option<String>,
    pub schedule_name: Option<String>,
    pub unit_count: i64,
    pub validate: Option<bool>,
}

/// A query string naming a schedule.
pub struct ScheduleQueryStr {
    pub name: Option<String>,
}

/// A query string naming a course: `subject=CSE&number=8B`.
pub struct CourseQueryStr {
    pub subject: String,
    pub number: String,
}

/// A query string listing subject codes.
pub struct SubjListQueryStr {
    pub subjects: String,
}

/// A query string asking for the portal's answer as it is (`raw=true`).
pub struct RawQueryStr {
    pub raw: Option<bool>,
}

/// The search body of the earlier search endpoint.
pub struct CourseSearchJsonBody {
    pub subjects: Option<Vec<String>>,
    pub courses: Option<Vec<String>>,
    pub departments: Option<Vec<String>>,
    pub instructor: Option<String>,
    pub title: Option<String>,
    pub only_allow_open: Option<bool>,
    pub show_lower_div: Option<bool>,
    pub show_upper_div: Option<bool>,
    pub show_grad_div: Option<bool>,
    pub start_min: Option<i32>,
    pub start_hr: Option<i32>,
    pub end_min: Option<i32>,
    pub end_hr: Option<i32>,
    pub days: Option<Vec<String>>,
}

/// A section to add to a planned schedule.
pub struct PlanAdd {
    pub subject_code: String,
    pub course_code: String,
    pub section_number: String,
    pub section_code: String,
    /// `L`, `P` or `S`.
    pub grading_option: Option<String>,
    pub schedule_name: Option<String>,
    pub unit_count: u8,
}

/// How a section is graded.
#[derive(PartialEq, Eq, Structural, Clone, Copy, Debug)]
pub enum GradeOption {
    /// Letter grade.
    L,
    /// Pass/no pass.
    P,
    /// Satisfactory/unsatisfactory.
    S,
}

/// The grading option a request names: `L`, `P` or `S` in either case; anything else,
/// or nothing, means a letter grade.
pub open spec fn grade_option_of(g: Option<Seq<char>>) -> GradeOption {
    match g {
        Some(t) => {
            if t == seq!['P'] || t == seq!['p'] {
                GradeOption::P
            } else if t == seq!['S'] || t == seq!['s'] {
                GradeOption::S
            } else {
                GradeOption::L
            }
        },
        None => GradeOption::L,
    }
}

/// Reads a request's grading option and unit count: the unit count is kept only when it
/// fits in a byte.
pub fn parse_grade_option_unit_count(grading_option: &Option<String>, unit_count: Option<i64>) -> (r: (GradeOption, Option<u8>))
    ensures
        r.0 == grade_option_of(
            match grading_option {
                Some(g) => Some(g@),
                None => None,
            },
        ),
        r.1 == match unit_count {
            Some(d) => if 0 <= d <= 255 {
                Some(d as u8)
            } else {
                None
            },
            None => None,
        },
{
    proof {
        reveal_strlit("P");
        reveal_strlit("p");
        reveal_strlit("S");
        reveal_strlit("s");
        assert("P"@ =~= seq!['P']);
        assert("p"@ =~= seq!['p']);
        assert("S"@ =~= seq!['S']);
        assert("s"@ =~= seq!['s']);
    }
    let option = match grading_option {
        Some(g) => {
            if *g == String::from_str("P") || *g == String::from_str("p") {
                GradeOption::P
            } else if *g == String::from_str("S") || *g == String::from_str("s") {
                GradeOption::S
            } else {
                GradeOption::L
            }
        },
        None => GradeOption::L,
    };
    let units = match unit_count {
        Some(d) => if 0 <= d && d <= 255 {
            Some(d as u8)
        } else {
            None
        },
        None => None,
    };
    (option, units)
}

/// The key manager's command line.
pub struct CliArg {
    pub command: CliSubCmd,
}

/// The key manager's commands.
pub enum CliSubCmd {
    /// Creates a new API key.
    CreateKey { desc: Option<String> },
    /// Edits the description of an API key.
    EditDescription { prefix: String, desc: Option<String> },
    /// Deletes an API key by its prefix.
    DeleteKey { prefix: String },
    /// Checks that an API key is valid.
    CheckKey { prefix: String, token: String },
    /// Shows all API keys, with their tokens if asked.
    ShowAll { show_tokens: Option<bool> },
}

} // verus!
