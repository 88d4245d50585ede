//! The CSV log that a term tracker appends to: one row per section per poll.

use vstd::prelude::*;
use crate::text::{
    join_strings, join_with, lemma_split_join, replace_char, replace_char_in, split_at_char,
    push_char, split_on, views_of,
};

verus! {

/// The enrollment figures of one section, as the portal reported them in one poll.
pub struct SectionCount {
    /// The subject and course, for example `CSE 100`.
    pub subj_course_id: String,
    /// The section code, for example `A01`.
    pub section_code: String,
    /// The section id, for example `079911`.
    pub section_id: String,
    /// Every instructor of the section, each written `Last, First`.
    pub all_instructors: Vec<String>,
    pub available_seats: i64,
    pub waitlist_ct: i64,
    pub total_seats: i64,
    pub enrolled_ct: i64,
}

/// The decimal digits of `n`, most significant first.
pub open spec fn digits_of(n: nat) -> Seq<char>
    decreases n,
{
    if n < 10 {
        seq![digit_char(n)]
    } else {
        digits_of(n / 10).push(digit_char(n % 10))
    }
}

pub open spec fn digit_char(d: nat) -> char {
    if d == 0 { '0' } else if d == 1 { '1' } else if d == 2 { '2' } else if d == 3 { '3' }
    else if d == 4 { '4' } else if d == 5 { '5' } else if d == 6 { '6' } else if d == 7 { '7' }
    else if d == 8 { '8' } else { '9' }
}

/// An integer in decimal, with a leading `-` when it is negative.
pub open spec fn int_text(n: int) -> Seq<char> {
    if n < 0 {
        seq!['-'] + digits_of((-n) as nat)
    } else {
        digits_of(n as nat)
    }
}

/// The separator between instructors in the `prof` column.
pub open spec fn instructor_sep() -> Seq<char> {
    seq![' ', '&', ' ']
}

/// The `prof` column: the instructors joined by ` & `, every comma written as `;`.
pub open spec fn prof_field(instructors: Seq<Seq<char>>) -> Seq<char> {
    replace_char(join_with(instructors, instructor_sep()), ',', ';')
}

/// The nine columns of the row written for `c` at epoch milliseconds `time`.
pub open spec fn row_fields(time: int, c: SectionCount) -> Seq<Seq<char>> {
    seq![
        int_text(time),
        c.subj_course_id@,
        c.section_code@,
        c.section_id@,
        prof_field(views_of(c.all_instructors@)),
        int_text(c.available_seats as int),
        int_text(c.waitlist_ct as int),
        int_text(c.total_seats as int),
        int_text(c.enrolled_ct as int),
    ]
}

/// The line written for `c` at `time`, without its line break.
pub open spec fn row_text(time: int, c: SectionCount) -> Seq<char> {
    join_with(row_fields(time, c), seq![','])
}

/// The columns that come from the portal as they are, which the format assumes free of commas.
pub open spec fn plain_columns(c: SectionCount) -> bool {
    !c.subj_course_id@.contains(',') && !c.section_code@.contains(',')
        && !c.section_id@.contains(',')
}

fn digit_text(d: u64) -> (c: char)
    requires
        d < 10,
    ensures
        c == digit_char(d as nat),
{
    if d == 0 { '0' } else if d == 1 { '1' } else if d == 2 { '2' } else if d == 3 { '3' }
    else if d == 4 { '4' } else if d == 5 { '5' } else if d == 6 { '6' } else if d == 7 { '7' }
    else if d == 8 { '8' } else { '9' }
}

fn push_digits(m: u64, out: &mut String)
    ensures
        final(out)@ == old(out)@ + digits_of(m as nat),
    decreases m,
{
    if m >= 10 {
        push_digits(m / 10, out);
    }
    push_char(out, digit_text(m % 10));
    assert(final(out)@ =~= old(out)@ + digits_of(m as nat));
}

/// An integer in decimal, `-` first when it is negative.
pub(crate) fn decimal_text(n: i64) -> (r: String)
    ensures
        r@ == int_text(n as int),
{
    let mut r = String::new();
    if n < 0 {
        push_char(&mut r, '-');
        let m: u64 = (0i128 - n as i128) as u64;
        push_digits(m, &mut r);
    } else {
        push_digits(n as u64, &mut r);
    }
    assert(r@ =~= int_text(n as int));
    r
}

/// The header line of a newly created log.
pub fn csv_header() -> (r: String)
    ensures
        r@ == "time,subj_course_id,sec_code,sec_id,prof,available,waitlist,total,enrolled_ct"@,
{
    String::from_str("time,subj_course_id,sec_code,sec_id,prof,available,waitlist,total,enrolled_ct")
}

/// The `prof` column for a list of instructors.
pub fn instructor_field(instructors: &Vec<String>) -> (r: String)
    ensures
        r@ == prof_field(views_of(instructors@)),
{
    let joined = join_strings(instructors, " & ");
    proof {
        reveal_strlit(" & ");
        assert(" & "@ =~= instructor_sep());
    }
    replace_char_in(joined.as_str(), ',', ';')
}

/// The line to append for section `c`, observed at epoch milliseconds `time`.
pub fn csv_row(time: i64, c: &SectionCount) -> (r: String)
    ensures
        r@ == row_text(time as int, *c),
{
    let mut cols: Vec<String> = Vec::new();
    cols.push(decimal_text(time));
    cols.push(c.subj_course_id.clone());
    cols.push(c.section_code.clone());
    cols.push(c.section_id.clone());
    cols.push(instructor_field(&c.all_instructors));
    cols.push(decimal_text(c.available_seats));
    cols.push(decimal_text(c.waitlist_ct));
    cols.push(decimal_text(c.total_seats));
    cols.push(decimal_text(c.enrolled_ct));
    let r = join_strings(&cols, ",");
    proof {
        reveal_strlit(",");
        assert(","@ =~= seq![',']);
        assert(views_of(cols@) =~= row_fields(time as int, *c));
    }
    r
}

/// The columns of a logged line.
pub fn parse_csv_row(line: &str) -> (r: Vec<String>)
    ensures
        views_of(r@) == split_on(line@, ','),
{
    split_at_char(line, ',')
}

pub proof fn lemma_digits_plain(n: nat)
    ensures
        !digits_of(n).contains(','),
    decreases n,
{
    if n >= 10 {
        lemma_digits_plain(n / 10);
        let d = digits_of(n);
        assert forall|k: int| 0 <= k < d.len() implies d[k] != ',' by {
            if k < d.len() - 1 {
                assert(d[k] == digits_of(n / 10)[k]);
            }
        }
    } else {
        assert(digits_of(n)[0] != ',');
    }
}

pub proof fn lemma_int_text_plain(n: int)
    ensures
        !int_text(n).contains(','),
{
    let m: nat = if n < 0 { (-n) as nat } else { n as nat };
    lemma_digits_plain(m);
    let t = int_text(n);
    assert forall|k: int| 0 <= k < t.len() implies t[k] != ',' by {
        if n < 0 && k > 0 {
            assert(t[k] == digits_of(m)[k - 1]);
        }
    }
}

/// The `prof` column never holds a comma.
pub proof fn lemma_prof_field_plain(instructors: Seq<Seq<char>>)
    ensures
        !prof_field(instructors).contains(','),
{
    let p = prof_field(instructors);
    assert forall|k: int| 0 <= k < p.len() implies p[k] != ',' by {}
}

/// Every logged line parses back into its nine columns, when the columns taken from the
/// portal as they are hold no comma; the `prof` column never does.
pub proof fn lemma_row_round_trip(time: i64, c: SectionCount)
    requires
        plain_columns(c),
    ensures
        split_on(row_text(time as int, c), ',') == row_fields(time as int, c),
        split_on(row_text(time as int, c), ',').len() == 9,
        !row_fields(time as int, c)[4].contains(','),
{
    let f = row_fields(time as int, c);
    lemma_int_text_plain(time as int);
    lemma_int_text_plain(c.available_seats as int);
    lemma_int_text_plain(c.waitlist_ct as int);
    lemma_int_text_plain(c.total_seats as int);
    lemma_int_text_plain(c.enrolled_ct as int);
    lemma_prof_field_plain(views_of(c.all_instructors@));
    assert forall|i: int| 0 <= i < f.len() implies !(#[trigger] f[i]).contains(',') by {
        if i == 0 {} else if i == 1 {} else if i == 2 {} else if i == 3 {} else if i == 4 {}
        else if i == 5 {} else if i == 6 {} else if i == 7 {} else {}
    }
    lemma_split_join(f, ',');
}

} // verus!
