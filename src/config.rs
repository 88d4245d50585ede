//! The scraper's configuration, and the per-term information built from it at startup.

use vstd::prelude::*;
use vstd::string::StringSliceAdditionalSpecFns;
use vstd::utf8::encode_utf8;
use crate::search::{level_bit, CourseLevelFilter, SearchRequestBuilder};
use crate::stats::{empty_stats, StatTracker};
use crate::text::{upper_of, uppercase, views_of};

verus! {

/// An address and a port.
pub struct AddressPortInfo {
    pub address: String,
    pub port: i64,
}

/// One search a term's tracker runs: course levels (`g`, `u`, `l`) and departments.
pub struct ConfigSearchQuery {
    pub levels: Vec<String>,
    pub departments: Vec<String>,
}

/// One term to track.
pub struct ConfigTermDatum {
    /// The term, such as `FA22`: `FA`, `WI`, `SP`, `S1` or `S2`, then the year's two digits.
    pub term: String,
    /// The pause between two polls, in milliseconds.
    pub cooldown_ms: u64,
    pub search_query: Vec<ConfigSearchQuery>,
    /// Whether the term's observations are written to a file.
    pub save_data_to_file: bool,
}

/// The scraper's configuration.
pub struct ConfigScraper {
    pub config_name: String,
    pub api_base_endpoint: AddressPortInfo,
    pub cookie_server: AddressPortInfo,
    pub wrapper_data: Vec<ConfigTermDatum>,
    pub verbose: bool,
}

/// What the scraper holds for one term.
pub struct TermInfo {
    pub term: String,
    /// The pause between two polls, in milliseconds.
    pub cooldown_ms: u64,
    /// The searches that list the courses to poll.
    pub search_query: Vec<SearchRequestBuilder>,
    /// The statistics of this term's requests.
    pub tracker: StatTracker,
    pub should_save: bool,
}

/// The level that a configured token names: exactly `g`, `u` or `l`.
pub open spec fn config_level(t: Seq<char>) -> Option<CourseLevelFilter> {
    if t == seq!['g'] {
        Some(CourseLevelFilter::Graduate)
    } else if t == seq!['u'] {
        Some(CourseLevelFilter::UpperDivision)
    } else if t == seq!['l'] {
        Some(CourseLevelFilter::LowerDivision)
    } else {
        None
    }
}

pub open spec fn config_levels_mask(tokens: Seq<Seq<char>>) -> u32
    decreases tokens.len(),
{
    if tokens.len() == 0 {
        0
    } else {
        let prev = config_levels_mask(tokens.drop_last());
        match config_level(tokens.last()) {
            Some(f) => prev | level_bit(f),
            None => prev,
        }
    }
}

/// The configured departments that are kept, in capitals: those of at most 4 bytes.
pub open spec fn config_departments(ds: Seq<Seq<char>>) -> Seq<Seq<char>>
    decreases ds.len(),
{
    if ds.len() == 0 {
        Seq::empty()
    } else {
        let prev = config_departments(ds.drop_last());
        if encode_utf8(ds.last()).len() <= 4 {
            prev.push(upper_of(ds.last()))
        } else {
            prev
        }
    }
}

fn config_level_of(t: &String) -> (r: Option<CourseLevelFilter>)
    ensures
        r == config_level(t@),
{
    proof {
        reveal_strlit("g");
        reveal_strlit("u");
        reveal_strlit("l");
        assert("g"@ =~= seq!['g']);
        assert("u"@ =~= seq!['u']);
        assert("l"@ =~= seq!['l']);
    }
    if *t == String::from_str("g") {
        Some(CourseLevelFilter::Graduate)
    } else if *t == String::from_str("u") {
        Some(CourseLevelFilter::UpperDivision)
    } else if *t == String::from_str("l") {
        Some(CourseLevelFilter::LowerDivision)
    } else {
        None
    }
}

/// The search that a configured query stands for: its levels, and its departments in
/// capitals (one longer than 4 bytes is left out).
pub fn query_from_config(q: &ConfigSearchQuery) -> (r: SearchRequestBuilder)
    ensures
        r.level_filter == config_levels_mask(views_of(q.levels@)),
        views_of(r.departments@) == config_departments(views_of(q.departments@)),
        views_of(r.subjects@) == Seq::<Seq<char>>::empty(),
        views_of(r.courses@) == Seq::<Seq<char>>::empty(),
        r.instructor is None && r.title is None,
        r.days == 0 && r.start_time is None && r.end_time is None && !r.only_open,
{
    let mut parsed = SearchRequestBuilder::new();
    assert(views_of(parsed.departments@) =~= Seq::empty());
    assert(views_of(parsed.subjects@) =~= Seq::empty());
    assert(views_of(parsed.courses@) =~= Seq::empty());
    let ghost lv = views_of(q.levels@);
    let mut i: usize = 0;
    while i < q.levels.len()
        invariant
            i <= q.levels@.len(),
            lv == views_of(q.levels@),
            parsed.level_filter == config_levels_mask(lv.take(i as int)),
            views_of(parsed.departments@) == Seq::<Seq<char>>::empty(),
            views_of(parsed.subjects@) == Seq::<Seq<char>>::empty(),
            views_of(parsed.courses@) == Seq::<Seq<char>>::empty(),
            parsed.instructor is None && parsed.title is None,
            parsed.days == 0 && parsed.start_time is None && parsed.end_time is None
                && !parsed.only_open,
        decreases q.levels@.len() - i,
    {
        assert(lv.take(i as int + 1).drop_last() =~= lv.take(i as int));
        match config_level_of(&q.levels[i]) {
            Some(f) => {
                parsed = parsed.filter_courses_by(f);
            },
            None => {},
        }
        i = i + 1;
    }
    assert(lv.take(q.levels@.len() as int) =~= lv);
    assert(views_of(parsed.departments@) =~= Seq::empty());
    let ghost dv = views_of(q.departments@);
    let mut j: usize = 0;
    while j < q.departments.len()
        invariant
            j <= q.departments@.len(),
            dv == views_of(q.departments@),
            views_of(parsed.departments@) == config_departments(dv.take(j as int)),
            parsed.level_filter == config_levels_mask(lv),
            views_of(parsed.subjects@) == Seq::<Seq<char>>::empty(),
            views_of(parsed.courses@) == Seq::<Seq<char>>::empty(),
            parsed.instructor is None && parsed.title is None,
            parsed.days == 0 && parsed.start_time is None && parsed.end_time is None
                && !parsed.only_open,
        decreases q.departments@.len() - j,
    {
        let d = q.departments[j].as_str();
        assert(dv.take(j as int + 1).drop_last() =~= dv.take(j as int));
        assert(dv.take(j as int + 1).last() == d@);
        assert(d.spec_bytes() == encode_utf8(d@));
        let byte_len = d.as_bytes().len();
        if byte_len <= 4 {
            let ghost before = views_of(parsed.departments@);
            parsed.departments.push(uppercase(d));
            assert(views_of(parsed.departments@) =~= before.push(upper_of(d@)));
        }
        j = j + 1;
    }
    assert(dv.take(q.departments@.len() as int) =~= dv);
    parsed
}

/// The search built for a configured query, as far as the query decides it.
pub open spec fn query_matches(b: SearchRequestBuilder, q: ConfigSearchQuery) -> bool {
    &&& b.level_filter == config_levels_mask(views_of(q.levels@))
    &&& views_of(b.departments@) == config_departments(views_of(q.departments@))
    &&& views_of(b.subjects@) == Seq::<Seq<char>>::empty()
    &&& views_of(b.courses@) == Seq::<Seq<char>>::empty()
    &&& b.instructor is None && b.title is None
    &&& b.days == 0 && b.start_time is None && b.end_time is None && !b.only_open
}

/// The information held for a configured term: its searches built, its stats empty.
pub open spec fn info_matches(t: TermInfo, d: ConfigTermDatum) -> bool {
    &&& t.term == d.term
    &&& t.cooldown_ms == d.cooldown_ms
    &&& t.should_save == d.save_data_to_file
    &&& t.tracker@ == empty_stats()
    &&& t.search_query@.len() == d.search_query@.len()
    &&& forall|k: int|
        0 <= k < t.search_query@.len() ==> query_matches(
            #[trigger] t.search_query@[k],
            d.search_query@[k],
        )
}

/// Builds what is held for a configured term.
pub fn term_info_from(datum: ConfigTermDatum) -> (r: TermInfo)
    ensures
        info_matches(r, datum),
{
    let mut queries: Vec<SearchRequestBuilder> = Vec::new();
    let mut i: usize = 0;
    while i < datum.search_query.len()
        invariant
            i <= datum.search_query@.len(),
            queries@.len() == i,
            forall|k: int| 0 <= k < i ==> query_matches(#[trigger] queries@[k], datum.search_query@[k]),
        decreases datum.search_query@.len() - i,
    {
        let b = query_from_config(&datum.search_query[i]);
        queries.push(b);
        i = i + 1;
    }
    TermInfo {
        term: datum.term,
        cooldown_ms: datum.cooldown_ms,
        search_query: queries,
        tracker: StatTracker::new(),
        should_save: datum.save_data_to_file,
    }
}

/// The information of every configured term, in the configuration's order.
pub fn terms_from_config(data: Vec<ConfigTermDatum>) -> (r: Vec<TermInfo>)
    ensures
        r@.len() == data@.len(),
        forall|k: int| 0 <= k < r@.len() ==> info_matches(#[trigger] r@[k], data@[k]),
{
    let mut out: Vec<TermInfo> = Vec::new();
    let mut rest = data;
    let ghost all = rest@;
    while rest.len() > 0
        invariant
            out@.len() + rest@.len() == all.len(),
            rest@ == all.subrange(out@.len() as int, all.len() as int),
            forall|k: int| 0 <= k < out@.len() ==> info_matches(#[trigger] out@[k], all[k]),
        decreases rest@.len(),
    {
        let d = rest.remove(0);
        assert(d == all[out@.len() as int]);
        out.push(term_info_from(d));
        assert(rest@ =~= all.subrange(out@.len() as int, all.len() as int));
    }
    out
}

} // verus!
