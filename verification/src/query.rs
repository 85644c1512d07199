//! Query construction and pagination arithmetic: mapping committed filter
//! values to backend search parameters, the fixed time-range lookup table,
//! page-size parsing, and page-count arithmetic.

use vstd::prelude::*;
use vstd::string::StrSliceExecFns;
use vstd::string::StringExecFns;

use crate::text::push_char;
use crate::text::str_eq;

verus! {

/// One log record as the backend returns it; replaced wholesale on every
/// successful fetch.
#[derive(Clone, Debug)]
pub struct LogEntry {
    pub timestamp: String,
    pub message: String,
    pub severity: String,
    pub application: String,
    pub logger: String,
    pub thread: String,
    pub profiles: String,
    pub method: String,
    pub stacktrace: String,
    pub trace_id: Option<String>,
}

/// The facet values the backend offers for the three list-backed dimensions.
#[derive(Clone, Debug)]
pub struct AvailableFilters {
    pub environments: Vec<String>,
    pub applications: Vec<String>,
    pub severities: Vec<String>,
}

/// One page of results together with the whole query's hit count.
pub struct LogResult {
    pub logs: Vec<LogEntry>,
    pub total: u64,
}

/// The committed filter state of one fetch, as plain values.
pub struct QueryParams {
    pub environment: String,
    /// `None` omits the application clause (the "ALL" sentinel was selected).
    pub application: Option<String>,
    /// `None` omits the severity clause (the "ALL" sentinel was selected).
    pub severity: Option<String>,
    /// A relative time expression such as `now-5m`.
    pub time_range: String,
    /// `None` omits the free-text clause (the search text was empty).
    pub search: Option<String>,
    pub search_exact: bool,
    pub from: u64,
    pub size: u64,
}

/// One conjunct of the boolean query sent to the backend.
pub enum QueryClause {
    /// Match on the profiles (environment) field.
    Profile(String),
    /// Lower bound on the timestamp field, as a relative expression.
    TimeRange(String),
    /// Match on the application field.
    Application(String),
    /// Match on the severity field.
    Severity(String),
    /// Exact phrase match on the message field.
    Phrase(String),
    /// Wildcard pattern match on the message field.
    Wildcard(String),
}

/// Ghost image of a `QueryClause`.
pub enum ClauseView {
    Profile(Seq<char>),
    TimeRange(Seq<char>),
    Application(Seq<char>),
    Severity(Seq<char>),
    Phrase(Seq<char>),
    Wildcard(Seq<char>),
}

impl View for QueryClause {
    type V = ClauseView;

    open spec fn view(&self) -> ClauseView {
        match self {
            QueryClause::Profile(s) => ClauseView::Profile(s@),
            QueryClause::TimeRange(s) => ClauseView::TimeRange(s@),
            QueryClause::Application(s) => ClauseView::Application(s@),
            QueryClause::Severity(s) => ClauseView::Severity(s@),
            QueryClause::Phrase(s) => ClauseView::Phrase(s@),
            QueryClause::Wildcard(s) => ClauseView::Wildcard(s@),
        }
    }
}

impl DeepView for QueryClause {
    type V = ClauseView;

    open spec fn deep_view(&self) -> ClauseView {
        self.view()
    }
}

/// The conjuncts of the request built from committed filter state: the
/// required environment and time range, then one optional clause per
/// omittable dimension, then the free-text clause in the committed mode.
pub open spec fn spec_clauses(
    env: Seq<char>,
    app: Option<Seq<char>>,
    sev: Option<Seq<char>>,
    range: Seq<char>,
    search: Option<Seq<char>>,
    exact: bool,
) -> Seq<ClauseView> {
    let base = seq![ClauseView::Profile(env), ClauseView::TimeRange(range)];
    let with_app = match app {
        Some(a) => base.push(ClauseView::Application(a)),
        None => base,
    };
    let with_sev = match sev {
        Some(s) => with_app.push(ClauseView::Severity(s)),
        None => with_app,
    };
    match search {
        Some(q) => with_sev.push(
            if exact {
                ClauseView::Phrase(q)
            } else {
                ClauseView::Wildcard(seq!['*'] + q + seq!['*'])
            },
        ),
        None => with_sev,
    }
}

/// The full request handed to the backend collaborator.
pub struct SearchRequest {
    pub clauses: Vec<QueryClause>,
    pub from: u64,
    pub size: u64,
}

/// Build the backend request from committed filter state. An omitted
/// (`None`) application, severity or search contributes no clause at all.
pub fn build_search_request(p: QueryParams) -> (r: SearchRequest)
    ensures
        r.clauses.deep_view() == spec_clauses(
            p.environment@,
            p.application.deep_view(),
            p.severity.deep_view(),
            p.time_range@,
            p.search.deep_view(),
            p.search_exact,
        ),
        r.from == p.from,
        r.size == p.size,
{
    let ghost g = spec_clauses(
        p.environment@,
        p.application.deep_view(),
        p.severity.deep_view(),
        p.time_range@,
        p.search.deep_view(),
        p.search_exact,
    );
    let mut clauses: Vec<QueryClause> = Vec::new();
    clauses.push(QueryClause::Profile(p.environment));
    clauses.push(QueryClause::TimeRange(p.time_range));
    if let Some(a) = p.application {
        clauses.push(QueryClause::Application(a));
    }
    if let Some(s) = p.severity {
        clauses.push(QueryClause::Severity(s));
    }
    if let Some(q) = p.search {
        if p.search_exact {
            clauses.push(QueryClause::Phrase(q));
        } else {
            let mut pattern = String::new();
            push_char(&mut pattern, '*');
            pattern.append(q.as_str());
            push_char(&mut pattern, '*');
            proof {
                assert(pattern@ =~= seq!['*'] + q@ + seq!['*']);
            }
            clauses.push(QueryClause::Wildcard(pattern));
        }
    }
    proof {
        assert(clauses.deep_view() =~= g);
    }
    SearchRequest { clauses, from: p.from, size: p.size }
}

/// No clause for an omitted dimension: with the application or severity
/// left out (the "ALL" sentinel), the built request carries no conjunct of
/// that kind, and with an empty search no free-text conjunct.
pub proof fn lemma_omitted_dimension_has_no_clause(
    env: Seq<char>,
    app: Option<Seq<char>>,
    sev: Option<Seq<char>>,
    range: Seq<char>,
    search: Option<Seq<char>>,
    exact: bool,
)
    ensures
        app is None ==> forall|k: int|
            0 <= k < spec_clauses(env, app, sev, range, search, exact).len() ==> !(spec_clauses(
                env,
                app,
                sev,
                range,
                search,
                exact,
            )[k] is Application),
        sev is None ==> forall|k: int|
            0 <= k < spec_clauses(env, app, sev, range, search, exact).len() ==> !(spec_clauses(
                env,
                app,
                sev,
                range,
                search,
                exact,
            )[k] is Severity),
        search is None ==> forall|k: int|
            0 <= k < spec_clauses(env, app, sev, range, search, exact).len() ==> !(spec_clauses(
                env,
                app,
                sev,
                range,
                search,
                exact,
            )[k] is Phrase) && !(spec_clauses(env, app, sev, range, search, exact)[k] is Wildcard),
{
}

/// The relative time expression for a committed time-range token: a known
/// token maps to `now-` followed by itself; an unknown or absent token
/// falls back to `now-5m`.
pub open spec fn spec_time_expr(token: Option<Seq<char>>) -> Seq<char> {
    match token {
        None => "now-5m"@,
        Some(t) => {
            if t == "1m"@ {
                "now-1m"@
            } else if t == "5m"@ {
                "now-5m"@
            } else if t == "15m"@ {
                "now-15m"@
            } else if t == "30m"@ {
                "now-30m"@
            } else if t == "1h"@ {
                "now-1h"@
            } else if t == "3h"@ {
                "now-3h"@
            } else if t == "6h"@ {
                "now-6h"@
            } else if t == "12h"@ {
                "now-12h"@
            } else if t == "24h"@ {
                "now-24h"@
            } else if t == "3d"@ {
                "now-3d"@
            } else if t == "7d"@ {
                "now-7d"@
            } else {
                "now-5m"@
            }
        },
    }
}

/// Map a committed time-range token to its relative expression.
pub fn time_range_expr(token: &str) -> (r: &'static str)
    ensures
        r@ == spec_time_expr(Some(token@)),
{
    if str_eq(token, "1m") {
        "now-1m"
    } else if str_eq(token, "5m") {
        "now-5m"
    } else if str_eq(token, "15m") {
        "now-15m"
    } else if str_eq(token, "30m") {
        "now-30m"
    } else if str_eq(token, "1h") {
        "now-1h"
    } else if str_eq(token, "3h") {
        "now-3h"
    } else if str_eq(token, "6h") {
        "now-6h"
    } else if str_eq(token, "12h") {
        "now-12h"
    } else if str_eq(token, "24h") {
        "now-24h"
    } else if str_eq(token, "3d") {
        "now-3d"
    } else if str_eq(token, "7d") {
        "now-7d"
    } else {
        "now-5m"
    }
}

/// A decimal digit.
pub open spec fn is_digit(c: char) -> bool {
    '0' <= c && c <= '9'
}

pub open spec fn digit_val(c: char) -> int {
    c as int - '0' as int
}

pub open spec fn all_digits(s: Seq<char>) -> bool {
    forall|i: int| 0 <= i < s.len() ==> is_digit(s[i])
}

/// The value of a digit string read in base ten.
pub open spec fn dec_value(s: Seq<char>) -> int
    decreases s.len(),
{
    if s.len() == 0 {
        0
    } else {
        dec_value(s.drop_last()) * 10 + digit_val(s.last())
    }
}

/// The canonical decimal digit string of `n` (no leading zeros).
pub open spec fn dec_str(n: nat) -> Seq<char>
    decreases n,
{
    if n < 10 {
        seq![digit_char(n as int)]
    } else {
        dec_str(n / 10).push(digit_char((n % 10) as int))
    }
}

pub open spec fn digit_char(d: int) -> char {
    if d == 0 {
        '0'
    } else if d == 1 {
        '1'
    } else if d == 2 {
        '2'
    } else if d == 3 {
        '3'
    } else if d == 4 {
        '4'
    } else if d == 5 {
        '5'
    } else if d == 6 {
        '6'
    } else if d == 7 {
        '7'
    } else if d == 8 {
        '8'
    } else {
        '9'
    }
}

/// Render `n` in decimal.
pub fn u64_to_dec(n: u64) -> (r: String)
    ensures
        r@ == dec_str(n as nat),
    decreases n,
{
    if n < 10 {
        let c = match n {
            0 => '0',
            1 => '1',
            2 => '2',
            3 => '3',
            4 => '4',
            5 => '5',
            6 => '6',
            7 => '7',
            8 => '8',
            _ => '9',
        };
        let mut s = String::new();
        push_char(&mut s, c);
        proof {
            assert(s@ =~= dec_str(n as nat));
        }
        s
    } else {
        let mut s = u64_to_dec(n / 10);
        let d = n % 10;
        let c = match d {
            0 => '0',
            1 => '1',
            2 => '2',
            3 => '3',
            4 => '4',
            5 => '5',
            6 => '6',
            7 => '7',
            8 => '8',
            _ => '9',
        };
        push_char(&mut s, c);
        proof {
            assert(s@ =~= dec_str(n as nat));
        }
        s
    }
}

/// Every digit string has a non-negative value, no larger than the value of
/// any digit string it is a prefix of.
pub proof fn lemma_dec_value_nonneg(s: Seq<char>)
    requires
        all_digits(s),
    ensures
        dec_value(s) >= 0,
    decreases s.len(),
{
    if s.len() > 0 {
        assert(all_digits(s.drop_last())) by {
            assert(forall|i: int| 0 <= i < s.len() - 1 ==> s.drop_last()[i] == s[i]);
        }
        lemma_dec_value_nonneg(s.drop_last());
    }
}

proof fn lemma_dec_value_prefix(s: Seq<char>, i: int)
    requires
        all_digits(s),
        0 <= i <= s.len(),
    ensures
        dec_value(s.take(i)) <= dec_value(s),
    decreases s.len() - i,
{
    if i < s.len() {
        lemma_dec_value_prefix(s, i + 1);
        let t = s.take(i + 1);
        assert(t.drop_last() =~= s.take(i));
        assert(all_digits(s.take(i))) by {
            assert(forall|k: int| 0 <= k < i ==> s.take(i)[k] == s[k]);
        }
        lemma_dec_value_nonneg(s.take(i));
        assert(dec_value(s.take(i)) * 10 >= dec_value(s.take(i))) by (nonlinear_arith)
            requires
                dec_value(s.take(i)) >= 0,
        ;
        assert(is_digit(t.last()));
        assert(digit_val(t.last()) >= 0);
        assert(dec_value(t) == dec_value(s.take(i)) * 10 + digit_val(t.last()));
        assert(dec_value(s.take(i)) <= dec_value(t));
    } else {
        assert(s.take(i) =~= s);
    }
}

/// Parse a page-size string: the value of a non-empty all-digit string whose
/// value fits, nothing otherwise.
pub fn parse_page_size(s: &str) -> (r: Option<i64>)
    ensures
        match r {
            Some(v) => s@.len() > 0 && all_digits(s@) && v == dec_value(s@),
            None => s@.len() == 0 || !all_digits(s@) || dec_value(s@) > i64::MAX,
        },
{
    let n = s.unicode_len();
    if n == 0 {
        return None;
    }
    let mut acc: i64 = 0;
    let mut i: usize = 0;
    while i < n
        invariant
            n == s@.len(),
            0 < n,
            i <= n,
            all_digits(s@.take(i as int)),
            0 <= acc,
            acc == dec_value(s@.take(i as int)),
        decreases n - i,
    {
        let c = s.get_char(i);
        if c < '0' || c > '9' {
            proof {
                assert(!is_digit(s@[i as int]));
            }
            return None;
        }
        let d: i64 = (c as u32 as i64) - ('0' as u32 as i64);
        proof {
            assert(s@.take(i as int + 1).drop_last() =~= s@.take(i as int));
            assert(all_digits(s@.take(i as int + 1))) by {
                assert(forall|k: int|
                    0 <= k < i ==> s@.take(i as int + 1)[k] == s@.take(i as int)[k]);
                assert(s@.take(i as int + 1)[i as int] == s@[i as int]);
            }
        }
        if acc > (i64::MAX - d) / 10 {
            proof {
                let m = i64::MAX as int;
                vstd::arithmetic::div_mod::lemma_fundamental_div_mod(m - d, 10);
                assert(acc * 10 >= ((m - d) / 10) * 10 + 10) by (nonlinear_arith)
                    requires
                        acc > (m - d) / 10,
                ;
                assert(digit_val(s@.take(i as int + 1).last()) == d);
                assert(dec_value(s@.take(i as int + 1)) > m);
                if all_digits(s@) {
                    lemma_dec_value_prefix(s@, i as int + 1);
                    assert(dec_value(s@) > m);
                }
            }
            return None;
        }
        proof {
            let m = i64::MAX as int;
            vstd::arithmetic::div_mod::lemma_fundamental_div_mod(m - d, 10);
            assert(acc * 10 <= ((m - d) / 10) * 10) by (nonlinear_arith)
                requires
                    0 <= acc <= (m - d) / 10,
            ;
        }
        acc = acc * 10 + d;
        i += 1;
    }
    proof {
        assert(s@.take(n as int) =~= s@);
    }
    Some(acc)
}

/// The page size a selected value commits: its parsed value, or `100` when
/// no value is selected or the value does not parse.
pub open spec fn spec_page_size(v: Option<Seq<char>>) -> int {
    match v {
        Some(s) => if s.len() > 0 && all_digits(s) && dec_value(s) <= i64::MAX {
            dec_value(s)
        } else {
            100
        },
        None => 100,
    }
}

/// The number of pages `total_hits` results make at `page_size` results per
/// page: the ceiling of the quotient, at least `1`, and `1` again when the
/// page size is no positive number (never a division by zero).
pub open spec fn spec_total_pages(total_hits: int, page_size: int) -> int {
    if page_size <= 0 {
        1
    } else {
        let full = total_hits / page_size;
        let p = if total_hits % page_size == 0 {
            full
        } else {
            full + 1
        };
        if p < 1 {
            1
        } else {
            p
        }
    }
}

/// Page-count arithmetic over machine integers.
pub fn total_pages_for(total_hits: u64, page_size: i64) -> (r: u64)
    requires
        page_size >= 0,
    ensures
        r == spec_total_pages(total_hits as int, page_size as int),
{
    if page_size <= 0 {
        return 1;
    }
    let size = page_size as u64;
    let full = total_hits / size;
    let rem = total_hits % size;
    if rem == 0 {
        if full == 0 {
            1
        } else {
            full
        }
    } else {
        proof {
            vstd::arithmetic::div_mod::lemma_fundamental_div_mod(
                total_hits as int,
                size as int,
            );
            assert(full <= full * (size as int)) by (nonlinear_arith)
                requires
                    full >= 0,
                    size >= 1,
            ;
        }
        full + 1
    }
}

} // verus!
