use vstd::prelude::*;
use crate::scan::{parse_i64_chars, parse_i64_spec, split_on};
use crate::text::{chars_of, int_text, owned, push_char, push_int, push_str, same_text, string_of};
use crate::scan::lemma_int_text_parses;
use crate::uri::{law_uri_round_trip, push_uri_component, uri_component, uri_decoded};

verus! {

/// Parsed list page query parameters.
#[derive(Debug, Clone, PartialEq)]
pub struct ListQueryParams {
    pub query: String,
    pub offset: i64,
    pub limit: i64,
}

/// The text of an optional parameter.
pub open spec fn param_text(o: Option<&str>) -> Option<Seq<char>> {
    match o {
        Some(s) => Some(s@),
        None => None,
    }
}

/// A numeric parameter: its value when present and a valid `i64`, else
/// `default`.
pub open spec fn number_or(value: Option<Seq<char>>, default: i64) -> i64 {
    match value {
        Some(s) => match parse_i64_spec(s) {
            Some(v) => v,
            None => default,
        },
        None => default,
    }
}

fn number_param(value: Option<&str>, default: i64) -> (r: i64)
    ensures
        r == number_or(param_text(value), default),
{
    match value {
        Some(s) => match parse_i64_chars(&chars_of(s)) {
            Some(v) => v,
            None => default,
        },
        None => default,
    }
}

/// Reads the query parameters of a list page: the query (empty when
/// absent), the offset (0 when absent or not a number) and the limit
/// (`default_limit` when absent or not a number).
pub fn list_query_params(query: Option<&str>, offset: Option<&str>, limit: Option<&str>, default_limit: i64) -> (p: ListQueryParams)
    ensures
        p.query@ == (match query {
            Some(q) => q@,
            None => Seq::empty(),
        }),
        p.offset == number_or(param_text(offset), 0),
        p.limit == number_or(param_text(limit), default_limit),
{
    ListQueryParams {
        query: match query {
            Some(q) => owned(q),
            None => String::new(),
        },
        offset: number_param(offset, 0),
        limit: number_param(limit, default_limit),
    }
}

/// The URL of a list page: `base?query=..&offset=..&limit=..`, where the
/// query part is left out when the query is empty, the offset part when the
/// offset is not positive, and the query is written URI-component encoded.
pub open spec fn list_url(base: Seq<char>, query: Seq<char>, offset: int, limit: int) -> Seq<char> {
    base + "?"@ + (if query.len() > 0 {
        "query="@ + uri_component(query) + "&"@
    } else {
        Seq::empty()
    }) + (if offset > 0 {
        "offset="@ + int_text(offset) + "&"@
    } else {
        Seq::empty()
    }) + "limit="@ + int_text(limit)
}

/// What a list page reads back from the parameters that `build_list_url`
/// wrote: the query, written URI-component encoded, decodes back to itself;
/// an offset, written only when positive, reads back as itself (an omitted
/// one as 0); the limit reads back as itself.
pub proof fn law_list_url_read_back(query: Seq<char>, offset: i64, limit: i64, default_limit: i64)
    requires
        offset >= 0,
    ensures
        uri_decoded(uri_component(query)) == Some(query),
        number_or(
            if offset > 0 {
                Some(int_text(offset as int))
            } else {
                None
            },
            0,
        ) == offset,
        number_or(Some(int_text(limit as int)), default_limit) == limit,
{
    law_uri_round_trip(query);
    lemma_int_text_parses(offset);
    lemma_int_text_parses(limit);
}

/// Builds the URL of a list page with its query parameters.
pub fn build_list_url(base: &str, query: &str, offset: i64, limit: i64) -> (r: String)
    ensures
        r@ == list_url(base@, query@, offset as int, limit as int),
{
    let mut r = String::new();
    push_str(&mut r, base);
    push_str(&mut r, "?");
    let ghost head = r@;
    if !query.is_empty() {
        push_str(&mut r, "query=");
        push_uri_component(&mut r, query);
        push_str(&mut r, "&");
        assert(r@ =~= head + ("query="@ + uri_component(query@) + "&"@));
    }
    let ghost mid = r@;
    if offset > 0 {
        push_str(&mut r, "offset=");
        push_int(&mut r, offset);
        push_str(&mut r, "&");
        assert(r@ =~= mid + ("offset="@ + int_text(offset as int) + "&"@));
    }
    push_str(&mut r, "limit=");
    push_int(&mut r, limit);
    assert(r@ =~= list_url(base@, query@, offset as int, limit as int));
    r
}

/// The date part of an ISO timestamp: the text before the first `T`, or the
/// whole text when there is none.
pub open spec fn time_short(timestamp: Seq<char>) -> Seq<char> {
    split_on(timestamp, 'T')[0]
}

proof fn lemma_split_first(s: Seq<char>, sep: char, i: int)
    requires
        0 <= i <= s.len(),
        forall|j: int| 0 <= j < i ==> s[j] != sep,
    ensures
        split_on(s.take(i), sep).len() == 1,
        split_on(s.take(i), sep)[0] == s.take(i),
    decreases i,
{
    if i > 0 {
        lemma_split_first(s, sep, i - 1);
        assert(s.take(i).drop_last() == s.take(i - 1));
    }
}

proof fn lemma_split_first_stays(s: Seq<char>, sep: char, i: int)
    requires
        0 <= i <= s.len(),
        split_on(s.take(i), sep).len() >= 1,
    ensures
        split_on(s, sep).len() >= 1,
        split_on(s, sep).len() >= split_on(s.take(i), sep).len(),
        split_on(s.take(i), sep).len() >= 2 ==> split_on(s, sep)[0] == split_on(s.take(i), sep)[0],
    decreases s.len() - i,
{
    if i < s.len() {
        assert(s.take(i + 1).drop_last() == s.take(i));
        assert(split_on(s.take(i + 1), sep).len() >= 1);
        lemma_split_first_stays(s, sep, i + 1);
    } else {
        assert(s.take(i) == s);
    }
}

/// The position of the first `sep` in `s` at or after `i`, or the length of
/// `s` when there is none.
proof fn first_sep(s: Seq<char>, sep: char, i: int) -> (k: int)
    requires
        0 <= i <= s.len(),
        forall|j: int| 0 <= j < i ==> s[j] != sep,
    ensures
        i <= k <= s.len(),
        forall|j: int| 0 <= j < k ==> s[j] != sep,
        k < s.len() ==> s[k] == sep,
    decreases s.len() - i,
{
    if i == s.len() || s[i] == sep {
        i
    } else {
        first_sep(s, sep, i + 1)
    }
}

/// The date part is the text before the first `T`: `s` cut at the first
/// `T`, or all of `s` when it has none.
proof fn lemma_time_short_cut(s: Seq<char>) -> (k: int)
    ensures
        0 <= k <= s.len(),
        forall|j: int| 0 <= j < k ==> s[j] != 'T',
        k < s.len() ==> s[k] == 'T',
        time_short(s) == s.take(k),
{
    let k = first_sep(s, 'T', 0);
    lemma_split_first(s, 'T', k);
    if k < s.len() {
        assert(s.take(k + 1).drop_last() == s.take(k));
        assert(split_on(s.take(k + 1), 'T') == seq![s.take(k), Seq::<char>::empty()]);
        lemma_split_first_stays(s, 'T', k + 1);
    } else {
        assert(s.take(k) == s);
    }
    k
}

/// The date part of a timestamp is a prefix of it that holds no `T`; it is
/// the whole timestamp exactly when the timestamp holds no `T`; and taking
/// the date part again changes nothing.
pub proof fn law_time_short(timestamp: Seq<char>)
    ensures
        time_short(timestamp).len() <= timestamp.len(),
        timestamp.take(time_short(timestamp).len() as int) == time_short(timestamp),
        !time_short(timestamp).contains('T'),
        (time_short(timestamp) == timestamp) <==> !timestamp.contains('T'),
        time_short(time_short(timestamp)) == time_short(timestamp),
{
    let k = lemma_time_short_cut(timestamp);
    let r = time_short(timestamp);
    assert(r.len() == k);
    if r.contains('T') {
        let j = choose|j: int| 0 <= j < r.len() && r[j] == 'T';
        assert(timestamp[j] == 'T');
    }
    if timestamp.contains('T') {
        assert(k < timestamp.len());
        assert(r.len() != timestamp.len());
    } else {
        if k < timestamp.len() {
            assert(timestamp[k] == 'T');
        }
        assert(r =~= timestamp);
    }
    let k2 = lemma_time_short_cut(r);
    if k2 < r.len() {
        assert(r[k2] == timestamp[k2]);
    }
    assert(r.take(k2) =~= r);
}

/// Formats an ISO timestamp for display as its date.
pub fn format_time_short(timestamp: &str) -> (r: String)
    ensures
        r@ == time_short(timestamp@),
{
    let v = chars_of(timestamp);
    let mut i: usize = 0;
    while i < v.len() && v[i] != 'T'
        invariant
            i <= v@.len(),
            v@ == timestamp@,
            forall|j: int| 0 <= j < i ==> v@[j] != 'T',
        decreases v.len() - i,
    {
        i += 1;
    }
    proof {
        lemma_split_first(v@, 'T', i as int);
        if i < v.len() {
            assert(v@.take(i + 1).drop_last() == v@.take(i as int));
            assert(split_on(v@.take(i + 1), 'T') == seq![v@.take(i as int), Seq::<char>::empty()]);
            lemma_split_first_stays(v@, 'T', i + 1);
        } else {
            assert(v@.take(i as int) == v@);
        }
    }
    let mut out: Vec<char> = Vec::new();
    let mut j: usize = 0;
    while j < i
        invariant
            j <= i <= v@.len(),
            out@ == v@.take(j as int),
        decreases i - j,
    {
        out.push(v[j]);
        j += 1;
        assert(out@ =~= v@.take(j as int));
    }
    string_of(&out)
}


/// The unit and count that describe `secs` seconds, with months of 30 days
/// and years of 365 days.
pub open spec fn elapsed_unit(secs: int) -> (int, Seq<char>) {
    if secs < 60 {
        (secs, "second"@)
    } else if secs < 3600 {
        (secs / 60, "minute"@)
    } else if secs < 86400 {
        (secs / 3600, "hour"@)
    } else if secs < 2_592_000 {
        (secs / 86400, "day"@)
    } else if secs < 31_536_000 {
        (secs / 2_592_000, "month"@)
    } else {
        (secs / 31_536_000, "year"@)
    }
}

/// The relative time text for a timestamp `elapsed` seconds in the past:
/// the timestamp itself when it could not be read, `just now` when it lies
/// in the future, else `N unit ago` with a plural `s` unless `N` is 1.
pub open spec fn relative_time_text(timestamp: Seq<char>, elapsed: Option<i64>) -> Seq<char> {
    match elapsed {
        None => timestamp,
        Some(secs) => if secs < 0 {
            "just now"@
        } else {
            let (value, unit) = elapsed_unit(secs as int);
            int_text(value) + " "@ + unit + (if value == 1 {
                Seq::empty()
            } else {
                "s"@
            }) + " ago"@
        },
    }
}

/// Formats a timestamp as a relative time, given how many whole seconds ago
/// it lies (`None` when the timestamp could not be read as a date).
pub fn format_relative_time(timestamp: &str, elapsed: Option<i64>) -> (r: String)
    ensures
        r@ == relative_time_text(timestamp@, elapsed),
{
    let mut r = String::new();
    match elapsed {
        None => {
            push_str(&mut r, timestamp);
        },
        Some(secs) => {
            if secs < 0 {
                push_str(&mut r, "just now");
            } else {
                let (value, unit): (i64, &str) = if secs < 60 {
                    (secs, "second")
                } else if secs < 3600 {
                    (secs / 60, "minute")
                } else if secs < 86400 {
                    (secs / 3600, "hour")
                } else if secs < 2_592_000 {
                    (secs / 86400, "day")
                } else if secs < 31_536_000 {
                    (secs / 2_592_000, "month")
                } else {
                    (secs / 31_536_000, "year")
                };
                push_int(&mut r, value);
                push_str(&mut r, " ");
                push_str(&mut r, unit);
                let ghost before = r@;
                if value != 1 {
                    push_str(&mut r, "s");
                }
                push_str(&mut r, " ago");
                assert(elapsed_unit(secs as int) == (value as int, unit@));
                assert(r@ =~= relative_time_text(timestamp@, elapsed));
            }
        },
    }
    r
}

/// The query that a sort header links to: the descending sort (`-` in
/// front) when the current query is the ascending one, else the ascending one.
pub open spec fn sort_toggle(current: Seq<char>, sort_asc: Seq<char>) -> Seq<char> {
    if current == sort_asc {
        seq!['-'] + sort_asc
    } else {
        sort_asc
    }
}

/// Returns the query to use when clicking a sort header: toggles asc/desc
/// when the current sort matches.
pub fn sort_href_query(current: &str, sort_asc: &str) -> (r: String)
    ensures
        r@ == sort_toggle(current@, sort_asc@),
{
    let mut r = String::new();
    if same_text(current, sort_asc) {
        push_char(&mut r, '-');
    }
    push_str(&mut r, sort_asc);
    assert(r@ =~= sort_toggle(current@, sort_asc@));
    r
}

/// Clicking a sort header twice, starting from its ascending sort, goes to
/// the descending sort and then back to the ascending one.
pub proof fn law_sort_toggle_twice(sort_asc: Seq<char>)
    ensures
        sort_toggle(sort_asc, sort_asc) == seq!['-'] + sort_asc,
        sort_toggle(sort_toggle(sort_asc, sort_asc), sort_asc) == sort_asc,
{
    assert((seq!['-'] + sort_asc).len() != sort_asc.len());
}

/// Integer division rounding toward zero, as Rust's `/` on integers.
pub open spec fn div_toward_zero(a: int, b: int) -> int {
    if a >= 0 {
        a / b
    } else {
        -((-a) / b)
    }
}

proof fn lemma_toward_zero_bounds(a: int, b: int)
    requires
        b >= 1,
    ensures
        a >= 0 ==> 0 <= div_toward_zero(a, b) <= a,
        a < 0 ==> a <= div_toward_zero(a, b) <= 0,
{
    if a >= 0 {
        assert(0 <= a / b <= a) by (nonlinear_arith)
            requires a >= 0, b >= 1;
    } else {
        assert(0 <= (-a) / b <= -a) by (nonlinear_arith)
            requires -a > 0, b >= 1;
    }
}

fn quotient(a: i64, b: i64) -> (q: i64)
    requires
        b > 0,
    ensures
        q == div_toward_zero(a as int, b as int),
{
    let a1 = a as i128;
    let b1 = b as i128;
    let q1: i128 = if a1 >= 0 {
        a1 / b1
    } else {
        -((-a1) / b1)
    };
    proof {
        lemma_toward_zero_bounds(a as int, b as int);
    }
    q1 as i64
}

/// The number of pages that `total` results fill at `limit` per page; 0
/// when the limit is not positive.
pub open spec fn page_count(total: int, limit: int) -> int {
    if limit > 0 {
        div_toward_zero(total + limit - 1, limit)
    } else {
        0
    }
}

/// Number of pages for `total` results at `limit` per page.
pub fn total_pages(total: i64, limit: i64) -> (r: i64)
    requires
        limit > 0 ==> total + limit - 1 <= i64::MAX,
    ensures
        r == page_count(total as int, limit as int),
{
    if limit > 0 {
        quotient(total + (limit - 1), limit)
    } else {
        0
    }
}

/// The 1-based page that starts at `offset`; 1 when the limit is not positive.
pub open spec fn page_number(offset: int, limit: int) -> int {
    if limit > 0 {
        div_toward_zero(offset, limit) + 1
    } else {
        1
    }
}

/// Number of the page that starts at `offset`.
pub fn current_page(offset: i64, limit: i64) -> (r: i64)
    requires
        limit > 0 ==> div_toward_zero(offset as int, limit as int) < i64::MAX,
    ensures
        r == page_number(offset as int, limit as int),
{
    if limit > 0 {
        quotient(offset, limit) + 1
    } else {
        1
    }
}

/// A page that starts inside the results is one of the counted pages:
/// with a positive limit and `0 <= offset < total`, the page number lies
/// between 1 and the page count.
pub proof fn law_page_within_count(total: int, offset: int, limit: int)
    requires
        limit > 0,
        0 <= offset < total,
    ensures
        1 <= page_number(offset, limit) <= page_count(total, limit),
{
    assert(offset / limit >= 0) by (nonlinear_arith)
        requires offset >= 0, limit > 0;
    assert(offset / limit + 1 <= (total + limit - 1) / limit) by (nonlinear_arith)
        requires 0 <= offset < total, limit > 0;
}

/// Whether the page is scrolled to within 300 pixels of its bottom.
pub open spec fn near_bottom(scroll_top: int, scroll_height: int, client_height: int) -> bool {
    scroll_height - scroll_top - client_height < 300
}

/// The scroll test of the endless-scroll listener.
pub fn is_near_bottom(scroll_top: i32, scroll_height: i32, client_height: i32) -> (r: bool)
    requires
        i32::MIN <= scroll_height - scroll_top <= i32::MAX,
        i32::MIN <= scroll_height - scroll_top - client_height <= i32::MAX,
    ensures
        r == near_bottom(scroll_top as int, scroll_height as int, client_height as int),
{
    scroll_height - scroll_top - client_height < 300
}

/// Whether the content is too short to fill the viewport (within 300
/// pixels), so that more should be loaded without a scroll.
pub fn leaves_viewport_unfilled(scroll_height: i32, client_height: i32) -> (r: bool)
    requires
        client_height + 300 <= i32::MAX,
    ensures
        r == (scroll_height <= client_height + 300),
{
    scroll_height <= client_height + 300
}

/// The guard of the endless-scroll listener: the next page may be asked
/// for only while no page is being fetched and more results exist.
pub fn fetch_allowed(loading_more: bool, has_more: bool) -> (r: bool)
    ensures
        r == (!loading_more && has_more),
{
    !loading_more && has_more
}

/// Whether a scroll or resize asks for the next page: the guard lets it
/// through and the page is scrolled to within 300 pixels of its bottom (the
/// distance is computed only when the guard lets it through).
pub fn scroll_should_fetch(
    loading_more: bool,
    has_more: bool,
    scroll_top: i32,
    scroll_height: i32,
    client_height: i32,
) -> (r: bool)
    requires
        !loading_more && has_more ==> i32::MIN <= scroll_height - scroll_top <= i32::MAX,
        !loading_more && has_more ==> i32::MIN <= scroll_height - scroll_top - client_height
            <= i32::MAX,
    ensures
        r == (!loading_more && has_more && near_bottom(
            scroll_top as int,
            scroll_height as int,
            client_height as int,
        )),
{
    if !fetch_allowed(loading_more, has_more) {
        return false;
    }
    is_near_bottom(scroll_top, scroll_height, client_height)
}

/// The header of a result list: `Page x of y`, shown only when the results
/// fill at least one page.
pub open spec fn page_header_text(total: int, offset: int, limit: int) -> Option<Seq<char>> {
    if page_count(total, limit) > 0 {
        Some("Page "@ + int_text(page_number(offset, limit)) + " of "@ + int_text(page_count(total, limit)))
    } else {
        None
    }
}

/// Builds the page header of a result list.
pub fn page_header(total: i64, offset: i64, limit: i64) -> (r: Option<String>)
    requires
        limit > 0 ==> total + limit - 1 <= i64::MAX,
        limit > 0 ==> div_toward_zero(offset as int, limit as int) < i64::MAX,
    ensures
        crate::text::opt_text(r) == page_header_text(total as int, offset as int, limit as int),
{
    let pages = total_pages(total, limit);
    let current = current_page(offset, limit);
    if pages > 0 {
        let mut r = owned("Page ");
        push_int(&mut r, current);
        push_str(&mut r, " of ");
        push_int(&mut r, pages);
        Some(r)
    } else {
        None
    }
}

} // verus!
