//! Distinct-service enumeration over a trailing day: an aggregation query
//! first, and a bounded, paginated scan when the backend returns no
//! aggregation buckets.

use vstd::prelude::*;
use crate::clock;
use crate::query::SearchRequest;
use crate::quickwit::SearchResponse;
use crate::raw::{spec_get, RawValue};
use crate::text::{sorted_dedup, strictly_sorted, views};

verus! {

/// The aggregation-only query: no hits, up to `agg_size` term buckets on
/// `agg_field` over the window.
#[derive(Debug)]
pub struct AggQuery {
    pub query: String,
    pub start_timestamp: i64,
    pub end_timestamp: i64,
    pub max_hits: usize,
    pub agg_field: String,
    pub agg_size: usize,
}

/// The trailing one-day window ending at the current instant.
pub fn service_window() -> (r: (i64, i64))
    ensures
        r.1 - r.0 == 86400,
        0 <= r.1,
{
    let now = clock::now_epoch_seconds();
    (now - 86400, now)
}

/// The aggregation query issued first: match-all, zero hits, up to 200
/// term buckets on the service field.
pub fn services_agg_query(start_time: i64, end_time: i64) -> (q: AggQuery)
    ensures
        q.query@ == "*"@,
        q.start_timestamp == start_time,
        q.end_timestamp == end_time,
        q.max_hits == 0,
        q.agg_field@ == "service"@,
        q.agg_size == 200,
{
    AggQuery {
        query: String::from_str("*"),
        start_timestamp: start_time,
        end_timestamp: end_time,
        max_hits: 0,
        agg_field: String::from_str("service"),
        agg_size: 200,
    }
}

/// The bucket list under one of the two known aggregation roots.
pub open spec fn spec_buckets_under(v: RawValue, root: Seq<char>) -> Option<Seq<RawValue>> {
    match spec_get(v, root) {
        Some(section) => match spec_get(section, "services"@) {
            Some(agg) => match spec_get(agg, "buckets"@) {
                Some(RawValue::Array(b)) => Some(b@),
                _ => None,
            },
            _ => None,
        },
        _ => None,
    }
}

/// The bucket list of a response: the `aggs` shape is tried first, then
/// `aggregations`; absence of both is a handled shape, not an error.
pub open spec fn spec_buckets(v: RawValue) -> Option<Seq<RawValue>> {
    if spec_buckets_under(v, "aggs"@) is Some {
        spec_buckets_under(v, "aggs"@)
    } else {
        spec_buckets_under(v, "aggregations"@)
    }
}

fn buckets_under<'a>(v: &'a RawValue, root: &str) -> (r: Option<&'a Vec<RawValue>>)
    ensures
        match r {
            Some(b) => spec_buckets_under(*v, root@) == Some(b@),
            None => spec_buckets_under(*v, root@) is None,
        },
{
    match v.get(root) {
        Some(section) => match section.get("services") {
            Some(agg) => match agg.get("buckets") {
                Some(RawValue::Array(b)) => Some(b),
                _ => None,
            },
            _ => None,
        },
        _ => None,
    }
}

/// Finds the aggregation buckets of a response under either known root.
pub fn extract_buckets<'a>(v: &'a RawValue) -> (r: Option<&'a Vec<RawValue>>)
    ensures
        match r {
            Some(b) => spec_buckets(*v) == Some(b@),
            None => spec_buckets(*v) is None,
        },
{
    match buckets_under(v, "aggs") {
        Some(b) => Some(b),
        None => buckets_under(v, "aggregations"),
    }
}

/// The service names the buckets carry, in order: each bucket's text
/// `key`, buckets without one skipped.
pub open spec fn spec_bucket_keys(b: Seq<RawValue>) -> Seq<String>
    decreases b.len(),
{
    if b.len() == 0 {
        Seq::empty()
    } else {
        let rest = spec_bucket_keys(b.drop_last());
        match spec_get(b.last(), "key"@) {
            Some(RawValue::Text(s)) => rest.push(s),
            _ => rest,
        }
    }
}

/// Reads the service names out of the aggregation buckets, sorted and
/// deduplicated.
pub fn services_from_buckets(buckets: &Vec<RawValue>) -> (r: Vec<String>)
    ensures
        strictly_sorted(views(r@)),
        views(r@).to_set() == views(spec_bucket_keys(buckets@)).to_set(),
{
    let mut names: Vec<String> = Vec::new();
    let n = buckets.len();
    let mut i: usize = 0;
    proof {
        assert(buckets@.take(0) =~= Seq::<RawValue>::empty());
    }
    while i < n
        invariant
            n == buckets@.len(),
            i <= n,
            names@ == spec_bucket_keys(buckets@.take(i as int)),
        decreases n - i,
    {
        proof {
            assert(buckets@.take(i as int + 1).drop_last() =~= buckets@.take(i as int));
            assert(buckets@.take(i as int + 1).last() == buckets@[i as int]);
        }
        match buckets[i].get("key") {
            Some(RawValue::Text(s)) => {
                names.push(s.clone());
            },
            _ => {},
        }
        i = i + 1;
    }
    proof {
        assert(buckets@.take(n as int) =~= buckets@);
    }
    sorted_dedup(names)
}

/// The fallback scan's carried state: the one-day window, the next page to
/// request, and the names seen so far.
#[derive(Debug)]
pub struct ScanState {
    pub start_time: i64,
    pub end_time: i64,
    pub page: usize,
    pub acc: Vec<String>,
}

/// What the scan does next: fetch another page, or stop with the sorted,
/// deduplicated names.
#[derive(Debug)]
pub enum ScanStep {
    Continue(ScanState),
    Done(Vec<String>),
}

/// The scan's first state: page one over the given window, nothing seen.
pub fn scan_start(start_time: i64, end_time: i64) -> (s: ScanState)
    ensures
        s.start_time == start_time,
        s.end_time == end_time,
        s.page == 1,
        s.acc@ == Seq::<String>::empty(),
{
    ScanState { start_time, end_time, page: 1, acc: Vec::new() }
}

/// Decides from the aggregation response: buckets present end the
/// enumeration with their keys; otherwise the scan begins over the same
/// window.
pub fn after_agg_response(start_time: i64, end_time: i64, resp: &RawValue) -> (r: ScanStep)
    ensures
        spec_buckets(*resp) matches Some(b) ==> (r matches ScanStep::Done(out)
            && strictly_sorted(views(out@)) && views(out@).to_set() == views(
            spec_bucket_keys(b),
        ).to_set()),
        spec_buckets(*resp) is None ==> (r matches ScanStep::Continue(s) && s.start_time
            == start_time && s.end_time == end_time && s.page == 1 && s.acc@
            == Seq::<String>::empty()),
{
    match extract_buckets(resp) {
        Some(buckets) => ScanStep::Done(services_from_buckets(buckets)),
        None => ScanStep::Continue(scan_start(start_time, end_time)),
    }
}

/// The request the scan sends for its current page: match-all over the
/// window, 500 rows a page, newest first.
pub fn scan_request(s: &ScanState) -> (r: SearchRequest)
    ensures
        r.query@ == "*"@,
        r.filters@ == Seq::<(String, String)>::empty(),
        r.time_range_type@ == "absolute"@,
        r.relative_time_key is None,
        r.start_time == Some(s.start_time),
        r.end_time == Some(s.end_time),
        r.page == s.page,
        r.page_size == 500,
        r.sort_by@ == "timestamp"@,
        r.sort_desc == true,
{
    SearchRequest {
        query: String::from_str("*"),
        filters: Vec::new(),
        time_range_type: String::from_str("absolute"),
        relative_time_key: None,
        start_time: Some(s.start_time),
        end_time: Some(s.end_time),
        page: s.page,
        page_size: 500,
        sort_by: String::from_str("timestamp"),
        sort_desc: true,
    }
}

/// The service names of a page of hits, in order.
pub open spec fn hit_services(hits: Seq<crate::quickwit::LogHit>) -> Seq<String> {
    hits.map_values(|h: crate::quickwit::LogHit| h.service)
}

/// Whether the scan stops after absorbing a non-empty page: the page cap
/// is reached, or the rows fetched so far meet the reported total.
pub open spec fn scan_stops(page: usize, total: u64) -> bool {
    page >= 10 || page * 500 >= total
}

/// Absorbs one page of the fallback scan. An empty page ends the scan at
/// once; otherwise the page's service names are taken in, and the scan
/// either stops — returning the names seen, sorted and deduplicated — or
/// carries on with the next page.
pub fn scan_absorb(s: ScanState, resp: &SearchResponse) -> (r: ScanStep)
    ensures
        resp.hits@.len() == 0 ==> (r matches ScanStep::Done(out) && strictly_sorted(views(out@))
            && views(out@).to_set() == views(s.acc@).to_set()),
        resp.hits@.len() > 0 && scan_stops(s.page, resp.total) ==> (r matches ScanStep::Done(out)
            && strictly_sorted(views(out@)) && views(out@).to_set() == views(
            s.acc@ + hit_services(resp.hits@),
        ).to_set()),
        resp.hits@.len() > 0 && !scan_stops(s.page, resp.total) ==> (r matches ScanStep::Continue(
            next,
        ) && next.page == s.page + 1 && next.acc@ == s.acc@ + hit_services(resp.hits@)
            && next.start_time == s.start_time && next.end_time == s.end_time),
{
    if resp.hits.len() == 0 {
        return ScanStep::Done(sorted_dedup(s.acc));
    }
    let ghost acc0 = s.acc@;
    let mut acc = s.acc;
    let m = resp.hits.len();
    let mut j: usize = 0;
    proof {
        assert(acc0 + hit_services(resp.hits@.take(0)) =~= acc0);
    }
    while j < m
        invariant
            m == resp.hits@.len(),
            j <= m,
            acc@ == acc0 + hit_services(resp.hits@.take(j as int)),
        decreases m - j,
    {
        acc.push(resp.hits[j].service.clone());
        proof {
            assert(acc@ =~= acc0 + hit_services(resp.hits@.take(j as int + 1)));
        }
        j = j + 1;
    }
    proof {
        assert(resp.hits@.take(m as int) =~= resp.hits@);
    }
    if s.page >= 10 {
        return ScanStep::Done(sorted_dedup(acc));
    }
    let fetched = s.page * 500;
    if fetched as u64 >= resp.total {
        return ScanStep::Done(sorted_dedup(acc));
    }
    ScanStep::Continue(
        ScanState {
            start_time: s.start_time,
            end_time: s.end_time,
            page: s.page + 1,
            acc,
        },
    )
}

} // verus!
