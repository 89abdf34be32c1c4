//! Translation to the backend's query payload and conversion of its raw
//! response: the sort-direction inversion fix-up, the joined query string,
//! and row-tolerant decoding of hits.

use vstd::prelude::*;
use crate::error::AppError;
use crate::query::SearchRequest;
use crate::raw::{spec_get, take_field, RawValue};

verus! {

/// The payload sent to the search backend. Timestamps are epoch seconds;
/// `sort_by` carries the direction in its leading character, under the
/// backend's inverted convention.
#[derive(Debug)]
pub struct BackendQuery {
    pub query: String,
    pub start_timestamp: i64,
    pub end_timestamp: i64,
    pub max_hits: usize,
    pub start_offset: usize,
    pub sort_by: String,
}

/// One `field:value` clause of the query string.
pub open spec fn filter_clause(f: (String, String)) -> Seq<char> {
    f.0@ + ":"@ + f.1@
}

/// The clauses of all filters, in their stored order.
pub open spec fn spec_clauses(fs: Seq<(String, String)>) -> Seq<Seq<char>> {
    fs.map_values(|f: (String, String)| filter_clause(f))
}

/// The parts joined into the query string: the free-text query when it is
/// not empty, then one clause per filter.
pub open spec fn query_parts(q: Seq<char>, fs: Seq<(String, String)>) -> Seq<Seq<char>> {
    if q.len() == 0 {
        spec_clauses(fs)
    } else {
        seq![q] + spec_clauses(fs)
    }
}

/// Parts joined with the AND connective.
pub open spec fn join_and(parts: Seq<Seq<char>>) -> Seq<char>
    decreases parts.len(),
{
    if parts.len() == 0 {
        Seq::empty()
    } else if parts.len() == 1 {
        parts[0]
    } else {
        join_and(parts.drop_last()) + " AND "@ + parts.last()
    }
}

/// The full query string: the joined parts, or the match-all token when
/// there is nothing to join.
pub open spec fn spec_query_string(q: Seq<char>, fs: Seq<(String, String)>) -> Seq<char> {
    if query_parts(q, fs).len() == 0 {
        "*"@
    } else {
        join_and(query_parts(q, fs))
    }
}

/// The sort field the backend is given. The backend's convention is
/// inverted: a bare field name yields newest-first, a leading minus
/// oldest-first, so a descending request sends the bare name.
pub open spec fn spec_sort_field(sort_by: Seq<char>, sort_desc: bool) -> Seq<char> {
    if sort_desc {
        sort_by
    } else {
        "-"@ + sort_by
    }
}

/// Builds the backend query for a request over a resolved time range.
pub fn build_query(req: &SearchRequest, start_time: i64, end_time: i64) -> (q: BackendQuery)
    requires
        req.page >= 1,
        (req.page - 1) * req.page_size <= usize::MAX,
    ensures
        q.query@ == spec_query_string(req.query@, req.filters@),
        q.start_timestamp == start_time,
        q.end_timestamp == end_time,
        q.max_hits == req.page_size,
        q.start_offset == (req.page - 1) * req.page_size,
        q.sort_by@ == spec_sort_field(req.sort_by@, req.sort_desc),
{
    let mut text = String::new();
    let mut first: bool = true;
    if !req.query.as_str().is_empty() {
        text.append(req.query.as_str());
        first = false;
    }
    proof {
        assert(req.filters@.take(0) =~= Seq::<(String, String)>::empty());
        assert(spec_clauses(req.filters@.take(0)) =~= Seq::<Seq<char>>::empty());
        if req.query@.len() == 0 {
            assert(query_parts(req.query@, req.filters@.take(0)) =~= Seq::<Seq<char>>::empty());
        } else {
            assert(query_parts(req.query@, req.filters@.take(0)) =~= seq![req.query@]);
            assert(Seq::<char>::empty() + req.query@ =~= req.query@);
        }
    }
    let n = req.filters.len();
    let mut i: usize = 0;
    while i < n
        invariant
            n == req.filters@.len(),
            i <= n,
            first == (query_parts(req.query@, req.filters@.take(i as int)).len() == 0),
            text@ == join_and(query_parts(req.query@, req.filters@.take(i as int))),
        decreases n - i,
    {
        let ghost parts = query_parts(req.query@, req.filters@.take(i as int));
        let ghost clause = filter_clause(req.filters@[i as int]);
        if !first {
            text.append(" AND ");
        }
        text.append(req.filters[i].0.as_str());
        text.append(":");
        text.append(req.filters[i].1.as_str());
        first = false;
        proof {
            assert(spec_clauses(req.filters@.take(i as int + 1)) =~= spec_clauses(
                req.filters@.take(i as int),
            ).push(clause));
            let parts1 = query_parts(req.query@, req.filters@.take(i as int + 1));
            assert(parts1 =~= parts.push(clause));
            assert(parts1.drop_last() =~= parts);
            assert(parts1.last() == clause);
            if parts.len() == 0 {
                assert(text@ =~= clause);
                assert(join_and(parts1) == parts1[0]);
                assert(parts1[0] == clause);
            } else {
                assert(text@ =~= join_and(parts) + " AND "@ + clause);
            }
        }
        i = i + 1;
    }
    proof {
        assert(req.filters@.take(n as int) =~= req.filters@);
    }
    let query_string = if first {
        String::from_str("*")
    } else {
        text
    };
    let offset = (req.page - 1) * req.page_size;
    let sort_field = if req.sort_desc {
        req.sort_by.clone()
    } else {
        String::from_str("-").concat(req.sort_by.as_str())
    };
    BackendQuery {
        query: query_string,
        start_timestamp: start_time,
        end_timestamp: end_time,
        max_hits: req.page_size,
        start_offset: offset,
        sort_by: sort_field,
    }
}

/// One normalized log record; the instant is epoch seconds and `labels`
/// carries whatever free-form value the backend attached.
#[derive(Debug)]
pub struct LogHit {
    pub timestamp: i64,
    pub message: String,
    pub level: String,
    pub service: String,
    pub host: Option<String>,
    pub env: String,
    pub trace_id: Option<String>,
    pub span_id: Option<String>,
    pub stack_trace: Option<String>,
    pub labels: Option<RawValue>,
}

/// The page handed back to the client: the backend's own total, the rows
/// that decoded, the echoed pagination, and the measured elapsed time.
#[derive(Debug)]
pub struct SearchResponse {
    pub total: u64,
    pub hits: Vec<LogHit>,
    pub page: usize,
    pub page_size: usize,
    pub took_ms: u64,
}

/// A required text field of a hit row.
pub open spec fn spec_req_text(row: RawValue, name: Seq<char>) -> Option<String> {
    match spec_get(row, name) {
        Some(RawValue::Text(s)) => Some(s),
        _ => None,
    }
}

/// An optional text field of a hit row: absent is fine, present text is
/// kept, any other shape makes the row malformed.
pub open spec fn spec_opt_text(row: RawValue, name: Seq<char>) -> Option<Option<String>> {
    match spec_get(row, name) {
        None => Some(None),
        Some(RawValue::Text(s)) => Some(Some(s)),
        Some(_) => None,
    }
}

/// How one row decodes: the required fields must be present with their
/// expected shapes, the optional ones may be absent; any violation makes
/// the whole row malformed.
pub open spec fn spec_parse_hit(row: RawValue) -> Option<LogHit> {
    match (
        spec_get(row, "timestamp"@),
        spec_req_text(row, "message"@),
        spec_req_text(row, "level"@),
        spec_req_text(row, "service"@),
        spec_req_text(row, "env"@),
    ) {
        (
            Some(RawValue::Int(ts)),
            Some(message),
            Some(level),
            Some(service),
            Some(env),
        ) => match (
            spec_opt_text(row, "host"@),
            spec_opt_text(row, "trace_id"@),
            spec_opt_text(row, "span_id"@),
            spec_opt_text(row, "stack_trace"@),
        ) {
            (Some(host), Some(trace_id), Some(span_id), Some(stack_trace)) => Some(
                LogHit {
                    timestamp: ts,
                    message,
                    level,
                    service,
                    host,
                    env,
                    trace_id,
                    span_id,
                    stack_trace,
                    labels: spec_get(row, "labels"@),
                },
            ),
            _ => None,
        },
        _ => None,
    }
}

/// Decodes one hit row, or reports it malformed.
pub fn parse_log_hit(row: RawValue) -> (r: Option<LogHit>)
    ensures
        r == spec_parse_hit(row),
{
    let timestamp: i64 = match row.get("timestamp") {
        Some(RawValue::Int(n)) => *n,
        _ => {
            return None;
        },
    };
    let message: String = match row.get("message") {
        Some(RawValue::Text(s)) => s.clone(),
        _ => {
            return None;
        },
    };
    let level: String = match row.get("level") {
        Some(RawValue::Text(s)) => s.clone(),
        _ => {
            return None;
        },
    };
    let service: String = match row.get("service") {
        Some(RawValue::Text(s)) => s.clone(),
        _ => {
            return None;
        },
    };
    let env: String = match row.get("env") {
        Some(RawValue::Text(s)) => s.clone(),
        _ => {
            return None;
        },
    };
    let host: Option<String> = match row.get("host") {
        None => None,
        Some(RawValue::Text(s)) => Some(s.clone()),
        Some(_) => {
            return None;
        },
    };
    let trace_id: Option<String> = match row.get("trace_id") {
        None => None,
        Some(RawValue::Text(s)) => Some(s.clone()),
        Some(_) => {
            return None;
        },
    };
    let span_id: Option<String> = match row.get("span_id") {
        None => None,
        Some(RawValue::Text(s)) => Some(s.clone()),
        Some(_) => {
            return None;
        },
    };
    let stack_trace: Option<String> = match row.get("stack_trace") {
        None => None,
        Some(RawValue::Text(s)) => Some(s.clone()),
        Some(_) => {
            return None;
        },
    };
    let labels: Option<RawValue> = match row {
        RawValue::Object(fields) => take_field(fields, "labels"),
        _ => None,
    };
    Some(
        LogHit {
            timestamp,
            message,
            level,
            service,
            host,
            env,
            trace_id,
            span_id,
            stack_trace,
            labels,
        },
    )
}

/// The total the backend reported, read permissively: a missing or
/// ill-shaped count is zero, never a failure.
pub open spec fn spec_total(v: RawValue) -> u64 {
    match spec_get(v, "num_hits"@) {
        Some(RawValue::Int(n)) => if n >= 0 {
            n as u64
        } else {
            0
        },
        _ => 0,
    }
}

/// The hit rows of a response, when the response carries them.
pub open spec fn spec_hits_rows(v: RawValue) -> Option<Seq<RawValue>> {
    match spec_get(v, "hits"@) {
        Some(RawValue::Array(rows)) => Some(rows@),
        _ => None,
    }
}

/// The rows that decode, in order, malformed ones dropped.
pub open spec fn spec_parsed(rows: Seq<RawValue>) -> Seq<LogHit>
    decreases rows.len(),
{
    if rows.len() == 0 {
        Seq::empty()
    } else {
        let rest = spec_parsed(rows.drop_last());
        match spec_parse_hit(rows.last()) {
            Some(h) => rest.push(h),
            None => rest,
        }
    }
}

/// Whether the dropped-row count is worth a diagnostic: some rows were
/// dropped and they make up more than a tenth of the page.
pub open spec fn spec_row_warning(failures: int, rows: int) -> bool {
    failures > 0 && 10 * failures > rows
}

/// Decides the dropped-row diagnostic from the counts alone.
pub fn row_failure_warning(failures: usize, rows: usize) -> (r: bool)
    ensures
        r == spec_row_warning(failures as int, rows as int),
{
    proof {
        assert((failures > rows / 10) == (10 * failures > rows)) by (nonlinear_arith);
    }
    failures > 0 && failures > rows / 10
}

/// Converts the backend's raw response into the client-facing page. A
/// response without a hits collection is a structural parse failure; a
/// malformed row is dropped and counted, never fatal. Returns the page
/// together with the dropped-row count.
pub fn convert_response(qw: RawValue, req: &SearchRequest, took_ms: u64) -> (r: Result<
    (SearchResponse, usize),
    AppError,
>)
    ensures
        r is Ok <==> spec_hits_rows(qw) is Some,
        r matches Ok(p) ==> {
            &&& p.0.hits@ == spec_parsed(spec_hits_rows(qw)->0)
            &&& p.0.total == spec_total(qw)
            &&& p.0.page == req.page
            &&& p.0.page_size == req.page_size
            &&& p.0.took_ms == took_ms
            &&& p.1 + p.0.hits@.len() == spec_hits_rows(qw)->0.len()
        },
        r matches Err(e) ==> e matches AppError::ParseError(m) && m@ == "Missing hits field"@,
{
    let total: u64 = match qw.get("num_hits") {
        Some(RawValue::Int(n)) => if *n >= 0 {
            *n as u64
        } else {
            0
        },
        _ => 0,
    };
    let hits_value: Option<RawValue> = match qw {
        RawValue::Object(fields) => take_field(fields, "hits"),
        _ => None,
    };
    let mut rows: Vec<RawValue> = match hits_value {
        Some(RawValue::Array(rows)) => rows,
        _ => {
            return Err(AppError::ParseError(String::from_str("Missing hits field")));
        },
    };
    let ghost all_rows = rows@;
    proof {
        assert(vstd::std_specs::vec::spec_vec_len(&rows) == rows@.len());
    }
    let mut hits: Vec<LogHit> = Vec::new();
    let mut parse_errors: usize = 0;
    let ghost mut k: int = 0;
    proof {
        assert(all_rows.skip(0) =~= all_rows);
        assert(all_rows.take(0) =~= Seq::<RawValue>::empty());
    }
    while rows.len() > 0
        invariant
            all_rows.len() <= usize::MAX,
            0 <= k <= all_rows.len(),
            rows@ == all_rows.skip(k),
            hits@ == spec_parsed(all_rows.take(k)),
            parse_errors + hits@.len() == k,
        decreases rows@.len(),
    {
        proof {
            assert(rows@[0] == all_rows[k]);
            assert(rows@.drop_first() =~= all_rows.skip(k + 1));
            assert(all_rows.take(k + 1).drop_last() =~= all_rows.take(k));
            assert(all_rows.take(k + 1).last() == all_rows[k]);
        }
        let row = rows.remove(0);
        match parse_log_hit(row) {
            Some(hit) => {
                hits.push(hit);
            },
            None => {
                parse_errors = parse_errors + 1;
            },
        }
        proof {
            k = k + 1;
        }
    }
    proof {
        assert(all_rows.take(all_rows.len() as int) =~= all_rows);
    }
    let response = SearchResponse {
        total,
        hits,
        page: req.page,
        page_size: req.page_size,
        took_ms,
    };
    Ok((response, parse_errors))
}

/// The searchable fields of a log record, as the fields listing reports
/// them.
pub fn field_names() -> (r: Vec<&'static str>)
    ensures
        r@.len() == 10,
        r@[0]@ == "timestamp"@,
        r@[1]@ == "message"@,
        r@[2]@ == "level"@,
        r@[3]@ == "service"@,
        r@[4]@ == "host"@,
        r@[5]@ == "env"@,
        r@[6]@ == "trace_id"@,
        r@[7]@ == "span_id"@,
        r@[8]@ == "source_file"@,
        r@[9]@ == "line_number"@,
{
    let mut v: Vec<&'static str> = Vec::new();
    v.push("timestamp");
    v.push("message");
    v.push("level");
    v.push("service");
    v.push("host");
    v.push("env");
    v.push("trace_id");
    v.push("span_id");
    v.push("source_file");
    v.push("line_number");
    v
}

} // verus!
