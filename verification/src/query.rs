//! Client-facing search request model: structural validation and
//! resolution of the requested time range to a concrete instant pair.

use vstd::prelude::*;
use crate::clock;
use crate::text::str_eq;

verus! {

/// An inbound log-search request. Instants (`start_time`, `end_time`) are
/// epoch seconds; `filters` maps field names to literal values and keeps
/// its insertion order.
#[derive(Debug)]
pub struct SearchRequest {
    pub query: String,
    pub filters: Vec<(String, String)>,
    pub time_range_type: String,
    pub relative_time_key: Option<String>,
    pub start_time: Option<i64>,
    pub end_time: Option<i64>,
    pub page: usize,
    pub page_size: usize,
    pub sort_by: String,
    pub sort_desc: bool,
}

pub fn default_time_range_type() -> (r: String)
    ensures
        r@ == "absolute"@,
{
    String::from_str("absolute")
}

pub fn default_page() -> (r: usize)
    ensures
        r == 1,
{
    1
}

pub fn default_page_size() -> (r: usize)
    ensures
        r == 50,
{
    50
}

pub fn default_sort_by() -> (r: String)
    ensures
        r@ == "timestamp"@,
{
    String::from_str("timestamp")
}

pub fn default_sort_desc() -> (r: bool)
    ensures
        r == true,
{
    true
}

/// The pagination bounds demanded of every request: a 1-based page number
/// and a page size between 1 and 1000.
pub open spec fn pagination_ok(page: usize, page_size: usize) -> bool {
    &&& page >= 1
    &&& 1 <= page_size <= 1000
}

/// The enumerated shorthands a relative time range may use.
pub open spec fn known_relative_key(k: Seq<char>) -> bool {
    ||| k == "1m"@
    ||| k == "5m"@
    ||| k == "15m"@
    ||| k == "1h"@
    ||| k == "4h"@
    ||| k == "1d"@
    ||| k == "7d"@
    ||| k == "30d"@
}

/// The trailing window, in seconds, that a relative time key stands for.
pub open spec fn relative_duration_secs(k: Seq<char>) -> int {
    if k == "1m"@ {
        60
    } else if k == "5m"@ {
        300
    } else if k == "15m"@ {
        900
    } else if k == "1h"@ {
        3600
    } else if k == "4h"@ {
        14400
    } else if k == "1d"@ {
        86400
    } else if k == "7d"@ {
        604800
    } else if k == "30d"@ {
        2592000
    } else {
        0
    }
}

/// The time-range branch of validity: exactly the checks of the declared
/// mode, and any other mode is invalid.
pub open spec fn time_range_ok(req: SearchRequest) -> bool {
    if req.time_range_type@ == "relative"@ {
        &&& req.relative_time_key is Some
        &&& req.relative_time_key->0@.len() > 0
        &&& known_relative_key(req.relative_time_key->0@)
    } else if req.time_range_type@ == "absolute"@ {
        &&& req.start_time is Some
        &&& req.end_time is Some
        &&& req.start_time->0 < req.end_time->0
    } else {
        false
    }
}

/// A request is valid when its pagination bounds and its time-range branch
/// both hold; validity is the precondition of every downstream stage.
pub open spec fn valid_request(req: SearchRequest) -> bool {
    &&& pagination_ok(req.page, req.page_size)
    &&& time_range_ok(req)
}

/// The message reported for the first violation found, in checking order:
/// pagination first, then the time-range branch.
pub open spec fn validate_error(req: SearchRequest) -> Seq<char> {
    if req.page < 1 {
        "page must be >= 1"@
    } else if req.page_size < 1 || req.page_size > 1000 {
        "page_size must be between 1 and 1000"@
    } else if req.time_range_type@ == "relative"@ {
        if req.relative_time_key is None || req.relative_time_key->0@.len() == 0 {
            "relative_time_key is required when time_range_type is 'relative'"@
        } else {
            "invalid relative_time_key: "@ + req.relative_time_key->0@
        }
    } else if req.time_range_type@ == "absolute"@ {
        if req.start_time is None || req.end_time is None {
            "start_time and end_time are required when time_range_type is 'absolute'"@
        } else {
            "start_time must be before end_time"@
        }
    } else {
        "invalid time_range_type: "@ + req.time_range_type@
    }
}

/// When the time range can be resolved to a concrete pair: a known relative
/// key, or an absolute range with both bounds present. Unlike validation,
/// resolution does not ask that the absolute bounds be ordered.
pub open spec fn resolvable(req: SearchRequest) -> bool {
    if req.time_range_type@ == "relative"@ {
        &&& req.relative_time_key is Some
        &&& known_relative_key(req.relative_time_key->0@)
    } else if req.time_range_type@ == "absolute"@ {
        &&& req.start_time is Some
        &&& req.end_time is Some
    } else {
        false
    }
}

/// The message reported when resolution fails; these name an internal
/// consistency fault, since validation runs first.
pub open spec fn resolve_error(req: SearchRequest) -> Seq<char> {
    if req.time_range_type@ == "relative"@ {
        if req.relative_time_key is None {
            "missing relative_time_key"@
        } else {
            "unknown relative_time_key: "@ + req.relative_time_key->0@
        }
    } else if req.time_range_type@ == "absolute"@ {
        if req.start_time is None {
            "missing start_time"@
        } else {
            "missing end_time"@
        }
    } else {
        "unknown time_range_type: "@ + req.time_range_type@
    }
}

impl SearchRequest {
    /// Checks structural validity and reports the first violation found.
    pub fn validate(&self) -> (r: Result<(), String>)
        ensures
            r is Ok <==> valid_request(*self),
            r matches Err(m) ==> m@ == validate_error(*self),
    {
        if self.page < 1 {
            return Err(String::from_str("page must be >= 1"));
        }
        if self.page_size < 1 || self.page_size > 1000 {
            return Err(String::from_str("page_size must be between 1 and 1000"));
        }
        if str_eq(self.time_range_type.as_str(), "relative") {
            match &self.relative_time_key {
                None => Err(
                    String::from_str(
                        "relative_time_key is required when time_range_type is 'relative'",
                    ),
                ),
                Some(key) => {
                    let k = key.as_str();
                    if k.is_empty() {
                        return Err(
                            String::from_str(
                                "relative_time_key is required when time_range_type is 'relative'",
                            ),
                        );
                    }
                    if str_eq(k, "1m") || str_eq(k, "5m") || str_eq(k, "15m") || str_eq(k, "1h")
                        || str_eq(k, "4h") || str_eq(k, "1d") || str_eq(k, "7d") || str_eq(
                        k,
                        "30d",
                    ) {
                        Ok(())
                    } else {
                        Err(String::from_str("invalid relative_time_key: ").concat(k))
                    }
                },
            }
        } else if str_eq(self.time_range_type.as_str(), "absolute") {
            if self.start_time.is_none() || self.end_time.is_none() {
                return Err(
                    String::from_str(
                        "start_time and end_time are required when time_range_type is 'absolute'",
                    ),
                );
            }
            let s = self.start_time.unwrap();
            let e = self.end_time.unwrap();
            if s >= e {
                return Err(String::from_str("start_time must be before end_time"));
            }
            Ok(())
        } else {
            Err(
                String::from_str("invalid time_range_type: ").concat(
                    self.time_range_type.as_str(),
                ),
            )
        }
    }

    /// Resolves the time range against the given instant: a relative range
    /// ends at `now` and starts the keyed duration earlier; an absolute
    /// range is returned unchanged.
    pub fn resolve_time_range(&self, now: i64) -> (r: Result<(i64, i64), String>)
        requires
            now >= i64::MIN + 2592000,
        ensures
            r is Ok <==> resolvable(*self),
            self.time_range_type@ == "relative"@ ==> (r matches Ok(p) ==> p.1 == now && p.0
                == now - relative_duration_secs(self.relative_time_key->0@)),
            self.time_range_type@ == "absolute"@ ==> (r matches Ok(p) ==> p.0
                == self.start_time->0 && p.1 == self.end_time->0),
            r matches Err(m) ==> m@ == resolve_error(*self),
    {
        proof {
            proof_strings_distinct();
        }
        if str_eq(self.time_range_type.as_str(), "relative") {
            match &self.relative_time_key {
                None => Err(String::from_str("missing relative_time_key")),
                Some(key) => {
                    let k = key.as_str();
                    let secs: i64 = if str_eq(k, "1m") {
                        60
                    } else if str_eq(k, "5m") {
                        300
                    } else if str_eq(k, "15m") {
                        900
                    } else if str_eq(k, "1h") {
                        3600
                    } else if str_eq(k, "4h") {
                        14400
                    } else if str_eq(k, "1d") {
                        86400
                    } else if str_eq(k, "7d") {
                        604800
                    } else if str_eq(k, "30d") {
                        2592000
                    } else {
                        return Err(String::from_str("unknown relative_time_key: ").concat(k));
                    };
                    Ok((now - secs, now))
                },
            }
        } else if str_eq(self.time_range_type.as_str(), "absolute") {
            match (&self.start_time, &self.end_time) {
                (Some(s), Some(e)) => Ok((*s, *e)),
                (None, _) => Err(String::from_str("missing start_time")),
                (Some(_), None) => Err(String::from_str("missing end_time")),
            }
        } else {
            Err(
                String::from_str("unknown time_range_type: ").concat(
                    self.time_range_type.as_str(),
                ),
            )
        }
    }

    /// Resolves the time range against the current instant, read once so
    /// that "now" is stable across the request. An absolute range is exact;
    /// of a relative range the contract fixes the width of the window, the
    /// end being whatever instant the clock gave.
    pub fn compute_time_range(&self) -> (r: Result<(i64, i64), String>)
        ensures
            r is Ok <==> resolvable(*self),
            self.time_range_type@ == "relative"@ ==> (r matches Ok(p) ==> p.1 - p.0
                == relative_duration_secs(self.relative_time_key->0@)),
            self.time_range_type@ == "absolute"@ ==> (r matches Ok(p) ==> p.0
                == self.start_time->0 && p.1 == self.end_time->0),
            r matches Err(m) ==> m@ == resolve_error(*self),
    {
        let now = clock::now_epoch_seconds();
        self.resolve_time_range(now)
    }
}

/// Pagination law: with the page number at least 1 and the page size
/// between 1 and 1000, the pagination checks pass, and validity of the
/// whole request is decided by the time-range branch alone.
pub proof fn lemma_pagination_axis(req: SearchRequest)
    requires
        1 <= req.page,
        1 <= req.page_size <= 1000,
    ensures
        pagination_ok(req.page, req.page_size),
        valid_request(req) <==> time_range_ok(req),
{
}

/// Rejection law: a relative request whose key is not one of the known
/// shorthands is invalid, whatever the rest of the request holds.
pub proof fn lemma_unknown_relative_key_rejected(req: SearchRequest)
    requires
        req.time_range_type@ == "relative"@,
        req.relative_time_key matches Some(k) ==> !known_relative_key(k@),
    ensures
        !valid_request(req),
{
}

/// Rejection law: an absolute request whose bounds are present but not in
/// strictly increasing order is invalid.
pub proof fn lemma_absolute_unordered_rejected(req: SearchRequest)
    requires
        req.time_range_type@ == "absolute"@,
        req.start_time is Some,
        req.end_time is Some,
        req.start_time->0 >= req.end_time->0,
    ensures
        !valid_request(req),
{
    proof_strings_distinct();
}

/// Resolution law: each relative key stands for exactly its advertised
/// window, so resolving a relative range at an instant `t` yields the
/// range that ends at `t` and starts the written number of seconds
/// earlier.
pub proof fn lemma_relative_durations()
    ensures
        relative_duration_secs("1m"@) == 60,
        relative_duration_secs("5m"@) == 300,
        relative_duration_secs("15m"@) == 900,
        relative_duration_secs("1h"@) == 3600,
        relative_duration_secs("4h"@) == 14400,
        relative_duration_secs("1d"@) == 86400,
        relative_duration_secs("7d"@) == 604800,
        relative_duration_secs("30d"@) == 2592000,
{
    proof_keys_distinct();
}

/// The eight relative keys are pairwise distinct words.
proof fn proof_keys_distinct()
    ensures
        "5m"@ != "1m"@,
        "15m"@ != "1m"@ && "15m"@ != "5m"@,
        "1h"@ != "1m"@ && "1h"@ != "5m"@ && "1h"@ != "15m"@,
        "4h"@ != "1m"@ && "4h"@ != "5m"@ && "4h"@ != "15m"@ && "4h"@ != "1h"@,
        "1d"@ != "1m"@ && "1d"@ != "5m"@ && "1d"@ != "15m"@ && "1d"@ != "1h"@ && "1d"@ != "4h"@,
        "7d"@ != "1m"@ && "7d"@ != "5m"@ && "7d"@ != "15m"@ && "7d"@ != "1h"@ && "7d"@ != "4h"@
            && "7d"@ != "1d"@,
        "30d"@ != "1m"@ && "30d"@ != "5m"@ && "30d"@ != "15m"@ && "30d"@ != "1h"@ && "30d"@
            != "4h"@ && "30d"@ != "1d"@ && "30d"@ != "7d"@,
{
    reveal_strlit("1m");
    reveal_strlit("5m");
    reveal_strlit("15m");
    reveal_strlit("1h");
    reveal_strlit("4h");
    reveal_strlit("1d");
    reveal_strlit("7d");
    reveal_strlit("30d");
        assert("5m"@ != "1m"@) by {
            assert("5m"@[0] == '5');
            assert("1m"@[0] == '1');
        }
        assert("15m"@ != "1m"@) by {
            assert("15m"@.len() == 3);
            assert("1m"@.len() == 2);
        }
        assert("15m"@ != "5m"@) by {
            assert("15m"@.len() == 3);
            assert("5m"@.len() == 2);
        }
        assert("1h"@ != "1m"@) by {
            assert("1h"@[1] == 'h');
            assert("1m"@[1] == 'm');
        }
        assert("1h"@ != "5m"@) by {
            assert("1h"@[0] == '1');
            assert("5m"@[0] == '5');
        }
        assert("1h"@ != "15m"@) by {
            assert("1h"@.len() == 2);
            assert("15m"@.len() == 3);
        }
        assert("4h"@ != "1m"@) by {
            assert("4h"@[0] == '4');
            assert("1m"@[0] == '1');
        }
        assert("4h"@ != "5m"@) by {
            assert("4h"@[0] == '4');
            assert("5m"@[0] == '5');
        }
        assert("4h"@ != "15m"@) by {
            assert("4h"@.len() == 2);
            assert("15m"@.len() == 3);
        }
        assert("4h"@ != "1h"@) by {
            assert("4h"@[0] == '4');
            assert("1h"@[0] == '1');
        }
        assert("1d"@ != "1m"@) by {
            assert("1d"@[1] == 'd');
            assert("1m"@[1] == 'm');
        }
        assert("1d"@ != "5m"@) by {
            assert("1d"@[0] == '1');
            assert("5m"@[0] == '5');
        }
        assert("1d"@ != "15m"@) by {
            assert("1d"@.len() == 2);
            assert("15m"@.len() == 3);
        }
        assert("1d"@ != "1h"@) by {
            assert("1d"@[1] == 'd');
            assert("1h"@[1] == 'h');
        }
        assert("1d"@ != "4h"@) by {
            assert("1d"@[0] == '1');
            assert("4h"@[0] == '4');
        }
        assert("7d"@ != "1m"@) by {
            assert("7d"@[0] == '7');
            assert("1m"@[0] == '1');
        }
        assert("7d"@ != "5m"@) by {
            assert("7d"@[0] == '7');
            assert("5m"@[0] == '5');
        }
        assert("7d"@ != "15m"@) by {
            assert("7d"@.len() == 2);
            assert("15m"@.len() == 3);
        }
        assert("7d"@ != "1h"@) by {
            assert("7d"@[0] == '7');
            assert("1h"@[0] == '1');
        }
        assert("7d"@ != "4h"@) by {
            assert("7d"@[0] == '7');
            assert("4h"@[0] == '4');
        }
        assert("7d"@ != "1d"@) by {
            assert("7d"@[0] == '7');
            assert("1d"@[0] == '1');
        }
        assert("30d"@ != "1m"@) by {
            assert("30d"@.len() == 3);
            assert("1m"@.len() == 2);
        }
        assert("30d"@ != "5m"@) by {
            assert("30d"@.len() == 3);
            assert("5m"@.len() == 2);
        }
        assert("30d"@ != "15m"@) by {
            assert("30d"@[0] == '3');
            assert("15m"@[0] == '1');
        }
        assert("30d"@ != "1h"@) by {
            assert("30d"@.len() == 3);
            assert("1h"@.len() == 2);
        }
        assert("30d"@ != "4h"@) by {
            assert("30d"@.len() == 3);
            assert("4h"@.len() == 2);
        }
        assert("30d"@ != "1d"@) by {
            assert("30d"@.len() == 3);
            assert("1d"@.len() == 2);
        }
        assert("30d"@ != "7d"@) by {
            assert("30d"@.len() == 3);
            assert("7d"@.len() == 2);
        }
}

/// The two mode names are distinct words.
proof fn proof_strings_distinct()
    ensures
        "relative"@ != "absolute"@,
{
    reveal_strlit("relative");
    reveal_strlit("absolute");
    assert("relative"@[0] == 'r');
    assert("absolute"@[0] == 'a');
}

} // verus!
