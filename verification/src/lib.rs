//! Ping a batch of URLs and report an HTTP status code and a latency for each.
//!
//! A [`UrlPinger`] owns an ordered list of target URLs and a [`RuntimeType`]
//! choosing how the batch is executed: one request after another, many
//! requests in flight under a cooperative scheduler, or one worker per
//! target. Whatever the strategy, the returned results are in the order the
//! targets were given, and any transport failure is folded into the fixed
//! sentinel status `404`.

use vstd::prelude::*;

pub mod net;
pub mod text;

verus! {

/// The sentinel status standing for every transport-level failure.
pub const SENTINEL_STATUS: u16 = 404;

/// What a ping reports when the transport handed back `outcome`: the real
/// status code if a response arrived, the sentinel otherwise.
pub open spec fn spec_status_code(outcome: Option<u16>) -> u16 {
    match outcome {
        Some(code) => code,
        None => SENTINEL_STATUS,
    }
}

/// Turn the outcome of one request attempt into the reported status code.
pub fn status_code_of(outcome: Option<u16>) -> (code: u16)
    ensures
        code == spec_status_code(outcome),
{
    match outcome {
        Some(code) => code,
        None => SENTINEL_STATUS,
    }
}

/// A server's delivered status is reported exactly as it came, whatever it
/// was: no interpretation, no retry, no rewriting.
pub proof fn lemma_real_status_reported_exactly(code: u16)
    ensures
        spec_status_code(Some(code)) == code,
{
}

/// The sentinel is reported exactly when no response arrived — or when the
/// server itself answered 404, the one conflation the sentinel carries.
pub proof fn lemma_sentinel_exactly_on_failure(outcome: Option<u16>)
    ensures
        spec_status_code(outcome) == SENTINEL_STATUS <==> (outcome is None || outcome == Some(
            SENTINEL_STATUS,
        )),
{
}

/// How a batch of pings is executed: one request after another, many in
/// flight under one cooperative scheduler, or one worker per target.
#[allow(non_camel_case_types)]
pub enum RuntimeType {
    SYNC,
    ASYNC,
    MULTITHREADED,
}

/// The runtime selected by a mode string: exactly `"sync"`, `"async"` or
/// `"multi"`; anything else selects nothing.
pub open spec fn spec_mode(s: Seq<char>) -> Option<RuntimeType> {
    if s == "sync"@ {
        Some(RuntimeType::SYNC)
    } else if s == "async"@ {
        Some(RuntimeType::ASYNC)
    } else if s == "multi"@ {
        Some(RuntimeType::MULTITHREADED)
    } else {
        None
    }
}

/// Every unrecognized mode selector — anything but exactly `"sync"`,
/// `"async"` or `"multi"` — selects no runtime. Both constructors require a
/// selected runtime, so an unrecognized selector refuses construction, and
/// with it the batch, before any request exists.
pub proof fn lemma_unrecognized_mode_selects_nothing(s: Seq<char>)
    ensures
        spec_mode(s) is None <==> (s != "sync"@ && s != "async"@ && s != "multi"@),
{
}

impl RuntimeType {
    /// Parse a mode selector. Returns `None` on every unrecognized selector,
    /// so a bad configuration is refused before any request is built.
    pub fn from_mode(mode: &str) -> (parsed: Option<RuntimeType>)
        ensures
            parsed == spec_mode(mode@),
    {
        if crate::text::str_eq(mode, "sync") {
            Some(RuntimeType::SYNC)
        } else if crate::text::str_eq(mode, "async") {
            Some(RuntimeType::ASYNC)
        } else if crate::text::str_eq(mode, "multi") {
            Some(RuntimeType::MULTITHREADED)
        } else {
            None
        }
    }
}

/// The outcome record for one target: the URL as given, the status code (a
/// real one, or the sentinel on transport failure), and the observed latency.
#[derive(Debug)]
pub struct PingResult {
    pub url: String,
    pub status_code: u16,
    pub duration_in_nano_seconds: u128,
}

/// Build the record for one finished request attempt.
pub fn finish_ping(url: String, outcome: Option<u16>, duration_in_nano_seconds: u128) -> (r:
    PingResult)
    ensures
        r.url == url,
        r.status_code == spec_status_code(outcome),
        r.duration_in_nano_seconds == duration_in_nano_seconds,
{
    PingResult { url, status_code: status_code_of(outcome), duration_in_nano_seconds }
}

/// An ordered batch of target URLs together with the execution strategy.
pub struct UrlPinger {
    pub urls: Vec<String>,
    pub runtime: RuntimeType,
}

impl UrlPinger {
    /// Take the targets as given; the mode selector must be recognized.
    pub fn new(urls: Vec<String>, runtime: &str) -> (pinger: UrlPinger)
        requires
            spec_mode(runtime@) is Some,
        ensures
            pinger.urls == urls,
            Some(pinger.runtime) == spec_mode(runtime@),
    {
        match RuntimeType::from_mode(runtime) {
            Some(rt) => UrlPinger { urls, runtime: rt },
            None => vstd::pervasive::unreached(),
        }
    }

    /// Split a comma-separated list into targets, in input order, keeping
    /// empty segments, with no trimming and no validation.
    pub fn from_comma_seperated_string(urls: &str, runtime: &str) -> (pinger: UrlPinger)
        requires
            spec_mode(runtime@) is Some,
        ensures
            pinger.urls.deep_view() == crate::text::split_commas(urls@),
            Some(pinger.runtime) == spec_mode(runtime@),
    {
        let urls_as_vec = crate::text::split_on_commas(urls);
        UrlPinger::new(urls_as_vec, runtime)
    }

    /// Ping every target once, whatever the strategy: one result per target,
    /// in the order the targets were given.
    pub fn ping_urls(&self) -> (results: Vec<PingResult>)
        ensures
            results@.len() == self.urls@.len(),
            forall|i: int| 0 <= i < results@.len() ==> results@[i].url@ == self.urls@[i]@,
    {
        match self.runtime {
            RuntimeType::SYNC => self.ping_urls_sync(),
            RuntimeType::ASYNC => self.ping_urls_async(),
            RuntimeType::MULTITHREADED => self.ping_urls_multithread(),
        }
    }

    /// Visit the targets in order, each request blocking until it resolves.
    fn ping_urls_sync(&self) -> (results: Vec<PingResult>)
        ensures
            results@.len() == self.urls@.len(),
            forall|i: int| 0 <= i < results@.len() ==> results@[i].url@ == self.urls@[i]@,
    {
        let client = crate::net::new_blocking_client();
        let mut results: Vec<PingResult> = Vec::new();
        let mut i: usize = 0;
        while i < self.urls.len()
            invariant
                i <= self.urls@.len(),
                results@.len() == i,
                forall|j: int| 0 <= j < i ==> results@[j].url@ == self.urls@[j]@,
            decreases self.urls@.len() - i,
        {
            let url = self.urls[i].clone();
            results.push(ping_one(&client, url));
            i += 1;
        }
        results
    }

    /// Keep one cooperative task per target in flight at once; the collected
    /// results still follow the input order, not the completion order.
    fn ping_urls_async(&self) -> (results: Vec<PingResult>)
        ensures
            results@.len() == self.urls@.len(),
            forall|i: int| 0 <= i < results@.len() ==> results@[i].url@ == self.urls@[i]@,
    {
        crate::net::join_all_pings(&self.urls)
    }

    /// Hand each target to a worker of its own and join them in input order.
    fn ping_urls_multithread(&self) -> (results: Vec<PingResult>)
        ensures
            results@.len() == self.urls@.len(),
            forall|i: int| 0 <= i < results@.len() ==> results@[i].url@ == self.urls@[i]@,
    {
        crate::net::spawn_pings(&self.urls)
    }
}

/// Issue one GET against `url` and classify what came back: the server's
/// real status code, or the sentinel on any transport failure. The value
/// depends on the network, so nothing can be promised of it here; the
/// classification itself is pinned by [`status_code_of`].
fn get_url_status_code(client: &reqwest::blocking::Client, url: &str) -> u16 {
    let outcome = crate::net::send_blocking_get(client, url);
    status_code_of(outcome)
}

/// Time one GET against `url` and fold its outcome into a record: the
/// shared primitive behind every strategy.
pub(crate) fn ping_one(client: &reqwest::blocking::Client, url: String) -> (r: PingResult)
    ensures
        r.url@ == url@,
{
    let start = crate::net::monotonic_now();
    let status_code = get_url_status_code(client, url.as_str());
    let duration_in_nano_seconds = crate::net::elapsed_nanos(&start);
    PingResult { url, status_code, duration_in_nano_seconds }
}

} // verus!
