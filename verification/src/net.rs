//! The trusted boundary around the outside world: the HTTP client, the
//! monotonic clock, and the two concurrent batch drivers. Every network or
//! clock call the library makes goes through exactly one item here; nothing
//! in this module is verified beyond its stated contract.

use vstd::prelude::*;

verus! {

#[verifier::external_type_specification]
#[verifier::external_body]
pub struct ExInstant(std::time::Instant);

#[verifier::external_type_specification]
#[verifier::external_body]
pub struct ExBlockingClient(reqwest::blocking::Client);

/// Relies on std::time::Instant::now: a reading of the monotonic clock.
#[verifier::external_body]
pub(crate) fn monotonic_now() -> std::time::Instant {
    std::time::Instant::now()
}

/// Relies on std::time::Instant::elapsed: the nanoseconds since `start` was
/// taken. Nothing is promised of the value: it depends on the clock.
#[verifier::external_body]
pub(crate) fn elapsed_nanos(start: &std::time::Instant) -> u128 {
    start.elapsed().as_nanos()
}

/// Relies on reqwest::blocking::Client::new. It panics if no transport can
/// be initialized or when called from inside an async runtime; the library
/// only calls it from blocking contexts.
#[verifier::external_body]
pub(crate) fn new_blocking_client() -> reqwest::blocking::Client {
    reqwest::blocking::Client::new()
}

/// Relies on reqwest::blocking::RequestBuilder::send: `Some` carries the
/// status code of the server's response, `None` stands for any transport or
/// protocol failure. The value depends on the network, so nothing more is
/// promised.
#[verifier::external_body]
pub(crate) fn send_blocking_get(client: &reqwest::blocking::Client, url: &str) -> Option<u16> {
    match client.get(url).send() {
        Ok(response) => Some(response.status().as_u16()),
        Err(_) => None,
    }
}

/// Relies on futures::future::join_all, which collects the tasks' results
/// in the order the tasks were given, and on reqwest::Client being shared
/// across all tasks; each task assembles its record through the verified
/// [`crate::finish_ping`]. One task per URL is in flight at once on a
/// tokio runtime, suspended while it waits for its response. Each task's
/// clock starts when its request is assembled, immediately before the
/// whole batch is driven.
#[verifier::external_body]
pub(crate) fn join_all_pings(urls: &Vec<String>) -> (results: Vec<crate::PingResult>)
    ensures
        results@.len() == urls@.len(),
        forall|i: int| 0 <= i < results@.len() ==> results@[i].url@ == urls@[i]@,
{
    let rt = tokio::runtime::Builder::new_multi_thread().enable_all().build().unwrap();
    let client = reqwest::Client::new();
    let tasks: Vec<_> = urls.iter().map(|url| {
        let url = url.clone();
        let start = monotonic_now();
        futures::FutureExt::map(client.get(url.as_str()).send(), move |response| {
            let outcome = response.map(|r| r.status().as_u16()).ok();
            crate::finish_ping(url, outcome, elapsed_nanos(&start))
        })
    }).collect();
    rt.block_on(futures::future::join_all(tasks))
}

/// Relies on tokio's spawn_blocking, one blocking-pool worker per URL (the
/// pool caps the thread count on very large batches), and on the join
/// handles being collected in the order the workers were spawned, so the
/// results keep the input order. Each worker runs the verified
/// [`crate::ping_one`] against a shared client. A worker that panics makes
/// the whole batch panic rather than hand back a partial one.
#[verifier::external_body]
pub(crate) fn spawn_pings(urls: &Vec<String>) -> (results: Vec<crate::PingResult>)
    ensures
        results@.len() == urls@.len(),
        forall|i: int| 0 <= i < results@.len() ==> results@[i].url@ == urls@[i]@,
{
    let rt = tokio::runtime::Builder::new_multi_thread().build().unwrap();
    let client = std::sync::Arc::new(reqwest::blocking::Client::new());
    let workers: Vec<_> = urls.iter().map(|url| {
        let (client, url) = (std::sync::Arc::clone(&client), url.clone());
        rt.spawn_blocking(move || crate::ping_one(&client, url))
    }).collect();
    let joined = rt.block_on(futures::future::join_all(workers));
    joined.into_iter().map(|worker| worker.unwrap()).collect()
}

} // verus!
