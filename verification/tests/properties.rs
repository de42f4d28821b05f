use web_pinger::{PingResult, RuntimeType, UrlPinger};

#[test]
fn target_list_keeps_order_and_empty_segments() {
    let pinger = UrlPinger::from_comma_seperated_string("a,,b", "sync");
    assert_eq!(vec!["a", "", "b"], *pinger.urls);

    let pinger = UrlPinger::from_comma_seperated_string("x", "sync");
    assert_eq!(vec!["x"], *pinger.urls);

    let pinger = UrlPinger::from_comma_seperated_string(",,", "sync");
    assert_eq!(vec!["", "", ""], *pinger.urls);

    let pinger = UrlPinger::from_comma_seperated_string("", "sync");
    assert_eq!(vec![""], *pinger.urls);
}

#[test]
fn target_count_is_comma_count_plus_one() {
    let inputs = ["a", "a,b", "a,b,c,d", ",leading", "trailing,", "one,,three"];
    for input in inputs {
        let commas = input.chars().filter(|c| *c == ',').count();
        let pinger = UrlPinger::from_comma_seperated_string(input, "sync");
        assert_eq!(pinger.urls.len(), commas + 1);
    }
}

#[test]
fn every_strategy_preserves_length_and_url_order() {
    let urls = "htx:one,htx:two,htx:three";
    for mode in ["sync", "async", "multi"] {
        let pinger = UrlPinger::from_comma_seperated_string(urls, mode);
        let results = pinger.ping_urls();
        assert_eq!(results.len(), 3);
        assert_eq!(results[0].url, "htx:one");
        assert_eq!(results[1].url, "htx:two");
        assert_eq!(results[2].url, "htx:three");
    }
}

#[test]
fn unreachable_target_yields_sentinel_under_every_strategy() {
    for mode in ["sync", "async", "multi"] {
        let pinger = UrlPinger::from_comma_seperated_string("htx:example.com", mode);
        let results = pinger.ping_urls();
        assert_eq!(results.len(), 1);
        assert_eq!(results[0].status_code, 404);
    }
}

#[test]
fn unrecognized_mode_is_refused_before_any_request() {
    assert!(RuntimeType::from_mode("turbo").is_none());
    assert!(RuntimeType::from_mode("").is_none());
    assert!(RuntimeType::from_mode("SYNC").is_none());
    assert!(matches!(RuntimeType::from_mode("sync"), Some(RuntimeType::SYNC)));
    assert!(matches!(RuntimeType::from_mode("async"), Some(RuntimeType::ASYNC)));
    assert!(matches!(
        RuntimeType::from_mode("multi"),
        Some(RuntimeType::MULTITHREADED)
    ));
}

#[test]
fn outcome_classification_uses_sentinel_only_on_failure() {
    assert_eq!(web_pinger::status_code_of(Some(200)), 200);
    assert_eq!(web_pinger::status_code_of(Some(503)), 503);
    assert_eq!(web_pinger::status_code_of(None), 404);
}

#[test]
fn finished_ping_carries_its_inputs() {
    let result: PingResult = web_pinger::finish_ping("htx:somewhere".to_string(), None, 17);
    assert_eq!(result.url, "htx:somewhere");
    assert_eq!(result.status_code, 404);
    assert_eq!(result.duration_in_nano_seconds, 17);

    let result = web_pinger::finish_ping("http://a".to_string(), Some(301), 5);
    assert_eq!(result.status_code, 301);
}
