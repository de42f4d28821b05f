use web_pinger::UrlPinger;

fn sync_pinger() -> UrlPinger {
    let urls = "https://example.com,htx:example.com,https://google.com/hype".to_string();
    UrlPinger::from_comma_seperated_string(&urls, "sync")
}

fn async_pinger() -> UrlPinger {
    let urls = "https://example.com,htx:example.com,https://google.com/hype".to_string();
    UrlPinger::from_comma_seperated_string(&urls, "async")
}

fn thread_pinger() -> UrlPinger {
    let urls = "https://example.com,htx:example.com,https://google.com/hype".to_string();
    UrlPinger::from_comma_seperated_string(&urls, "multi")
}

#[test]
fn from_comma_seperated_string_returns_url_pinger() {
    let urls = "a,b".to_string();
    let pinger = UrlPinger::from_comma_seperated_string(&urls, "sync");
    assert_eq!(vec!["a", "b"], *pinger.urls);
}

#[test]
fn ping_urls_returns_valid_request_duration() {
    let pingers = [sync_pinger(), async_pinger(), thread_pinger()];

    for pinger in pingers {
        let results = pinger.ping_urls();
        for result in results.iter() {
            assert!(result.duration_in_nano_seconds > 0);
        }
    }
}

#[test]
fn large_batch_keeps_one_result_per_target_under_every_strategy() {
    let mut urls = String::new();
    for i in 1..=40 {
        if i > 1 {
            urls.push(',');
        }
        urls.push_str(&format!("http://example{}.com", i));
    }

    for mode in ["sync", "async", "multi"] {
        let pinger = UrlPinger::from_comma_seperated_string(&urls, mode);
        let results = pinger.ping_urls();
        assert_eq!(results.len(), 40);
        for (i, result) in results.iter().enumerate() {
            assert_eq!(result.url, format!("http://example{}.com", i + 1));
            assert!(result.duration_in_nano_seconds > 0);
        }
    }
}
