use turboscraper::delay::Delay;
use turboscraper::errors::{ScraperError, ScraperResult};
use turboscraper::http::{HttpRequest, HttpResponse};
use turboscraper::retry::{
    BackoffPolicy, CategoryConfig, ContentRetryCondition, RequestRetryCondition, RetryCategory,
    RetryCondition, RetryConfig,
};
use turboscraper::scrapers::{after_fetch, FetchStep, MockResponse, MockScraper, Scraper};
use turboscraper::spider::{SpiderCallback, SpiderConfig};
use turboscraper::stats::StatsTracker;

/// Runs the transport's retry loop against a scripted transport. Gives the
/// result and the sum of the delays that the loop waited for.
fn fetch(
    scraper: &mut MockScraper,
    request: HttpRequest,
    config: &mut SpiderConfig,
) -> (ScraperResult<HttpResponse>, Delay) {
    let mut stats = StatsTracker::new();
    let fetched = scraper.fetch(request, config, &mut stats);
    (fetched, scraper.total_wait())
}

fn mock(status: u16, body: &str) -> MockResponse {
    MockResponse { status, body: body.to_string(), delay: None }
}

fn status_rule(
    max_retries: usize,
    status: u16,
    backoff_policy: BackoffPolicy,
) -> CategoryConfig {
    CategoryConfig {
        max_retries,
        initial_delay: Delay::from_millis(100),
        max_delay: Delay::from_secs(1),
        conditions: vec![RetryCondition::Request(RequestRetryCondition::StatusCode(status))],
        backoff_policy,
    }
}

fn content_rule(pattern: &str, is_regex: bool) -> CategoryConfig {
    CategoryConfig {
        max_retries: 3,
        initial_delay: Delay::from_millis(100),
        max_delay: Delay::from_secs(1),
        conditions: vec![RetryCondition::Request(RequestRetryCondition::Content(
            ContentRetryCondition { pattern: pattern.to_string(), is_regex },
        ))],
        backoff_policy: BackoffPolicy::Constant,
    }
}

fn config_with(retry_config: RetryConfig) -> SpiderConfig {
    SpiderConfig::default().with_retry(retry_config)
}

fn bootstrap(url: &str) -> HttpRequest {
    HttpRequest::new(url.to_string(), SpiderCallback::Bootstrap, 0)
}

#[test]
fn test_rate_limit_retry() {
    let responses = vec![mock(429, "Rate limited"), mock(200, "Success")];

    let mut retry_config = RetryConfig::default();
    retry_config.insert_category(
        RetryCategory::RateLimit,
        status_rule(3, 429, BackoffPolicy::Constant),
    );

    let mut scraper = MockScraper::new(responses);
    let (response, _) = fetch(
        &mut scraper,
        bootstrap("https://example.com"),
        &mut config_with(retry_config),
    );
    let response = response.unwrap();

    assert_eq!(response.status, 200);
    assert_eq!(response.decoded_body, "Success");
    assert_eq!(response.retry_count, 1);
    assert_eq!(response.retry_history.get(&RetryCategory::RateLimit), Some(&1));
}

#[test]
fn test_bot_detection_retry() {
    let responses = vec![mock(200, "Bot detected, please try again"), mock(200, "Welcome user")];

    let mut retry_config = RetryConfig::default();
    retry_config.insert_category(RetryCategory::BotDetection, content_rule("bot detected", false));

    let mut scraper = MockScraper::new(responses);
    let (response, _) = fetch(
        &mut scraper,
        bootstrap("https://example.com"),
        &mut config_with(retry_config),
    );
    let response = response.unwrap();

    assert_eq!(response.status, 200);
    assert_eq!(response.decoded_body, "Welcome user");
    assert_eq!(response.retry_count, 1);
    assert_eq!(response.retry_history.get(&RetryCategory::BotDetection), Some(&1));
}

#[test]
fn test_exponential_backoff() {
    let responses =
        vec![mock(429, "Rate limited"), mock(429, "Rate limited"), mock(200, "Success")];

    let mut retry_config = RetryConfig::default();
    retry_config.insert_category(
        RetryCategory::RateLimit,
        status_rule(3, 429, BackoffPolicy::Exponential { factor_permille: 2000 }),
    );

    let mut scraper = MockScraper::new(responses);
    let (response, waited) = fetch(
        &mut scraper,
        bootstrap("https://example.com"),
        &mut config_with(retry_config),
    );
    let response = response.unwrap();

    assert_eq!(response.status, 200);
    assert_eq!(response.retry_count, 2);
    assert_eq!(response.retry_history.get(&RetryCategory::RateLimit), Some(&2));
    // 100 ms before the first retry, 200 ms before the second.
    assert!(waited.as_millis() >= 300);
    assert_eq!(waited, Delay::from_millis(300));
}

#[test]
fn test_max_retries_exceeded() {
    let responses = vec![mock(429, "Rate limited")];

    let mut retry_config = RetryConfig::default();
    retry_config.insert_category(
        RetryCategory::RateLimit,
        status_rule(2, 429, BackoffPolicy::Constant),
    );

    let mut scraper = MockScraper::new(responses);
    let url = "https://example.com".to_string();
    let request = bootstrap(&url);
    let (response, _) = fetch(&mut scraper, request, &mut config_with(retry_config));

    assert!(response.is_err());
    let (error, request) = response.err().unwrap();

    match error {
        ScraperError::MaxRetriesReached { category, retry_count, url: error_url } => {
            assert_eq!(category, RetryCategory::RateLimit);
            assert_eq!(retry_count, 2);
            assert_eq!(error_url, url);
            assert_eq!(request.url, url);
        }
        _ => panic!("Expected MaxRetriesReached error"),
    }
}

#[test]
fn test_multiple_retry_categories() {
    let responses = vec![
        mock(429, "Rate limited"),
        mock(200, "Bot detected, please verify"),
        mock(200, "Success"),
    ];

    let mut retry_config = RetryConfig::default();
    retry_config.insert_category(
        RetryCategory::RateLimit,
        status_rule(3, 429, BackoffPolicy::Constant),
    );
    retry_config.insert_category(RetryCategory::BotDetection, content_rule("Bot detected", false));

    let mut scraper = MockScraper::new(responses);
    let (response, _) = fetch(
        &mut scraper,
        bootstrap("https://example.com"),
        &mut config_with(retry_config),
    );
    let response = response.unwrap();

    assert_eq!(response.status, 200);
    assert_eq!(response.decoded_body, "Success");
    assert_eq!(response.retry_count, 2);
    assert_eq!(response.retry_history.get(&RetryCategory::RateLimit), Some(&1));
    assert_eq!(response.retry_history.get(&RetryCategory::BotDetection), Some(&1));
}

#[test]
fn test_regex_content_retry() {
    let responses = vec![mock(200, "Your IP (1.2.3.4) has been blocked"), mock(200, "Success")];

    let mut retry_config = RetryConfig::default();
    retry_config.insert_category(RetryCategory::Blacklisted, content_rule(r"IP.*blocked", true));

    let mut scraper = MockScraper::new(responses);
    let (response, _) = fetch(
        &mut scraper,
        bootstrap("https://example.com"),
        &mut config_with(retry_config),
    );
    let response = response.unwrap();

    assert_eq!(response.status, 200);
    assert_eq!(response.decoded_body, "Success");
    assert_eq!(response.retry_count, 1);
    assert_eq!(response.retry_history.get(&RetryCategory::Blacklisted), Some(&1));
}

#[test]
fn test_custom_category() {
    let responses = vec![mock(200, "Checking your browser - Cloudflare"), mock(200, "Success")];

    let mut retry_config = RetryConfig::default();
    retry_config.insert_category(
        RetryCategory::Custom("CloudflareCheck".to_string()),
        content_rule("Checking your browser.*Cloudflare", true),
    );

    let mut scraper = MockScraper::new(responses);
    let (response, _) = fetch(
        &mut scraper,
        bootstrap("https://example.com"),
        &mut config_with(retry_config),
    );
    let response = response.unwrap();

    assert_eq!(response.status, 200);
    assert_eq!(response.decoded_body, "Success");
    assert_eq!(response.retry_count, 1);
    assert_eq!(
        response.retry_history.get(&RetryCategory::Custom("CloudflareCheck".to_string())),
        Some(&1)
    );
}

#[test]
fn test_no_matching_retry_condition() {
    let responses = vec![mock(404, "Not Found")];

    let retry_config = RetryConfig::default();
    let mut scraper = MockScraper::new(responses);
    let (response, _) = fetch(
        &mut scraper,
        bootstrap("https://example.com"),
        &mut config_with(retry_config),
    );
    let response = response.unwrap();

    assert_eq!(response.status, 404);
    assert_eq!(response.retry_count, 0);
    assert!(response.retry_history.is_empty());
}

#[test]
fn test_status_code_retry() {
    let responses = vec![mock(429, "Rate limited"), mock(200, "Success")];

    let mut retry_config = RetryConfig::default();
    retry_config.insert_category(
        RetryCategory::RateLimit,
        status_rule(3, 429, BackoffPolicy::Constant),
    );

    let mut scraper = MockScraper::new(responses);
    let (response, _) = fetch(
        &mut scraper,
        bootstrap("https://example.com"),
        &mut config_with(retry_config),
    );
    let response = response.unwrap();

    assert_eq!(response.status, 200);
    assert_eq!(response.decoded_body, "Success");
    assert_eq!(response.retry_count, 1);
}

#[test]
fn test_content_based_retry() {
    let responses = vec![mock(200, "Bot detected, please try again"), mock(200, "Welcome user")];

    let mut retry_config = RetryConfig::default();
    retry_config.insert_category(RetryCategory::BotDetection, content_rule("bot detected", false));

    let mut scraper = MockScraper::new(responses);
    let (response, _) = fetch(
        &mut scraper,
        bootstrap("https://example.com"),
        &mut config_with(retry_config),
    );
    let response = response.unwrap();

    assert_eq!(response.status, 200);
    assert_eq!(response.decoded_body, "Welcome user");
    assert_eq!(response.retry_count, 1);
}

#[test]
fn tests_test_exponential_backoff() {
    let responses =
        vec![mock(429, "Rate limited"), mock(429, "Rate limited"), mock(200, "Success")];

    let mut retry_config = RetryConfig::default();
    retry_config.insert_category(
        RetryCategory::RateLimit,
        status_rule(3, 429, BackoffPolicy::Exponential { factor_permille: 2000 }),
    );

    let mut scraper = MockScraper::new(responses);
    let (response, waited) = fetch(
        &mut scraper,
        bootstrap("https://example.com"),
        &mut config_with(retry_config),
    );
    let response = response.unwrap();

    assert_eq!(response.status, 200);
    assert_eq!(response.retry_count, 2);
    assert!(waited >= Delay::from_millis(300));
}

#[test]
fn tests_test_max_retries_exceeded() {
    let responses = vec![mock(429, "Rate limited")];

    let mut retry_config = RetryConfig::default();
    retry_config.insert_category(
        RetryCategory::RateLimit,
        status_rule(2, 429, BackoffPolicy::Constant),
    );

    let mut scraper = MockScraper::new(responses);
    let (response, _) = fetch(
        &mut scraper,
        bootstrap("https://example.com"),
        &mut config_with(retry_config),
    );

    // The second 429 uses up the category: the fetch ends with the count of
    // retries made, and the transport was asked twice.
    match response {
        Err((ScraperError::MaxRetriesReached { retry_count, .. }, _)) => {
            assert_eq!(retry_count, 2)
        }
        _ => panic!("Expected MaxRetriesReached error"),
    }
    assert_eq!(scraper.calls(), 2);
}

#[test]
fn one_decision_at_a_time_gives_the_same_as_the_loop() {
    let rule = || {
        let mut retry_config = RetryConfig::default();
        retry_config.insert_category(
            RetryCategory::RateLimit,
            status_rule(3, 429, BackoffPolicy::Linear),
        );
        config_with(retry_config)
    };
    let script =
        || vec![mock(429, "Rate limited"), mock(429, "Rate limited"), mock(200, "Success")];

    let mut looped = MockScraper::new(script());
    let (whole, waited) = fetch(&mut looped, bootstrap("https://example.com"), &mut rule());
    let whole = whole.unwrap();

    let mut stepped = MockScraper::new(script());
    let mut config = rule();
    let mut stats = StatsTracker::new();
    let mut request = bootstrap("https://example.com");
    let mut delays = Vec::new();
    let done = loop {
        let fetched = stepped.fetch_single(request, &config);
        match after_fetch(&mut config.retry_config, &mut stats, fetched) {
            FetchStep::Retry { request: again, category, attempt, delay } => {
                assert_eq!(category, RetryCategory::RateLimit);
                assert_eq!(attempt, delays.len() + 1);
                delays.push(delay);
                request = again;
            }
            FetchStep::Failed(..) => panic!("the third answer is good"),
            FetchStep::Done(response) => break response,
        }
    };
    assert_eq!(delays, vec![Delay::from_millis(100), Delay::from_millis(100)]);
    assert_eq!(waited, Delay::from_millis(200));
    assert_eq!(done.status, whole.status);
    assert_eq!(done.decoded_body, whole.decoded_body);
    assert_eq!(done.retry_count, whole.retry_count);
    assert_eq!(done.retry_count, 2);
    assert_eq!(stats.get_stats(Delay::zero()).retry_count, 2);
    assert_eq!(
        stats.get_stats(Delay::zero()).retry_reasons.get(&"RateLimit".to_string()),
        Some(&2)
    );
}

#[test]
fn a_transport_error_ends_the_fetch_and_changes_nothing() {
    let mut retry_config = RetryConfig::default();
    retry_config.insert_category(
        RetryCategory::RateLimit,
        status_rule(3, 429, BackoffPolicy::Constant),
    );
    let mut stats = StatsTracker::new();
    let request = Box::new(bootstrap("https://example.com"));
    let fetched = Err((ScraperError::HttpError("connection refused".to_string()), request));
    match after_fetch(&mut retry_config, &mut stats, fetched) {
        FetchStep::Failed(ScraperError::HttpError(text), failed) => {
            assert_eq!(text, "connection refused");
            assert_eq!(failed.url, "https://example.com");
        }
        _ => panic!("expected the transport error"),
    }
    assert_eq!(retry_config.get_retry_state("https://example.com").total_retries, 0);
    assert_eq!(stats.get_stats(Delay::zero()).retry_count, 0);
}

#[test]
fn scripted_delays_count_as_waiting() {
    let mut scraper = MockScraper::new(vec![
        MockResponse { status: 500, body: String::new(), delay: Some(Delay::from_millis(7)) },
        MockResponse { status: 200, body: String::new(), delay: Some(Delay::from_millis(5)) },
    ]);
    let mut retry_config = RetryConfig::default();
    retry_config.insert_category(
        RetryCategory::ServerError,
        status_rule(3, 500, BackoffPolicy::Constant),
    );
    let (response, waited) =
        fetch(&mut scraper, bootstrap("https://example.com"), &mut config_with(retry_config));
    assert_eq!(response.unwrap().retry_count, 1);
    assert_eq!(waited, Delay::from_millis(112));
}
