use turboscraper::delay::Delay;
use turboscraper::errors::{ScraperError, StorageError};
use turboscraper::retry::{
    calculate_delay, check_content_condition, retry_parse_condition_should_apply,
    retry_request_condition_should_apply, BackoffPolicy, CategoryConfig, ContentRetryCondition,
    ParseRetryCondition, ParseRetryType, RequestRetryCondition, RetryCategory, RetryCondition,
    RetryConfig, RetryState,
};

fn rule(
    max_retries: usize,
    initial_ms: u64,
    max_ms: u64,
    backoff_policy: BackoffPolicy,
    conditions: Vec<RetryCondition>,
) -> CategoryConfig {
    CategoryConfig {
        max_retries,
        initial_delay: Delay::from_millis(initial_ms),
        max_delay: Delay::from_millis(max_ms),
        backoff_policy,
        conditions,
    }
}

fn status(code: u16) -> RetryCondition {
    RetryCondition::Request(RequestRetryCondition::StatusCode(code))
}

fn literal(pattern: &str) -> ContentRetryCondition {
    ContentRetryCondition { pattern: pattern.to_string(), is_regex: false }
}

fn regex(pattern: &str) -> ContentRetryCondition {
    ContentRetryCondition { pattern: pattern.to_string(), is_regex: true }
}

fn delays(config: &CategoryConfig, attempts: usize) -> Vec<u64> {
    (0..attempts).map(|n| calculate_delay(config, n).as_millis()).collect()
}

#[test]
fn constant_backoff_always_waits_the_initial_delay() {
    let config = rule(3, 100, 1000, BackoffPolicy::Constant, vec![]);
    assert_eq!(delays(&config, 5), vec![100, 100, 100, 100, 100]);
}

#[test]
fn linear_backoff_multiplies_by_the_attempt() {
    let config = rule(3, 100, 1000, BackoffPolicy::Linear, vec![]);
    assert_eq!(delays(&config, 6), vec![100, 100, 200, 300, 400, 500]);
    assert_eq!(calculate_delay(&config, 10), Delay::from_millis(1000));
    assert_eq!(calculate_delay(&config, 11), Delay::from_millis(1000));
    assert_eq!(calculate_delay(&config, usize::MAX), Delay::from_millis(1000));
}

#[test]
fn exponential_backoff_scales_by_the_factor() {
    let doubling = rule(3, 100, 1000, BackoffPolicy::Exponential { factor_permille: 2000 }, vec![]);
    assert_eq!(delays(&doubling, 7), vec![100, 200, 400, 800, 1000, 1000, 1000]);
    assert_eq!(doubling.calculate_delay(3), Delay::from_millis(800));
    assert_eq!(doubling.calculate_delay(usize::MAX), Delay::from_millis(1000));

    let by_half = rule(3, 100, 10_000, BackoffPolicy::Exponential { factor_permille: 1500 }, vec![]);
    assert_eq!(calculate_delay(&by_half, 1), Delay::from_millis(150));
    assert_eq!(calculate_delay(&by_half, 2), Delay::from_millis(225));
    assert_eq!(calculate_delay(&by_half, 3).as_nanos(), 337_500_000);

    let shrinking = rule(3, 100, 1000, BackoffPolicy::Exponential { factor_permille: 500 }, vec![]);
    assert_eq!(delays(&shrinking, 4), vec![100, 50, 25, 12]);
    assert_eq!(calculate_delay(&shrinking, 200), Delay::zero());

    let unit = rule(3, 100, 1000, BackoffPolicy::Exponential { factor_permille: 1000 }, vec![]);
    assert_eq!(calculate_delay(&unit, usize::MAX), Delay::from_millis(100));

    let nothing = rule(3, 100, 1000, BackoffPolicy::Exponential { factor_permille: 0 }, vec![]);
    assert_eq!(delays(&nothing, 3), vec![100, 0, 0]);
}

#[test]
fn every_delay_is_capped_at_the_maximum() {
    for policy in [
        BackoffPolicy::Constant,
        BackoffPolicy::Linear,
        BackoffPolicy::Exponential { factor_permille: 3000 },
    ] {
        let config = rule(3, 500, 200, policy, vec![]);
        assert_eq!(delays(&config, 4), vec![200, 200, 200, 200]);
    }
    let huge = CategoryConfig {
        max_retries: 1,
        initial_delay: Delay::from_nanos(u64::MAX),
        max_delay: Delay::from_nanos(u64::MAX),
        backoff_policy: BackoffPolicy::Exponential { factor_permille: u32::MAX },
        conditions: vec![],
    };
    assert_eq!(calculate_delay(&huge, 5).as_nanos(), u64::MAX);
}

#[test]
fn delays_never_shrink_for_linear_and_growing_exponential() {
    for policy in [
        BackoffPolicy::Constant,
        BackoffPolicy::Linear,
        BackoffPolicy::Exponential { factor_permille: 1000 },
        BackoffPolicy::Exponential { factor_permille: 1001 },
        BackoffPolicy::Exponential { factor_permille: 2500 },
    ] {
        let config = rule(3, 7, 5000, policy, vec![]);
        let waits = delays(&config, 40);
        for pair in waits.windows(2) {
            assert!(pair[0] <= pair[1]);
        }
        assert!(waits.iter().all(|wait| *wait <= 5000));
    }
}

#[test]
fn the_default_rules_of_a_category() {
    let config = CategoryConfig::default();
    assert_eq!(config.max_retries, 3);
    assert_eq!(config.initial_delay, Delay::from_secs(1));
    assert_eq!(config.max_delay, Delay::from_secs(60));
    assert_eq!(config.backoff_policy, BackoffPolicy::Exponential { factor_permille: 2000 });
    assert!(config.conditions.is_empty());
    assert_eq!(calculate_delay(&config, 6), Delay::from_secs(60));
    assert_eq!(calculate_delay(&config, 5), Delay::from_secs(32));
}

#[test]
fn delays_convert_and_saturate() {
    assert_eq!(Delay::from_millis(3).as_nanos(), 3_000_000);
    assert_eq!(Delay::from_secs(2).as_millis(), 2000);
    assert_eq!(Delay::from_secs(u64::MAX).as_nanos(), u64::MAX);
    assert_eq!(Delay::from_millis(u64::MAX).as_nanos(), u64::MAX);
    assert_eq!(Delay::from_nanos(1_999_999).as_millis(), 1);
    assert_eq!(
        Delay::from_nanos(u64::MAX).saturating_add(Delay::from_nanos(1)),
        Delay::from_nanos(u64::MAX)
    );
    assert_eq!(Delay::from_nanos(2).saturating_add(Delay::from_nanos(3)), Delay::from_nanos(5));
    assert_eq!(Delay::zero().as_nanos(), 0);
}

#[test]
fn literal_patterns_ignore_case() {
    assert!(check_content_condition(&literal("bot detected"), "Bot Detected, please try again"));
    assert!(check_content_condition(&literal("BOT DETECTED"), "a bot detected you"));
    assert!(check_content_condition(&literal(""), "anything"));
    assert!(check_content_condition(&literal(""), ""));
    assert!(!check_content_condition(&literal("bot detected"), "bot was detected"));
    assert!(!check_content_condition(&literal("longer than the text"), "short"));
    assert!(check_content_condition(&literal("stra\u{df}e"), "Die STRA\u{df}E"));
    // A literal is not read as a regular expression.
    assert!(!check_content_condition(&literal("IP.*blocked"), "IP 1.2.3.4 blocked"));
    assert!(check_content_condition(&literal("ip.*BLOCKED"), "pattern IP.*blocked here"));
}

#[test]
fn regex_patterns_match_anywhere_and_keep_case() {
    assert!(check_content_condition(&regex(r"IP.*blocked"), "Your IP (1.2.3.4) has been blocked"));
    assert!(!check_content_condition(&regex(r"IP.*blocked"), "your ip has been blocked"));
    assert!(check_content_condition(&regex(r"(?i)ip.*blocked"), "Your IP has been BLOCKED"));
    assert!(check_content_condition(&regex(r"^\d{3}$"), "429"));
    assert!(!check_content_condition(&regex(r"^\d{3}$"), "4290"));
    assert!(check_content_condition(&regex("rate limit|too many requests"), "Too many requests? too many requests"));
}

#[test]
fn a_regex_that_does_not_compile_matches_nothing() {
    assert!(!check_content_condition(&regex("foo(bar"), "foo(bar"));
    assert!(!check_content_condition(&regex("["), "["));
    assert!(!check_content_condition(&regex(r"\w{100000}"), "w"));
}

#[test]
fn request_conditions_look_at_status_or_body() {
    let by_status = RequestRetryCondition::StatusCode(503);
    assert!(retry_request_condition_should_apply(&by_status, 503, ""));
    assert!(!retry_request_condition_should_apply(&by_status, 504, "503"));
    let by_body = RequestRetryCondition::Content(literal("captcha"));
    assert!(retry_request_condition_should_apply(&by_body, 200, "Solve this CAPTCHA"));
    assert!(!retry_request_condition_should_apply(&by_body, 200, "welcome"));
}

fn storage(error: StorageError) -> ScraperError {
    ScraperError::StorageError(error)
}

#[test]
fn storage_conditions_go_by_the_kind_of_error() {
    let expected = ParseRetryCondition::StorageError(
        StorageError::OperationError("prototype".to_string()),
        ParseRetryType::FetchNew,
    );
    assert!(retry_parse_condition_should_apply(
        &expected,
        &storage(StorageError::OperationError("disk full".to_string()))
    ));
    assert!(!retry_parse_condition_should_apply(
        &expected,
        &storage(StorageError::ConnectionError("prototype".to_string()))
    ));
    assert!(!retry_parse_condition_should_apply(
        &expected,
        &storage(StorageError::SerializationError("prototype".to_string()))
    ));
    assert!(!retry_parse_condition_should_apply(
        &expected,
        &ScraperError::ParsingError("prototype".to_string())
    ));
    let connection = StorageError::ConnectionError("a".to_string());
    assert!(connection.is_same_kind(&StorageError::ConnectionError("b".to_string())));
    assert!(!connection.is_same_kind(&StorageError::OperationError("a".to_string())));
    assert_eq!(connection.message(), "a");
    assert_eq!(expected.retry_type(), ParseRetryType::FetchNew);
}

#[test]
fn parse_conditions_look_at_parsing_errors() {
    let by_text = ParseRetryCondition::Content(literal("timeout"), ParseRetryType::SameContent);
    assert!(retry_parse_condition_should_apply(
        &by_text,
        &ScraperError::ParsingError("Selector TIMEOUT".to_string())
    ));
    assert!(!retry_parse_condition_should_apply(
        &by_text,
        &ScraperError::ParsingError("missing node".to_string())
    ));
    assert!(!retry_parse_condition_should_apply(
        &by_text,
        &ScraperError::MiddlewareError("timeout".to_string())
    ));
    let any = ParseRetryCondition::ErrorWhileParsing(ParseRetryType::SameContent);
    assert!(retry_parse_condition_should_apply(&any, &ScraperError::ParsingError(String::new())));
    assert!(!retry_parse_condition_should_apply(&any, &ScraperError::IoError("x".to_string())));
    assert!(!retry_parse_condition_should_apply(&any, &ScraperError::HttpError("x".to_string())));
    assert!(!retry_parse_condition_should_apply(&any, &ScraperError::UrlError("x".to_string())));
    assert!(!retry_parse_condition_should_apply(&any, &ScraperError::JsonError("x".to_string())));
    assert!(!retry_parse_condition_should_apply(
        &any,
        &storage(StorageError::OperationError("x".to_string()))
    ));
    assert!(!retry_parse_condition_should_apply(
        &any,
        &ScraperError::MaxRetriesReached {
            category: RetryCategory::ParseError,
            retry_count: 1,
            url: "http://x".to_string()
        }
    ));
}

#[test]
fn a_new_state_is_empty() {
    let state = RetryState::new();
    assert!(state.counts.is_empty());
    assert_eq!(state.total_retries, 0);
    let state = RetryState::default();
    assert_eq!(state.counts.len(), 0);
    assert_eq!(state.total_retries, 0);
    let config = RetryConfig::new();
    assert!(config.categories().is_empty());
    let unseen = config.get_retry_state("http://nowhere");
    assert!(unseen.counts.is_empty());
    assert_eq!(unseen.total_retries, 0);
}

#[test]
fn counts_stop_at_the_limit_and_add_up() {
    let mut config = RetryConfig::new();
    config.insert_category(
        RetryCategory::ServerError,
        rule(2, 10, 1000, BackoffPolicy::Linear, vec![status(500), status(502)]),
    );
    config.insert_category(
        RetryCategory::RateLimit,
        rule(1, 30, 1000, BackoffPolicy::Constant, vec![status(429)]),
    );
    let url = "http://example.com/a";
    let mut granted = Vec::new();
    for code in [500, 429, 502, 500, 429, 502] {
        granted.push(config.should_retry_request(url, code, ""));
        let state = config.get_retry_state(url);
        let sum: usize = (0..state.counts.len()).map(|i| *state.counts.value_at(i)).sum();
        assert_eq!(state.total_retries, sum);
        for i in 0..config.categories().len() {
            let category = config.categories().key_at(i);
            let limit = config.categories().value_at(i).max_retries;
            assert!(state.counts.get(category).copied().unwrap_or(0) <= limit);
        }
    }
    assert_eq!(
        granted,
        vec![
            Some((RetryCategory::ServerError, Delay::from_millis(10))),
            Some((RetryCategory::RateLimit, Delay::from_millis(30))),
            Some((RetryCategory::ServerError, Delay::from_millis(10))),
            None,
            None,
            None,
        ]
    );
    let state = config.get_retry_state(url);
    assert_eq!(state.total_retries, 3);
    assert_eq!(state.counts.get(&RetryCategory::ServerError), Some(&2));
    assert_eq!(state.counts.get(&RetryCategory::RateLimit), Some(&1));
    // Counts are listed in the order in which categories were first retried.
    assert_eq!(state.counts.key_at(0), &RetryCategory::ServerError);
    assert_eq!(state.counts.key_at(1), &RetryCategory::RateLimit);
}

#[test]
fn urls_are_counted_apart() {
    let mut config = RetryConfig::new();
    config.insert_category(
        RetryCategory::RateLimit,
        rule(1, 30, 1000, BackoffPolicy::Constant, vec![status(429)]),
    );
    assert!(config.should_retry_request("http://a", 429, "").is_some());
    assert!(config.should_retry_request("http://a", 429, "").is_none());
    assert!(config.should_retry_request("http://b", 429, "").is_some());
    assert_eq!(config.get_retry_state("http://a").total_retries, 1);
    assert_eq!(config.get_retry_state("http://b").total_retries, 1);
    assert_eq!(config.get_retry_state("http://c").total_retries, 0);
    // A snapshot does not follow later decisions.
    let before = config.get_retry_state("http://c");
    assert!(config.should_retry_request("http://c", 429, "").is_some());
    assert_eq!(before.total_retries, 0);
    assert!(before.counts.is_empty());
}

#[test]
fn the_first_inserted_category_wins() {
    let both = |first: RetryCategory, second: RetryCategory| {
        let mut config = RetryConfig::new();
        config.insert_category(
            first,
            rule(3, 10, 1000, BackoffPolicy::Constant, vec![status(429)]),
        );
        config.insert_category(
            second,
            rule(3, 20, 1000, BackoffPolicy::Constant, vec![status(429)]),
        );
        config
    };
    let mut config = both(RetryCategory::RateLimit, RetryCategory::Blacklisted);
    assert_eq!(
        config.should_retry_request("http://a", 429, ""),
        Some((RetryCategory::RateLimit, Delay::from_millis(10)))
    );
    let mut config = both(RetryCategory::Blacklisted, RetryCategory::RateLimit);
    assert_eq!(
        config.should_retry_request("http://a", 429, ""),
        Some((RetryCategory::Blacklisted, Delay::from_millis(10)))
    );
    // Replacing the rules of a category keeps its place in the order.
    config.insert_category(
        RetryCategory::Blacklisted,
        rule(1, 40, 1000, BackoffPolicy::Constant, vec![status(429)]),
    );
    assert_eq!(config.categories().len(), 2);
    assert_eq!(config.categories().key_at(0), &RetryCategory::Blacklisted);
    // It is used up by the retry counted before: the next category steps in.
    assert_eq!(
        config.should_retry_request("http://a", 429, ""),
        Some((RetryCategory::RateLimit, Delay::from_millis(20)))
    );
    assert_eq!(
        config.should_retry_request("http://b", 429, ""),
        Some((RetryCategory::Blacklisted, Delay::from_millis(40)))
    );
}

#[test]
fn the_delay_goes_by_the_attempts_made_before() {
    let mut config = RetryConfig::new();
    config.insert_category(
        RetryCategory::ServerError,
        rule(4, 100, 1000, BackoffPolicy::Exponential { factor_permille: 3000 }, vec![status(500)]),
    );
    let waits: Vec<Option<u64>> = (0..5)
        .map(|_| config.should_retry_request("http://a", 500, "").map(|(_, d)| d.as_millis()))
        .collect();
    assert_eq!(waits, vec![Some(100), Some(300), Some(900), Some(1000), None]);
}

#[test]
fn request_and_parse_conditions_do_not_mix() {
    let mut config = RetryConfig::new();
    config.insert_category(
        RetryCategory::ParseError,
        rule(
            3,
            10,
            1000,
            BackoffPolicy::Constant,
            vec![
                RetryCondition::Parse(ParseRetryCondition::Content(
                    literal("429"),
                    ParseRetryType::SameContent,
                )),
                status(418),
            ],
        ),
    );
    assert!(config.should_retry_request("http://a", 429, "429").is_none());
    assert!(config
        .should_retry_parse("http://a", &ScraperError::ParsingError("code 418".to_string()))
        .is_none());
    assert_eq!(
        config.should_retry_parse("http://a", &ScraperError::ParsingError("code 429".to_string())),
        Some((RetryCategory::ParseError, Delay::from_millis(10)))
    );
    assert_eq!(
        config.should_retry_request("http://a", 418, ""),
        Some((RetryCategory::ParseError, Delay::from_millis(10)))
    );
    assert_eq!(config.get_retry_state("http://a").total_retries, 2);
}

#[test]
fn categories_compare_by_variant_and_name() {
    assert_eq!(RetryCategory::RateLimit, RetryCategory::RateLimit);
    assert_ne!(RetryCategory::RateLimit, RetryCategory::ServerError);
    assert_eq!(RetryCategory::Custom("a".to_string()), RetryCategory::Custom("a".to_string()));
    assert_ne!(RetryCategory::Custom("a".to_string()), RetryCategory::Custom("b".to_string()));
    assert_ne!(RetryCategory::Custom("ParseError".to_string()), RetryCategory::ParseError);
    assert!(RetryCategory::NotFound.same_as(&RetryCategory::NotFound));
    assert!(!RetryCategory::Authentication.same_as(&RetryCategory::BotDetection));
    assert_eq!(RetryCategory::StorageError.clone(), RetryCategory::StorageError);
    assert_eq!(RetryCategory::BotDetection.label(), "BotDetection");
    assert_eq!(RetryCategory::Custom("cf".to_string()).label(), "Custom(\"cf\")");
}
