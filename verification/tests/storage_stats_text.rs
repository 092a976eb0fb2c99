use turboscraper::delay::Delay;
use turboscraper::errors::{ScraperError, StorageError};
use turboscraper::http::{HttpRequest, HttpResponse};
use turboscraper::retry::RetryCategory;
use turboscraper::scrapers::build_response;
use turboscraper::spider::SpiderCallback;
use turboscraper::stats::{ErrorType, StatsTracker};
use turboscraper::storage::{
    DiskConfig, DiskStorage, KafkaConfig, MongoConfig, StorageBackend, StorageCategory,
    StorageConfig, StorageItem, StorageManager, StorageType,
};
use turboscraper::table::Table;
use turboscraper::text::{
    chars_of, decimal_string, contains_chars, contains_ignoring_case, is_blank_chars, is_whitespace, lowercased,
    regex_matches, search_verdict, skip_whitespace, starts_with_chars, str_contains,
    trim_start_chars,
};

fn chars(text: &str) -> Vec<char> {
    text.chars().collect()
}

#[test]
fn characters_are_listed_in_order() {
    assert_eq!(chars_of(""), Vec::<char>::new());
    assert_eq!(chars_of("a\u{e9}\u{1f600}z"), vec!['a', '\u{e9}', '\u{1f600}', 'z']);
}

#[test]
fn substrings_are_found_anywhere() {
    assert!(contains_chars(&chars("haystack"), &chars("hay")));
    assert!(contains_chars(&chars("haystack"), &chars("stack")));
    assert!(contains_chars(&chars("haystack"), &chars("yst")));
    assert!(contains_chars(&chars("haystack"), &chars("")));
    assert!(contains_chars(&chars(""), &chars("")));
    assert!(!contains_chars(&chars(""), &chars("a")));
    assert!(!contains_chars(&chars("haystack"), &chars("hays tack")));
    assert!(!contains_chars(&chars("aab"), &chars("abb")));
    assert!(contains_chars(&chars("aaab"), &chars("aab")));
    assert!(str_contains("text/html; charset=utf-8", "text/html"));
    assert!(!str_contains("TEXT/HTML", "text/html"));
}

#[test]
fn prefixes_and_leading_whitespace() {
    assert!(starts_with_chars(&chars("<html>"), &chars("<html")));
    assert!(starts_with_chars(&chars("<html>"), &chars("")));
    assert!(!starts_with_chars(&chars("<htm"), &chars("<html")));
    assert!(!starts_with_chars(&chars(" <html"), &chars("<html")));
    assert_eq!(skip_whitespace(&chars("  \t\nx y ")), 4);
    assert_eq!(skip_whitespace(&chars("x")), 0);
    assert_eq!(skip_whitespace(&chars(" \u{3000}")), 2);
    assert_eq!(trim_start_chars(&chars(" \n a b ")), chars("a b "));
    assert_eq!(trim_start_chars(&chars("   ")), chars(""));
    assert!(is_blank_chars(&chars(" \t\r\n\u{a0}")));
    assert!(is_blank_chars(&chars("")));
    assert!(!is_blank_chars(&chars("  x ")));
}

#[test]
fn whitespace_is_what_the_standard_library_says() {
    for code in 0..=0x10ffffu32 {
        if let Some(c) = char::from_u32(code) {
            assert_eq!(is_whitespace(c), c.is_whitespace(), "U+{:04X}", code);
        }
    }
}

#[test]
fn lower_casing_is_applied_to_both_sides() {
    assert_eq!(lowercased("Hello WORLD \u{c4}"), "hello world \u{e4}");
    assert!(contains_ignoring_case("HELLO World", "hello w"));
    assert!(contains_ignoring_case("hello world", "LLO WOR"));
    assert!(!contains_ignoring_case("hello world", "worlds"));
}

#[test]
fn regular_expressions_are_compiled_and_searched() {
    assert!(regex_matches(r"b+c", "aabbbcc"));
    assert!(!regex_matches(r"^b+c", "aabbbcc"));
    assert!(!regex_matches(r"(", "("));
    assert!(search_verdict(Some(true)));
    assert!(!search_verdict(Some(false)));
    assert!(!search_verdict(None));
}

fn response(status: u16, body: &str) -> HttpResponse {
    let request = HttpRequest::new("http://example.com".to_string(), SpiderCallback::Bootstrap, 0);
    build_response(request, status, Table::new(), body.as_bytes().to_vec(), 0, None).unwrap()
}

#[test]
fn a_request_succeeds_below_400_with_a_good_parse() {
    let mut stats = StatsTracker::new();
    stats.record_request(200, 10, 5, true);
    stats.record_request(399, 1, 5, true);
    stats.record_request(400, 2, 7, true);
    stats.record_request(200, 3, 1, false);
    stats.record_request(503, 4, 2, false);
    let seen = stats.get_stats(Delay::from_secs(9));
    assert_eq!(seen.duration, Delay::from_secs(9));
    assert_eq!(seen.total_requests, 5);
    assert_eq!(seen.successful_requests, 2);
    assert_eq!(seen.failed_requests, 3);
    assert_eq!(seen.data_downloaded, 20);
    assert_eq!(seen.total_response_time, 20);
    assert_eq!(seen.status_codes.get(&200), Some(&2));
    assert_eq!(seen.status_codes.get(&399), Some(&1));
    assert_eq!(seen.status_codes.get(&400), Some(&1));
    assert_eq!(seen.status_codes.get(&503), Some(&1));
    assert_eq!(seen.status_codes.len(), 4);
    assert_eq!(seen.retry_count, 0);
}

#[test]
fn errors_and_retries_are_counted_by_kind() {
    let mut stats = StatsTracker::default();
    stats.record_error(ErrorType::Storage);
    stats.record_error(ErrorType::Parsing);
    stats.record_error(ErrorType::Parsing);
    stats.record_error(ErrorType::Unhandled);
    stats.record_retry("RateLimit".to_string());
    stats.record_retry("ServerError".to_string());
    stats.record_retry("RateLimit".to_string());
    stats.record_retries(&RetryCategory::Custom("x".to_string()), 3);
    stats.record_retries(&RetryCategory::ServerError, 0);
    let seen = stats.get_stats(Delay::zero());
    assert_eq!(seen.storage_errors, 1);
    assert_eq!(seen.parsing_errors, 2);
    assert_eq!(seen.unhandled_errors, 1);
    assert_eq!(seen.retry_count, 6);
    assert_eq!(seen.retry_reasons.len(), 3);
    assert_eq!(seen.retry_reasons.get(&"RateLimit".to_string()), Some(&2));
    assert_eq!(seen.retry_reasons.get(&"ServerError".to_string()), Some(&1));
    assert_eq!(seen.retry_reasons.get(&"Custom(\"x\")".to_string()), Some(&3));
    assert_eq!(seen.retry_reasons.key_at(0), "RateLimit");
}

#[test]
fn a_task_counts_its_history_its_parse_and_its_request() {
    let mut done = response(200, "gr\u{fc}n");
    done.retry_count = 3;
    done.retry_history.insert(RetryCategory::RateLimit, 2);
    done.retry_history.insert(RetryCategory::BotDetection, 1);
    let mut stats = StatsTracker::new();
    stats.record_task(&done, false, 12);
    let seen = stats.get_stats(Delay::zero());
    assert_eq!(seen.retry_count, 3);
    assert_eq!(seen.retry_reasons.get(&"RateLimit".to_string()), Some(&2));
    assert_eq!(seen.retry_reasons.get(&"BotDetection".to_string()), Some(&1));
    assert_eq!(seen.parsing_errors, 1);
    assert_eq!(seen.total_requests, 1);
    assert_eq!(seen.failed_requests, 1);
    assert_eq!(seen.data_downloaded, 5);
    assert_eq!(seen.total_response_time, 12);

    // Without a retry count the history is not looked at.
    let mut quiet = response(200, "");
    quiet.retry_history.insert(RetryCategory::RateLimit, 2);
    let mut stats = StatsTracker::new();
    stats.record_task(&quiet, true, 0);
    let seen = stats.get_stats(Delay::zero());
    assert_eq!(seen.retry_count, 0);
    assert_eq!(seen.successful_requests, 1);
    assert_eq!(seen.parsing_errors, 0);
}

#[test]
fn tables_keep_the_order_of_first_insertion() {
    let mut table: Table<String, u32> = Table::new();
    assert!(table.is_empty());
    table.insert("b".to_string(), 1);
    table.insert("a".to_string(), 2);
    table.insert("b".to_string(), 3);
    assert_eq!(table.len(), 2);
    assert_eq!(table.key_at(0), "b");
    assert_eq!(table.value_at(0), &3);
    assert_eq!(table.key_at(1), "a");
    assert_eq!(table.position(&"a".to_string()), 1);
    assert_eq!(table.position(&"z".to_string()), 2);
    assert!(table.contains_key(&"a".to_string()));
    assert!(!table.contains_key(&"A".to_string()));
    assert_eq!(table.get(&"z".to_string()), None);
    assert_eq!(table.replace_value_at(1, 9), 2);
    assert_eq!(table.get(&"a".to_string()), Some(&9));
    let mut other: Table<String, u32> = Table::new();
    other.insert("c".to_string(), 7);
    other.insert("b".to_string(), 8);
    table.extend(other);
    assert_eq!(table.len(), 3);
    assert_eq!(table.get(&"b".to_string()), Some(&8));
    assert_eq!(table.key_at(2), "c");
}

fn disk() -> DiskStorage {
    DiskStorage::new("data".to_string())
}

#[test]
fn unknown_categories_fall_back_to_the_default() {
    let empty: StorageManager<DiskStorage> = StorageManager::new();
    assert!(empty.get_storage(&StorageCategory::Data).is_none());
    assert!(empty.get_default_storage().is_none());

    let manager = StorageManager::new()
        .register_storage(StorageCategory::Data, disk(), "data")
        .register_storage(StorageCategory::Error, disk(), "error");
    let folder = |category: StorageCategory| {
        manager.get_storage(&category).map(|sink| sink.1.destination().to_string())
    };
    assert_eq!(folder(StorageCategory::Data), Some("data".to_string()));
    assert_eq!(folder(StorageCategory::Error), Some("error".to_string()));
    assert_eq!(folder(StorageCategory::Raw), Some("data".to_string()));
    assert_eq!(folder(StorageCategory::Custom("x".to_string())), Some("data".to_string()));

    let manager = manager.set_default_storage(StorageCategory::Error).unwrap();
    assert_eq!(
        manager.get_storage(&StorageCategory::Raw).map(|sink| sink.1.destination().to_string()),
        Some("error".to_string())
    );
    let manager = manager.set_default_storage(StorageCategory::Raw).unwrap();
    assert!(manager.get_storage(&StorageCategory::Custom("x".to_string())).is_none());
    assert!(manager.get_default_storage().is_none());
    assert!(manager.get_storage(&StorageCategory::Data).is_some());

    let manager = manager.register(
        StorageCategory::Custom("x".to_string()),
        disk(),
        DiskConfig { subfolder: None, filename_prefix: Some("p-".to_string()) },
    );
    let sink = manager.get_storage(&StorageCategory::Custom("x".to_string())).unwrap();
    assert_eq!(sink.1.destination(), "");
    assert_eq!(sink.0.base_path, "data");
    assert!(manager.get_storage(&StorageCategory::Custom("y".to_string())).is_none());
}

#[test]
fn storage_categories_compare_by_variant_and_name() {
    assert!(StorageCategory::Data.same_as(&StorageCategory::default()));
    assert!(!StorageCategory::Data.same_as(&StorageCategory::Raw));
    assert!(StorageCategory::Custom("a".to_string())
        .same_as(&StorageCategory::Custom("a".to_string()).clone()));
    assert!(!StorageCategory::Custom("a".to_string())
        .same_as(&StorageCategory::Custom("b".to_string())));
}

#[test]
fn configurations_name_their_destination() {
    assert_eq!(KafkaConfig { topic: "pages".to_string() }.destination(), "pages");
    assert_eq!(MongoConfig { collection: "books".to_string() }.destination(), "books");
    let config = disk().create_config("books");
    assert_eq!(config.subfolder, Some("books".to_string()));
    assert_eq!(config.filename_prefix, None);
    assert_eq!(config.destination(), "books");
    match (StorageType::Disk { path: "out".to_string() }) {
        StorageType::Disk { path } => assert_eq!(DiskStorage::new(path).base_path, "out"),
        _ => panic!("expected a disk"),
    }
}

#[test]
fn files_are_named_by_prefix_stamp_name_and_unique_part() {
    assert_eq!(
        DiskStorage::file_name("p-", "20240131_235959", "books", "u1"),
        "p-20240131_235959_books_u1.json"
    );
    assert_eq!(DiskStorage::file_name("", "s", "", ""), "s__.json");
    let config = DiskConfig { subfolder: Some("data".to_string()), filename_prefix: None };
    assert_eq!(
        DiskStorage::location(&config, Some("example.com".to_string()), "s", "id", "u"),
        vec!["data".to_string(), "example.com".to_string(), "s_id_u.json".to_string()]
    );
    let bare = DiskConfig { subfolder: None, filename_prefix: Some("x".to_string()) };
    assert_eq!(
        DiskStorage::location(&bare, None, "s", "id", "u"),
        vec!["unknown".to_string(), "xs_id_u.json".to_string()]
    );
}

#[test]
fn items_are_located_by_host_time_and_name() {
    let config = disk().create_config("data");
    let parts = DiskStorage::item_location(
        &config,
        "https://books.example.com/catalogue/page-2.html",
        947_638_923_004,
        "book_spider",
    )
    .unwrap();
    assert_eq!(parts.len(), 3);
    assert_eq!(parts[0], "data");
    assert_eq!(parts[1], "books.example.com");
    assert!(parts[2].starts_with("20000112_010203_book_spider_"));
    assert!(parts[2].ends_with(".json"));
    let unique = &parts[2]["20000112_010203_book_spider_".len()..parts[2].len() - ".json".len()];
    assert_eq!(unique.len(), 36);
    assert_eq!(unique.as_bytes()[14], b'7');

    let again = DiskStorage::item_location(
        &config,
        "https://books.example.com/catalogue/page-2.html",
        947_638_923_004,
        "book_spider",
    )
    .unwrap();
    assert_ne!(parts[2], again[2]);

    let hostless = DiskStorage::item_location(&config, "data:text/plain,Stuff", 0, "x").unwrap();
    assert_eq!(hostless[1], "unknown");
    assert!(hostless[2].starts_with("19700101_000000_x_"));
    let not_a_url = DiskStorage::item_location(&config, "not a url", 0, "x").unwrap();
    assert_eq!(not_a_url[1], "unknown");
}

#[test]
fn a_time_without_a_date_is_an_operation_error() {
    let config = disk().create_config("data");
    for timestamp in [i64::MAX, i64::MIN] {
        match DiskStorage::item_location(&config, "http://example.com", timestamp, "x") {
            Err(StorageError::OperationError(_)) => {}
            _ => panic!("expected an operation error"),
        }
    }
}

#[test]
fn items_keep_their_fields_when_the_data_changes() {
    let item = StorageItem {
        url: "http://example.com".to_string(),
        timestamp: 5,
        data: 1u8,
        metadata: Some(serde_json::Value::Null),
        id: "id".to_string(),
    };
    let changed = item.with_data("text".to_string());
    assert_eq!(changed.url, "http://example.com");
    assert_eq!(changed.timestamp, 5);
    assert_eq!(changed.data, "text");
    assert_eq!(changed.metadata, Some(serde_json::Value::Null));
    assert_eq!(changed.id, "id");
}

#[test]
fn numbers_are_written_in_decimal() {
    for n in [0usize, 1, 9, 10, 11, 99, 100, 101, 12345, 1_000_000, usize::MAX] {
        assert_eq!(decimal_string(n), n.to_string());
    }
}

#[test]
fn errors_read_as_lines() {
    let text = |m: &str| m.to_string();
    assert_eq!(ScraperError::HttpError(text("refused")).to_string(), "HTTP error: refused");
    assert_eq!(ScraperError::UrlError(text("no scheme")).to_string(), "URL parsing error: no scheme");
    assert_eq!(ScraperError::IoError(text("denied")).to_string(), "IO error: denied");
    assert_eq!(ScraperError::JsonError(text("eof")).to_string(), "JSON error: eof");
    assert_eq!(ScraperError::ParsingError(text("no title")).to_string(), "Extraction error: no title");
    assert_eq!(ScraperError::MiddlewareError(text("x")).to_string(), "Middleware error: x");
    assert_eq!(
        ScraperError::StorageError(StorageError::ConnectionError(text("down"))).to_string(),
        "Storage error: Connection error: down"
    );
    assert_eq!(
        StorageError::OperationError(text("disk full")).to_string(),
        "Operation error: disk full"
    );
    assert_eq!(
        StorageError::SerializationError(text("cycle")).to_string(),
        "Serialization error: cycle"
    );
    assert_eq!(
        ScraperError::MaxRetriesReached {
            category: RetryCategory::RateLimit,
            retry_count: 12,
            url: text("https://example.com/"),
        }
        .to_string(),
        "Maximum retries of 12 reached for category RateLimit on url: https://example.com/"
    );
    assert_eq!(ScraperError::ParsingError(text("x")).error_type(), "parsing_error");
    assert_eq!(
        ScraperError::StorageError(StorageError::OperationError(text("x"))).error_type(),
        "storage_error"
    );
    assert_eq!(ScraperError::HttpError(text("x")).error_type(), "other_error");
    assert_eq!(ScraperError::IoError(text("x")).clone().to_string(), "IO error: x");
}
