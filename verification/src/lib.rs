//! The core of a web-crawling engine: a depth-limited, concurrency-capped
//! scheduler, a per-URL retry controller with categories and backoff, the
//! retry loop of the fetch transport, and the bookkeeping around them.
//!
//! The engine's decisions are verified here. Fetching, sleeping, spawning
//! tasks and writing to sinks are the caller's: the scheduler and the
//! transport are state machines that say what to do next.

pub mod crawler;
pub mod delay;
pub mod errors;
pub mod http;
pub mod retry;
pub mod scrapers;
pub mod spider;
pub mod stats;
pub mod storage;
pub mod table;
pub mod text;

pub use crawler::{Crawler, Reaction, TaskOutcome, Work};
pub use delay::Delay;
pub use errors::{ScraperError, ScraperResult, StorageError};
pub use http::{HttpRequest, HttpResponse, Method, ResponseType};
pub use scrapers::{after_fetch, FetchStep, MockResponse, MockScraper, Scraper};
pub use spider::{ParseResult, ParsedData, SpiderCallback, SpiderConfig, SpiderResponse};
pub use stats::{ErrorType, ScrapingStats, StatsTracker};
pub use storage::{DiskStorage, StorageCategory, StorageManager};
pub use table::Table;
