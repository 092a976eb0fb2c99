//! The fetch transport: what to do with each answer to a request, how a
//! response is put together, and a transport that plays back a script.

pub mod http_scraper;
pub mod mock_scraper;
pub mod scraper;

pub use http_scraper::{assemble_response, build_response, check_headers, HttpScraperError};
pub use mock_scraper::{MockResponse, MockScraper};
pub use scraper::{after_fetch, FetchStep, Scraper};
