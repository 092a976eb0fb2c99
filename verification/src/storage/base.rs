//! The item that is written and what a backend owes the sink set.

use serde_json::Value;
use vstd::prelude::*;

verus! {

/// One record for a sink: where it came from, when, what, and under which
/// name. The timestamp is in milliseconds since the Unix epoch.
#[derive(Debug, Clone)]
pub struct StorageItem<T> {
    pub url: String,
    pub timestamp: i64,
    pub data: T,
    pub metadata: Option<Value>,
    pub id: String,
}

impl<T> StorageItem<T> {
    /// The item with its data replaced by `data`.
    pub fn with_data<U>(self, data: U) -> (item: StorageItem<U>)
        ensures
            item.url == self.url,
            item.timestamp == self.timestamp,
            item.data == data,
            item.metadata == self.metadata,
            item.id == self.id,
    {
        StorageItem {
            url: self.url,
            timestamp: self.timestamp,
            data,
            metadata: self.metadata,
            id: self.id,
        }
    }
}

/// What a backend remembers about one of its destinations.
pub trait StorageConfig {
    /// The destination, as text.
    spec fn destination_text(&self) -> Seq<char>;

    /// The destination that the backend writes to under this configuration.
    fn destination(&self) -> (destination: &str)
        ensures
            destination@ == self.destination_text(),
    ;
}

/// The part of a backend that the sink set relies on: making the
/// configuration for a destination. What a destination means is the
/// backend's business.
pub trait StorageBackend {
    type Config: StorageConfig;

    fn create_config(&self, destination: &str) -> Self::Config;
}

} // verus!
