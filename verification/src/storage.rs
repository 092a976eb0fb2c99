//! Where a spider's items go: categories of sinks, the item written, the
//! contract of a backend, and the set of sinks of one spider.

pub mod base;
pub mod disk;
pub mod factory;
pub mod kafka;
pub mod manager;
pub mod mongo;
pub mod types;

pub use crate::errors::StorageError;
pub use base::{StorageBackend, StorageConfig, StorageItem};
pub use disk::{DiskConfig, DiskStorage};
pub use factory::StorageType;
pub use kafka::KafkaConfig;
pub use manager::StorageManager;
pub use mongo::MongoConfig;
pub use types::StorageCategory;
