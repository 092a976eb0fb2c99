//! The sinks of one spider, by category, with a default.

use crate::errors::ScraperResult;
use crate::storage::base::StorageBackend;
use crate::storage::types::{SinkId, StorageCategory};
use crate::table::{lookup, upsert, Table};
use vstd::prelude::*;

verus! {

/// The sinks of a spider: for each registered category a backend with its
/// configuration, and the category that stands in for unregistered ones.
pub struct StorageManager<B: StorageBackend> {
    storages: Table<StorageCategory, (B, B::Config)>,
    default_storage: StorageCategory,
}

impl<B: StorageBackend> StorageManager<B> {
    /// The registered sinks, in the order of their registration.
    pub closed spec fn sinks(&self) -> Seq<(SinkId, (B, B::Config))> {
        self.storages@
    }

    /// The category that stands in for unregistered ones.
    pub closed spec fn fallback(&self) -> SinkId {
        self.default_storage@
    }

    /// No category is registered twice.
    pub closed spec fn wf(&self) -> bool {
        self.storages.wf()
    }

    /// The sink for `category`: its own where it is registered, the default
    /// category's otherwise, none where that is not registered either.
    pub open spec fn sink_for(&self, category: SinkId) -> Option<(B, B::Config)> {
        match lookup(self.sinks(), category) {
            Some(sink) => Some(sink),
            None => lookup(self.sinks(), self.fallback()),
        }
    }

    /// No sinks; the default category is `Data`.
    pub fn new() -> (manager: Self)
        ensures
            manager.wf(),
            manager.sinks().len() == 0,
            manager.fallback() == SinkId::Data,
    {
        StorageManager { storages: Table::new(), default_storage: StorageCategory::Data }
    }

    /// Registers `storage` with `config` for `category`, in place of what
    /// was registered for it before.
    pub fn register(self, category: StorageCategory, storage: B, config: B::Config) -> (manager:
        Self)
        requires
            self.wf(),
        ensures
            manager.wf(),
            manager.sinks() == upsert(self.sinks(), category@, (storage, config)),
            manager.fallback() == self.fallback(),
    {
        let mut manager = self;
        manager.storages.insert(category, (storage, config));
        manager
    }

    /// Registers `storage` for `category`, with the configuration that it
    /// makes for `destination`.
    pub fn register_storage(self, category: StorageCategory, storage: B, destination: &str) -> (manager:
        Self)
        requires
            self.wf(),
            call_requires(B::create_config, (&storage, destination)),
        ensures
            manager.wf(),
            manager.fallback() == self.fallback(),
            exists|config: B::Config|
                call_ensures(B::create_config, (&storage, destination), config)
                    && manager.sinks() == upsert(self.sinks(), category@, (storage, config)),
    {
        let config = storage.create_config(destination);
        self.register(category, storage, config)
    }

    /// Makes `category` the stand-in for unregistered categories.
    pub fn set_default_storage(self, category: StorageCategory) -> (manager: ScraperResult<Self>)
        ensures
            manager matches Ok(m) && m.sinks() == self.sinks() && m.fallback() == category@ && (
            self.wf() ==> m.wf()),
    {
        let mut manager = self;
        manager.default_storage = category;
        Ok(manager)
    }

    /// The sink for `category`; the default sink where `category` has none.
    pub fn get_storage(&self, category: &StorageCategory) -> (sink: Option<&(B, B::Config)>)
        ensures
            sink == match self.sink_for(category@) {
                Some(found) => Some(&found),
                None => None,
            },
    {
        match self.storages.get(category) {
            Some(sink) => Some(sink),
            None => self.get_default_storage(),
        }
    }

    /// The sink of the default category.
    pub fn get_default_storage(&self) -> (sink: Option<&(B, B::Config)>)
        ensures
            sink == match lookup(self.sinks(), self.fallback()) {
                Some(found) => Some(&found),
                None => None,
            },
    {
        self.storages.get(&self.default_storage)
    }
}

} // verus!
