//! The configuration of a sink that inserts into a collection.

use crate::storage::base::StorageConfig;
use vstd::prelude::*;

verus! {

#[derive(Debug, Clone)]
pub struct MongoConfig {
    pub collection: String,
}

impl StorageConfig for MongoConfig {
    open spec fn destination_text(&self) -> Seq<char> {
        self.collection@
    }

    fn destination(&self) -> (destination: &str) {
        self.collection.as_str()
    }
}

} // verus!
