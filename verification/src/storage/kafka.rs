//! The configuration of a sink that publishes to a topic.

use crate::storage::base::StorageConfig;
use vstd::prelude::*;

verus! {

#[derive(Debug, Clone)]
pub struct KafkaConfig {
    pub topic: String,
}

impl StorageConfig for KafkaConfig {
    open spec fn destination_text(&self) -> Seq<char> {
        self.topic@
    }

    fn destination(&self) -> (destination: &str) {
        self.topic.as_str()
    }
}

} // verus!
