//! The kinds of backend and what each needs to be set up.

use vstd::prelude::*;

verus! {

#[derive(Debug, Clone)]
pub enum StorageType {
    Disk { path: String },
    Mongo { connection_string: String, database: String },
    Kafka { brokers: String, client_id: String },
}

} // verus!
