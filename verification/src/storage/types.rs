//! The categories by which a spider addresses its sinks.

use crate::table::Key;
use vstd::prelude::*;

verus! {

/// Which sink a write is for.
#[derive(Debug, Hash)]
pub enum StorageCategory {
    /// Valid, processed data.
    Data,
    /// Error records and failed requests.
    Error,
    /// Raw responses.
    Raw,
    /// Anything else, by name.
    Custom(String),
}

/// The identity of a [`StorageCategory`]: its variant, and for a custom
/// category the characters of its name.
pub enum SinkId {
    Data,
    Error,
    Raw,
    Custom(Seq<char>),
}

impl View for StorageCategory {
    type V = SinkId;

    open spec fn view(&self) -> SinkId {
        match *self {
            StorageCategory::Data => SinkId::Data,
            StorageCategory::Error => SinkId::Error,
            StorageCategory::Raw => SinkId::Raw,
            StorageCategory::Custom(name) => SinkId::Custom(name@),
        }
    }
}

impl Clone for StorageCategory {
    fn clone(&self) -> (copy: Self)
        ensures
            copy == *self,
    {
        match self {
            StorageCategory::Data => StorageCategory::Data,
            StorageCategory::Error => StorageCategory::Error,
            StorageCategory::Raw => StorageCategory::Raw,
            StorageCategory::Custom(name) => StorageCategory::Custom(name.clone()),
        }
    }
}

impl Default for StorageCategory {
    fn default() -> (category: Self)
        ensures
            category == StorageCategory::Data,
    {
        StorageCategory::Data
    }
}

impl StorageCategory {
    /// Whether `self` and `other` are the same category.
    pub fn same_as(&self, other: &StorageCategory) -> (same: bool)
        ensures
            same == (self@ == other@),
    {
        match self {
            StorageCategory::Data => match other {
                StorageCategory::Data => true,
                _ => false,
            },
            StorageCategory::Error => match other {
                StorageCategory::Error => true,
                _ => false,
            },
            StorageCategory::Raw => match other {
                StorageCategory::Raw => true,
                _ => false,
            },
            StorageCategory::Custom(a) => match other {
                StorageCategory::Custom(b) => *a == *b,
                _ => false,
            },
        }
    }
}

impl Key for StorageCategory {
    fn same_key(&self, other: &Self) -> (same: bool) {
        self.same_as(other)
    }

    fn copy_key(&self) -> (copy: Self) {
        self.clone()
    }
}

} // verus!
