//! The file-system sink: where on disk an item goes.

use crate::errors::StorageError;
use crate::storage::base::{StorageBackend, StorageConfig};
use vstd::prelude::*;
use vstd::string::StringExecFns;

verus! {

/// Whether `chrono` has a date and time for this many milliseconds since
/// the Unix epoch.
pub uninterp spec fn stamp_exists(millis: int) -> bool;

/// The UTC date and time at `millis` milliseconds since the Unix epoch,
/// written as `YYYYMMDD_HHMMSS`.
pub uninterp spec fn stamp_text(millis: int) -> Seq<char>;

/// The host of the URL written as `url`, where it parses as a URL and has
/// a host.
pub uninterp spec fn url_host(url: Seq<char>) -> Option<Seq<char>>;

/// Calls `chrono::DateTime::from_timestamp_millis` and formats the result
/// with `%Y%m%d_%H%M%S`. Trusted: whether a date and time exists, and the
/// text it formats to, depend on the number alone.
#[verifier::external_body]
fn stamp_of(timestamp_millis: i64) -> (stamp: Option<String>)
    ensures
        stamp.is_some() == stamp_exists(timestamp_millis as int),
        stamp matches Some(text) ==> text@ == stamp_text(timestamp_millis as int),
{
    match chrono::DateTime::from_timestamp_millis(timestamp_millis) {
        Some(moment) => Some(moment.format("%Y%m%d_%H%M%S").to_string()),
        None => None,
    }
}

/// Calls `url::Url::parse` and `url::Url::host_str`. Trusted: the host
/// depends on the text alone.
#[verifier::external_body]
fn host_of(url: &str) -> (host: Option<String>)
    ensures
        match host {
            Some(text) => url_host(url@) == Some(text@),
            None => url_host(url@) is None,
        },
{
    match url::Url::parse(url) {
        Ok(parsed) => match parsed.host_str() {
            Some(host) => Some(host.to_string()),
            None => None,
        },
        Err(_) => None,
    }
}

/// Calls `uuid::Uuid::now_v7`, which draws on the clock and on chance:
/// nothing is promised of the text.
#[verifier::external_body]
fn fresh_uuid() -> String {
    uuid::Uuid::now_v7().to_string()
}

/// A sink that writes one file per item under a base directory.
#[derive(Debug, Clone)]
pub struct DiskStorage {
    pub base_path: String,
}

/// Where under the base directory the files of a destination go, and how
/// their names begin.
#[derive(Debug, Clone)]
pub struct DiskConfig {
    pub subfolder: Option<String>,
    pub filename_prefix: Option<String>,
}

impl StorageConfig for DiskConfig {
    open spec fn destination_text(&self) -> Seq<char> {
        match self.subfolder {
            Some(folder) => folder@,
            None => Seq::empty(),
        }
    }

    fn destination(&self) -> (destination: &str) {
        match &self.subfolder {
            Some(folder) => folder.as_str(),
            None => {
                let empty = "";
                proof {
                    reveal_strlit("");
                }
                empty
            },
        }
    }
}

/// The name of an item's file: the prefix, the time stamp, the item's
/// name and a unique part, joined by underscores, with the ending `.json`.
pub open spec fn file_name_text(
    prefix: Seq<char>,
    stamp: Seq<char>,
    id: Seq<char>,
    unique: Seq<char>,
) -> Seq<char> {
    prefix + stamp + "_"@ + id + "_"@ + unique + ".json"@
}

/// The folders and the file of an item below the base directory: the
/// destination's folder where it has one, then the host of the item's URL
/// or `unknown`, then the file's name.
pub open spec fn location_texts(
    config: DiskConfig,
    host: Option<Seq<char>>,
    stamp: Seq<char>,
    id: Seq<char>,
    unique: Seq<char>,
) -> Seq<Seq<char>> {
    let folder = match config.subfolder {
        Some(folder) => seq![folder@],
        None => Seq::empty(),
    };
    let host_folder = match host {
        Some(name) => name,
        None => "unknown"@,
    };
    let prefix = match config.filename_prefix {
        Some(prefix) => prefix@,
        None => Seq::empty(),
    };
    folder + seq![host_folder, file_name_text(prefix, stamp, id, unique)]
}

/// The views of a list of strings.
pub open spec fn part_texts(parts: Seq<String>) -> Seq<Seq<char>> {
    Seq::new(parts.len(), |i: int| parts[i]@)
}

impl DiskStorage {
    /// A sink below `base_path`.
    pub fn new(base_path: String) -> (storage: Self)
        ensures
            storage.base_path == base_path,
    {
        DiskStorage { base_path }
    }

    /// The name of an item's file.
    pub fn file_name(prefix: &str, stamp: &str, id: &str, unique: &str) -> (name: String)
        ensures
            name@ == file_name_text(prefix@, stamp@, id@, unique@),
    {
        let mut name = prefix.to_owned();
        name.append(stamp);
        name.append("_");
        name.append(id);
        name.append("_");
        name.append(unique);
        name.append(".json");
        name
    }

    /// The folders and the file of an item below the base directory, given
    /// the host of its URL, its time stamp and the unique part of its name.
    pub fn location(
        config: &DiskConfig,
        host: Option<String>,
        stamp: &str,
        id: &str,
        unique: &str,
    ) -> (parts: Vec<String>)
        ensures
            part_texts(parts@) == location_texts(
                *config,
                match host {
                    Some(name) => Some(name@),
                    None => None,
                },
                stamp@,
                id@,
                unique@,
            ),
    {
        let mut parts: Vec<String> = Vec::new();
        match &config.subfolder {
            Some(folder) => {
                parts.push(folder.clone());
            },
            None => {},
        }
        let ghost host_text: Option<Seq<char>> = match &host {
            Some(name) => Some(name@),
            None => None,
        };
        let host_folder = match host {
            Some(name) => name,
            None => "unknown".to_owned(),
        };
        parts.push(host_folder);
        let name = match &config.filename_prefix {
            Some(prefix) => Self::file_name(prefix.as_str(), stamp, id, unique),
            None => {
                let empty = "";
                proof {
                    reveal_strlit("");
                }
                Self::file_name(empty, stamp, id, unique)
            },
        };
        parts.push(name);
        assert(part_texts(parts@) =~= location_texts(*config, host_text, stamp@, id@, unique@));
        parts
    }

    /// The folders and the file, below the base directory, for an item
    /// from `url` stamped `timestamp` and named `id`. The name ends in a
    /// fresh unique part. A time stamp that has no date gives an error.
    pub fn item_location(config: &DiskConfig, url: &str, timestamp: i64, id: &str) -> (located:
        Result<Vec<String>, StorageError>)
        ensures
            located.is_ok() == stamp_exists(timestamp as int),
            located matches Ok(parts) ==> exists|unique: Seq<char>|
                part_texts(parts@) == location_texts(
                    *config,
                    url_host(url@),
                    stamp_text(timestamp as int),
                    id@,
                    unique,
                ),
            located matches Err(error) ==> error is OperationError,
    {
        match stamp_of(timestamp) {
            Some(stamp) => {
                let unique = fresh_uuid();
                let host = host_of(url);
                let parts = Self::location(config, host, stamp.as_str(), id, unique.as_str());
                assert(part_texts(parts@) == location_texts(
                    *config,
                    url_host(url@),
                    stamp_text(timestamp as int),
                    id@,
                    unique@,
                ));
                Ok(parts)
            },
            None => Err(StorageError::OperationError("time stamp out of range".to_owned())),
        }
    }
}

impl StorageBackend for DiskStorage {
    type Config = DiskConfig;

    /// The files of `destination` go to the folder of that name, with no
    /// prefix to their names.
    fn create_config(&self, destination: &str) -> (config: DiskConfig)
        ensures
            config.subfolder matches Some(folder) && folder@ == destination@,
            config.filename_prefix is None,
    {
        DiskConfig { subfolder: Some(destination.to_owned()), filename_prefix: None }
    }
}

} // verus!
