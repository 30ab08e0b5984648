//! Where a session keeps its data on disk.

use crate::error::CoreError;
use crate::foreign::{sanitize_file_name, sanitized_file_name};
use vstd::prelude::*;

verus! {

/// A directory under a base path.
#[derive(Debug)]
pub struct DataPath {
    /// The path under which all sessions keep their data.
    pub base: String,
    /// The name of the directory of one session.
    pub leaf: String,
}

/// The directory for the data of the session `home` under `base_path`: its name is `home`
/// made fit for a file system.
pub fn sanitize(base_path: String, home: String) -> (res: DataPath)
    ensures
        res.base@ == base_path@,
        res.leaf@ == sanitized_file_name(home@),
{
    DataPath { base: base_path, leaf: sanitize_file_name(home.as_str()) }
}

/// Sets logging up. On this platform there is nothing to set up, whatever the filter.
pub fn init_logging(filter: Option<String>) -> (res: Result<(), CoreError>)
    ensures
        res is Ok,
{
    Ok(())
}

} // verus!
