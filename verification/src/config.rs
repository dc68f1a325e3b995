//! The records read from the working directory's JSON files: the
//! repository configuration and the package manifest. Parsing them is thin
//! I/O glue left to the driver; the records themselves are plain data.

use vstd::prelude::*;

verus! {

/// The repository configuration of `config.json`.
pub struct Config {
    pub github: bool,
    pub github_token: String,
}

/// The package manifest of `package.json`, reduced to what the tooling
/// reads from it.
pub struct Package {
    pub version: String,
}

} // verus!
