//! The persisted connection settings: where the search backend lives and
//! which region signs the requests. Reading and writing the on-disk file
//! is the surrounding program's business; the core only carries the values.

use vstd::prelude::*;

verus! {

/// Connection settings for the search backend.
#[derive(Clone, Debug)]
pub struct AppConfig {
    pub endpoint_url: String,
    pub aws_region: String,
}

} // verus!
