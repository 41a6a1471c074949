//! Gathering the tracked configuration files before they are staged.

use vstd::prelude::*;

use crate::configs::ConfigList;
use crate::init::Metadata;

verus! {

/// The list of configuration files to stage: the files that the metadata
/// read from disk records as tracked, which replace `configs`.
///
/// The caller reads the metadata file; a read that failed is not accepted
/// here (the run stops on it).
pub fn generate_local_sync(configs: ConfigList, metadata: Result<Metadata, String>) -> (r: ConfigList)
    requires
        metadata is Ok,
    ensures
        r@ == metadata->Ok_0.tracked_files@,
{
    let mut configs = configs;
    if metadata.is_ok() {
        configs = metadata.unwrap().tracked_files;
    }
    configs
}

} // verus!
