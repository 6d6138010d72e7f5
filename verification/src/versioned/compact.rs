//! The choice between the compact and the old representation.

use vstd::prelude::*;
use crate::versioned::{RemoteCfg, Versioner};

verus! {

/// Uses the compact representation if the remote endpoint understands it.
///
/// Without a connection the compact representation is used.
pub struct CompactVersioner;

impl Versioner for CompactVersioner {
    fn use_old(remote: Option<RemoteCfg>) -> (r: Result<bool, String>)
        ensures
            r == Ok::<bool, String>(
                remote matches Some(cfg) && !cfg.compact_transported,
            ),
    {
        match remote {
            Some(cfg) => Ok(!cfg.compact_transported),
            None => Ok(false),
        }
    }
}

} // verus!
