//! Entries of the change log.

use vstd::prelude::*;

verus! {

/// The notes of one released version.
pub struct ChangelogEntry {
    pub version: &'static str,
    pub notes: &'static [&'static str],
}

} // verus!
