//! The local metadata record of a stored attachment.
//!
//! After a successful attach, one record per file name is kept in a local
//! keyed store (an external collaborator), so that a later download can
//! resolve the name back to the stored object and its block without asking
//! the service for the page's content. The file name is the unique key;
//! uniqueness is enforced by an existence check before insertion, a
//! check-then-act step that is not atomic against concurrent writers.

use vstd::prelude::*;

verus! {

/// One stored attachment. `created_at` is the record's creation time as
/// milliseconds since the Unix epoch.
#[derive(Debug, Clone, PartialEq, Eq)]
pub struct FileRow {
    pub file_name: String,
    pub file_url: String,
    pub space_id: String,
    pub block_id: String,
    pub origin_file_path: String,
    pub created_at: i64,
}

} // verus!
