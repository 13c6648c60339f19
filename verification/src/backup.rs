//! When a database backup may be restored over the data file.
use vstd::prelude::*;
use crate::text::{i64_to_string, int_decimal, owned};

verus! {

/// Why a restore is refused.
#[derive(Clone, Copy, Debug, PartialEq, Eq, Structural)]
pub enum RestoreRefusal {
    /// The backup was written by a newer schema than this build reads.
    NewerSchema { version: i64, supported: i64 },
    /// The data file exists and replacing it was not asked for.
    DestinationExists,
}

/// Whether a backup with schema `version` may be restored by a build that
/// reads schema `supported`, onto a destination that exists or not, with or
/// without `force`. When it may, the answer says whether the old data file
/// and its side files are removed first (they are exactly with `force`).
pub fn restore_check(version: i64, supported: i64, destination_exists: bool, force: bool) -> (r:
    Result<bool, RestoreRefusal>)
    ensures
        r == if version > supported {
            Err(RestoreRefusal::NewerSchema { version, supported })
        } else if destination_exists && !force {
            Err(RestoreRefusal::DestinationExists)
        } else {
            Ok(force)
        },
{
    if version > supported {
        Err(RestoreRefusal::NewerSchema { version, supported })
    } else if destination_exists && !force {
        Err(RestoreRefusal::DestinationExists)
    } else {
        Ok(force)
    }
}

impl RestoreRefusal {
    /// The message of the refusal, for the data file `destination`.
    pub fn message(&self, destination: &str) -> (r: String)
        ensures
            r@ == match *self {
                RestoreRefusal::NewerSchema { version, supported } => "backup schema version "@
                    + int_decimal(version as int) + " is newer than this build supports ("@
                    + int_decimal(supported as int) + "); update kanban before restoring"@,
                RestoreRefusal::DestinationExists => "destination "@ + destination@
                    + " already exists; pass --force to replace it"@,
            },
    {
        match *self {
            RestoreRefusal::NewerSchema { version, supported } => owned("backup schema version ")
                .concat(i64_to_string(version).as_str()).concat(
                " is newer than this build supports (",
            ).concat(i64_to_string(supported).as_str()).concat(
                "); update kanban before restoring",
            ),
            RestoreRefusal::DestinationExists => owned("destination ").concat(destination).concat(
                " already exists; pass --force to replace it",
            ),
        }
    }
}

} // verus!
