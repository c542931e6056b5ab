//! Taking over the data of a predecessor of the program.

use vstd::prelude::*;
use crate::paths::{join_path, joined_path};
use crate::text::{cat3, dec, decimal};

verus! {

/// The database in a directory.
pub fn database_in(dir: &str) -> (r: String)
    ensures
        r@ == joined_path(dir@, "db.sqlite"@),
{
    join_path(dir, "db.sqlite")
}

/// Where the old database is moved to.
pub fn moved_aside(dir: &str) -> (r: String)
    ensures
        r@ == joined_path(dir@, "db.sqlite.migrated-to-clawket"@),
{
    join_path(dir, "db.sqlite.migrated-to-clawket")
}

/// What is to be done.
pub enum Migration {
    /// There is nothing to take over.
    Nothing,
    /// There is data already that would be lost.
    Refuse(String),
    /// It is only said what would be done.
    Preview(String),
    /// The database is copied, and the old one moved aside.
    Copy,
}

/// Decides what is to be done. Data that is there is overwritten only where
/// that is forced, and nothing is done on a dry run.
pub fn decide(
    legacy_exists: bool,
    target_exists: bool,
    target: &str,
    dry_run: bool,
    force: bool,
    size: u64,
) -> (r: Migration)
    ensures
        !legacy_exists <==> r is Nothing,
        legacy_exists && target_exists && !force <==> r is Refuse,
        r matches Migration::Refuse(m) ==> m@ == "target already exists: "@ + target@
            + " (pass --force to overwrite)"@,
        legacy_exists && (!target_exists || force) && dry_run <==> r is Preview,
        r matches Migration::Preview(m) ==> m@ == "DRY RUN: would copy "@ + dec(size as nat)
            + " bytes"@,
        legacy_exists && (!target_exists || force) && !dry_run <==> r is Copy,
{
    if !legacy_exists {
        return Migration::Nothing;
    }
    if target_exists && !force {
        return Migration::Refuse(
            cat3("target already exists: ", target, " (pass --force to overwrite)"),
        );
    }
    if dry_run {
        let n = decimal(size);
        return Migration::Preview(cat3("DRY RUN: would copy ", n.as_str(), " bytes"));
    }
    Migration::Copy
}

} // verus!
