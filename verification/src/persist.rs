//! Persistence planning.
//!
//! Each message is meant to become one file: the metadata key `filename`
//! names the file, the payload is its exact byte content, and the file lives
//! directly under the target directory.  This module decides what to write
//! and where; the write itself is the surrounding binary's job.  A message
//! without the `filename` key yields no plan at all — it is dropped with an
//! error that the caller reports without stopping.

use vstd::prelude::*;

use crate::message::{find_meta, IncomingMessage};

verus! {

/// Why a message could not be turned into a file write.
#[derive(Clone, Copy, PartialEq, Eq, Structural, Debug)]
pub enum PersistError {
    /// The message has no `filename` metadata entry.
    MissingFilename,
}

impl PersistError {
    /// A short description of the error, for reporting.
    pub fn describe(&self) -> (r: &'static str)
        ensures
            r@ == "no filename in user properties"@,
    {
        "no filename in user properties"
    }
}

/// A fully decided file write: which file, at which path, with which bytes.
pub struct PersistPlan {
    pub filename: String,
    pub path: String,
    pub payload: Vec<u8>,
}

/// The path of the file for `filename` under `directory`.
pub open spec fn spec_target_path(directory: Seq<char>, filename: Seq<char>) -> Seq<char> {
    directory + "/"@ + filename
}

/// Join the target directory and a filename into the file's path.
pub fn target_path(directory: &str, filename: &str) -> (r: String)
    ensures
        r@ == spec_target_path(directory@, filename@),
{
    let mut p = String::from_str(directory);
    p.append("/");
    p.append(filename);
    proof {
        assert(p@ =~= spec_target_path(directory@, filename@));
    }
    p
}

/// Turn a message into a file-write plan.  Succeeds exactly when the message
/// carries a `filename` metadata entry; the plan then names that file under
/// `directory` and carries the payload unchanged, byte for byte.  A message
/// without the entry is rejected and creates no plan.
pub fn plan_persist(msg: IncomingMessage, directory: &str) -> (r: Result<PersistPlan, PersistError>)
    ensures
        match r {
            Ok(plan) => {
                &&& find_meta(msg.metadata@, "filename"@) == Some(plan.filename@)
                &&& plan.path@ == spec_target_path(directory@, plan.filename@)
                &&& plan.payload@ == msg.payload@
            },
            Err(e) => {
                &&& e is MissingFilename
                &&& find_meta(msg.metadata@, "filename"@) is None
            },
        },
{
    let key = String::from_str("filename");
    match crate::message::find_user_property(&msg.metadata, &key) {
        Some(filename) => {
            let path = target_path(directory, filename.as_str());
            Ok(PersistPlan { filename, path, payload: msg.payload })
        },
        None => Err(PersistError::MissingFilename),
    }
}

} // verus!
