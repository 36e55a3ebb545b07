//! The configuration document and the choice among its candidate
//! locations.
//!
//! The document lives on disk at one of several well-known locations,
//! searched in a fixed order; the first location that exists wins. Reading
//! the filesystem, as well as parsing the document, is the embedding
//! program's business: it reports which candidates exist, and this module
//! decides which one is the configuration file.

use vstd::prelude::*;
use crate::error::ConfFileNotFoundError;
use crate::forwarding::Forwarding;

verus! {

/// The whole configuration document: one entry per remote SSH endpoint.
#[derive(Debug)]
pub struct Conf {
    pub remote_mappings: Vec<Forwarding>,
}

/// Picks the configuration file among the candidate locations, given for
/// each candidate, in search order, whether a file exists there: the first
/// existing candidate wins. If none exists, configuration loading fails,
/// which is fatal for the whole process.
pub fn select_conf_file(present: &Vec<bool>) -> (r: Result<usize, ConfFileNotFoundError>)
    ensures
        match r {
            Ok(i) => i < present@.len() && present@[i as int] && (forall|j: int|
                0 <= j < i ==> !present@[j]),
            Err(_) => forall|j: int| 0 <= j < present@.len() ==> !present@[j],
        },
{
    let mut i: usize = 0;
    while i < present.len()
        invariant
            i <= present@.len(),
            forall|j: int| 0 <= j < i ==> !present@[j],
        decreases present@.len() - i,
    {
        if present[i] {
            return Ok(i);
        }
        i = i + 1;
    }
    Err(ConfFileNotFoundError::new("configuration file not found"))
}

} // verus!
