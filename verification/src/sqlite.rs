//! Where the record store is.
use vstd::prelude::*;

verus! {

/// Configuration of the record store: the URL of the database.
#[derive(Debug)]
pub struct Settings {
    pub url: String,
}

} // verus!
