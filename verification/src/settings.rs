//! The configuration of the service.
use crate::{auth, open_library, sqlite};
use vstd::prelude::*;

verus! {

/// All that the service is configured with.
#[derive(Debug)]
pub struct Settings {
    pub sqlite: sqlite::Settings,
    pub open_library: open_library::Settings,
    pub google_auth: auth::google::Settings,
}

} // verus!
