use vstd::prelude::*;

verus! {

/// Where the service keeps its data and where it listens.
pub struct Config {
    /// The connection URL of the database.
    pub database_url: String,
    /// The port to listen on.
    pub port: u16,
}

} // verus!
