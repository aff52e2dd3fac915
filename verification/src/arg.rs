//! The command line.
use vstd::prelude::*;

verus! {

/// The command line of the gateway.
#[derive(Debug, Clone)]
pub struct Args {
    /// The path of the configuration.
    pub config: Option<String>,
    /// The path of the credentials.
    pub credentials: Option<String>,
    /// A command to run in place of the gateway.
    pub command: Option<Command>,
}

/// A command to run in place of the gateway.
#[derive(Debug, Clone)]
pub enum Command {
    /// Import credentials from the login database of the Kiro CLI or the Amazon Q CLI.
    ImportKiroCli {
        /// The database; the usual ones are looked for where none is named.
        db: Option<String>,
        /// The list is to hold the imported credentials alone.
        replace: bool,
        /// The priority of the imported credentials.
        priority: Option<u32>,
        /// The region of the imported credentials.
        region: Option<String>,
        /// The region in which the imported credentials sign in.
        auth_region: Option<String>,
        /// The region in which the imported credentials are used.
        api_region: Option<String>,
    },
}

} // verus!
