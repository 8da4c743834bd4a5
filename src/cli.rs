use vstd::prelude::*;

verus! {

/// A parsed command line.
#[derive(Debug, Clone)]
pub struct FaCli {
    pub command: Option<FaCommands>,
}

/// The commands of the manager, with their arguments.
#[derive(Debug, Clone)]
pub enum FaCommands {
    /// Commands on the configuration.
    Config(FaCommandConfig),
    /// Commands on whole stores.
    Store(FaCommandStore),
    /// List the credentials of a store.
    List { store: Option<String> },
    /// Add a credential.
    Add {
        user: String,
        password: String,
        store: Option<String>,
        tag: Option<String>,
        site: Option<String>,
    },
    /// Remove a credential.
    Remove { user: String, password: String, store: Option<String> },
    /// Search a store, optionally under a `tag/<value>` or `site/<value>` filter.
    Search { query: String, store: Option<String>, filter: Option<String> },
    /// Create the configuration.
    Init { key_fingerprint: Option<String>, store: Option<String>, store_path: Option<String> },
    /// Import credentials from a CSV file.
    Import { store: Option<String>, csv_path: Option<String> },
    /// Export credentials to a CSV file.
    Export { store: Option<String>, csv_path: Option<String> },
}

/// Commands on the configuration.
#[derive(Debug, Clone)]
pub enum FaCommandConfig {
    /// Show the configuration in use.
    View,
}

/// Commands on whole stores.
#[derive(Debug, Clone)]
pub enum FaCommandStore {
    /// List the stores.
    List,
    /// Remove a store.
    Remove { store: String },
    /// Create a new, empty store.
    Add { store: String },
    /// Make a store the default one.
    Default { store: String },
}

} // verus!
