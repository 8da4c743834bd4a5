//! A local credential manager: named stores of username/password records,
//! kept encrypted at rest by an external provider.
//!
//! The library holds the logic of the manager: the data model, the rules
//! for adding, removing, searching, importing and exporting credentials,
//! how a command resolves the store it works on, and the decisions taken
//! around the encryption provider. Reading and writing files, running the
//! provider and talking to the terminal are left to the program around it.

pub mod text;
pub mod error;
pub mod credential;
pub mod filter;
pub mod search;
pub mod store;
pub mod transfer;
pub mod config;
pub mod cli;
pub mod gpg;
pub mod fa;
