use vstd::prelude::*;

verus! {

/// Every failure a command of the manager can end with.
#[derive(Debug, Clone)]
pub enum FaError {
    /// The encryption provider knows no key for this fingerprint.
    InvalidFingerprint { fingerprint: String },
    /// No configuration file exists yet: the manager must be initialised.
    NoConfiguration { path: String },
    /// The store file that a command needs does not exist.
    NoStore { path: String },
    /// A store was to be created where one already exists.
    AlreadyPresent { path: String },
    /// The provider failed to encrypt.
    GPGEncryptionError,
    /// The provider failed to decrypt.
    GPGDecryptionError,
    /// A file-system operation failed.
    IOError { message: String },
    /// An environment variable could not be read.
    EnvironmentVariableError { variable: String, message: String },
    /// A value was expected but none was present.
    UnexpectedNone,
    /// Bytes did not form valid UTF-8.
    ByteVectorToString { message: String },
    /// The configuration could not be written out.
    SerializeConfiguration { message: String },
    /// The configuration file could not be read back.
    DeserializeConfiguration { message: String },
    /// A store's payload could not be written out or read back.
    StoreDeOrSerialization { message: String },
    /// An interactive prompt failed.
    PromptError { message: String },
    /// A credential with the same user and password is already stored.
    DuplicateCredential,
    /// A search filter is not of the form `tag/<value>` or `site/<value>`.
    UnexpectedFilterSyntax,
}

} // verus!
