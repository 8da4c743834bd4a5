use vstd::prelude::*;
use crate::error::FaError;

verus! {

/// The decisions taken around the encryption provider, a separate process
/// that encrypts and decrypts for an identity.
pub struct Gpg;

impl Gpg {
    /// Whether an identity is worth asking the provider about: one shorter
    /// than two characters is refused without asking.
    pub fn fingerprint_worth_checking(fingerprint: &String) -> (r: bool)
        ensures
            r == (fingerprint@.len() >= 2),
    {
        fingerprint.as_str().unicode_len() >= 2
    }

    /// Whether decrypting `ciphertext` needs the provider: an empty file, a
    /// store never written, decrypts to an empty payload without it.
    pub fn decryption_needs_provider(ciphertext: &Vec<u8>) -> (r: bool)
        ensures
            r == (ciphertext@.len() > 0),
    {
        ciphertext.len() > 0
    }

    /// What a run of the provider that was to decrypt gives: its output
    /// where it exited with status zero, a decryption failure on any other
    /// status, and [`FaError::UnexpectedNone`] where it reported none.
    pub fn decryption_outcome(status_code: Option<i32>, output: Vec<u8>) -> (r: Result<Vec<u8>, FaError>)
        ensures
            match status_code {
                Some(0) => r matches Ok(o) && o@ == output@,
                Some(_) => r matches Err(FaError::GPGDecryptionError),
                None => r matches Err(FaError::UnexpectedNone),
            },
    {
        match status_code {
            None => Err(FaError::UnexpectedNone),
            Some(code) => {
                if code != 0 {
                    Err(FaError::GPGDecryptionError)
                } else {
                    Ok(output)
                }
            },
        }
    }

    /// What a run of the provider that was to encrypt gives: its output
    /// where it exited with status zero, an encryption failure on any other
    /// status, and [`FaError::UnexpectedNone`] where it reported none.
    pub fn encryption_outcome(status_code: Option<i32>, output: Vec<u8>) -> (r: Result<Vec<u8>, FaError>)
        ensures
            match status_code {
                Some(0) => r matches Ok(o) && o@ == output@,
                Some(_) => r matches Err(FaError::GPGEncryptionError),
                None => r matches Err(FaError::UnexpectedNone),
            },
    {
        match status_code {
            None => Err(FaError::UnexpectedNone),
            Some(code) => {
                if code != 0 {
                    Err(FaError::GPGEncryptionError)
                } else {
                    Ok(output)
                }
            },
        }
    }
}

} // verus!
