//! Replies of the client-side key-value store.
//!
//! The store itself is reached by the caller. A reply is `None` where the
//! browser offers no store, `Some(Err(_))` where the store refused the
//! operation, and `Some(Ok(_))` where it carried it out.

use vstd::prelude::*;
use vstd::string::StringExecFns;

verus! {

/// Why a value could not be written to the store.
#[derive(Debug)]
pub enum StorageError {
    /// The browser offers no store.
    Unavailable,
    /// The store refused the write; the text is the store's own.
    Rejected(String),
}

impl StorageError {
    /// The text that describes the error.
    pub open spec fn spec_message(&self) -> Seq<char> {
        match self {
            StorageError::Unavailable => "Local storage not available"@,
            StorageError::Rejected(reason) => reason@,
        }
    }

    /// The text that describes the error.
    pub fn message(&self) -> (text: String)
        ensures
            text@ == self.spec_message(),
    {
        match self {
            StorageError::Unavailable => String::from_str("Local storage not available"),
            StorageError::Rejected(reason) => reason.clone(),
        }
    }
}

/// The item that a read of the store gave: the stored value where the store
/// was there, the read went through and the key was kept, and nothing in
/// every other case. That nothing was stored is no error.
pub fn get_local_storage_item<E>(reply: Option<Result<Option<String>, E>>) -> (item: Option<String>)
    ensures
        item == match reply {
            Some(Ok(Some(value))) => Some(value),
            _ => None,
        },
{
    match reply {
        Some(Ok(Some(value))) => Some(value),
        _ => None,
    }
}

/// The outcome of a write to the store: success where the store carried it
/// out, `Unavailable` where there was no store, `Rejected` with the store's
/// reason where it refused.
pub fn set_local_storage_item(reply: Option<Result<(), String>>) -> (outcome: Result<
    (),
    StorageError,
>)
    ensures
        outcome == match reply {
            Some(Ok(())) => Ok::<(), StorageError>(()),
            Some(Err(reason)) => Err(StorageError::Rejected(reason)),
            None => Err(StorageError::Unavailable),
        },
{
    match reply {
        Some(Ok(())) => Ok(()),
        Some(Err(reason)) => Err(StorageError::Rejected(reason)),
        None => Err(StorageError::Unavailable),
    }
}

} // verus!
