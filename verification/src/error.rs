//! The ways in which a synchronisation run fails.

use vstd::prelude::*;
use vstd::string::*;
use crate::text::{decimal_text, push_decimal};

verus! {

/// A fatal failure of the run. A transport failure is not among them: the
/// fetch client absorbs it until its attempts are spent. Nor is a missing
/// resource, which is answered by an empty payload.
#[derive(Debug, Clone, Copy, PartialEq, Eq, Structural)]
pub enum SyncError {
    /// A response or one of its fields could not be decoded.
    DecodeError,
    /// Every attempt to fetch a resource of this slot met a transport
    /// failure; `attempts` is the number that was allowed.
    RetryExhausted { slot: usize, attempts: usize },
    /// The head query returned no header.
    HeadNotFound,
    /// The root reported for this slot is not a 32-byte identifier.
    RootParseError(usize),
    /// The sink could not commit a window.
    SinkCommitError,
}

/// What is shown to the user for a failure: its kind, and the slot where
/// it has one. For spent retries that is the number of attempts allowed and
/// the slot.
pub open spec fn error_text(e: SyncError) -> Seq<char> {
    match e {
        SyncError::DecodeError => "decode error: a response could not be decoded"@,
        SyncError::RetryExhausted { slot, attempts } => decimal_text(attempts as nat)
            + " retries failed for slot "@ + decimal_text(slot as nat),
        SyncError::HeadNotFound => "no headers found"@,
        SyncError::RootParseError(slot) => "root parse error: not a block root at slot "@
            + decimal_text(slot as nat),
        SyncError::SinkCommitError => "writing blobs to do failed"@,
    }
}

impl SyncError {
    /// The text shown to the user for this failure.
    pub fn message(&self) -> (text: String)
        ensures
            text@ == error_text(*self),
    {
        match self {
            SyncError::DecodeError => String::from_str(
                "decode error: a response could not be decoded",
            ),
            SyncError::RetryExhausted { slot, attempts } => {
                let mut text = String::new();
                push_decimal(&mut text, *attempts);
                text.append(" retries failed for slot ");
                push_decimal(&mut text, *slot);
                assert(text@ =~= decimal_text(*attempts as nat) + " retries failed for slot "@
                    + decimal_text(*slot as nat));
                text
            },
            SyncError::HeadNotFound => String::from_str("no headers found"),
            SyncError::RootParseError(slot) => {
                let mut text = String::from_str("root parse error: not a block root at slot ");
                push_decimal(&mut text, *slot);
                text
            },
            SyncError::SinkCommitError => String::from_str("writing blobs to do failed"),
        }
    }
}

} // verus!
