//! The pipeline's error kinds and where each one is recovered.

use vstd::prelude::*;

verus! {

/// Everything that can go wrong in the pipeline.
///
/// None of these is fatal: a snapshot failure resets the session at the
/// poller boundary, an enrichment failure only skips that cycle's item
/// information, and a delivery failure only tears down the one subscriber.
#[derive(Clone, Copy, Debug, PartialEq, Eq, Structural)]
pub enum PlayerPurchasesError {
    /// The snapshot source could not be reached.
    SourceUnavailable,
    /// The snapshot source answered, but the response did not parse.
    MalformedSnapshot,
    /// The item catalog backing metadata enrichment is not loaded.
    MetadataUnavailable,
    /// An item identifier is absent from the loaded catalog.
    UnknownItem,
    /// Delivery to one subscriber connection failed.
    SubscriberWriteFailure,
}

/// The diagnostic label of each error kind.
pub open spec fn describe_spec(e: PlayerPurchasesError) -> Seq<char> {
    match e {
        PlayerPurchasesError::SourceUnavailable => "snapshot source unavailable"@,
        PlayerPurchasesError::MalformedSnapshot => "malformed snapshot"@,
        PlayerPurchasesError::MetadataUnavailable => "item catalog unavailable"@,
        PlayerPurchasesError::UnknownItem => "unknown item identifier"@,
        PlayerPurchasesError::SubscriberWriteFailure => "subscriber write failed"@,
    }
}

impl PlayerPurchasesError {
    /// A short diagnostic label for logs and subscriber teardown messages.
    pub fn describe(&self) -> (r: &'static str)
        ensures
            r@ == describe_spec(*self),
    {
        match self {
            PlayerPurchasesError::SourceUnavailable => "snapshot source unavailable",
            PlayerPurchasesError::MalformedSnapshot => "malformed snapshot",
            PlayerPurchasesError::MetadataUnavailable => "item catalog unavailable",
            PlayerPurchasesError::UnknownItem => "unknown item identifier",
            PlayerPurchasesError::SubscriberWriteFailure => "subscriber write failed",
        }
    }
}

} // verus!
