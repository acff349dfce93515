use vstd::prelude::*;

verus! {

/// Failure taxonomy of the engine.
///
/// - `ConfigInvalid`: an unrecognized device or prompt-template token was
///   rejected before any state change.
/// - `StoreUnavailable`: the backing store cannot take another record
///   (for the in-memory model: the message-id space is exhausted).
/// - `MalformedCard`: a character-card import was missing required fields;
///   the companion is left unchanged.
/// - `GenerationFailed`: the inference backend failed or produced an empty
///   stream; no companion turn is committed.
/// - `NotFound`: a message-id lookup missed.
#[derive(Clone, Copy, Debug, PartialEq, Eq, Structural)]
pub enum Error {
    ConfigInvalid,
    StoreUnavailable,
    MalformedCard,
    GenerationFailed,
    NotFound,
}

} // verus!
