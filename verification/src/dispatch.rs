//! The decision at the dispatcher seam: an instruction is tried against a
//! local handler first, then against a fallback, and is reported unknown when
//! neither claims it. The host performs the handlers' work; this module only
//! decides.

use vstd::prelude::*;

verus! {

/// What a handler reports for one instruction.
#[derive(Debug, Clone, PartialEq, Eq)]
pub enum HandleOutcome<E> {
    /// The handler executed the instruction.
    Handled,
    /// The handler does not know the instruction.
    Unhandled,
    /// The handler failed with the given error kind.
    Failed(E),
}

/// Whether the fallback handler must be consulted after the local one.
pub fn needs_fallback<E>(local: &HandleOutcome<E>) -> (r: bool)
    ensures
        r == (*local is Unhandled),
{
    matches!(local, HandleOutcome::Unhandled)
}

/// Combine the local outcome with the fallback's: a local decision stands; an
/// unhandled instruction takes the fallback's outcome; one that both leave
/// unhandled fails with the supplied "unknown instruction" error kind.
pub fn resolve_dispatch<E>(
    local: HandleOutcome<E>,
    fallback: HandleOutcome<E>,
    unknown: E,
) -> (r: HandleOutcome<E>)
    ensures
        !(local is Unhandled) ==> r == local,
        local is Unhandled && !(fallback is Unhandled) ==> r == fallback,
        local is Unhandled && fallback is Unhandled ==> r == HandleOutcome::Failed(unknown),
{
    match local {
        HandleOutcome::Unhandled => match fallback {
            HandleOutcome::Unhandled => HandleOutcome::Failed(unknown),
            other => other,
        },
        decided => decided,
    }
}

} // verus!
