//! Outcomes of the import pipeline, import errors, block origins and the
//! notification broadcast on every successful commit. `ImportOutcome` is the
//! single source of truth for whether a candidate changed canonical state.

use crate::block::{Block, BlockView};
use vstd::prelude::*;

verus! {

/// Where a candidate block came from: produced locally or received from the
/// network.
#[derive(Clone, Copy, Debug, PartialEq, Eq, Structural)]
pub enum BlockOrigin {
    Local,
    Network,
}

/// Why the slot-authoring stage rejected a candidate.
#[derive(Clone, Copy, Debug, PartialEq, Eq, Structural)]
pub enum VerificationFault {
    /// The candidate's number is not its parent's number plus one.
    NumberMismatch,
    /// The claimed slot does not strictly increase over the parent's slot.
    SlotNotIncreasing,
    /// A network-sourced candidate claims an author outside the authority
    /// set.
    AuthorNotAuthorized,
}

/// What the pipeline decided about a candidate block.
#[derive(Clone, Copy, Debug, PartialEq, Eq, Structural)]
pub enum ImportOutcome {
    /// The candidate entered the store; `is_new_best` says whether it became
    /// the canonical head.
    Imported { is_new_best: bool },
    /// The candidate's hash is already in the store; nothing changed.
    AlreadyInChain,
    /// The candidate conflicts with an already-finalized ancestor; it is
    /// permanently rejected.
    KnownBad,
    /// The candidate's parent is unknown; retry once the parent arrives.
    MissingParent,
    /// The slot-authoring stage rejected the candidate.
    VerificationFailed { fault: VerificationFault },
}

/// A fault of the service itself, as opposed to a verdict on a block.
#[derive(Clone, Copy, Debug, PartialEq, Eq, Structural)]
pub enum ImportError {
    /// The lifecycle manager has shut the service down; no further imports
    /// are accepted.
    ServiceStopped,
}

/// The notification broadcast on every successful commit: the committed
/// block, its hash, the outcome and whether it became the new best head.
#[derive(Debug)]
pub struct ImportNotification {
    pub block: Block,
    pub hash: u64,
    pub outcome: ImportOutcome,
    pub is_new_best: bool,
}

/// The mathematical content of a notification.
pub ghost struct NotificationView {
    pub block: BlockView,
    pub hash: u64,
    pub outcome: ImportOutcome,
    pub is_new_best: bool,
}

impl View for ImportNotification {
    type V = NotificationView;

    open spec fn view(&self) -> NotificationView {
        NotificationView {
            block: self.block@,
            hash: self.hash,
            outcome: self.outcome,
            is_new_best: self.is_new_best,
        }
    }
}

impl Clone for ImportNotification {
    /// Cloning a notification keeps its content exactly.
    fn clone(&self) -> (r: Self)
        ensures
            r@ == self@,
    {
        ImportNotification {
            block: self.block.clone(),
            hash: self.hash,
            outcome: self.outcome,
            is_new_best: self.is_new_best,
        }
    }
}

} // verus!
