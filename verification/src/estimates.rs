//! Resource estimation: the error budget, and the failures of an estimate.

use vstd::prelude::*;

pub mod layout;

verus! {

/// The error budget of an estimate, split over its three sources of failure.
///
/// Each field is the IEEE 754 binary64 bit pattern of a probability; the
/// library carries the budget to the overhead model and never computes on it.
#[derive(Clone, Copy, Debug, PartialEq, Eq, Structural)]
pub struct ErrorBudget {
    /// Probability of at least one logical error.
    pub logical: u64,
    /// Probability of at least one faulty magic state distillation.
    pub magic_states: u64,
    /// Probability of at least one failed rotation synthesis.
    pub rotations: u64,
}

/// How an overhead model may redistribute an error budget.
#[derive(Clone, Copy, Debug, PartialEq, Eq, Structural)]
pub enum ErrorBudgetStrategy {
    /// The budget is used as given.
    Static,
    /// Budget that the logical and rotation parts do not need may be moved.
    PruneLogicalAndRotations,
}

/// Why the logical overhead of an algorithm could not be realized. Each
/// variant carries the message of the overhead model that failed.
#[derive(Debug, PartialEq, Eq)]
pub enum Error {
    /// The number of logical qubits could not be computed.
    AlgorithmicLogicalQubitsComputationFailed(String),
    /// The logical depth could not be computed.
    AlgorithmicLogicalDepthComputationFailed(String),
    /// The number of magic states of some type could not be computed.
    NumberOfMagicStatesComputationFailed(String),
}

/// The mathematical content of an [`Error`].
pub enum ErrorView {
    AlgorithmicLogicalQubitsComputationFailed(Seq<char>),
    AlgorithmicLogicalDepthComputationFailed(Seq<char>),
    NumberOfMagicStatesComputationFailed(Seq<char>),
}

impl View for Error {
    type V = ErrorView;

    open spec fn view(&self) -> ErrorView {
        match self {
            Error::AlgorithmicLogicalQubitsComputationFailed(m) =>
                ErrorView::AlgorithmicLogicalQubitsComputationFailed(m@),
            Error::AlgorithmicLogicalDepthComputationFailed(m) =>
                ErrorView::AlgorithmicLogicalDepthComputationFailed(m@),
            Error::NumberOfMagicStatesComputationFailed(m) =>
                ErrorView::NumberOfMagicStatesComputationFailed(m@),
        }
    }
}

} // verus!
