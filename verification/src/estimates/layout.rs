//! Logical overhead of an algorithm after layout.

use vstd::prelude::*;
use crate::estimates::{Error, ErrorBudget, ErrorBudgetStrategy, ErrorView};

verus! {

/// What a query of an overhead model yields: a count, or the model's message.
pub type Outcome = Result<u64, Seq<char>>;

/// The mathematical content of a query's result.
pub open spec fn outcome_of(r: Result<u64, String>) -> Outcome {
    match r {
        Ok(n) => Ok(n),
        Err(m) => Err(m@),
    }
}

/// Trait to model post-layout logical overhead.
///
/// A model answers each query as a function of itself and of the query's
/// arguments. The `spec` functions name those answers, and each query is
/// bound to return the answer so named. For the models of this crate that is
/// proved. A model that is written without proof only has to supply the
/// queries: the names keep their defaults, and what is proved through this
/// trait then holds of that model as far as its queries are in fact
/// functions of their arguments.
pub trait Overhead {
    /// What [`Overhead::logical_qubits`] yields. A model defines it; left at
    /// the default, nothing is known of it.
    open spec fn logical_qubits_outcome(&self) -> Outcome {
        arbitrary()
    }

    /// What [`Overhead::logical_depth`] yields for `budget`. A model defines
    /// it; left at the default, nothing is known of it.
    open spec fn logical_depth_outcome(&self, budget: &ErrorBudget) -> Outcome {
        arbitrary()
    }

    /// Whether `index` names a type of magic state that this model can be
    /// asked about. By default every index does.
    open spec fn has_magic_state_type(&self, index: usize) -> bool {
        true
    }

    /// What [`Overhead::num_magic_states`] yields for `budget` and `index`.
    /// A model defines it; left at the default, nothing is known of it.
    open spec fn num_magic_states_outcome(&self, budget: &ErrorBudget, index: usize) -> Outcome {
        arbitrary()
    }

    /// The number of logical qubits to execute the algorithm after mapping.
    ///
    /// This number does not include qubits used to produce magic states.
    fn logical_qubits(&self) -> (r: Result<u64, String>)
        ensures
            outcome_of(r) == self.logical_qubits_outcome(),
    ;

    /// The number of logical unit cycles to execute the algorithm.
    ///
    /// This number is a lower bound for the execution time of the algorithm,
    /// and might be extended by assuming no-ops.
    fn logical_depth(&self, budget: &ErrorBudget) -> (r: Result<u64, String>)
        ensures
            outcome_of(r) == self.logical_depth_outcome(budget),
    ;

    /// The number of magic states.
    ///
    /// The index indicates the type of magic states and must be one that the
    /// model knows.
    fn num_magic_states(&self, budget: &ErrorBudget, index: usize) -> (r: Result<u64, String>)
        requires
            self.has_magic_state_type(index),
        ensures
            outcome_of(r) == self.num_magic_states_outcome(budget, index),
    ;

    /// When implemented, prunes the error budget with respect to the provided
    /// strategy. By default the budget is left as it is; since a model may
    /// prune as it sees fit, nothing is promised of the budget afterwards.
    #[allow(unused_variables)]
    fn prune_error_budget(&self, budget: &mut ErrorBudget, strategy: ErrorBudgetStrategy) {
    }
}

/// The magic state counts of the types `0..n`, in order, or the message of
/// the first type whose count could not be computed.
pub open spec fn magic_state_counts<O: Overhead>(
    overhead: &O,
    budget: &ErrorBudget,
    n: nat,
) -> Result<Seq<u64>, Seq<char>>
    decreases n,
{
    if n == 0 {
        Ok(Seq::empty())
    } else {
        match magic_state_counts(overhead, budget, (n - 1) as nat) {
            Err(m) => Err(m),
            Ok(counts) => match overhead.num_magic_states_outcome(budget, (n - 1) as usize) {
                Err(m) => Err(m),
                Ok(count) => Ok(counts.push(count)),
            },
        }
    }
}

/// The mathematical content of a [`RealizedOverhead`].
pub struct RealizedOverheadView {
    pub logical_qubits: u64,
    pub logical_depth: u64,
    pub num_magic_states: Seq<u64>,
}

/// The overhead that `overhead` realizes under `budget` for `n` types of
/// magic states. The queries are made in the order qubits, depth, magic
/// states by rising index, and the first failure decides the error.
pub open spec fn realize<O: Overhead>(overhead: &O, budget: &ErrorBudget, n: nat) -> Result<
    RealizedOverheadView,
    ErrorView,
> {
    match overhead.logical_qubits_outcome() {
        Err(m) => Err(ErrorView::AlgorithmicLogicalQubitsComputationFailed(m)),
        Ok(logical_qubits) => match overhead.logical_depth_outcome(budget) {
            Err(m) => Err(ErrorView::AlgorithmicLogicalDepthComputationFailed(m)),
            Ok(logical_depth) => match magic_state_counts(overhead, budget, n) {
                Err(m) => Err(ErrorView::NumberOfMagicStatesComputationFailed(m)),
                Ok(num_magic_states) => Ok(
                    RealizedOverheadView { logical_qubits, logical_depth, num_magic_states },
                ),
            },
        },
    }
}

/// The mathematical content of the result of [`RealizedOverhead::from_overhead`].
pub open spec fn realized_view(r: Result<RealizedOverhead, Error>) -> Result<
    RealizedOverheadView,
    ErrorView,
> {
    match r {
        Ok(realized) => Ok(realized@),
        Err(e) => Err(e@),
    }
}

/// This is the realized logical overhead after applying an error budget. This
/// structure has two purposes: 1) it stores the realized logical overhead once
/// the error budget partition is decided; 2) it can be used to pass a logical
/// overhead that does not depend on the error budget, since it also
/// implements the [`Overhead`] trait.
#[derive(Debug, PartialEq, Eq)]
pub struct RealizedOverhead {
    logical_qubits: u64,
    logical_depth: u64,
    num_magic_states: Vec<u64>,
}

impl View for RealizedOverhead {
    type V = RealizedOverheadView;

    closed spec fn view(&self) -> RealizedOverheadView {
        RealizedOverheadView {
            logical_qubits: self.logical_qubits,
            logical_depth: self.logical_depth,
            num_magic_states: self.num_magic_states@,
        }
    }
}

impl RealizedOverhead {
    /// Queries `overhead` once for each quantity and stores the answers.
    ///
    /// The result is `Ok` exactly when every query succeeds; otherwise it is
    /// the error of the first query that failed, with that query's message.
    pub fn from_overhead(
        overhead: &impl Overhead,
        budget: &ErrorBudget,
        num_magic_state_types: usize,
    ) -> (r: Result<Self, Error>)
        requires
            forall|index: usize|
                index < num_magic_state_types ==> overhead.has_magic_state_type(index),
        ensures
            realized_view(r) == realize(overhead, budget, num_magic_state_types as nat),
    {
        let logical_qubits = match overhead.logical_qubits() {
            Ok(n) => n,
            Err(m) => {
                return Err(Error::AlgorithmicLogicalQubitsComputationFailed(m));
            },
        };
        let logical_depth = match overhead.logical_depth(budget) {
            Ok(n) => n,
            Err(m) => {
                return Err(Error::AlgorithmicLogicalDepthComputationFailed(m));
            },
        };
        let mut num_magic_states: Vec<u64> = Vec::new();
        let mut index: usize = 0;
        while index < num_magic_state_types
            invariant
                index <= num_magic_state_types,
                overhead.logical_qubits_outcome() is Ok,
                overhead.logical_depth_outcome(budget) is Ok,
                forall|i: usize| i < num_magic_state_types ==> overhead.has_magic_state_type(i),
                magic_state_counts(overhead, budget, index as nat) == Ok::<
                    Seq<u64>,
                    Seq<char>,
                >(num_magic_states@),
            decreases num_magic_state_types - index,
        {
            match overhead.num_magic_states(budget, index) {
                Ok(count) => {
                    num_magic_states.push(count);
                },
                Err(m) => {
                    proof {
                        assert(overhead.num_magic_states_outcome(budget, index) == Err::<
                            u64,
                            Seq<char>,
                        >(m@));
                        assert(index as nat as usize == index);
                        lemma_first_failure_stays(
                            overhead,
                            budget,
                            index as nat,
                            num_magic_state_types as nat,
                        );
                    }
                    return Err(Error::NumberOfMagicStatesComputationFailed(m));
                },
            }
            index += 1;
        }
        Ok(Self { logical_qubits, logical_depth, num_magic_states })
    }

    /// The number of logical qubits that was realized.
    #[must_use]
    pub fn logical_qubits(&self) -> (r: u64)
        ensures
            r == self@.logical_qubits,
    {
        self.logical_qubits
    }

    /// The logical depth that was realized.
    #[must_use]
    pub fn logical_depth(&self) -> (r: u64)
        ensures
            r == self@.logical_depth,
    {
        self.logical_depth
    }

    /// The number of magic states of each type, by the type's index.
    #[must_use]
    pub fn num_magic_states(&self) -> (r: &[u64])
        ensures
            r@ == self@.num_magic_states,
    {
        self.num_magic_states.as_slice()
    }
}

impl Overhead for RealizedOverhead {
    open spec fn logical_qubits_outcome(&self) -> Outcome {
        Ok(self@.logical_qubits)
    }

    open spec fn logical_depth_outcome(&self, budget: &ErrorBudget) -> Outcome {
        Ok(self@.logical_depth)
    }

    open spec fn has_magic_state_type(&self, index: usize) -> bool {
        index < self@.num_magic_states.len()
    }

    open spec fn num_magic_states_outcome(&self, budget: &ErrorBudget, index: usize) -> Outcome {
        Ok(self@.num_magic_states[index as int])
    }

    fn logical_qubits(&self) -> (r: Result<u64, String>) {
        Ok(self.logical_qubits)
    }

    fn logical_depth(&self, _budget: &ErrorBudget) -> (r: Result<u64, String>) {
        Ok(self.logical_depth)
    }

    fn num_magic_states(&self, _budget: &ErrorBudget, index: usize) -> (r: Result<u64, String>) {
        Ok(self.num_magic_states[index])
    }

    /// A realized overhead has nothing left to prune: the budget stays as it is.
    fn prune_error_budget(&self, budget: &mut ErrorBudget, _strategy: ErrorBudgetStrategy)
        ensures
            *final(budget) == *old(budget),
    {
    }
}

/// Once the count of type `k` fails after the types before it succeeded, the
/// counts of any longer run of types fail with the same message.
proof fn lemma_first_failure_stays<O: Overhead>(overhead: &O, budget: &ErrorBudget, k: nat, n: nat)
    requires
        k < n,
        k <= usize::MAX,
        magic_state_counts(overhead, budget, k) is Ok,
        overhead.num_magic_states_outcome(budget, k as usize) is Err,
    ensures
        magic_state_counts(overhead, budget, n) == Err::<Seq<u64>, Seq<char>>(
            overhead.num_magic_states_outcome(budget, k as usize)->Err_0,
        ),
    decreases n,
{
    if n > k + 1 {
        lemma_first_failure_stays(overhead, budget, k, (n - 1) as nat);
    }
}

/// A realized overhead that is queried for as many types of magic states as
/// it stores realizes itself, whatever the budget.
pub proof fn lemma_realized_overhead_realizes_itself(
    overhead: &RealizedOverhead,
    budget: &ErrorBudget,
)
    requires
        overhead@.num_magic_states.len() <= usize::MAX,
    ensures
        realize(overhead, budget, overhead@.num_magic_states.len()) == Ok::<
            RealizedOverheadView,
            ErrorView,
        >(overhead@),
{
    let n = overhead@.num_magic_states.len();
    lemma_counts_of_realized(overhead, budget, n);
    assert(overhead@.num_magic_states.subrange(0, n as int) =~= overhead@.num_magic_states);
}

/// The first `n` counts that a realized overhead reports are the first `n`
/// counts that it stores.
proof fn lemma_counts_of_realized(overhead: &RealizedOverhead, budget: &ErrorBudget, n: nat)
    requires
        n <= overhead@.num_magic_states.len() <= usize::MAX,
    ensures
        magic_state_counts(overhead, budget, n) == Ok::<Seq<u64>, Seq<char>>(
            overhead@.num_magic_states.subrange(0, n as int),
        ),
    decreases n,
{
    if n == 0 {
        assert(overhead@.num_magic_states.subrange(0, 0) =~= Seq::<u64>::empty());
    } else {
        lemma_counts_of_realized(overhead, budget, (n - 1) as nat);
        assert(overhead@.num_magic_states.subrange(0, n as int) =~= overhead@.num_magic_states.subrange(
            0,
            n - 1,
        ).push(overhead@.num_magic_states[n - 1]));
    }
}

} // verus!
