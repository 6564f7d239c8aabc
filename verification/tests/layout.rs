use qsc_toolchain::estimates::layout::{Overhead, RealizedOverhead};
use qsc_toolchain::estimates::{Error, ErrorBudget, ErrorBudgetStrategy};

/// An overhead model with fixed answers, any of which may be a failure.
struct Fixed {
    qubits: Result<u64, String>,
    depth: Result<u64, String>,
    magic: Vec<Result<u64, String>>,
}

impl Overhead for Fixed {
    fn logical_qubits(&self) -> Result<u64, String> {
        self.qubits.clone()
    }

    fn logical_depth(&self, _budget: &ErrorBudget) -> Result<u64, String> {
        self.depth.clone()
    }

    fn num_magic_states(&self, _budget: &ErrorBudget, index: usize) -> Result<u64, String> {
        self.magic[index].clone()
    }
}

/// A model whose depth is the logical part of the budget, and which halves
/// the rotation part when asked to prune.
struct BudgetSensitive;

impl Overhead for BudgetSensitive {
    fn logical_qubits(&self) -> Result<u64, String> {
        Ok(1)
    }

    fn logical_depth(&self, budget: &ErrorBudget) -> Result<u64, String> {
        Ok(budget.logical)
    }

    fn num_magic_states(&self, budget: &ErrorBudget, index: usize) -> Result<u64, String> {
        Ok(budget.magic_states + index as u64)
    }

    fn prune_error_budget(&self, budget: &mut ErrorBudget, strategy: ErrorBudgetStrategy) {
        if strategy == ErrorBudgetStrategy::PruneLogicalAndRotations {
            budget.rotations /= 2;
        }
    }
}

fn budget() -> ErrorBudget {
    ErrorBudget { logical: 7, magic_states: 100, rotations: 40 }
}

#[test]
fn from_overhead_stores_every_answer() {
    let model = Fixed { qubits: Ok(12), depth: Ok(340), magic: vec![Ok(5), Ok(0), Ok(9)] };
    let realized = RealizedOverhead::from_overhead(&model, &budget(), 3).unwrap();
    assert_eq!(realized.logical_qubits(), 12);
    assert_eq!(realized.logical_depth(), 340);
    assert_eq!(realized.num_magic_states(), &[5, 0, 9]);
}

#[test]
fn from_overhead_asks_only_for_the_requested_types() {
    let model = Fixed { qubits: Ok(12), depth: Ok(340), magic: vec![Ok(5), Err("late".to_string())] };
    let realized = RealizedOverhead::from_overhead(&model, &budget(), 1).unwrap();
    assert_eq!(realized.num_magic_states(), &[5]);
}

#[test]
fn from_overhead_without_magic_states() {
    let model = Fixed { qubits: Ok(1), depth: Ok(2), magic: vec![] };
    let realized = RealizedOverhead::from_overhead(&model, &budget(), 0).unwrap();
    assert_eq!(realized.logical_qubits(), 1);
    assert_eq!(realized.logical_depth(), 2);
    assert!(realized.num_magic_states().is_empty());
}

#[test]
fn from_overhead_reports_failed_qubits_first() {
    let model = Fixed {
        qubits: Err("no qubits".to_string()),
        depth: Err("no depth".to_string()),
        magic: vec![Err("no magic".to_string())],
    };
    assert_eq!(
        RealizedOverhead::from_overhead(&model, &budget(), 1),
        Err(Error::AlgorithmicLogicalQubitsComputationFailed("no qubits".to_string()))
    );
}

#[test]
fn from_overhead_reports_failed_depth_before_magic_states() {
    let model = Fixed {
        qubits: Ok(3),
        depth: Err("no depth".to_string()),
        magic: vec![Err("no magic".to_string())],
    };
    assert_eq!(
        RealizedOverhead::from_overhead(&model, &budget(), 1),
        Err(Error::AlgorithmicLogicalDepthComputationFailed("no depth".to_string()))
    );
}

#[test]
fn from_overhead_reports_the_first_failed_magic_state_type() {
    let model = Fixed {
        qubits: Ok(3),
        depth: Ok(4),
        magic: vec![Ok(1), Err("second".to_string()), Err("third".to_string())],
    };
    assert_eq!(
        RealizedOverhead::from_overhead(&model, &budget(), 3),
        Err(Error::NumberOfMagicStatesComputationFailed("second".to_string()))
    );
}

#[test]
fn from_overhead_hands_the_budget_to_the_model() {
    let realized = RealizedOverhead::from_overhead(&BudgetSensitive, &budget(), 2).unwrap();
    assert_eq!(realized.logical_depth(), 7);
    assert_eq!(realized.num_magic_states(), &[100, 101]);
}

#[test]
fn realized_overhead_answers_as_an_overhead() {
    let model = Fixed { qubits: Ok(12), depth: Ok(340), magic: vec![Ok(5), Ok(8)] };
    let realized = RealizedOverhead::from_overhead(&model, &budget(), 2).unwrap();
    assert_eq!(Overhead::logical_qubits(&realized), Ok(12));
    assert_eq!(Overhead::logical_depth(&realized, &budget()), Ok(340));
    assert_eq!(Overhead::num_magic_states(&realized, &budget(), 0), Ok(5));
    assert_eq!(Overhead::num_magic_states(&realized, &budget(), 1), Ok(8));
}

#[test]
fn realized_overhead_realizes_itself() {
    let model = Fixed { qubits: Ok(12), depth: Ok(340), magic: vec![Ok(5), Ok(8)] };
    let first = RealizedOverhead::from_overhead(&model, &budget(), 2).unwrap();
    let other = ErrorBudget { logical: 0, magic_states: 0, rotations: 0 };
    let second = RealizedOverhead::from_overhead(&first, &other, 2).unwrap();
    assert_eq!(first, second);
}

#[test]
fn prune_error_budget_leaves_the_budget_by_default() {
    let model = Fixed { qubits: Ok(1), depth: Ok(1), magic: vec![] };
    let mut b = budget();
    model.prune_error_budget(&mut b, ErrorBudgetStrategy::PruneLogicalAndRotations);
    assert_eq!(b, budget());
    let realized = RealizedOverhead::from_overhead(&model, &b, 0).unwrap();
    realized.prune_error_budget(&mut b, ErrorBudgetStrategy::Static);
    assert_eq!(b, budget());
}

#[test]
fn prune_error_budget_can_be_overridden() {
    let mut b = budget();
    BudgetSensitive.prune_error_budget(&mut b, ErrorBudgetStrategy::Static);
    assert_eq!(b, budget());
    BudgetSensitive.prune_error_budget(&mut b, ErrorBudgetStrategy::PruneLogicalAndRotations);
    assert_eq!(b, ErrorBudget { logical: 7, magic_states: 100, rotations: 20 });
}
