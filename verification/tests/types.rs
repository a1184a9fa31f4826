use vero_core_contracts::types::{ContractError, Operation, Task};

#[test]
fn test_contract_error_codes() {
    assert_eq!(ContractError::NotAuthorized.code(), 1);
    assert_eq!(ContractError::WeightOverflow.code(), 10);
    assert_eq!(ContractError::InsufficientReputation.code(), 29);
    assert_eq!(ContractError::NotUpgradeSigner.code(), 30);
    assert_eq!(ContractError::UpgradeThresholdNotMet.code(), 31);
    assert_eq!(ContractError::NoPendingUpgrade.code(), 32);
    assert_eq!(ContractError::AlreadyApproved.code(), 33);
    assert_eq!(ContractError::InvalidUpgradeConfig.code(), 34);
}

#[test]
fn test_contract_error_round_trip() {
    for c in 1u32..=34 {
        let e = ContractError::from_code(c).expect("every code in 1..=34 names an error");
        assert_eq!(e.code(), c);
    }
    assert_eq!(ContractError::from_code(0), None);
    assert_eq!(ContractError::from_code(35), None);
    assert_eq!(ContractError::from_code(u32::MAX), None);
    assert_eq!(ContractError::from_code(28), Some(ContractError::TaskNotTerminal));
}

#[test]
fn test_operation_codes() {
    assert_eq!(Operation::RegisterTask.code(), 0);
    assert_eq!(Operation::PurgeTask.code(), 14);
    assert_eq!(Operation::VoteBatch.code(), 15);
    assert_eq!(Operation::SetUpgradeSigners.code(), 16);
    assert_eq!(Operation::ProposeUpgrade.code(), 17);
    assert_eq!(Operation::ApproveUpgrade.code(), 18);
    assert_eq!(Operation::ExecuteUpgrade.code(), 19);
    assert_eq!(Operation::CancelUpgrade.code(), 20);
}

#[test]
fn test_operation_round_trip() {
    for c in 0u32..=20 {
        let op = Operation::from_code(c).expect("every code in 0..=20 names an operation");
        assert_eq!(op.code(), c);
    }
    assert_eq!(Operation::from_code(21), None);
    assert_eq!(Operation::from_code(u32::MAX), None);
    assert_eq!(Operation::from_code(12), Some(Operation::UpgradeContract));
}

#[test]
fn test_task_equality() {
    let t = Task {
        id: 1,
        votes: 2,
        is_done: false,
        resolved_at: 0,
        total_weight_accrued: 30,
        is_cancelled: false,
    };
    let mut u = t;
    assert_eq!(t, u);
    u.is_done = true;
    assert_ne!(t, u);
}
