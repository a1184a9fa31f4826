use vstd::prelude::*;
use soroban_sdk::Address;

verus! {

/// A withdrawal request held in escrow until its timelock elapses.
#[derive(Clone, Debug, PartialEq, Eq)]
pub struct WithdrawalRequest {
    pub id: u64,
    pub recipient: Address,
    pub amount: i128,
    pub requested_at_ledger: u32,
    pub is_executed: bool,
    pub is_cancelled: bool,
}

/// A task that guardians vote on.
#[derive(Clone, Copy, Debug, PartialEq, Eq, Structural)]
pub struct Task {
    pub id: u64,
    pub votes: u32,
    pub is_done: bool,
    pub resolved_at: u64,
    pub total_weight_accrued: u64,
    pub is_cancelled: bool,
}

/// A reward stream opened for a task's contributor.
#[derive(Clone, Debug, PartialEq, Eq)]
pub struct RewardStream {
    pub task_id: u64,
    pub contributor: Address,
    pub drips_contract: Address,
    pub active: bool,
}

/// Every public write operation exposed by the contract; its code is the value
/// that it is stored and passed as.
#[derive(Clone, Copy, Debug, PartialEq, Eq, Structural)]
pub enum Operation {
    /// `register_task`.
    RegisterTask,
    /// `vote`.
    Vote,
    /// `add_guardian`.
    AddGuardian,
    /// `set_reputation`.
    SetReputation,
    /// `lock_tokens`.
    LockTokens,
    /// `unlock_tokens`.
    UnlockTokens,
    /// `resign_guardian`.
    ResignGuardian,
    /// `set_weight_threshold`.
    SetWeightThreshold,
    /// `start_reward_stream`.
    StartRewardStream,
    /// `toggle_pause`.
    TogglePause,
    /// `record_failure`.
    RecordFailure,
    /// `reset_circuit_breaker`.
    ResetCircuitBreaker,
    /// `upgrade_contract`.
    UpgradeContract,
    /// `record_snapshot`.
    RecordSnapshot,
    /// `purge_task`.
    PurgeTask,
    /// `vote_batch` — vote on multiple tasks in one transaction.
    VoteBatch,
    /// `set_upgrade_signers` — configure multi-sig upgrade signers.
    SetUpgradeSigners,
    /// `propose_upgrade` — propose a new upgrade WASM hash.
    ProposeUpgrade,
    /// `approve_upgrade` — approve a pending upgrade.
    ApproveUpgrade,
    /// `execute_upgrade` — execute upgrade once threshold met.
    ExecuteUpgrade,
    /// `cancel_upgrade` — cancel a pending upgrade.
    CancelUpgrade,
}

impl Operation {
    /// The code of this value.
    pub open spec fn spec_code(self) -> u32 {
        match self {
            Operation::RegisterTask => 0,
            Operation::Vote => 1,
            Operation::AddGuardian => 2,
            Operation::SetReputation => 3,
            Operation::LockTokens => 4,
            Operation::UnlockTokens => 5,
            Operation::ResignGuardian => 6,
            Operation::SetWeightThreshold => 7,
            Operation::StartRewardStream => 8,
            Operation::TogglePause => 9,
            Operation::RecordFailure => 10,
            Operation::ResetCircuitBreaker => 11,
            Operation::UpgradeContract => 12,
            Operation::RecordSnapshot => 13,
            Operation::PurgeTask => 14,
            Operation::VoteBatch => 15,
            Operation::SetUpgradeSigners => 16,
            Operation::ProposeUpgrade => 17,
            Operation::ApproveUpgrade => 18,
            Operation::ExecuteUpgrade => 19,
            Operation::CancelUpgrade => 20,
        }
    }

    /// The value whose code is `c`, if there is one.
    pub open spec fn spec_from_code(c: u32) -> Option<Operation> {
        match c {
            0 => Some(Operation::RegisterTask),
            1 => Some(Operation::Vote),
            2 => Some(Operation::AddGuardian),
            3 => Some(Operation::SetReputation),
            4 => Some(Operation::LockTokens),
            5 => Some(Operation::UnlockTokens),
            6 => Some(Operation::ResignGuardian),
            7 => Some(Operation::SetWeightThreshold),
            8 => Some(Operation::StartRewardStream),
            9 => Some(Operation::TogglePause),
            10 => Some(Operation::RecordFailure),
            11 => Some(Operation::ResetCircuitBreaker),
            12 => Some(Operation::UpgradeContract),
            13 => Some(Operation::RecordSnapshot),
            14 => Some(Operation::PurgeTask),
            15 => Some(Operation::VoteBatch),
            16 => Some(Operation::SetUpgradeSigners),
            17 => Some(Operation::ProposeUpgrade),
            18 => Some(Operation::ApproveUpgrade),
            19 => Some(Operation::ExecuteUpgrade),
            20 => Some(Operation::CancelUpgrade),
            _ => None,
        }
    }

    /// The code of this value.
    pub fn code(&self) -> (c: u32)
        ensures
            c == self.spec_code(),
    {
        match self {
            Operation::RegisterTask => 0,
            Operation::Vote => 1,
            Operation::AddGuardian => 2,
            Operation::SetReputation => 3,
            Operation::LockTokens => 4,
            Operation::UnlockTokens => 5,
            Operation::ResignGuardian => 6,
            Operation::SetWeightThreshold => 7,
            Operation::StartRewardStream => 8,
            Operation::TogglePause => 9,
            Operation::RecordFailure => 10,
            Operation::ResetCircuitBreaker => 11,
            Operation::UpgradeContract => 12,
            Operation::RecordSnapshot => 13,
            Operation::PurgeTask => 14,
            Operation::VoteBatch => 15,
            Operation::SetUpgradeSigners => 16,
            Operation::ProposeUpgrade => 17,
            Operation::ApproveUpgrade => 18,
            Operation::ExecuteUpgrade => 19,
            Operation::CancelUpgrade => 20,
        }
    }

    /// The value whose code is `c`: `None` exactly when `c` is outside
    /// 0..=20.
    pub fn from_code(c: u32) -> (r: Option<Operation>)
        ensures
            r == Self::spec_from_code(c),
            r is None <==> !(0 <= c <= 20),
    {
        match c {
            0 => Some(Operation::RegisterTask),
            1 => Some(Operation::Vote),
            2 => Some(Operation::AddGuardian),
            3 => Some(Operation::SetReputation),
            4 => Some(Operation::LockTokens),
            5 => Some(Operation::UnlockTokens),
            6 => Some(Operation::ResignGuardian),
            7 => Some(Operation::SetWeightThreshold),
            8 => Some(Operation::StartRewardStream),
            9 => Some(Operation::TogglePause),
            10 => Some(Operation::RecordFailure),
            11 => Some(Operation::ResetCircuitBreaker),
            12 => Some(Operation::UpgradeContract),
            13 => Some(Operation::RecordSnapshot),
            14 => Some(Operation::PurgeTask),
            15 => Some(Operation::VoteBatch),
            16 => Some(Operation::SetUpgradeSigners),
            17 => Some(Operation::ProposeUpgrade),
            18 => Some(Operation::ApproveUpgrade),
            19 => Some(Operation::ExecuteUpgrade),
            20 => Some(Operation::CancelUpgrade),
            _ => None,
        }
    }
}

/// The errors that the contract returns; its code is the contract error code
/// that the host reports.
#[derive(Clone, Copy, Debug, PartialEq, Eq, Structural)]
pub enum ContractError {
    /// The caller is not authorized for this action.
    NotAuthorized,
    /// The guardian has already voted on the task.
    DuplicateVote,
    /// The task has not been verified.
    TaskNotVerified,
    /// A reward stream is already active for the task.
    StreamAlreadyActive,
    /// The call into the Drips contract failed.
    DripsCallFailed,
    /// The contract has already been initialized.
    AlreadyInitialized,
    /// The contract has not been initialized.
    NotInitialized,
    /// The guardian has no reputation score.
    NoReputationScore,
    /// The vote would carry zero weight.
    ZeroWeightVote,
    /// The accrued weight would overflow.
    WeightOverflow,
    /// The locked balance is too small.
    InsufficientLockedBalance,
    /// The account is still a guardian.
    StillGuardian,
    /// The account is not a guardian.
    NotGuardian,
    /// The tokens are still locked.
    Locked,
    /// The contract is paused.
    ContractPaused,
    /// The escrow is unavailable.
    EscrowUnavailable,
    /// The task has been cancelled.
    TaskCancelled,
    /// An address argument is invalid.
    InvalidAddress,
    /// An amount argument is invalid.
    InvalidAmount,
    /// A configuration value is invalid.
    InvalidConfig,
    /// A range argument is invalid.
    InvalidRange,
    /// The batch holds too many calls.
    BatchTooLarge,
    /// No task has this id.
    TaskNotFound,
    /// The task has already been archived.
    TaskAlreadyArchived,
    /// The task is not stale yet.
    TaskNotStale,
    /// No snapshot was recorded at this time.
    SnapshotNotFound,
    /// The withdrawal timelock has not elapsed.
    WithdrawalTimelockActive,
    /// Task is still active (not done and not cancelled) and cannot be purged.
    TaskNotTerminal,
    /// Guardian's reputation score is below the minimum threshold to vote.
    InsufficientReputation,
    /// Caller is not authorized as a multi-sig upgrade signer.
    NotUpgradeSigner,
    /// Not enough upgrade approvals collected yet.
    UpgradeThresholdNotMet,
    /// No pending upgrade proposal to act on.
    NoPendingUpgrade,
    /// Signer has already approved this upgrade proposal.
    AlreadyApproved,
    /// Invalid multi-sig upgrade configuration (threshold > signers or zero).
    InvalidUpgradeConfig,
}

impl ContractError {
    /// The error code of this value.
    pub open spec fn spec_code(self) -> u32 {
        match self {
            ContractError::NotAuthorized => 1,
            ContractError::DuplicateVote => 2,
            ContractError::TaskNotVerified => 3,
            ContractError::StreamAlreadyActive => 4,
            ContractError::DripsCallFailed => 5,
            ContractError::AlreadyInitialized => 6,
            ContractError::NotInitialized => 7,
            ContractError::NoReputationScore => 8,
            ContractError::ZeroWeightVote => 9,
            ContractError::WeightOverflow => 10,
            ContractError::InsufficientLockedBalance => 11,
            ContractError::StillGuardian => 12,
            ContractError::NotGuardian => 13,
            ContractError::Locked => 14,
            ContractError::ContractPaused => 15,
            ContractError::EscrowUnavailable => 16,
            ContractError::TaskCancelled => 17,
            ContractError::InvalidAddress => 18,
            ContractError::InvalidAmount => 19,
            ContractError::InvalidConfig => 20,
            ContractError::InvalidRange => 21,
            ContractError::BatchTooLarge => 22,
            ContractError::TaskNotFound => 23,
            ContractError::TaskAlreadyArchived => 24,
            ContractError::TaskNotStale => 25,
            ContractError::SnapshotNotFound => 26,
            ContractError::WithdrawalTimelockActive => 27,
            ContractError::TaskNotTerminal => 28,
            ContractError::InsufficientReputation => 29,
            ContractError::NotUpgradeSigner => 30,
            ContractError::UpgradeThresholdNotMet => 31,
            ContractError::NoPendingUpgrade => 32,
            ContractError::AlreadyApproved => 33,
            ContractError::InvalidUpgradeConfig => 34,
        }
    }

    /// The value whose error code is `c`, if there is one.
    pub open spec fn spec_from_code(c: u32) -> Option<ContractError> {
        match c {
            1 => Some(ContractError::NotAuthorized),
            2 => Some(ContractError::DuplicateVote),
            3 => Some(ContractError::TaskNotVerified),
            4 => Some(ContractError::StreamAlreadyActive),
            5 => Some(ContractError::DripsCallFailed),
            6 => Some(ContractError::AlreadyInitialized),
            7 => Some(ContractError::NotInitialized),
            8 => Some(ContractError::NoReputationScore),
            9 => Some(ContractError::ZeroWeightVote),
            10 => Some(ContractError::WeightOverflow),
            11 => Some(ContractError::InsufficientLockedBalance),
            12 => Some(ContractError::StillGuardian),
            13 => Some(ContractError::NotGuardian),
            14 => Some(ContractError::Locked),
            15 => Some(ContractError::ContractPaused),
            16 => Some(ContractError::EscrowUnavailable),
            17 => Some(ContractError::TaskCancelled),
            18 => Some(ContractError::InvalidAddress),
            19 => Some(ContractError::InvalidAmount),
            20 => Some(ContractError::InvalidConfig),
            21 => Some(ContractError::InvalidRange),
            22 => Some(ContractError::BatchTooLarge),
            23 => Some(ContractError::TaskNotFound),
            24 => Some(ContractError::TaskAlreadyArchived),
            25 => Some(ContractError::TaskNotStale),
            26 => Some(ContractError::SnapshotNotFound),
            27 => Some(ContractError::WithdrawalTimelockActive),
            28 => Some(ContractError::TaskNotTerminal),
            29 => Some(ContractError::InsufficientReputation),
            30 => Some(ContractError::NotUpgradeSigner),
            31 => Some(ContractError::UpgradeThresholdNotMet),
            32 => Some(ContractError::NoPendingUpgrade),
            33 => Some(ContractError::AlreadyApproved),
            34 => Some(ContractError::InvalidUpgradeConfig),
            _ => None,
        }
    }

    /// The error code of this value.
    pub fn code(&self) -> (c: u32)
        ensures
            c == self.spec_code(),
    {
        match self {
            ContractError::NotAuthorized => 1,
            ContractError::DuplicateVote => 2,
            ContractError::TaskNotVerified => 3,
            ContractError::StreamAlreadyActive => 4,
            ContractError::DripsCallFailed => 5,
            ContractError::AlreadyInitialized => 6,
            ContractError::NotInitialized => 7,
            ContractError::NoReputationScore => 8,
            ContractError::ZeroWeightVote => 9,
            ContractError::WeightOverflow => 10,
            ContractError::InsufficientLockedBalance => 11,
            ContractError::StillGuardian => 12,
            ContractError::NotGuardian => 13,
            ContractError::Locked => 14,
            ContractError::ContractPaused => 15,
            ContractError::EscrowUnavailable => 16,
            ContractError::TaskCancelled => 17,
            ContractError::InvalidAddress => 18,
            ContractError::InvalidAmount => 19,
            ContractError::InvalidConfig => 20,
            ContractError::InvalidRange => 21,
            ContractError::BatchTooLarge => 22,
            ContractError::TaskNotFound => 23,
            ContractError::TaskAlreadyArchived => 24,
            ContractError::TaskNotStale => 25,
            ContractError::SnapshotNotFound => 26,
            ContractError::WithdrawalTimelockActive => 27,
            ContractError::TaskNotTerminal => 28,
            ContractError::InsufficientReputation => 29,
            ContractError::NotUpgradeSigner => 30,
            ContractError::UpgradeThresholdNotMet => 31,
            ContractError::NoPendingUpgrade => 32,
            ContractError::AlreadyApproved => 33,
            ContractError::InvalidUpgradeConfig => 34,
        }
    }

    /// The value whose error code is `c`: `None` exactly when `c` is outside
    /// 1..=34.
    pub fn from_code(c: u32) -> (r: Option<ContractError>)
        ensures
            r == Self::spec_from_code(c),
            r is None <==> !(1 <= c <= 34),
    {
        match c {
            1 => Some(ContractError::NotAuthorized),
            2 => Some(ContractError::DuplicateVote),
            3 => Some(ContractError::TaskNotVerified),
            4 => Some(ContractError::StreamAlreadyActive),
            5 => Some(ContractError::DripsCallFailed),
            6 => Some(ContractError::AlreadyInitialized),
            7 => Some(ContractError::NotInitialized),
            8 => Some(ContractError::NoReputationScore),
            9 => Some(ContractError::ZeroWeightVote),
            10 => Some(ContractError::WeightOverflow),
            11 => Some(ContractError::InsufficientLockedBalance),
            12 => Some(ContractError::StillGuardian),
            13 => Some(ContractError::NotGuardian),
            14 => Some(ContractError::Locked),
            15 => Some(ContractError::ContractPaused),
            16 => Some(ContractError::EscrowUnavailable),
            17 => Some(ContractError::TaskCancelled),
            18 => Some(ContractError::InvalidAddress),
            19 => Some(ContractError::InvalidAmount),
            20 => Some(ContractError::InvalidConfig),
            21 => Some(ContractError::InvalidRange),
            22 => Some(ContractError::BatchTooLarge),
            23 => Some(ContractError::TaskNotFound),
            24 => Some(ContractError::TaskAlreadyArchived),
            25 => Some(ContractError::TaskNotStale),
            26 => Some(ContractError::SnapshotNotFound),
            27 => Some(ContractError::WithdrawalTimelockActive),
            28 => Some(ContractError::TaskNotTerminal),
            29 => Some(ContractError::InsufficientReputation),
            30 => Some(ContractError::NotUpgradeSigner),
            31 => Some(ContractError::UpgradeThresholdNotMet),
            32 => Some(ContractError::NoPendingUpgrade),
            33 => Some(ContractError::AlreadyApproved),
            34 => Some(ContractError::InvalidUpgradeConfig),
            _ => None,
        }
    }
}

/// Every Operation has a code in 0..=20, and decoding that code gives
/// back the same value.
pub proof fn lemma_operation_code_round_trip(x: Operation)
    ensures
        0 <= x.spec_code() <= 20,
        Operation::spec_from_code(x.spec_code()) == Some(x),
{
}

/// A code decodes to a value only if that value's code is the code; so
/// distinct values never share a code.
pub proof fn lemma_operation_code_decodes_exactly(c: u32, x: Operation)
    requires
        Operation::spec_from_code(c) == Some(x),
    ensures
        x.spec_code() == c,
{
}

/// Every ContractError has a error code in 1..=34, and decoding that code gives
/// back the same value.
pub proof fn lemma_contract_error_code_round_trip(x: ContractError)
    ensures
        1 <= x.spec_code() <= 34,
        ContractError::spec_from_code(x.spec_code()) == Some(x),
{
}

/// A code decodes to a value only if that value's error code is the code; so
/// distinct values never share a code.
pub proof fn lemma_contract_error_code_decodes_exactly(c: u32, x: ContractError)
    requires
        ContractError::spec_from_code(c) == Some(x),
    ensures
        x.spec_code() == c,
{
}

/// The code of every Operation is the discriminant that the contract
/// declares for it: the table below, written out as numbers.
pub proof fn lemma_operation_code_table()
    ensures
        Operation::RegisterTask.spec_code() == 0,
        Operation::Vote.spec_code() == 1,
        Operation::AddGuardian.spec_code() == 2,
        Operation::SetReputation.spec_code() == 3,
        Operation::LockTokens.spec_code() == 4,
        Operation::UnlockTokens.spec_code() == 5,
        Operation::ResignGuardian.spec_code() == 6,
        Operation::SetWeightThreshold.spec_code() == 7,
        Operation::StartRewardStream.spec_code() == 8,
        Operation::TogglePause.spec_code() == 9,
        Operation::RecordFailure.spec_code() == 10,
        Operation::ResetCircuitBreaker.spec_code() == 11,
        Operation::UpgradeContract.spec_code() == 12,
        Operation::RecordSnapshot.spec_code() == 13,
        Operation::PurgeTask.spec_code() == 14,
        Operation::VoteBatch.spec_code() == 15,
        Operation::SetUpgradeSigners.spec_code() == 16,
        Operation::ProposeUpgrade.spec_code() == 17,
        Operation::ApproveUpgrade.spec_code() == 18,
        Operation::ExecuteUpgrade.spec_code() == 19,
        Operation::CancelUpgrade.spec_code() == 20,
{
}

/// Decoding each code the contract declares gives the Operation declared
/// with that discriminant: the table below, written out as numbers.
pub proof fn lemma_operation_decode_table()
    ensures
        Operation::spec_from_code(0) == Some(Operation::RegisterTask),
        Operation::spec_from_code(1) == Some(Operation::Vote),
        Operation::spec_from_code(2) == Some(Operation::AddGuardian),
        Operation::spec_from_code(3) == Some(Operation::SetReputation),
        Operation::spec_from_code(4) == Some(Operation::LockTokens),
        Operation::spec_from_code(5) == Some(Operation::UnlockTokens),
        Operation::spec_from_code(6) == Some(Operation::ResignGuardian),
        Operation::spec_from_code(7) == Some(Operation::SetWeightThreshold),
        Operation::spec_from_code(8) == Some(Operation::StartRewardStream),
        Operation::spec_from_code(9) == Some(Operation::TogglePause),
        Operation::spec_from_code(10) == Some(Operation::RecordFailure),
        Operation::spec_from_code(11) == Some(Operation::ResetCircuitBreaker),
        Operation::spec_from_code(12) == Some(Operation::UpgradeContract),
        Operation::spec_from_code(13) == Some(Operation::RecordSnapshot),
        Operation::spec_from_code(14) == Some(Operation::PurgeTask),
        Operation::spec_from_code(15) == Some(Operation::VoteBatch),
        Operation::spec_from_code(16) == Some(Operation::SetUpgradeSigners),
        Operation::spec_from_code(17) == Some(Operation::ProposeUpgrade),
        Operation::spec_from_code(18) == Some(Operation::ApproveUpgrade),
        Operation::spec_from_code(19) == Some(Operation::ExecuteUpgrade),
        Operation::spec_from_code(20) == Some(Operation::CancelUpgrade),
{
}

/// The contract error code of every ContractError is the discriminant that the contract
/// declares for it: the table below, written out as numbers.
pub proof fn lemma_contract_error_code_table()
    ensures
        ContractError::NotAuthorized.spec_code() == 1,
        ContractError::DuplicateVote.spec_code() == 2,
        ContractError::TaskNotVerified.spec_code() == 3,
        ContractError::StreamAlreadyActive.spec_code() == 4,
        ContractError::DripsCallFailed.spec_code() == 5,
        ContractError::AlreadyInitialized.spec_code() == 6,
        ContractError::NotInitialized.spec_code() == 7,
        ContractError::NoReputationScore.spec_code() == 8,
        ContractError::ZeroWeightVote.spec_code() == 9,
        ContractError::WeightOverflow.spec_code() == 10,
        ContractError::InsufficientLockedBalance.spec_code() == 11,
        ContractError::StillGuardian.spec_code() == 12,
        ContractError::NotGuardian.spec_code() == 13,
        ContractError::Locked.spec_code() == 14,
        ContractError::ContractPaused.spec_code() == 15,
        ContractError::EscrowUnavailable.spec_code() == 16,
        ContractError::TaskCancelled.spec_code() == 17,
        ContractError::InvalidAddress.spec_code() == 18,
        ContractError::InvalidAmount.spec_code() == 19,
        ContractError::InvalidConfig.spec_code() == 20,
        ContractError::InvalidRange.spec_code() == 21,
        ContractError::BatchTooLarge.spec_code() == 22,
        ContractError::TaskNotFound.spec_code() == 23,
        ContractError::TaskAlreadyArchived.spec_code() == 24,
        ContractError::TaskNotStale.spec_code() == 25,
        ContractError::SnapshotNotFound.spec_code() == 26,
        ContractError::WithdrawalTimelockActive.spec_code() == 27,
        ContractError::TaskNotTerminal.spec_code() == 28,
        ContractError::InsufficientReputation.spec_code() == 29,
        ContractError::NotUpgradeSigner.spec_code() == 30,
        ContractError::UpgradeThresholdNotMet.spec_code() == 31,
        ContractError::NoPendingUpgrade.spec_code() == 32,
        ContractError::AlreadyApproved.spec_code() == 33,
        ContractError::InvalidUpgradeConfig.spec_code() == 34,
{
}

/// Decoding each contract error code the contract declares gives the ContractError declared
/// with that discriminant: the table below, written out as numbers.
pub proof fn lemma_contract_error_decode_table()
    ensures
        ContractError::spec_from_code(1) == Some(ContractError::NotAuthorized),
        ContractError::spec_from_code(2) == Some(ContractError::DuplicateVote),
        ContractError::spec_from_code(3) == Some(ContractError::TaskNotVerified),
        ContractError::spec_from_code(4) == Some(ContractError::StreamAlreadyActive),
        ContractError::spec_from_code(5) == Some(ContractError::DripsCallFailed),
        ContractError::spec_from_code(6) == Some(ContractError::AlreadyInitialized),
        ContractError::spec_from_code(7) == Some(ContractError::NotInitialized),
        ContractError::spec_from_code(8) == Some(ContractError::NoReputationScore),
        ContractError::spec_from_code(9) == Some(ContractError::ZeroWeightVote),
        ContractError::spec_from_code(10) == Some(ContractError::WeightOverflow),
        ContractError::spec_from_code(11) == Some(ContractError::InsufficientLockedBalance),
        ContractError::spec_from_code(12) == Some(ContractError::StillGuardian),
        ContractError::spec_from_code(13) == Some(ContractError::NotGuardian),
        ContractError::spec_from_code(14) == Some(ContractError::Locked),
        ContractError::spec_from_code(15) == Some(ContractError::ContractPaused),
        ContractError::spec_from_code(16) == Some(ContractError::EscrowUnavailable),
        ContractError::spec_from_code(17) == Some(ContractError::TaskCancelled),
        ContractError::spec_from_code(18) == Some(ContractError::InvalidAddress),
        ContractError::spec_from_code(19) == Some(ContractError::InvalidAmount),
        ContractError::spec_from_code(20) == Some(ContractError::InvalidConfig),
        ContractError::spec_from_code(21) == Some(ContractError::InvalidRange),
        ContractError::spec_from_code(22) == Some(ContractError::BatchTooLarge),
        ContractError::spec_from_code(23) == Some(ContractError::TaskNotFound),
        ContractError::spec_from_code(24) == Some(ContractError::TaskAlreadyArchived),
        ContractError::spec_from_code(25) == Some(ContractError::TaskNotStale),
        ContractError::spec_from_code(26) == Some(ContractError::SnapshotNotFound),
        ContractError::spec_from_code(27) == Some(ContractError::WithdrawalTimelockActive),
        ContractError::spec_from_code(28) == Some(ContractError::TaskNotTerminal),
        ContractError::spec_from_code(29) == Some(ContractError::InsufficientReputation),
        ContractError::spec_from_code(30) == Some(ContractError::NotUpgradeSigner),
        ContractError::spec_from_code(31) == Some(ContractError::UpgradeThresholdNotMet),
        ContractError::spec_from_code(32) == Some(ContractError::NoPendingUpgrade),
        ContractError::spec_from_code(33) == Some(ContractError::AlreadyApproved),
        ContractError::spec_from_code(34) == Some(ContractError::InvalidUpgradeConfig),
{
}

} // verus!
