use vstd::prelude::*;
use soroban_sdk::{Address, BytesN};
use crate::event::{Event, EventKind, Payload, Value};

verus! {

/// A task was resolved with the given accrued weight.
/// Published under the topic `resolved`; the data is a tuple of the
/// arguments, in order.
pub fn emit_task_resolved(task_id: u64, weight: u64) -> (e: Event)
    ensures
        e.kind == EventKind::TaskResolved,
        !e.data.is_bare(),
        e.data.values() == seq![Value::U64(task_id), Value::U64(weight)],
        e.well_formed(),
{
    Event { kind: EventKind::TaskResolved, data: Payload::Tuple(vec![Value::U64(task_id), Value::U64(weight)]) }
}

/// A guardian cast a vote of the given weight on a task.
/// Published under the topic `wt_vote`; the data is a tuple of the
/// arguments, in order.
pub fn emit_weighted_vote(task_id: u64, guardian: &Address, weight: u64) -> (e: Event)
    ensures
        e.kind == EventKind::WeightedVote,
        !e.data.is_bare(),
        e.data.values() == seq![Value::U64(task_id), Value::Addr(*guardian), Value::U64(weight)],
        e.well_formed(),
{
    Event { kind: EventKind::WeightedVote, data: Payload::Tuple(vec![Value::U64(task_id), Value::Addr(guardian.clone()), Value::U64(weight)]) }
}

/// The contract was paused or unpaused; the data is the new state.
/// Published under the topic `paused`; the data is the argument itself,
/// not wrapped in a tuple.
pub fn emit_pause_toggled(paused: bool) -> (e: Event)
    ensures
        e.kind == EventKind::PauseToggled,
        e.data.is_bare(),
        e.data.values() == seq![Value::Bool(paused)],
        e.well_formed(),
{
    Event { kind: EventKind::PauseToggled, data: Payload::Bare(Value::Bool(paused)) }
}

/// A reward stream was started for a task's contributor.
/// Published under the topic `rw_start`; the data is a tuple of the
/// arguments, in order.
pub fn emit_reward_stream_started(task_id: u64, contributor: &Address) -> (e: Event)
    ensures
        e.kind == EventKind::RewardStreamStarted,
        !e.data.is_bare(),
        e.data.values() == seq![Value::U64(task_id), Value::Addr(*contributor)],
        e.well_formed(),
{
    Event { kind: EventKind::RewardStreamStarted, data: Payload::Tuple(vec![Value::U64(task_id), Value::Addr(contributor.clone())]) }
}

/// Starting a reward stream for a task's contributor failed.
/// Published under the topic `rw_fail`; the data is a tuple of the
/// arguments, in order.
pub fn emit_reward_stream_failed(task_id: u64, contributor: &Address) -> (e: Event)
    ensures
        e.kind == EventKind::RewardStreamFailed,
        !e.data.is_bare(),
        e.data.values() == seq![Value::U64(task_id), Value::Addr(*contributor)],
        e.well_formed(),
{
    Event { kind: EventKind::RewardStreamFailed, data: Payload::Tuple(vec![Value::U64(task_id), Value::Addr(contributor.clone())]) }
}

/// The circuit breaker tripped after the given number of failures.
/// Published under the topic `cb_trip`; the data is a tuple of the
/// arguments, in order.
pub fn emit_circuit_breaker_triggered(failure_count: u32) -> (e: Event)
    ensures
        e.kind == EventKind::CircuitBreakerTriggered,
        !e.data.is_bare(),
        e.data.values() == seq![Value::U32(failure_count)],
        e.well_formed(),
{
    Event { kind: EventKind::CircuitBreakerTriggered, data: Payload::Tuple(vec![Value::U32(failure_count)]) }
}

/// A withdrawal was requested.
/// Published under the topic `wd_req`; the data is a tuple of the
/// arguments, in order.
pub fn emit_withdrawal_requested(request_id: u64, recipient: &Address, amount: i128) -> (e: Event)
    ensures
        e.kind == EventKind::WithdrawalRequested,
        !e.data.is_bare(),
        e.data.values() == seq![Value::U64(request_id), Value::Addr(*recipient), Value::I128(amount)],
        e.well_formed(),
{
    Event { kind: EventKind::WithdrawalRequested, data: Payload::Tuple(vec![Value::U64(request_id), Value::Addr(recipient.clone()), Value::I128(amount)]) }
}

/// A withdrawal was executed.
/// Published under the topic `wd_exec`; the data is a tuple of the
/// arguments, in order.
pub fn emit_withdrawal_executed(request_id: u64, recipient: &Address, amount: i128) -> (e: Event)
    ensures
        e.kind == EventKind::WithdrawalExecuted,
        !e.data.is_bare(),
        e.data.values() == seq![Value::U64(request_id), Value::Addr(*recipient), Value::I128(amount)],
        e.well_formed(),
{
    Event { kind: EventKind::WithdrawalExecuted, data: Payload::Tuple(vec![Value::U64(request_id), Value::Addr(recipient.clone()), Value::I128(amount)]) }
}

/// A withdrawal request was cancelled.
/// Published under the topic `wd_cncl`; the data is the argument itself,
/// not wrapped in a tuple.
pub fn emit_withdrawal_cancelled(request_id: u64) -> (e: Event)
    ensures
        e.kind == EventKind::WithdrawalCancelled,
        e.data.is_bare(),
        e.data.values() == seq![Value::U64(request_id)],
        e.well_formed(),
{
    Event { kind: EventKind::WithdrawalCancelled, data: Payload::Bare(Value::U64(request_id)) }
}

/// A task was cancelled.
/// Published under the topic `cancelled`; the data is the argument itself,
/// not wrapped in a tuple.
pub fn emit_task_cancelled(task_id: u64) -> (e: Event)
    ensures
        e.kind == EventKind::TaskCancelled,
        e.data.is_bare(),
        e.data.values() == seq![Value::U64(task_id)],
        e.well_formed(),
{
    Event { kind: EventKind::TaskCancelled, data: Payload::Bare(Value::U64(task_id)) }
}

/// A snapshot of the contract state was recorded at the given time.
/// Published under the topic `snapshot`; the data is the argument itself,
/// not wrapped in a tuple.
pub fn emit_snapshot_recorded(timestamp: u64) -> (e: Event)
    ensures
        e.kind == EventKind::SnapshotRecorded,
        e.data.is_bare(),
        e.data.values() == seq![Value::U64(timestamp)],
        e.well_formed(),
{
    Event { kind: EventKind::SnapshotRecorded, data: Payload::Bare(Value::U64(timestamp)) }
}

/// A terminal task was purged from storage.
/// Published under the topic `purged`; the data is the argument itself,
/// not wrapped in a tuple.
pub fn emit_task_purged(task_id: u64) -> (e: Event)
    ensures
        e.kind == EventKind::TaskPurged,
        e.data.is_bare(),
        e.data.values() == seq![Value::U64(task_id)],
        e.well_formed(),
{
    Event { kind: EventKind::TaskPurged, data: Payload::Bare(Value::U64(task_id)) }
}

/// The contract was initialized with the given admin.
/// Published under the topic `inited`; the data is a tuple of the
/// arguments, in order.
pub fn emit_contract_initialized(admin: &Address) -> (e: Event)
    ensures
        e.kind == EventKind::ContractInitialized,
        !e.data.is_bare(),
        e.data.values() == seq![Value::Addr(*admin)],
        e.well_formed(),
{
    Event { kind: EventKind::ContractInitialized, data: Payload::Tuple(vec![Value::Addr(admin.clone())]) }
}

/// The admin added a guardian.
/// Published under the topic `gd_add`; the data is a tuple of the
/// arguments, in order.
pub fn emit_guardian_added(admin: &Address, guardian: &Address) -> (e: Event)
    ensures
        e.kind == EventKind::GuardianAdded,
        !e.data.is_bare(),
        e.data.values() == seq![Value::Addr(*admin), Value::Addr(*guardian)],
        e.well_formed(),
{
    Event { kind: EventKind::GuardianAdded, data: Payload::Tuple(vec![Value::Addr(admin.clone()), Value::Addr(guardian.clone())]) }
}

/// The admin removed a guardian.
/// Published under the topic `gd_rm`; the data is a tuple of the
/// arguments, in order.
pub fn emit_guardian_removed(admin: &Address, guardian: &Address) -> (e: Event)
    ensures
        e.kind == EventKind::GuardianRemoved,
        !e.data.is_bare(),
        e.data.values() == seq![Value::Addr(*admin), Value::Addr(*guardian)],
        e.well_formed(),
{
    Event { kind: EventKind::GuardianRemoved, data: Payload::Tuple(vec![Value::Addr(admin.clone()), Value::Addr(guardian.clone())]) }
}

/// The admin set a guardian's reputation score.
/// Published under the topic `rep_set`; the data is a tuple of the
/// arguments, in order.
pub fn emit_reputation_set(admin: &Address, guardian: &Address, score: u64) -> (e: Event)
    ensures
        e.kind == EventKind::ReputationSet,
        !e.data.is_bare(),
        e.data.values() == seq![Value::Addr(*admin), Value::Addr(*guardian), Value::U64(score)],
        e.well_formed(),
{
    Event { kind: EventKind::ReputationSet, data: Payload::Tuple(vec![Value::Addr(admin.clone()), Value::Addr(guardian.clone()), Value::U64(score)]) }
}

/// A guardian locked tokens.
/// Published under the topic `tk_lock`; the data is a tuple of the
/// arguments, in order.
pub fn emit_tokens_locked(guardian: &Address, amount: i128) -> (e: Event)
    ensures
        e.kind == EventKind::TokensLocked,
        !e.data.is_bare(),
        e.data.values() == seq![Value::Addr(*guardian), Value::I128(amount)],
        e.well_formed(),
{
    Event { kind: EventKind::TokensLocked, data: Payload::Tuple(vec![Value::Addr(guardian.clone()), Value::I128(amount)]) }
}

/// A guardian started the unlock timelock.
/// Published under the topic `tm_start`; the data is a tuple of the
/// arguments, in order.
pub fn emit_timelock_started(guardian: &Address) -> (e: Event)
    ensures
        e.kind == EventKind::TimelockStarted,
        !e.data.is_bare(),
        e.data.values() == seq![Value::Addr(*guardian)],
        e.well_formed(),
{
    Event { kind: EventKind::TimelockStarted, data: Payload::Tuple(vec![Value::Addr(guardian.clone())]) }
}

/// A guardian unlocked tokens.
/// Published under the topic `tk_unlk`; the data is a tuple of the
/// arguments, in order.
pub fn emit_tokens_unlocked(guardian: &Address, amount: i128) -> (e: Event)
    ensures
        e.kind == EventKind::TokensUnlocked,
        !e.data.is_bare(),
        e.data.values() == seq![Value::Addr(*guardian), Value::I128(amount)],
        e.well_formed(),
{
    Event { kind: EventKind::TokensUnlocked, data: Payload::Tuple(vec![Value::Addr(guardian.clone()), Value::I128(amount)]) }
}

/// A guardian resigned.
/// Published under the topic `gd_res`; the data is a tuple of the
/// arguments, in order.
pub fn emit_guardian_resigned(guardian: &Address) -> (e: Event)
    ensures
        e.kind == EventKind::GuardianResigned,
        !e.data.is_bare(),
        e.data.values() == seq![Value::Addr(*guardian)],
        e.well_formed(),
{
    Event { kind: EventKind::GuardianResigned, data: Payload::Tuple(vec![Value::Addr(guardian.clone())]) }
}

/// The admin set the weight threshold.
/// Published under the topic `th_set`; the data is a tuple of the
/// arguments, in order.
pub fn emit_threshold_set(admin: &Address, threshold: u64) -> (e: Event)
    ensures
        e.kind == EventKind::ThresholdSet,
        !e.data.is_bare(),
        e.data.values() == seq![Value::Addr(*admin), Value::U64(threshold)],
        e.well_formed(),
{
    Event { kind: EventKind::ThresholdSet, data: Payload::Tuple(vec![Value::Addr(admin.clone()), Value::U64(threshold)]) }
}

/// The admin set the vault address.
/// Published under the topic `vault`; the data is a tuple of the
/// arguments, in order.
pub fn emit_vault_set(admin: &Address, vault: &Address) -> (e: Event)
    ensures
        e.kind == EventKind::VaultSet,
        !e.data.is_bare(),
        e.data.values() == seq![Value::Addr(*admin), Value::Addr(*vault)],
        e.well_formed(),
{
    Event { kind: EventKind::VaultSet, data: Payload::Tuple(vec![Value::Addr(admin.clone()), Value::Addr(vault.clone())]) }
}

/// The admin registered a task.
/// Published under the topic `reg`; the data is a tuple of the
/// arguments, in order.
pub fn emit_task_registered(admin: &Address, task_id: u64) -> (e: Event)
    ensures
        e.kind == EventKind::TaskRegistered,
        !e.data.is_bare(),
        e.data.values() == seq![Value::Addr(*admin), Value::U64(task_id)],
        e.well_formed(),
{
    Event { kind: EventKind::TaskRegistered, data: Payload::Tuple(vec![Value::Addr(admin.clone()), Value::U64(task_id)]) }
}

/// A task was archived.
/// Published under the topic `archived`; the data is the argument itself,
/// not wrapped in a tuple.
pub fn emit_task_archived(task_id: u64) -> (e: Event)
    ensures
        e.kind == EventKind::TaskArchived,
        e.data.is_bare(),
        e.data.values() == seq![Value::U64(task_id)],
        e.well_formed(),
{
    Event { kind: EventKind::TaskArchived, data: Payload::Bare(Value::U64(task_id)) }
}

/// The admin reset the circuit breaker.
/// Published under the topic `cb_rst`; the data is a tuple of the
/// arguments, in order.
pub fn emit_circuit_breaker_reset(admin: &Address) -> (e: Event)
    ensures
        e.kind == EventKind::CircuitBreakerReset,
        !e.data.is_bare(),
        e.data.values() == seq![Value::Addr(*admin)],
        e.well_formed(),
{
    Event { kind: EventKind::CircuitBreakerReset, data: Payload::Tuple(vec![Value::Addr(admin.clone())]) }
}

/// The admin upgraded the contract to the given WASM hash.
/// Published under the topic `upgraded`; the data is a tuple of the
/// arguments, in order.
pub fn emit_contract_upgraded(admin: &Address, wasm_hash: &BytesN<32>) -> (e: Event)
    ensures
        e.kind == EventKind::ContractUpgraded,
        !e.data.is_bare(),
        e.data.values() == seq![Value::Addr(*admin), Value::Hash(*wasm_hash)],
        e.well_formed(),
{
    Event { kind: EventKind::ContractUpgraded, data: Payload::Tuple(vec![Value::Addr(admin.clone()), Value::Hash(wasm_hash.clone())]) }
}

} // verus!
