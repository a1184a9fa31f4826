use soroban_sdk::testutils::Address as _;
use soroban_sdk::{Address, BytesN, Env};
use vero_core_contracts::event::{Event, EventKind, Payload, Value};
use vero_core_contracts::events::{
    emit_circuit_breaker_reset, emit_circuit_breaker_triggered, emit_contract_initialized,
    emit_contract_upgraded, emit_guardian_added, emit_guardian_removed, emit_guardian_resigned,
    emit_pause_toggled, emit_reputation_set, emit_reward_stream_failed,
    emit_reward_stream_started, emit_snapshot_recorded, emit_task_archived, emit_task_cancelled,
    emit_task_purged, emit_task_registered, emit_task_resolved, emit_threshold_set,
    emit_timelock_started, emit_tokens_locked, emit_tokens_unlocked, emit_vault_set,
    emit_weighted_vote, emit_withdrawal_cancelled, emit_withdrawal_executed,
    emit_withdrawal_requested,
};

fn two_addresses(env: &Env) -> (Address, Address) {
    let a = Address::generate(env);
    let b = Address::generate(env);
    assert_ne!(a, b);
    (a, b)
}

fn tuple_values(e: &Event) -> &Vec<Value> {
    match &e.data {
        Payload::Tuple(v) => v,
        Payload::Bare(_) => panic!("expected a tuple"),
    }
}

fn bare_value(e: &Event) -> &Value {
    match &e.data {
        Payload::Bare(v) => v,
        Payload::Tuple(_) => panic!("expected a bare value"),
    }
}

#[test]
fn test_emit_task_resolved() {
    let env = Env::default();
    let (a, b) = two_addresses(&env);
    let _ = (&a, &b);
    let e = emit_task_resolved(7, 250);
    assert_eq!(e.kind, EventKind::TaskResolved);
    assert_eq!(e.topic(), "resolved");
    assert_eq!(tuple_values(&e), &vec![Value::U64(7), Value::U64(250)]);
}

#[test]
fn test_emit_weighted_vote() {
    let env = Env::default();
    let (a, b) = two_addresses(&env);
    let _ = (&a, &b);
    let e = emit_weighted_vote(3, &a, 42);
    assert_eq!(e.kind, EventKind::WeightedVote);
    assert_eq!(e.topic(), "wt_vote");
    assert_eq!(tuple_values(&e), &vec![Value::U64(3), Value::Addr(a.clone()), Value::U64(42)]);
}

#[test]
fn test_emit_pause_toggled() {
    let env = Env::default();
    let (a, b) = two_addresses(&env);
    let _ = (&a, &b);
    let e = emit_pause_toggled(true);
    assert_eq!(e.kind, EventKind::PauseToggled);
    assert_eq!(e.topic(), "paused");
    assert_eq!(bare_value(&e), &Value::Bool(true));
}

#[test]
fn test_emit_reward_stream_started() {
    let env = Env::default();
    let (a, b) = two_addresses(&env);
    let _ = (&a, &b);
    let e = emit_reward_stream_started(9, &a);
    assert_eq!(e.kind, EventKind::RewardStreamStarted);
    assert_eq!(e.topic(), "rw_start");
    assert_eq!(tuple_values(&e), &vec![Value::U64(9), Value::Addr(a.clone())]);
}

#[test]
fn test_emit_reward_stream_failed() {
    let env = Env::default();
    let (a, b) = two_addresses(&env);
    let _ = (&a, &b);
    let e = emit_reward_stream_failed(10, &b);
    assert_eq!(e.kind, EventKind::RewardStreamFailed);
    assert_eq!(e.topic(), "rw_fail");
    assert_eq!(tuple_values(&e), &vec![Value::U64(10), Value::Addr(b.clone())]);
}

#[test]
fn test_emit_circuit_breaker_triggered() {
    let env = Env::default();
    let (a, b) = two_addresses(&env);
    let _ = (&a, &b);
    let e = emit_circuit_breaker_triggered(5);
    assert_eq!(e.kind, EventKind::CircuitBreakerTriggered);
    assert_eq!(e.topic(), "cb_trip");
    assert_eq!(tuple_values(&e), &vec![Value::U32(5)]);
}

#[test]
fn test_emit_withdrawal_requested() {
    let env = Env::default();
    let (a, b) = two_addresses(&env);
    let _ = (&a, &b);
    let e = emit_withdrawal_requested(1, &a, -5);
    assert_eq!(e.kind, EventKind::WithdrawalRequested);
    assert_eq!(e.topic(), "wd_req");
    assert_eq!(tuple_values(&e), &vec![Value::U64(1), Value::Addr(a.clone()), Value::I128(-5)]);
}

#[test]
fn test_emit_withdrawal_executed() {
    let env = Env::default();
    let (a, b) = two_addresses(&env);
    let _ = (&a, &b);
    let e = emit_withdrawal_executed(2, &b, 1_000_000_000_000_000_000_000);
    assert_eq!(e.kind, EventKind::WithdrawalExecuted);
    assert_eq!(e.topic(), "wd_exec");
    assert_eq!(tuple_values(&e), &vec![Value::U64(2), Value::Addr(b.clone()), Value::I128(1_000_000_000_000_000_000_000)]);
}

#[test]
fn test_emit_withdrawal_cancelled() {
    let env = Env::default();
    let (a, b) = two_addresses(&env);
    let _ = (&a, &b);
    let e = emit_withdrawal_cancelled(4);
    assert_eq!(e.kind, EventKind::WithdrawalCancelled);
    assert_eq!(e.topic(), "wd_cncl");
    assert_eq!(bare_value(&e), &Value::U64(4));
}

#[test]
fn test_emit_task_cancelled() {
    let env = Env::default();
    let (a, b) = two_addresses(&env);
    let _ = (&a, &b);
    let e = emit_task_cancelled(11);
    assert_eq!(e.kind, EventKind::TaskCancelled);
    assert_eq!(e.topic(), "cancelled");
    assert_eq!(bare_value(&e), &Value::U64(11));
}

#[test]
fn test_emit_snapshot_recorded() {
    let env = Env::default();
    let (a, b) = two_addresses(&env);
    let _ = (&a, &b);
    let e = emit_snapshot_recorded(1_700_000_000);
    assert_eq!(e.kind, EventKind::SnapshotRecorded);
    assert_eq!(e.topic(), "snapshot");
    assert_eq!(bare_value(&e), &Value::U64(1_700_000_000));
}

#[test]
fn test_emit_task_purged() {
    let env = Env::default();
    let (a, b) = two_addresses(&env);
    let _ = (&a, &b);
    let e = emit_task_purged(u64::MAX);
    assert_eq!(e.kind, EventKind::TaskPurged);
    assert_eq!(e.topic(), "purged");
    assert_eq!(bare_value(&e), &Value::U64(u64::MAX));
}

#[test]
fn test_emit_contract_initialized() {
    let env = Env::default();
    let (a, b) = two_addresses(&env);
    let _ = (&a, &b);
    let e = emit_contract_initialized(&a);
    assert_eq!(e.kind, EventKind::ContractInitialized);
    assert_eq!(e.topic(), "inited");
    assert_eq!(tuple_values(&e), &vec![Value::Addr(a.clone())]);
}

#[test]
fn test_emit_guardian_added() {
    let env = Env::default();
    let (a, b) = two_addresses(&env);
    let _ = (&a, &b);
    let e = emit_guardian_added(&a, &b);
    assert_eq!(e.kind, EventKind::GuardianAdded);
    assert_eq!(e.topic(), "gd_add");
    assert_eq!(tuple_values(&e), &vec![Value::Addr(a.clone()), Value::Addr(b.clone())]);
}

#[test]
fn test_emit_guardian_removed() {
    let env = Env::default();
    let (a, b) = two_addresses(&env);
    let _ = (&a, &b);
    let e = emit_guardian_removed(&b, &a);
    assert_eq!(e.kind, EventKind::GuardianRemoved);
    assert_eq!(e.topic(), "gd_rm");
    assert_eq!(tuple_values(&e), &vec![Value::Addr(b.clone()), Value::Addr(a.clone())]);
}

#[test]
fn test_emit_reputation_set() {
    let env = Env::default();
    let (a, b) = two_addresses(&env);
    let _ = (&a, &b);
    let e = emit_reputation_set(&a, &b, 80);
    assert_eq!(e.kind, EventKind::ReputationSet);
    assert_eq!(e.topic(), "rep_set");
    assert_eq!(tuple_values(&e), &vec![Value::Addr(a.clone()), Value::Addr(b.clone()), Value::U64(80)]);
}

#[test]
fn test_emit_tokens_locked() {
    let env = Env::default();
    let (a, b) = two_addresses(&env);
    let _ = (&a, &b);
    let e = emit_tokens_locked(&a, 500);
    assert_eq!(e.kind, EventKind::TokensLocked);
    assert_eq!(e.topic(), "tk_lock");
    assert_eq!(tuple_values(&e), &vec![Value::Addr(a.clone()), Value::I128(500)]);
}

#[test]
fn test_emit_timelock_started() {
    let env = Env::default();
    let (a, b) = two_addresses(&env);
    let _ = (&a, &b);
    let e = emit_timelock_started(&b);
    assert_eq!(e.kind, EventKind::TimelockStarted);
    assert_eq!(e.topic(), "tm_start");
    assert_eq!(tuple_values(&e), &vec![Value::Addr(b.clone())]);
}

#[test]
fn test_emit_tokens_unlocked() {
    let env = Env::default();
    let (a, b) = two_addresses(&env);
    let _ = (&a, &b);
    let e = emit_tokens_unlocked(&b, i128::MAX);
    assert_eq!(e.kind, EventKind::TokensUnlocked);
    assert_eq!(e.topic(), "tk_unlk");
    assert_eq!(tuple_values(&e), &vec![Value::Addr(b.clone()), Value::I128(i128::MAX)]);
}

#[test]
fn test_emit_guardian_resigned() {
    let env = Env::default();
    let (a, b) = two_addresses(&env);
    let _ = (&a, &b);
    let e = emit_guardian_resigned(&a);
    assert_eq!(e.kind, EventKind::GuardianResigned);
    assert_eq!(e.topic(), "gd_res");
    assert_eq!(tuple_values(&e), &vec![Value::Addr(a.clone())]);
}

#[test]
fn test_emit_threshold_set() {
    let env = Env::default();
    let (a, b) = two_addresses(&env);
    let _ = (&a, &b);
    let e = emit_threshold_set(&a, 100);
    assert_eq!(e.kind, EventKind::ThresholdSet);
    assert_eq!(e.topic(), "th_set");
    assert_eq!(tuple_values(&e), &vec![Value::Addr(a.clone()), Value::U64(100)]);
}

#[test]
fn test_emit_vault_set() {
    let env = Env::default();
    let (a, b) = two_addresses(&env);
    let _ = (&a, &b);
    let e = emit_vault_set(&a, &b);
    assert_eq!(e.kind, EventKind::VaultSet);
    assert_eq!(e.topic(), "vault");
    assert_eq!(tuple_values(&e), &vec![Value::Addr(a.clone()), Value::Addr(b.clone())]);
}

#[test]
fn test_emit_task_registered() {
    let env = Env::default();
    let (a, b) = two_addresses(&env);
    let _ = (&a, &b);
    let e = emit_task_registered(&a, 1);
    assert_eq!(e.kind, EventKind::TaskRegistered);
    assert_eq!(e.topic(), "reg");
    assert_eq!(tuple_values(&e), &vec![Value::Addr(a.clone()), Value::U64(1)]);
}

#[test]
fn test_emit_task_archived() {
    let env = Env::default();
    let (a, b) = two_addresses(&env);
    let _ = (&a, &b);
    let e = emit_task_archived(0);
    assert_eq!(e.kind, EventKind::TaskArchived);
    assert_eq!(e.topic(), "archived");
    assert_eq!(bare_value(&e), &Value::U64(0));
}

#[test]
fn test_emit_circuit_breaker_reset() {
    let env = Env::default();
    let (a, b) = two_addresses(&env);
    let _ = (&a, &b);
    let e = emit_circuit_breaker_reset(&b);
    assert_eq!(e.kind, EventKind::CircuitBreakerReset);
    assert_eq!(e.topic(), "cb_rst");
    assert_eq!(tuple_values(&e), &vec![Value::Addr(b.clone())]);
}

#[test]
fn test_emit_contract_upgraded() {
    let env = Env::default();
    let (a, b) = two_addresses(&env);
    let _ = (&a, &b);
    let h = BytesN::from_array(&env, &[7u8; 32]);
    let e = emit_contract_upgraded(&a, &h);
    assert_eq!(e.kind, EventKind::ContractUpgraded);
    assert_eq!(e.topic(), "upgraded");
    assert_eq!(tuple_values(&e), &vec![Value::Addr(a.clone()), Value::Hash(h.clone())]);
}

