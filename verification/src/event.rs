use vstd::prelude::*;
use soroban_sdk::{Address, BytesN};
use crate::symbol::is_short_symbol;

verus! {

/// The type of a value carried in an event's data.
#[derive(Clone, Copy, Debug, PartialEq, Eq, Structural)]
pub enum ValueKind {
    U32,
    U64,
    I128,
    Bool,
    Addr,
    Hash,
}

/// A single value carried in an event's data.
#[derive(Clone, Debug, PartialEq, Eq)]
pub enum Value {
    U32(u32),
    U64(u64),
    I128(i128),
    Bool(bool),
    Addr(Address),
    Hash(BytesN<32>),
}

impl Value {
    pub open spec fn kind(self) -> ValueKind {
        match self {
            Value::U32(_) => ValueKind::U32,
            Value::U64(_) => ValueKind::U64,
            Value::I128(_) => ValueKind::I128,
            Value::Bool(_) => ValueKind::Bool,
            Value::Addr(_) => ValueKind::Addr,
            Value::Hash(_) => ValueKind::Hash,
        }
    }
}

/// The data of an event: one bare value, or a tuple of values (published as
/// a vector of values, which is how a Soroban tuple is encoded).
#[derive(Clone, Debug, PartialEq, Eq)]
pub enum Payload {
    Bare(Value),
    Tuple(Vec<Value>),
}

impl Payload {
    pub open spec fn is_bare(self) -> bool {
        self is Bare
    }

    /// The values carried, in order: the bare value alone, or the tuple's
    /// elements.
    pub open spec fn values(self) -> Seq<Value> {
        match self {
            Payload::Bare(v) => seq![v],
            Payload::Tuple(vs) => vs@,
        }
    }
}

/// The kinds of event that the contract emits; each is published under a
/// topic of its own.
#[derive(Clone, Copy, Debug, PartialEq, Eq, Structural)]
pub enum EventKind {
    TaskResolved,
    WeightedVote,
    PauseToggled,
    RewardStreamStarted,
    RewardStreamFailed,
    CircuitBreakerTriggered,
    WithdrawalRequested,
    WithdrawalExecuted,
    WithdrawalCancelled,
    TaskCancelled,
    SnapshotRecorded,
    TaskPurged,
    ContractInitialized,
    GuardianAdded,
    GuardianRemoved,
    ReputationSet,
    TokensLocked,
    TimelockStarted,
    TokensUnlocked,
    GuardianResigned,
    ThresholdSet,
    VaultSet,
    TaskRegistered,
    TaskArchived,
    CircuitBreakerReset,
    ContractUpgraded,
}

impl EventKind {
    /// The topic symbol under which events of this kind are published.
    pub open spec fn spec_topic(self) -> Seq<char> {
        match self {
            EventKind::TaskResolved => "resolved"@,
            EventKind::WeightedVote => "wt_vote"@,
            EventKind::PauseToggled => "paused"@,
            EventKind::RewardStreamStarted => "rw_start"@,
            EventKind::RewardStreamFailed => "rw_fail"@,
            EventKind::CircuitBreakerTriggered => "cb_trip"@,
            EventKind::WithdrawalRequested => "wd_req"@,
            EventKind::WithdrawalExecuted => "wd_exec"@,
            EventKind::WithdrawalCancelled => "wd_cncl"@,
            EventKind::TaskCancelled => "cancelled"@,
            EventKind::SnapshotRecorded => "snapshot"@,
            EventKind::TaskPurged => "purged"@,
            EventKind::ContractInitialized => "inited"@,
            EventKind::GuardianAdded => "gd_add"@,
            EventKind::GuardianRemoved => "gd_rm"@,
            EventKind::ReputationSet => "rep_set"@,
            EventKind::TokensLocked => "tk_lock"@,
            EventKind::TimelockStarted => "tm_start"@,
            EventKind::TokensUnlocked => "tk_unlk"@,
            EventKind::GuardianResigned => "gd_res"@,
            EventKind::ThresholdSet => "th_set"@,
            EventKind::VaultSet => "vault"@,
            EventKind::TaskRegistered => "reg"@,
            EventKind::TaskArchived => "archived"@,
            EventKind::CircuitBreakerReset => "cb_rst"@,
            EventKind::ContractUpgraded => "upgraded"@,
        }
    }

    /// Whether the data of this kind is a bare value rather than a tuple.
    pub open spec fn data_is_bare(self) -> bool {
        match self {
            EventKind::PauseToggled | EventKind::WithdrawalCancelled | EventKind::TaskCancelled | EventKind::SnapshotRecorded | EventKind::TaskPurged | EventKind::TaskArchived => true,
            _ => false,
        }
    }

    /// The types of the values in the data of this kind, in order.
    pub open spec fn data_fields(self) -> Seq<ValueKind> {
        match self {
            EventKind::TaskResolved => seq![ValueKind::U64, ValueKind::U64],
            EventKind::WeightedVote => seq![ValueKind::U64, ValueKind::Addr, ValueKind::U64],
            EventKind::PauseToggled => seq![ValueKind::Bool],
            EventKind::RewardStreamStarted => seq![ValueKind::U64, ValueKind::Addr],
            EventKind::RewardStreamFailed => seq![ValueKind::U64, ValueKind::Addr],
            EventKind::CircuitBreakerTriggered => seq![ValueKind::U32],
            EventKind::WithdrawalRequested => seq![ValueKind::U64, ValueKind::Addr, ValueKind::I128],
            EventKind::WithdrawalExecuted => seq![ValueKind::U64, ValueKind::Addr, ValueKind::I128],
            EventKind::WithdrawalCancelled => seq![ValueKind::U64],
            EventKind::TaskCancelled => seq![ValueKind::U64],
            EventKind::SnapshotRecorded => seq![ValueKind::U64],
            EventKind::TaskPurged => seq![ValueKind::U64],
            EventKind::ContractInitialized => seq![ValueKind::Addr],
            EventKind::GuardianAdded => seq![ValueKind::Addr, ValueKind::Addr],
            EventKind::GuardianRemoved => seq![ValueKind::Addr, ValueKind::Addr],
            EventKind::ReputationSet => seq![ValueKind::Addr, ValueKind::Addr, ValueKind::U64],
            EventKind::TokensLocked => seq![ValueKind::Addr, ValueKind::I128],
            EventKind::TimelockStarted => seq![ValueKind::Addr],
            EventKind::TokensUnlocked => seq![ValueKind::Addr, ValueKind::I128],
            EventKind::GuardianResigned => seq![ValueKind::Addr],
            EventKind::ThresholdSet => seq![ValueKind::Addr, ValueKind::U64],
            EventKind::VaultSet => seq![ValueKind::Addr, ValueKind::Addr],
            EventKind::TaskRegistered => seq![ValueKind::Addr, ValueKind::U64],
            EventKind::TaskArchived => seq![ValueKind::U64],
            EventKind::CircuitBreakerReset => seq![ValueKind::Addr],
            EventKind::ContractUpgraded => seq![ValueKind::Addr, ValueKind::Hash],
        }
    }

    /// The topic symbol under which events of this kind are published.
    pub fn topic(&self) -> (t: &'static str)
        ensures
            t@ == self.spec_topic(),
    {
        match self {
            EventKind::TaskResolved => "resolved",
            EventKind::WeightedVote => "wt_vote",
            EventKind::PauseToggled => "paused",
            EventKind::RewardStreamStarted => "rw_start",
            EventKind::RewardStreamFailed => "rw_fail",
            EventKind::CircuitBreakerTriggered => "cb_trip",
            EventKind::WithdrawalRequested => "wd_req",
            EventKind::WithdrawalExecuted => "wd_exec",
            EventKind::WithdrawalCancelled => "wd_cncl",
            EventKind::TaskCancelled => "cancelled",
            EventKind::SnapshotRecorded => "snapshot",
            EventKind::TaskPurged => "purged",
            EventKind::ContractInitialized => "inited",
            EventKind::GuardianAdded => "gd_add",
            EventKind::GuardianRemoved => "gd_rm",
            EventKind::ReputationSet => "rep_set",
            EventKind::TokensLocked => "tk_lock",
            EventKind::TimelockStarted => "tm_start",
            EventKind::TokensUnlocked => "tk_unlk",
            EventKind::GuardianResigned => "gd_res",
            EventKind::ThresholdSet => "th_set",
            EventKind::VaultSet => "vault",
            EventKind::TaskRegistered => "reg",
            EventKind::TaskArchived => "archived",
            EventKind::CircuitBreakerReset => "cb_rst",
            EventKind::ContractUpgraded => "upgraded",
        }
    }
}

/// An event to publish: its kind, which gives its topic, and its data.
#[derive(Clone, Debug, PartialEq, Eq)]
pub struct Event {
    pub kind: EventKind,
    pub data: Payload,
}

impl Event {
    /// The data has the shape that the kind prescribes: bare or a tuple, and
    /// values of the prescribed types in the prescribed order.
    pub open spec fn well_formed(self) -> bool {
        let fields = self.kind.data_fields();
        let values = self.data.values();
        &&& self.data.is_bare() == self.kind.data_is_bare()
        &&& values.len() == fields.len()
        &&& forall|i: int| 0 <= i < values.len() ==> (#[trigger] values[i]).kind() == fields[i]
    }

    /// The topic symbol under which this event is published.
    pub fn topic(&self) -> (t: &'static str)
        ensures
            t@ == self.kind.spec_topic(),
    {
        self.kind.topic()
    }
}

/// Every topic is a small symbol: at most nine characters from `[a-zA-Z0-9_]`,
/// so it is a valid argument of `symbol_short!` and is encoded without a host
/// object.
pub proof fn lemma_topic_is_short_symbol(k: EventKind)
    ensures
        is_short_symbol(k.spec_topic()),
{
    reveal_strlit("resolved");
    reveal_strlit("wt_vote");
    reveal_strlit("paused");
    reveal_strlit("rw_start");
    reveal_strlit("rw_fail");
    reveal_strlit("cb_trip");
    reveal_strlit("wd_req");
    reveal_strlit("wd_exec");
    reveal_strlit("wd_cncl");
    reveal_strlit("cancelled");
    reveal_strlit("snapshot");
    reveal_strlit("purged");
    reveal_strlit("inited");
    reveal_strlit("gd_add");
    reveal_strlit("gd_rm");
    reveal_strlit("rep_set");
    reveal_strlit("tk_lock");
    reveal_strlit("tm_start");
    reveal_strlit("tk_unlk");
    reveal_strlit("gd_res");
    reveal_strlit("th_set");
    reveal_strlit("vault");
    reveal_strlit("reg");
    reveal_strlit("archived");
    reveal_strlit("cb_rst");
    reveal_strlit("upgraded");
}

/// The topic identifies the kind: no two kinds of event share a topic, so a
/// reader of the event stream can tell events apart by their topic alone.
pub proof fn lemma_topic_identifies_kind(k1: EventKind, k2: EventKind)
    requires
        k1.spec_topic() == k2.spec_topic(),
    ensures
        k1 == k2,
{
    reveal_strlit("resolved");
    reveal_strlit("wt_vote");
    reveal_strlit("paused");
    reveal_strlit("rw_start");
    reveal_strlit("rw_fail");
    reveal_strlit("cb_trip");
    reveal_strlit("wd_req");
    reveal_strlit("wd_exec");
    reveal_strlit("wd_cncl");
    reveal_strlit("cancelled");
    reveal_strlit("snapshot");
    reveal_strlit("purged");
    reveal_strlit("inited");
    reveal_strlit("gd_add");
    reveal_strlit("gd_rm");
    reveal_strlit("rep_set");
    reveal_strlit("tk_lock");
    reveal_strlit("tm_start");
    reveal_strlit("tk_unlk");
    reveal_strlit("gd_res");
    reveal_strlit("th_set");
    reveal_strlit("vault");
    reveal_strlit("reg");
    reveal_strlit("archived");
    reveal_strlit("cb_rst");
    reveal_strlit("upgraded");
    match k1 {
        EventKind::TaskResolved => {
            assert(k2.spec_topic().len() == 8);
            assert(k2.spec_topic()[0] == 'r');
            assert(k2.spec_topic()[1] == 'e');
            assert(k2.spec_topic()[2] == 's');
            assert(k2.spec_topic()[3] == 'o');
            assert(k2.spec_topic()[4] == 'l');
            assert(k2.spec_topic()[5] == 'v');
            assert(k2.spec_topic()[6] == 'e');
            assert(k2.spec_topic()[7] == 'd');
            assert(k2 is TaskResolved);
        },
        EventKind::WeightedVote => {
            assert(k2.spec_topic().len() == 7);
            assert(k2.spec_topic()[0] == 'w');
            assert(k2.spec_topic()[1] == 't');
            assert(k2.spec_topic()[2] == '_');
            assert(k2.spec_topic()[3] == 'v');
            assert(k2.spec_topic()[4] == 'o');
            assert(k2.spec_topic()[5] == 't');
            assert(k2.spec_topic()[6] == 'e');
            assert(k2 is WeightedVote);
        },
        EventKind::PauseToggled => {
            assert(k2.spec_topic().len() == 6);
            assert(k2.spec_topic()[0] == 'p');
            assert(k2.spec_topic()[1] == 'a');
            assert(k2.spec_topic()[2] == 'u');
            assert(k2.spec_topic()[3] == 's');
            assert(k2.spec_topic()[4] == 'e');
            assert(k2.spec_topic()[5] == 'd');
            assert(k2 is PauseToggled);
        },
        EventKind::RewardStreamStarted => {
            assert(k2.spec_topic().len() == 8);
            assert(k2.spec_topic()[0] == 'r');
            assert(k2.spec_topic()[1] == 'w');
            assert(k2.spec_topic()[2] == '_');
            assert(k2.spec_topic()[3] == 's');
            assert(k2.spec_topic()[4] == 't');
            assert(k2.spec_topic()[5] == 'a');
            assert(k2.spec_topic()[6] == 'r');
            assert(k2.spec_topic()[7] == 't');
            assert(k2 is RewardStreamStarted);
        },
        EventKind::RewardStreamFailed => {
            assert(k2.spec_topic().len() == 7);
            assert(k2.spec_topic()[0] == 'r');
            assert(k2.spec_topic()[1] == 'w');
            assert(k2.spec_topic()[2] == '_');
            assert(k2.spec_topic()[3] == 'f');
            assert(k2.spec_topic()[4] == 'a');
            assert(k2.spec_topic()[5] == 'i');
            assert(k2.spec_topic()[6] == 'l');
            assert(k2 is RewardStreamFailed);
        },
        EventKind::CircuitBreakerTriggered => {
            assert(k2.spec_topic().len() == 7);
            assert(k2.spec_topic()[0] == 'c');
            assert(k2.spec_topic()[1] == 'b');
            assert(k2.spec_topic()[2] == '_');
            assert(k2.spec_topic()[3] == 't');
            assert(k2.spec_topic()[4] == 'r');
            assert(k2.spec_topic()[5] == 'i');
            assert(k2.spec_topic()[6] == 'p');
            assert(k2 is CircuitBreakerTriggered);
        },
        EventKind::WithdrawalRequested => {
            assert(k2.spec_topic().len() == 6);
            assert(k2.spec_topic()[0] == 'w');
            assert(k2.spec_topic()[1] == 'd');
            assert(k2.spec_topic()[2] == '_');
            assert(k2.spec_topic()[3] == 'r');
            assert(k2.spec_topic()[4] == 'e');
            assert(k2.spec_topic()[5] == 'q');
            assert(k2 is WithdrawalRequested);
        },
        EventKind::WithdrawalExecuted => {
            assert(k2.spec_topic().len() == 7);
            assert(k2.spec_topic()[0] == 'w');
            assert(k2.spec_topic()[1] == 'd');
            assert(k2.spec_topic()[2] == '_');
            assert(k2.spec_topic()[3] == 'e');
            assert(k2.spec_topic()[4] == 'x');
            assert(k2.spec_topic()[5] == 'e');
            assert(k2.spec_topic()[6] == 'c');
            assert(k2 is WithdrawalExecuted);
        },
        EventKind::WithdrawalCancelled => {
            assert(k2.spec_topic().len() == 7);
            assert(k2.spec_topic()[0] == 'w');
            assert(k2.spec_topic()[1] == 'd');
            assert(k2.spec_topic()[2] == '_');
            assert(k2.spec_topic()[3] == 'c');
            assert(k2.spec_topic()[4] == 'n');
            assert(k2.spec_topic()[5] == 'c');
            assert(k2.spec_topic()[6] == 'l');
            assert(k2 is WithdrawalCancelled);
        },
        EventKind::TaskCancelled => {
            assert(k2.spec_topic().len() == 9);
            assert(k2.spec_topic()[0] == 'c');
            assert(k2.spec_topic()[1] == 'a');
            assert(k2.spec_topic()[2] == 'n');
            assert(k2.spec_topic()[3] == 'c');
            assert(k2.spec_topic()[4] == 'e');
            assert(k2.spec_topic()[5] == 'l');
            assert(k2.spec_topic()[6] == 'l');
            assert(k2.spec_topic()[7] == 'e');
            assert(k2.spec_topic()[8] == 'd');
            assert(k2 is TaskCancelled);
        },
        EventKind::SnapshotRecorded => {
            assert(k2.spec_topic().len() == 8);
            assert(k2.spec_topic()[0] == 's');
            assert(k2.spec_topic()[1] == 'n');
            assert(k2.spec_topic()[2] == 'a');
            assert(k2.spec_topic()[3] == 'p');
            assert(k2.spec_topic()[4] == 's');
            assert(k2.spec_topic()[5] == 'h');
            assert(k2.spec_topic()[6] == 'o');
            assert(k2.spec_topic()[7] == 't');
            assert(k2 is SnapshotRecorded);
        },
        EventKind::TaskPurged => {
            assert(k2.spec_topic().len() == 6);
            assert(k2.spec_topic()[0] == 'p');
            assert(k2.spec_topic()[1] == 'u');
            assert(k2.spec_topic()[2] == 'r');
            assert(k2.spec_topic()[3] == 'g');
            assert(k2.spec_topic()[4] == 'e');
            assert(k2.spec_topic()[5] == 'd');
            assert(k2 is TaskPurged);
        },
        EventKind::ContractInitialized => {
            assert(k2.spec_topic().len() == 6);
            assert(k2.spec_topic()[0] == 'i');
            assert(k2.spec_topic()[1] == 'n');
            assert(k2.spec_topic()[2] == 'i');
            assert(k2.spec_topic()[3] == 't');
            assert(k2.spec_topic()[4] == 'e');
            assert(k2.spec_topic()[5] == 'd');
            assert(k2 is ContractInitialized);
        },
        EventKind::GuardianAdded => {
            assert(k2.spec_topic().len() == 6);
            assert(k2.spec_topic()[0] == 'g');
            assert(k2.spec_topic()[1] == 'd');
            assert(k2.spec_topic()[2] == '_');
            assert(k2.spec_topic()[3] == 'a');
            assert(k2.spec_topic()[4] == 'd');
            assert(k2.spec_topic()[5] == 'd');
            assert(k2 is GuardianAdded);
        },
        EventKind::GuardianRemoved => {
            assert(k2.spec_topic().len() == 5);
            assert(k2.spec_topic()[0] == 'g');
            assert(k2.spec_topic()[1] == 'd');
            assert(k2.spec_topic()[2] == '_');
            assert(k2.spec_topic()[3] == 'r');
            assert(k2.spec_topic()[4] == 'm');
            assert(k2 is GuardianRemoved);
        },
        EventKind::ReputationSet => {
            assert(k2.spec_topic().len() == 7);
            assert(k2.spec_topic()[0] == 'r');
            assert(k2.spec_topic()[1] == 'e');
            assert(k2.spec_topic()[2] == 'p');
            assert(k2.spec_topic()[3] == '_');
            assert(k2.spec_topic()[4] == 's');
            assert(k2.spec_topic()[5] == 'e');
            assert(k2.spec_topic()[6] == 't');
            assert(k2 is ReputationSet);
        },
        EventKind::TokensLocked => {
            assert(k2.spec_topic().len() == 7);
            assert(k2.spec_topic()[0] == 't');
            assert(k2.spec_topic()[1] == 'k');
            assert(k2.spec_topic()[2] == '_');
            assert(k2.spec_topic()[3] == 'l');
            assert(k2.spec_topic()[4] == 'o');
            assert(k2.spec_topic()[5] == 'c');
            assert(k2.spec_topic()[6] == 'k');
            assert(k2 is TokensLocked);
        },
        EventKind::TimelockStarted => {
            assert(k2.spec_topic().len() == 8);
            assert(k2.spec_topic()[0] == 't');
            assert(k2.spec_topic()[1] == 'm');
            assert(k2.spec_topic()[2] == '_');
            assert(k2.spec_topic()[3] == 's');
            assert(k2.spec_topic()[4] == 't');
            assert(k2.spec_topic()[5] == 'a');
            assert(k2.spec_topic()[6] == 'r');
            assert(k2.spec_topic()[7] == 't');
            assert(k2 is TimelockStarted);
        },
        EventKind::TokensUnlocked => {
            assert(k2.spec_topic().len() == 7);
            assert(k2.spec_topic()[0] == 't');
            assert(k2.spec_topic()[1] == 'k');
            assert(k2.spec_topic()[2] == '_');
            assert(k2.spec_topic()[3] == 'u');
            assert(k2.spec_topic()[4] == 'n');
            assert(k2.spec_topic()[5] == 'l');
            assert(k2.spec_topic()[6] == 'k');
            assert(k2 is TokensUnlocked);
        },
        EventKind::GuardianResigned => {
            assert(k2.spec_topic().len() == 6);
            assert(k2.spec_topic()[0] == 'g');
            assert(k2.spec_topic()[1] == 'd');
            assert(k2.spec_topic()[2] == '_');
            assert(k2.spec_topic()[3] == 'r');
            assert(k2.spec_topic()[4] == 'e');
            assert(k2.spec_topic()[5] == 's');
            assert(k2 is GuardianResigned);
        },
        EventKind::ThresholdSet => {
            assert(k2.spec_topic().len() == 6);
            assert(k2.spec_topic()[0] == 't');
            assert(k2.spec_topic()[1] == 'h');
            assert(k2.spec_topic()[2] == '_');
            assert(k2.spec_topic()[3] == 's');
            assert(k2.spec_topic()[4] == 'e');
            assert(k2.spec_topic()[5] == 't');
            assert(k2 is ThresholdSet);
        },
        EventKind::VaultSet => {
            assert(k2.spec_topic().len() == 5);
            assert(k2.spec_topic()[0] == 'v');
            assert(k2.spec_topic()[1] == 'a');
            assert(k2.spec_topic()[2] == 'u');
            assert(k2.spec_topic()[3] == 'l');
            assert(k2.spec_topic()[4] == 't');
            assert(k2 is VaultSet);
        },
        EventKind::TaskRegistered => {
            assert(k2.spec_topic().len() == 3);
            assert(k2.spec_topic()[0] == 'r');
            assert(k2.spec_topic()[1] == 'e');
            assert(k2.spec_topic()[2] == 'g');
            assert(k2 is TaskRegistered);
        },
        EventKind::TaskArchived => {
            assert(k2.spec_topic().len() == 8);
            assert(k2.spec_topic()[0] == 'a');
            assert(k2.spec_topic()[1] == 'r');
            assert(k2.spec_topic()[2] == 'c');
            assert(k2.spec_topic()[3] == 'h');
            assert(k2.spec_topic()[4] == 'i');
            assert(k2.spec_topic()[5] == 'v');
            assert(k2.spec_topic()[6] == 'e');
            assert(k2.spec_topic()[7] == 'd');
            assert(k2 is TaskArchived);
        },
        EventKind::CircuitBreakerReset => {
            assert(k2.spec_topic().len() == 6);
            assert(k2.spec_topic()[0] == 'c');
            assert(k2.spec_topic()[1] == 'b');
            assert(k2.spec_topic()[2] == '_');
            assert(k2.spec_topic()[3] == 'r');
            assert(k2.spec_topic()[4] == 's');
            assert(k2.spec_topic()[5] == 't');
            assert(k2 is CircuitBreakerReset);
        },
        EventKind::ContractUpgraded => {
            assert(k2.spec_topic().len() == 8);
            assert(k2.spec_topic()[0] == 'u');
            assert(k2.spec_topic()[1] == 'p');
            assert(k2.spec_topic()[2] == 'g');
            assert(k2.spec_topic()[3] == 'r');
            assert(k2.spec_topic()[4] == 'a');
            assert(k2.spec_topic()[5] == 'd');
            assert(k2.spec_topic()[6] == 'e');
            assert(k2.spec_topic()[7] == 'd');
            assert(k2 is ContractUpgraded);
        },
    }
}

} // verus!
