//! The process registry: a keyed store of worker records.

use crate::helper::text::same_text;
use std::collections::HashMap;
use vstd::prelude::*;
use vstd::string::StringExecFns;

verus! {

/// Which measurement a metric command carries.
#[derive(Debug, Clone, Copy, PartialEq, Eq, Structural)]
pub enum MetricType {
    Cpu,
    Memory,
}

/// Which profile an action command asks for.
#[derive(Debug, Clone, Copy, PartialEq, Eq, Structural)]
pub enum ActionType {
    GetCpuProfile,
    GetMemoryProfile,
}

/// The discriminator of a command.
#[derive(Debug, Clone, Copy, PartialEq, Eq, Structural)]
pub enum CommandType {
    Action,
    Metric,
}

impl MetricType {
    /// The name on the wire.
    pub open spec fn name(self) -> Seq<char> {
        match self {
            MetricType::Cpu => "cpu"@,
            MetricType::Memory => "memory"@,
        }
    }

    /// The metric type that `text` names.
    pub open spec fn named(text: Seq<char>) -> Option<MetricType> {
        if text == "cpu"@ {
            Some(MetricType::Cpu)
        } else if text == "memory"@ {
            Some(MetricType::Memory)
        } else {
            None
        }
    }

    /// Every metric type is named by its own name.
    pub proof fn name_round_trip(self)
        ensures
            MetricType::named(self.name()) == Some(self),
    {
        reveal_strlit("cpu");
        reveal_strlit("memory");
        assert("cpu"@.len() != "memory"@.len());
    }

    /// The name on the wire.
    pub fn to_string(&self) -> (text: String)
        ensures
            text@ == self.name(),
    {
        match self {
            MetricType::Cpu => String::from_str("cpu"),
            MetricType::Memory => String::from_str("memory"),
        }
    }

    /// The metric type that `text` names.
    pub fn from_name(text: &str) -> (found: Option<MetricType>)
        ensures
            found == MetricType::named(text@),
    {
        if same_text(text, "cpu") {
            Some(MetricType::Cpu)
        } else if same_text(text, "memory") {
            Some(MetricType::Memory)
        } else {
            None
        }
    }
}

impl ActionType {
    /// The name on the wire.
    pub open spec fn name(self) -> Seq<char> {
        match self {
            ActionType::GetCpuProfile => "get_cpu_profile"@,
            ActionType::GetMemoryProfile => "get_memory_profile"@,
        }
    }

    /// The action type that `text` names.
    pub open spec fn named(text: Seq<char>) -> Option<ActionType> {
        if text == "get_cpu_profile"@ {
            Some(ActionType::GetCpuProfile)
        } else if text == "get_memory_profile"@ {
            Some(ActionType::GetMemoryProfile)
        } else {
            None
        }
    }

    /// Every action type is named by its own name.
    pub proof fn name_round_trip(self)
        ensures
            ActionType::named(self.name()) == Some(self),
    {
        reveal_strlit("get_cpu_profile");
        reveal_strlit("get_memory_profile");
        assert("get_cpu_profile"@.len() != "get_memory_profile"@.len());
    }

    /// The name on the wire.
    pub fn to_string(&self) -> (text: String)
        ensures
            text@ == self.name(),
    {
        match self {
            ActionType::GetCpuProfile => String::from_str("get_cpu_profile"),
            ActionType::GetMemoryProfile => String::from_str("get_memory_profile"),
        }
    }

    /// The action type that `text` names.
    pub fn from_name(text: &str) -> (found: Option<ActionType>)
        ensures
            found == ActionType::named(text@),
    {
        if same_text(text, "get_cpu_profile") {
            Some(ActionType::GetCpuProfile)
        } else if same_text(text, "get_memory_profile") {
            Some(ActionType::GetMemoryProfile)
        } else {
            None
        }
    }
}

impl CommandType {
    /// The name on the wire.
    pub open spec fn name(self) -> Seq<char> {
        match self {
            CommandType::Action => "action"@,
            CommandType::Metric => "metric"@,
        }
    }

    /// The command type that `text` names.
    pub open spec fn named(text: Seq<char>) -> Option<CommandType> {
        if text == "action"@ {
            Some(CommandType::Action)
        } else if text == "metric"@ {
            Some(CommandType::Metric)
        } else {
            None
        }
    }

    /// Every command type is named by its own name.
    pub proof fn name_round_trip(self)
        ensures
            CommandType::named(self.name()) == Some(self),
    {
        reveal_strlit("action");
        reveal_strlit("metric");
        assert("action"@[0] != "metric"@[0]);
    }

    /// The name on the wire.
    pub fn to_string(&self) -> (text: String)
        ensures
            text@ == self.name(),
    {
        match self {
            CommandType::Action => String::from_str("action"),
            CommandType::Metric => String::from_str("metric"),
        }
    }

    /// The command type that `text` names.
    pub fn from_name(text: &str) -> (found: Option<CommandType>)
        ensures
            found == CommandType::named(text@),
    {
        if same_text(text, "action") {
            Some(CommandType::Action)
        } else if same_text(text, "metric") {
            Some(CommandType::Metric)
        } else {
            None
        }
    }
}

/// The data of a memory metric.
pub struct MemoryMetricData {
    pub memory: u64,
}

/// The parameters of a CPU profile.
pub struct GetCpuProfileActionData {
    pub duration: i32,
    pub interval: i32,
}

/// The parameters of a memory profile.
pub struct GetMemoryProfileActionData {
    pub duration: i32,
}

/// A metric command in full.
#[derive(Debug, Clone, Copy, PartialEq, Eq, Structural)]
pub struct ProcessMetricInfo {
    pub process_id: u16,
    pub thread_id: Option<u16>,
    pub metric_type: MetricType,
    pub command_type: CommandType,
}

/// An action command in full.
#[derive(Debug, Clone, Copy, PartialEq, Eq, Structural)]
pub struct ProcessActionInfo {
    pub process_id: u16,
    pub thread_id: Option<u16>,
    pub action_type: ActionType,
    pub command_type: CommandType,
}

/// The part of a command that is read first: its discriminator.
#[derive(Debug, Clone, Copy, PartialEq, Eq, Structural)]
pub struct BaseCommandData {
    pub command_type: CommandType,
}

/// What the registry knows of one worker.
#[derive(Debug, Clone, Copy, PartialEq, Eq, Structural)]
pub struct ProcessStore {
    /// The port the worker has bound locally.
    pub uds_port: u16,
    /// Seconds since the Unix epoch at the worker's last heartbeat.
    pub latest_heartbeat_time: u64,
}

/// A partial update of a worker record: a field that is `None` keeps its
/// stored value.
#[derive(Debug, Clone, Copy, PartialEq, Eq, Structural)]
pub struct PartialProcessStore {
    pub uds_port: Option<u16>,
    pub latest_heartbeat_time: Option<u64>,
}

/// The record that results from laying `partial` over `record`.
pub open spec fn merged(record: ProcessStore, partial: PartialProcessStore) -> ProcessStore {
    ProcessStore {
        uds_port: match partial.uds_port {
            Some(port) => port,
            None => record.uds_port,
        },
        latest_heartbeat_time: match partial.latest_heartbeat_time {
            Some(secs) => secs,
            None => record.latest_heartbeat_time,
        },
    }
}

/// The registry after a merge-update of `key`: a stored record is merged, a
/// missing one is not created.
pub open spec fn updated(
    records: Map<u16, ProcessStore>,
    key: u16,
    partial: PartialProcessStore,
) -> Map<u16, ProcessStore> {
    if records.contains_key(key) {
        records.insert(key, merged(records[key], partial))
    } else {
        records
    }
}

/// The registry of workers, keyed by process id.
#[derive(Debug)]
pub struct Store {
    data: HashMap<u16, ProcessStore>,
}

impl View for Store {
    type V = Map<u16, ProcessStore>;

    closed spec fn view(&self) -> Map<u16, ProcessStore> {
        self.data@
    }
}

impl Store {
    /// An empty registry.
    pub fn new() -> (store: Store)
        ensures
            store@ == Map::<u16, ProcessStore>::empty(),
    {
        Store { data: HashMap::new() }
    }

    /// The records as they stand.
    pub fn get_data(&self) -> (records: &HashMap<u16, ProcessStore>)
        ensures
            records@ == self@,
    {
        &self.data
    }

    /// Stores `value` under `key`, replacing any record that was there.
    pub fn set(&mut self, key: &u16, value: ProcessStore)
        ensures
            final(self)@ == old(self)@.insert(*key, value),
    {
        broadcast use vstd::std_specs::hash::group_hash_axioms;

        self.data.insert(*key, value);
    }

    /// Merges `value` into the record stored under `key`. Without such a
    /// record nothing changes.
    pub fn update(&mut self, key: &u16, value: PartialProcessStore)
        ensures
            final(self)@ == updated(old(self)@, *key, value),
    {
        broadcast use vstd::std_specs::hash::group_hash_axioms;

        let stored = match self.data.get(key) {
            Some(record) => Some(*record),
            None => None,
        };
        if let Some(record) = stored {
            let next = ProcessStore {
                uds_port: match value.uds_port {
                    Some(port) => port,
                    None => record.uds_port,
                },
                latest_heartbeat_time: match value.latest_heartbeat_time {
                    Some(secs) => secs,
                    None => record.latest_heartbeat_time,
                },
            };
            self.data.insert(*key, next);
        }
    }

    /// A copy of the record stored under `pid`.
    pub fn get(&self, pid: &u16) -> (found: Option<ProcessStore>)
        ensures
            found == (if self@.contains_key(*pid) {
                Some(self@[*pid])
            } else {
                None
            }),
    {
        broadcast use vstd::std_specs::hash::group_hash_axioms;

        match self.data.get(pid) {
            Some(record) => Some(*record),
            None => None,
        }
    }

    /// Deletes the record stored under `pid` and returns it.
    pub fn remove(&mut self, pid: &u16) -> (removed: Option<ProcessStore>)
        ensures
            final(self)@ == old(self)@.remove(*pid),
            removed == (if old(self)@.contains_key(*pid) {
                Some(old(self)@[*pid])
            } else {
                None
            }),
    {
        broadcast use vstd::std_specs::hash::group_hash_axioms;

        self.data.remove(pid)
    }
}

/// A merge-update of a stored record replaces exactly the fields that the
/// partial update carries and keeps the others; every other record, and the
/// set of keys, stay as they were. A merge-update of a key without a record
/// leaves the registry unchanged, so the key is still not found.
pub proof fn merge_update_law(records: Map<u16, ProcessStore>, id: u16, partial: PartialProcessStore)
    ensures
        records.contains_key(id) ==> {
            let after = updated(records, id, partial);
            &&& after.dom() == records.dom()
            &&& after[id].uds_port == (match partial.uds_port {
                Some(port) => port,
                None => records[id].uds_port,
            })
            &&& after[id].latest_heartbeat_time == (match partial.latest_heartbeat_time {
                Some(secs) => secs,
                None => records[id].latest_heartbeat_time,
            })
            &&& forall|other: u16| other != id && records.contains_key(other) ==> after[other] == records[other]
        },
        !records.contains_key(id) ==> {
            &&& updated(records, id, partial) == records
            &&& !updated(records, id, partial).contains_key(id)
        },
{
    if records.contains_key(id) {
        assert(updated(records, id, partial).dom() =~= records.dom());
    }
}

/// Of two inserts under one key the last one wins: the registry is as if only
/// the second had been made, and a lookup finds the second record.
pub proof fn insert_overwrites_law(
    records: Map<u16, ProcessStore>,
    id: u16,
    first: ProcessStore,
    second: ProcessStore,
)
    ensures
        records.insert(id, first).insert(id, second) == records.insert(id, second),
        records.insert(id, first).insert(id, second).contains_key(id),
        records.insert(id, first).insert(id, second)[id] == second,
{
    assert(records.insert(id, first).insert(id, second) =~= records.insert(id, second));
}

/// After an insert, a removal of the same key finds the inserted record and
/// leaves the key not found; a removal of a key without a record changes
/// nothing.
pub proof fn removal_law(records: Map<u16, ProcessStore>, id: u16, record: ProcessStore)
    ensures
        records.insert(id, record).contains_key(id),
        records.insert(id, record)[id] == record,
        !records.insert(id, record).remove(id).contains_key(id),
        !records.contains_key(id) ==> records.remove(id) == records,
        !records.contains_key(id) ==> records.insert(id, record).remove(id) == records,
{
    if !records.contains_key(id) {
        assert(records.remove(id) =~= records);
        assert(records.insert(id, record).remove(id) =~= records);
    }
}

} // verus!
