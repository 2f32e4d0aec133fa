//! The key-value store as this library sees it: commands that a caller
//! carries out, the replies it brings back, and a model of what the store
//! holds, against which sequences of commands can be reasoned about.
//!
//! A request is handled in steps. Each step either names one command and
//! the state in which its reply is awaited, or finishes with an outcome.

use crate::consts::redis::PONG_CMD;
use vstd::prelude::*;

verus! {

/// One sample for the time-series append.
#[derive(Debug, PartialEq, Eq)]
pub struct Sample {
    /// The series the sample goes to.
    pub key: String,
    /// Unix seconds.
    pub timestamp: i64,
    /// The bits of the measured value, an IEEE 754 double.
    pub value_bits: u64,
    /// Value of the series' device label.
    pub device_id: String,
    /// Value of the series' domain label.
    pub domain: String,
}

/// What a [`Sample`] holds.
pub struct SampleModel {
    pub key: Seq<char>,
    pub timestamp: i64,
    pub value_bits: u64,
    pub device_id: Seq<char>,
    pub domain: Seq<char>,
}

impl View for Sample {
    type V = SampleModel;

    open spec fn view(&self) -> SampleModel {
        SampleModel {
            key: self.key@,
            timestamp: self.timestamp,
            value_bits: self.value_bits,
            device_id: self.device_id@,
            domain: self.domain@,
        }
    }
}

/// One command to the store.
#[derive(Debug, PartialEq, Eq)]
pub enum StoreCommand {
    /// Does a record exist under `key`?
    Exists { key: String },
    /// Write `value` under `key`, replacing what was there.
    Put { key: String, value: String },
    /// Read the value under `key`.
    Get { key: String },
    /// Remove the record under `key`.
    Delete { key: String },
    /// Make `member` a member of the set `set`.
    AddToSet { set: String, member: String },
    /// Take `member` out of the set `set`.
    RemoveFromSet { set: String, member: String },
    /// How many members has the set `set`?
    SetCardinality { set: String },
    /// List the members of the set `set`.
    SetMembers { set: String },
    /// Append one sample, with its labels, to its series.
    Append(Sample),
    /// Ask the store whether it is there.
    Ping,
}

/// What a [`StoreCommand`] holds.
pub enum CommandModel {
    Exists { key: Seq<char> },
    Put { key: Seq<char>, value: Seq<char> },
    Get { key: Seq<char> },
    Delete { key: Seq<char> },
    AddToSet { set: Seq<char>, member: Seq<char> },
    RemoveFromSet { set: Seq<char>, member: Seq<char> },
    SetCardinality { set: Seq<char> },
    SetMembers { set: Seq<char> },
    Append(SampleModel),
    Ping,
}

impl View for StoreCommand {
    type V = CommandModel;

    open spec fn view(&self) -> CommandModel {
        match *self {
            StoreCommand::Exists { key } => CommandModel::Exists { key: key@ },
            StoreCommand::Put { key, value } => CommandModel::Put { key: key@, value: value@ },
            StoreCommand::Get { key } => CommandModel::Get { key: key@ },
            StoreCommand::Delete { key } => CommandModel::Delete { key: key@ },
            StoreCommand::AddToSet { set, member } => CommandModel::AddToSet {
                set: set@,
                member: member@,
            },
            StoreCommand::RemoveFromSet { set, member } => CommandModel::RemoveFromSet {
                set: set@,
                member: member@,
            },
            StoreCommand::SetCardinality { set } => CommandModel::SetCardinality { set: set@ },
            StoreCommand::SetMembers { set } => CommandModel::SetMembers { set: set@ },
            StoreCommand::Append(sample) => CommandModel::Append(sample@),
            StoreCommand::Ping => CommandModel::Ping,
        }
    }
}

/// What came back for a command.
#[derive(Debug, PartialEq, Eq)]
pub enum StoreReply {
    /// No connection to the store could be had; the command was not sent.
    NoConnection,
    /// The store reported an error, or answered in a shape that the command
    /// does not have.
    CommandFailed,
    /// The command was carried out; its answer holds nothing to read.
    Done,
    /// A yes or no.
    Flag(bool),
    /// A count.
    Count(usize),
    /// A text value.
    Text(String),
    /// The members of a set, in the order the store gave them.
    Members(Vec<String>),
}

/// What a [`StoreReply`] holds.
pub enum ReplyModel {
    NoConnection,
    CommandFailed,
    Done,
    Flag(bool),
    Count(nat),
    Text(Seq<char>),
    Members(Seq<Seq<char>>),
}

impl ReplyModel {
    /// Whether the command failed: no connection, or an error from the store.
    pub open spec fn is_failure(self) -> bool {
        self is NoConnection || self is CommandFailed
    }
}

impl View for StoreReply {
    type V = ReplyModel;

    open spec fn view(&self) -> ReplyModel {
        match *self {
            StoreReply::NoConnection => ReplyModel::NoConnection,
            StoreReply::CommandFailed => ReplyModel::CommandFailed,
            StoreReply::Done => ReplyModel::Done,
            StoreReply::Flag(flag) => ReplyModel::Flag(flag),
            StoreReply::Count(count) => ReplyModel::Count(count as nat),
            StoreReply::Text(text) => ReplyModel::Text(text@),
            StoreReply::Members(members) => ReplyModel::Members(members.deep_view()),
        }
    }
}

impl StoreReply {
    /// Whether the command failed: no connection, or an error from the store.
    pub fn is_failure(&self) -> (failed: bool)
        ensures
            failed == self@.is_failure(),
    {
        match self {
            StoreReply::NoConnection => true,
            StoreReply::CommandFailed => true,
            _ => false,
        }
    }
}

/// One step of handling a request: a command to carry out, with the state in
/// which its reply is awaited, or the outcome.
#[derive(Debug, PartialEq, Eq)]
pub enum Step<S, T> {
    Call { command: StoreCommand, state: S },
    Finish(T),
}

/// What a [`Step`] holds.
pub enum StepModel<S, T> {
    Call { command: CommandModel, state: S },
    Finish(T),
}

impl<S: View, T: View> View for Step<S, T> {
    type V = StepModel<S::V, T::V>;

    open spec fn view(&self) -> StepModel<S::V, T::V> {
        match *self {
            Step::Call { command, state } => StepModel::Call { command: command@, state: state@ },
            Step::Finish(outcome) => StepModel::Finish(outcome@),
        }
    }
}

/// What the store holds: text records by key, sets of texts by name, and
/// series of samples by key.
pub struct StoreModel {
    pub records: Map<Seq<char>, Seq<char>>,
    pub sets: Map<Seq<char>, Set<Seq<char>>>,
    pub series: Map<Seq<char>, Seq<SampleModel>>,
}

impl StoreModel {
    /// A store in which nothing was written yet.
    pub open spec fn empty() -> StoreModel {
        StoreModel { records: Map::empty(), sets: Map::empty(), series: Map::empty() }
    }

    /// Every set in the store is finite.
    pub open spec fn well_formed(self) -> bool {
        forall|name: Seq<char>| #[trigger] self.sets.contains_key(name) ==> self.sets[name].finite()
    }

    /// The members of the set `name`; a set never written to has none.
    pub open spec fn members(self, name: Seq<char>) -> Set<Seq<char>> {
        if self.sets.contains_key(name) {
            self.sets[name]
        } else {
            Set::empty()
        }
    }

    /// The samples of the series `key`, oldest first.
    pub open spec fn samples(self, key: Seq<char>) -> Seq<SampleModel> {
        if self.series.contains_key(key) {
            self.series[key]
        } else {
            Seq::empty()
        }
    }

    /// The store after a working store has carried out `command`, and its
    /// reply.
    pub open spec fn respond(self, command: CommandModel) -> (StoreModel, ReplyModel) {
        match command {
            CommandModel::Exists { key } => (self, ReplyModel::Flag(self.records.contains_key(key))),
            CommandModel::Put { key, value } => (
                StoreModel { records: self.records.insert(key, value), ..self },
                ReplyModel::Done,
            ),
            CommandModel::Get { key } => if self.records.contains_key(key) {
                (self, ReplyModel::Text(self.records[key]))
            } else {
                (self, ReplyModel::CommandFailed)
            },
            CommandModel::Delete { key } => (
                StoreModel { records: self.records.remove(key), ..self },
                ReplyModel::Done,
            ),
            CommandModel::AddToSet { set, member } => (
                StoreModel { sets: self.sets.insert(set, self.members(set).insert(member)), ..self },
                ReplyModel::Done,
            ),
            CommandModel::RemoveFromSet { set, member } => (
                StoreModel { sets: self.sets.insert(set, self.members(set).remove(member)), ..self },
                ReplyModel::Done,
            ),
            CommandModel::SetCardinality { set } => (
                self,
                ReplyModel::Count(self.members(set).len()),
            ),
            CommandModel::SetMembers { set } => (
                self,
                ReplyModel::Members(self.members(set).to_seq()),
            ),
            CommandModel::Append(sample) => (
                StoreModel {
                    series: self.series.insert(sample.key, self.samples(sample.key).push(sample)),
                    ..self
                },
                ReplyModel::Done,
            ),
            CommandModel::Ping => (self, ReplyModel::Text(PONG_CMD@)),
        }
    }
}

/// Handling a request against a working store: from `step` on, each command
/// is answered by [`StoreModel::respond`] and the reply handed to `resume`,
/// for at most `fuel` commands. Gives the store afterwards and the outcome,
/// if it was reached.
pub open spec fn run<S, T>(
    store: StoreModel,
    step: StepModel<S, T>,
    resume: spec_fn(S, ReplyModel) -> StepModel<S, T>,
    fuel: nat,
) -> (StoreModel, Option<T>)
    decreases fuel,
{
    match step {
        StepModel::Finish(outcome) => (store, Some(outcome)),
        StepModel::Call { command, state } => {
            if fuel == 0 {
                (store, None)
            } else {
                let (next, reply) = store.respond(command);
                run(next, resume(state, reply), resume, (fuel - 1) as nat)
            }
        },
    }
}

/// Commands keep the store well formed.
pub proof fn lemma_respond_well_formed(store: StoreModel, command: CommandModel)
    requires
        store.well_formed(),
    ensures
        store.respond(command).0.well_formed(),
{
    let next = store.respond(command).0;
    assert forall|name: Seq<char>| #[trigger] next.sets.contains_key(name) implies next.sets[name].finite() by {
        if store.sets.contains_key(name) {
            assert(store.sets[name].finite());
        }
    }
}

} // verus!
