//! The sync engine: decides, entry by entry, whether the remote store needs a
//! write, and records a per-entry outcome.
//!
//! The engine never talks to the store itself. It publishes the next store
//! action it needs ([`SyncEngine::next_action`]), and the caller performs that
//! action and hands the store's answer back ([`SyncEngine::step`]). Each entry
//! moves through fetch, an update decision, and at most one conditional
//! write; a failure on one entry is recorded and never stops the entries
//! after it.

use vstd::prelude::*;

use crate::parameter::{GetRequest, Parameter, PutRequest};

verus! {

/// The field of a fetch response that turned out to be absent, making the
/// response malformed.
#[derive(Clone, Copy, Debug, PartialEq, Eq, Structural)]
pub enum ResponseField {
    /// The response carried no parameter record at all.
    Parameter,
    /// The parameter record carried no value.
    Value,
}

/// A store-side failure, recorded in the failing entry's outcome.
#[derive(Clone, Debug, PartialEq)]
pub enum StoreError {
    /// The fetch or upsert failed outright: credentials, network or
    /// permissions. Distinct from a missing name, which is no error at all.
    Transport {
        /// The store's diagnostic, passed through opaquely.
        message: String,
    },
    /// The fetch succeeded but the response was missing a required field, so
    /// no existing value could be read.
    MissingResponseField {
        /// The first absent field.
        field: ResponseField,
    },
    /// The store rejected the upsert.
    WriteRejected {
        /// The store's diagnostic, passed through opaquely.
        message: String,
    },
}

impl StoreError {
    /// The diagnostic text of this failure.
    pub open spec fn spec_message(self) -> Seq<char> {
        match self {
            StoreError::Transport { message } => message@,
            StoreError::MissingResponseField { field } => match field {
                ResponseField::Parameter => "fetch response held no parameter"@,
                ResponseField::Value => "fetch response parameter held no value"@,
            },
            StoreError::WriteRejected { message } => message@,
        }
    }

    /// Returns the diagnostic text of this failure.
    pub fn message(&self) -> (r: String)
        ensures
            r@ == self.spec_message(),
    {
        match self {
            StoreError::Transport { message } => message.clone(),
            StoreError::MissingResponseField { field } => match field {
                ResponseField::Parameter => "fetch response held no parameter".to_owned(),
                ResponseField::Value => "fetch response parameter held no value".to_owned(),
            },
            StoreError::WriteRejected { message } => message.clone(),
        }
    }
}

/// The parameter record inside a successful fetch response.
#[derive(Clone, Debug, PartialEq)]
pub struct FetchedParameter {
    /// The stored value, if the store reported one.
    pub value: Option<String>,
}

/// The body of a successful fetch response, mirroring the store's answer
/// shape: both the record and its value are optional on the wire.
#[derive(Clone, Debug, PartialEq)]
pub struct FetchResponse {
    /// The parameter record, if the store reported one.
    pub parameter: Option<FetchedParameter>,
}

/// What the store answered to a fetch request.
#[derive(Clone, Debug, PartialEq)]
pub enum FetchEvent {
    /// The fetch succeeded and this is its response body.
    Response(FetchResponse),
    /// The store holds nothing under the requested name. No error: the entry
    /// simply needs writing.
    NotFound,
    /// The fetch failed outright: credentials, network or permissions.
    Transport {
        /// The store's diagnostic, passed through opaquely.
        message: String,
    },
}

/// What the store answered to an upsert request.
#[derive(Clone, Debug, PartialEq)]
pub enum UpsertEvent {
    /// The store accepted the write.
    Accepted,
    /// The store rejected the write.
    Rejected {
        /// The store's diagnostic, passed through opaquely.
        message: String,
    },
}

/// What the engine concluded about one entry's fetch.
#[derive(Clone, Debug, PartialEq)]
pub enum Decision {
    /// The store already holds exactly the entry's value: nothing to write.
    UpToDate,
    /// The value is absent or differs: one upsert is needed.
    NeedsWrite,
    /// The fetch failed or its response was malformed: the entry fails
    /// without a write attempt.
    FetchFailed {
        /// The failure to record.
        error: StoreError,
    },
}

/// The per-entry result of a sync run.
#[derive(Clone, Debug, PartialEq)]
pub enum Outcome {
    /// The entry's value is in the store, either untouched or freshly
    /// written.
    Success {
        /// The entry's name.
        name: String,
    },
    /// The entry could not be brought up to date.
    Failure {
        /// The entry's name.
        name: String,
        /// What went wrong.
        error: StoreError,
    },
}

impl Outcome {
    /// The name of the entry this outcome belongs to.
    pub open spec fn spec_name(self) -> String {
        match self {
            Outcome::Success { name } => name,
            Outcome::Failure { name, .. } => name,
        }
    }

    /// Returns the name of the entry this outcome belongs to.
    pub fn name(&self) -> (r: &String)
        ensures
            *r == self.spec_name(),
    {
        match self {
            Outcome::Success { name } => name,
            Outcome::Failure { name, .. } => name,
        }
    }
}

impl Parameter {
    /// Whether this entry needs a write, given what the store answered to its
    /// fetch: `Ok(true)` when the name is absent or the stored value differs
    /// from `value` (exact comparison, case-sensitive, no normalization),
    /// `Ok(false)` when the stored value equals `value` exactly, and `Err`
    /// exactly on a transport failure or a malformed response.
    pub open spec fn spec_needs_updating(self, fetch: FetchEvent) -> Result<bool, StoreError> {
        match fetch {
            FetchEvent::NotFound => Result::Ok(true),
            FetchEvent::Transport { message } => Result::Err(
                StoreError::Transport { message },
            ),
            FetchEvent::Response(resp) => match resp.parameter {
                Option::None => Result::Err(
                    StoreError::MissingResponseField { field: ResponseField::Parameter },
                ),
                Option::Some(p) => match p.value {
                    Option::None => Result::Err(
                        StoreError::MissingResponseField { field: ResponseField::Value },
                    ),
                    Option::Some(v) => Result::Ok(self.value@ != v@),
                },
            },
        }
    }

    /// Decides whether this entry needs a write, from the store's answer to
    /// its fetch.
    pub fn needs_updating(&self, fetch: &FetchEvent) -> (r: Result<bool, StoreError>)
        ensures
            r == self.spec_needs_updating(*fetch),
    {
        match fetch {
            FetchEvent::NotFound => Ok(true),
            FetchEvent::Transport { message } => Err(
                StoreError::Transport { message: message.clone() },
            ),
            FetchEvent::Response(resp) => match &resp.parameter {
                Option::None => Err(
                    StoreError::MissingResponseField { field: ResponseField::Parameter },
                ),
                Option::Some(p) => match &p.value {
                    Option::None => Err(
                        StoreError::MissingResponseField { field: ResponseField::Value },
                    ),
                    Option::Some(v) => Ok(!self.value.eq(v)),
                },
            },
        }
    }

    /// The decision for this entry, given the store's answer to its fetch.
    pub open spec fn spec_decide(self, fetch: FetchEvent) -> Decision {
        match self.spec_needs_updating(fetch) {
            Result::Ok(b) => if b {
                Decision::NeedsWrite
            } else {
                Decision::UpToDate
            },
            Result::Err(e) => Decision::FetchFailed { error: e },
        }
    }

    /// Turns the store's answer to this entry's fetch into a decision: write,
    /// leave alone, or fail the entry.
    pub fn decide(&self, fetch: &FetchEvent) -> (r: Decision)
        ensures
            r == self.spec_decide(*fetch),
    {
        match self.needs_updating(fetch) {
            Ok(true) => Decision::NeedsWrite,
            Ok(false) => Decision::UpToDate,
            Err(e) => Decision::FetchFailed { error: e },
        }
    }
}

/// The next store action the engine needs the caller to perform.
#[derive(Clone, Debug, PartialEq)]
pub enum Action {
    /// Fetch the current value under the request's name.
    Fetch {
        /// The fetch request to send.
        request: GetRequest,
    },
    /// Write the request's value under its name.
    Upsert {
        /// The upsert request to send.
        request: PutRequest,
    },
    /// Every entry has its outcome; there is nothing left to do.
    Finish,
}

/// The store's answer to the action the engine last asked for.
#[derive(Clone, Debug, PartialEq)]
pub enum Event {
    /// The answer to a fetch action.
    Fetch {
        /// What the store answered.
        event: FetchEvent,
    },
    /// The answer to an upsert action.
    Upsert {
        /// What the store answered.
        event: UpsertEvent,
    },
}

/// The mathematical state of a sync run: the entries, how far the run has
/// come, whether it is waiting for an upsert's answer, and the outcomes
/// recorded so far.
pub ghost struct EngineModel {
    /// The entries to synchronize, in input order.
    pub entries: Seq<Parameter>,
    /// How many entries have their outcome recorded. The entry at this
    /// position is the one being processed.
    pub position: int,
    /// Whether the engine has asked for an upsert of the current entry and
    /// waits for its answer.
    pub writing: bool,
    /// One outcome per finished entry, in input order.
    pub outcomes: Seq<Outcome>,
}

impl EngineModel {
    /// The state invariant: the position stays within the entries, outcomes
    /// track finished entries one to one, and a pending write always belongs
    /// to a current entry.
    pub open spec fn wf(self) -> bool {
        &&& 0 <= self.position <= self.entries.len()
        &&& self.outcomes.len() == self.position
        &&& self.writing ==> self.position < self.entries.len()
    }

    /// Whether every entry has its outcome recorded.
    pub open spec fn done(self) -> bool {
        self.position == self.entries.len()
    }

    /// Every recorded outcome carries the name of the entry at its position.
    pub open spec fn outcomes_track_entries(self) -> bool {
        forall|i: int|
            0 <= i < self.outcomes.len() ==> self.outcomes[i].spec_name()
                == self.entries[i].name
    }

    /// The action the engine needs next: fetch the current entry, upsert it
    /// if a write was decided, or finish when no entry is left.
    pub open spec fn next_action(self) -> Action {
        if self.position >= self.entries.len() {
            Action::Finish
        } else if self.writing {
            Action::Upsert { request: self.entries[self.position].spec_put_request() }
        } else {
            Action::Fetch { request: self.entries[self.position].spec_get_request() }
        }
    }

    /// This state with the current entry finished: its outcome recorded and
    /// the position moved to the next entry.
    pub open spec fn record(self, outcome: Outcome) -> EngineModel {
        EngineModel {
            entries: self.entries,
            position: self.position + 1,
            writing: false,
            outcomes: self.outcomes.push(outcome),
        }
    }

    /// One transition of the run. On a fetch answer the current entry's
    /// decision is taken: up to date records a success, a needed write makes
    /// the engine ask for the upsert, and a failed fetch records a failure.
    /// On an upsert answer the current entry's outcome is recorded as the
    /// store accepted or rejected the write. An answer of the wrong kind, or
    /// one arriving after the run is done, changes nothing.
    pub open spec fn step(self, event: Event) -> EngineModel {
        if self.position >= self.entries.len() {
            self
        } else {
            let entry = self.entries[self.position];
            if !self.writing {
                match event {
                    Event::Fetch { event: fetch } => match entry.spec_decide(fetch) {
                        Decision::UpToDate => self.record(Outcome::Success { name: entry.name }),
                        Decision::NeedsWrite => EngineModel { writing: true, ..self },
                        Decision::FetchFailed { error } => self.record(
                            Outcome::Failure { name: entry.name, error },
                        ),
                    },
                    Event::Upsert { .. } => self,
                }
            } else {
                match event {
                    Event::Upsert { event: upsert } => match upsert {
                        UpsertEvent::Accepted => self.record(Outcome::Success { name: entry.name }),
                        UpsertEvent::Rejected { message } => self.record(
                            Outcome::Failure {
                                name: entry.name,
                                error: StoreError::WriteRejected { message },
                            },
                        ),
                    },
                    Event::Fetch { .. } => self,
                }
            }
        }
    }

    /// The state after answering a whole sequence of store answers, first to
    /// last.
    pub open spec fn run(self, events: Seq<Event>) -> EngineModel
        decreases events.len(),
    {
        if events.len() == 0 {
            self
        } else {
            self.step(events[0]).run(events.subrange(1, events.len() as int))
        }
    }
}

/// The sync engine for one batch of entries.
///
/// Constructed once per run over the full input sequence; the caller then
/// alternates [`SyncEngine::next_action`] and [`SyncEngine::step`] until the
/// action is [`Action::Finish`], and collects the per-entry outcomes.
#[derive(Clone, Debug)]
pub struct SyncEngine {
    entries: Vec<Parameter>,
    position: usize,
    writing: bool,
    outcomes: Vec<Outcome>,
}

impl View for SyncEngine {
    type V = EngineModel;

    closed spec fn view(&self) -> EngineModel {
        EngineModel {
            entries: self.entries@,
            position: self.position as int,
            writing: self.writing,
            outcomes: self.outcomes@,
        }
    }
}

impl SyncEngine {
    /// Starts a run over `entries`, which may be empty (the run is then
    /// immediately finished). Entries are processed strictly in input order;
    /// duplicate names are processed independently, so the last processed
    /// write is the one that sticks.
    pub fn new(entries: Vec<Parameter>) -> (engine: SyncEngine)
        ensures
            engine@ == (EngineModel {
                entries: entries@,
                position: 0,
                writing: false,
                outcomes: Seq::<Outcome>::empty(),
            }),
            engine@.wf(),
    {
        let engine = SyncEngine { entries, position: 0, writing: false, outcomes: Vec::new() };
        proof {
            assert(engine@.outcomes =~= Seq::<Outcome>::empty());
        }
        engine
    }

    /// Whether every entry has its outcome recorded.
    pub fn is_done(&self) -> (r: bool)
        ensures
            r == self@.done(),
    {
        self.position == self.entries.len()
    }

    /// Returns the store action the engine needs next.
    pub fn next_action(&self) -> (r: Action)
        requires
            self@.wf(),
        ensures
            r == self@.next_action(),
    {
        if self.position >= self.entries.len() {
            Action::Finish
        } else if self.writing {
            Action::Upsert { request: self.entries[self.position].to_put_parameter_request() }
        } else {
            Action::Fetch { request: self.entries[self.position].to_get_parameter_request() }
        }
    }

    /// Feeds the store's answer to the last requested action back into the
    /// engine, which takes exactly one transition of the model.
    pub fn step(&mut self, event: Event)
        requires
            old(self)@.wf(),
        ensures
            final(self)@ == old(self)@.step(event),
            final(self)@.wf(),
            final(self)@.entries == old(self)@.entries,
    {
        if self.position >= self.entries.len() {
            return;
        }
        if !self.writing {
            match event {
                Event::Fetch { event: fetch } => {
                    let decision = self.entries[self.position].decide(&fetch);
                    match decision {
                        Decision::UpToDate => {
                            let name = self.entries[self.position].name.clone();
                            self.outcomes.push(Outcome::Success { name });
                            self.position = self.position + 1;
                        },
                        Decision::NeedsWrite => {
                            self.writing = true;
                        },
                        Decision::FetchFailed { error } => {
                            let name = self.entries[self.position].name.clone();
                            self.outcomes.push(Outcome::Failure { name, error });
                            self.position = self.position + 1;
                        },
                    }
                },
                Event::Upsert { .. } => {},
            }
        } else {
            match event {
                Event::Upsert { event: upsert } => {
                    let name = self.entries[self.position].name.clone();
                    match upsert {
                        UpsertEvent::Accepted => {
                            self.outcomes.push(Outcome::Success { name });
                        },
                        UpsertEvent::Rejected { message } => {
                            self.outcomes.push(
                                Outcome::Failure {
                                    name,
                                    error: StoreError::WriteRejected { message },
                                },
                            );
                        },
                    }
                    self.position = self.position + 1;
                    self.writing = false;
                },
                Event::Fetch { .. } => {},
            }
        }
    }

    /// Hands out the outcomes recorded so far, one per finished entry, in
    /// input order.
    pub fn into_outcomes(self) -> (r: Vec<Outcome>)
        ensures
            r@ == self@.outcomes,
    {
        self.outcomes
    }
}

} // verus!
