//! A request as a state machine: the pipeline says what to do next, the
//! caller does it and reports back.

use crate::cache::{cache_file_name, file_name_of, is_safe_key};
use crate::projector::{process_rdap_response, summary_of};
use crate::record::{
    CachedEntry, EntryModel, RegistryResponse, ResponseModel, SummaryRecord, SummaryView,
};
use vstd::prelude::*;

verus! {

/// How long the pipeline sleeps before it asks a registry again that has
/// told it to slow down, in seconds.
pub const RETRY_DELAY_SECS: u64 = 10;

/// The status with which a registry says that it gets too many requests.
pub const TOO_MANY_REQUESTS: u16 = 429;

/// What the registry client reports when a lookup fails.
#[derive(Debug, PartialEq, Eq)]
pub enum ClientError {
    /// The request itself failed; `status` is the answer's status, where
    /// there was an answer.
    Transport { status: Option<u16>, message: String },
    /// Any other failure: a key that names no query, a record that cannot be
    /// read, a registry that cannot be found.
    Other { message: String },
}

/// A client error as plain values.
pub enum ClientErrorModel {
    Transport { status: Option<u16>, message: Seq<char> },
    Other { message: Seq<char> },
}

impl ClientErrorModel {
    /// The registry asked the caller to slow down.
    pub open spec fn is_rate_limited(self) -> bool {
        self matches ClientErrorModel::Transport { status: Some(code), .. } && code
            == TOO_MANY_REQUESTS
    }

    /// The text of the error.
    pub open spec fn text(self) -> Seq<char> {
        match self {
            ClientErrorModel::Transport { message, .. } => message,
            ClientErrorModel::Other { message } => message,
        }
    }
}

impl View for ClientError {
    type V = ClientErrorModel;

    open spec fn view(&self) -> ClientErrorModel {
        match *self {
            ClientError::Transport { status, message } => ClientErrorModel::Transport {
                status,
                message: message@,
            },
            ClientError::Other { message } => ClientErrorModel::Other { message: message@ },
        }
    }
}

impl ClientError {
    /// Whether the registry asked the caller to slow down.
    pub fn rate_limited(&self) -> (b: bool)
        ensures
            b == self@.is_rate_limited(),
    {
        match self {
            ClientError::Transport { status: Some(code), .. } => *code == TOO_MANY_REQUESTS,
            _ => false,
        }
    }
}

/// Why a request ended without a summary.
#[derive(Debug, PartialEq, Eq)]
pub enum Failure {
    /// The key holds a character that may not stand in a file name.
    UnsafeKey,
    /// The registry client failed, and not because of a rate limit.
    Client(ClientError),
    /// The response was fetched but could not be stored.
    CacheWrite(String),
    /// The pipeline was handed an event that it was not waiting for.
    Unexpected,
}

/// A failure as plain values.
pub enum FailureModel {
    UnsafeKey,
    Client(ClientErrorModel),
    CacheWrite(Seq<char>),
    Unexpected,
}

impl View for Failure {
    type V = FailureModel;

    open spec fn view(&self) -> FailureModel {
        match *self {
            Failure::UnsafeKey => FailureModel::UnsafeKey,
            Failure::Client(error) => FailureModel::Client(error@),
            Failure::CacheWrite(message) => FailureModel::CacheWrite(message@),
            Failure::Unexpected => FailureModel::Unexpected,
        }
    }
}

/// What the world reports back to the pipeline after an action.
#[derive(Debug, PartialEq, Eq)]
pub enum Event {
    /// The cache holds an entry for the key.
    CacheFound(CachedEntry),
    /// The cache holds no entry for the key.
    CacheAbsent,
    /// The cache could not be read, or what it holds could not be understood.
    CacheUnreadable(String),
    /// The registry answered, at the given time.
    Fetched { response: RegistryResponse, fetched_at: String },
    /// The registry client failed.
    FetchFailed(ClientError),
    /// The sleep is over.
    Slept,
    /// The entry was stored.
    Written,
    /// The entry could not be stored.
    WriteFailed(String),
}

/// An event as plain values.
pub enum EventModel {
    CacheFound(EntryModel),
    CacheAbsent,
    CacheUnreadable(Seq<char>),
    Fetched { response: ResponseModel, fetched_at: Seq<char> },
    FetchFailed(ClientErrorModel),
    Slept,
    Written,
    WriteFailed(Seq<char>),
}

impl View for Event {
    type V = EventModel;

    open spec fn view(&self) -> EventModel {
        match *self {
            Event::CacheFound(entry) => EventModel::CacheFound(entry@),
            Event::CacheAbsent => EventModel::CacheAbsent,
            Event::CacheUnreadable(message) => EventModel::CacheUnreadable(message@),
            Event::Fetched { response, fetched_at } => EventModel::Fetched {
                response: response@,
                fetched_at: fetched_at@,
            },
            Event::FetchFailed(error) => EventModel::FetchFailed(error@),
            Event::Slept => EventModel::Slept,
            Event::Written => EventModel::Written,
            Event::WriteFailed(message) => EventModel::WriteFailed(message@),
        }
    }
}

/// Where a request stands.
#[derive(Debug, PartialEq, Eq)]
pub enum State {
    /// Waiting for the outcome of a cache read.
    CheckingCache,
    /// Waiting for the registry client.
    Fetching,
    /// Waiting for a sleep to end.
    Sleeping,
    /// Waiting for the cache write; `summary` is what will be answered.
    Writing { summary: SummaryRecord },
    /// The request has been answered.
    Finished,
}

/// A state as plain values.
pub enum StateView {
    CheckingCache,
    Fetching,
    Sleeping,
    Writing { summary: SummaryView },
    Finished,
}

impl View for State {
    type V = StateView;

    open spec fn view(&self) -> StateView {
        match *self {
            State::CheckingCache => StateView::CheckingCache,
            State::Fetching => StateView::Fetching,
            State::Sleeping => StateView::Sleeping,
            State::Writing { summary } => StateView::Writing { summary: summary@ },
            State::Finished => StateView::Finished,
        }
    }
}

/// What the pipeline asks the world to do next.
#[derive(Debug, PartialEq, Eq)]
pub enum Action {
    /// Read the cache file of this name.
    ReadCache { file_name: String },
    /// Ask the registry about this key.
    Fetch { key: String },
    /// Sleep for this many seconds.
    Sleep { seconds: u64 },
    /// Store this entry in the cache file of this name.
    WriteCache { file_name: String, entry: CachedEntry },
    /// Answer the request.
    Finish(Result<SummaryRecord, Failure>),
}

/// An action as plain values.
pub enum ActionView {
    ReadCache { file_name: Seq<char> },
    Fetch { key: Seq<char> },
    Sleep { seconds: u64 },
    WriteCache { file_name: Seq<char>, entry: EntryModel },
    Finish(Result<SummaryView, FailureModel>),
}

impl View for Action {
    type V = ActionView;

    open spec fn view(&self) -> ActionView {
        match *self {
            Action::ReadCache { file_name } => ActionView::ReadCache { file_name: file_name@ },
            Action::Fetch { key } => ActionView::Fetch { key: key@ },
            Action::Sleep { seconds } => ActionView::Sleep { seconds },
            Action::WriteCache { file_name, entry } => ActionView::WriteCache {
                file_name: file_name@,
                entry: entry@,
            },
            Action::Finish(Ok(summary)) => ActionView::Finish(Ok(summary@)),
            Action::Finish(Err(failure)) => ActionView::Finish(Err(failure@)),
        }
    }
}

/// One request on its way from a key to an answer.
#[derive(Debug, PartialEq, Eq)]
pub struct Pipeline {
    pub key: String,
    pub bypass: bool,
    pub state: State,
}

/// A pipeline as plain values.
pub struct PipelineView {
    pub key: Seq<char>,
    pub bypass: bool,
    pub state: StateView,
}

impl View for Pipeline {
    type V = PipelineView;

    open spec fn view(&self) -> PipelineView {
        PipelineView { key: self.key@, bypass: self.bypass, state: self.state@ }
    }
}

/// A pipeline with the state replaced.
pub open spec fn moved_to(p: PipelineView, state: StateView) -> PipelineView {
    PipelineView { key: p.key, bypass: p.bypass, state }
}

/// How a request begins. A key that is not safe is refused at once; with
/// `bypass` the cache is not read; otherwise the cache is read first.
pub open spec fn start_view(key: Seq<char>, bypass: bool) -> (PipelineView, ActionView) {
    if !is_safe_key(key) {
        (
            PipelineView { key, bypass, state: StateView::Finished },
            ActionView::Finish(Err(FailureModel::UnsafeKey)),
        )
    } else if bypass {
        (PipelineView { key, bypass, state: StateView::Fetching }, ActionView::Fetch { key })
    } else {
        (
            PipelineView { key, bypass, state: StateView::CheckingCache },
            ActionView::ReadCache { file_name: file_name_of(key) },
        )
    }
}

/// Ends the request with a failure.
pub open spec fn fail(p: PipelineView, failure: FailureModel) -> (PipelineView, ActionView) {
    (moved_to(p, StateView::Finished), ActionView::Finish(Err(failure)))
}

/// Goes to the registry.
pub open spec fn fetch(p: PipelineView) -> (PipelineView, ActionView) {
    (moved_to(p, StateView::Fetching), ActionView::Fetch { key: p.key })
}

/// The pipeline's answer to the outcome of a cache read: an entry is
/// summarised with the time of its own fetch; without a readable entry the
/// registry is asked.
pub open spec fn after_cache_read(p: PipelineView, event: EventModel) -> (
    PipelineView,
    ActionView,
) {
    match event {
        EventModel::CacheFound(entry) => (
            moved_to(p, StateView::Finished),
            ActionView::Finish(Ok(summary_of(entry.response, entry.fetched_at))),
        ),
        EventModel::CacheAbsent => fetch(p),
        EventModel::CacheUnreadable(_) => fetch(p),
        _ => fail(p, FailureModel::Unexpected),
    }
}

/// The pipeline's answer to the registry client: a response is stored before
/// it is answered; a rate limit is waited out, however often it comes; any
/// other error ends the request as it is.
pub open spec fn after_fetch(p: PipelineView, event: EventModel) -> (
    PipelineView,
    ActionView,
) {
    match event {
        EventModel::Fetched { response, fetched_at } => if is_safe_key(p.key) {
            (
                moved_to(p, StateView::Writing { summary: summary_of(response, fetched_at) }),
                ActionView::WriteCache {
                    file_name: file_name_of(p.key),
                    entry: EntryModel { response, fetched_at },
                },
            )
        } else {
            fail(p, FailureModel::UnsafeKey)
        },
        EventModel::FetchFailed(error) => if error.is_rate_limited() {
            (moved_to(p, StateView::Sleeping), ActionView::Sleep { seconds: RETRY_DELAY_SECS })
        } else {
            fail(p, FailureModel::Client(error))
        },
        _ => fail(p, FailureModel::Unexpected),
    }
}

/// The pipeline's answer to the end of a sleep: the registry is asked again.
pub open spec fn after_sleep(p: PipelineView, event: EventModel) -> (
    PipelineView,
    ActionView,
) {
    match event {
        EventModel::Slept => fetch(p),
        _ => fail(p, FailureModel::Unexpected),
    }
}

/// The pipeline's answer to the cache write: the summary if it was stored,
/// a failure if it was not.
pub open spec fn after_write(p: PipelineView, summary: SummaryView, event: EventModel) -> (
    PipelineView,
    ActionView,
) {
    match event {
        EventModel::Written => (moved_to(p, StateView::Finished), ActionView::Finish(Ok(summary))),
        EventModel::WriteFailed(message) => fail(p, FailureModel::CacheWrite(message)),
        _ => fail(p, FailureModel::Unexpected),
    }
}

/// The pipeline after an event, and what it asks for next. An event that the
/// pipeline is not waiting for ends the request.
pub open spec fn step_view(p: PipelineView, event: EventModel) -> (PipelineView, ActionView) {
    match p.state {
        StateView::CheckingCache => after_cache_read(p, event),
        StateView::Fetching => after_fetch(p, event),
        StateView::Sleeping => after_sleep(p, event),
        StateView::Writing { summary } => after_write(p, summary, event),
        StateView::Finished => fail(p, FailureModel::Unexpected),
    }
}

impl Pipeline {
    /// Begins a request for `key`.
    pub fn start(key: String, bypass: bool) -> (r: (Pipeline, Action))
        ensures
            (r.0@, r.1@) == start_view(key@, bypass),
    {
        match cache_file_name(key.as_str()) {
            None => (
                Pipeline { key, bypass, state: State::Finished },
                Action::Finish(Err(Failure::UnsafeKey)),
            ),
            Some(file_name) => {
                if bypass {
                    let asked = key.clone();
                    (Pipeline { key, bypass, state: State::Fetching }, Action::Fetch { key: asked })
                } else {
                    (
                        Pipeline { key, bypass, state: State::CheckingCache },
                        Action::ReadCache { file_name },
                    )
                }
            },
        }
    }

    fn fail(self, failure: Failure) -> (r: (Pipeline, Action))
        ensures
            (r.0@, r.1@) == fail(self@, failure@),
    {
        (
            Pipeline { key: self.key, bypass: self.bypass, state: State::Finished },
            Action::Finish(Err(failure)),
        )
    }

    fn fetch(self) -> (r: (Pipeline, Action))
        ensures
            (r.0@, r.1@) == fetch(self@),
    {
        let asked = self.key.clone();
        (
            Pipeline { key: self.key, bypass: self.bypass, state: State::Fetching },
            Action::Fetch { key: asked },
        )
    }

    /// Takes the outcome of the last action and says what to do next.
    pub fn step(self, event: Event) -> (r: (Pipeline, Action))
        ensures
            (r.0@, r.1@) == step_view(self@, event@),
    {
        let Pipeline { key, bypass, state } = self;
        match state {
            State::CheckingCache => match event {
                Event::CacheFound(entry) => {
                    let CachedEntry { response, fetched_at } = entry;
                    let summary = process_rdap_response(&response, fetched_at);
                    (
                        Pipeline { key, bypass, state: State::Finished },
                        Action::Finish(Ok(summary)),
                    )
                },
                Event::CacheAbsent => Pipeline { key, bypass, state: State::CheckingCache }.fetch(),
                Event::CacheUnreadable(_) => Pipeline {
                    key,
                    bypass,
                    state: State::CheckingCache,
                }.fetch(),
                _ => Pipeline { key, bypass, state: State::CheckingCache }.fail(
                    Failure::Unexpected,
                ),
            },
            State::Fetching => match event {
                Event::Fetched { response, fetched_at } => {
                    match cache_file_name(key.as_str()) {
                        Some(file_name) => {
                            let summary = process_rdap_response(&response, fetched_at.clone());
                            (
                                Pipeline { key, bypass, state: State::Writing { summary } },
                                Action::WriteCache {
                                    file_name,
                                    entry: CachedEntry { response, fetched_at },
                                },
                            )
                        },
                        None => Pipeline { key, bypass, state: State::Fetching }.fail(
                            Failure::UnsafeKey,
                        ),
                    }
                },
                Event::FetchFailed(error) => {
                    if error.rate_limited() {
                        (
                            Pipeline { key, bypass, state: State::Sleeping },
                            Action::Sleep { seconds: RETRY_DELAY_SECS },
                        )
                    } else {
                        Pipeline { key, bypass, state: State::Fetching }.fail(
                            Failure::Client(error),
                        )
                    }
                },
                _ => Pipeline { key, bypass, state: State::Fetching }.fail(Failure::Unexpected),
            },
            State::Sleeping => match event {
                Event::Slept => Pipeline { key, bypass, state: State::Sleeping }.fetch(),
                _ => Pipeline { key, bypass, state: State::Sleeping }.fail(Failure::Unexpected),
            },
            State::Writing { summary } => match event {
                Event::Written => (
                    Pipeline { key, bypass, state: State::Finished },
                    Action::Finish(Ok(summary)),
                ),
                Event::WriteFailed(message) => Pipeline {
                    key,
                    bypass,
                    state: State::Finished,
                }.fail(Failure::CacheWrite(message)),
                _ => Pipeline { key, bypass, state: State::Finished }.fail(Failure::Unexpected),
            },
            State::Finished => Pipeline { key, bypass, state: State::Finished }.fail(
                Failure::Unexpected,
            ),
        }
    }
}

} // verus!
