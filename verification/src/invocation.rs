use vstd::prelude::*;
use crate::document::json_reading;
use crate::failure::{Failure, ProxyError};
use crate::proxy::{
    accepted_encodings, conclude, outcome, renders, upstream_request, upstream_url, Encodings,
    Exchange, PostRequest, Reply,
};
use crate::status::{is_success_code, HttpStatus};

verus! {

/// How far an invocation has come.
#[derive(Clone, Copy, Debug, PartialEq, Eq, Structural)]
pub enum Stage {
    /// The HTTP client is being built.
    Building,
    /// The request is on its way.
    Sending,
    /// A response came and its body is being read.
    Reading,
    /// The result was handed out; nothing follows.
    Done,
}

/// The kind of an event, without what it carries.
#[derive(Clone, Copy, Debug, PartialEq, Eq, Structural)]
pub enum Signal {
    ClientBuilt,
    ClientFailed,
    Responded,
    SendFailed,
    BodyRead,
    ReadFailed,
}

/// An invocation between two steps, with what it has to remember.
#[derive(Debug, PartialEq, Eq)]
pub enum Invocation {
    Building { payload: serde_json::Value },
    Sending,
    Reading { status: HttpStatus },
    Done,
}

/// What the host reports after it did what it was told.
#[derive(Clone, Debug, PartialEq, Eq)]
pub enum Event {
    /// The client is ready.
    ClientBuilt,
    /// The client could not be built.
    ClientFailed { cause: String },
    /// A response came; its body is still unread.
    Responded { status: HttpStatus },
    /// The request could not be sent, or no response came.
    SendFailed { cause: String },
    /// The whole body was read as text.
    BodyRead { text: String },
    /// The body could not be read as text.
    ReadFailed { cause: String },
}

/// What the host is to do next.
#[derive(Debug, PartialEq, Eq)]
pub enum Action {
    /// Build an HTTP client that accepts these encodings.
    BuildClient { encodings: Encodings },
    /// Send this request, once.
    Send { request: PostRequest },
    /// Read the body of the response in full, as text.
    ReadBody,
    /// Hand this result to the caller.
    Return { result: Result<serde_json::Value, ProxyError> },
}

impl Invocation {
    /// The stage at which the invocation stands.
    pub open spec fn stage(self) -> Stage {
        match self {
            Invocation::Building { .. } => Stage::Building,
            Invocation::Sending => Stage::Sending,
            Invocation::Reading { .. } => Stage::Reading,
            Invocation::Done => Stage::Done,
        }
    }
}

impl Event {
    /// The kind of the event.
    pub open spec fn signal(self) -> Signal {
        match self {
            Event::ClientBuilt => Signal::ClientBuilt,
            Event::ClientFailed { .. } => Signal::ClientFailed,
            Event::Responded { .. } => Signal::Responded,
            Event::SendFailed { .. } => Signal::SendFailed,
            Event::BodyRead { .. } => Signal::BodyRead,
            Event::ReadFailed { .. } => Signal::ReadFailed,
        }
    }
}

/// The stage that follows when `signal` is reported at `stage`, if the signal
/// answers what the host was told there. Each failure ends the invocation at
/// once; nothing is tried again.
pub open spec fn follow(stage: Stage, signal: Signal) -> Option<Stage> {
    match (stage, signal) {
        (Stage::Building, Signal::ClientBuilt) => Some(Stage::Sending),
        (Stage::Building, Signal::ClientFailed) => Some(Stage::Done),
        (Stage::Sending, Signal::Responded) => Some(Stage::Reading),
        (Stage::Sending, Signal::SendFailed) => Some(Stage::Done),
        (Stage::Reading, Signal::BodyRead) => Some(Stage::Done),
        (Stage::Reading, Signal::ReadFailed) => Some(Stage::Done),
        _ => None,
    }
}

/// What a step hands out for an event that answers: the state that follows
/// and the action, with everything that they carry.
pub open spec fn answers(state: Invocation, event: Event, after: Invocation, action: Action) -> bool {
    match (state, event) {
        (Invocation::Building { payload }, Event::ClientBuilt) => {
            &&& after is Sending
            &&& action matches Action::Send { request } && request.url@ == upstream_url()
                && request.payload == payload
        },
        (Invocation::Building { .. }, Event::ClientFailed { cause }) => {
            &&& after is Done
            &&& action matches Action::Return { result } && renders(
                result,
                outcome(Exchange::ClientFailed { cause: cause@ }),
            )
        },
        (Invocation::Sending, Event::Responded { status }) => {
            &&& after == (Invocation::Reading { status })
            &&& action is ReadBody
        },
        (Invocation::Sending, Event::SendFailed { cause }) => {
            &&& after is Done
            &&& action matches Action::Return { result } && renders(
                result,
                outcome(Exchange::SendFailed { cause: cause@ }),
            )
        },
        (Invocation::Reading { status }, Event::BodyRead { text }) => {
            &&& after is Done
            &&& action matches Action::Return { result } && renders(
                result,
                outcome(Exchange::Received { status: status@, body: text@ }),
            )
        },
        (Invocation::Reading { .. }, Event::ReadFailed { cause }) => {
            &&& after is Done
            &&& action matches Action::Return { result } && renders(
                result,
                outcome(Exchange::ReadFailed { cause: cause@ }),
            )
        },
        _ => false,
    }
}

/// Starts an invocation for `payload`: the host is to build the client.
pub fn begin(payload: serde_json::Value) -> (start: (Invocation, Action))
    ensures
        start.0 == (Invocation::Building { payload }),
        start.1 == (Action::BuildClient {
            encodings: Encodings { gzip: true, deflate: true, brotli: true },
        }),
{
    (Invocation::Building { payload }, Action::BuildClient { encodings: accepted_encodings() })
}

/// Takes the invocation one step on: from the state and what the host
/// reports to the state that follows and what the host is to do next.
/// `None` where the event does not answer what the host was told.
pub fn step(state: Invocation, event: Event) -> (next: Option<(Invocation, Action)>)
    ensures
        match next {
            Some((after, action)) => {
                &&& follow(state.stage(), event.signal()) == Some(after.stage())
                &&& answers(state, event, after, action)
                &&& action is Send <==> after is Sending
                &&& action is ReadBody <==> after is Reading
                &&& action is Return <==> after is Done
            },
            None => follow(state.stage(), event.signal()) is None,
        },
{
    match state {
        Invocation::Building { payload } => match event {
            Event::ClientBuilt => Some(
                (Invocation::Sending, Action::Send { request: upstream_request(payload) }),
            ),
            Event::ClientFailed { cause } => Some(
                (Invocation::Done, Action::Return { result: conclude(Reply::ClientFailed { cause }) }),
            ),
            _ => None,
        },
        Invocation::Sending => match event {
            Event::Responded { status } => Some((Invocation::Reading { status }, Action::ReadBody)),
            Event::SendFailed { cause } => Some(
                (Invocation::Done, Action::Return { result: conclude(Reply::SendFailed { cause }) }),
            ),
            _ => None,
        },
        Invocation::Reading { status } => match event {
            Event::BodyRead { text } => Some(
                (
                    Invocation::Done,
                    Action::Return { result: conclude(Reply::Received { status, body: text }) },
                ),
            ),
            Event::ReadFailed { cause } => Some(
                (Invocation::Done, Action::Return { result: conclude(Reply::ReadFailed { cause }) }),
            ),
            _ => None,
        },
        Invocation::Done => None,
    }
}

/// How many steps lie behind a stage at most.
pub open spec fn rank(stage: Stage) -> nat {
    match stage {
        Stage::Building => 0,
        Stage::Sending => 1,
        Stage::Reading => 2,
        Stage::Done => 3,
    }
}

/// How many times the host is told to send the request while it reports
/// `signals` in turn from `stage` on. The request is sent on entering
/// `Sending`; the run ends at the first signal that does not answer.
pub open spec fn requests_sent(stage: Stage, signals: Seq<Signal>) -> nat
    decreases signals.len(),
{
    if signals.len() == 0 {
        0
    } else {
        match follow(stage, signals[0]) {
            None => 0,
            Some(after) => {
                let here: nat = if after == Stage::Sending {
                    1
                } else {
                    0
                };
                here + requests_sent(after, signals.drop_first())
            },
        }
    }
}

/// An invocation only moves forward, and nothing follows `Done`: it ends
/// after three steps at most.
pub proof fn stages_only_advance(stage: Stage, signal: Signal)
    ensures
        follow(stage, signal) matches Some(after) ==> rank(after) > rank(stage),
        follow(Stage::Done, signal) is None,
{
}

/// A failure to send ends the invocation with a network failure that
/// carries the cause; the body of a response is never asked for.
pub proof fn failed_send_reads_nothing(cause: String, after: Invocation, action: Action)
    requires
        answers(Invocation::Sending, Event::SendFailed { cause }, after, action),
    ensures
        after is Done,
        !(action is ReadBody),
        action matches Action::Return { result: Err(error) } && error@ == (Failure::Network {
            cause: cause@,
        }),
{
}

/// Whatever the host reports, and in whatever order, it is told to send the
/// request exactly once if the client was built, and never else: nothing is
/// sent a second time.
pub proof fn one_request_per_invocation(signals: Seq<Signal>)
    ensures
        requests_sent(Stage::Building, signals) <= 1,
        requests_sent(Stage::Building, signals) == 1 <==> (signals.len() > 0 && signals[0]
            == Signal::ClientBuilt),
{
    if signals.len() > 0 {
        match follow(Stage::Building, signals[0]) {
            None => {},
            Some(after) => {
                no_request_after_building(after, signals.drop_first());
            },
        }
    }
}

/// Past `Building` no request is sent.
proof fn no_request_after_building(stage: Stage, signals: Seq<Signal>)
    requires
        stage != Stage::Building,
    ensures
        requests_sent(stage, signals) == 0,
    decreases signals.len(),
{
    if signals.len() > 0 {
        match follow(stage, signals[0]) {
            None => {},
            Some(after) => {
                no_request_after_building(after, signals.drop_first());
            },
        }
    }
}

/// A run in which nothing fails: the request that the host is told to send
/// holds the payload as it was given and goes to the upstream endpoint, and
/// when the response has a 2xx status and its body spells a document, that
/// document is what the invocation returns.
pub proof fn unbroken_run_returns_document(
    payload: serde_json::Value,
    status: HttpStatus,
    text: String,
    document: serde_json::Value,
    sending: (Invocation, Action),
    reading: (Invocation, Action),
    done: (Invocation, Action),
)
    requires
        answers(Invocation::Building { payload }, Event::ClientBuilt, sending.0, sending.1),
        answers(sending.0, Event::Responded { status }, reading.0, reading.1),
        answers(reading.0, Event::BodyRead { text }, done.0, done.1),
        is_success_code(status@),
        json_reading(text@) == Ok::<serde_json::Value, Seq<char>>(document),
    ensures
        sending.1 matches Action::Send { request } && request.payload == payload && request.url@
            == upstream_url(),
        reading.1 is ReadBody,
        done.0 is Done,
        done.1 == (Action::Return { result: Ok(document) }),
{
}

} // verus!
