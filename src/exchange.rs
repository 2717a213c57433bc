use vstd::prelude::*;
use crate::error::BridgeError;

verus! {

/// The address of the backend service: a fixed local endpoint.
pub open spec fn backend_url_spec() -> Seq<char> {
    "http://127.0.0.1:8000/"@
}

/// The address that every invocation sends its GET request to.
pub fn backend_url() -> (r: String)
    ensures
        r@ == backend_url_spec(),
{
    String::from_str("http://127.0.0.1:8000/")
}

/// How far one invocation of the bridge command has come.
pub enum Stage {
    /// The GET request is in flight.
    Requesting,
    /// A response arrived; its body is being read.
    Reading,
    /// The reply has been handed back; nothing more happens.
    Finished,
}

/// What the host reports back after carrying out an action.
pub enum Event {
    /// The backend answered with this status code. The code is not inspected.
    Responded { status: u16 },
    /// The request could not be completed; the transport's message.
    TransportFailed(String),
    /// The whole body was read and decoded as text.
    BodyRead(String),
    /// The body could not be read or decoded; the decoder's message.
    BodyFailed(String),
}

/// What the host is asked to do next.
pub enum Action {
    /// Send a GET request, with no headers and no body, to this address.
    Get(String),
    /// Read the body of the response that arrived, as text.
    ReadBody,
    /// Hand this result back to the caller of the command.
    Reply(Result<String, BridgeError>),
    /// The event does not belong to the current stage: do nothing.
    Ignore,
}

impl Action {
    /// The action asks to send the GET request to the backend.
    pub open spec fn is_get_backend(&self) -> bool {
        self matches Action::Get(url) && url@ == backend_url_spec()
    }
}

/// The transition of an invocation on one event.
///
/// A transport failure ends the invocation with a transport error; a response,
/// whatever its status, leads to reading the body; the body text, or the
/// decoding failure, ends it. An event that does not fit the stage changes
/// nothing.
pub open spec fn transition(stage: Stage, event: Event) -> (Stage, Action) {
    match (stage, event) {
        (Stage::Requesting, Event::Responded { status: _ }) => (Stage::Reading, Action::ReadBody),
        (Stage::Requesting, Event::TransportFailed(m)) => (
            Stage::Finished,
            Action::Reply(Err(BridgeError::Transport(m))),
        ),
        (Stage::Reading, Event::BodyRead(text)) => (Stage::Finished, Action::Reply(Ok(text))),
        (Stage::Reading, Event::BodyFailed(m)) => (
            Stage::Finished,
            Action::Reply(Err(BridgeError::Decode(m))),
        ),
        (s, _) => (s, Action::Ignore),
    }
}

/// Begins an invocation: the first stage and the request to send.
pub fn start() -> (r: (Stage, Action))
    ensures
        r.0 is Requesting,
        r.1.is_get_backend(),
{
    (Stage::Requesting, Action::Get(backend_url()))
}

/// Advances an invocation by one event reported by the host.
pub fn step(stage: Stage, event: Event) -> (r: (Stage, Action))
    ensures
        r == transition(stage, event),
{
    match (stage, event) {
        (Stage::Requesting, Event::Responded { status: _ }) => (Stage::Reading, Action::ReadBody),
        (Stage::Requesting, Event::TransportFailed(m)) => (
            Stage::Finished,
            Action::Reply(Err(BridgeError::Transport(m))),
        ),
        (Stage::Reading, Event::BodyRead(text)) => (Stage::Finished, Action::Reply(Ok(text))),
        (Stage::Reading, Event::BodyFailed(m)) => (
            Stage::Finished,
            Action::Reply(Err(BridgeError::Decode(m))),
        ),
        (s, _) => (s, Action::Ignore),
    }
}

} // verus!
