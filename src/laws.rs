use vstd::prelude::*;
use crate::error::{command_result_spec, BridgeError};
use crate::exchange::{transition, Action, Event, Stage};

verus! {

/// The reply that ends an invocation whose request met `sent` and whose
/// body read met `body`: the action of the first event when that ends the
/// invocation, else the action of the second.
pub open spec fn reply_of(sent: Event, body: Event) -> Action {
    let (stage, first) = transition(Stage::Requesting, sent);
    if stage is Finished {
        first
    } else {
        transition(stage, body).1
    }
}

/// Whatever the status code of the response, a body that reads as text is
/// handed back verbatim as the command's success.
pub proof fn lemma_body_relayed_verbatim(status: u16, body: String)
    ensures
        transition(Stage::Requesting, Event::Responded { status }) == (Stage::Reading, Action::ReadBody),
        reply_of(Event::Responded { status }, Event::BodyRead(body)) == Action::Reply(Ok::<String, BridgeError>(body)),
        command_result_spec(Ok::<String, BridgeError>(body)) == Ok::<Seq<char>, Seq<char>>(body@),
{
}

/// The status code is not inspected: two responses that differ only in it
/// lead to the same stage and the same actions, whatever the body read meets.
pub proof fn lemma_status_not_inspected(s1: u16, s2: u16, body: Event)
    ensures
        transition(Stage::Requesting, Event::Responded { status: s1 })
            == transition(Stage::Requesting, Event::Responded { status: s2 }),
        reply_of(Event::Responded { status: s1 }, body) == reply_of(Event::Responded { status: s2 }, body),
{
}

/// When the backend cannot be reached, the invocation ends at once with a
/// transport error whose description is the transport's own message, so a
/// non-empty message gives a non-empty description.
pub proof fn lemma_unreachable_yields_error(msg: String, later: Event)
    requires
        msg@.len() > 0,
    ensures
        reply_of(Event::TransportFailed(msg), later)
            == Action::Reply(Err::<String, BridgeError>(BridgeError::Transport(msg))),
        transition(Stage::Requesting, Event::TransportFailed(msg))
            == (Stage::Finished, Action::Reply(Err::<String, BridgeError>(BridgeError::Transport(msg)))),
        command_result_spec(Err::<String, BridgeError>(BridgeError::Transport(msg))) == Err::<Seq<char>, Seq<char>>(msg@),
        BridgeError::Transport(msg).description().len() > 0,
{
}

/// Two invocations share nothing: each one's reply is the body that the
/// backend sent to it, whatever the other saw, status codes included.
pub proof fn lemma_invocations_independent(status_a: u16, body_a: String, status_b: u16, body_b: String)
    ensures
        reply_of(Event::Responded { status: status_a }, Event::BodyRead(body_a))
            == Action::Reply(Ok::<String, BridgeError>(body_a)),
        reply_of(Event::Responded { status: status_b }, Event::BodyRead(body_b))
            == Action::Reply(Ok::<String, BridgeError>(body_b)),
{
}

/// An invocation replies at most once: once it has finished, no event moves
/// it or asks for anything.
pub proof fn lemma_finished_is_final(event: Event)
    ensures
        transition(Stage::Finished, event) == (Stage::Finished, Action::Ignore),
{
}

/// Every invocation that runs to its end replies exactly once, with success
/// precisely when a response came and its body read as text.
pub proof fn lemma_reply_is_success_iff_body_read(sent: Event, body: Event)
    requires
        sent is Responded || sent is TransportFailed,
        sent is Responded ==> (body is BodyRead || body is BodyFailed),
    ensures
        reply_of(sent, body) matches Action::Reply(r) && (r is Ok <==> (sent is Responded && body is BodyRead)),
{
}

} // verus!
