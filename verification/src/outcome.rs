//! How a handled message ends for its channel.

use vstd::prelude::*;

use crate::images;
use crate::json;
use crate::message;
use crate::message::{IncomingMessage, OutgoingResponse};
use crate::session;
use crate::session::{Session, Thread, ThreadState};
use crate::submission::SubmissionResult;
use crate::text;

verus! {

/// How the handling of a message ended.
pub enum HandleOutcome {
    /// Answer, and close the turn.
    Respond(OutgoingResponse),
    /// Close the turn without an answer.
    NoResponse,
    /// The turn waits for the user; it stays open.
    Pending,
    /// The agent shall stop.
    Shutdown,
}

/// How the second engine ended a message.
pub enum BridgeOutcome {
    Respond(String),
    NoResponse,
    Pending,
}

/// What the hooks say to a text on its way in or out.
pub enum HookVerdict {
    /// A hook turned the text down.
    Rejected { reason: String },
    /// The hooks failed otherwise.
    Failed { error: String },
    /// The text goes on as another one.
    Modified { content: String },
    /// The text goes on as it is.
    Pass,
}

impl HandleOutcome {
    /// The answer is this text and nothing else.
    pub open spec fn says(self, content: Seq<char>) -> bool {
        self matches HandleOutcome::Respond(r) && r.is_text(content)
    }

    /// An answer that is this text and nothing else.
    pub fn reply(content: String) -> (r: HandleOutcome)
        ensures
            r.says(content@),
    {
        HandleOutcome::Respond(OutgoingResponse::text(content))
    }

    /// The outcome that an optional text stands for: no text is the signal to stop, an empty
    /// one closes the turn silently, any other is the answer.
    pub open spec fn stands_for(self, reply: Option<Seq<char>>) -> bool {
        match reply {
            None => self is Shutdown,
            Some(s) => if s.len() == 0 {
                self is NoResponse
            } else {
                self.says(s)
            },
        }
    }

    /// The outcome that an optional text stands for.
    pub fn from_legacy(reply: Option<String>) -> (r: HandleOutcome)
        ensures
            r.stands_for(json::string_of(reply)),
    {
        match reply {
            None => HandleOutcome::Shutdown,
            Some(s) => if s.as_str().is_empty() {
                HandleOutcome::NoResponse
            } else {
                HandleOutcome::reply(s)
            },
        }
    }

    /// The outcome for what the second engine ended with.
    pub fn from_bridge(outcome: BridgeOutcome) -> (r: HandleOutcome)
        ensures
            match outcome {
                BridgeOutcome::Respond(s) => r.says(s@),
                BridgeOutcome::NoResponse => r is NoResponse,
                BridgeOutcome::Pending => r is Pending,
            },
    {
        match outcome {
            BridgeOutcome::Respond(s) => HandleOutcome::reply(s),
            BridgeOutcome::NoResponse => HandleOutcome::NoResponse,
            BridgeOutcome::Pending => HandleOutcome::Pending,
        }
    }
}

/// A silent REPL call ends the REPL; elsewhere the turn is only closed.
pub open spec fn quiet(outcome: HandleOutcome, message: IncomingMessage) -> bool {
    if message::single_message(message) {
        outcome is Shutdown
    } else {
        outcome is NoResponse
    }
}

fn end_quietly(message: &IncomingMessage) -> (r: HandleOutcome)
    ensures
        quiet(r, *message),
{
    if message::is_single_message_repl(message) {
        HandleOutcome::Shutdown
    } else {
        HandleOutcome::NoResponse
    }
}

/// The thread waits for an approval.
pub open spec fn awaits_approval(session: Session, thread_id: u128) -> bool {
    session.thread(thread_id) matches Some(t) && t.state == ThreadState::AwaitingApproval
}

/// The outcome for a reply: one that says nothing is not sent, any other is, with the images
/// that its turn generated.
pub open spec fn answers(
    content: String,
    silent: bool,
    message: IncomingMessage,
    thread: Option<Thread>,
    r: HandleOutcome,
) -> bool {
    if silent {
        quiet(r, message)
    } else if content@.len() == 0 {
        r is NoResponse
    } else {
        &&& r matches HandleOutcome::Respond(o)
        &&& o.content == content
        &&& o.attachments@.len() == 0
        &&& images::attachment_views(o.inline_attachments@) == message::last_images(thread)
    }
}

fn answer(
    content: String,
    silent: bool,
    message: &IncomingMessage,
    session: &Session,
    thread_id: u128,
) -> (r: HandleOutcome)
    ensures
        answers(content, silent, *message, session.thread(thread_id), r),
{
    if silent {
        end_quietly(message)
    } else if content.as_str().is_empty() {
        HandleOutcome::NoResponse
    } else {
        HandleOutcome::Respond(
            message::build_outgoing_response_for_thread(session, thread_id, content),
        )
    }
}

/// The outcome is the one for the result of a submission.
pub open spec fn concludes(
    result: SubmissionResult,
    silent: bool,
    message: IncomingMessage,
    session: Session,
    thread_id: u128,
    r: HandleOutcome,
) -> bool {
    match result {
        SubmissionResult::Response { content } => answers(
            content,
            silent,
            message,
            session.thread(thread_id),
            r,
        ),
        SubmissionResult::Acknowledged { message: reply } => if json::string_of(reply) == Some(
            Seq::<char>::empty(),
        ) && message::single_message(message) && !awaits_approval(session, thread_id) {
            r is Shutdown
        } else {
            r.stands_for(json::string_of(reply))
        },
        SubmissionResult::Error { message: error } => r.says("Error: "@ + error@),
        SubmissionResult::Interrupted => r.says("Interrupted."@),
        SubmissionResult::AuthPending => r is Pending,
        SubmissionResult::NeedApproval { .. } => r is Pending,
    }
}

/// The outcome for the result of a submission. `silent` says that a reply is the token for
/// having nothing to say.
pub fn conclude(
    result: SubmissionResult,
    silent: bool,
    message: &IncomingMessage,
    session: &Session,
    thread_id: u128,
) -> (r: HandleOutcome)
    ensures
        concludes(result, silent, *message, *session, thread_id, r),
{
    match result {
        SubmissionResult::Response { content } => answer(
            content,
            silent,
            message,
            session,
            thread_id,
        ),
        SubmissionResult::Acknowledged { message: reply } => {
            let empty: bool = match &reply {
                Some(s) => s.as_str().is_empty(),
                None => false,
            };
            let waiting: bool = match session.thread_state(thread_id) {
                Some(state) => state == ThreadState::AwaitingApproval,
                None => false,
            };
            proof {
                if reply is Some {
                    assert(reply->0@.len() == 0 <==> reply->0@ =~= Seq::<char>::empty());
                }
            }
            if empty && message::is_single_message_repl(message) && !waiting {
                HandleOutcome::Shutdown
            } else {
                HandleOutcome::from_legacy(reply)
            }
        },
        SubmissionResult::Error { message: error } => HandleOutcome::reply(
            text::cat("Error: ", error.as_str()),
        ),
        SubmissionResult::Interrupted => HandleOutcome::reply("Interrupted.".to_owned()),
        SubmissionResult::AuthPending => HandleOutcome::Pending,
        SubmissionResult::NeedApproval { .. } => HandleOutcome::Pending,
    }
}

/// The outcome is the one for the result of the `/reasoning` command.
pub open spec fn concludes_reasoning(
    result: SubmissionResult,
    message: IncomingMessage,
    r: HandleOutcome,
) -> bool {
    match result {
        SubmissionResult::Response { content } => r.says(content@),
        SubmissionResult::Acknowledged { message: reply } => r.stands_for(json::string_of(reply)),
        SubmissionResult::Error { message: error } => r.says("Error: "@ + error@),
        _ => quiet(r, message),
    }
}

/// The outcome for the result of the `/reasoning` command.
pub fn conclude_reasoning(result: SubmissionResult, message: &IncomingMessage) -> (r: HandleOutcome)
    ensures
        concludes_reasoning(result, *message, r),
{
    match result {
        SubmissionResult::Response { content } => HandleOutcome::reply(content),
        SubmissionResult::Acknowledged { message: reply } => HandleOutcome::from_legacy(reply),
        SubmissionResult::Error { message: error } => HandleOutcome::reply(
            text::cat("Error: ", error.as_str()),
        ),
        _ => end_quietly(message),
    }
}

/// The text that a result comes down to: a reply, an acknowledgement's own text, or an
/// error; nothing for anything else.
pub open spec fn plain_text(result: SubmissionResult) -> Option<Seq<char>> {
    match result {
        SubmissionResult::Response { content } => Some(content@),
        SubmissionResult::Acknowledged { message } => json::string_of(message),
        SubmissionResult::Error { message } => Some("Error: "@ + message@),
        _ => None,
    }
}

/// The text that a result comes down to.
pub fn to_plain_text(result: SubmissionResult) -> (r: Option<String>)
    ensures
        json::string_of(r) == plain_text(result),
{
    match result {
        SubmissionResult::Response { content } => Some(content),
        SubmissionResult::Acknowledged { message } => message,
        SubmissionResult::Error { message } => Some(text::cat("Error: ", message.as_str())),
        _ => None,
    }
}

/// The outcome is the one for the first input after the daily reset.
pub open spec fn concludes_after_reset(
    result: SubmissionResult,
    silent: bool,
    message: IncomingMessage,
    r: HandleOutcome,
) -> bool {
    match result {
        SubmissionResult::Response { content } => if silent {
            quiet(r, message)
        } else {
            r.stands_for(Some(content@))
        },
        SubmissionResult::Acknowledged { message: reply } => r.stands_for(json::string_of(reply)),
        SubmissionResult::Error { message: error } => r.says("Error: "@ + error@),
        SubmissionResult::Interrupted => r is NoResponse,
        SubmissionResult::AuthPending => r is Pending,
        SubmissionResult::NeedApproval { .. } => r is Pending,
    }
}

/// The outcome for the first input after the daily reset. `silent` says that a reply is the
/// token for having nothing to say. A reply is its text alone. A turn that waits for the user
/// stays open there too; one that was interrupted is closed without a word.
pub fn conclude_after_reset(
    result: SubmissionResult,
    silent: bool,
    message: &IncomingMessage,
) -> (r: HandleOutcome)
    ensures
        concludes_after_reset(result, silent, *message, r),
{
    match result {
        SubmissionResult::Response { content } => if silent {
            end_quietly(message)
        } else {
            HandleOutcome::from_legacy(Some(content))
        },
        SubmissionResult::Acknowledged { message: reply } => HandleOutcome::from_legacy(reply),
        SubmissionResult::Error { message: error } => HandleOutcome::reply(
            text::cat("Error: ", error.as_str()),
        ),
        SubmissionResult::Interrupted => HandleOutcome::NoResponse,
        SubmissionResult::AuthPending => HandleOutcome::Pending,
        SubmissionResult::NeedApproval { .. } => HandleOutcome::Pending,
    }
}

/// The outcome is the one of a pairing claim.
pub open spec fn concludes_pairing(
    outcome: Result<BridgeOutcome, String>,
    silent: bool,
    message: IncomingMessage,
    thread: Option<Thread>,
    r: HandleOutcome,
) -> bool {
    match outcome {
        Ok(BridgeOutcome::Respond(s)) => answers(s, silent, message, thread, r),
        Ok(BridgeOutcome::NoResponse) => r is NoResponse,
        Ok(BridgeOutcome::Pending) => r is Pending,
        Err(e) => r.says("Error: "@ + ("Pairing approval failed: "@ + e@)),
    }
}

/// The outcome of a pairing claim: what the handler of the second engine ended with, and its
/// failure as an error. `silent` says that a reply is the token for having nothing to say.
pub fn conclude_pairing(
    outcome: Result<BridgeOutcome, String>,
    silent: bool,
    message: &IncomingMessage,
    session: &Session,
    thread_id: u128,
) -> (r: HandleOutcome)
    ensures
        concludes_pairing(outcome, silent, *message, session.thread(thread_id), r),
{
    match outcome {
        Ok(BridgeOutcome::Respond(s)) => answer(s, silent, message, session, thread_id),
        Ok(BridgeOutcome::NoResponse) => HandleOutcome::NoResponse,
        Ok(BridgeOutcome::Pending) => HandleOutcome::Pending,
        Err(e) => HandleOutcome::reply(
            text::cat("Error: ", text::cat("Pairing approval failed: ", e.as_str()).as_str()),
        ),
    }
}

/// How a turn ends on its channel.
pub enum Delivery {
    /// Send the response, then close the turn.
    Answer(OutgoingResponse),
    /// Close the turn.
    Close,
    /// Leave the turn open.
    Hold,
    /// Leave the message loop.
    Stop,
}

/// What the message loop does next with a handled message.
pub enum AfterHandling {
    /// Let the hooks see the response before it goes out.
    CheckOutbound(OutgoingResponse),
    Deliver(Delivery),
}

/// What the message loop does with a handled message.
pub open spec fn goes_on(outcome: Result<HandleOutcome, String>, r: AfterHandling) -> bool {
    match outcome {
        Ok(HandleOutcome::Respond(response)) => r == AfterHandling::CheckOutbound(response),
        Ok(HandleOutcome::NoResponse) => r == AfterHandling::Deliver(Delivery::Close),
        Ok(HandleOutcome::Pending) => r == AfterHandling::Deliver(Delivery::Hold),
        Ok(HandleOutcome::Shutdown) => r == AfterHandling::Deliver(Delivery::Stop),
        Err(e) => r matches AfterHandling::Deliver(Delivery::Answer(response))
            && response.is_text("Error: "@ + e@),
    }
}

/// What the message loop does with a handled message.
pub fn after_handling(outcome: Result<HandleOutcome, String>) -> (r: AfterHandling)
    ensures
        goes_on(outcome, r),
{
    match outcome {
        Ok(HandleOutcome::Respond(response)) => AfterHandling::CheckOutbound(response),
        Ok(HandleOutcome::NoResponse) => AfterHandling::Deliver(Delivery::Close),
        Ok(HandleOutcome::Pending) => AfterHandling::Deliver(Delivery::Hold),
        Ok(HandleOutcome::Shutdown) => AfterHandling::Deliver(Delivery::Stop),
        Err(e) => AfterHandling::Deliver(
            Delivery::Answer(OutgoingResponse::text(text::cat("Error: ", e.as_str()))),
        ),
    }
}

/// How a response ends on its channel once the hooks have seen it: a hook can change its
/// text or keep it back.
pub open spec fn released(response: OutgoingResponse, verdict: HookVerdict) -> Delivery {
    match verdict {
        HookVerdict::Rejected { .. } => Delivery::Close,
        HookVerdict::Failed { .. } => Delivery::Close,
        HookVerdict::Modified { content } => Delivery::Answer(
            OutgoingResponse { content, ..response },
        ),
        HookVerdict::Pass => Delivery::Answer(response),
    }
}

/// How a response ends on its channel once the hooks have seen it.
pub fn after_outbound_hook(response: OutgoingResponse, verdict: HookVerdict) -> (r: Delivery)
    ensures
        r == released(response, verdict),
{
    match verdict {
        HookVerdict::Rejected { .. } => Delivery::Close,
        HookVerdict::Failed { .. } => Delivery::Close,
        HookVerdict::Modified { content } => Delivery::Answer(
            OutgoingResponse { content, ..response },
        ),
        HookVerdict::Pass => Delivery::Answer(response),
    }
}

/// One thing to send to a channel. What is sent later does not depend on whether what was
/// sent before arrived.
pub enum ChannelStep {
    Response(OutgoingResponse),
    /// The status that closes the turn.
    Done,
}

/// What is sent to the channel, in order.
pub open spec fn steps(delivery: Delivery) -> Seq<ChannelStep> {
    match delivery {
        Delivery::Answer(response) => seq![ChannelStep::Response(response), ChannelStep::Done],
        Delivery::Close => seq![ChannelStep::Done],
        Delivery::Hold => seq![],
        Delivery::Stop => seq![],
    }
}

/// What is sent to the channel, in order.
pub fn channel_steps(delivery: Delivery) -> (r: Vec<ChannelStep>)
    ensures
        r@ == steps(delivery),
{
    let mut out: Vec<ChannelStep> = Vec::new();
    match delivery {
        Delivery::Answer(response) => {
            out.push(ChannelStep::Response(response));
            out.push(ChannelStep::Done);
        },
        Delivery::Close => {
            out.push(ChannelStep::Done);
        },
        Delivery::Hold => {},
        Delivery::Stop => {},
    }
    assert(out@ =~= steps(delivery));
    out
}

/// How a handled message ends on its channel, with the hooks' word on a response.
pub open spec fn delivered(next: AfterHandling, verdict: HookVerdict) -> Delivery {
    match next {
        AfterHandling::Deliver(delivery) => delivery,
        AfterHandling::CheckOutbound(response) => released(response, verdict),
    }
}

/// One round of the message loop, from the outcome of a message to what its channel gets: a
/// response goes out as the hooks leave it, and the turn is then closed; where they keep it
/// back, or where there is none, the turn is only closed. A turn that waits for the user gets
/// neither. A failure is told, and the turn closed. Only a shutdown ends the loop, without
/// anything being sent.
pub proof fn every_round_answers_then_closes(
    outcome: Result<HandleOutcome, String>,
    next: AfterHandling,
    verdict: HookVerdict,
)
    requires
        goes_on(outcome, next),
    ensures
        ({
            let sent = steps(delivered(next, verdict));
            match outcome {
                Ok(HandleOutcome::Respond(response)) => match verdict {
                    HookVerdict::Rejected { .. } => sent == seq![ChannelStep::Done],
                    HookVerdict::Failed { .. } => sent == seq![ChannelStep::Done],
                    HookVerdict::Modified { content } => sent == seq![
                        ChannelStep::Response(OutgoingResponse { content, ..response }),
                        ChannelStep::Done,
                    ],
                    HookVerdict::Pass => sent == seq![
                        ChannelStep::Response(response),
                        ChannelStep::Done,
                    ],
                },
                Ok(HandleOutcome::NoResponse) => sent == seq![ChannelStep::Done],
                Ok(HandleOutcome::Pending) => sent == Seq::<ChannelStep>::empty(),
                Ok(HandleOutcome::Shutdown) => sent == Seq::<ChannelStep>::empty(),
                Err(e) => {
                    &&& sent.len() == 2
                    &&& sent[0] matches ChannelStep::Response(response)
                    &&& response.is_text("Error: "@ + e@)
                    &&& sent[1] is Done
                },
            }
        }),
        delivered(next, verdict) is Stop <==> (outcome matches Ok(o) && o is Shutdown),
{
}

/// What one delivery sends closes the turn at most once, after everything else that it sends,
/// and it closes the turn whenever it sends a response.
pub proof fn done_comes_last(delivery: Delivery)
    ensures
        forall|i: int|
            0 <= i < steps(delivery).len() ==> (#[trigger] steps(delivery)[i] is Done <==> i
                == steps(delivery).len() - 1),
        steps(delivery).len() == 0 <==> delivery is Hold || delivery is Stop,
{
}

/// A turn that waits for the user is never closed; a turn that ended is, whatever the hooks
/// say to its response and whether or not handling it failed.
pub proof fn only_ended_turns_close(
    outcome: Result<HandleOutcome, String>,
    next: AfterHandling,
    verdict: HookVerdict,
)
    requires
        goes_on(outcome, next),
    ensures
        ({
            let delivery = delivered(next, verdict);
            let stays_open = outcome matches Ok(o) && (o is Pending || o is Shutdown);
            &&& stays_open <==> steps(delivery).len() == 0
            &&& !stays_open ==> steps(delivery).last() is Done
        }),
{
}

/// An answer that says a text is that text and carries nothing else.
pub proof fn answers_say_one_text(o: HandleOutcome, a: Seq<char>, b: Seq<char>)
    requires
        o.says(a),
    ensures
        o is Respond,
        o->Respond_0.content@ == a,
        o->Respond_0.attachments@.len() == 0,
        o->Respond_0.inline_attachments@.len() == 0,
        o.says(b) ==> a == b,
{
}

/// An optional text stands for the signal to stop, for silence or for an answer, one of
/// them and never two.
pub proof fn optional_texts_stand_for_one_outcome(o: HandleOutcome, reply: Option<Seq<char>>)
    requires
        o.stands_for(reply),
    ensures
        o is Shutdown <==> reply is None,
        o is NoResponse <==> reply is Some && reply->0.len() == 0,
        o is Respond <==> reply is Some && reply->0.len() > 0,
        o is Respond ==> o.says(reply->0),
{
}

/// The agent stops for a silent result only where it was started for that message alone.
pub proof fn silence_stops_single_messages_only(o: HandleOutcome, message: IncomingMessage)
    requires
        quiet(o, message),
    ensures
        o is Shutdown <==> message.channel@ == "repl"@ && json::json_content(
            message.metadata,
        ).flag_at("single_message_mode"@) == Some(true),
        o is Shutdown || o is NoResponse,
{
}

/// A result becomes the outcome that fits it: a reply is sent with the images of its turn
/// unless it is empty or silent, an error and an interruption are told, and a turn that waits
/// for the user stays open.
pub proof fn results_become_outcomes(
    result: SubmissionResult,
    silent: bool,
    message: IncomingMessage,
    session: Session,
    thread_id: u128,
    r: HandleOutcome,
)
    requires
        concludes(result, silent, message, session, thread_id, r),
    ensures
        result matches SubmissionResult::Response { content } ==> {
            &&& r is Respond <==> !silent && content@.len() > 0
            &&& r is Respond ==> {
                &&& r->Respond_0.content@ == content@
                &&& images::attachment_views(r->Respond_0.inline_attachments@)
                    == message::last_images(session.thread(thread_id))
            }
            &&& r is Shutdown <==> silent && message::single_message(message)
            &&& !(r is Pending)
        },
        result matches SubmissionResult::Acknowledged { message: reply } ==> {
            &&& r is Respond <==> reply is Some && reply->0@.len() > 0
            &&& r is Respond ==> r.says(reply->0@)
            &&& reply is None ==> r is Shutdown
            &&& !(r is Pending)
        },
        result matches SubmissionResult::Error { message: e } ==> r.says("Error: "@ + e@),
        result is Interrupted ==> r is Respond,
        r is Pending <==> result is NeedApproval || result is AuthPending,
{
    if let SubmissionResult::Acknowledged { message: reply } = result {
        if reply is Some {
            assert(reply->0@.len() == 0 <==> reply->0@ =~= Seq::<char>::empty());
        }
    }
}

/// An acknowledgement without words stops a REPL that was started for one message, unless
/// its thread waits for an approval.
pub proof fn single_messages_end_without_words(
    message: IncomingMessage,
    session: Session,
    thread_id: u128,
    reply: String,
    silent: bool,
    r: HandleOutcome,
)
    requires
        reply@.len() == 0,
        concludes(
            SubmissionResult::Acknowledged { message: Some(reply) },
            silent,
            message,
            session,
            thread_id,
            r,
        ),
    ensures
        r is Shutdown <==> message::single_message(message) && !(session.thread(
            thread_id,
        ) is Some && session.thread(thread_id)->0.state == ThreadState::AwaitingApproval),
        r is Shutdown || r is NoResponse,
{
    assert(reply@ =~= Seq::<char>::empty());
}

/// The outcome of the `/reasoning` command is its text; anything without one ends quietly.
pub proof fn reasoning_is_its_text(
    result: SubmissionResult,
    message: IncomingMessage,
    r: HandleOutcome,
)
    requires
        concludes_reasoning(result, message, r),
    ensures
        result matches SubmissionResult::Response { content } ==> r.says(content@),
        result matches SubmissionResult::Error { message: e } ==> r.says("Error: "@ + e@),
        plain_text(result) is None && !(result is Acknowledged) ==> quiet(r, message),
{
}

/// What a result says in plain words is its reply, its acknowledgement or its error.
pub proof fn plain_text_is_what_is_said(result: SubmissionResult)
    ensures
        result matches SubmissionResult::Response { content } ==> plain_text(result) == Some(
            content@,
        ),
        result matches SubmissionResult::Acknowledged { message: Some(m) } ==> plain_text(result)
            == Some(m@),
        result matches SubmissionResult::Error { message: e } ==> plain_text(result) is Some
            && text::begins_with(plain_text(result)->0, "Error: "@),
        result is Interrupted || result is AuthPending || result is NeedApproval ==> plain_text(
            result,
        ) is None,
{
    if let SubmissionResult::Error { message: e } = result {
        let t = plain_text(result)->0;
        assert(t.take("Error: "@.len() as int) =~= "Error: "@);
    }
}

/// The first input after a daily reset ends like any other, but for its images and for an
/// interruption, which is not told.
pub proof fn reset_turns_end_like_others(
    result: SubmissionResult,
    silent: bool,
    message: IncomingMessage,
    r: HandleOutcome,
)
    requires
        concludes_after_reset(result, silent, message, r),
    ensures
        result matches SubmissionResult::Response { content } ==> {
            &&& r is Respond <==> !silent && content@.len() > 0
            &&& r is Respond ==> r.says(content@)
        },
        result matches SubmissionResult::Acknowledged { message: Some(m) } ==> (m@.len() > 0
            ==> r.says(m@)),
        result matches SubmissionResult::Error { message: e } ==> r.says("Error: "@ + e@),
        r is Pending <==> result is NeedApproval || result is AuthPending,
        result is Interrupted ==> r is NoResponse,
{
}

/// A pairing claim ends with what the second engine says of it; a failure is told with its
/// reason, and the agent goes on.
pub proof fn pairing_ends_as_the_engine_says(
    outcome: Result<BridgeOutcome, String>,
    silent: bool,
    message: IncomingMessage,
    thread: Option<Thread>,
    r: HandleOutcome,
)
    requires
        concludes_pairing(outcome, silent, message, thread, r),
    ensures
        outcome matches Ok(BridgeOutcome::Respond(s)) ==> (!silent && s@.len() > 0 ==> r is Respond
            && r->Respond_0.content@ == s@),
        r is Pending <==> outcome is Ok && outcome->Ok_0 is Pending,
        outcome matches Ok(o) ==> (o is NoResponse ==> r is NoResponse),
        outcome matches Err(e) ==> {
            &&& r is Respond
            &&& r->Respond_0.content@.len() >= e@.len()
            &&& r->Respond_0.content@.skip(r->Respond_0.content@.len() - e@.len()) == e@
        },
        r is Shutdown ==> silent && message::single_message(message),
{
    if let Err(e) = outcome {
        let c = r->Respond_0.content@;
        assert(c.skip(c.len() - e@.len()) =~= e@);
    }
}

/// A reply is answered with its own text and the images of its turn, and with nothing else;
/// one that is empty or says that there is nothing to say is not answered.
pub proof fn replies_carry_their_images(
    content: String,
    silent: bool,
    message: IncomingMessage,
    thread: Option<Thread>,
    r: HandleOutcome,
)
    requires
        answers(content, silent, message, thread, r),
    ensures
        !silent && content@.len() > 0 ==> {
            &&& r matches HandleOutcome::Respond(o)
            &&& o.content@ == content@
            &&& o.attachments@.len() == 0
            &&& images::attachment_views(o.inline_attachments@) == message::last_images(thread)
        },
        silent || content@.len() == 0 ==> !(r is Respond),
{
}

} // verus!
