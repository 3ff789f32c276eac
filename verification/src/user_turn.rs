//! The course of a turn that user text begins.
//!
//! The course is a machine. Each step names the outside work to do next, and takes the
//! outcome of that work as the event of the step after it.

use vstd::prelude::*;

use crate::agentic::AgenticLoopResult;
use crate::chat;
use crate::chat::ChatMessage;
use crate::commands::MessageIntent;
use crate::compaction;
use crate::json;
use crate::notice;
use crate::notice::Notice;
use crate::session;
use crate::session::{Session, Thread, ThreadState};
use crate::store;
use crate::store::StoreWrite;
use crate::submission::{LoopError, SubmissionResult};
use crate::text;
use crate::turn;
use crate::turn::{CheckpointData, PolicyAction, ValidationIssue};

verus! {

broadcast use vstd::std_specs::hash::group_hash_axioms;

/// What happened outside since the last step.
pub enum TurnEvent {
    Begin,
    /// What the safety checks found in the text.
    Checked { is_valid: bool, issues: Vec<ValidationIssue>, violations: Vec<PolicyAction> },
    /// What the router found in the text.
    Routed(Option<MessageIntent>),
    /// Whether the context should be compacted.
    Measured { compact: bool },
    Flushed,
    Compacted,
    CheckpointTaken,
    /// The loop around the model ended. `chain_id` is the id that the model's provider
    /// chains the next answer to.
    LoopEnded { result: Result<AgenticLoopResult, String>, chain_id: Option<String> },
}

/// The outside work to do next.
#[allow(inconsistent_fields)]
pub enum TurnAction {
    /// Check the text for safety.
    Check,
    /// Look for a command in the text.
    Route,
    /// The text is a command: what handling it gives is the result.
    Delegate(MessageIntent),
    /// Find out whether the context, these messages, should be compacted.
    Measure { messages: Vec<ChatMessage> },
    /// Let the model write down what it wants to remember.
    Flush,
    /// Compact the thread.
    Compact,
    TakeCheckpoint(CheckpointData),
    /// Show the status update, and run the loop around the model.
    RunLoop { notice: Notice, messages: Vec<ChatMessage> },
    /// Store the id for the model's provider, show the status updates, do the writes in
    /// order until one fails, and end with the result.
    Finish {
        chain_id: Option<String>,
        notices: Vec<Notice>,
        writes: Vec<StoreWrite>,
        result: SubmissionResult,
    },
    /// The turn cannot go on.
    Fail(LoopError),
    /// The event came out of turn: nothing happened.
    Ignore,
}

/// What the turn waits for.
#[derive(Clone, Copy, Debug, PartialEq, Eq, Structural)]
pub enum TurnPhase {
    Ready,
    Checking,
    Routing,
    Measuring,
    Flushing,
    Compacting,
    Checkpointing,
    Running,
    Ended,
}

/// What a turn knows of its surroundings.
#[derive(Clone, Copy, Debug, PartialEq, Eq, Structural)]
pub struct TurnSetup {
    pub has_store: bool,
    pub has_workspace: bool,
    pub flush_enabled: bool,
}

/// A turn.
pub struct UserTurn {
    pub thread_id: u128,
    pub content: String,
    pub setup: TurnSetup,
    /// The number of the compaction that is under way.
    pub count: u64,
    pub phase: TurnPhase,
}

/// The turn in another phase.
pub open spec fn in_phase(turn: UserTurn, phase: TurnPhase) -> UserTurn {
    UserTurn { phase, ..turn }
}

/// The turn ends because its thread is gone.
pub open spec fn thread_gone(turn: UserTurn, after: UserTurn, action: TurnAction) -> bool {
    &&& after == in_phase(turn, TurnPhase::Ended)
    &&& action matches TurnAction::Fail(e)
    &&& e.misses(turn.thread_id)
}

/// The turn ends with a result and nothing else.
pub open spec fn refuses(action: TurnAction, message: Seq<char>) -> bool {
    &&& action matches TurnAction::Finish { chain_id, notices, writes, result }
    &&& chain_id is None
    &&& notices@.len() == 0
    &&& writes@.len() == 0
    &&& result.complains(message)
}

/// The turn ends because its text has to wait for the one under way.
pub open spec fn waits(action: TurnAction) -> bool {
    &&& action matches TurnAction::Finish { chain_id, notices, writes, result }
    &&& chain_id is None
    &&& notices@.len() == 0
    &&& writes@.len() == 0
    &&& result.acknowledges(turn::queued_text())
}

/// The checkpoint before the turn is to be taken.
pub open spec fn asks_checkpoint(
    turn: UserTurn,
    after: UserTurn,
    session: Session,
    action: TurnAction,
) -> bool {
    match session.thread(turn.thread_id) {
        None => thread_gone(turn, after, action),
        Some(t) => {
            &&& after == in_phase(turn, TurnPhase::Checkpointing)
            &&& action matches TurnAction::TakeCheckpoint(c)
            &&& turn::describes(c, t)
        },
    }
}

/// The compaction is counted, and is to be done.
pub open spec fn asks_compaction(
    turn: UserTurn,
    after: UserTurn,
    old: Session,
    new: Session,
    action: TurnAction,
) -> bool {
    match old.thread(turn.thread_id) {
        None => thread_gone(turn, after, action) && session::untouched(old, new),
        Some(t) => {
            &&& after == in_phase(turn, TurnPhase::Compacting)
            &&& action is Compact
            &&& new.thread(turn.thread_id) matches Some(n)
            &&& n == (Thread { metadata: n.metadata, ..t })
            &&& json::json_content(n.metadata) == compaction::counted(
                json::json_content(t.metadata),
                "compaction_count"@,
                turn.count,
            )
            &&& session::refiled(old, new, turn.thread_id, n)
        },
    }
}

/// The writes that a turn ends with: a reply is stored with the text that it answers, and
/// the text alone where the turn failed.
pub open spec fn stores(
    turn: UserTurn,
    run: Result<AgenticLoopResult, String>,
    writes: Seq<StoreWrite>,
) -> bool {
    let asked = turn.content@;
    match run {
        Ok(AgenticLoopResult::Response(s)) => store::writes_turn(
            writes,
            turn.setup.has_store,
            asked,
            Some(s@),
        ),
        Ok(AgenticLoopResult::NeedApproval { .. }) => writes.len() == 0,
        Err(_) => store::writes_turn(writes, turn.setup.has_store, asked, None),
    }
}

/// A step of the turn is the right one.
pub open spec fn turn_steps(
    turn: UserTurn,
    after: UserTurn,
    old: Session,
    new: Session,
    event: TurnEvent,
    action: TurnAction,
) -> bool {
    let id = turn.thread_id;
    match (turn.phase, event) {
        (TurnPhase::Ready, TurnEvent::Begin) => match old.thread(id) {
            None => thread_gone(turn, after, action) && new == old,
            Some(t) => if t.state == ThreadState::Processing {
                &&& after == in_phase(turn, TurnPhase::Ended)
                &&& waits(action)
                &&& new.thread(id) matches Some(n)
                &&& session::queued(t, n, turn.content@)
                &&& session::refiled(old, new, id, n)
            } else {
                &&& new == old
                &&& match turn::busy_text(t.state) {
                    Some(s) => after == in_phase(turn, TurnPhase::Ended) && refuses(action, s),
                    None => after == in_phase(turn, TurnPhase::Checking) && action is Check,
                }
            },
        },
        (TurnPhase::Checking, TurnEvent::Checked { is_valid, issues, violations }) => {
            &&& new == old
            &&& if !is_valid {
                after == in_phase(turn, TurnPhase::Ended) && refuses(
                    action,
                    "Input rejected by safety validation: "@ + turn::details(issues@),
                )
            } else if turn::blocks(violations@) {
                after == in_phase(turn, TurnPhase::Ended) && refuses(
                    action,
                    "Input rejected by safety policy."@,
                )
            } else {
                after == in_phase(turn, TurnPhase::Routing) && action is Route
            }
        },
        (TurnPhase::Routing, TurnEvent::Routed(intent)) => {
            &&& new == old
            &&& match intent {
                Some(i) => after == in_phase(turn, TurnPhase::Ended) && action
                    == TurnAction::Delegate(i),
                None => match old.thread(id) {
                    None => thread_gone(turn, after, action),
                    Some(t) => {
                        &&& after == in_phase(turn, TurnPhase::Measuring)
                        &&& action matches TurnAction::Measure { messages }
                        &&& chat::views(messages@) == t.history()
                    },
                },
            }
        },
        (TurnPhase::Measuring, TurnEvent::Measured { compact }) => match old.thread(id) {
            None => thread_gone(turn, after, action) && session::untouched(old, new),
            Some(t) => {
                let data = json::json_content(t.metadata);
                let count = compaction::next_count(data);
                if !compact || count > u64::MAX {
                    new == old && asks_checkpoint(turn, after, old, action)
                } else if compaction::flush_due(
                    data,
                    turn.setup.flush_enabled,
                    turn.setup.has_workspace,
                ) {
                    &&& after.count == count
                    &&& after == (UserTurn {
                        count: after.count,
                        ..in_phase(turn, TurnPhase::Flushing)
                    })
                    &&& action is Flush
                    &&& new.thread(id) matches Some(n)
                    &&& compaction::begun(t, n, after.count, true)
                    &&& session::refiled(old, new, id, n)
                } else {
                    &&& after.count == count
                    &&& asks_compaction(
                        UserTurn { count: after.count, ..turn },
                        after,
                        old,
                        new,
                        action,
                    )
                }
            },
        },
        (TurnPhase::Flushing, TurnEvent::Flushed) => asks_compaction(turn, after, old, new, action),
        (TurnPhase::Compacting, TurnEvent::Compacted) => new == old && asks_checkpoint(
            turn,
            after,
            old,
            action,
        ),
        (TurnPhase::Checkpointing, TurnEvent::CheckpointTaken) => match old.thread(id) {
            None => thread_gone(turn, after, action) && session::untouched(old, new),
            Some(t) => {
                &&& after == in_phase(turn, TurnPhase::Running)
                &&& new.thread(id) matches Some(n)
                &&& turn::turn_opened(t, n, turn.content@)
                &&& session::refiled(old, new, id, n)
                &&& action matches TurnAction::RunLoop { notice, messages }
                &&& notice@ == notice::NoticeView::Thinking("Processing..."@)
                &&& chat::views(messages@) == t.history().push(
                    chat::MessageView::plain(chat::Role::User, turn.content@),
                )
            },
        },
        (TurnPhase::Running, TurnEvent::LoopEnded { result: run, chain_id }) => match old.thread(
            id,
        ) {
            None => thread_gone(turn, after, action) && session::untouched(old, new),
            Some(t) => {
                &&& after == in_phase(turn, TurnPhase::Ended)
                &&& action matches TurnAction::Finish { chain_id: stored, notices, writes, result }
                &&& if t.state == ThreadState::Interrupted {
                    &&& new == old
                    &&& stored is None
                    &&& result is Interrupted
                    &&& notice::notice_views(notices@) == seq![
                        notice::NoticeView::Status("Interrupted"@),
                    ]
                    &&& writes@.len() == 0
                } else {
                    &&& new.thread(id) matches Some(n)
                    &&& turn::ended(t, run, chain_id, n)
                    &&& session::refiled(old, new, id, n)
                    &&& turn::turn_result(run, result)
                    &&& json::string_of(stored) == turn::stored_chain(run, chain_id)
                    &&& notice::notice_views(notices@) == turn::turn_notice(run)
                    &&& stores(turn, run, writes@)
                }
            },
        },
        _ => after == turn && new == old && action is Ignore,
    }
}

impl UserTurn {
    /// A turn that has not begun.
    pub fn new(thread_id: u128, content: String, setup: TurnSetup) -> (r: UserTurn)
        ensures
            r == (UserTurn { thread_id, content, setup, count: 0, phase: TurnPhase::Ready }),
    {
        UserTurn { thread_id, content, setup, count: 0, phase: TurnPhase::Ready }
    }

    fn fail(&mut self, e: LoopError) -> (r: TurnAction)
        ensures
            *final(self) == in_phase(*old(self), TurnPhase::Ended),
            r == TurnAction::Fail(e),
    {
        self.phase = TurnPhase::Ended;
        TurnAction::Fail(e)
    }

    fn end(&mut self, result: SubmissionResult) -> (r: TurnAction)
        ensures
            *final(self) == in_phase(*old(self), TurnPhase::Ended),
            r matches TurnAction::Finish { chain_id, notices, writes, result: given }
                && chain_id is None && notices@.len() == 0 && writes@.len() == 0 && given
                == result,
    {
        self.phase = TurnPhase::Ended;
        TurnAction::Finish {
            chain_id: None,
            notices: Vec::new(),
            writes: Vec::new(),
            result,
        }
    }

    fn ask_checkpoint(&mut self, session: &Session) -> (r: TurnAction)
        ensures
            asks_checkpoint(*old(self), *final(self), *session, r),
    {
        match turn::checkpoint_before_turn(session, self.thread_id) {
            Ok(c) => {
                self.phase = TurnPhase::Checkpointing;
                TurnAction::TakeCheckpoint(c)
            },
            Err(e) => self.fail(e),
        }
    }

    fn ask_compaction(&mut self, session: &mut Session) -> (r: TurnAction)
        ensures
            asks_compaction(*old(self), *final(self), *old(session), *final(session), r),
    {
        match compaction::record_compaction(session, self.thread_id, self.count) {
            Ok(_) => {
                self.phase = TurnPhase::Compacting;
                TurnAction::Compact
            },
            Err(e) => self.fail(e),
        }
    }

    fn measured(&mut self, session: &mut Session, compact: bool) -> (r: TurnAction)
        requires
            old(self).phase == TurnPhase::Measuring,
        ensures
            turn_steps(
                *old(self),
                *final(self),
                *old(session),
                *final(session),
                TurnEvent::Measured { compact },
                r,
            ),
    {
        if !compact {
            return self.ask_checkpoint(session);
        }
        let ghost before = session.threads@;
        match compaction::begin_compaction_if_counted(
            session,
            self.thread_id,
            self.setup.flush_enabled,
            self.setup.has_workspace,
        ) {
            None => self.ask_checkpoint(session),
            Some(Err(e)) => self.fail(e),
            Some(Ok(c)) => {
                self.count = c.count;
                if c.run_flush {
                    self.phase = TurnPhase::Flushing;
                    TurnAction::Flush
                } else {
                    assert(before =~= before.insert(self.thread_id, before[self.thread_id]));
                    let ghost mid = session.threads@;
                    let r = self.ask_compaction(session);
                    assert(mid == before);
                    r
                }
            },
        }
    }

    fn loop_ended(
        &mut self,
        session: &mut Session,
        run: Result<AgenticLoopResult, String>,
        chain_id: Option<String>,
    ) -> (r: TurnAction)
        requires
            old(self).phase == TurnPhase::Running,
        ensures
            turn_steps(
                *old(self),
                *final(self),
                *old(session),
                *final(session),
                TurnEvent::LoopEnded { result: run, chain_id },
                r,
            ),
    {
        let writes: Vec<StoreWrite> = match &run {
            Ok(AgenticLoopResult::Response(s)) => store::turn_writes(
                self.setup.has_store,
                self.content.as_str(),
                Some(s.as_str()),
            ),
            Ok(AgenticLoopResult::NeedApproval { .. }) => Vec::new(),
            Err(_) => store::turn_writes(self.setup.has_store, self.content.as_str(), None),
        };
        match turn::conclude_turn(session, self.thread_id, run, chain_id) {
            Err(e) => self.fail(e),
            Ok(end) => {
                self.phase = TurnPhase::Ended;
                let interrupted: bool = match &end.result {
                    SubmissionResult::Interrupted => true,
                    _ => false,
                };
                let writes = if interrupted {
                    Vec::new()
                } else {
                    writes
                };
                TurnAction::Finish {
                    chain_id: end.chain_id,
                    notices: end.notices,
                    writes,
                    result: end.result,
                }
            },
        }
    }

    /// Takes one step of the turn. A thread whose count of compactions is exhausted is not
    /// compacted any more.
    pub fn step(&mut self, session: &mut Session, event: TurnEvent) -> (r: TurnAction)
        ensures
            turn_steps(*old(self), *final(self), *old(session), *final(session), event, r),
    {
        match (self.phase, event) {
            (TurnPhase::Ready, TurnEvent::Begin) => match turn::admit_text(
                session,
                self.thread_id,
                self.content.as_str(),
            ) {
                Err(e) => self.fail(e),
                Ok(Some(result)) => self.end(result),
                Ok(None) => {
                    self.phase = TurnPhase::Checking;
                    TurnAction::Check
                },
            },
            (TurnPhase::Checking, TurnEvent::Checked { is_valid, issues, violations }) =>
                match turn::check_input(is_valid, &issues, &violations) {
                Some(result) => self.end(result),
                None => {
                    self.phase = TurnPhase::Routing;
                    TurnAction::Route
                },
            },
            (TurnPhase::Routing, TurnEvent::Routed(intent)) => match intent {
                Some(i) => {
                    self.phase = TurnPhase::Ended;
                    TurnAction::Delegate(i)
                },
                None => match session.threads.get(&self.thread_id) {
                    None => self.fail(LoopError::NotFound { id: self.thread_id }),
                    Some(thread) => {
                        let messages = thread.messages();
                        self.phase = TurnPhase::Measuring;
                        TurnAction::Measure { messages }
                    },
                },
            },
            (TurnPhase::Measuring, TurnEvent::Measured { compact }) => self.measured(
                session,
                compact,
            ),
            (TurnPhase::Flushing, TurnEvent::Flushed) => self.ask_compaction(session),
            (TurnPhase::Compacting, TurnEvent::Compacted) => self.ask_checkpoint(session),
            (TurnPhase::Checkpointing, TurnEvent::CheckpointTaken) => match turn::open_turn(
                session,
                self.thread_id,
                self.content.as_str(),
            ) {
                Err(e) => self.fail(e),
                Ok(messages) => {
                    self.phase = TurnPhase::Running;
                    TurnAction::RunLoop {
                        notice: Notice::Thinking("Processing...".to_owned()),
                        messages,
                    }
                },
            },
            (TurnPhase::Running, TurnEvent::LoopEnded { result, chain_id }) => self.loop_ended(
                session,
                result,
                chain_id,
            ),
            _ => TurnAction::Ignore,
        }
    }
}

/// How far a turn has come.
pub open spec fn stage(phase: TurnPhase) -> int {
    match phase {
        TurnPhase::Ready => 0,
        TurnPhase::Checking => 1,
        TurnPhase::Routing => 2,
        TurnPhase::Measuring => 3,
        TurnPhase::Flushing => 4,
        TurnPhase::Compacting => 5,
        TurnPhase::Checkpointing => 6,
        TurnPhase::Running => 7,
        TurnPhase::Ended => 8,
    }
}

/// Every event that is not out of turn brings a turn further, so that it ends after eight
/// steps at most.
pub proof fn turn_goes_forward(
    turn: UserTurn,
    after: UserTurn,
    old: Session,
    new: Session,
    event: TurnEvent,
    action: TurnAction,
)
    requires
        turn_steps(turn, after, old, new, event, action),
    ensures
        action is Ignore ==> after == turn && new == old,
        !(action is Ignore) ==> stage(turn.phase) < stage(after.phase) <= 8,
{
}

/// The text of the user enters the history of its thread only once it has passed the checks
/// and a checkpoint has been taken: no step before that changes a turn or the state of any
/// thread.
pub proof fn history_grows_after_the_checks(
    turn: UserTurn,
    after: UserTurn,
    old: Session,
    new: Session,
    event: TurnEvent,
    action: TurnAction,
    thread_id: u128,
)
    requires
        turn_steps(turn, after, old, new, event, action),
        stage(turn.phase) < stage(TurnPhase::Checkpointing),
    ensures
        match (old.thread(thread_id), new.thread(thread_id)) {
            (Some(o), Some(n)) => n.turns == o.turns && n.state == o.state,
            (None, None) => true,
            _ => false,
        },
{
}

/// A text that is refused leaves the session as it was.
pub proof fn refused_text_changes_nothing(
    turn: UserTurn,
    after: UserTurn,
    old: Session,
    new: Session,
    event: TurnEvent,
    action: TurnAction,
)
    requires
        turn_steps(turn, after, old, new, event, action),
        turn.phase != TurnPhase::Running,
        action is Finish,
        !(action->Finish_result is Acknowledged),
    ensures
        new == old,
        action->Finish_result is Error,
        action->Finish_writes@.len() == 0,
{
}

/// A text that comes while its thread is in a turn is not lost: it waits at the end of the
/// queue, and the turn under way goes on undisturbed.
pub proof fn text_for_a_running_turn_waits(
    turn: UserTurn,
    after: UserTurn,
    old: Session,
    new: Session,
    action: TurnAction,
)
    requires
        turn_steps(turn, after, old, new, TurnEvent::Begin, action),
        turn.phase == TurnPhase::Ready,
        old.thread(turn.thread_id) matches Some(t) && t.state == ThreadState::Processing,
    ensures
        waits(action),
        ({
            let o = old.thread(turn.thread_id)->0;
            &&& new.thread(turn.thread_id) matches Some(n)
            &&& n.turns == o.turns
            &&& n.state == o.state
            &&& text::texts(n.pending_messages@) == text::texts(o.pending_messages@).push(
                turn.content@,
            )
        }),
{
    let o = old.thread(turn.thread_id)->0;
    let n = new.thread(turn.thread_id)->0;
    assert(n.pending_messages@ =~= o.pending_messages@.push(n.pending_messages@.last()));
    assert(text::texts(n.pending_messages@) =~= text::texts(o.pending_messages@).push(
        turn.content@,
    ));
}

/// No status update of a turn closes it: the channel gets the reply first.
pub proof fn turns_are_closed_by_their_reply(
    turn: UserTurn,
    after: UserTurn,
    old: Session,
    new: Session,
    event: TurnEvent,
    action: TurnAction,
)
    requires
        turn_steps(turn, after, old, new, event, action),
    ensures
        action matches TurnAction::Finish { notices, .. } ==> notice::keep_open(
            notice::notice_views(notices@),
        ),
        action matches TurnAction::RunLoop { notice, .. } ==> !notice::closes(notice@),
{
    turn::statuses_keep_open();
    if let TurnEvent::LoopEnded { result, .. } = event {
        turn::turn_notice_keeps_open(result);
    }
}

/// A thread takes user text unless it waits for an approval, is completed or is in a turn:
/// idle or interrupted, it has the text checked, and nothing has changed yet. A refusal is
/// told as an error, a text for a busy thread is acknowledged.
pub proof fn threads_have_their_text_checked(
    turn: UserTurn,
    after: UserTurn,
    old: Session,
    new: Session,
    action: TurnAction,
)
    requires
        turn_steps(turn, after, old, new, TurnEvent::Begin, action),
        turn.phase == TurnPhase::Ready,
    ensures
        match old.thread(turn.thread_id) {
            None => action == TurnAction::Fail(LoopError::NotFound { id: turn.thread_id }),
            Some(t) => match t.state {
                ThreadState::Idle => action is Check && new == old && after.phase
                    == TurnPhase::Checking,
                ThreadState::Interrupted => action is Check && new == old && after.phase
                    == TurnPhase::Checking,
                ThreadState::Processing => action is Finish && action->result is Acknowledged,
                _ => action is Finish && action->result is Error && new == old,
            },
        },
        after.content == turn.content,
        after.thread_id == turn.thread_id,
        after.setup == turn.setup,
{
    turn::threads_take_text_unless_they_wait(ThreadState::Idle);
}

/// A text that is valid and that no rule blocks goes on to be routed; any other is refused
/// with an error that tells every issue, and the session stays as it was.
pub proof fn safe_text_goes_on(
    turn: UserTurn,
    after: UserTurn,
    old: Session,
    new: Session,
    is_valid: bool,
    issues: Vec<ValidationIssue>,
    violations: Vec<PolicyAction>,
    action: TurnAction,
)
    requires
        turn_steps(
            turn,
            after,
            old,
            new,
            TurnEvent::Checked { is_valid, issues, violations },
            action,
        ),
        turn.phase == TurnPhase::Checking,
    ensures
        new == old,
        action is Route <==> is_valid && forall|i: int|
            0 <= i < violations@.len() ==> #[trigger] violations@[i] != PolicyAction::Block,
        action is Route ==> after.phase == TurnPhase::Routing,
        !(action is Route) ==> {
            &&& action is Finish
            &&& action->result is Error
            &&& action->writes@.len() == 0
            &&& action->notices@.len() == 0
            &&& after.phase == TurnPhase::Ended
            &&& !is_valid ==> {
                let m = action->result->Error_message@;
                let d = turn::details(issues@);
                m.len() >= d.len() && m.skip(m.len() - d.len()) == d
            }
        },
{
    turn::one_blocking_rule_is_enough(violations@);
    if !is_valid {
        let m = action->result->Error_message@;
        let d = turn::details(issues@);
        assert(m.skip(m.len() - d.len()) =~= d);
    }
}

/// A command in the text is handled as that command and begins no turn; any other text has
/// the conversation so far measured.
pub proof fn commands_are_handled_as_such(
    turn: UserTurn,
    after: UserTurn,
    old: Session,
    new: Session,
    intent: Option<MessageIntent>,
    action: TurnAction,
)
    requires
        turn_steps(turn, after, old, new, TurnEvent::Routed(intent), action),
        turn.phase == TurnPhase::Routing,
    ensures
        new == old,
        intent matches Some(i) ==> action == TurnAction::Delegate(i),
        intent is None && old.thread(turn.thread_id) is Some ==> {
            &&& action is Measure
            &&& chat::views(action->Measure_messages@) == old.thread(turn.thread_id)->0.history()
        },
        after.content == turn.content,
{
}

/// A context that should be compacted is, once its compaction has been counted, and the
/// memory is flushed before it where that is due; otherwise the checkpoint comes next.
pub proof fn full_contexts_are_compacted(
    turn: UserTurn,
    after: UserTurn,
    old: Session,
    new: Session,
    compact: bool,
    action: TurnAction,
)
    requires
        turn_steps(turn, after, old, new, TurnEvent::Measured { compact }, action),
        turn.phase == TurnPhase::Measuring,
        old.thread(turn.thread_id) is Some,
    ensures
        ({
            let t = old.thread(turn.thread_id)->0;
            let data = json::json_content(t.metadata);
            let last = data.count_at("compaction_count"@);
            let room = last != Some(u64::MAX);
            let due = turn.setup.flush_enabled && turn.setup.has_workspace && data.count_at(
                "memory_flush_compaction_count"@,
            ) != Some(after.count);
            &&& action is TakeCheckpoint <==> !compact || !room
            &&& compact && room ==> {
                &&& last matches Some(n) ==> after.count == n + 1
                &&& last is None ==> after.count == 1
                &&& action is Flush <==> due
                &&& action is Compact <==> !due
                &&& action is Compact ==> json::json_content(
                    new.thread(turn.thread_id)->0.metadata,
                ).count_at("compaction_count"@) == Some(after.count)
            }
            &&& new.thread(turn.thread_id) matches Some(n) && n.turns == t.turns && n.state
                == t.state
        }),
{
    let t = old.thread(turn.thread_id)->0;
    let data = json::json_content(t.metadata);
    compaction::noted_numbers_read_back(data, "compaction_count"@, after.count, seq![]);
}

/// After the flush comes the compaction, after the compaction the checkpoint, and the
/// checkpoint holds the conversation and the number of the turn to come.
pub proof fn checkpoints_follow_the_compaction(
    turn: UserTurn,
    after: UserTurn,
    old: Session,
    new: Session,
    event: TurnEvent,
    action: TurnAction,
)
    requires
        turn_steps(turn, after, old, new, event, action),
        old.thread(turn.thread_id) is Some,
    ensures
        turn.phase == TurnPhase::Flushing && event is Flushed ==> {
            &&& action is Compact
            &&& json::json_content(new.thread(turn.thread_id)->0.metadata).count_at(
                "compaction_count"@,
            ) == Some(turn.count)
            &&& new.thread(turn.thread_id)->0.turns == old.thread(turn.thread_id)->0.turns
        },
        turn.phase == TurnPhase::Compacting && event is Compacted ==> action is TakeCheckpoint
            && new == old,
        action matches TurnAction::TakeCheckpoint(c) ==> {
            &&& chat::views(c.messages@) == old.thread(turn.thread_id)->0.history()
            &&& c.turn_number == old.thread(turn.thread_id)->0.turns@.len() + 1
        },
{
    let t = old.thread(turn.thread_id)->0;
    compaction::noted_numbers_read_back(
        json::json_content(t.metadata),
        "compaction_count"@,
        turn.count,
        seq![],
    );
}

/// Once the checkpoint is taken the turn begins with the text that was submitted, and the
/// model gets the conversation with that text at its end.
pub proof fn model_gets_the_conversation(
    turn: UserTurn,
    after: UserTurn,
    old: Session,
    new: Session,
    action: TurnAction,
)
    requires
        turn_steps(turn, after, old, new, TurnEvent::CheckpointTaken, action),
        turn.phase == TurnPhase::Checkpointing,
        old.thread(turn.thread_id) is Some,
    ensures
        ({
            let t = old.thread(turn.thread_id)->0;
            &&& action is RunLoop
            &&& ({
                let m = chat::views(action->RunLoop_messages@);
                &&& m.len() == t.history().len() + 1
                &&& m.drop_last() == t.history()
                &&& m.last().role == chat::Role::User
                &&& m.last().content == turn.content@
            })
            &&& new.thread(turn.thread_id) matches Some(n)
            &&& n.state == ThreadState::Processing
            &&& n.turns@.len() == t.turns@.len() + 1
            &&& n.turns@.last().user_input@ == turn.content@
            &&& n.turns@.drop_last() == t.turns@
        }),
{
    let t = old.thread(turn.thread_id)->0;
    assert(t.history().push(
        chat::MessageView::plain(chat::Role::User, turn.content@),
    ).drop_last() =~= t.history());
}

/// When the loop ends, its result becomes the turn's: a reply is stored with the text that it
/// answers, a failure leaves the text alone stored, and neither a pending approval nor an
/// interruption stores anything. An interrupted turn drops the result.
pub proof fn turns_end_with_their_result(
    turn: UserTurn,
    after: UserTurn,
    old: Session,
    new: Session,
    run: Result<AgenticLoopResult, String>,
    chain_id: Option<String>,
    action: TurnAction,
)
    requires
        turn_steps(
            turn,
            after,
            old,
            new,
            TurnEvent::LoopEnded { result: run, chain_id },
            action,
        ),
        turn.phase == TurnPhase::Running,
        old.thread(turn.thread_id) is Some,
    ensures
        action is Finish,
        after.phase == TurnPhase::Ended,
        ({
            let t = old.thread(turn.thread_id)->0;
            let stored = store::appended(action->writes@);
            if t.state == ThreadState::Interrupted {
                &&& action->result is Interrupted
                &&& new == old
                &&& action->writes@.len() == 0
                &&& action->Finish_chain_id is None
            } else {
                match run {
                    Ok(AgenticLoopResult::Response(s)) => {
                        &&& action->result.replies(s@)
                        &&& json::string_of(action->Finish_chain_id) == json::string_of(chain_id)
                        &&& turn.setup.has_store ==> {
                            &&& stored.len() == 2
                            &&& stored[0].role == "user"@
                            &&& stored[0].content == turn.content@
                            &&& stored[1].role == "assistant"@
                            &&& stored[1].content == s@
                        }
                        &&& !turn.setup.has_store ==> action->writes@.len() == 0
                    },
                    Ok(AgenticLoopResult::NeedApproval { .. }) => {
                        &&& action->result is NeedApproval
                        &&& action->writes@.len() == 0
                    },
                    Err(e) => {
                        &&& action->result.complains(e@)
                        &&& turn.setup.has_store ==> {
                            &&& stored.len() == 1
                            &&& stored[0].role == "user"@
                            &&& stored[0].content == turn.content@
                        }
                    },
                }
            }
        }),
{
}

/// A turn whose thread is gone fails with that thread's id, wherever it stands.
pub proof fn gone_threads_fail_the_turn(
    turn: UserTurn,
    after: UserTurn,
    old: Session,
    new: Session,
    event: TurnEvent,
    action: TurnAction,
)
    requires
        turn_steps(turn, after, old, new, event, action),
        old.thread(turn.thread_id) is None,
    ensures
        new.threads@ == old.threads@,
        action is Fail || action is Ignore || action is Delegate || action is Route
            || action is Finish,
        action matches TurnAction::Fail(e) ==> e == (LoopError::NotFound { id: turn.thread_id }),
        action is Finish ==> action->result is Error,
{
}

/// A turn touches its own thread and nothing else of the session, goes on with the text that
/// it began with, and neither makes a thread nor drops one.
pub proof fn turns_touch_their_thread_only(
    turn: UserTurn,
    after: UserTurn,
    old: Session,
    new: Session,
    event: TurnEvent,
    action: TurnAction,
    other: u128,
    tool: Seq<char>,
)
    requires
        turn_steps(turn, after, old, new, event, action),
    ensures
        other != turn.thread_id ==> new.thread(other) == old.thread(other),
        new.thread(turn.thread_id) is Some <==> old.thread(turn.thread_id) is Some,
        new.active_thread == old.active_thread,
        new.last_active_at == old.last_active_at,
        new.auto_approves(tool) == old.auto_approves(tool),
        after.thread_id == turn.thread_id,
        after.content == turn.content,
        after.setup == turn.setup,
{
}

/// A text that is refused or has to wait leaves nothing to show or to store.
pub proof fn refusals_store_nothing(
    turn: UserTurn,
    after: UserTurn,
    old: Session,
    new: Session,
    event: TurnEvent,
    action: TurnAction,
)
    requires
        turn_steps(turn, after, old, new, event, action),
        turn.phase != TurnPhase::Running,
        action is Finish,
    ensures
        action->Finish_chain_id is None,
        action->notices@.len() == 0,
        action->writes@.len() == 0,
        after.phase == TurnPhase::Ended,
{
}

/// The end of a turn shows in its thread: a reply answers the turn and a failure marks it,
/// both leave the thread idle; a request for an approval leaves the thread waiting for it.
pub proof fn turn_ends_show_in_the_thread(
    turn: UserTurn,
    after: UserTurn,
    old: Session,
    new: Session,
    run: Result<AgenticLoopResult, String>,
    chain_id: Option<String>,
    action: TurnAction,
)
    requires
        turn_steps(
            turn,
            after,
            old,
            new,
            TurnEvent::LoopEnded { result: run, chain_id },
            action,
        ),
        turn.phase == TurnPhase::Running,
        old.thread(turn.thread_id) is Some,
        old.thread(turn.thread_id)->0.state != ThreadState::Interrupted,
        old.thread(turn.thread_id)->0.turns@.len() > 0,
    ensures
        ({
            let t = old.thread(turn.thread_id)->0;
            &&& new.thread(turn.thread_id) matches Some(n)
            &&& n.turns@.len() == t.turns@.len()
            &&& match run {
                Ok(AgenticLoopResult::Response(s)) => {
                    &&& n.state == ThreadState::Idle
                    &&& n.turns@.last().response is Some
                    &&& n.turns@.last().response->0@ == s@
                    &&& chain_id is Some ==> n.last_response_id == chain_id
                },
                Ok(AgenticLoopResult::NeedApproval { pending }) => {
                    &&& n.state == ThreadState::AwaitingApproval
                    &&& n.pending_approval == Some(pending)
                    &&& notice::notice_views(action->notices@).len() > 0
                },
                Err(e) => {
                    &&& n.state == ThreadState::Idle
                    &&& n.turns@.last().error is Some
                    &&& n.turns@.last().error->0@ == e@
                },
            }
        }),
{
}

/// A turn waits for the outcome of what it asked for and takes in no other: each piece of work
/// has its phase, and an event that does not belong there changes nothing.
pub proof fn turns_wait_for_what_they_asked(
    turn: UserTurn,
    after: UserTurn,
    old: Session,
    new: Session,
    event: TurnEvent,
    action: TurnAction,
)
    requires
        turn_steps(turn, after, old, new, event, action),
    ensures
        action is Check ==> after.phase == TurnPhase::Checking,
        action is Route ==> after.phase == TurnPhase::Routing,
        action is Measure ==> after.phase == TurnPhase::Measuring,
        action is Flush ==> after.phase == TurnPhase::Flushing,
        action is Compact ==> after.phase == TurnPhase::Compacting,
        action is TakeCheckpoint ==> after.phase == TurnPhase::Checkpointing,
        action is RunLoop ==> after.phase == TurnPhase::Running,
        action is Finish || action is Fail || action is Delegate ==> after.phase
            == TurnPhase::Ended,
        action is Ignore ==> after == turn && new == old,
        action is Ignore <==> !{
            ||| turn.phase == TurnPhase::Ready && event is Begin
            ||| turn.phase == TurnPhase::Checking && event is Checked
            ||| turn.phase == TurnPhase::Routing && event is Routed
            ||| turn.phase == TurnPhase::Measuring && event is Measured
            ||| turn.phase == TurnPhase::Flushing && event is Flushed
            ||| turn.phase == TurnPhase::Compacting && event is Compacted
            ||| turn.phase == TurnPhase::Checkpointing && event is CheckpointTaken
            ||| turn.phase == TurnPhase::Running && event is LoopEnded
        },
{
}

} // verus!
