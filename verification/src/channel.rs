//! The control channel: how a received line changes the pause flag, and
//! whether the channel goes on listening.

use crate::message::{parse_line, ControlMessage, Message};
use crate::shutdown::TaskStatus;
use vstd::prelude::*;

verus! {

/// Whether rotation is paused. The flag starts unpaused, is changed only by
/// `pause` and `unpause`, and is read by the scheduler at each tick.
#[derive(Debug)]
pub struct PauseFlag {
    paused: bool,
}

impl View for PauseFlag {
    type V = bool;

    closed spec fn view(&self) -> bool {
        self.paused
    }
}

/// What happened on the listening socket.
#[derive(Debug, PartialEq, Eq)]
pub enum ChannelEvent {
    /// A client connected and this line was read from it.
    Line(String),
    /// A client connected, but its line could not be read.
    ReadFailed,
    /// The listener could not accept a connection.
    AcceptFailed,
}

/// A channel event as a value of the model.
pub enum Input {
    Line(Seq<char>),
    ReadFailed,
    AcceptFailed,
}

impl View for ChannelEvent {
    type V = Input;

    open spec fn view(&self) -> Input {
        match self {
            ChannelEvent::Line(line) => Input::Line(line@),
            ChannelEvent::ReadFailed => Input::ReadFailed,
            ChannelEvent::AcceptFailed => Input::AcceptFailed,
        }
    }
}

/// What the channel does after an event.
#[derive(Debug, PartialEq, Eq)]
pub enum ChannelAction {
    /// Close the connection and accept the next one.
    Listen,
    /// Report that this text is no command, then accept the next connection.
    ReportUnknown(String),
    /// Report that a connection could not be read, then accept the next one.
    ReportUnreadable,
    /// Leave the loop normally: a client asked the daemon to terminate.
    Exit,
    /// Leave the loop with a failure: the listener is broken.
    Fail,
}

/// A channel action as a value of the model.
pub enum Reply {
    Listen,
    ReportUnknown(Seq<char>),
    ReportUnreadable,
    Exit,
    Fail,
}

impl View for ChannelAction {
    type V = Reply;

    open spec fn view(&self) -> Reply {
        match self {
            ChannelAction::Listen => Reply::Listen,
            ChannelAction::ReportUnknown(text) => Reply::ReportUnknown(text@),
            ChannelAction::ReportUnreadable => Reply::ReportUnreadable,
            ChannelAction::Exit => Reply::Exit,
            ChannelAction::Fail => Reply::Fail,
        }
    }
}

/// The flag after a message is applied: `pause` sets it, `unpause` clears
/// it, and nothing else touches it.
pub open spec fn flag_after(paused: bool, message: Message) -> bool {
    match message {
        Message::Pause => true,
        Message::Unpause => false,
        _ => paused,
    }
}

/// What the channel does about a message.
pub open spec fn reply_to(message: Message) -> Reply {
    match message {
        Message::Pause => Reply::Listen,
        Message::Unpause => Reply::Listen,
        Message::Kill => Reply::Exit,
        Message::Unrecognized(text) => Reply::ReportUnknown(text),
    }
}

/// The channel's transition: the flag and the action after an event. A
/// line is parsed and applied. A connection that cannot be read is reported
/// and costs nothing else; a listener that cannot accept ends the channel.
pub open spec fn channel_next(paused: bool, input: Input) -> (bool, Reply) {
    match input {
        Input::Line(line) => (flag_after(paused, parse_line(line)), reply_to(parse_line(line))),
        Input::ReadFailed => (paused, Reply::ReportUnreadable),
        Input::AcceptFailed => (paused, Reply::Fail),
    }
}

/// The state in which the channel task is after an action.
pub open spec fn status_after(reply: Reply) -> TaskStatus {
    match reply {
        Reply::Exit => TaskStatus::Finished,
        Reply::Fail => TaskStatus::Failed,
        _ => TaskStatus::Running,
    }
}

impl ChannelAction {
    /// The state in which the channel task is after this action: still
    /// running, finished normally, or failed.
    pub fn task_status(&self) -> (status: TaskStatus)
        ensures
            status == status_after(self@),
    {
        match self {
            ChannelAction::Exit => TaskStatus::Finished,
            ChannelAction::Fail => TaskStatus::Failed,
            _ => TaskStatus::Running,
        }
    }
}

impl PauseFlag {
    /// The flag of a daemon that has just started: not paused.
    pub fn new() -> (flag: PauseFlag)
        ensures
            flag@ == false,
    {
        PauseFlag { paused: false }
    }

    /// Whether rotation is paused now.
    pub fn is_paused(&self) -> (paused: bool)
        ensures
            paused == self@,
    {
        self.paused
    }

    /// Applies one message to the flag and says what the channel does next.
    pub fn apply(&mut self, message: ControlMessage) -> (action: ChannelAction)
        ensures
            final(self)@ == flag_after(old(self)@, message@),
            action@ == reply_to(message@),
    {
        match message {
            ControlMessage::Pause => {
                self.paused = true;
                ChannelAction::Listen
            },
            ControlMessage::Unpause => {
                self.paused = false;
                ChannelAction::Listen
            },
            ControlMessage::Kill => ChannelAction::Exit,
            ControlMessage::Unrecognized(text) => ChannelAction::ReportUnknown(text),
        }
    }

    /// Takes one event of the listening socket: parses and applies a line,
    /// or classifies a failure.
    pub fn handle(&mut self, event: ChannelEvent) -> (action: ChannelAction)
        ensures
            (final(self)@, action@) == channel_next(old(self)@, event@),
    {
        match event {
            ChannelEvent::Line(line) => {
                let message = ControlMessage::parse(line.as_str());
                self.apply(message)
            },
            ChannelEvent::ReadFailed => ChannelAction::ReportUnreadable,
            ChannelEvent::AcceptFailed => ChannelAction::Fail,
        }
    }
}

/// The flag after a sequence of messages, applied in order.
pub open spec fn flag_after_all(paused: bool, messages: Seq<Message>) -> bool
    decreases messages.len(),
{
    if messages.len() == 0 {
        paused
    } else {
        flag_after(flag_after_all(paused, messages.drop_last()), messages.last())
    }
}

/// The flag reflects the most recently applied command: after any sequence
/// of messages that ends in `pause` or `unpause`, the flag is set exactly if
/// that last one was `pause`, whatever came before.
pub proof fn lemma_last_command_wins(paused: bool, messages: Seq<Message>)
    requires
        messages.len() > 0,
        messages.last() is Pause || messages.last() is Unpause,
    ensures
        flag_after_all(paused, messages) == (messages.last() is Pause),
{
}

/// Messages other than `pause` and `unpause` leave the flag as it is, so
/// the flag always shows the latest of those two that was applied.
pub proof fn lemma_other_messages_keep_flag(paused: bool, messages: Seq<Message>, more: Seq<Message>)
    requires
        forall|i: int| 0 <= i < more.len() ==> !(more[i] is Pause) && !(more[i] is Unpause),
    ensures
        flag_after_all(paused, messages + more) == flag_after_all(paused, messages),
    decreases more.len(),
{
    if more.len() == 0 {
        assert(messages + more =~= messages);
    } else {
        lemma_other_messages_keep_flag(paused, messages, more.drop_last());
        assert((messages + more).drop_last() =~= messages + more.drop_last());
        assert((messages + more).last() == more.last());
    }
}

/// Repeating a command is idempotent: applying the same message a second
/// time changes neither the flag nor what the channel does.
pub proof fn lemma_repeat_is_idempotent(paused: bool, message: Message)
    ensures
        flag_after(flag_after(paused, message), message) == flag_after(paused, message),
        forall|messages: Seq<Message>|
            flag_after_all(paused, messages.push(message).push(message)) == flag_after_all(
                paused,
                #[trigger] messages.push(message),
            ),
{
    assert forall|messages: Seq<Message>|
        flag_after_all(paused, messages.push(message).push(message)) == flag_after_all(
            paused,
            #[trigger] messages.push(message),
        ) by {
        let once = messages.push(message);
        let twice = once.push(message);
        assert(twice.drop_last() =~= once);
        assert(once.drop_last() =~= messages);
    }
}

} // verus!
