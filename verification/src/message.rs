//! The wire protocol: one line of text per connection, which names a
//! command by exact, case-sensitive match after trimming.

use crate::text::{is_blank, lemma_trimmed_drops_padding, same_text, trimmed};
use vstd::prelude::*;

verus! {

/// What a line received on the control channel asks for.
#[derive(Debug, PartialEq, Eq)]
pub enum ControlMessage {
    /// Stop rotating until told otherwise.
    Pause,
    /// Rotate again.
    Unpause,
    /// Terminate the daemon.
    Kill,
    /// Anything else, with the trimmed text that was received.
    Unrecognized(String),
}

/// A control message as a value of the model: the same variants, with the
/// unrecognized text as a sequence of characters.
pub enum Message {
    Pause,
    Unpause,
    Kill,
    Unrecognized(Seq<char>),
}

impl View for ControlMessage {
    type V = Message;

    open spec fn view(&self) -> Message {
        match self {
            ControlMessage::Pause => Message::Pause,
            ControlMessage::Unpause => Message::Unpause,
            ControlMessage::Kill => Message::Kill,
            ControlMessage::Unrecognized(text) => Message::Unrecognized(text@),
        }
    }
}

/// The message that a text names once it is trimmed: the three commands by
/// exact match, and everything else unrecognized.
pub open spec fn classify(text: Seq<char>) -> Message {
    if text == "pause"@ {
        Message::Pause
    } else if text == "unpause"@ {
        Message::Unpause
    } else if text == "kill"@ {
        Message::Kill
    } else {
        Message::Unrecognized(text)
    }
}

/// The message that a received line stands for.
pub open spec fn parse_line(line: Seq<char>) -> Message {
    classify(trimmed(line))
}

impl ControlMessage {
    /// Reads one received line: trims it and matches it against the three
    /// commands.
    pub fn parse(line: &str) -> (message: ControlMessage)
        ensures
            message@ == parse_line(line@),
    {
        let text = line.trim();
        if same_text(text, "pause") {
            ControlMessage::Pause
        } else if same_text(text, "unpause") {
            ControlMessage::Unpause
        } else if same_text(text, "kill") {
            ControlMessage::Kill
        } else {
            ControlMessage::Unrecognized(text.to_owned())
        }
    }
}

/// A command that the client can send.
#[derive(Clone, Copy, Debug, PartialEq, Eq, Structural)]
pub enum ClientCommand {
    Pause,
    Unpause,
    Kill,
}

impl ClientCommand {
    /// The word that names the command on the wire.
    pub open spec fn word(self) -> Seq<char> {
        match self {
            ClientCommand::Pause => "pause"@,
            ClientCommand::Unpause => "unpause"@,
            ClientCommand::Kill => "kill"@,
        }
    }

    /// What is sent for the command: its word and a newline.
    pub open spec fn wire(self) -> Seq<char> {
        self.word().push('\n')
    }

    /// The message that the daemon is meant to read from the command.
    pub open spec fn meaning(self) -> Message {
        match self {
            ClientCommand::Pause => Message::Pause,
            ClientCommand::Unpause => Message::Unpause,
            ClientCommand::Kill => Message::Kill,
        }
    }

    /// The word that names the command on the wire.
    pub fn text(&self) -> (word: &'static str)
        ensures
            word@ == self.word(),
    {
        match self {
            ClientCommand::Pause => "pause",
            ClientCommand::Unpause => "unpause",
            ClientCommand::Kill => "kill",
        }
    }

    /// The newline-terminated line that the client writes to the socket.
    pub fn line(&self) -> (line: String)
        ensures
            line@ == self.wire(),
    {
        proof {
            reveal_strlit("\n");
        }
        let line = self.text().to_owned().concat("\n");
        assert(line@ =~= self.wire());
        line
    }
}

/// Whitespace around a command never matters: its word is read as the
/// command with any whitespace before and after it.
pub proof fn lemma_padding_is_ignored(before: Seq<char>, command: ClientCommand, after: Seq<char>)
    requires
        is_blank(before),
        is_blank(after),
    ensures
        parse_line(before + command.word() + after) == command.meaning(),
{
    reveal_strlit("pause");
    reveal_strlit("unpause");
    reveal_strlit("kill");
    lemma_trimmed_drops_padding(before, command.word(), after);
}

/// Nothing is lost on the wire: the line written for a command is read by
/// the daemon as that command.
pub proof fn lemma_line_reads_back(command: ClientCommand)
    ensures
        parse_line(command.wire()) == command.meaning(),
{
    lemma_padding_is_ignored(Seq::empty(), command, seq!['\n']);
    assert(command.wire() =~= Seq::empty() + command.word() + seq!['\n']);
}

} // verus!
