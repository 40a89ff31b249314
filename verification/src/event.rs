//! The updates that come in from the transport, as plain values.

use vstd::prelude::*;

verus! {

/// The view of a text that may be absent.
pub open spec fn text_view(text: Option<String>) -> Option<Seq<char>> {
    match text {
        Some(t) => Some(t@),
        None => None,
    }
}

/// The commands that everybody may send.
#[derive(Clone, Debug, PartialEq, Eq)]
pub enum Command {
    Help,
    Mode,
    Username(String),
    UsernameAndAge { username: String, age: u8 },
}

/// A command as plain values.
pub enum CommandView {
    Help,
    Mode,
    Username(Seq<char>),
    UsernameAndAge { username: Seq<char>, age: u8 },
}

impl View for Command {
    type V = CommandView;

    open spec fn view(&self) -> CommandView {
        match *self {
            Command::Help => CommandView::Help,
            Command::Mode => CommandView::Mode,
            Command::Username(username) => CommandView::Username(username@),
            Command::UsernameAndAge { username, age } => CommandView::UsernameAndAge {
                username: username@,
                age,
            },
        }
    }
}

/// The commands that only the maintainer may send.
#[derive(Clone, Copy, Debug, PartialEq, Eq, Structural)]
pub enum MaintainerCommand {
    /// Draw a number between `from` and `to`, both included.
    Rand { from: u64, to: u64 },
    /// Put the conversation back to its start.
    Reset,
}

/// What the command parser made of the text of a message.
#[derive(Clone, Debug, PartialEq, Eq)]
pub enum Parsed {
    General(Command),
    Maintainer(MaintainerCommand),
}

/// A parsed command as plain values.
pub enum ParsedView {
    General(CommandView),
    Maintainer(MaintainerCommand),
}

impl View for Parsed {
    type V = ParsedView;

    open spec fn view(&self) -> ParsedView {
        match *self {
            Parsed::General(command) => ParsedView::General(command@),
            Parsed::Maintainer(command) => ParsedView::Maintainer(command),
        }
    }
}

/// A message that a user typed.
#[derive(Clone, Debug, PartialEq, Eq)]
pub struct TextMessage {
    /// Who sent it, where the transport tells.
    pub sender: Option<u64>,
    /// Its text; `None` for a message that carries none.
    pub text: Option<String>,
    /// The command that the text is, if it is one.
    pub command: Option<Parsed>,
}

/// A message as plain values.
pub struct TextMessageView {
    pub sender: Option<u64>,
    pub text: Option<Seq<char>>,
    pub command: Option<ParsedView>,
}

impl View for TextMessage {
    type V = TextMessageView;

    open spec fn view(&self) -> TextMessageView {
        TextMessageView {
            sender: self.sender,
            text: text_view(self.text),
            command: match self.command {
                Some(parsed) => Some(parsed@),
                None => None,
            },
        }
    }
}

/// The message that carries the keyboard whose button was pressed.
#[derive(Clone, Copy, Debug, PartialEq, Eq, Structural)]
pub struct Origin {
    pub id: i32,
    pub chat_id: i64,
}

/// A button press.
#[derive(Clone, Debug, PartialEq, Eq)]
pub struct CallbackQuery {
    /// The tag of the button.
    pub data: Option<String>,
    /// The message that carries the keyboard, where the transport tells.
    pub message: Option<Origin>,
    /// The id of the message, where it was sent through inline mode.
    pub inline_message_id: Option<String>,
}

/// A button press as plain values.
pub struct CallbackQueryView {
    pub data: Option<Seq<char>>,
    pub message: Option<Origin>,
    pub inline_message_id: Option<Seq<char>>,
}

impl View for CallbackQuery {
    type V = CallbackQueryView;

    open spec fn view(&self) -> CallbackQueryView {
        CallbackQueryView {
            data: text_view(self.data),
            message: self.message,
            inline_message_id: text_view(self.inline_message_id),
        }
    }
}

/// One update for one conversation.
#[derive(Clone, Debug, PartialEq, Eq)]
pub enum Update {
    Message(TextMessage),
    Callback(CallbackQuery),
}

/// An update as plain values.
pub enum UpdateView {
    Message(TextMessageView),
    Callback(CallbackQueryView),
}

impl View for Update {
    type V = UpdateView;

    open spec fn view(&self) -> UpdateView {
        match *self {
            Update::Message(message) => UpdateView::Message(message@),
            Update::Callback(query) => UpdateView::Callback(query@),
        }
    }
}

/// What the engine is configured with.
#[derive(Clone, Copy, Debug, PartialEq, Eq, Structural)]
pub struct ConfigParameters {
    /// The one user who may send maintainer commands.
    pub bot_maintainer: u64,
}

impl ConfigParameters {
    /// Whether `sender` is the maintainer. Nobody is, where the sender is
    /// not known.
    pub open spec fn permits(self, sender: Option<u64>) -> bool {
        sender == Some(self.bot_maintainer)
    }

    pub fn is_maintainer(&self, sender: Option<u64>) -> (permitted: bool)
        ensures
            permitted == self.permits(sender),
    {
        match sender {
            Some(id) => id == self.bot_maintainer,
            None => false,
        }
    }
}

} // verus!
