//! The state of one conversation.

use crate::profile::{Language, LastFlag, User, UserView};
use vstd::prelude::*;

verus! {

/// Where a conversation stands. Each conversation has exactly one state;
/// one never seen is at `Start`.
#[derive(Debug, PartialEq, Eq)]
pub enum State {
    /// Nothing has happened yet.
    Start,
    /// The language keyboard is shown.
    Language(LastFlag),
    /// The language is chosen; the message with the given id asks for a name.
    ReceiveName(Language, i32),
    /// A name was typed; the message `msg_id` asks to confirm it.
    ConfirmName { lang: Language, name: String, msg_id: i32 },
    /// The name is confirmed; the mode keyboard is shown.
    ReceiveMode { user: User, last: LastFlag },
    /// The profile is complete.
    SelectedMode { user: User },
}

/// A state as plain values.
pub enum StateView {
    Start,
    Language(LastFlag),
    ReceiveName(Language, i32),
    ConfirmName { lang: Language, name: Seq<char>, msg_id: i32 },
    ReceiveMode { user: UserView, last: LastFlag },
    SelectedMode { user: UserView },
}

impl StateView {
    /// The freshness flag of a state that waits for a button, if it has one.
    pub open spec fn freshness(self) -> Option<bool> {
        match self {
            StateView::Language(last) => Some(last.0),
            StateView::ReceiveMode { last, .. } => Some(last.0),
            _ => None,
        }
    }

    /// The message that carries the prompt, where the state records it.
    pub open spec fn prompt(self) -> Option<i32> {
        match self {
            StateView::ReceiveName(_, msg_id) => Some(msg_id),
            StateView::ConfirmName { msg_id, .. } => Some(msg_id),
            _ => None,
        }
    }

    /// Whether the profile of the state is as complete as the state says:
    /// without a mode while one is asked for, with one at the end.
    pub open spec fn well_formed(self) -> bool {
        match self {
            StateView::ReceiveMode { user, .. } => user.mode is None,
            StateView::SelectedMode { user } => user.mode is Some,
            _ => true,
        }
    }

    /// Whether the state waits for a button and for nothing else.
    pub open spec fn button_only(self) -> bool {
        self is Language || self is ReceiveMode
    }
}

impl View for State {
    type V = StateView;

    open spec fn view(&self) -> StateView {
        match *self {
            State::Start => StateView::Start,
            State::Language(last) => StateView::Language(last),
            State::ReceiveName(lang, msg_id) => StateView::ReceiveName(lang, msg_id),
            State::ConfirmName { lang, name, msg_id } => StateView::ConfirmName {
                lang,
                name: name@,
                msg_id,
            },
            State::ReceiveMode { user, last } => StateView::ReceiveMode { user: user@, last },
            State::SelectedMode { user } => StateView::SelectedMode { user: user@ },
        }
    }
}

impl Default for State {
    fn default() -> (state: State)
        ensures
            state == State::Start,
    {
        State::Start
    }
}

impl Clone for State {
    fn clone(&self) -> (copy: State)
        ensures
            copy == *self,
    {
        match self {
            State::Start => State::Start,
            State::Language(last) => State::Language(*last),
            State::ReceiveName(lang, msg_id) => State::ReceiveName(*lang, *msg_id),
            State::ConfirmName { lang, name, msg_id } => State::ConfirmName {
                lang: *lang,
                name: name.clone(),
                msg_id: *msg_id,
            },
            State::ReceiveMode { user, last } => State::ReceiveMode {
                user: user.clone(),
                last: *last,
            },
            State::SelectedMode { user } => State::SelectedMode { user: user.clone() },
        }
    }
}

} // verus!
