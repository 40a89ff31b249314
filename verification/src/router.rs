//! The router: from a state and an update to the one handler that answers.

use crate::commands::{comands, maintainer_commands, HelpTexts};
use crate::event::{CallbackQuery, ConfigParameters, Parsed, TextMessage, Update};
use crate::handlers::{
    confirm_name_callback, confirm_name_message, language_callback, language_message,
    mode_callback, mode_message, name_message, start,
};
use crate::model;
use crate::model::{EventKind, Handler};
use crate::render::{Diagnostic, Step};
use crate::state::State;
use vstd::prelude::*;

verus! {

/// The handler for a state and a kind of update; `None` where such an
/// update is dropped in that state.
pub fn route(state: &State, kind: EventKind) -> (handler: Option<Handler>)
    ensures
        handler == model::route(state@, kind),
{
    match (state, kind) {
        (State::Start, EventKind::TextMessage) => Some(Handler::Start),
        (State::Language(_), EventKind::TextMessage) => Some(Handler::LanguageMessage),
        (State::Language(_), EventKind::CallbackQuery) => Some(Handler::LanguageCallback),
        (State::ReceiveName(_, _), EventKind::TextMessage) => Some(Handler::NameMessage),
        (State::ConfirmName { .. }, EventKind::TextMessage) => Some(Handler::ConfirmNameMessage),
        (State::ConfirmName { .. }, EventKind::CallbackQuery) => Some(
            Handler::ConfirmNameCallback,
        ),
        (State::ReceiveMode { .. }, EventKind::TextMessage) => Some(Handler::ModeMessage),
        (State::ReceiveMode { .. }, EventKind::CallbackQuery) => Some(Handler::ModeCallback),
        (State::SelectedMode { .. }, EventKind::TextMessage) => Some(Handler::ModeMessage),
        _ => None,
    }
}

/// The step of the dialogue on a message.
pub fn dialogue_message(state: &State, msg: &TextMessage) -> (step: Step)
    ensures
        step@ == model::dialogue_message(state@, msg@),
{
    match route(state, EventKind::TextMessage) {
        Some(Handler::Start) => start(msg),
        Some(Handler::LanguageMessage) => language_message(msg),
        Some(Handler::NameMessage) => match state {
            State::ReceiveName(lang, msg_id) => name_message(msg, *lang, *msg_id),
            _ => Step::idle(Diagnostic::Dropped),
        },
        Some(Handler::ConfirmNameMessage) => confirm_name_message(msg, state),
        Some(Handler::ModeMessage) => mode_message(msg, state),
        _ => Step::idle(Diagnostic::Dropped),
    }
}

/// The step of the dialogue on a button press.
pub fn dialogue_callback(state: &State, q: &CallbackQuery) -> (step: Step)
    ensures
        step@ == model::dialogue_callback(state@, q@),
{
    match route(state, EventKind::CallbackQuery) {
        Some(Handler::LanguageCallback) => language_callback(q, state),
        Some(Handler::ConfirmNameCallback) => confirm_name_callback(q, state),
        Some(Handler::ModeCallback) => mode_callback(q, state),
        _ => Step::idle(Diagnostic::Dropped),
    }
}

/// The step that an update leads to in a state. It is the step of the
/// model; where the update makes the engine draw a number, for a number of
/// the range that the maintainer gave.
pub fn dispatch(state: &State, update: &Update, cfg: &ConfigParameters, help: &HelpTexts) -> (step:
    Step)
    ensures
        match model::drawn_range(update@, *cfg) {
            Some((from, to)) => exists|value: u64|
                from <= value <= to && step@ == #[trigger] model::dispatch(
                    state@,
                    update@,
                    *cfg,
                    help@,
                    value,
                ),
            None => step@ == model::dispatch(state@, update@, *cfg, help@, 0),
        },
{
    match update {
        Update::Message(msg) => match &msg.command {
            Some(Parsed::General(cmd)) => Step::reply(comands(cmd, msg.sender, cfg, help)),
            Some(Parsed::Maintainer(cmd)) => {
                if cfg.is_maintainer(msg.sender) {
                    let step = maintainer_commands(*cmd);
                    proof {
                        let value = choose|value: u64|
                            model::admits(*cmd, value) && step@ == model::maintainer_commands(
                                *cmd,
                                value,
                            );
                        assert(step@ == model::dispatch(state@, update@, *cfg, help@, value));
                    }
                    step
                } else {
                    dialogue_message(state, msg)
                }
            },
            _ => dialogue_message(state, msg),
        },
        Update::Callback(q) => dialogue_callback(state, q),
    }
}

} // verus!
