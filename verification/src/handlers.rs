//! The step handlers: one for each pair of a state and a kind of update
//! that the dialogue answers. Each computes a step and touches nothing.

use crate::event::{CallbackQuery, TextMessage};
use crate::keyboard::{languages_keyboard, modes_keyboard, name_keyboard};
use crate::model;
use crate::profile::{Language, LastFlag, Mode, NameAction, User};
use crate::render::{Diagnostic, Outcome, Render, Step};
use crate::state::State;
use crate::text::{push_decimal, push_signed_decimal, quote};
use vstd::prelude::*;
use vstd::string::*;

verus! {

/// The view of a string slice that may be absent.
pub open spec fn slice_view(text: Option<&str>) -> Option<Seq<char>> {
    match text {
        Some(t) => Some(t@),
        None => None,
    }
}

/// A message without a keyboard.
pub fn plain(text: String) -> (render: Render)
    ensures
        render@ == model::plain(text@),
{
    Render::Send { text, keyboard: None }
}

fn name_prompt(lang: Language) -> (text: String)
    ensures
        text@ == model::name_prompt(lang),
{
    match lang {
        Language::EN => String::from_str("What's your name?"),
        Language::UA => String::from_str("Як тебе звати?"),
    }
}

fn mode_debug(mode: Option<Mode>) -> (text: &'static str)
    ensures
        text@ == model::mode_debug(mode),
{
    match mode {
        None => "None",
        Some(Mode::Obimy) => "Some(Obimy)",
        Some(Mode::Spotify) => "Some(Spotify)",
        Some(Mode::Dungeons) => "Some(Dungeons)",
    }
}

fn user_debug(user: &User) -> (text: String)
    ensures
        text@ == model::user_debug(user@),
{
    let mut text = String::from_str("User { name: ");
    let quoted = quote(user.name.as_str());
    text.append(quoted.as_str());
    text.append(", lang: ");
    match user.lang {
        Language::EN => text.append("EN"),
        Language::UA => text.append("UA"),
    }
    text.append(", mode: ");
    text.append(mode_debug(user.mode));
    text.append(" }");
    text
}

/// The summary that closes the dialogue.
pub fn summary(chat_id: i64, user: &User) -> (text: String)
    ensures
        text@ == model::summary(chat_id, user@),
{
    let mut text = String::from_str("chat_id: ");
    push_signed_decimal(&mut text, chat_id);
    text.append("; user: ");
    let profile = user_debug(user);
    text.append(profile.as_str());
    text.append("; mode: ");
    text.append(mode_debug(user.mode));
    text
}

/// The renders that put `text` in the place of the prompt `msg_id`.
pub fn replace_prompt(fresh: bool, msg_id: i32, text: String) -> (renders: Vec<Render>)
    ensures
        renders@.map_values(|r: Render| r@) == model::replace_prompt(fresh, msg_id, text@),
{
    let mut renders: Vec<Render> = Vec::new();
    if fresh {
        renders.push(Render::Edit { msg_id, text, keyboard: None });
    } else {
        renders.push(Render::Delete { msg_id });
        renders.push(plain(text));
    }
    assert(renders@.map_values(|r: Render| r@) =~= model::replace_prompt(fresh, msg_id, text@));
    renders
}

pub fn send_languages() -> (render: Render)
    ensures
        render@ == model::send_languages(),
{
    Render::Send {
        text: String::from_str("Let's start! What's your language?"),
        keyboard: Some(languages_keyboard()),
    }
}

pub fn send_confirm_name(msg_id: i32, lang: &Language, name: &str, old_name: Option<&str>) -> (render:
    Render)
    ensures
        render@ == model::send_confirm_name(msg_id, *lang, name@, slice_view(old_name)),
{
    let mut text = match lang {
        Language::EN => String::from_str("Hello"),
        Language::UA => String::from_str("Привіт"),
    };
    match old_name {
        Some(old) => {
            text.append(", <s>");
            text.append(old);
            text.append("</s>");
            text.append(name);
        },
        None => {
            text.append(", ");
            text.append(name);
        },
    }
    Render::Edit { msg_id, text, keyboard: Some(name_keyboard()) }
}

pub fn send_modes(user: &User, msg_id: Option<i32>) -> (render: Render)
    ensures
        render@ == model::send_modes(user@, msg_id),
{
    let text = user.describe();
    match msg_id {
        Some(id) => Render::Edit { msg_id: id, text, keyboard: Some(modes_keyboard()) },
        None => Render::Send { text, keyboard: Some(modes_keyboard()) },
    }
}

fn ask_for_text() -> (step: Step)
    ensures
        step@ == model::ask_for_text(),
{
    let mut renders: Vec<Render> = Vec::new();
    renders.push(plain(String::from_str("Send me plain text.")));
    let step = Step { renders, outcome: Outcome::Keep, diagnostic: Some(Diagnostic::MalformedInput) };
    assert(step@.renders =~= seq![model::plain("Send me plain text."@)]);
    step
}

/// In `Start`, on a text: shows the language keyboard.
pub fn start(msg: &TextMessage) -> (step: Step)
    ensures
        step@ == model::start(msg@),
{
    if msg.text.is_none() {
        return Step::idle(Diagnostic::Dropped);
    }
    Step::render_commit(send_languages(), State::Language(LastFlag(true)))
}

/// In `Language`, on a text: sends the language keyboard again. The
/// prompt that was pending is stale from then on.
pub fn language_message(msg: &TextMessage) -> (step: Step)
    ensures
        step@ == model::language_message(msg@),
{
    if msg.text.is_none() {
        return Step::idle(Diagnostic::Dropped);
    }
    Step::render_commit(send_languages(), State::Language(LastFlag(false)))
}

/// In `Language`, on a button: asks for the name in the chosen language.
pub fn language_callback(q: &CallbackQuery, state: &State) -> (step: Step)
    ensures
        step@ == model::language_callback(q@, state@),
{
    let last = match state {
        State::Language(last) => *last,
        _ => {
            return Step::idle(Diagnostic::Dropped);
        },
    };
    let lang = match &q.data {
        Some(tag) => match Language::from_callback(tag.as_str()) {
            Some(lang) => lang,
            None => {
                return Step::idle(Diagnostic::UnrecognizedCallbackPayload);
            },
        },
        None => {
            return Step::idle(Diagnostic::Dropped);
        },
    };
    let text = name_prompt(lang);
    match q.message {
        Some(origin) => {
            let renders = replace_prompt(last.0, origin.id, text);
            let outcome = if last.0 {
                Outcome::Commit(State::ReceiveName(lang, origin.id))
            } else {
                Outcome::CommitSent(lang)
            };
            Step { renders, outcome, diagnostic: None }
        },
        None => match &q.inline_message_id {
            Some(inline_id) => Step::reply(
                Render::EditInline { inline_id: inline_id.clone(), text },
            ),
            None => Step::idle(Diagnostic::Dropped),
        },
    }
}

/// In `ReceiveName`, on a text: proposes it as the name. A message
/// without text, or with an empty one, is answered with a request for text.
pub fn name_message(msg: &TextMessage, lang: Language, msg_id: i32) -> (step: Step)
    ensures
        step@ == model::name_message(msg@, lang, msg_id),
{
    match &msg.text {
        Some(name) if !name.as_str().is_empty() => {
            let render = send_confirm_name(msg_id, &lang, name.as_str(), None);
            Step::render_commit(render, State::ConfirmName { lang, name: name.clone(), msg_id })
        },
        _ => ask_for_text(),
    }
}

/// In `ConfirmName`, on a text: proposes it in place of the name before.
pub fn confirm_name_message(msg: &TextMessage, state: &State) -> (step: Step)
    ensures
        step@ == model::confirm_name_message(msg@, state@),
{
    match (state, &msg.text) {
        (State::ConfirmName { lang, name, msg_id }, Some(new_name)) => {
            let render = send_confirm_name(*msg_id, lang, new_name.as_str(), Some(name.as_str()));
            Step::render_commit(
                render,
                State::ConfirmName { lang: *lang, name: new_name.clone(), msg_id: *msg_id },
            )
        },
        _ => Step::idle(Diagnostic::Dropped),
    }
}

/// In `ConfirmName`, on the confirmation button: shows the mode keyboard.
pub fn confirm_name_callback(q: &CallbackQuery, state: &State) -> (step: Step)
    ensures
        step@ == model::confirm_name_callback(q@, state@),
{
    match (state, &q.data) {
        (State::ConfirmName { lang, name, msg_id }, Some(tag)) => {
            match NameAction::from_callback(tag.as_str()) {
                Some(NameAction::Confirm) => match q.message {
                    Some(_) => {
                        let user = User::new(*lang, name.clone());
                        let render = send_modes(&user, Some(*msg_id));
                        Step::render_commit(
                            render,
                            State::ReceiveMode { user, last: LastFlag(true) },
                        )
                    },
                    None => Step::idle(Diagnostic::Dropped),
                },
                None => Step::idle(Diagnostic::UnrecognizedCallbackPayload),
            }
        },
        _ => Step::idle(Diagnostic::Dropped),
    }
}

/// In `ReceiveMode` or `SelectedMode`, on a text: sends the mode keyboard
/// again. A prompt that was pending is stale from then on; a complete
/// profile stays as it is.
pub fn mode_message(msg: &TextMessage, state: &State) -> (step: Step)
    ensures
        step@ == model::mode_message(msg@, state@),
{
    match (state, &msg.text) {
        (State::ReceiveMode { user, last }, Some(_)) => {
            let render = send_modes(user, None);
            Step::render_commit(
                render,
                State::ReceiveMode { user: user.clone(), last: LastFlag(false) },
            )
        },
        (State::SelectedMode { user }, Some(_)) => Step::reply(send_modes(user, None)),
        _ => Step::idle(Diagnostic::Dropped),
    }
}

/// In `ReceiveMode`, on a button: completes the profile and shows it.
pub fn mode_callback(q: &CallbackQuery, state: &State) -> (step: Step)
    ensures
        step@ == model::mode_callback(q@, state@),
{
    match (state, &q.data) {
        (State::ReceiveMode { user, last }, Some(tag)) => {
            match Mode::from_callback(tag.as_str()) {
                Some(mode) => match q.message {
                    Some(origin) => {
                        let chosen = User {
                            name: user.name.clone(),
                            lang: user.lang,
                            mode: Some(mode),
                        };
                        let text = summary(origin.chat_id, &chosen);
                        let renders = replace_prompt(last.0, origin.id, text);
                        Step {
                            renders,
                            outcome: Outcome::Commit(State::SelectedMode { user: chosen }),
                            diagnostic: None,
                        }
                    },
                    None => Step::idle(Diagnostic::Dropped),
                },
                None => Step::idle(Diagnostic::UnrecognizedCallbackPayload),
            }
        },
        _ => Step::idle(Diagnostic::Dropped),
    }
}

/// On the text that names a location, after a full name and an age:
/// answers with all three and puts the conversation back to `Start`. A
/// message without text is answered with a request for text.
pub fn receive_location(msg: &TextMessage, full_name: &str, age: u8) -> (step: Step)
    ensures
        step@ == model::receive_location(msg@, full_name@, age),
{
    match &msg.text {
        Some(location) => {
            let mut text = String::from_str("Full name: ");
            text.append(full_name);
            text.append("\nAge: ");
            push_decimal(&mut text, age as u64);
            text.append("\nLocation: ");
            text.append(location.as_str());
            Step::render_commit(plain(text), State::Start)
        },
        None => ask_for_text(),
    }
}

} // verus!
