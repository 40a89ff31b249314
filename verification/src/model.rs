//! The dialogue as mathematics: for each handler, the step it takes, as a
//! function of the state and the update, over plain values.

use crate::event::{
    CallbackQueryView, CommandView, ConfigParameters, MaintainerCommand, ParsedView,
    TextMessageView, UpdateView,
};
use crate::keyboard::{languages_layout, modes_layout, name_layout};
use crate::profile::{Language, LastFlag, Mode, NameAction, UserView};
use crate::render::{Diagnostic, OutcomeView, RenderView, StepView};
use crate::state::StateView;
use crate::text::{debug_quoted, decimal, signed_decimal};
use vstd::prelude::*;

verus! {

/// The question for the name, in the chosen language.
pub open spec fn name_prompt(lang: Language) -> Seq<char> {
    match lang {
        Language::EN => "What's your name?"@,
        Language::UA => "Як тебе звати?"@,
    }
}

/// The greeting that opens the confirmation prompt.
pub open spec fn greeting(lang: Language) -> Seq<char> {
    match lang {
        Language::EN => "Hello"@,
        Language::UA => "Привіт"@,
    }
}

/// The confirmation prompt: the greeting and the name, behind the name
/// that it replaces, struck through, where there is one.
pub open spec fn confirm_text(lang: Language, name: Seq<char>, old_name: Option<Seq<char>>) -> Seq<
    char,
> {
    match old_name {
        Some(old) => greeting(lang) + ", <s>"@ + old + "</s>"@ + name,
        None => greeting(lang) + ", "@ + name,
    }
}

/// How a language is written in the summary.
pub open spec fn language_debug(lang: Language) -> Seq<char> {
    match lang {
        Language::EN => "EN"@,
        Language::UA => "UA"@,
    }
}

/// How the mode of a profile is written in the summary.
pub open spec fn mode_debug(mode: Option<Mode>) -> Seq<char> {
    match mode {
        None => "None"@,
        Some(Mode::Obimy) => "Some(Obimy)"@,
        Some(Mode::Spotify) => "Some(Spotify)"@,
        Some(Mode::Dungeons) => "Some(Dungeons)"@,
    }
}

/// How a profile is written in the summary.
pub open spec fn user_debug(user: UserView) -> Seq<char> {
    "User { name: "@ + debug_quoted(user.name) + ", lang: "@ + language_debug(user.lang)
        + ", mode: "@ + mode_debug(user.mode) + " }"@
}

/// The summary that closes the dialogue.
pub open spec fn summary(chat_id: i64, user: UserView) -> Seq<char> {
    "chat_id: "@ + signed_decimal(chat_id as int) + "; user: "@ + user_debug(user) + "; mode: "@
        + mode_debug(user.mode)
}

/// A message without a keyboard.
pub open spec fn plain(text: Seq<char>) -> RenderView {
    RenderView::Send { text, keyboard: None }
}

pub open spec fn send_languages() -> RenderView {
    RenderView::Send {
        text: "Let's start! What's your language?"@,
        keyboard: Some(languages_layout()),
    }
}

pub open spec fn send_confirm_name(
    msg_id: i32,
    lang: Language,
    name: Seq<char>,
    old_name: Option<Seq<char>>,
) -> RenderView {
    RenderView::Edit {
        msg_id,
        text: confirm_text(lang, name, old_name),
        keyboard: Some(name_layout()),
    }
}

pub open spec fn send_modes(user: UserView, msg_id: Option<i32>) -> RenderView {
    match msg_id {
        Some(id) => RenderView::Edit {
            msg_id: id,
            text: user.describe(),
            keyboard: Some(modes_layout()),
        },
        None => RenderView::Send { text: user.describe(), keyboard: Some(modes_layout()) },
    }
}

/// How a prompt is replaced by `text`: edited in place while it is the
/// last message of the chat, else deleted and sent again.
pub open spec fn replace_prompt(fresh: bool, msg_id: i32, text: Seq<char>) -> Seq<RenderView> {
    if fresh {
        seq![RenderView::Edit { msg_id, text, keyboard: None }]
    } else {
        seq![RenderView::Delete { msg_id }, plain(text)]
    }
}

pub open spec fn start(msg: TextMessageView) -> StepView {
    if msg.text is None {
        StepView::idle(Diagnostic::Dropped)
    } else {
        StepView::render_commit(send_languages(), StateView::Language(LastFlag(true)))
    }
}

pub open spec fn language_message(msg: TextMessageView) -> StepView {
    if msg.text is None {
        StepView::idle(Diagnostic::Dropped)
    } else {
        StepView::render_commit(send_languages(), StateView::Language(LastFlag(false)))
    }
}

pub open spec fn language_callback(q: CallbackQueryView, state: StateView) -> StepView {
    match (state, q.data) {
        (StateView::Language(last), Some(tag)) => match Language::parse(tag) {
            Some(lang) => match q.message {
                Some(origin) => StepView {
                    renders: replace_prompt(last.0, origin.id, name_prompt(lang)),
                    outcome: if last.0 {
                        OutcomeView::Commit(StateView::ReceiveName(lang, origin.id))
                    } else {
                        OutcomeView::CommitSent(lang)
                    },
                    diagnostic: None,
                },
                None => match q.inline_message_id {
                    Some(inline_id) => StepView::reply(
                        RenderView::EditInline { inline_id, text: name_prompt(lang) },
                    ),
                    None => StepView::idle(Diagnostic::Dropped),
                },
            },
            None => StepView::idle(Diagnostic::UnrecognizedCallbackPayload),
        },
        _ => StepView::idle(Diagnostic::Dropped),
    }
}

pub open spec fn name_message(msg: TextMessageView, lang: Language, msg_id: i32) -> StepView {
    match msg.text {
        Some(name) if name.len() > 0 => StepView::render_commit(
            send_confirm_name(msg_id, lang, name, None),
            StateView::ConfirmName { lang, name, msg_id },
        ),
        _ => ask_for_text(),
    }
}

pub open spec fn confirm_name_message(msg: TextMessageView, state: StateView) -> StepView {
    match (state, msg.text) {
        (StateView::ConfirmName { lang, name, msg_id }, Some(new_name)) => StepView::render_commit(
            send_confirm_name(msg_id, lang, new_name, Some(name)),
            StateView::ConfirmName { lang, name: new_name, msg_id },
        ),
        _ => StepView::idle(Diagnostic::Dropped),
    }
}

pub open spec fn confirm_name_callback(q: CallbackQueryView, state: StateView) -> StepView {
    match (state, q.data) {
        (StateView::ConfirmName { lang, name, msg_id }, Some(tag)) => match NameAction::parse(tag) {
            Some(NameAction::Confirm) => match q.message {
                Some(_) => {
                    let user = UserView { name, lang, mode: None };
                    StepView::render_commit(
                        send_modes(user, Some(msg_id)),
                        StateView::ReceiveMode { user, last: LastFlag(true) },
                    )
                },
                None => StepView::idle(Diagnostic::Dropped),
            },
            None => StepView::idle(Diagnostic::UnrecognizedCallbackPayload),
        },
        _ => StepView::idle(Diagnostic::Dropped),
    }
}

pub open spec fn mode_message(msg: TextMessageView, state: StateView) -> StepView {
    match (state, msg.text) {
        (StateView::ReceiveMode { user, last }, Some(_)) => StepView::render_commit(
            send_modes(user, None),
            StateView::ReceiveMode { user, last: LastFlag(false) },
        ),
        (StateView::SelectedMode { user }, Some(_)) => StepView::reply(send_modes(user, None)),
        _ => StepView::idle(Diagnostic::Dropped),
    }
}

pub open spec fn mode_callback(q: CallbackQueryView, state: StateView) -> StepView {
    match (state, q.data) {
        (StateView::ReceiveMode { user, last }, Some(tag)) => match Mode::parse(tag) {
            Some(mode) => match q.message {
                Some(origin) => {
                    let chosen = UserView { name: user.name, lang: user.lang, mode: Some(mode) };
                    StepView {
                        renders: replace_prompt(last.0, origin.id, summary(origin.chat_id, chosen)),
                        outcome: OutcomeView::Commit(StateView::SelectedMode { user: chosen }),
                        diagnostic: None,
                    }
                },
                None => StepView::idle(Diagnostic::Dropped),
            },
            None => StepView::idle(Diagnostic::UnrecognizedCallbackPayload),
        },
        _ => StepView::idle(Diagnostic::Dropped),
    }
}

/// The texts that describe the two tables of commands.
pub struct HelpView {
    pub general: Seq<char>,
    pub maintainer: Seq<char>,
}

pub open spec fn comands(
    cmd: CommandView,
    sender: Option<u64>,
    cfg: ConfigParameters,
    help: HelpView,
) -> RenderView {
    match cmd {
        CommandView::Help => plain(
            if cfg.permits(sender) {
                help.general + "\n"@ + help.maintainer
            } else {
                help.general
            },
        ),
        CommandView::Mode => RenderView::Send {
            text: "Select mode:"@,
            keyboard: Some(modes_layout()),
        },
        CommandView::Username(username) => plain("Your name is @"@ + username),
        CommandView::UsernameAndAge { username, age } => plain(
            "Your username is @"@ + username + " and age is "@ + decimal(age as nat),
        ),
    }
}

/// The answer to the maintainer who asked for a number.
pub open spec fn rand_reply(value: u64) -> RenderView {
    plain("Hello maintainer! Your rand value: "@ + decimal(value as nat))
}

/// Whether `draw` may be the number drawn for `cmd`.
pub open spec fn admits(cmd: MaintainerCommand, draw: u64) -> bool {
    match cmd {
        MaintainerCommand::Rand { from, to } => from <= to ==> from <= draw <= to,
        MaintainerCommand::Reset => true,
    }
}

/// The step of a maintainer command, where `draw` is the number drawn.
pub open spec fn maintainer_commands(cmd: MaintainerCommand, draw: u64) -> StepView {
    match cmd {
        MaintainerCommand::Rand { from, to } => if from <= to {
            StepView::reply(rand_reply(draw))
        } else {
            StepView::idle(Diagnostic::Dropped)
        },
        MaintainerCommand::Reset => StepView {
            renders: seq![],
            outcome: OutcomeView::Commit(StateView::Start),
            diagnostic: None,
        },
    }
}

/// The malformed step: a request for plain text, and no commit.
pub open spec fn ask_for_text() -> StepView {
    StepView {
        renders: seq![plain("Send me plain text."@)],
        outcome: OutcomeView::Keep,
        diagnostic: Some(Diagnostic::MalformedInput),
    }
}

/// The text that closes a dialogue about a location.
pub open spec fn location_text(full_name: Seq<char>, age: u8, location: Seq<char>) -> Seq<char> {
    "Full name: "@ + full_name + "\nAge: "@ + decimal(age as nat) + "\nLocation: "@ + location
}

pub open spec fn receive_location(msg: TextMessageView, full_name: Seq<char>, age: u8) -> StepView {
    match msg.text {
        Some(location) => StepView::render_commit(
            plain(location_text(full_name, age, location)),
            StateView::Start,
        ),
        None => ask_for_text(),
    }
}

/// The two kinds of update.
#[derive(Clone, Copy, Debug, PartialEq, Eq, Structural)]
pub enum EventKind {
    TextMessage,
    CallbackQuery,
}

/// The step handlers.
#[derive(Clone, Copy, Debug, PartialEq, Eq, Structural)]
pub enum Handler {
    Start,
    LanguageMessage,
    LanguageCallback,
    NameMessage,
    ConfirmNameMessage,
    ConfirmNameCallback,
    ModeMessage,
    ModeCallback,
}

/// The kind of an update.
pub open spec fn kind_of(update: UpdateView) -> EventKind {
    match update {
        UpdateView::Message(_) => EventKind::TextMessage,
        UpdateView::Callback(_) => EventKind::CallbackQuery,
    }
}

/// The table of the dialogue: the one handler for a state and a kind of
/// update, or none where the update is dropped.
pub open spec fn route(state: StateView, kind: EventKind) -> Option<Handler> {
    match (state, kind) {
        (StateView::Start, EventKind::TextMessage) => Some(Handler::Start),
        (StateView::Language(_), EventKind::TextMessage) => Some(Handler::LanguageMessage),
        (StateView::Language(_), EventKind::CallbackQuery) => Some(Handler::LanguageCallback),
        (StateView::ReceiveName(_, _), EventKind::TextMessage) => Some(Handler::NameMessage),
        (StateView::ConfirmName { .. }, EventKind::TextMessage) => Some(
            Handler::ConfirmNameMessage,
        ),
        (StateView::ConfirmName { .. }, EventKind::CallbackQuery) => Some(
            Handler::ConfirmNameCallback,
        ),
        (StateView::ReceiveMode { .. }, EventKind::TextMessage) => Some(Handler::ModeMessage),
        (StateView::ReceiveMode { .. }, EventKind::CallbackQuery) => Some(Handler::ModeCallback),
        (StateView::SelectedMode { .. }, EventKind::TextMessage) => Some(Handler::ModeMessage),
        _ => None,
    }
}

/// The step of the dialogue on a message.
pub open spec fn dialogue_message(state: StateView, msg: TextMessageView) -> StepView {
    match route(state, EventKind::TextMessage) {
        Some(Handler::Start) => start(msg),
        Some(Handler::LanguageMessage) => language_message(msg),
        Some(Handler::NameMessage) => match state {
            StateView::ReceiveName(lang, msg_id) => name_message(msg, lang, msg_id),
            _ => StepView::idle(Diagnostic::Dropped),
        },
        Some(Handler::ConfirmNameMessage) => confirm_name_message(msg, state),
        Some(Handler::ModeMessage) => mode_message(msg, state),
        _ => StepView::idle(Diagnostic::Dropped),
    }
}

/// The step of the dialogue on a button press.
pub open spec fn dialogue_callback(state: StateView, q: CallbackQueryView) -> StepView {
    match route(state, EventKind::CallbackQuery) {
        Some(Handler::LanguageCallback) => language_callback(q, state),
        Some(Handler::ConfirmNameCallback) => confirm_name_callback(q, state),
        Some(Handler::ModeCallback) => mode_callback(q, state),
        _ => StepView::idle(Diagnostic::Dropped),
    }
}

/// The range that an update makes the engine draw a number from: that of
/// a `Rand` command of the maintainer, where it is not empty.
pub open spec fn drawn_range(update: UpdateView, cfg: ConfigParameters) -> Option<(u64, u64)> {
    match update {
        UpdateView::Message(msg) => match msg.command {
            Some(ParsedView::Maintainer(MaintainerCommand::Rand { from, to })) => if cfg.permits(
                msg.sender,
            ) && from <= to {
                Some((from, to))
            } else {
                None
            },
            _ => None,
        },
        _ => None,
    }
}

/// The step that an update leads to in a state, where `draw` is the number
/// drawn, if one is. A command for everybody is answered first. A
/// maintainer command is obeyed where the maintainer sent it; from anybody
/// else it is a message like any other. All the rest goes to the dialogue.
pub open spec fn dispatch(
    state: StateView,
    update: UpdateView,
    cfg: ConfigParameters,
    help: HelpView,
    draw: u64,
) -> StepView {
    match update {
        UpdateView::Message(msg) => match msg.command {
            Some(ParsedView::General(cmd)) => StepView::reply(comands(cmd, msg.sender, cfg, help)),
            Some(ParsedView::Maintainer(cmd)) => if cfg.permits(msg.sender) {
                maintainer_commands(cmd, draw)
            } else {
                dialogue_message(state, msg)
            },
            _ => dialogue_message(state, msg),
        },
        UpdateView::Callback(q) => dialogue_callback(state, q),
    }
}

} // verus!
