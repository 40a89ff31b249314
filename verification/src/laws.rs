//! What holds of the dialogue and of the store, for every input.

use crate::event::{
    CallbackQueryView, ConfigParameters, MaintainerCommand, ParsedView, TextMessageView,
    UpdateView,
};
use crate::model::{
    dialogue_callback, dialogue_message, dispatch, route, EventKind, HelpView,
};
use crate::profile::{Language, LastFlag, Mode, NameAction, UserView};
use crate::render::{Diagnostic, OutcomeView, Rendered, RenderView, StepView};
use crate::state::StateView;
use crate::store::replay;
use vstd::prelude::*;

verus! {

/// Whether a callback tag names one of the options that a state offers.
pub open spec fn recognized(state: StateView, tag: Seq<char>) -> bool {
    match state {
        StateView::Language(_) => Language::parse(tag) is Some,
        StateView::ConfirmName { .. } => NameAction::parse(tag) is Some,
        StateView::ReceiveMode { .. } => Mode::parse(tag) is Some,
        _ => false,
    }
}

/// The renders succeeded, and none of them sent a message.
pub open spec fn edited() -> Rendered {
    Rendered::Done { sent: None }
}

/// A conversation that no write has named is at `Start`.
pub proof fn law_unseen_is_start(writes: Seq<(i64, StateView)>, chat_id: i64)
    requires
        forall|i: int| 0 <= i < writes.len() ==> (#[trigger] writes[i]).0 != chat_id,
    ensures
        replay(writes)[chat_id] == StateView::Start,
    decreases writes.len(),
{
    if writes.len() > 0 {
        let before = writes.drop_last();
        assert forall|i: int| 0 <= i < before.len() implies (#[trigger] before[i]).0 != chat_id by {
            assert(before[i] == writes[i]);
        }
        law_unseen_is_start(before, chat_id);
        assert(writes.last() == writes[writes.len() - 1]);
    }
}

/// A reset puts its conversation to `Start` whatever its state was, and
/// leaves the state of every other conversation as it was.
pub proof fn law_reset_is_local(store: Map<i64, StateView>, chat_id: i64, other: i64)
    requires
        other != chat_id,
    ensures
        store.insert(chat_id, StateView::Start)[chat_id] == StateView::Start,
        store.insert(chat_id, StateView::Start)[other] == store[other],
{
}

/// Writes for two distinct conversations do not touch each other: each
/// conversation reads what was written for it, and the order of the two
/// writes makes no difference to the store.
pub proof fn law_conversations_are_apart(
    store: Map<i64, StateView>,
    first: i64,
    a: StateView,
    second: i64,
    b: StateView,
)
    requires
        first != second,
    ensures
        store.insert(first, a).insert(second, b)[first] == a,
        store.insert(first, a).insert(second, b)[second] == b,
        store.insert(first, a).insert(second, b) == store.insert(second, b).insert(first, a),
{
    assert(store.insert(first, a).insert(second, b) =~= store.insert(second, b).insert(first, a));
}

/// A step whose render failed leaves the state as it was.
pub proof fn law_failed_render_commits_nothing(step: StepView, state: StateView)
    ensures
        step.outcome.settled(Rendered::Failed) is None,
        step.advance(state, Rendered::Failed) == state,
{
}

/// A state that a button press commits never carries a stale flag: where
/// it has a freshness flag, the flag is `true`.
pub proof fn law_callback_commits_fresh(state: StateView, q: CallbackQueryView, rendered: Rendered)
    requires
        dialogue_callback(state, q).outcome.settled(rendered) is Some,
    ensures
        dialogue_callback(state, q).advance(state, rendered).freshness() != Some(false),
{
}

/// A text that arrives while a keyboard is pending brings the keyboard up
/// again in a new message and leaves the same step with a stale flag; the
/// button press that follows deletes the prompt and sends a new message in
/// its place.
pub proof fn law_text_marks_stale(state: StateView, msg: TextMessageView, q: CallbackQueryView)
    requires
        state.button_only(),
        msg.text is Some,
        q.data is Some,
        q.message is Some,
        recognized(state, q.data->0),
    ensures
        ({
            let again = dialogue_message(state, msg);
            let stale = again.advance(state, edited());
            let after = dialogue_callback(stale, q);
            &&& again.renders.len() == 1
            &&& again.renders[0] matches RenderView::Send { keyboard, .. } && keyboard is Some
            &&& stale.freshness() == Some(false)
            &&& state is Language ==> stale is Language
            &&& state matches StateView::ReceiveMode { user, .. } ==> stale
                == (StateView::ReceiveMode { user, last: LastFlag(false) })
            &&& after.renders.len() == 2
            &&& after.renders[0] == (RenderView::Delete { msg_id: q.message->0.id })
            &&& after.renders[1] is Send
        }),
{
}

/// A revised name replaces the name and nothing else: after two
/// revisions the language and the prompt are those from before, and the
/// name is the second revision. Each revision edits the prompt in place.
pub proof fn law_revision_keeps_prompt(
    lang: Language,
    name: Seq<char>,
    msg_id: i32,
    once: TextMessageView,
    twice: TextMessageView,
)
    requires
        once.text is Some,
        twice.text is Some,
    ensures
        ({
            let state = StateView::ConfirmName { lang, name, msg_id };
            let first = dialogue_message(state, once);
            let revised = first.advance(state, edited());
            let second = dialogue_message(revised, twice);
            &&& revised == (StateView::ConfirmName { lang, name: once.text->0, msg_id })
            &&& second.advance(revised, edited()) == (StateView::ConfirmName {
                lang,
                name: twice.text->0,
                msg_id,
            })
            &&& first.renders.len() == 1 && first.renders[0] is Edit
                && first.renders[0]->Edit_msg_id == msg_id
            &&& second.renders.len() == 1 && second.renders[0] is Edit
                && second.renders[0]->Edit_msg_id == msg_id
        }),
{
}

/// A button press whose tag names none of the options on offer renders
/// nothing and leaves the state as it is.
pub proof fn law_unrecognized_payload_is_ignored(
    state: StateView,
    q: CallbackQueryView,
    rendered: Rendered,
)
    requires
        q.data is Some,
        !recognized(state, q.data->0),
    ensures
        dialogue_callback(state, q).renders == Seq::<RenderView>::empty(),
        dialogue_callback(state, q).outcome == OutcomeView::Keep,
        dialogue_callback(state, q).diagnostic is Some,
        dialogue_callback(state, q).advance(state, rendered) == state,
{
}

/// The whole script: from `Start`, a first text, the button of a
/// language, a name, the confirmation and the button of a mode end in
/// `SelectedMode` with exactly that name, language and mode. The prompt is
/// fresh all along, so it is edited in place and no id of a new message
/// is needed.
pub proof fn law_script_completes(
    hello: TextMessageView,
    lang: Language,
    named: TextMessageView,
    mode: Mode,
    pick_lang: CallbackQueryView,
    confirm: CallbackQueryView,
    pick_mode: CallbackQueryView,
)
    requires
        hello.text is Some,
        named.text is Some,
        named.text->0.len() > 0,
        pick_lang.data == Some(lang.tag()),
        pick_lang.message is Some,
        confirm.data == Some(NameAction::Confirm.tag()),
        confirm.message is Some,
        pick_mode.data == Some(mode.tag()),
        pick_mode.message is Some,
    ensures
        ({
            let s0 = StateView::Start;
            let s1 = dialogue_message(s0, hello).advance(s0, edited());
            let s2 = dialogue_callback(s1, pick_lang).advance(s1, edited());
            let s3 = dialogue_message(s2, named).advance(s2, edited());
            let s4 = dialogue_callback(s3, confirm).advance(s3, edited());
            let s5 = dialogue_callback(s4, pick_mode).advance(s4, edited());
            s5 == (StateView::SelectedMode {
                user: UserView { name: named.text->0, lang, mode: Some(mode) },
            })
        }),
{
    Language::lemma_tag_round_trip(lang, lang.tag());
    Mode::lemma_tag_round_trip(mode, mode.tag());
}

/// The steps keep every profile as complete as its state says: starting
/// from a well-formed state, whatever a message or a button press commits
/// is well-formed again.
pub proof fn law_steps_keep_states_well_formed(
    state: StateView,
    msg: TextMessageView,
    q: CallbackQueryView,
    rendered: Rendered,
)
    requires
        state.well_formed(),
    ensures
        StateView::Start.well_formed(),
        dialogue_message(state, msg).advance(state, rendered).well_formed(),
        dialogue_callback(state, q).advance(state, rendered).well_formed(),
{
}

/// The prompt that a committed state records is the message that the
/// step rendered last: the one it edited, or the one it sent.
pub proof fn law_prompt_is_the_last_render(
    state: StateView,
    msg: TextMessageView,
    q: CallbackQueryView,
    rendered: Rendered,
)
    ensures
        prompt_is_last(dialogue_message(state, msg), rendered),
        prompt_is_last(dialogue_callback(state, q), rendered),
{
}

/// Whether the state that a step commits, if it commits one that records
/// a prompt, records the message of the step's last render.
pub open spec fn prompt_is_last(step: StepView, rendered: Rendered) -> bool {
    match step.outcome.settled(rendered) {
        Some(next) => match next.prompt() {
            Some(id) => step.renders.len() > 0 && match step.renders.last() {
                RenderView::Edit { msg_id, .. } => msg_id == id,
                RenderView::Send { .. } => rendered == (Rendered::Done { sent: Some(id) }),
                _ => false,
            },
            None => true,
        },
        None => true,
    }
}

/// No update is lost in silence, and none is half taken: a step of the
/// dialogue that renders nothing and stores nothing says why, and a step
/// that says why it dropped its update stores nothing. Where the table has
/// no handler, the step is the dropped one.
pub proof fn law_every_drop_is_diagnosed(
    state: StateView,
    msg: TextMessageView,
    q: CallbackQueryView,
)
    ensures
        diagnosed(dialogue_message(state, msg)),
        diagnosed(dialogue_callback(state, q)),
        route(state, EventKind::TextMessage) is None ==> dialogue_message(state, msg)
            == StepView::idle(Diagnostic::Dropped),
        route(state, EventKind::CallbackQuery) is None ==> dialogue_callback(state, q)
            == StepView::idle(Diagnostic::Dropped),
{
}

/// Whether a step that does nothing at all says why, and a step that
/// says why it dropped its update stores nothing and renders at most the
/// request for text.
pub open spec fn diagnosed(step: StepView) -> bool {
    &&& step.renders.len() == 0 && step.outcome is Keep ==> step.diagnostic is Some
    &&& step.diagnostic is Some ==> step.outcome is Keep
    &&& step.diagnostic is Some && step.renders.len() > 0 ==> step.diagnostic == Some(
        Diagnostic::MalformedInput,
    )
}

/// A command for everybody is answered in every state and changes none.
pub proof fn law_commands_leave_the_state(
    state: StateView,
    msg: TextMessageView,
    cfg: ConfigParameters,
    help: HelpView,
    draw: u64,
    rendered: Rendered,
)
    requires
        msg.command matches Some(ParsedView::General(_)),
    ensures
        dispatch(state, UpdateView::Message(msg), cfg, help, draw).renders.len() == 1,
        dispatch(state, UpdateView::Message(msg), cfg, help, draw).advance(state, rendered)
            == state,
{
}

/// The maintainer's reset puts the conversation to `Start` whatever its
/// state, and renders nothing.
pub proof fn law_maintainer_reset_reaches_start(
    state: StateView,
    msg: TextMessageView,
    cfg: ConfigParameters,
    help: HelpView,
    draw: u64,
    sent: Option<i32>,
)
    requires
        msg.command == Some(ParsedView::Maintainer(MaintainerCommand::Reset)),
        cfg.permits(msg.sender),
    ensures
        dispatch(state, UpdateView::Message(msg), cfg, help, draw).renders.len() == 0,
        dispatch(state, UpdateView::Message(msg), cfg, help, draw).advance(
            state,
            Rendered::Done { sent },
        ) == StateView::Start,
{
}

/// A maintainer command from anybody but the maintainer is a message like
/// any other: the dialogue takes it as the text that it is.
pub proof fn law_denied_command_is_a_message(
    state: StateView,
    msg: TextMessageView,
    cfg: ConfigParameters,
    help: HelpView,
    draw: u64,
)
    requires
        msg.command matches Some(ParsedView::Maintainer(_)),
        !cfg.permits(msg.sender),
    ensures
        dispatch(state, UpdateView::Message(msg), cfg, help, draw) == dialogue_message(state, msg),
{
}

} // verus!
