//! What a handler asks of the transport, and what it commits afterwards.

use crate::keyboard::{keyboard_view, ButtonView, Keyboard};
use crate::profile::Language;
use crate::state::{State, StateView};
use vstd::prelude::*;

verus! {

/// One call to the transport, in the chat of the update that caused it.
#[derive(Clone, Debug, PartialEq, Eq)]
pub enum Render {
    /// Send a new message.
    Send { text: String, keyboard: Option<Keyboard> },
    /// Replace the text and the keyboard of the message `msg_id`.
    Edit { msg_id: i32, text: String, keyboard: Option<Keyboard> },
    /// Replace the text of a message that was sent through inline mode.
    EditInline { inline_id: String, text: String },
    /// Delete the message `msg_id`.
    Delete { msg_id: i32 },
}

/// A transport call as plain values.
pub enum RenderView {
    Send { text: Seq<char>, keyboard: Option<Seq<Seq<ButtonView>>> },
    Edit { msg_id: i32, text: Seq<char>, keyboard: Option<Seq<Seq<ButtonView>>> },
    EditInline { inline_id: Seq<char>, text: Seq<char> },
    Delete { msg_id: i32 },
}

impl View for Render {
    type V = RenderView;

    open spec fn view(&self) -> RenderView {
        match *self {
            Render::Send { text, keyboard } => RenderView::Send {
                text: text@,
                keyboard: keyboard_view(keyboard),
            },
            Render::Edit { msg_id, text, keyboard } => RenderView::Edit {
                msg_id,
                text: text@,
                keyboard: keyboard_view(keyboard),
            },
            Render::EditInline { inline_id, text } => RenderView::EditInline {
                inline_id: inline_id@,
                text: text@,
            },
            Render::Delete { msg_id } => RenderView::Delete { msg_id },
        }
    }
}

/// Why an update changed nothing.
#[derive(Clone, Copy, Debug, PartialEq, Eq, Structural)]
pub enum Diagnostic {
    /// No handler takes this kind of update in this state, or the update
    /// lacks what the handler needs.
    Dropped,
    /// A message without text came where a text is asked for.
    MalformedInput,
    /// A callback tag that names none of the options on offer.
    UnrecognizedCallbackPayload,
}

/// How the transport fared with the renders of a step.
#[derive(Clone, Copy, Debug, PartialEq, Eq, Structural)]
pub enum Rendered {
    /// A render failed.
    Failed,
    /// Every render succeeded. `sent` is the id that the transport gave to
    /// the message that the step sent, if it sent one.
    Done { sent: Option<i32> },
}

/// What to store once every render of a step has succeeded.
#[derive(Debug, PartialEq, Eq)]
pub enum Outcome {
    /// The stored state stays as it is.
    Keep,
    /// Store this state.
    Commit(State),
    /// Store `ReceiveName` with this language and the id that the transport
    /// gave to the message that the step sent.
    CommitSent(Language),
}

/// An outcome as plain values.
pub enum OutcomeView {
    Keep,
    Commit(StateView),
    CommitSent(Language),
}

impl OutcomeView {
    /// The state to store, given how the renders fared; `None` where
    /// nothing is to be stored. Nothing is, where a render failed.
    pub open spec fn settled(self, rendered: Rendered) -> Option<StateView> {
        match (rendered, self) {
            (Rendered::Done { .. }, OutcomeView::Commit(state)) => Some(state),
            (Rendered::Done { sent: Some(id) }, OutcomeView::CommitSent(lang)) => Some(
                StateView::ReceiveName(lang, id),
            ),
            _ => None,
        }
    }
}

impl View for Outcome {
    type V = OutcomeView;

    open spec fn view(&self) -> OutcomeView {
        match *self {
            Outcome::Keep => OutcomeView::Keep,
            Outcome::Commit(state) => OutcomeView::Commit(state@),
            Outcome::CommitSent(lang) => OutcomeView::CommitSent(lang),
        }
    }
}

/// The view of a state that may be absent.
pub open spec fn state_view(state: Option<State>) -> Option<StateView> {
    match state {
        Some(s) => Some(s@),
        None => None,
    }
}

impl Outcome {
    /// The state to store, given how the renders fared; `None` where the
    /// stored state stays as it is. It stays where a render failed.
    pub fn settle(self, rendered: Rendered) -> (next: Option<State>)
        ensures
            state_view(next) == self@.settled(rendered),
    {
        match (rendered, self) {
            (Rendered::Done { .. }, Outcome::Commit(state)) => Some(state),
            (Rendered::Done { sent: Some(id) }, Outcome::CommitSent(lang)) => Some(
                State::ReceiveName(lang, id),
            ),
            _ => None,
        }
    }
}

/// What one update leads to: the renders, in order, then the commit.
#[derive(Debug, PartialEq, Eq)]
pub struct Step {
    pub renders: Vec<Render>,
    pub outcome: Outcome,
    pub diagnostic: Option<Diagnostic>,
}

/// A step as plain values.
pub struct StepView {
    pub renders: Seq<RenderView>,
    pub outcome: OutcomeView,
    pub diagnostic: Option<Diagnostic>,
}

impl StepView {
    /// A step that renders nothing and stores nothing.
    pub open spec fn idle(diagnostic: Diagnostic) -> StepView {
        StepView { renders: seq![], outcome: OutcomeView::Keep, diagnostic: Some(diagnostic) }
    }

    /// A step with one render and no commit.
    pub open spec fn reply(render: RenderView) -> StepView {
        StepView { renders: seq![render], outcome: OutcomeView::Keep, diagnostic: None }
    }

    /// A step with one render that then stores `state`.
    pub open spec fn render_commit(render: RenderView, state: StateView) -> StepView {
        StepView { renders: seq![render], outcome: OutcomeView::Commit(state), diagnostic: None }
    }

    /// The state of the conversation after the step, where it was `state`
    /// before.
    pub open spec fn advance(self, state: StateView, rendered: Rendered) -> StateView {
        match self.outcome.settled(rendered) {
            Some(next) => next,
            None => state,
        }
    }
}

impl View for Step {
    type V = StepView;

    open spec fn view(&self) -> StepView {
        StepView {
            renders: self.renders@.map_values(|r: Render| r@),
            outcome: self.outcome@,
            diagnostic: self.diagnostic,
        }
    }
}

impl Step {
    /// A step that renders nothing and stores nothing.
    pub fn idle(diagnostic: Diagnostic) -> (step: Step)
        ensures
            step@ == StepView::idle(diagnostic),
    {
        let step = Step { renders: Vec::new(), outcome: Outcome::Keep, diagnostic: Some(diagnostic) };
        assert(step@.renders =~= seq![]);
        step
    }

    /// A step with one render and no commit.
    pub fn reply(render: Render) -> (step: Step)
        ensures
            step@ == StepView::reply(render@),
    {
        let mut renders: Vec<Render> = Vec::new();
        renders.push(render);
        let step = Step { renders, outcome: Outcome::Keep, diagnostic: None };
        assert(step@.renders =~= seq![render@]);
        step
    }

    /// A step with one render that then stores `state`.
    pub fn render_commit(render: Render, state: State) -> (step: Step)
        ensures
            step@ == StepView::render_commit(render@, state@),
    {
        let mut renders: Vec<Render> = Vec::new();
        renders.push(render);
        let step = Step { renders, outcome: Outcome::Commit(state), diagnostic: None };
        assert(step@.renders =~= seq![render@]);
        step
    }
}

} // verus!
