//! The state store: the state of every conversation, by its identifier.

use crate::commands::HelpTexts;
use crate::event::{ConfigParameters, Update};
use crate::model;
use crate::render::{Outcome, Rendered, Step};
use crate::router::dispatch;
use crate::state::{State, StateView};
use std::collections::HashMap;
use vstd::prelude::*;
use vstd::std_specs::hash::*;

verus! {

broadcast use vstd::std_specs::hash::group_hash_axioms;

/// The states of all conversations. As a value it is a total map: every
/// identifier has exactly one state, and one never written has `Start`.
pub struct Store {
    dialogues: HashMap<i64, State>,
}

/// The store in which nothing was written.
pub open spec fn untouched() -> Map<i64, StateView> {
    Map::total(|chat_id: i64| StateView::Start)
}

/// The store after the writes of `writes`, first to last, each a
/// conversation and the state written for it.
pub open spec fn replay(writes: Seq<(i64, StateView)>) -> Map<i64, StateView>
    decreases writes.len(),
{
    if writes.len() == 0 {
        untouched()
    } else {
        replay(writes.drop_last()).insert(writes.last().0, writes.last().1)
    }
}

impl View for Store {
    type V = Map<i64, StateView>;

    closed spec fn view(&self) -> Map<i64, StateView> {
        Map::total(
            |chat_id: i64|
                if self.dialogues@.contains_key(chat_id) {
                    self.dialogues@[chat_id]@
                } else {
                    StateView::Start
                },
        )
    }
}

impl Store {
    /// A store in which every conversation is at `Start`.
    pub fn new() -> (store: Store)
        ensures
            store@ == untouched(),
    {
        let store = Store { dialogues: HashMap::new() };
        assert(store@ =~= untouched());
        store
    }

    /// The state of a conversation.
    pub fn get(&self, chat_id: i64) -> (state: State)
        ensures
            state@ == self@[chat_id],
    {
        match self.dialogues.get(&chat_id) {
            Some(state) => state.clone(),
            None => State::Start,
        }
    }

    /// Replaces the state of one conversation; every other one keeps its
    /// state.
    pub fn set(&mut self, chat_id: i64, state: State)
        ensures
            final(self)@ == old(self)@.insert(chat_id, state@),
    {
        self.dialogues.insert(chat_id, state);
        assert(self@ =~= old(self)@.insert(chat_id, state@));
    }

    /// Puts one conversation back to `Start`, whatever its state; every
    /// other one keeps its state.
    pub fn reset(&mut self, chat_id: i64)
        ensures
            final(self)@ == old(self)@.insert(chat_id, StateView::Start),
    {
        self.dialogues.remove(&chat_id);
        assert(self@ =~= old(self)@.insert(chat_id, StateView::Start));
    }

    /// The step that an update leads to for one conversation. It reads
    /// the store and writes nothing.
    pub fn begin(&self, chat_id: i64, update: &Update, cfg: &ConfigParameters, help: &HelpTexts) -> (step:
        Step)
        ensures
            match model::drawn_range(update@, *cfg) {
                Some((from, to)) => exists|value: u64|
                    from <= value <= to && step@ == #[trigger] model::dispatch(
                        self@[chat_id],
                        update@,
                        *cfg,
                        help@,
                        value,
                    ),
                None => step@ == model::dispatch(self@[chat_id], update@, *cfg, help@, 0),
            },
    {
        let state = self.get(chat_id);
        dispatch(&state, update, cfg, help)
    }

    /// Stores what a step leaves for one conversation, given how its
    /// renders fared. Where one failed the store stays as it is. Every other
    /// conversation keeps its state in any case.
    pub fn commit(&mut self, chat_id: i64, outcome: Outcome, rendered: Rendered)
        ensures
            final(self)@ == match outcome@.settled(rendered) {
                Some(next) => old(self)@.insert(chat_id, next),
                None => old(self)@,
            },
    {
        match outcome.settle(rendered) {
            Some(next) => self.set(chat_id, next),
            None => {},
        }
    }
}

} // verus!
