//! The slash commands: those for everybody, and those for the maintainer.
//! They stand outside the dialogue and answer in any state.

use crate::event::{Command, ConfigParameters, MaintainerCommand};
use crate::handlers::plain;
use crate::keyboard::modes_keyboard;
use crate::model;
use crate::render::{Diagnostic, Outcome, Render, Step};
use crate::state::State;
use crate::text::push_decimal;
use vstd::prelude::*;
use vstd::string::*;

verus! {

/// The texts that describe the two tables of commands, as the command
/// parser words them.
#[derive(Clone, Debug, PartialEq, Eq)]
pub struct HelpTexts {
    pub general: String,
    pub maintainer: String,
}

impl View for HelpTexts {
    type V = model::HelpView;

    open spec fn view(&self) -> model::HelpView {
        model::HelpView { general: self.general@, maintainer: self.maintainer@ }
    }
}

/// The answer to a command that everybody may send. The maintainer's help
/// lists the maintainer commands too.
pub fn comands(cmd: &Command, sender: Option<u64>, cfg: &ConfigParameters, help: &HelpTexts) -> (render:
    Render)
    ensures
        render@ == model::comands(cmd@, sender, *cfg, help@),
{
    match cmd {
        Command::Help => {
            let mut text = help.general.clone();
            if cfg.is_maintainer(sender) {
                text.append("\n");
                text.append(help.maintainer.as_str());
            }
            plain(text)
        },
        Command::Mode => Render::Send {
            text: String::from_str("Select mode:"),
            keyboard: Some(modes_keyboard()),
        },
        Command::Username(username) => {
            let mut text = String::from_str("Your name is @");
            text.append(username.as_str());
            plain(text)
        },
        Command::UsernameAndAge { username, age } => {
            let mut text = String::from_str("Your username is @");
            text.append(username.as_str());
            text.append(" and age is ");
            push_decimal(&mut text, *age as u64);
            plain(text)
        },
    }
}

/// Draws a number with `rand::Rng::gen_range` on the inclusive range
/// `from..=to`, from the operating system's generator (`rand::rngs::OsRng`).
/// Trusted: the number lies in the range; nothing is claimed of which
/// number it is. `gen_range` panics on an empty range, which `requires`
/// leaves out; `OsRng` panics where the operating system gives no
/// randomness, which no argument decides.
#[verifier::external_body]
fn draw(from: u64, to: u64) -> (value: u64)
    requires
        from <= to,
    ensures
        from <= value <= to,
{
    let mut rng = rand::rngs::OsRng::default();
    rand::Rng::gen_range(&mut rng, from..=to)
}

/// The answer to the maintainer who asked for a number, where `value` was
/// drawn.
pub fn rand_reply(value: u64) -> (render: Render)
    ensures
        render@ == model::rand_reply(value),
{
    let mut text = String::from_str("Hello maintainer! Your rand value: ");
    push_decimal(&mut text, value);
    plain(text)
}

/// The step of a maintainer command. `Rand` draws a number of its range
/// and answers with it; on an empty range it does nothing. `Reset` puts the
/// conversation back to `Start`, whatever its state.
pub fn maintainer_commands(cmd: MaintainerCommand) -> (step: Step)
    ensures
        exists|value: u64|
            model::admits(cmd, value) && step@ == #[trigger] model::maintainer_commands(cmd, value),
{
    match cmd {
        MaintainerCommand::Rand { from, to } => {
            if from <= to {
                let value = draw(from, to);
                let step = Step::reply(rand_reply(value));
                assert(model::admits(cmd, value) && step@ == model::maintainer_commands(
                    cmd,
                    value,
                ));
                step
            } else {
                let step = Step::idle(Diagnostic::Dropped);
                assert(model::admits(cmd, 0) && step@ == model::maintainer_commands(cmd, 0));
                step
            }
        },
        MaintainerCommand::Reset => {
            let step = Step {
                renders: Vec::new(),
                outcome: Outcome::Commit(State::Start),
                diagnostic: None,
            };
            assert(step@.renders =~= seq![]);
            assert(model::admits(cmd, 0) && step@ == model::maintainer_commands(cmd, 0));
            step
        },
    }
}

} // verus!
