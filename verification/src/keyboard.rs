//! Button layouts: rows of buttons, each with a text and a callback tag.

use crate::profile::{Language, Mode, NameAction};
use vstd::prelude::*;
use vstd::string::*;

verus! {

/// One button: the text it shows and the tag it sends back when pressed.
#[derive(Clone, Debug, PartialEq, Eq)]
pub struct Button {
    pub text: String,
    pub callback: String,
}

/// A button as plain values.
pub struct ButtonView {
    pub text: Seq<char>,
    pub callback: Seq<char>,
}

impl View for Button {
    type V = ButtonView;

    open spec fn view(&self) -> ButtonView {
        ButtonView { text: self.text@, callback: self.callback@ }
    }
}

/// A layout of buttons, row by row.
#[derive(Clone, Debug, PartialEq, Eq)]
pub struct Keyboard {
    pub rows: Vec<Vec<Button>>,
}

impl View for Keyboard {
    type V = Seq<Seq<ButtonView>>;

    open spec fn view(&self) -> Seq<Seq<ButtonView>> {
        self.rows@.map_values(|row: Vec<Button>| row@.map_values(|b: Button| b@))
    }
}

/// The view of a keyboard that may be absent.
pub open spec fn keyboard_view(keyboard: Option<Keyboard>) -> Option<Seq<Seq<ButtonView>>> {
    match keyboard {
        Some(k) => Some(k@),
        None => None,
    }
}

pub open spec fn language_button(lang: Language) -> ButtonView {
    ButtonView { text: lang.label(), callback: lang.tag() }
}

pub open spec fn mode_button(mode: Mode) -> ButtonView {
    ButtonView { text: mode.label(), callback: mode.tag() }
}

pub open spec fn name_button(action: NameAction) -> ButtonView {
    ButtonView { text: action.label(), callback: action.tag() }
}

/// The language keyboard: one row, one button for each language.
pub open spec fn languages_layout() -> Seq<Seq<ButtonView>> {
    seq![seq![language_button(Language::EN), language_button(Language::UA)]]
}

/// The mode keyboard: one row for each mode.
pub open spec fn modes_layout() -> Seq<Seq<ButtonView>> {
    seq![
        seq![mode_button(Mode::Obimy)],
        seq![mode_button(Mode::Spotify)],
        seq![mode_button(Mode::Dungeons)],
    ]
}

/// The confirmation keyboard: a single button.
pub open spec fn name_layout() -> Seq<Seq<ButtonView>> {
    seq![seq![name_button(NameAction::Confirm)]]
}

pub fn languages_keyboard() -> (keyboard: Keyboard)
    ensures
        keyboard@ == languages_layout(),
{
    let langs = Language::variants();
    let mut row: Vec<Button> = Vec::new();
    let mut i: usize = 0;
    while i < langs.len()
        invariant
            langs@ == Language::all(),
            i <= langs.len(),
            row.len() == i,
            forall|k: int| 0 <= k < i ==> row@[k]@ == language_button(langs@[k]),
        decreases langs.len() - i,
    {
        let lang = langs[i];
        row.push(Button { text: String::from_str(lang.name()), callback: lang.callback() });
        i += 1;
    }
    let mut rows: Vec<Vec<Button>> = Vec::new();
    rows.push(row);
    let keyboard = Keyboard { rows };
    assert(keyboard@[0] =~= languages_layout()[0]);
    assert(keyboard@ =~= languages_layout());
    keyboard
}

pub fn modes_keyboard() -> (keyboard: Keyboard)
    ensures
        keyboard@ == modes_layout(),
{
    let modes = Mode::variants();
    let mut rows: Vec<Vec<Button>> = Vec::new();
    let mut i: usize = 0;
    while i < modes.len()
        invariant
            modes@ == Mode::all(),
            i <= modes.len(),
            rows.len() == i,
            forall|k: int|
                0 <= k < i ==> (#[trigger] rows@[k])@.map_values(|b: Button| b@) == seq![
                    mode_button(modes@[k]),
                ],
        decreases modes.len() - i,
    {
        let mode = modes[i];
        let mut row: Vec<Button> = Vec::new();
        row.push(Button { text: String::from_str(mode.name()), callback: mode.callback() });
        assert(row@.map_values(|b: Button| b@) =~= seq![mode_button(mode)]);
        rows.push(row);
        i += 1;
    }
    let keyboard = Keyboard { rows };
    assert(keyboard@ =~= modes_layout());
    keyboard
}

pub fn name_keyboard() -> (keyboard: Keyboard)
    ensures
        keyboard@ == name_layout(),
{
    let ok = NameAction::Confirm;
    let mut row: Vec<Button> = Vec::new();
    row.push(Button { text: String::from_str(ok.name()), callback: ok.callback() });
    let mut rows: Vec<Vec<Button>> = Vec::new();
    rows.push(row);
    let keyboard = Keyboard { rows };
    assert(keyboard@[0] =~= name_layout()[0]);
    assert(keyboard@ =~= name_layout());
    keyboard
}

} // verus!
