//! What a user chooses during the dialogue: language, name, mode.

use crate::text::same_text;
use vstd::prelude::*;
use vstd::string::*;

verus! {

/// Whether the prompt of a step is still the last message of its chat.
/// `true`: it may be edited in place. `false`: a message came in between,
/// so the prompt is deleted and sent again.
#[derive(Clone, Copy, Debug, PartialEq, Eq, Structural)]
pub struct LastFlag(pub bool);

/// The languages a user can pick.
#[derive(Clone, Copy, Debug, PartialEq, Eq, Structural)]
pub enum Language {
    EN,
    UA,
}

impl Language {
    /// The text on the button of this language.
    pub open spec fn label(self) -> Seq<char> {
        match self {
            Language::EN => "EN 🇬🇧"@,
            Language::UA => "UA 🇺🇦"@,
        }
    }

    /// The callback tag of this language.
    pub open spec fn tag(self) -> Seq<char> {
        match self {
            Language::EN => "EN"@,
            Language::UA => "UA"@,
        }
    }

    /// The language that a callback tag names, if any.
    pub open spec fn parse(tag: Seq<char>) -> Option<Language> {
        if tag == "EN"@ {
            Some(Language::EN)
        } else if tag == "UA"@ {
            Some(Language::UA)
        } else {
            None
        }
    }

    /// Every language, in the order of the keyboard.
    pub open spec fn all() -> Seq<Language> {
        seq![Language::EN, Language::UA]
    }

    pub fn name(&self) -> (label: &'static str)
        ensures
            label@ == self.label(),
    {
        match self {
            Language::EN => "EN 🇬🇧",
            Language::UA => "UA 🇺🇦",
        }
    }

    pub fn callback(&self) -> (tag: String)
        ensures
            tag@ == self.tag(),
    {
        match self {
            Language::EN => String::from_str("EN"),
            Language::UA => String::from_str("UA"),
        }
    }

    /// Decodes a callback tag; `None` for a tag that names no language.
    pub fn from_callback(s: &str) -> (lang: Option<Language>)
        ensures
            lang == Language::parse(s@),
    {
        if same_text(s, "EN") {
            Some(Language::EN)
        } else if same_text(s, "UA") {
            Some(Language::UA)
        } else {
            None
        }
    }

    /// Every language, in the order of the keyboard.
    pub fn variants() -> (list: Vec<Language>)
        ensures
            list@ == Language::all(),
    {
        let mut list: Vec<Language> = Vec::new();
        list.push(Language::EN);
        list.push(Language::UA);
        assert(list@ =~= Language::all());
        list
    }

    /// A tag decodes to a language exactly when it is that language's tag.
    pub proof fn lemma_tag_round_trip(lang: Language, tag: Seq<char>)
        ensures
            Language::parse(lang.tag()) == Some(lang),
            Language::parse(tag) == Some(lang) <==> tag == lang.tag(),
    {
        reveal_strlit("EN");
        reveal_strlit("UA");
        assert("EN"@[0] != "UA"@[0]);
    }
}

/// The modes a user can pick once the name is confirmed.
#[derive(Clone, Copy, Debug, PartialEq, Eq, Structural)]
pub enum Mode {
    Obimy,
    Spotify,
    Dungeons,
}

impl Mode {
    /// The text on the button of this mode.
    pub open spec fn label(self) -> Seq<char> {
        match self {
            Mode::Obimy => "Obimy"@,
            Mode::Spotify => "D&D"@,
            Mode::Dungeons => "Spotify"@,
        }
    }

    /// The callback tag of this mode.
    pub open spec fn tag(self) -> Seq<char> {
        match self {
            Mode::Obimy => "obimy"@,
            Mode::Spotify => "spotify"@,
            Mode::Dungeons => "dnd"@,
        }
    }

    /// The mode that a callback tag names, if any.
    pub open spec fn parse(tag: Seq<char>) -> Option<Mode> {
        if tag == "obimy"@ {
            Some(Mode::Obimy)
        } else if tag == "spotify"@ {
            Some(Mode::Spotify)
        } else if tag == "dnd"@ {
            Some(Mode::Dungeons)
        } else {
            None
        }
    }

    /// Every mode, in the order of the keyboard.
    pub open spec fn all() -> Seq<Mode> {
        seq![Mode::Obimy, Mode::Spotify, Mode::Dungeons]
    }

    pub fn name(&self) -> (label: &'static str)
        ensures
            label@ == self.label(),
    {
        match self {
            Mode::Obimy => "Obimy",
            Mode::Spotify => "D&D",
            Mode::Dungeons => "Spotify",
        }
    }

    pub fn callback(&self) -> (tag: String)
        ensures
            tag@ == self.tag(),
    {
        match self {
            Mode::Obimy => String::from_str("obimy"),
            Mode::Spotify => String::from_str("spotify"),
            Mode::Dungeons => String::from_str("dnd"),
        }
    }

    /// Decodes a callback tag; `None` for a tag that names no mode.
    pub fn from_callback(s: &str) -> (mode: Option<Mode>)
        ensures
            mode == Mode::parse(s@),
    {
        if same_text(s, "obimy") {
            Some(Mode::Obimy)
        } else if same_text(s, "spotify") {
            Some(Mode::Spotify)
        } else if same_text(s, "dnd") {
            Some(Mode::Dungeons)
        } else {
            None
        }
    }

    /// Every mode, in the order of the keyboard.
    pub fn variants() -> (list: Vec<Mode>)
        ensures
            list@ == Mode::all(),
    {
        let mut list: Vec<Mode> = Vec::new();
        list.push(Mode::Obimy);
        list.push(Mode::Spotify);
        list.push(Mode::Dungeons);
        assert(list@ =~= Mode::all());
        list
    }

    /// A tag decodes to a mode exactly when it is that mode's tag.
    pub proof fn lemma_tag_round_trip(mode: Mode, tag: Seq<char>)
        ensures
            Mode::parse(mode.tag()) == Some(mode),
            Mode::parse(tag) == Some(mode) <==> tag == mode.tag(),
    {
        reveal_strlit("obimy");
        reveal_strlit("spotify");
        reveal_strlit("dnd");
        assert("obimy"@[0] != "spotify"@[0]);
        assert("obimy"@[0] != "dnd"@[0]);
        assert("spotify"@[0] != "dnd"@[0]);
    }
}

/// What a user can answer to the proposed name.
#[derive(Clone, Copy, Debug, PartialEq, Eq, Structural)]
pub enum NameAction {
    Confirm,
}

impl NameAction {
    /// The text on the button of this answer.
    pub open spec fn label(self) -> Seq<char> {
        "Ok"@
    }

    /// The callback tag of this answer.
    pub open spec fn tag(self) -> Seq<char> {
        "ok"@
    }

    /// The answer that a callback tag names, if any.
    pub open spec fn parse(tag: Seq<char>) -> Option<NameAction> {
        if tag == "ok"@ {
            Some(NameAction::Confirm)
        } else {
            None
        }
    }

    pub fn name(&self) -> (label: &'static str)
        ensures
            label@ == self.label(),
    {
        "Ok"
    }

    pub fn callback(&self) -> (tag: String)
        ensures
            tag@ == self.tag(),
    {
        String::from_str("ok")
    }

    /// Decodes a callback tag; `None` for a tag that is not the confirmation.
    pub fn from_callback(s: &str) -> (action: Option<NameAction>)
        ensures
            action == NameAction::parse(s@),
    {
        if same_text(s, "ok") {
            Some(NameAction::Confirm)
        } else {
            None
        }
    }

    /// A tag decodes to an answer exactly when it is that answer's tag.
    pub proof fn lemma_tag_round_trip(action: NameAction, tag: Seq<char>)
        ensures
            NameAction::parse(action.tag()) == Some(action),
            NameAction::parse(tag) == Some(action) <==> tag == action.tag(),
    {
    }
}

/// The profile that the dialogue builds up.
#[derive(Debug, PartialEq, Eq)]
pub struct User {
    pub name: String,
    pub lang: Language,
    pub mode: Option<Mode>,
}

/// A profile as plain values.
pub struct UserView {
    pub name: Seq<char>,
    pub lang: Language,
    pub mode: Option<Mode>,
}

impl UserView {
    /// The line shown above the mode keyboard.
    pub open spec fn describe(self) -> Seq<char> {
        match self.lang {
            Language::EN => self.name + " ⫶ unselected"@,
            Language::UA => self.name + " ⫶ не вибрано"@,
        }
    }
}

impl View for User {
    type V = UserView;

    open spec fn view(&self) -> UserView {
        UserView { name: self.name@, lang: self.lang, mode: self.mode }
    }
}

impl Clone for User {
    fn clone(&self) -> (copy: User)
        ensures
            copy == *self,
    {
        User { name: self.name.clone(), lang: self.lang, mode: self.mode }
    }
}

impl User {
    /// A profile with a language and a name, and no mode yet.
    pub fn new(lang: Language, name: String) -> (user: User)
        ensures
            user@ == (UserView { name: name@, lang, mode: None }),
            user.name == name,
    {
        User { lang, name, mode: None }
    }

    pub fn describe(&self) -> (line: String)
        ensures
            line@ == self@.describe(),
    {
        let mut line = self.name.clone();
        match self.lang {
            Language::EN => line.append(" ⫶ unselected"),
            Language::UA => line.append(" ⫶ не вибрано"),
        }
        line
    }
}

} // verus!
