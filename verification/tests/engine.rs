use dices_bot::commands::{comands, maintainer_commands, rand_reply, HelpTexts};
use dices_bot::event::{
    CallbackQuery, Command, ConfigParameters, MaintainerCommand, Origin, Parsed, TextMessage,
    Update,
};
use dices_bot::handlers::{send_languages, send_modes, summary};
use dices_bot::keyboard::modes_keyboard;
use dices_bot::model::{EventKind, Handler};
use dices_bot::profile::{Language, LastFlag, Mode, User};
use dices_bot::render::{Diagnostic, Outcome, Render, Rendered, Step};
use dices_bot::router::{dialogue_callback, dialogue_message, dispatch, route};
use dices_bot::state::State;
use dices_bot::store::Store;

const MAINTAINER: u64 = 364448153;

fn cfg() -> ConfigParameters {
    ConfigParameters { bot_maintainer: MAINTAINER }
}

fn help() -> HelpTexts {
    HelpTexts { general: "general".to_string(), maintainer: "maintainer".to_string() }
}

fn says(sender: u64, t: &str) -> Update {
    Update::Message(TextMessage { sender: Some(sender), text: Some(t.to_string()), command: None })
}

fn commands(sender: Option<u64>, t: &str, parsed: Parsed) -> Update {
    Update::Message(TextMessage { sender, text: Some(t.to_string()), command: Some(parsed) })
}

fn presses(tag: &str, id: i32, chat_id: i64) -> Update {
    Update::Callback(CallbackQuery {
        data: Some(tag.to_string()),
        message: Some(Origin { id, chat_id }),
        inline_message_id: None,
    })
}

fn plain(t: &str) -> Render {
    Render::Send { text: t.to_string(), keyboard: None }
}

fn idle(diagnostic: Diagnostic) -> Step {
    Step { renders: vec![], outcome: Outcome::Keep, diagnostic: Some(diagnostic) }
}

fn every_state() -> Vec<State> {
    let user = User { name: "Alice".to_string(), lang: Language::EN, mode: None };
    let done = User { name: "Оля".to_string(), lang: Language::UA, mode: Some(Mode::Dungeons) };
    vec![
        State::Start,
        State::Language(LastFlag(true)),
        State::Language(LastFlag(false)),
        State::ReceiveName(Language::EN, 11),
        State::ConfirmName { lang: Language::UA, name: "Оля".to_string(), msg_id: 11 },
        State::ReceiveMode { user: user.clone(), last: LastFlag(true) },
        State::ReceiveMode { user, last: LastFlag(false) },
        State::SelectedMode { user: done },
    ]
}

/// Runs one update for one conversation: the step, then the commit.
fn run(store: &mut Store, chat_id: i64, update: &Update, sent: Option<i32>) -> Step {
    let step = store.begin(chat_id, update, &cfg(), &help());
    let renders = step.renders.clone();
    let diagnostic = step.diagnostic;
    let shown = Step { renders, outcome: Outcome::Keep, diagnostic };
    store.commit(chat_id, step.outcome, Rendered::Done { sent });
    shown
}

#[test]
fn the_table_has_one_handler_for_each_answered_pair() {
    let user = User::new(Language::EN, "A".to_string());
    let text = EventKind::TextMessage;
    let press = EventKind::CallbackQuery;
    assert_eq!(route(&State::Start, text), Some(Handler::Start));
    assert_eq!(route(&State::Start, press), None);
    let language = State::Language(LastFlag(true));
    assert_eq!(route(&language, text), Some(Handler::LanguageMessage));
    assert_eq!(route(&language, press), Some(Handler::LanguageCallback));
    let name = State::ReceiveName(Language::EN, 1);
    assert_eq!(route(&name, text), Some(Handler::NameMessage));
    assert_eq!(route(&name, press), None);
    let confirm = State::ConfirmName { lang: Language::EN, name: "A".to_string(), msg_id: 1 };
    assert_eq!(route(&confirm, text), Some(Handler::ConfirmNameMessage));
    assert_eq!(route(&confirm, press), Some(Handler::ConfirmNameCallback));
    let mode = State::ReceiveMode { user: user.clone(), last: LastFlag(false) };
    assert_eq!(route(&mode, text), Some(Handler::ModeMessage));
    assert_eq!(route(&mode, press), Some(Handler::ModeCallback));
    let done = State::SelectedMode { user };
    assert_eq!(route(&done, text), Some(Handler::ModeMessage));
    assert_eq!(route(&done, press), None);
}

#[test]
fn a_button_where_only_text_is_taken_is_dropped() {
    let q = CallbackQuery {
        data: Some("EN".to_string()),
        message: Some(Origin { id: 1, chat_id: 42 }),
        inline_message_id: None,
    };
    let user = User { name: "A".to_string(), lang: Language::EN, mode: Some(Mode::Obimy) };
    for state in [State::Start, State::ReceiveName(Language::EN, 1), State::SelectedMode { user }] {
        assert_eq!(dialogue_callback(&state, &q), idle(Diagnostic::Dropped));
    }
}

#[test]
fn the_script_ends_with_the_whole_profile() {
    let mut store = Store::new();
    let chat = 42;
    assert_eq!(store.get(chat), State::Start);
    let shown = run(&mut store, chat, &says(7, "hello"), Some(11));
    assert_eq!(shown.renders, vec![send_languages()]);
    assert_eq!(store.get(chat), State::Language(LastFlag(true)));
    run(&mut store, chat, &presses("EN", 11, chat), None);
    assert_eq!(store.get(chat), State::ReceiveName(Language::EN, 11));
    run(&mut store, chat, &says(7, "Alice"), None);
    assert_eq!(
        store.get(chat),
        State::ConfirmName { lang: Language::EN, name: "Alice".to_string(), msg_id: 11 }
    );
    run(&mut store, chat, &presses("ok", 11, chat), None);
    assert_eq!(
        store.get(chat),
        State::ReceiveMode {
            user: User { name: "Alice".to_string(), lang: Language::EN, mode: None },
            last: LastFlag(true),
        }
    );
    let shown = run(&mut store, chat, &presses("obimy", 11, chat), None);
    let alice = User { name: "Alice".to_string(), lang: Language::EN, mode: Some(Mode::Obimy) };
    assert_eq!(
        shown.renders,
        vec![Render::Edit { msg_id: 11, text: summary(chat, &alice), keyboard: None }]
    );
    assert_eq!(store.get(chat), State::SelectedMode { user: alice });
}

#[test]
fn the_script_ends_the_same_for_every_language_and_mode() {
    for lang in Language::variants() {
        for mode in Mode::variants() {
            let mut store = Store::new();
            run(&mut store, 1, &says(7, "hi"), Some(5));
            run(&mut store, 1, &presses(&lang.callback(), 5, 1), None);
            run(&mut store, 1, &says(7, "Alice"), None);
            run(&mut store, 1, &presses("ok", 5, 1), None);
            run(&mut store, 1, &presses(&mode.callback(), 5, 1), None);
            let user = User { name: "Alice".to_string(), lang, mode: Some(mode) };
            assert_eq!(store.get(1), State::SelectedMode { user });
        }
    }
}

#[test]
fn a_stray_text_makes_the_next_button_delete_and_resend() {
    let mut store = Store::new();
    run(&mut store, 1, &says(7, "hi"), Some(5));
    let shown = run(&mut store, 1, &says(7, "what?"), Some(6));
    assert_eq!(shown.renders, vec![send_languages()]);
    assert_eq!(store.get(1), State::Language(LastFlag(false)));
    let shown = run(&mut store, 1, &presses("UA", 6, 1), Some(8));
    assert_eq!(shown.renders, vec![Render::Delete { msg_id: 6 }, plain("Як тебе звати?")]);
    assert_eq!(store.get(1), State::ReceiveName(Language::UA, 8));
    run(&mut store, 1, &says(7, "Оля"), None);
    run(&mut store, 1, &presses("ok", 8, 1), None);
    let olya = User::new(Language::UA, "Оля".to_string());
    assert_eq!(store.get(1), State::ReceiveMode { user: olya.clone(), last: LastFlag(true) });
    let shown = run(&mut store, 1, &says(7, "eh"), Some(9));
    assert_eq!(shown.renders, vec![send_modes(&olya, None)]);
    assert_eq!(store.get(1), State::ReceiveMode { user: olya, last: LastFlag(false) });
    let shown = run(&mut store, 1, &presses("dnd", 9, 1), Some(10));
    assert_eq!(shown.renders.len(), 2);
    assert_eq!(shown.renders[0], Render::Delete { msg_id: 9 });
    assert!(matches!(shown.renders[1], Render::Send { keyboard: None, .. }));
}

#[test]
fn a_committed_state_after_a_button_is_never_stale() {
    let tags = ["EN", "UA", "ok", "obimy", "spotify", "dnd", "XX", ""];
    for state in every_state() {
        for tag in tags {
            let q = CallbackQuery {
                data: Some(tag.to_string()),
                message: Some(Origin { id: 3, chat_id: 1 }),
                inline_message_id: None,
            };
            let step = dialogue_callback(&state, &q);
            match step.outcome.settle(Rendered::Done { sent: Some(4) }) {
                Some(State::Language(last)) => assert_eq!(last, LastFlag(true)),
                Some(State::ReceiveMode { last, .. }) => assert_eq!(last, LastFlag(true)),
                _ => {}
            }
        }
    }
}

#[test]
fn an_unrecognized_tag_leaves_every_state_as_it_is() {
    for state in every_state() {
        let q = CallbackQuery {
            data: Some("XX".to_string()),
            message: Some(Origin { id: 3, chat_id: 1 }),
            inline_message_id: None,
        };
        let step = dialogue_callback(&state, &q);
        assert!(step.renders.is_empty());
        assert!(step.diagnostic.is_some());
        assert_eq!(step.outcome, Outcome::Keep);
        let mut store = Store::new();
        store.set(1, state.clone());
        run(&mut store, 1, &Update::Callback(q), Some(9));
        assert_eq!(store.get(1), state);
    }
}

#[test]
fn unseen_conversations_are_at_start() {
    let mut store = Store::new();
    for id in [0i64, 1, -1, i64::MAX, i64::MIN] {
        assert_eq!(store.get(id), State::Start);
    }
    store.set(5, State::Language(LastFlag(true)));
    assert_eq!(store.get(6), State::Start);
    assert_eq!(store.get(-5), State::Start);
}

#[test]
fn set_replaces_the_state_of_one_conversation() {
    let mut store = Store::new();
    store.set(5, State::Language(LastFlag(true)));
    store.set(5, State::ReceiveName(Language::UA, 3));
    assert_eq!(store.get(5), State::ReceiveName(Language::UA, 3));
    assert_eq!(store.get(5), State::ReceiveName(Language::UA, 3));
}

#[test]
fn reset_puts_one_conversation_to_start_and_no_other() {
    for state in every_state() {
        let mut store = Store::new();
        store.set(1, state.clone());
        store.set(2, state.clone());
        store.reset(1);
        assert_eq!(store.get(1), State::Start);
        assert_eq!(store.get(2), state);
        store.reset(3);
        assert_eq!(store.get(3), State::Start);
        assert_eq!(store.get(2), state);
    }
}

#[test]
fn two_conversations_do_not_mix_their_profiles() {
    let mut store = Store::new();
    run(&mut store, 1, &says(7, "hi"), Some(5));
    run(&mut store, 2, &says(8, "hi"), Some(6));
    run(&mut store, 2, &presses("UA", 6, 2), None);
    run(&mut store, 1, &presses("EN", 5, 1), None);
    run(&mut store, 1, &says(7, "Alice"), None);
    run(&mut store, 2, &says(8, "Оля"), None);
    run(&mut store, 2, &presses("ok", 6, 2), None);
    run(&mut store, 1, &presses("ok", 5, 1), None);
    run(&mut store, 1, &presses("obimy", 5, 1), None);
    run(&mut store, 2, &presses("dnd", 6, 2), None);
    let alice = User { name: "Alice".to_string(), lang: Language::EN, mode: Some(Mode::Obimy) };
    let olya = User { name: "Оля".to_string(), lang: Language::UA, mode: Some(Mode::Dungeons) };
    assert_eq!(store.get(1), State::SelectedMode { user: alice });
    assert_eq!(store.get(2), State::SelectedMode { user: olya });
}

#[test]
fn writes_for_two_conversations_commute() {
    let a = State::ReceiveName(Language::EN, 1);
    let b = State::Language(LastFlag(false));
    let mut one = Store::new();
    one.set(1, a.clone());
    one.set(2, b.clone());
    let mut other = Store::new();
    other.set(2, b.clone());
    other.set(1, a.clone());
    for id in [0i64, 1, 2, 3] {
        assert_eq!(one.get(id), other.get(id));
    }
    assert_eq!(one.get(1), a);
    assert_eq!(one.get(2), b);
}

#[test]
fn commit_stores_what_the_outcome_settles_to() {
    let mut store = Store::new();
    store.set(1, State::Language(LastFlag(false)));
    store.commit(1, Outcome::Keep, Rendered::Done { sent: Some(3) });
    assert_eq!(store.get(1), State::Language(LastFlag(false)));
    store.commit(1, Outcome::CommitSent(Language::EN), Rendered::Done { sent: None });
    assert_eq!(store.get(1), State::Language(LastFlag(false)));
    store.commit(1, Outcome::CommitSent(Language::EN), Rendered::Done { sent: Some(3) });
    assert_eq!(store.get(1), State::ReceiveName(Language::EN, 3));
    store.commit(1, Outcome::Commit(State::Start), Rendered::Done { sent: None });
    assert_eq!(store.get(1), State::Start);
    assert_eq!(store.get(2), State::Start);
}

#[test]
fn a_failed_render_leaves_the_store_as_it_was() {
    for state in every_state() {
        for tag in ["EN", "ok", "dnd"] {
            let mut store = Store::new();
            store.set(1, state.clone());
            let step = store.begin(1, &presses(tag, 3, 1), &cfg(), &help());
            store.commit(1, step.outcome, Rendered::Failed);
            assert_eq!(store.get(1), state);
            let step = store.begin(1, &says(7, "Alice"), &cfg(), &help());
            store.commit(1, step.outcome, Rendered::Failed);
            assert_eq!(store.get(1), state);
        }
    }
}

#[test]
fn help_lists_the_maintainer_commands_for_the_maintainer_only() {
    assert_eq!(comands(&Command::Help, Some(MAINTAINER), &cfg(), &help()), plain("general\nmaintainer"));
    assert_eq!(comands(&Command::Help, Some(7), &cfg(), &help()), plain("general"));
    assert_eq!(comands(&Command::Help, None, &cfg(), &help()), plain("general"));
}

#[test]
fn the_other_commands_answer_with_their_texts() {
    assert_eq!(
        comands(&Command::Mode, Some(7), &cfg(), &help()),
        Render::Send { text: "Select mode:".to_string(), keyboard: Some(modes_keyboard()) }
    );
    assert_eq!(
        comands(&Command::Username("alice".to_string()), Some(7), &cfg(), &help()),
        plain("Your name is @alice")
    );
    for age in [0u8, 7, 10, 42, 99, 100, 255] {
        let cmd = Command::UsernameAndAge { username: "alice".to_string(), age };
        assert_eq!(
            comands(&cmd, None, &cfg(), &help()),
            plain(&format!("Your username is @alice and age is {}", age))
        );
    }
}

#[test]
fn a_command_is_answered_in_every_state_and_changes_none() {
    let update = commands(Some(7), "/username bob", Parsed::General(Command::Username("bob".to_string())));
    for state in every_state() {
        let step = dispatch(&state, &update, &cfg(), &help());
        assert_eq!(
            step,
            Step {
                renders: vec![plain("Your name is @bob")],
                outcome: Outcome::Keep,
                diagnostic: None,
            }
        );
    }
}

#[test]
fn rand_reply_writes_the_number() {
    assert_eq!(rand_reply(0), plain("Hello maintainer! Your rand value: 0"));
    assert_eq!(rand_reply(1234567890), plain("Hello maintainer! Your rand value: 1234567890"));
    assert_eq!(
        rand_reply(u64::MAX),
        plain("Hello maintainer! Your rand value: 18446744073709551615")
    );
}

#[test]
fn rand_draws_within_the_range() {
    for _ in 0..200 {
        let step = maintainer_commands(MaintainerCommand::Rand { from: 10, to: 12 });
        assert_eq!(step.outcome, Outcome::Keep);
        assert_eq!(step.diagnostic, None);
        let hits = [10u64, 11, 12].iter().filter(|v| step.renders == vec![rand_reply(**v)]).count();
        assert_eq!(hits, 1);
    }
    let step = maintainer_commands(MaintainerCommand::Rand { from: 5, to: 5 });
    assert_eq!(step.renders, vec![rand_reply(5)]);
}

#[test]
fn rand_draws_more_than_the_ends_of_the_range() {
    let mut inside = false;
    for _ in 0..64 {
        let step = maintainer_commands(MaintainerCommand::Rand { from: 0, to: u64::MAX });
        if step.renders != vec![rand_reply(0)] && step.renders != vec![rand_reply(u64::MAX)] {
            inside = true;
        }
    }
    assert!(inside);
}

#[test]
fn rand_on_an_empty_range_does_nothing() {
    let step = maintainer_commands(MaintainerCommand::Rand { from: 3, to: 2 });
    assert_eq!(step, idle(Diagnostic::Dropped));
}

#[test]
fn reset_command_commits_start_from_every_state() {
    let step = maintainer_commands(MaintainerCommand::Reset);
    assert_eq!(
        step,
        Step { renders: vec![], outcome: Outcome::Commit(State::Start), diagnostic: None }
    );
    let update = commands(Some(MAINTAINER), "/reset", Parsed::Maintainer(MaintainerCommand::Reset));
    for state in every_state() {
        let mut store = Store::new();
        store.set(1, state.clone());
        store.set(2, state.clone());
        run(&mut store, 1, &update, None);
        assert_eq!(store.get(1), State::Start);
        assert_eq!(store.get(2), state);
    }
}

#[test]
fn a_maintainer_command_from_anybody_else_is_a_plain_message() {
    let parsed = Parsed::Maintainer(MaintainerCommand::Reset);
    let state = State::ReceiveName(Language::EN, 11);
    for sender in [Some(7u64), None] {
        let update = commands(sender, "/reset", parsed.clone());
        let step = dispatch(&state, &update, &cfg(), &help());
        assert_eq!(
            step.outcome,
            Outcome::Commit(State::ConfirmName {
                lang: Language::EN,
                name: "/reset".to_string(),
                msg_id: 11,
            })
        );
    }
    let rand = Parsed::Maintainer(MaintainerCommand::Rand { from: 1, to: 2 });
    let update = commands(Some(7), "/rand 1 2", rand);
    let step = dispatch(&State::Language(LastFlag(true)), &update, &cfg(), &help());
    assert_eq!(step.renders, vec![send_languages()]);
    assert_eq!(step.outcome, Outcome::Commit(State::Language(LastFlag(false))));
}

#[test]
fn the_maintainer_is_who_the_configuration_names() {
    assert!(cfg().is_maintainer(Some(MAINTAINER)));
    assert!(!cfg().is_maintainer(Some(MAINTAINER + 1)));
    assert!(!cfg().is_maintainer(Some(0)));
    assert!(!cfg().is_maintainer(None));
}

#[test]
fn a_message_without_text_is_dropped_but_where_a_name_is_asked() {
    let empty = TextMessage { sender: Some(7), text: None, command: None };
    for state in every_state() {
        let step = dialogue_message(&state, &empty);
        assert_eq!(step.outcome, Outcome::Keep);
        if let State::ReceiveName(_, _) = state {
            assert_eq!(step.renders, vec![plain("Send me plain text.")]);
            assert_eq!(step.diagnostic, Some(Diagnostic::MalformedInput));
        } else {
            assert_eq!(step, idle(Diagnostic::Dropped));
        }
    }
}
