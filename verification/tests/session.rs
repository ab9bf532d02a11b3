use how_active::app::{cancels, column_after, pick_token, App, Command, Key, Location, Mode};
use how_active::discord::{Channel, Guild, Message, User};
use how_active::scan::{ScanAction, ScanEvent, ScanStatus};
use how_active::search::{FetchError, InputValidationError, Scope, SearchPage};

fn me() -> User {
    User {
        id: String::from("1"),
        username: String::from("me"),
        discriminator: String::from("0001"),
    }
}

fn ann() -> User {
    User {
        id: String::from("42"),
        username: String::from("ann"),
        discriminator: String::from("0042"),
    }
}

fn general() -> Channel {
    Channel { id: String::from("500"), name: String::from("general"), guild_id: String::from("77") }
}

fn home() -> Guild {
    Guild { id: String::from("77"), name: String::from("home") }
}

fn app() -> App {
    App::new(String::from("secret"), me())
}

fn page(count: usize) -> SearchPage {
    let mut messages = Vec::new();
    for i in 0..count {
        messages.push(Message {
            id: format!("{}", i),
            author: ann(),
            timestamp: String::from("2022-01-02T03:04:05+00:00"),
            edited_timestamp: None,
            content: String::from("hi"),
        });
    }
    SearchPage { messages, total_results: count as u32 }
}

fn type_in(app: &mut App, text: &str) {
    for c in text.chars() {
        assert_eq!(app.on_key(Key::Char(c)), Command::Redraw);
    }
}

#[test]
fn new_session_is_blank() {
    let app = app();
    assert_eq!(app.token, "secret");
    assert_eq!(app.user(), &me());
    assert!(app.target_user().is_empty());
    assert!(app.target_chan().is_empty());
    assert!(app.target_guil().is_empty());
    assert_eq!(app.target_loc(), Location::Channel);
    assert_eq!(app.input_mode(), Mode::Normal);
    assert_eq!(app.input_user(), "");
    assert_eq!(app.input_chan(), "");
    assert_eq!(app.scan().status(), ScanStatus::Idle);
    assert_eq!(app.scan().offset(), 0);
    assert_eq!(app.scan().messenger().token, "secret");
    assert!(!app.can_start());
}

#[test]
fn normal_mode_keys() {
    for key in ['u', 'i'] {
        let mut app = app();
        assert_eq!(app.on_key(Key::Char(key)), Command::Redraw);
        assert_eq!(app.input_mode(), Mode::User);
    }
    for key in ['c', 'a'] {
        let mut app = app();
        assert_eq!(app.on_key(Key::Char(key)), Command::Redraw);
        assert_eq!(app.input_mode(), Mode::Channel);
    }
    let mut app = app();
    assert_eq!(app.on_key(Key::Char('s')), Command::Start);
    assert_eq!(app.on_key(Key::Char('q')), Command::Quit);
    for key in [Key::Char('x'), Key::Enter, Key::Esc, Key::Backspace, Key::Other] {
        assert_eq!(app.on_key(key), Command::Redraw);
    }
    assert_eq!(app.input_mode(), Mode::Normal);
    assert_eq!(app.input_user(), "");
    assert_eq!(app.input_chan(), "");
}

#[test]
fn typing_an_author_id() {
    let mut app = app();
    app.on_key(Key::Char('i'));
    type_in(&mut app, "12q3");
    assert_eq!(app.input_user(), "12q3");
    assert_eq!(app.on_key(Key::Backspace), Command::Redraw);
    assert_eq!(app.on_key(Key::Backspace), Command::Redraw);
    assert_eq!(app.input_user(), "12");
    assert_eq!(app.on_key(Key::Other), Command::Redraw);
    assert_eq!(app.input_user(), "12");
    assert_eq!(app.input_chan(), "");
    assert_eq!(app.input_mode(), Mode::User);
    assert_eq!(app.on_key(Key::Enter), Command::FindUser(String::from("12")));
    assert_eq!(app.input_user(), "");
    assert_eq!(app.input_mode(), Mode::Normal);
}

#[test]
fn typing_a_channel_id() {
    let mut app = app();
    app.on_key(Key::Char('a'));
    type_in(&mut app, "500s");
    assert_eq!(app.on_key(Key::Backspace), Command::Redraw);
    assert_eq!(app.input_chan(), "500");
    assert_eq!(app.input_user(), "");
    assert_eq!(app.on_key(Key::Enter), Command::FindChannel(String::from("500")));
    assert_eq!(app.input_chan(), "");
    assert_eq!(app.input_mode(), Mode::Normal);
}

#[test]
fn enter_on_an_empty_field_does_nothing() {
    let mut app = app();
    app.on_key(Key::Char('u'));
    assert_eq!(app.on_key(Key::Enter), Command::Redraw);
    assert_eq!(app.input_mode(), Mode::User);
    assert_eq!(app.on_key(Key::Backspace), Command::Redraw);
    assert_eq!(app.input_user(), "");
    app.on_key(Key::Esc);
    app.on_key(Key::Char('c'));
    assert_eq!(app.on_key(Key::Enter), Command::Redraw);
    assert_eq!(app.input_mode(), Mode::Channel);
}

#[test]
fn escape_keeps_what_was_typed() {
    let mut app = app();
    app.on_key(Key::Char('u'));
    type_in(&mut app, "77");
    assert_eq!(app.on_key(Key::Esc), Command::Redraw);
    assert_eq!(app.input_mode(), Mode::Normal);
    assert_eq!(app.input_user(), "77");
    app.on_key(Key::Char('u'));
    type_in(&mut app, "8");
    assert_eq!(app.input_user(), "778");
}

#[test]
fn found_author_becomes_the_target() {
    let mut app = app();
    assert_eq!(app.set_target_user(Some(ann())), Ok(()));
    assert_eq!(app.target_user(), &ann());
    assert_eq!(app.input_user(), "");
}

#[test]
fn unknown_author_is_told_in_the_field() {
    let mut app = app();
    app.set_target_user(Some(ann())).unwrap();
    assert_eq!(app.set_target_user(None), Err(InputValidationError::User));
    assert_eq!(app.input_user(), "Invalid user id.");
    assert_eq!(app.target_user(), &ann());
    assert_eq!(app.input_mode(), Mode::Normal);
    app.dismiss(InputValidationError::User);
    assert_eq!(app.input_user(), "");
}

#[test]
fn found_channel_becomes_the_place() {
    let mut app = app();
    app.set_target_guil(Some(home())).unwrap();
    assert_eq!(app.target_loc(), Location::Guild);
    assert!(!app.set_target_chan(Some(general())));
    assert_eq!(app.target_chan(), &general());
    assert_eq!(app.target_loc(), Location::Channel);
    assert_eq!(app.target_guil(), &home());
}

#[test]
fn unknown_channel_is_tried_as_a_guild() {
    let mut app = app();
    app.set_target_chan(Some(general()));
    assert!(app.set_target_chan(None));
    assert!(app.target_chan().is_empty());
    assert_eq!(app.target_loc(), Location::Channel);
    assert_eq!(app.set_target_guil(Some(home())), Ok(()));
    assert_eq!(app.target_guil(), &home());
    assert_eq!(app.target_loc(), Location::Guild);
    assert_eq!(app.input_chan(), "");
}

#[test]
fn unknown_guild_is_told_in_the_field() {
    let mut app = app();
    app.set_target_guil(Some(home())).unwrap();
    assert_eq!(app.set_target_guil(None), Err(InputValidationError::Channel));
    assert!(app.target_guil().is_empty());
    assert_eq!(app.target_loc(), Location::Guild);
    assert_eq!(app.input_chan(), "Invalid channel id.");
    assert_eq!(app.input_user(), "");
    app.dismiss(InputValidationError::Channel);
    assert_eq!(app.input_chan(), "");
}

#[test]
fn dismiss_empties_one_field_only() {
    let mut app = app();
    app.on_key(Key::Char('c'));
    type_in(&mut app, "55");
    app.on_key(Key::Esc);
    let _ = app.set_target_user(None);
    app.dismiss(InputValidationError::User);
    assert_eq!(app.input_user(), "");
    assert_eq!(app.input_chan(), "55");
}

#[test]
fn scan_can_start_once_author_and_guild_are_known() {
    let mut app = app();
    assert!(!app.can_start());
    app.set_target_user(Some(ann())).unwrap();
    assert!(!app.can_start());
    app.set_target_chan(Some(general()));
    assert!(app.can_start());
    app.set_target_chan(None);
    assert!(!app.can_start());
    app.set_target_guil(Some(home())).unwrap();
    assert!(app.can_start());
}

#[test]
fn scan_of_a_channel() {
    let mut app = app();
    app.set_target_user(Some(ann())).unwrap();
    app.set_target_chan(Some(general()));
    assert_eq!(app.start(), Ok(ScanAction::Fetch));
    assert_eq!(app.scan().status(), ScanStatus::Running);
    assert_eq!(
        app.scan().target().scope,
        Scope::Channel { guild_id: String::from("77"), channel_id: String::from("500") }
    );
    assert_eq!(
        app.scan().url(),
        "https://discord.com/api/v9/guilds/77/messages/search?author_id=42&channel_id=500"
    );
    assert_eq!(app.scan().messenger().token, "secret");
}

#[test]
fn scan_of_a_guild() {
    let mut app = app();
    app.set_target_user(Some(ann())).unwrap();
    app.set_target_chan(Some(general()));
    app.set_target_guil(Some(home())).unwrap();
    assert_eq!(app.start(), Ok(ScanAction::Fetch));
    assert_eq!(app.scan().target().scope, Scope::Guild { guild_id: String::from("77") });
    assert_eq!(
        app.scan().url(),
        "https://discord.com/api/v9/guilds/77/messages/search?author_id=42"
    );
}

#[test]
fn session_runs_a_scan_to_its_end() {
    let mut app = app();
    app.set_target_user(Some(ann())).unwrap();
    app.set_target_guil(Some(home())).unwrap();
    app.start().unwrap();
    assert_eq!(app.scan_step(ScanEvent::Fetched(Ok(page(3)))), ScanAction::Poll);
    assert_eq!(app.scan_step(ScanEvent::Polled(cancels(Some(Key::Char('x'))))), ScanAction::Fetch);
    assert_eq!(app.scan_step(ScanEvent::Fetched(Ok(page(0)))), ScanAction::Stop);
    assert_eq!(app.scan().status(), ScanStatus::Done);
    assert_eq!(app.scan().offset(), 3);
    assert_eq!(app.target_user(), &ann());

    assert_eq!(app.start(), Ok(ScanAction::Fetch));
    assert_eq!(app.scan().offset(), 0);
    assert_eq!(app.scan_step(ScanEvent::Fetched(Ok(page(2)))), ScanAction::Poll);
    assert_eq!(app.scan_step(ScanEvent::Polled(cancels(Some(Key::Char('q'))))), ScanAction::Stop);
    assert_eq!(app.scan().status(), ScanStatus::Cancelled);
    assert_eq!(app.scan().collected().len(), 2);

    app.start().unwrap();
    assert_eq!(app.scan_step(ScanEvent::Fetched(Err(FetchError::Auth))), ScanAction::Stop);
    assert_eq!(app.scan().status(), ScanStatus::Failed(FetchError::Auth));
}

#[test]
fn a_new_id_drops_what_the_last_scan_collected() {
    let mut app = app();
    app.set_target_user(Some(ann())).unwrap();
    app.set_target_guil(Some(home())).unwrap();
    app.start().unwrap();
    app.scan_step(ScanEvent::Fetched(Ok(page(3))));
    app.scan_step(ScanEvent::Polled(true));
    assert_eq!(app.scan().collected().len(), 3);
    app.on_key(Key::Char('u'));
    app.on_key(Key::Esc);
    assert_eq!(app.scan().collected().len(), 3);
    app.on_key(Key::Char('u'));
    type_in(&mut app, "9");
    assert_eq!(app.on_key(Key::Enter), Command::FindUser(String::from("9")));
    assert_eq!(app.scan().collected().len(), 0);
    assert_eq!(app.scan().status(), ScanStatus::Idle);
    assert_eq!(app.scan().offset(), 0);
}

#[test]
fn only_q_cancels() {
    assert!(cancels(Some(Key::Char('q'))));
    assert!(!cancels(Some(Key::Char('Q'))));
    assert!(!cancels(Some(Key::Char('s'))));
    assert!(!cancels(Some(Key::Esc)));
    assert!(!cancels(Some(Key::Enter)));
    assert!(!cancels(Some(Key::Other)));
    assert!(!cancels(None));
}

#[test]
fn cursor_stands_behind_the_text() {
    assert_eq!(column_after(0, 0), Some(1));
    assert_eq!(column_after(10, 6), Some(17));
    assert_eq!(column_after(65534, 0), Some(65535));
    assert_eq!(column_after(65535, 0), None);
    assert_eq!(column_after(0, 65534), Some(65535));
    assert_eq!(column_after(0, 65535), None);
    assert_eq!(column_after(1, 65534), None);
    assert_eq!(column_after(7, usize::MAX), None);
}

#[test]
fn cursor_follows_the_mode_and_the_width_of_the_text() {
    let mut app = app();
    assert_eq!(app.cursor(3, 40), None);
    app.on_key(Key::Char('u'));
    assert_eq!(app.cursor(3, 40), Some(4));
    type_in(&mut app, "abc");
    assert_eq!(app.cursor(3, 40), Some(7));
    type_in(&mut app, "\u{65e5}\u{672c}");
    assert_eq!(app.input_user().chars().count(), 5);
    assert_eq!(app.input_user().len(), 9);
    assert_eq!(app.cursor(3, 40), Some(11));
    app.on_key(Key::Esc);
    app.on_key(Key::Char('c'));
    assert_eq!(app.cursor(3, 40), Some(41));
    type_in(&mut app, "12");
    assert_eq!(app.cursor(3, 40), Some(43));
    assert_eq!(app.cursor(3, 65533), None);
}

#[test]
fn token_comes_from_the_argument_first() {
    assert_eq!(
        pick_token(Some(String::from("a")), Some(String::from("b"))),
        Some(String::from("a"))
    );
    assert_eq!(pick_token(Some(String::from("a")), None), Some(String::from("a")));
    assert_eq!(pick_token(None, Some(String::from("b"))), Some(String::from("b")));
    assert_eq!(pick_token(None, None), None);
}

#[test]
fn empty_token_is_no_token() {
    assert_eq!(pick_token(Some(String::new()), Some(String::from("b"))), None);
    assert_eq!(pick_token(Some(String::new()), None), None);
    assert_eq!(pick_token(None, Some(String::new())), None);
}

#[test]
fn labels_of_what_is_chosen() {
    let mut app = app();
    assert_eq!(app.target_user_label(), None);
    assert_eq!(app.target_label(), None);
    app.set_target_user(Some(ann())).unwrap();
    assert_eq!(app.target_user_label(), Some(String::from("ann#0042 (42)")));
    assert_eq!(app.target_label(), None);
    app.set_target_chan(Some(general()));
    assert_eq!(app.target_label(), Some(String::from("general (500)")));
    app.set_target_guil(Some(home())).unwrap();
    assert_eq!(app.target_label(), Some(String::from("home (77)")));
    let _ = app.set_target_guil(None);
    assert_eq!(app.target_label(), None);
    assert_eq!(app.target_user_label(), Some(String::from("ann#0042 (42)")));
}

#[test]
fn start_without_a_target_tells_what_is_missing() {
    let mut app = app();
    assert_eq!(app.start(), Err(InputValidationError::User));
    assert_eq!(app.input_user(), "Invalid user id.");
    assert_eq!(app.input_chan(), "");
    assert_eq!(app.scan().status(), ScanStatus::Idle);
    app.dismiss(InputValidationError::User);
    assert_eq!(app.input_user(), "");

    app.set_target_user(Some(ann())).unwrap();
    assert_eq!(app.start(), Err(InputValidationError::Channel));
    assert_eq!(app.input_chan(), "Invalid channel id.");
    assert_eq!(app.input_user(), "");
    assert_eq!(app.scan().status(), ScanStatus::Idle);
    app.dismiss(InputValidationError::Channel);

    app.set_target_guil(Some(home())).unwrap();
    assert_eq!(app.start(), Ok(ScanAction::Fetch));
    assert_eq!(app.input_chan(), "");
}

#[test]
fn a_start_that_fails_keeps_the_last_scan() {
    let mut app = app();
    app.set_target_user(Some(ann())).unwrap();
    app.set_target_guil(Some(home())).unwrap();
    app.start().unwrap();
    app.scan_step(ScanEvent::Fetched(Ok(page(3))));
    app.scan_step(ScanEvent::Polled(true));
    let _ = app.set_target_guil(None);
    app.dismiss(InputValidationError::Channel);
    assert_eq!(app.start(), Err(InputValidationError::Channel));
    assert_eq!(app.scan().status(), ScanStatus::Cancelled);
    assert_eq!(app.scan().collected().len(), 3);
}
