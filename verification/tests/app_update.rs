use gelato::app::{Action, App, IrcError, LoadError, SaveError, SavedState, State};
use gelato::message::{app_loading_command, Message};
use gelato::style::Button;
use gelato::subscribe_irc::{Progress, SubscribeIrcState};

fn state(app: &App) -> &State {
    app.state().expect("screen state")
}

fn saved() -> SavedState {
    SavedState {
        input_value: "43".to_string(),
        display_value: "Push Start IRC button".to_string(),
    }
}

#[test]
fn starts_loading_and_asks_for_the_saved_state() {
    let (app, action) = App::new();
    assert!(matches!(app, App::Loading));
    assert_eq!(action, Action::LoadSavedState);
    assert_eq!(app.title(), "Gelato");
    assert!(app.state().is_none());
    assert!(app.subscription().is_none());
}

#[test]
fn loaded_saved_state_connects() {
    let (mut app, _) = App::new();
    let action = app.update(Message::Loaded(Ok(saved())));
    assert_eq!(action, Action::ConnectClient);
    assert!(matches!(app, App::Loaded(_)));
    let st = state(&app);
    assert!(st.client_attached);
    assert_eq!(st.display_value, "");
    assert!(st.saving && st.dirty && !st.connecting_flag);
}

#[test]
fn failed_load_starts_without_connection() {
    let (mut app, _) = App::new();
    assert_eq!(app.update(Message::IrcStart), Action::Nothing);
    assert!(matches!(app, App::Loading));
    let action = app.update(Message::Loaded(Err(LoadError::FormatError)));
    assert_eq!(action, Action::Nothing);
    assert!(matches!(app, App::Loaded(_)));
    assert!(!state(&app).client_attached);
}

#[test]
fn irc_start_connects_the_screen() {
    let mut app = App::Loaded(State::default());
    assert_eq!(app.update(Message::InputChanged("abc".to_string())), Action::Nothing);
    assert_eq!(state(&app).input_value, "abc");
    assert_eq!(app.update(Message::IrcStart), Action::Nothing);
    assert!(matches!(app, App::IrcConnecting(_)));
    assert!(matches!(app.subscription(), Some(SubscribeIrcState::Ready { ref some_input }) if some_input.is_empty()));
}

#[test]
fn saved_then_other_message_resets_saving() {
    let mut app = App::Loaded(State::default());
    app.update(Message::Saved(Ok(())));
    let st = state(&app);
    // dirty and not saving: marked clean and saving at once
    assert!(st.saving && !st.dirty);
    // the start request after that is taken
    app.update(Message::IrcStart);
    assert!(matches!(app, App::IrcConnecting(_)));
}

#[test]
fn start_is_swallowed_while_dirty_and_not_saving() {
    let mut st = State::default();
    st.saving = false;
    st.dirty = false;
    let mut app = App::Loaded(st);
    app.update(Message::IrcStart);
    assert!(matches!(app, App::Loaded(_)));
    let st = state(&app);
    assert!(st.saving && !st.dirty);
}

#[test]
fn lines_are_filtered_into_the_display() {
    let mut app = App::IrcConnecting(State::default());
    let a = app.update(Message::IrcProgressed(Progress::Advanced(
        ":bob!b@h PRIVMSG #test :hi\r\n".to_string(),
    )));
    assert_eq!(a, Action::Nothing);
    app.update(Message::IrcProgressed(Progress::Advanced(":x!y@z JOIN #test :q".to_string())));
    app.update(Message::IrcProgressed(Progress::Advanced("PING :srv".to_string())));
    app.update(Message::IrcProgressed(Progress::Started));
    let st = state(&app);
    assert_eq!(st.display_value, "bob  :hi\r\nx is Joined!\n");
    assert!(st.connecting_flag);
    assert!(matches!(app, App::IrcConnecting(_)));
}

#[test]
fn posting_sends_the_input_to_test() {
    let mut app = App::IrcConnecting(State::default());
    app.update(Message::InputChanged("hello".to_string()));
    let action = app.update(Message::PostMessage);
    assert_eq!(
        action,
        Action::SendPrivmsg { target: "#test".to_string(), text: "hello".to_string() }
    );
    assert_eq!(state(&app).input_value, "");
    // posting an empty input sends nothing
    assert_eq!(app.update(Message::PostMessage), Action::Nothing);
    assert_eq!(app.update(Message::Sent), Action::Nothing);
}

#[test]
fn stream_end_finishes_then_returns_to_screen() {
    let mut app = App::IrcConnecting(State::default());
    assert_eq!(app.update(Message::IrcProgressed(Progress::Finished)), Action::FinishIrc);
    assert!(matches!(app, App::IrcFinished(_)));
    assert!(state(&app).connecting_flag);
    assert_eq!(app.update(Message::IrcFinished(Ok(()))), Action::Nothing);
    assert!(matches!(app, App::Loaded(_)));
    assert!(state(&app).connecting_flag);
}

#[test]
fn stream_error_finishes() {
    let mut app = App::IrcConnecting(State::default());
    assert_eq!(app.update(Message::IrcProgressed(Progress::Errored)), Action::FinishIrc);
    assert!(matches!(app, App::IrcFinished(_)));
}

#[test]
fn stop_request_clears_connecting() {
    let mut app = App::IrcConnecting(State::default());
    assert_eq!(app.update(Message::IrcFinished(Err(IrcError::IrcError))), Action::FinishIrc);
    assert!(matches!(app, App::IrcFinished(_)));
    assert!(!state(&app).connecting_flag);
    let (label, msg, style) = state(&app).irc_button_control();
    assert_eq!(label, "Start IRC");
    assert_eq!(msg, Message::IrcStart);
    assert_eq!(style, Button::Start);
}

#[test]
fn irc_button_while_connecting_stops() {
    let mut st = State::default();
    st.connecting_flag = true;
    let (label, msg, style) = st.irc_button_control();
    assert_eq!(label, "Stop IRC");
    assert_eq!(msg, Message::IrcFinished(Ok(())));
    assert_eq!(style, Button::Stop);
}

#[test]
fn loading_command_uses_saved_display() {
    let mut app = App::Loading;
    assert_eq!(app_loading_command(&mut app, Message::Loaded(Ok(saved()))), Action::Nothing);
    let st = state(&app);
    assert_eq!(st.display_value, "Push Start IRC button");
    assert_eq!(st.input_value, "");
    assert!(!st.client_attached);
    let mut app = App::Loading;
    app_loading_command(&mut app, Message::Loaded(Err(LoadError::FileError)));
    assert_eq!(state(&app).display_value, "");
    let mut app = App::Loading;
    app_loading_command(&mut app, Message::Saved(Err(SaveError::WriteError)));
    assert!(matches!(app, App::Loading));
}

#[test]
fn new_display_val_keeps_defaults() {
    let st = State::new_display_val("hi".to_string());
    assert_eq!(st.display_value, "hi");
    assert!(st.saving && st.dirty && !st.connecting_flag && !st.client_attached);
    assert_eq!(st.input_value, "");
    assert_eq!(st.current_channel, "");
}

#[test]
fn message_clone_is_equal() {
    let m = Message::Loaded(Ok(saved()));
    assert_eq!(m.clone(), m);
    let m = Message::IrcProgressed(Progress::Advanced("x".to_string()));
    assert_eq!(m.clone(), m);
}

#[test]
fn connection_stays_with_the_screen_state() {
    let (mut app, _) = App::new();
    app.update(Message::Loaded(Ok(saved())));
    for m in [
        Message::IrcStart,
        Message::IrcStart,
        Message::IrcProgressed(Progress::Advanced(":a!b PRIVMSG #c :d".to_string())),
        Message::IrcProgressed(Progress::Finished),
        Message::IrcFinished(Ok(())),
    ] {
        app.update(m);
        assert!(state(&app).client_attached);
    }
    assert!(matches!(app, App::Loaded(_)));
}
