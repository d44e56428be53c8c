use vstd::prelude::*;
use crate::app::{App, AppView, IrcError, LoadError, SaveError, SavedState, State, StateView, Action, ActionView};
use crate::model::subscribe_irc;

verus! {

/// The events of the application.
#[derive(Debug, PartialEq, Eq)]
pub enum Message {
    /// The saved state was read (or could not be).
    Loaded(Result<SavedState, LoadError>),
    /// The state was saved (or could not be).
    Saved(Result<(), SaveError>),
    /// The text in the input box changed.
    InputChanged(String),
    /// The user asked to start IRC.
    IrcStart,
    /// The IRC subscription reported progress.
    IrcProgressed(subscribe_irc::Progress),
    /// IRC has finished.
    IrcFinished(Result<(), IrcError>),
    /// The user asked to post the input text.
    PostMessage,
    /// A message was sent to the server.
    Sent,
}

impl Clone for Message {
    fn clone(&self) -> (r: Self)
        ensures
            r == *self,
    {
        match self {
            Message::Loaded(Ok(saved)) => Message::Loaded(Ok(saved.clone())),
            Message::Loaded(Err(e)) => Message::Loaded(Err(*e)),
            Message::Saved(Ok(done)) => Message::Saved(Ok(*done)),
            Message::Saved(Err(e)) => Message::Saved(Err(*e)),
            Message::InputChanged(v) => Message::InputChanged(v.clone()),
            Message::IrcStart => Message::IrcStart,
            Message::IrcProgressed(p) => Message::IrcProgressed(p.clone()),
            Message::IrcFinished(Ok(done)) => Message::IrcFinished(Ok(*done)),
            Message::IrcFinished(Err(e)) => Message::IrcFinished(Err(*e)),
            Message::PostMessage => Message::PostMessage,
            Message::Sent => Message::Sent,
        }
    }
}

/// Where the loading screen goes on a message: a loaded saved state starts the application
/// with the saved display text, a failed load starts it with the default state, and any other
/// message leaves it as it is. Nothing more is to be done afterwards.
pub fn app_loading_command(app: &mut App, message: Message) -> (r: Action)
    ensures
        r@ == ActionView::Nothing,
        match message {
            Message::Loaded(Ok(saved)) => final(app)@ == AppView::Loaded(
                StateView { display_value: saved.display_value@, ..StateView::initial() },
            ),
            Message::Loaded(Err(_)) => final(app)@ == AppView::Loaded(StateView::initial()),
            _ => final(app)@ == old(app)@,
        },
{
    match message {
        Message::Loaded(Ok(saved_state)) => {
            *app = App::Loaded(State::new_display_val(saved_state.display_value));
        },
        Message::Loaded(Err(_)) => {
            *app = App::Loaded(State::default());
        },
        _ => {},
    }
    Action::Nothing
}

} // verus!
