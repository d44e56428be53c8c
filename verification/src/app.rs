use vstd::prelude::*;
use crate::message::Message;
use crate::model::subscribe_irc::{Progress, SubscribeIrcState};
use crate::style;
use crate::util::{entry_channel, entry_text, filter_text, filtered_log, log_of};

verus! {

/// The part of the application state that is saved and read back at start.
#[derive(Debug, PartialEq, Eq)]
pub struct SavedState {
    pub input_value: String,
    pub display_value: String,
}

impl Clone for SavedState {
    fn clone(&self) -> (r: Self)
        ensures
            r == *self,
    {
        SavedState { input_value: self.input_value.clone(), display_value: self.display_value.clone() }
    }
}

/// Why the saved state could not be read.
#[derive(Debug, Clone, Copy, PartialEq, Eq)]
pub enum LoadError {
    FileError,
    FormatError,
}

/// Why the state could not be saved.
#[derive(Debug, Clone, Copy, PartialEq, Eq)]
pub enum SaveError {
    DirectoryError,
    FileError,
    WriteError,
    FormatError,
}

/// Why IRC stopped.
#[derive(Debug, Clone, Copy, PartialEq, Eq)]
pub enum IrcError {
    IrcError,
}

/// The state of the application screen. `client_attached` tells whether a connection to the
/// IRC server (its sender and its message stream) belongs to this state.
#[derive(Debug, Clone)]
pub struct State {
    pub input_value: String,
    pub connecting_flag: bool,
    pub display_value: String,
    pub saving: bool,
    pub dirty: bool,
    pub current_channel: String,
    pub client_attached: bool,
}

/// A `State` with its texts taken as characters.
pub struct StateView {
    pub input_value: Seq<char>,
    pub connecting_flag: bool,
    pub display_value: Seq<char>,
    pub saving: bool,
    pub dirty: bool,
    pub current_channel: Seq<char>,
    pub client_attached: bool,
}

impl View for State {
    type V = StateView;

    open spec fn view(&self) -> StateView {
        StateView {
            input_value: self.input_value@,
            connecting_flag: self.connecting_flag,
            display_value: self.display_value@,
            saving: self.saving,
            dirty: self.dirty,
            current_channel: self.current_channel@,
            client_attached: self.client_attached,
        }
    }
}

impl StateView {
    /// The state the application starts from: empty texts, not connecting, no connection,
    /// marked as dirty and as saving.
    pub open spec fn initial() -> StateView {
        StateView {
            input_value: Seq::empty(),
            connecting_flag: false,
            display_value: Seq::empty(),
            saving: true,
            dirty: true,
            current_channel: Seq::empty(),
            client_attached: false,
        }
    }
}

impl Default for State {
    fn default() -> (r: Self)
        ensures
            r@ == StateView::initial(),
    {
        State {
            input_value: String::new(),
            connecting_flag: false,
            display_value: String::new(),
            saving: true,
            dirty: true,
            current_channel: String::new(),
            client_attached: false,
        }
    }
}

impl State {
    /// The initial state, showing the text `s`.
    pub fn new_display_val(s: String) -> (r: Self)
        ensures
            r@ == (StateView { display_value: s@, ..StateView::initial() }),
    {
        State { display_value: s, ..State::default() }
    }

    /// The label, the message and the look of the button that starts or stops IRC: while
    /// connecting it is a "Stop IRC" button that finishes IRC, otherwise a "Start IRC" button
    /// that starts it.
    pub fn irc_button_control(&self) -> (r: (&'static str, Message, style::Button))
        ensures
            self.connecting_flag ==> r.0@ == "Stop IRC"@ && r.1 == Message::IrcFinished(Ok(()))
                && r.2 == style::Button::Stop,
            !self.connecting_flag ==> r.0@ == "Start IRC"@ && r.1 == Message::IrcStart && r.2
                == style::Button::Start,
    {
        if self.connecting_flag {
            ("Stop IRC", Message::IrcFinished(Ok(())), style::Button::Stop)
        } else {
            ("Start IRC", Message::IrcStart, style::Button::Start)
        }
    }
}

/// The application: loading its saved state, showing its screen, connected to IRC, or just
/// finished with IRC.
pub enum App {
    Loading,
    Loaded(State),
    IrcConnecting(State),
    IrcFinished(State),
}

/// An `App` with its state taken by its view.
pub enum AppView {
    Loading,
    Loaded(StateView),
    IrcConnecting(StateView),
    IrcFinished(StateView),
}

impl View for App {
    type V = AppView;

    open spec fn view(&self) -> AppView {
        match self {
            App::Loading => AppView::Loading,
            App::Loaded(s) => AppView::Loaded(s@),
            App::IrcConnecting(s) => AppView::IrcConnecting(s@),
            App::IrcFinished(s) => AppView::IrcFinished(s@),
        }
    }
}

/// What the application asks its runtime to do after an update.
#[derive(Debug, Clone, PartialEq, Eq)]
pub enum Action {
    /// Nothing.
    Nothing,
    /// Read the saved state and deliver it as `Message::Loaded`.
    LoadSavedState,
    /// Connect to the IRC server configured for the user and keep the connection with the
    /// state.
    ConnectClient,
    /// Send `text` to `target` over the connection, then deliver `Message::Sent`.
    SendPrivmsg { target: String, text: String },
    /// Deliver `Message::IrcFinished(Ok(()))`.
    FinishIrc,
}

/// An `Action` with its texts taken as characters.
pub enum ActionView {
    Nothing,
    LoadSavedState,
    ConnectClient,
    SendPrivmsg { target: Seq<char>, text: Seq<char> },
    FinishIrc,
}

impl View for Action {
    type V = ActionView;

    open spec fn view(&self) -> ActionView {
        match self {
            Action::Nothing => ActionView::Nothing,
            Action::LoadSavedState => ActionView::LoadSavedState,
            Action::ConnectClient => ActionView::ConnectClient,
            Action::SendPrivmsg { target, text } => ActionView::SendPrivmsg {
                target: target@,
                text: text@,
            },
            Action::FinishIrc => ActionView::FinishIrc,
        }
    }
}

impl AppView {
    /// The screen state, when the application has one (all but while loading).
    pub open spec fn state(self) -> Option<StateView> {
        match self {
            AppView::Loading => None,
            AppView::Loaded(s) => Some(s),
            AppView::IrcConnecting(s) => Some(s),
            AppView::IrcFinished(s) => Some(s),
        }
    }

    /// Loading: a loaded saved state starts the screen with the default state and asks for a
    /// connection to the IRC server, which then belongs to that state; a failed load starts it
    /// with the default state and no connection; other messages are ignored.
    pub open spec fn loading_step(m: Message) -> (AppView, ActionView) {
        match m {
            Message::Loaded(Ok(_)) => (
                AppView::Loaded(StateView { client_attached: true, ..StateView::initial() }),
                ActionView::ConnectClient,
            ),
            Message::Loaded(Err(_)) => (AppView::Loaded(StateView::initial()), ActionView::Nothing),
            _ => (AppView::Loading, ActionView::Nothing),
        }
    }

    /// The screen: a `Saved` message clears `saving`, an edit of the input is kept, and any
    /// message but `Saved` marks the state dirty. A dirty state that is not being saved is
    /// marked clean and saving, and stays on the screen; otherwise `IrcStart` starts IRC.
    pub open spec fn loaded_step(st: StateView, m: Message) -> AppView {
        let st1 = match m {
            Message::Saved(_) => StateView { saving: false, ..st },
            Message::InputChanged(v) => StateView { input_value: v@, ..st },
            _ => st,
        };
        let st2 = if m is Saved {
            st1
        } else {
            StateView { dirty: true, ..st1 }
        };
        if st2.dirty && !st2.saving {
            AppView::Loaded(StateView { dirty: false, saving: true, ..st2 })
        } else if m is IrcStart {
            AppView::IrcConnecting(st2)
        } else {
            AppView::Loaded(st2)
        }
    }

    /// Connected to IRC (the state is marked as connecting): a line from the server appends
    /// its filtered text to the display; the end or a failure of the stream, or a request to
    /// finish, finishes IRC (a request to finish also clears the connecting mark); an edit of
    /// the input is kept; a post clears the input and, when the input was not empty, sends it
    /// to `#test`.
    pub open spec fn connecting_step(st: StateView, m: Message) -> (AppView, ActionView) {
        let st0 = StateView { connecting_flag: true, ..st };
        match m {
            Message::IrcProgressed(Progress::Advanced(t)) => (
                AppView::IrcConnecting(
                    StateView { display_value: st0.display_value + entry_text(t@), ..st0 },
                ),
                ActionView::Nothing,
            ),
            Message::IrcProgressed(Progress::Finished) => (
                AppView::IrcFinished(st0),
                ActionView::FinishIrc,
            ),
            Message::IrcProgressed(Progress::Errored) => (
                AppView::IrcFinished(st0),
                ActionView::FinishIrc,
            ),
            Message::IrcFinished(_) => (
                AppView::IrcFinished(StateView { connecting_flag: false, ..st0 }),
                ActionView::FinishIrc,
            ),
            Message::InputChanged(v) => (
                AppView::IrcConnecting(StateView { input_value: v@, ..st0 }),
                ActionView::Nothing,
            ),
            Message::PostMessage => (
                AppView::IrcConnecting(StateView { input_value: Seq::empty(), ..st0 }),
                if st0.input_value.len() > 0 {
                    ActionView::SendPrivmsg { target: "#test"@, text: st0.input_value }
                } else {
                    ActionView::Nothing
                },
            ),
            _ => (AppView::IrcConnecting(st0), ActionView::Nothing),
        }
    }

    /// The application and the action after the message `m`. Just after IRC finished, any
    /// message brings the screen back with the state as it was.
    pub open spec fn step(self, m: Message) -> (AppView, ActionView) {
        match self {
            AppView::Loading => AppView::loading_step(m),
            AppView::Loaded(st) => (AppView::loaded_step(st, m), ActionView::Nothing),
            AppView::IrcConnecting(st) => AppView::connecting_step(st, m),
            AppView::IrcFinished(st) => (AppView::Loaded(st), ActionView::Nothing),
        }
    }
}

/// Whether a screen state never waits dirty without being saved.
pub open spec fn saving_settled(app: AppView) -> bool {
    match app.state() {
        Some(st) => st.saving || !st.dirty,
        None => true,
    }
}

/// Once the screen is up it stays up, and the display text only grows: whatever the message,
/// the text shown before is a prefix of the text shown after.
pub proof fn law_display_only_grows(app: AppView, m: Message)
    requires
        app.state() is Some,
    ensures
        app.step(m).0.state() is Some,
        app.state()->0.display_value.len() <= app.step(m).0.state()->0.display_value.len(),
        app.step(m).0.state()->0.display_value.subrange(
            0,
            app.state()->0.display_value.len() as int,
        ) == app.state()->0.display_value,
{
    let before = app.state()->0.display_value;
    let after = app.step(m).0.state()->0.display_value;
    if let AppView::IrcConnecting(st) = app {
        if let Message::IrcProgressed(Progress::Advanced(t)) = m {
            assert((before + entry_text(t@)).subrange(0, before.len() as int) =~= before);
        }
    }
    assert(after.subrange(0, before.len() as int) =~= before);
}

/// Only what the user typed is ever sent: a message goes to the server only on a post while
/// connected, to `#test`, with the whole non-empty input, and the input is then cleared.
pub proof fn law_only_typed_text_is_sent(app: AppView, m: Message)
    ensures
        app.step(m).1 is SendPrivmsg ==> {
            &&& app is IrcConnecting
            &&& m is PostMessage
            &&& app.step(m).1->target == "#test"@
            &&& app.step(m).1->text == app.state()->0.input_value
            &&& app.step(m).1->text.len() > 0
            &&& app.step(m).0 is IrcConnecting
            &&& app.step(m).0.state()->0.input_value.len() == 0
        },
{
}

/// The connection to the server stays with the screen state: once the screen is up, no
/// message attaches or drops it.
pub proof fn law_connection_stays_with_state(app: AppView, m: Message)
    requires
        app.state() is Some,
    ensures
        app.step(m).0.state()->0.client_attached == app.state()->0.client_attached,
{
}

/// No update leaves the screen dirty while nothing is being saved, provided it was not so
/// before (the application starts saving).
pub proof fn law_dirty_state_is_always_saving(app: AppView, m: Message)
    requires
        saving_settled(app),
    ensures
        saving_settled(app.step(m).0),
{
}

/// While loading, the result of reading the saved state always ends the loading: a failure
/// of any kind gives the default screen and nothing to do; a success gives the default screen
/// with a connection, which is asked for. Any other message leaves the application loading.
pub proof fn law_load_result_ends_loading(r: Result<SavedState, LoadError>, m: Message)
    ensures
        r is Err ==> AppView::Loading.step(Message::Loaded(r)) == (
            AppView::Loaded(StateView::initial()),
            ActionView::Nothing,
        ),
        r is Ok ==> AppView::Loading.step(Message::Loaded(r)) == (
            AppView::Loaded(StateView { client_attached: true, ..StateView::initial() }),
            ActionView::ConnectClient,
        ),
        !(AppView::Loading.step(Message::Loaded(r)).0 is Loading),
        !(m is Loaded) ==> AppView::Loading.step(m) == (AppView::Loading, ActionView::Nothing),
{
}

/// While connected, every line from the server, whatever its channel, is shown: the display
/// grows by the line's filtered text and nothing else changes (but the connecting mark, which
/// is set); and the text shown is exactly what reading the line appends to the log of the
/// line's channel.
pub proof fn law_every_line_is_shown(st: StateView, t: String, m: Map<Seq<char>, Seq<char>>)
    ensures
        ({
            let (next, act) = AppView::IrcConnecting(st).step(
                Message::IrcProgressed(Progress::Advanced(t)),
            );
            let shown = next.state()->0.display_value;
            &&& act == ActionView::Nothing
            &&& next == AppView::IrcConnecting(
                StateView {
                    connecting_flag: true,
                    display_value: st.display_value + entry_text(t@),
                    ..st
                },
            )
            &&& entry_channel(t@) matches Some(k) ==> log_of(filtered_log(m, t@), k) == log_of(m, k)
                + shown.subrange(st.display_value.len() as int, shown.len() as int)
        }),
{
    let shown = st.display_value + entry_text(t@);
    assert(shown.subrange(st.display_value.len() as int, shown.len() as int) =~= entry_text(t@));
    if let Some(k) = entry_channel(t@) {
        crate::util::law_filter_appends_to_its_channel_only(m, t@, k);
    }
}

/// While connected, posting a non-empty input always sends that whole input to `#test`, and
/// posting clears the input; an empty input sends nothing.
pub proof fn law_post_sends_the_input(st: StateView)
    ensures
        st.input_value.len() > 0 ==> AppView::IrcConnecting(st).step(Message::PostMessage) == (
            AppView::IrcConnecting(
                StateView { connecting_flag: true, input_value: Seq::empty(), ..st },
            ),
            ActionView::SendPrivmsg { target: "#test"@, text: st.input_value },
        ),
        st.input_value.len() == 0 ==> AppView::IrcConnecting(st).step(Message::PostMessage) == (
            AppView::IrcConnecting(
                StateView { connecting_flag: true, input_value: Seq::empty(), ..st },
            ),
            ActionView::Nothing,
        ),
{
}

/// On the screen and while connected, an edit of the input box replaces the input with the
/// edited text, whatever the input held before, and the displayed text stays as it was.
pub proof fn law_input_edit_replaces_input(app: AppView, v: String)
    requires
        app is Loaded || app is IrcConnecting,
    ensures
        app.step(Message::InputChanged(v)).1 == ActionView::Nothing,
        app.step(Message::InputChanged(v)).0.state() is Some,
        app.step(Message::InputChanged(v)).0.state()->0.input_value == v@,
        app.step(Message::InputChanged(v)).0.state()->0.display_value
            == app.state()->0.display_value,
        app is IrcConnecting ==> app.step(Message::InputChanged(v)).0 is IrcConnecting,
{
}

/// On the screen, a request to start IRC connects when the state is being saved (and marks it
/// dirty); when it is not being saved, the request is dropped and the state is marked clean
/// and saving instead.
pub proof fn law_start_request(st: StateView)
    ensures
        st.saving ==> AppView::Loaded(st).step(Message::IrcStart) == (
            AppView::IrcConnecting(StateView { dirty: true, ..st }),
            ActionView::Nothing,
        ),
        !st.saving ==> AppView::Loaded(st).step(Message::IrcStart) == (
            AppView::Loaded(StateView { dirty: false, saving: true, ..st }),
            ActionView::Nothing,
        ),
{
}

/// On the screen, news that the state was saved clears `saving` when the state is clean; a
/// dirty state is instead marked clean and saving again. Nothing else changes.
pub proof fn law_saved_message(st: StateView, r: Result<(), SaveError>)
    ensures
        !st.dirty ==> AppView::Loaded(st).step(Message::Saved(r)) == (
            AppView::Loaded(StateView { saving: false, ..st }),
            ActionView::Nothing,
        ),
        st.dirty ==> AppView::Loaded(st).step(Message::Saved(r)) == (
            AppView::Loaded(StateView { saving: true, dirty: false, ..st }),
            ActionView::Nothing,
        ),
{
}

/// On the screen, a message with nothing to do there (not `Saved`, `IrcStart` nor an edit)
/// only marks the state dirty, or, when it is not being saved, clean and saving.
pub proof fn law_other_messages_on_screen(st: StateView, m: Message)
    requires
        !(m is Saved),
        !(m is IrcStart),
        !(m is InputChanged),
    ensures
        st.saving ==> AppView::Loaded(st).step(m) == (
            AppView::Loaded(StateView { dirty: true, ..st }),
            ActionView::Nothing,
        ),
        !st.saving ==> AppView::Loaded(st).step(m) == (
            AppView::Loaded(StateView { dirty: false, saving: true, ..st }),
            ActionView::Nothing,
        ),
{
}

/// While connected, the end of the server's stream or a failure finishes IRC keeping the
/// connecting mark; a request to finish finishes it and clears the mark; each asks for the
/// finishing to be reported. Messages with nothing to do there change nothing but the mark.
pub proof fn law_finishing_irc(st: StateView, m: Message, r: Result<(), IrcError>)
    ensures
        AppView::IrcConnecting(st).step(Message::IrcProgressed(Progress::Finished)) == (
            AppView::IrcFinished(StateView { connecting_flag: true, ..st }),
            ActionView::FinishIrc,
        ),
        AppView::IrcConnecting(st).step(Message::IrcProgressed(Progress::Errored)) == (
            AppView::IrcFinished(StateView { connecting_flag: true, ..st }),
            ActionView::FinishIrc,
        ),
        AppView::IrcConnecting(st).step(Message::IrcFinished(r)) == (
            AppView::IrcFinished(StateView { connecting_flag: false, ..st }),
            ActionView::FinishIrc,
        ),
        (m is Loaded || m is Saved || m is IrcStart || m is Sent || m == Message::IrcProgressed(
            Progress::Started,
        )) ==> AppView::IrcConnecting(st).step(m) == (
            AppView::IrcConnecting(StateView { connecting_flag: true, ..st }),
            ActionView::Nothing,
        ),
{
}

/// Just after IRC finished, any message brings the screen back with the state unchanged.
pub proof fn law_back_to_screen_after_finishing(st: StateView, m: Message)
    ensures
        AppView::IrcFinished(st).step(m) == (AppView::Loaded(st), ActionView::Nothing),
{
}

/// Every phase but loading carries its screen state, and loading carries none.
pub proof fn law_screen_state(st: StateView)
    ensures
        AppView::Loading.state() is None,
        AppView::Loaded(st).state() == Some(st),
        AppView::IrcConnecting(st).state() == Some(st),
        AppView::IrcFinished(st).state() == Some(st),
{
}

impl App {
    /// The application at start: loading, and asking for the saved state.
    pub fn new() -> (r: (App, Action))
        ensures
            r.0@ == AppView::Loading,
            r.1@ == ActionView::LoadSavedState,
    {
        (App::Loading, Action::LoadSavedState)
    }

    /// The title of the application window.
    pub fn title(&self) -> (r: String)
        ensures
            r@ == "Gelato"@,
    {
        String::from_str("Gelato")
    }

    /// The screen state, when there is one.
    pub fn state(&self) -> (r: Option<&State>)
        ensures
            match r {
                Some(s) => self@.state() == Some(s@),
                None => self@.state() is None,
            },
    {
        match self {
            App::Loading => None,
            App::Loaded(s) => Some(s),
            App::IrcConnecting(s) => Some(s),
            App::IrcFinished(s) => Some(s),
        }
    }

    /// The subscription that runs beside the application: while connected to IRC, the
    /// reading of the server's messages, from its start; otherwise none.
    pub fn subscription(&self) -> (r: Option<SubscribeIrcState>)
        ensures
            self is IrcConnecting ==> (r matches Some(SubscribeIrcState::Ready { some_input })
                && some_input@ == Seq::<char>::empty()),
            !(self is IrcConnecting) ==> r is None,
    {
        match self {
            App::IrcConnecting(_) => Some(SubscribeIrcState::Ready { some_input: String::new() }),
            _ => None,
        }
    }

    /// Handles one message: the application becomes what `AppView::step` says, and the
    /// action it says is returned for the runtime to perform.
    pub fn update(&mut self, message: Message) -> (r: Action)
        ensures
            (final(self)@, r@) == old(self)@.step(message),
    {
        let mut current = App::Loading;
        std::mem::swap(&mut current, self);
        let (next, action) = match current {
            App::Loading => Self::update_loading(message),
            App::Loaded(state) => (Self::update_loaded(state, message), Action::Nothing),
            App::IrcConnecting(state) => Self::update_connecting(state, message),
            App::IrcFinished(state) => (App::Loaded(state), Action::Nothing),
        };
        *self = next;
        action
    }

    fn update_loading(message: Message) -> (r: (App, Action))
        ensures
            (r.0@, r.1@) == AppView::loading_step(message),
    {
        match message {
            Message::Loaded(Ok(_)) => {
                let mut current_state = State::default();
                current_state.client_attached = true;
                (App::Loaded(current_state), Action::ConnectClient)
            },
            Message::Loaded(Err(_)) => (App::Loaded(State::default()), Action::Nothing),
            _ => (App::Loading, Action::Nothing),
        }
    }

    fn update_loaded(state: State, message: Message) -> (r: App)
        ensures
            r@ == AppView::loaded_step(state@, message),
    {
        let ghost m = message;
        let mut state = state;
        let mut saved = false;
        let mut ircflag = false;
        match message {
            Message::Saved(_) => {
                state.saving = false;
                saved = true;
            },
            Message::IrcStart => {
                ircflag = true;
            },
            Message::InputChanged(value) => {
                state.input_value = value;
            },
            _ => {},
        }
        if !saved {
            state.dirty = true;
        }
        if state.dirty && !state.saving {
            state.dirty = false;
            state.saving = true;
            App::Loaded(state)
        } else if ircflag {
            App::IrcConnecting(state)
        } else {
            App::Loaded(state)
        }
    }

    fn update_connecting(state: State, message: Message) -> (r: (App, Action))
        ensures
            (r.0@, r.1@) == AppView::connecting_step(state@, message),
    {
        let mut state = state;
        state.connecting_flag = true;
        let mut irc_finished = false;
        let mut posted = false;
        let mut input_word = String::new();
        match message {
            Message::IrcProgressed(progress_state) => match progress_state {
                Progress::Advanced(message_text) => {
                    let filtered_text = filter_text(message_text.as_str());
                    state.display_value.append(filtered_text.as_str());
                },
                Progress::Finished => {
                    irc_finished = true;
                },
                Progress::Errored => {
                    irc_finished = true;
                },
                _ => {},
            },
            Message::IrcFinished(_) => {
                irc_finished = true;
                state.connecting_flag = false;
            },
            Message::InputChanged(value) => {
                state.input_value = value;
            },
            Message::PostMessage => {
                posted = true;
                input_word.append(state.input_value.as_str());
                state.input_value = String::new();
            },
            _ => {},
        }
        if posted && !input_word.as_str().is_empty() {
            let target = String::from_str("#test");
            (App::IrcConnecting(state), Action::SendPrivmsg { target, text: input_word })
        } else if irc_finished {
            (App::IrcFinished(state), Action::FinishIrc)
        } else {
            (App::IrcConnecting(state), Action::Nothing)
        }
    }
}

} // verus!
