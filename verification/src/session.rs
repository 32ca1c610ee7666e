//! The session controller: which state the session is in, what each event
//! does to it, and what the caller is to do next. The caller draws the
//! screens, waits for keys and ticks, runs the generator and keeps the
//! store; it tells the session what happened, one event at a time.

use crate::adventure::{Adventure, AdventureView};
use crate::ai_client::GenerationFailure;
use crate::game_state::{
    menu_screen, menu_step, AdventureSettings, GameState, GameStateView, MenuScreen,
    MenuScreenView, StoreError, OPTION_COUNT,
};
use crate::ui::{
    action_for, loading_screen, main_screen, Action, Key, LoadingScreen,
    LoadingScreenView, MainScreen, MainScreenView, UiView, LOADING_TEXT_COUNT, UI,
};
use vstd::prelude::*;

verus! {

/// The states of a session.
#[derive(Clone, Copy, PartialEq, Eq, Debug, Structural)]
pub enum Mode {
    /// The current adventure, or the placeholder, is shown; a key is
    /// awaited.
    Idle,
    /// The settings menu is open.
    Customizing,
    /// An adventure is being generated; progress is shown meanwhile.
    Generating,
    /// The session is over.
    Terminated,
}

/// A failure that ended one action and left the session running.
#[derive(Clone, Copy, PartialEq, Eq, Debug, Structural)]
pub enum SessionError {
    Generation(GenerationFailure),
    Store(StoreError),
}

/// What can happen to a session.
#[derive(Debug, PartialEq, Eq)]
pub enum Event {
    /// A key was pressed.
    Key(Key),
    /// The short interval of the spinner has passed.
    SpinnerTick,
    /// The long interval of the phrases has passed.
    PhraseTick,
    /// The generator has finished.
    Generated(Result<Adventure, GenerationFailure>),
    /// The store has answered a request to save.
    Saved(Result<(), StoreError>),
    /// The store has answered a request to load.
    Loaded(Result<Adventure, StoreError>),
}

/// What the caller is to do after an event.
#[derive(Debug, PartialEq, Eq)]
pub enum Command {
    /// Nothing but to draw the screen and wait for the next event.
    Wait,
    /// Start the generator with these settings, and report `Generated`.
    Generate(AdventureSettings),
    /// Write this adventure to the store, and report `Saved`.
    Save(Adventure),
    /// Read the saved adventure from the store, and report `Loaded`.
    Load,
    /// Leave the terminal as it was found, and stop.
    Exit,
}

/// A command with its adventure as plain text.
pub enum CommandView {
    Wait,
    Generate(AdventureSettings),
    Save(AdventureView),
    Load,
    Exit,
}

impl View for Command {
    type V = CommandView;

    open spec fn view(&self) -> CommandView {
        match self {
            Command::Wait => CommandView::Wait,
            Command::Generate(settings) => CommandView::Generate(*settings),
            Command::Save(adventure) => CommandView::Save(adventure@),
            Command::Load => CommandView::Load,
            Command::Exit => CommandView::Exit,
        }
    }
}

/// What is to be drawn.
#[derive(Debug, PartialEq, Eq)]
pub enum Screen {
    Main(MainScreen),
    Menu(MenuScreen),
    Loading(LoadingScreen),
}

/// A screen as plain text.
pub enum ScreenView {
    Main(MainScreenView),
    Menu(MenuScreenView),
    Loading(LoadingScreenView),
}

impl View for Screen {
    type V = ScreenView;

    open spec fn view(&self) -> ScreenView {
        match self {
            Screen::Main(screen) => ScreenView::Main(screen@),
            Screen::Menu(screen) => ScreenView::Menu(screen@),
            Screen::Loading(screen) => ScreenView::Loading(screen@),
        }
    }
}

/// One session: the settings and the current adventure, the state the
/// session is in, and the presentation state of the menu and of the
/// progress display.
pub struct Session {
    game_state: GameState,
    ui: UI,
    mode: Mode,
    selected_option: usize,
    spinner_index: usize,
    last_error: Option<SessionError>,
}

/// A session as plain values.
pub struct SessionView {
    pub state: GameStateView,
    pub ui: UiView,
    pub mode: Mode,
    pub selected_option: usize,
    pub spinner_index: nat,
    pub last_error: Option<SessionError>,
}

/// How long a key is waited for before the screen is drawn again, in
/// milliseconds.
pub const POLL_INTERVAL_MS: u64 = 50;

/// The interval of the spinner, in milliseconds.
pub const SPINNER_INTERVAL_MS: u64 = 100;

/// The interval of the phrases, in milliseconds.
pub const PHRASE_INTERVAL_MS: u64 = 5000;

/// How many glyphs the spinner goes through.
pub const SPINNER_GLYPH_COUNT: usize = 4;

/// The glyphs the spinner goes through.
pub open spec fn spinner_glyphs() -> Seq<char> {
    seq!['|', '/', '-', '\\']
}

impl SessionView {
    /// What holds of a session at all times: the menu's selection is one of
    /// its rows, the spinner stands at one of its glyphs, and the phrase
    /// shown is one of the phrases.
    pub open spec fn well_formed(self) -> bool {
        &&& self.selected_option < OPTION_COUNT
        &&& self.spinner_index < SPINNER_GLYPH_COUNT
        &&& self.ui.phrase < LOADING_TEXT_COUNT
    }

    /// The session as it starts: idle, with the initial settings and no
    /// adventure.
    pub open spec fn initial() -> SessionView {
        SessionView {
            state: GameStateView {
                settings: AdventureSettings::initial(),
                current_adventure: None,
            },
            ui: UiView { phrase: 0, spinner: '|' },
            mode: Mode::Idle,
            selected_option: 0,
            spinner_index: 0,
            last_error: None,
        }
    }

    /// The session with the presentation state of a generation that is
    /// about to start.
    pub open spec fn generating(self) -> SessionView {
        SessionView {
            mode: Mode::Generating,
            ui: UiView { phrase: 0, spinner: '|' },
            spinner_index: 0,
            last_error: None,
            ..self
        }
    }

    /// The session with `adventure` as the current one.
    pub open spec fn holding(self, adventure: AdventureView) -> SessionView {
        SessionView {
            state: GameStateView { current_adventure: Some(adventure), ..self.state },
            ..self
        }
    }

    /// What a key does while the session is idle. A key that asks for
    /// nothing changes nothing. One that asks for something clears the
    /// last failure.
    pub open spec fn after_idle_key(self, key: Key) -> SessionView {
        match action_for(key) {
            Some(Action::Generate) => self.generating(),
            Some(Action::Customize) => SessionView {
                mode: Mode::Customizing,
                selected_option: 0,
                last_error: None,
                ..self
            },
            Some(Action::Save) => SessionView { last_error: None, ..self },
            Some(Action::Load) => SessionView { last_error: None, ..self },
            Some(Action::Quit) => SessionView { mode: Mode::Terminated, last_error: None, ..self },
            None => self,
        }
    }

    /// What a key does while the settings menu is open.
    pub open spec fn after_menu_key(self, key: Key) -> SessionView {
        let (settings, selected) = menu_step(self.state.settings, self.selected_option, key);
        let state = GameStateView { settings, ..self.state };
        match selected {
            Some(row) => SessionView { state, selected_option: row, ..self },
            None => SessionView { state, mode: Mode::Idle, ..self },
        }
    }
}

/// The session after an event.
///
/// Idle: a key does what it asks for; a failure that the store reports is
/// kept as the last failure; an adventure that the store hands over becomes
/// the current one. Customizing: keys work the settings menu. Generating:
/// a tick moves the spinner or the phrase on, and only the generator's
/// outcome leads back to idle, with the new adventure as the current one,
/// or with the failure kept and the current adventure as it was.
/// Terminated: nothing changes any more. An event that a state has no use
/// for changes nothing.
pub open spec fn next_state(s: SessionView, event: Event) -> SessionView {
    match s.mode {
        Mode::Idle => match event {
            Event::Key(key) => s.after_idle_key(key),
            Event::Saved(Err(error)) => SessionView {
                last_error: Some(SessionError::Store(error)),
                ..s
            },
            Event::Loaded(Ok(adventure)) => s.holding(adventure@),
            Event::Loaded(Err(error)) => SessionView {
                last_error: Some(SessionError::Store(error)),
                ..s
            },
            _ => s,
        },
        Mode::Customizing => match event {
            Event::Key(key) => s.after_menu_key(key),
            _ => s,
        },
        Mode::Generating => match event {
            Event::SpinnerTick => SessionView {
                ui: UiView { spinner: spinner_glyphs()[s.spinner_index as int], ..s.ui },
                spinner_index: (s.spinner_index + 1) % (SPINNER_GLYPH_COUNT as nat),
                ..s
            },
            Event::PhraseTick => SessionView {
                ui: UiView { phrase: (s.ui.phrase + 1) % (LOADING_TEXT_COUNT as nat), ..s.ui },
                ..s
            },
            Event::Generated(Ok(adventure)) => SessionView {
                mode: Mode::Idle,
                ..s.holding(adventure@)
            },
            Event::Generated(Err(failure)) => SessionView {
                mode: Mode::Idle,
                last_error: Some(SessionError::Generation(failure)),
                ..s
            },
            _ => s,
        },
        Mode::Terminated => s,
    }
}

/// What the caller is to do after an event. Only a key pressed while the
/// session is idle asks for anything; a session that is over answers every
/// event with `Exit`.
pub open spec fn command_for(s: SessionView, event: Event) -> CommandView {
    match s.mode {
        Mode::Idle => match event {
            Event::Key(key) => match action_for(key) {
                Some(Action::Generate) => CommandView::Generate(s.state.settings),
                Some(Action::Save) => match s.state.current_adventure {
                    Some(adventure) => CommandView::Save(adventure),
                    None => CommandView::Wait,
                },
                Some(Action::Load) => CommandView::Load,
                Some(Action::Quit) => CommandView::Exit,
                _ => CommandView::Wait,
            },
            _ => CommandView::Wait,
        },
        Mode::Terminated => CommandView::Exit,
        _ => CommandView::Wait,
    }
}

/// What is to be drawn for a session.
pub open spec fn screen_for(s: SessionView) -> ScreenView {
    match s.mode {
        Mode::Customizing => ScreenView::Menu(menu_screen(s.state.settings, s.selected_option)),
        Mode::Generating => ScreenView::Loading(loading_screen(s.ui)),
        _ => ScreenView::Main(main_screen(s.state)),
    }
}

fn glyph_at(index: usize) -> (glyph: char)
    requires
        index < SPINNER_GLYPH_COUNT,
    ensures
        glyph == spinner_glyphs()[index as int],
{
    if index == 0 {
        '|'
    } else if index == 1 {
        '/'
    } else if index == 2 {
        '-'
    } else {
        '\\'
    }
}

impl View for Session {
    type V = SessionView;

    closed spec fn view(&self) -> SessionView {
        SessionView {
            state: self.game_state@,
            ui: self.ui@,
            mode: self.mode,
            selected_option: self.selected_option,
            spinner_index: self.spinner_index as nat,
            last_error: self.last_error,
        }
    }
}

impl Session {
    #[verifier::type_invariant]
    spec fn inv(self) -> bool {
        self@.well_formed()
    }

    /// A session at its start.
    pub fn new() -> (session: Self)
        ensures
            session@ == SessionView::initial(),
            session@.well_formed(),
    {
        Session {
            game_state: GameState::new(),
            ui: UI::new(),
            mode: Mode::Idle,
            selected_option: 0,
            spinner_index: 0,
            last_error: None,
        }
    }

    /// The state the session is in.
    pub fn mode(&self) -> (mode: Mode)
        ensures
            mode == self@.mode,
    {
        self.mode
    }

    /// The settings and the current adventure.
    pub fn game_state(&self) -> (state: &GameState)
        ensures
            state@ == self@.state,
    {
        &self.game_state
    }

    /// The presentation state of the progress display.
    pub fn ui(&self) -> (ui: &UI)
        ensures
            ui@ == self@.ui,
    {
        &self.ui
    }

    /// The row of the settings menu that is selected.
    pub fn selected_option(&self) -> (row: usize)
        ensures
            row == self@.selected_option,
            row < OPTION_COUNT,
    {
        proof {
            use_type_invariant(self);
        }
        self.selected_option
    }

    /// The failure of the last action, if it failed. It stays until a key
    /// asks for the next action.
    pub fn last_error(&self) -> (error: Option<SessionError>)
        ensures
            error == self@.last_error,
    {
        self.last_error
    }

    /// The screen that shows the session as it stands. It is to be drawn
    /// before the next event is waited for.
    pub fn screen(&self) -> (screen: Screen)
        ensures
            screen@ == screen_for(self@),
    {
        match self.mode {
            Mode::Customizing => Screen::Menu(
                self.game_state.draw_customize_menu(self.selected_option),
            ),
            Mode::Generating => Screen::Loading(self.ui.display_loading()),
            _ => Screen::Main(self.ui.display(&self.game_state)),
        }
    }

    /// Takes one event: moves the session on, and says what the caller is
    /// to do next.
    pub fn step(&mut self, event: Event) -> (command: Command)
        ensures
            final(self)@ == next_state(old(self)@, event),
            command@ == command_for(old(self)@, event),
            final(self)@.well_formed(),
    {
        proof {
            use_type_invariant(&*self);
        }
        match self.mode {
            Mode::Idle => self.step_idle(event),
            Mode::Customizing => {
                self.step_customizing(event);
                Command::Wait
            },
            Mode::Generating => {
                self.step_generating(event);
                Command::Wait
            },
            Mode::Terminated => Command::Exit,
        }
    }

    fn step_idle(&mut self, event: Event) -> (command: Command)
        requires
            old(self)@.mode == Mode::Idle,
        ensures
            final(self)@ == next_state(old(self)@, event),
            command@ == command_for(old(self)@, event),
            final(self)@.well_formed(),
    {
        proof {
            use_type_invariant(&*self);
        }
        match event {
            Event::Key(key) => match self.ui.handle_input(key) {
                Some(Action::Generate) => {
                    self.ui = UI::new();
                    self.spinner_index = 0;
                    self.last_error = None;
                    self.mode = Mode::Generating;
                    Command::Generate(self.game_state.settings)
                },
                Some(Action::Customize) => {
                    self.selected_option = 0;
                    self.last_error = None;
                    self.mode = Mode::Customizing;
                    Command::Wait
                },
                Some(Action::Save) => {
                    self.last_error = None;
                    match self.game_state.save_adventure() {
                        Some(adventure) => Command::Save(adventure),
                        None => Command::Wait,
                    }
                },
                Some(Action::Load) => {
                    self.last_error = None;
                    Command::Load
                },
                Some(Action::Quit) => {
                    self.last_error = None;
                    self.mode = Mode::Terminated;
                    Command::Exit
                },
                None => Command::Wait,
            },
            Event::Saved(Err(error)) => {
                self.last_error = Some(SessionError::Store(error));
                Command::Wait
            },
            Event::Loaded(stored) => {
                match self.game_state.load_adventure(stored) {
                    Ok(()) => {},
                    Err(error) => {
                        self.last_error = Some(SessionError::Store(error));
                    },
                }
                Command::Wait
            },
            _ => Command::Wait,
        }
    }

    fn step_customizing(&mut self, event: Event)
        requires
            old(self)@.mode == Mode::Customizing,
        ensures
            final(self)@ == next_state(old(self)@, event),
            final(self)@.well_formed(),
    {
        proof {
            use_type_invariant(&*self);
        }
        match event {
            Event::Key(key) => {
                match self.game_state.customize_settings(self.selected_option, key) {
                    Some(row) => {
                        self.selected_option = row;
                    },
                    None => {
                        self.mode = Mode::Idle;
                    },
                }
            },
            _ => {},
        }
    }

    fn step_generating(&mut self, event: Event)
        requires
            old(self)@.mode == Mode::Generating,
        ensures
            final(self)@ == next_state(old(self)@, event),
            final(self)@.well_formed(),
    {
        proof {
            use_type_invariant(&*self);
        }
        match event {
            Event::SpinnerTick => {
                self.ui.set_spinner(glyph_at(self.spinner_index));
                self.spinner_index = (self.spinner_index + 1) % SPINNER_GLYPH_COUNT;
            },
            Event::PhraseTick => {
                self.ui.next_loading_text();
            },
            Event::Generated(Ok(adventure)) => {
                self.game_state.set_current_adventure(adventure);
                self.mode = Mode::Idle;
            },
            Event::Generated(Err(failure)) => {
                self.last_error = Some(SessionError::Generation(failure));
                self.mode = Mode::Idle;
            },
            _ => {},
        }
    }
}

/// Every event leaves a well-formed session well formed.
pub proof fn lemma_step_keeps_well_formed(s: SessionView, event: Event)
    requires
        s.well_formed(),
    ensures
        next_state(s, event).well_formed(),
{
}

/// While an adventure is being generated, nothing but the generator's
/// outcome ends the wait: a key, Quit too, a tick or an answer of the store
/// leaves the session generating, asks for nothing, and leaves the settings
/// and the current adventure alone. The outcome, whichever it is, leads
/// back to idle.
pub proof fn lemma_generation_runs_to_completion(s: SessionView, event: Event)
    requires
        s.mode == Mode::Generating,
    ensures
        command_for(s, event) == CommandView::Wait,
        event is Generated ==> next_state(s, event).mode == Mode::Idle,
        !(event is Generated) ==> next_state(s, event).mode == Mode::Generating && next_state(
            s,
            event,
        ).state == s.state,
{
}

/// A generation that succeeds puts the new adventure in the place of the
/// current one; one that fails leaves the current adventure as it was and
/// is kept as the last failure. Neither touches the settings.
pub proof fn lemma_generation_outcome(s: SessionView, outcome: Result<Adventure, GenerationFailure>)
    requires
        s.mode == Mode::Generating,
    ensures
        next_state(s, Event::Generated(outcome)).state.settings == s.state.settings,
        outcome matches Ok(adventure) ==> next_state(
            s,
            Event::Generated(outcome),
        ).state.current_adventure == Some(adventure@),
        outcome matches Err(failure) ==> next_state(s, Event::Generated(outcome)).state == s.state
            && next_state(s, Event::Generated(outcome)).last_error == Some(
            SessionError::Generation(failure),
        ),
{
}

/// A failure of the store leaves the settings and the current adventure as
/// they were, in every state: a load with nothing saved leaves a session
/// without an adventure without one.
pub proof fn lemma_store_failure_keeps_state(s: SessionView, event: Event)
    requires
        event matches Event::Loaded(Err(_)) || event matches Event::Saved(Err(_)),
    ensures
        next_state(s, event).state == s.state,
        next_state(s, event).mode == s.mode,
        s.mode == Mode::Idle ==> next_state(s, event).last_error is Some,
{
}

/// What the session hands out to be saved, handed back by the store
/// unchanged, is the current adventure again.
pub proof fn lemma_saved_adventure_loads_back(s: SessionView, later: SessionView, stored: Adventure)
    requires
        s.mode == Mode::Idle,
        later.mode == Mode::Idle,
        command_for(s, Event::Key(Key::Char('s'))) == CommandView::Save(stored@),
    ensures
        next_state(later, Event::Loaded(Ok(stored))).state.current_adventure
            == s.state.current_adventure,
        next_state(later, Event::Loaded(Ok(stored))).state.settings == later.state.settings,
{
}

/// A session that is over stays over, and answers every event with `Exit`.
pub proof fn lemma_terminated_is_final(s: SessionView, event: Event)
    requires
        s.mode == Mode::Terminated,
    ensures
        next_state(s, event) == s,
        command_for(s, event) == CommandView::Exit,
{
}

/// The settings change only while the settings menu is open, and the
/// current adventure changes only when a generation succeeds or the store
/// hands one over.
pub proof fn lemma_state_changes_only_by_its_transitions(s: SessionView, event: Event)
    ensures
        s.mode != Mode::Customizing ==> next_state(s, event).state.settings == s.state.settings,
        !(s.mode == Mode::Generating && event matches Event::Generated(Ok(_))) && !(s.mode
            == Mode::Idle && event matches Event::Loaded(Ok(_))) ==> next_state(
            s,
            event,
        ).state.current_adventure == s.state.current_adventure,
{
}

} // verus!
