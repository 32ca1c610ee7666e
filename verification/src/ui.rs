//! What the screens show and what the keys mean. Drawing a screen and
//! waiting for a key are left to the caller.

use crate::adventure::{render_text, AdventureView};
use crate::game_state::{GameState, GameStateView};
use vstd::prelude::*;

verus! {

/// What the user can ask for while the current adventure is shown.
#[derive(Clone, Copy, PartialEq, Eq, Debug, Structural)]
pub enum Action {
    Generate,
    Customize,
    Save,
    Load,
    Quit,
}

/// A key press, as far as the program tells keys apart.
#[derive(Clone, Copy, PartialEq, Eq, Debug, Structural)]
pub enum Key {
    Char(char),
    Up,
    Down,
    Enter,
    Esc,
    Other,
}

/// A run of text that is shown either plainly or standing out.
#[derive(Debug, PartialEq, Eq)]
pub struct Span {
    pub text: String,
    pub emphasized: bool,
}

/// A span as plain text.
pub struct SpanView {
    pub text: Seq<char>,
    pub emphasized: bool,
}

impl View for Span {
    type V = SpanView;

    open spec fn view(&self) -> SpanView {
        SpanView { text: self.text@, emphasized: self.emphasized }
    }
}

impl DeepView for Span {
    type V = SpanView;

    open spec fn deep_view(&self) -> SpanView {
        self@
    }
}

/// The screen that shows the current adventure: a title bar, a titled panel
/// with the adventure's text, and the line that explains the keys.
#[derive(Debug, PartialEq, Eq)]
pub struct MainScreen {
    pub title: String,
    pub panel_title: String,
    pub body: String,
    pub controls: Vec<Span>,
}

/// The main screen as plain text.
pub struct MainScreenView {
    pub title: Seq<char>,
    pub panel_title: Seq<char>,
    pub body: Seq<char>,
    pub controls: Seq<SpanView>,
}

impl View for MainScreen {
    type V = MainScreenView;

    open spec fn view(&self) -> MainScreenView {
        MainScreenView {
            title: self.title@,
            panel_title: self.panel_title@,
            body: self.body@,
            controls: self.controls.deep_view(),
        }
    }
}

/// The screen that is shown while an adventure is being generated: a title
/// bar, a status line that ends in the spinner's glyph, and a phrase in
/// quotation marks.
#[derive(Debug, PartialEq, Eq)]
pub struct LoadingScreen {
    pub title: String,
    pub status: String,
    pub phrase: String,
}

/// The loading screen as plain text.
pub struct LoadingScreenView {
    pub title: Seq<char>,
    pub status: Seq<char>,
    pub phrase: Seq<char>,
}

impl View for LoadingScreen {
    type V = LoadingScreenView;

    open spec fn view(&self) -> LoadingScreenView {
        LoadingScreenView { title: self.title@, status: self.status@, phrase: self.phrase@ }
    }
}

/// The presentation state of a generation in progress: which phrase is
/// shown and which glyph the spinner stands at.
pub struct UI {
    loading_texts: Vec<String>,
    current_loading_text: usize,
    current_spinner_char: char,
}

/// The presentation state as plain values: the place of the phrase that is
/// shown among the phrases, and the spinner's glyph.
pub struct UiView {
    pub phrase: nat,
    pub spinner: char,
}

/// The program's name, as every screen's title bar shows it.
pub open spec fn title_text() -> Seq<char> {
    "Random Adventure Generator"@
}

/// What the panel shows while there is no adventure.
pub open spec fn placeholder_text() -> Seq<char> {
    "No adventure generated yet. Press 'g' to generate a new adventure"@
}

/// The line that explains the keys, each key's letter standing out.
pub open spec fn control_spans() -> Seq<SpanView> {
    seq![
        SpanView { text: "Press "@, emphasized: false },
        SpanView { text: "g"@, emphasized: true },
        SpanView { text: " to generate, "@, emphasized: false },
        SpanView { text: "c"@, emphasized: true },
        SpanView { text: " to customize, "@, emphasized: false },
        SpanView { text: "s"@, emphasized: true },
        SpanView { text: " to save, "@, emphasized: false },
        SpanView { text: "l"@, emphasized: true },
        SpanView { text: " to load, "@, emphasized: false },
        SpanView { text: "q"@, emphasized: true },
        SpanView { text: " to quit"@, emphasized: false },
    ]
}

/// The main screen for a state: the panel holds the current adventure's
/// text, or the placeholder while there is none.
pub open spec fn main_screen(state: GameStateView) -> MainScreenView {
    MainScreenView {
        title: title_text(),
        panel_title: "Current Adventure"@,
        body: match state.current_adventure {
            Some(adventure) => render_text(adventure),
            None => placeholder_text(),
        },
        controls: control_spans(),
    }
}

/// How many phrases take turns on the loading screen.
pub const LOADING_TEXT_COUNT: usize = 12;

/// The phrases that take turns on the loading screen.
pub open spec fn loading_phrases() -> Seq<Seq<char>> {
    seq![
        "nangis karena disakitin ayang"@,
        "sedih gak diajak telponan sama ayang"@,
        "galau kangen ayang"@,
        "ayang kemana sih, kok gak nyuruh aku makan"@,
        "ngambek belum disapa ayang"@,
        "malu dibikinin story ayang"@,
        "betmut belum dichat ayang"@,
        "love u ayang"@,
        "sedih ayangnya fiksi"@,
        "pusing gapunya ayang"@,
        "udah dapat banyak pap ayang"@,
        "sedang mencari ayang"@,
    ]
}

/// The loading screen for a presentation state.
pub open spec fn loading_screen(ui: UiView) -> LoadingScreenView {
    LoadingScreenView {
        title: title_text(),
        status: "Generating adventure... "@.push(ui.spinner),
        phrase: "\""@ + loading_phrases()[ui.phrase as int] + "\""@,
    }
}

/// What a key asks for while the current adventure is shown.
pub open spec fn action_for(key: Key) -> Option<Action> {
    match key {
        Key::Char(c) => if c == 'g' {
            Some(Action::Generate)
        } else if c == 'c' {
            Some(Action::Customize)
        } else if c == 's' {
            Some(Action::Save)
        } else if c == 'l' {
            Some(Action::Load)
        } else if c == 'q' {
            Some(Action::Quit)
        } else {
            None
        },
        _ => None,
    }
}

fn span(text: &str, emphasized: bool) -> (span: Span)
    ensures
        span@ == (SpanView { text: text@, emphasized }),
{
    Span { text: String::from_str(text), emphasized }
}

impl View for UI {
    type V = UiView;

    closed spec fn view(&self) -> UiView {
        UiView { phrase: self.current_loading_text as nat, spinner: self.current_spinner_char }
    }
}

impl UI {
    #[verifier::type_invariant]
    spec fn well_formed(self) -> bool {
        &&& self.loading_texts.deep_view() == loading_phrases()
        &&& self.loading_texts@.len() == LOADING_TEXT_COUNT
        &&& self.current_loading_text < LOADING_TEXT_COUNT
    }

    /// The presentation state at the start: the first phrase, and the
    /// spinner upright.
    pub fn new() -> (ui: Self)
        ensures
            ui@ == (UiView { phrase: 0, spinner: '|' }),
    {
        let loading_texts = vec![
            String::from_str("nangis karena disakitin ayang"),
            String::from_str("sedih gak diajak telponan sama ayang"),
            String::from_str("galau kangen ayang"),
            String::from_str("ayang kemana sih, kok gak nyuruh aku makan"),
            String::from_str("ngambek belum disapa ayang"),
            String::from_str("malu dibikinin story ayang"),
            String::from_str("betmut belum dichat ayang"),
            String::from_str("love u ayang"),
            String::from_str("sedih ayangnya fiksi"),
            String::from_str("pusing gapunya ayang"),
            String::from_str("udah dapat banyak pap ayang"),
            String::from_str("sedang mencari ayang"),
        ];
        proof {
            assert(loading_texts.deep_view() =~= loading_phrases());
        }
        UI { loading_texts, current_loading_text: 0, current_spinner_char: '|' }
    }

    /// Which phrase is shown, by its place among the phrases.
    pub fn current_loading_text(&self) -> (index: usize)
        ensures
            index == self@.phrase,
            index < LOADING_TEXT_COUNT,
    {
        proof {
            use_type_invariant(self);
        }
        self.current_loading_text
    }

    /// The glyph the spinner stands at.
    pub fn current_spinner_char(&self) -> (glyph: char)
        ensures
            glyph == self@.spinner,
    {
        self.current_spinner_char
    }

    /// The main screen for `game_state`.
    pub fn display(&self, game_state: &GameState) -> (screen: MainScreen)
        ensures
            screen@ == main_screen(game_state@),
    {
        let body = match &game_state.current_adventure {
            Some(adventure) => adventure.render(),
            None => String::from_str(
                "No adventure generated yet. Press 'g' to generate a new adventure",
            ),
        };
        let controls = vec![
            span("Press ", false),
            span("g", true),
            span(" to generate, ", false),
            span("c", true),
            span(" to customize, ", false),
            span("s", true),
            span(" to save, ", false),
            span("l", true),
            span(" to load, ", false),
            span("q", true),
            span(" to quit", false),
        ];
        proof {
            assert(controls.deep_view() =~= control_spans());
        }
        MainScreen {
            title: String::from_str("Random Adventure Generator"),
            panel_title: String::from_str("Current Adventure"),
            body,
            controls,
        }
    }

    /// Sets the spinner to `spinner_char`.
    pub fn set_spinner(&mut self, spinner_char: char)
        ensures
            final(self)@ == (UiView { phrase: old(self)@.phrase, spinner: spinner_char }),
        no_unwind
    {
        proof {
            use_type_invariant(&*self);
        }
        self.current_spinner_char = spinner_char;
    }

    /// Moves on to the next phrase, the first one following the last.
    pub fn next_loading_text(&mut self)
        ensures
            final(self)@ == (UiView {
                phrase: (old(self)@.phrase + 1) % (LOADING_TEXT_COUNT as nat),
                spinner: old(self)@.spinner,
            }),
        no_unwind
    {
        proof {
            use_type_invariant(&*self);
        }
        self.current_loading_text = (self.current_loading_text + 1) % self.loading_texts.len();
    }

    /// Sets the spinner to `spinner_char` and gives the loading screen
    /// with it.
    pub fn update_spinner(&mut self, spinner_char: char) -> (screen: LoadingScreen)
        ensures
            final(self)@ == (UiView { phrase: old(self)@.phrase, spinner: spinner_char }),
            screen@ == loading_screen(final(self)@),
    {
        self.set_spinner(spinner_char);
        self.display_loading()
    }

    /// Moves on to the next phrase, the first one following the last, and
    /// gives the loading screen with it.
    pub fn update_loading_text(&mut self) -> (screen: LoadingScreen)
        ensures
            final(self)@ == (UiView {
                phrase: (old(self)@.phrase + 1) % (LOADING_TEXT_COUNT as nat),
                spinner: old(self)@.spinner,
            }),
            screen@ == loading_screen(final(self)@),
    {
        self.next_loading_text();
        self.display_loading()
    }

    /// The loading screen as it stands.
    pub fn display_loading(&self) -> (screen: LoadingScreen)
        ensures
            screen@ == loading_screen(self@),
    {
        proof {
            use_type_invariant(self);
        }
        let mut status = String::from_str("Generating adventure... ");
        status.push(self.current_spinner_char);
        let phrase = String::from_str("\"").concat(
            self.loading_texts[self.current_loading_text].as_str(),
        ).concat("\"");
        LoadingScreen { title: String::from_str("Random Adventure Generator"), status, phrase }
    }

    /// What `key` asks for, if anything.
    pub fn handle_input(&self, key: Key) -> (action: Option<Action>)
        ensures
            action == action_for(key),
    {
        match key {
            Key::Char('g') => Some(Action::Generate),
            Key::Char('c') => Some(Action::Customize),
            Key::Char('s') => Some(Action::Save),
            Key::Char('l') => Some(Action::Load),
            Key::Char('q') => Some(Action::Quit),
            _ => None,
        }
    }
}

} // verus!
