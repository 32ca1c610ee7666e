//! The settings an adventure is generated from and the state of one session.

use crate::adventure::{render_text, Adventure, AdventureView};
use crate::ui::{Key, Span, SpanView};
use vstd::prelude::*;

verus! {

/// How hard the adventure is meant to be.
#[derive(Clone, Copy, PartialEq, Eq, Debug, Structural)]
pub enum Difficulty {
    Easy,
    Medium,
    Hard,
}

/// The kind of world the adventure is set in.
#[derive(Clone, Copy, PartialEq, Eq, Debug, Structural)]
pub enum Genre {
    Fantasy,
    SciFi,
    Horror,
}

/// How much there is to the adventure.
#[derive(Clone, Copy, PartialEq, Eq, Debug, Structural)]
pub enum Length {
    Short,
    Medium,
    Long,
}

impl Difficulty {
    /// The value that follows `self`, the first one following the last.
    pub open spec fn spec_next(self) -> Difficulty {
        match self {
            Difficulty::Easy => Difficulty::Medium,
            Difficulty::Medium => Difficulty::Hard,
            Difficulty::Hard => Difficulty::Easy,
        }
    }

    /// The name the value is shown under.
    pub open spec fn spec_name(self) -> Seq<char> {
        match self {
            Difficulty::Easy => "Easy"@,
            Difficulty::Medium => "Medium"@,
            Difficulty::Hard => "Hard"@,
        }
    }

    #[verifier::when_used_as_spec(spec_next)]
    pub fn next(self) -> (r: Difficulty)
        ensures
            r == self.spec_next(),
        no_unwind
    {
        match self {
            Difficulty::Easy => Difficulty::Medium,
            Difficulty::Medium => Difficulty::Hard,
            Difficulty::Hard => Difficulty::Easy,
        }
    }

    pub fn name(self) -> (r: &'static str)
        ensures
            r@ == self.spec_name(),
    {
        match self {
            Difficulty::Easy => "Easy",
            Difficulty::Medium => "Medium",
            Difficulty::Hard => "Hard",
        }
    }
}

impl Genre {
    /// The value that follows `self`, the first one following the last.
    pub open spec fn spec_next(self) -> Genre {
        match self {
            Genre::Fantasy => Genre::SciFi,
            Genre::SciFi => Genre::Horror,
            Genre::Horror => Genre::Fantasy,
        }
    }

    /// The name the value is shown under.
    pub open spec fn spec_name(self) -> Seq<char> {
        match self {
            Genre::Fantasy => "Fantasy"@,
            Genre::SciFi => "SciFi"@,
            Genre::Horror => "Horror"@,
        }
    }

    #[verifier::when_used_as_spec(spec_next)]
    pub fn next(self) -> (r: Genre)
        ensures
            r == self.spec_next(),
        no_unwind
    {
        match self {
            Genre::Fantasy => Genre::SciFi,
            Genre::SciFi => Genre::Horror,
            Genre::Horror => Genre::Fantasy,
        }
    }

    pub fn name(self) -> (r: &'static str)
        ensures
            r@ == self.spec_name(),
    {
        match self {
            Genre::Fantasy => "Fantasy",
            Genre::SciFi => "SciFi",
            Genre::Horror => "Horror",
        }
    }
}

impl Length {
    /// The value that follows `self`, the first one following the last.
    pub open spec fn spec_next(self) -> Length {
        match self {
            Length::Short => Length::Medium,
            Length::Medium => Length::Long,
            Length::Long => Length::Short,
        }
    }

    /// The name the value is shown under.
    pub open spec fn spec_name(self) -> Seq<char> {
        match self {
            Length::Short => "Short"@,
            Length::Medium => "Medium"@,
            Length::Long => "Long"@,
        }
    }

    /// How many characters, and how many challenges, an adventure of this
    /// length has.
    pub open spec fn spec_count(self) -> nat {
        match self {
            Length::Short => 2,
            Length::Medium => 3,
            Length::Long => 4,
        }
    }

    #[verifier::when_used_as_spec(spec_next)]
    pub fn next(self) -> (r: Length)
        ensures
            r == self.spec_next(),
        no_unwind
    {
        match self {
            Length::Short => Length::Medium,
            Length::Medium => Length::Long,
            Length::Long => Length::Short,
        }
    }

    pub fn name(self) -> (r: &'static str)
        ensures
            r@ == self.spec_name(),
    {
        match self {
            Length::Short => "Short",
            Length::Medium => "Medium",
            Length::Long => "Long",
        }
    }

    pub fn count(self) -> (n: usize)
        ensures
            n == self.spec_count(),
    {
        match self {
            Length::Short => 2,
            Length::Medium => 3,
            Length::Long => 4,
        }
    }
}

/// The three choices an adventure is generated from. Each field always holds
/// one value of its enumeration.
#[derive(Clone, Copy, PartialEq, Eq, Debug, Structural)]
pub struct AdventureSettings {
    pub difficulty: Difficulty,
    pub genre: Genre,
    pub length: Length,
}

/// What one session holds: the settings, and the adventure that was
/// generated or loaded last, if any.
#[derive(Debug, PartialEq, Eq)]
pub struct GameState {
    pub settings: AdventureSettings,
    pub current_adventure: Option<Adventure>,
}

/// The state with its adventure as plain text.
pub struct GameStateView {
    pub settings: AdventureSettings,
    pub current_adventure: Option<AdventureView>,
}

impl View for GameState {
    type V = GameStateView;

    open spec fn view(&self) -> GameStateView {
        GameStateView {
            settings: self.settings,
            current_adventure: self.current_adventure.deep_view(),
        }
    }
}

/// Why the saved adventure could not be written or read.
#[derive(Clone, Copy, PartialEq, Eq, Debug, Structural)]
pub enum StoreError {
    /// Nothing has been saved yet.
    NotFound,
    /// What is stored cannot be read as an adventure.
    Malformed,
    /// The store could not be written to or read from.
    Unavailable,
}

/// How many rows the settings menu has: one for each setting, and one to
/// leave by.
pub const OPTION_COUNT: usize = 4;

/// The settings menu: a title bar, a titled list of rows of which the
/// selected one stands out, and a line of instructions.
#[derive(Debug, PartialEq, Eq)]
pub struct MenuScreen {
    pub title: String,
    pub list_title: String,
    pub rows: Vec<Span>,
    pub instructions: String,
}

/// The settings menu as plain text.
pub struct MenuScreenView {
    pub title: Seq<char>,
    pub list_title: Seq<char>,
    pub rows: Seq<SpanView>,
    pub instructions: Seq<char>,
}

impl View for MenuScreen {
    type V = MenuScreenView;

    open spec fn view(&self) -> MenuScreenView {
        MenuScreenView {
            title: self.title@,
            list_title: self.list_title@,
            rows: self.rows.deep_view(),
            instructions: self.instructions@,
        }
    }
}

/// What the rows of the settings menu say: each setting with its value,
/// then the row to leave by.
pub open spec fn menu_rows(settings: AdventureSettings) -> Seq<Seq<char>> {
    seq![
        "Difficulty: "@ + settings.difficulty.spec_name(),
        "Genre: "@ + settings.genre.spec_name(),
        "Length: "@ + settings.length.spec_name(),
        "Save and Exit"@,
    ]
}

/// The settings menu for `settings` with the row `selected_option`
/// selected.
pub open spec fn menu_screen(settings: AdventureSettings, selected_option: usize) -> MenuScreenView {
    MenuScreenView {
        title: "Customize Adventure Settings"@,
        list_title: "Options"@,
        rows: Seq::new(
            OPTION_COUNT as nat,
            |i: int|
                SpanView { text: menu_rows(settings)[i], emphasized: i == selected_option },
        ),
        instructions: "Use Up/Down arrows to navigate, Enter to select, esc to exit"@,
    }
}

/// What a key does in the settings menu: the settings after it, and the
/// row that is selected after it, or `None` where the key leaves the menu.
/// Up and Down move the selection and stop at the first and the last row.
/// Enter on a setting's row moves that setting on to its next value; Enter
/// on the last row, and Esc, leave the menu. Any other key does nothing.
pub open spec fn menu_step(settings: AdventureSettings, selected_option: usize, key: Key) -> (
    AdventureSettings,
    Option<usize>,
) {
    match key {
        Key::Up => (
            settings,
            Some(
                if selected_option == 0 {
                    0usize
                } else {
                    (selected_option - 1) as usize
                },
            ),
        ),
        Key::Down => (
            settings,
            Some(
                if selected_option < OPTION_COUNT - 1 {
                    (selected_option + 1) as usize
                } else {
                    selected_option
                },
            ),
        ),
        Key::Enter => if selected_option == 0 {
            (settings.cycled_difficulty(), Some(selected_option))
        } else if selected_option == 1 {
            (settings.cycled_genre(), Some(selected_option))
        } else if selected_option == 2 {
            (settings.cycled_length(), Some(selected_option))
        } else if selected_option == 3 {
            (settings, None)
        } else {
            (settings, Some(selected_option))
        },
        Key::Esc => (settings, None),
        _ => (settings, Some(selected_option)),
    }
}

impl Clone for GameState {
    fn clone(&self) -> (copy: Self)
        ensures
            copy@ == self@,
    {
        GameState {
            settings: self.settings,
            current_adventure: match &self.current_adventure {
                Some(adventure) => Some(adventure.clone()),
                None => None,
            },
        }
    }
}

impl AdventureSettings {
    /// The settings a session starts with.
    pub open spec fn initial() -> AdventureSettings {
        AdventureSettings {
            difficulty: Difficulty::Medium,
            genre: Genre::Fantasy,
            length: Length::Medium,
        }
    }

    /// The settings with the difficulty moved on to its next value.
    pub open spec fn cycled_difficulty(self) -> AdventureSettings {
        AdventureSettings { difficulty: self.difficulty.spec_next(), ..self }
    }

    /// The settings with the genre moved on to its next value.
    pub open spec fn cycled_genre(self) -> AdventureSettings {
        AdventureSettings { genre: self.genre.spec_next(), ..self }
    }

    /// The settings with the length moved on to its next value.
    pub open spec fn cycled_length(self) -> AdventureSettings {
        AdventureSettings { length: self.length.spec_next(), ..self }
    }
}

impl GameStateView {
    /// The state once the store has answered a request for the saved
    /// adventure: what was read takes the current adventure's place; a
    /// failure changes nothing.
    pub open spec fn after_load(self, stored: Result<Adventure, StoreError>) -> GameStateView {
        match stored {
            Ok(adventure) => GameStateView { current_adventure: Some(adventure@), ..self },
            Err(_) => self,
        }
    }
}

impl GameState {
    /// The state a session starts in: the initial settings and no
    /// adventure.
    pub fn new() -> (state: Self)
        ensures
            state@ == (GameStateView {
                settings: AdventureSettings::initial(),
                current_adventure: None,
            }),
    {
        GameState {
            settings: AdventureSettings {
                difficulty: Difficulty::Medium,
                genre: Genre::Fantasy,
                length: Length::Medium,
            },
            current_adventure: None,
        }
    }

    /// Puts `adventure` in the place of the current one.
    pub fn set_current_adventure(&mut self, adventure: Adventure)
        ensures
            final(self).settings == old(self).settings,
            final(self).current_adventure == Some(adventure),
        no_unwind
    {
        self.current_adventure = Some(adventure);
    }

    /// Moves the difficulty on to its next value.
    pub fn cycle_difficulty(&mut self)
        ensures
            final(self).settings == old(self).settings.cycled_difficulty(),
            final(self).current_adventure == old(self).current_adventure,
        no_unwind
    {
        self.settings.difficulty = self.settings.difficulty.next();
    }

    /// Moves the genre on to its next value.
    pub fn cycle_genre(&mut self)
        ensures
            final(self).settings == old(self).settings.cycled_genre(),
            final(self).current_adventure == old(self).current_adventure,
        no_unwind
    {
        self.settings.genre = self.settings.genre.next();
    }

    /// Moves the length on to its next value.
    pub fn cycle_length(&mut self)
        ensures
            final(self).settings == old(self).settings.cycled_length(),
            final(self).current_adventure == old(self).current_adventure,
        no_unwind
    {
        self.settings.length = self.settings.length.next();
    }

    /// One key's worth of the settings menu, with the row `selected_option`
    /// selected: changes the settings as the key asks, and gives the row
    /// that is selected afterwards, or `None` where the key leaves the
    /// menu. The current adventure stays as it is.
    pub fn customize_settings(&mut self, selected_option: usize, key: Key) -> (next: Option<usize>)
        ensures
            (final(self).settings, next) == menu_step(old(self).settings, selected_option, key),
            final(self).current_adventure == old(self).current_adventure,
            selected_option < OPTION_COUNT ==> (next matches Some(row) ==> row < OPTION_COUNT),
        no_unwind
    {
        match key {
            Key::Up => {
                if selected_option == 0 {
                    Some(0)
                } else {
                    Some(selected_option - 1)
                }
            },
            Key::Down => {
                if selected_option < OPTION_COUNT - 1 {
                    Some(selected_option + 1)
                } else {
                    Some(selected_option)
                }
            },
            Key::Enter => {
                if selected_option == 0 {
                    self.cycle_difficulty();
                    Some(selected_option)
                } else if selected_option == 1 {
                    self.cycle_genre();
                    Some(selected_option)
                } else if selected_option == 2 {
                    self.cycle_length();
                    Some(selected_option)
                } else if selected_option == 3 {
                    None
                } else {
                    Some(selected_option)
                }
            },
            Key::Esc => None,
            _ => Some(selected_option),
        }
    }

    /// The settings menu as it is to be drawn, with the row
    /// `selected_option` standing out.
    pub fn draw_customize_menu(&self, selected_option: usize) -> (screen: MenuScreen)
        ensures
            screen@ == menu_screen(self.settings, selected_option),
    {
        let rows = vec![
            Span {
                text: String::from_str("Difficulty: ").concat(self.settings.difficulty.name()),
                emphasized: selected_option == 0,
            },
            Span {
                text: String::from_str("Genre: ").concat(self.settings.genre.name()),
                emphasized: selected_option == 1,
            },
            Span {
                text: String::from_str("Length: ").concat(self.settings.length.name()),
                emphasized: selected_option == 2,
            },
            Span { text: String::from_str("Save and Exit"), emphasized: selected_option == 3 },
        ];
        proof {
            assert(rows.deep_view() =~= menu_screen(self.settings, selected_option).rows);
        }
        MenuScreen {
            title: String::from_str("Customize Adventure Settings"),
            list_title: String::from_str("Options"),
            rows,
            instructions: String::from_str(
                "Use Up/Down arrows to navigate, Enter to select, esc to exit",
            ),
        }
    }

    /// What is to be written to the store when the user asks to save: a
    /// copy of the current adventure, or nothing while there is none.
    pub fn save_adventure(&self) -> (to_store: Option<Adventure>)
        ensures
            to_store.deep_view() == self@.current_adventure,
    {
        match &self.current_adventure {
            Some(adventure) => Some(adventure.clone()),
            None => None,
        }
    }

    /// Takes the store's answer to a request for the saved adventure. What
    /// was read becomes the current adventure. A failure is handed back and
    /// leaves the state as it was.
    pub fn load_adventure(&mut self, stored: Result<Adventure, StoreError>) -> (outcome: Result<
        (),
        StoreError,
    >)
        ensures
            final(self)@ == old(self)@.after_load(stored),
            match stored {
                Ok(adventure) => outcome is Ok && final(self).settings == old(self).settings
                    && final(self).current_adventure == Some(adventure),
                Err(error) => outcome == Err::<(), StoreError>(error) && *final(self) == *old(
                    self,
                ),
            },
        no_unwind
    {
        match stored {
            Ok(adventure) => {
                self.current_adventure = Some(adventure);
                Ok(())
            },
            Err(error) => Err(error),
        }
    }
}

/// Moving a setting on as many times as it has values brings it back to
/// where it was, and moving one setting on leaves the other two alone.
pub proof fn lemma_cycle_comes_round(settings: AdventureSettings)
    ensures
        settings.cycled_difficulty().cycled_difficulty().cycled_difficulty() == settings,
        settings.cycled_genre().cycled_genre().cycled_genre() == settings,
        settings.cycled_length().cycled_length().cycled_length() == settings,
        settings.cycled_difficulty().genre == settings.genre,
        settings.cycled_difficulty().length == settings.length,
        settings.cycled_genre().difficulty == settings.difficulty,
        settings.cycled_genre().length == settings.length,
        settings.cycled_length().difficulty == settings.difficulty,
        settings.cycled_length().genre == settings.genre,
{
}

/// What was saved and is read back unchanged is the current adventure
/// again, whatever the state has become in between, and reads the same on
/// the screen.
pub proof fn lemma_load_after_save(saved: GameStateView, later: GameStateView, stored: Adventure)
    requires
        saved.current_adventure == Some(stored@),
    ensures
        later.after_load(Ok(stored)).current_adventure == saved.current_adventure,
        later.after_load(Ok(stored)).settings == later.settings,
        render_text(later.after_load(Ok(stored)).current_adventure->0) == render_text(
            saved.current_adventure->0,
        ),
{
}

/// A load that fails leaves the state as it was: without an adventure
/// where there was none.
pub proof fn lemma_failed_load_changes_nothing(state: GameStateView, error: StoreError)
    ensures
        state.after_load(Err(error)) == state,
        state.current_adventure is None ==> state.after_load(Err(error)).current_adventure is None,
{
}

} // verus!
