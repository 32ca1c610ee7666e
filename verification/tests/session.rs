use adventure_generator::adventure::{locations, Adventure};
use adventure_generator::ai_client::{parse_adventure, GenerationFailure};
use adventure_generator::game_state::{
    AdventureSettings, Difficulty, GameState, Genre, Length, StoreError,
};
use adventure_generator::session::{
    Command, Event, Mode, Screen, Session, SessionError, PHRASE_INTERVAL_MS, POLL_INTERVAL_MS,
    SPINNER_GLYPH_COUNT, SPINNER_INTERVAL_MS,
};
use adventure_generator::ui::{Key, UI};

fn key(c: char) -> Event {
    Event::Key(Key::Char(c))
}

fn sample_adventure() -> Adventure {
    Adventure {
        location: "Cave".to_string(),
        characters: vec!["A".to_string(), "B".to_string()],
        objective: "Win".to_string(),
        challenges: vec!["X".to_string(), "Y".to_string()],
    }
}

fn session_holding(adventure: Adventure) -> Session {
    let mut session = Session::new();
    assert_eq!(session.step(Event::Loaded(Ok(adventure))), Command::Wait);
    session
}

fn generating_session() -> Session {
    let mut session = Session::new();
    assert_eq!(session.step(key('g')), Command::Generate(GameState::new().settings));
    session
}

fn spinner(session: &Session) -> char {
    session.ui().current_spinner_char()
}

#[test]
fn intervals_are_as_documented() {
    assert_eq!(POLL_INTERVAL_MS, 50);
    assert_eq!(SPINNER_INTERVAL_MS, 100);
    assert_eq!(PHRASE_INTERVAL_MS, 5000);
    assert_eq!(SPINNER_GLYPH_COUNT, 4);
}

#[test]
fn session_starts_idle_with_the_initial_settings() {
    let session = Session::new();
    assert_eq!(session.mode(), Mode::Idle);
    assert_eq!(*session.game_state(), GameState::new());
    assert_eq!(session.selected_option(), 0);
    assert_eq!(session.last_error(), None);
    assert_eq!(session.screen(), Screen::Main(UI::new().display(&GameState::new())));
}

#[test]
fn generate_key_starts_a_generation_with_the_settings() {
    let mut session = Session::new();
    let command = session.step(key('g'));
    assert_eq!(
        command,
        Command::Generate(AdventureSettings {
            difficulty: Difficulty::Medium,
            genre: Genre::Fantasy,
            length: Length::Medium,
        })
    );
    assert_eq!(session.mode(), Mode::Generating);
    assert_eq!(session.screen(), Screen::Loading(UI::new().display_loading()));
}

#[test]
fn generation_that_succeeds_sets_the_current_adventure() {
    let mut session = generating_session();
    assert_eq!(session.step(Event::Generated(Ok(sample_adventure()))), Command::Wait);
    assert_eq!(session.mode(), Mode::Idle);
    assert_eq!(session.game_state().current_adventure, Some(sample_adventure()));
    assert_eq!(session.last_error(), None);
}

#[test]
fn generation_that_fails_keeps_the_current_adventure_and_the_session() {
    for failure in [GenerationFailure::Transport, GenerationFailure::MalformedResponse] {
        let mut session = session_holding(sample_adventure());
        session.step(key('g'));
        assert_eq!(session.step(Event::Generated(Err(failure))), Command::Wait);
        assert_eq!(session.mode(), Mode::Idle);
        assert_eq!(session.game_state().current_adventure, Some(sample_adventure()));
        assert_eq!(session.last_error(), Some(SessionError::Generation(failure)));
    }
    let mut session = generating_session();
    session.step(Event::Generated(Err(GenerationFailure::Transport)));
    assert_eq!(session.game_state().current_adventure, None);
    assert_eq!(session.mode(), Mode::Idle);
}

#[test]
fn quit_during_generation_waits_for_the_generator() {
    let mut session = generating_session();
    assert_eq!(session.step(key('q')), Command::Wait);
    assert_eq!(session.mode(), Mode::Generating);
    assert_eq!(session.step(Event::SpinnerTick), Command::Wait);
    assert_eq!(session.step(key('q')), Command::Wait);
    assert_eq!(session.mode(), Mode::Generating);
    assert_eq!(session.game_state().current_adventure, None);

    assert_eq!(session.step(Event::Generated(Ok(sample_adventure()))), Command::Wait);
    assert_eq!(session.mode(), Mode::Idle);
    assert_eq!(session.game_state().current_adventure, Some(sample_adventure()));

    assert_eq!(session.step(key('q')), Command::Exit);
    assert_eq!(session.mode(), Mode::Terminated);
}

#[test]
fn nothing_but_the_outcome_ends_a_generation() {
    let events = || {
        vec![
            key('g'),
            key('c'),
            key('s'),
            key('l'),
            key('q'),
            Event::Key(Key::Esc),
            Event::Key(Key::Enter),
            Event::Key(Key::Up),
            Event::Key(Key::Down),
            Event::Key(Key::Other),
            Event::SpinnerTick,
            Event::PhraseTick,
            Event::Saved(Ok(())),
            Event::Saved(Err(StoreError::Unavailable)),
            Event::Loaded(Ok(sample_adventure())),
            Event::Loaded(Err(StoreError::NotFound)),
        ]
    };
    let mut session = generating_session();
    for event in events() {
        assert_eq!(session.step(event), Command::Wait);
        assert_eq!(session.mode(), Mode::Generating);
        assert_eq!(*session.game_state(), GameState::new());
        assert_eq!(session.last_error(), None);
    }
}

#[test]
fn spinner_goes_through_its_glyphs_and_round() {
    let mut session = generating_session();
    assert_eq!(spinner(&session), '|');
    let mut seen = Vec::new();
    for _ in 0..9 {
        session.step(Event::SpinnerTick);
        seen.push(spinner(&session));
    }
    assert_eq!(seen, vec!['|', '/', '-', '\\', '|', '/', '-', '\\', '|']);
    assert_eq!(session.ui().current_loading_text(), 0);
}

#[test]
fn phrases_go_round_after_the_last() {
    let mut session = generating_session();
    for step in 1..=25 {
        session.step(Event::PhraseTick);
        assert_eq!(session.ui().current_loading_text(), step % 12);
        assert_eq!(spinner(&session), '|');
    }
}

#[test]
fn loading_screen_follows_the_ticks() {
    let mut session = generating_session();
    session.step(Event::SpinnerTick);
    session.step(Event::SpinnerTick);
    session.step(Event::PhraseTick);
    match session.screen() {
        Screen::Loading(screen) => {
            assert_eq!(screen.title, "Random Adventure Generator");
            assert_eq!(screen.status, "Generating adventure... /");
            assert_eq!(screen.phrase, "\"sedih gak diajak telponan sama ayang\"");
        }
        other => panic!("not the loading screen: {:?}", other),
    }
}

#[test]
fn progress_starts_afresh_with_each_generation() {
    let mut session = generating_session();
    session.step(Event::SpinnerTick);
    session.step(Event::SpinnerTick);
    session.step(Event::SpinnerTick);
    session.step(Event::PhraseTick);
    assert_eq!(spinner(&session), '-');
    assert_eq!(session.ui().current_loading_text(), 1);
    session.step(Event::Generated(Ok(sample_adventure())));

    session.step(key('g'));
    assert_eq!(spinner(&session), '|');
    assert_eq!(session.ui().current_loading_text(), 0);
    session.step(Event::SpinnerTick);
    assert_eq!(spinner(&session), '|');
    session.step(Event::SpinnerTick);
    assert_eq!(spinner(&session), '/');
}

#[test]
fn ticks_outside_a_generation_do_nothing() {
    let mut session = Session::new();
    assert_eq!(session.step(Event::SpinnerTick), Command::Wait);
    assert_eq!(session.step(Event::PhraseTick), Command::Wait);
    assert_eq!(session.mode(), Mode::Idle);
    assert_eq!(spinner(&session), '|');
    assert_eq!(session.ui().current_loading_text(), 0);
    session.step(key('c'));
    assert_eq!(session.step(Event::SpinnerTick), Command::Wait);
    assert_eq!(session.mode(), Mode::Customizing);
}

#[test]
fn outcome_without_a_generation_is_ignored() {
    let mut session = Session::new();
    assert_eq!(session.step(Event::Generated(Ok(sample_adventure()))), Command::Wait);
    assert_eq!(session.game_state().current_adventure, None);
    assert_eq!(session.step(Event::Generated(Err(GenerationFailure::Transport))), Command::Wait);
    assert_eq!(session.last_error(), None);
    assert_eq!(session.mode(), Mode::Idle);
}

#[test]
fn save_without_an_adventure_asks_for_nothing() {
    let mut session = Session::new();
    assert_eq!(session.step(key('s')), Command::Wait);
    assert_eq!(session.mode(), Mode::Idle);
    assert_eq!(session.game_state().current_adventure, None);
}

#[test]
fn save_hands_out_the_current_adventure() {
    let mut session = session_holding(sample_adventure());
    assert_eq!(session.step(key('s')), Command::Save(sample_adventure()));
    assert_eq!(session.mode(), Mode::Idle);
    assert_eq!(session.game_state().current_adventure, Some(sample_adventure()));
    assert_eq!(session.step(Event::Saved(Ok(()))), Command::Wait);
    assert_eq!(session.last_error(), None);
}

#[test]
fn save_that_fails_is_kept_as_the_last_failure() {
    let mut session = session_holding(sample_adventure());
    session.step(key('s'));
    assert_eq!(session.step(Event::Saved(Err(StoreError::Unavailable))), Command::Wait);
    assert_eq!(session.last_error(), Some(SessionError::Store(StoreError::Unavailable)));
    assert_eq!(session.mode(), Mode::Idle);
    assert_eq!(session.game_state().current_adventure, Some(sample_adventure()));
}

#[test]
fn load_key_asks_for_the_stored_adventure() {
    let mut session = Session::new();
    assert_eq!(session.step(key('l')), Command::Load);
    assert_eq!(session.mode(), Mode::Idle);
    assert_eq!(session.step(Event::Loaded(Ok(sample_adventure()))), Command::Wait);
    assert_eq!(session.game_state().current_adventure, Some(sample_adventure()));
    assert_eq!(session.last_error(), None);
}

#[test]
fn load_with_nothing_saved_is_a_failure_that_leaves_no_adventure() {
    let mut session = Session::new();
    assert_eq!(session.step(key('l')), Command::Load);
    assert_eq!(session.step(Event::Loaded(Err(StoreError::NotFound))), Command::Wait);
    assert_eq!(session.mode(), Mode::Idle);
    assert_eq!(session.game_state().current_adventure, None);
    assert_eq!(session.last_error(), Some(SessionError::Store(StoreError::NotFound)));
}

#[test]
fn load_of_malformed_data_keeps_the_current_adventure() {
    let mut session = session_holding(sample_adventure());
    session.step(key('l'));
    session.step(Event::Loaded(Err(StoreError::Malformed)));
    assert_eq!(session.game_state().current_adventure, Some(sample_adventure()));
    assert_eq!(session.last_error(), Some(SessionError::Store(StoreError::Malformed)));
}

#[test]
fn next_action_clears_the_last_failure() {
    for action in ['g', 'c', 's', 'l', 'q'] {
        let mut session = Session::new();
        session.step(Event::Loaded(Err(StoreError::NotFound)));
        assert!(session.last_error().is_some());
        session.step(key(action));
        assert_eq!(session.last_error(), None);
    }
}

#[test]
fn key_without_an_action_changes_nothing() {
    let mut session = session_holding(sample_adventure());
    session.step(Event::Loaded(Err(StoreError::NotFound)));
    for event in [key('x'), key('G'), Event::Key(Key::Enter), Event::Key(Key::Esc), Event::Key(Key::Other)] {
        assert_eq!(session.step(event), Command::Wait);
        assert_eq!(session.mode(), Mode::Idle);
        assert_eq!(session.game_state().current_adventure, Some(sample_adventure()));
        assert_eq!(session.last_error(), Some(SessionError::Store(StoreError::NotFound)));
    }
}

#[test]
fn customize_key_opens_the_menu_at_its_first_row() {
    let mut session = Session::new();
    assert_eq!(session.step(key('c')), Command::Wait);
    assert_eq!(session.mode(), Mode::Customizing);
    assert_eq!(session.selected_option(), 0);
    assert_eq!(session.screen(), Screen::Menu(GameState::new().draw_customize_menu(0)));
}

#[test]
fn menu_moves_and_stops_at_both_ends() {
    let mut session = Session::new();
    session.step(key('c'));
    session.step(Event::Key(Key::Up));
    assert_eq!(session.selected_option(), 0);
    for expected in [1, 2, 3, 3, 3] {
        session.step(Event::Key(Key::Down));
        assert_eq!(session.selected_option(), expected);
    }
    for expected in [2, 1, 0, 0] {
        session.step(Event::Key(Key::Up));
        assert_eq!(session.selected_option(), expected);
    }
    assert_eq!(session.mode(), Mode::Customizing);
    assert_eq!(*session.game_state(), GameState::new());
}

#[test]
fn menu_enter_cycles_the_setting_and_stays() {
    let mut session = Session::new();
    session.step(key('c'));
    assert_eq!(session.step(Event::Key(Key::Enter)), Command::Wait);
    assert_eq!(session.game_state().settings.difficulty, Difficulty::Hard);
    session.step(Event::Key(Key::Down));
    session.step(Event::Key(Key::Enter));
    session.step(Event::Key(Key::Enter));
    assert_eq!(session.game_state().settings.genre, Genre::Horror);
    session.step(Event::Key(Key::Down));
    session.step(Event::Key(Key::Enter));
    assert_eq!(session.game_state().settings.length, Length::Long);
    assert_eq!(session.mode(), Mode::Customizing);
    assert_eq!(session.selected_option(), 2);
    match session.screen() {
        Screen::Menu(screen) => {
            assert_eq!(screen.rows[0].text, "Difficulty: Hard");
            assert_eq!(screen.rows[1].text, "Genre: Horror");
            assert_eq!(screen.rows[2].text, "Length: Long");
            assert!(screen.rows[2].emphasized);
            assert!(!screen.rows[0].emphasized);
        }
        other => panic!("not the menu: {:?}", other),
    }
}

#[test]
fn menu_is_left_by_its_last_row_and_by_esc() {
    let mut session = Session::new();
    session.step(key('c'));
    for _ in 0..3 {
        session.step(Event::Key(Key::Down));
    }
    assert_eq!(session.step(Event::Key(Key::Enter)), Command::Wait);
    assert_eq!(session.mode(), Mode::Idle);

    session.step(key('c'));
    assert_eq!(session.selected_option(), 0);
    assert_eq!(session.step(Event::Key(Key::Esc)), Command::Wait);
    assert_eq!(session.mode(), Mode::Idle);
    assert_eq!(*session.game_state(), GameState::new());
}

#[test]
fn action_keys_mean_nothing_inside_the_menu() {
    let mut session = session_holding(sample_adventure());
    session.step(key('c'));
    for action in ['g', 'c', 's', 'l', 'q'] {
        assert_eq!(session.step(key(action)), Command::Wait);
        assert_eq!(session.mode(), Mode::Customizing);
    }
    assert_eq!(session.game_state().current_adventure, Some(sample_adventure()));
}

#[test]
fn quit_ends_the_session_for_good() {
    let mut session = session_holding(sample_adventure());
    assert_eq!(session.step(key('q')), Command::Exit);
    assert_eq!(session.mode(), Mode::Terminated);
    let events = vec![
        key('g'),
        key('c'),
        key('l'),
        Event::SpinnerTick,
        Event::PhraseTick,
        Event::Generated(Err(GenerationFailure::Transport)),
        Event::Loaded(Err(StoreError::NotFound)),
        Event::Saved(Ok(())),
    ];
    for event in events {
        assert_eq!(session.step(event), Command::Exit);
        assert_eq!(session.mode(), Mode::Terminated);
        assert_eq!(session.game_state().current_adventure, Some(sample_adventure()));
        assert_eq!(session.last_error(), None);
    }
}

#[test]
fn saved_adventure_stays_until_the_next_save() {
    let mut store: Option<Adventure> = None;
    let mut session = Session::new();
    assert_eq!(
        session.game_state().settings,
        AdventureSettings {
            difficulty: Difficulty::Medium,
            genre: Genre::Fantasy,
            length: Length::Medium,
        }
    );

    let first = match session.step(key('g')) {
        Command::Generate(settings) => Adventure::generate(&settings),
        other => panic!("no generation asked for: {:?}", other),
    };
    session.step(Event::Generated(Ok(first.clone())));
    assert_eq!(session.game_state().current_adventure, Some(first.clone()));
    assert_eq!(first.characters.len(), 3);
    assert_eq!(first.challenges.len(), 3);
    assert!(locations(Genre::Fantasy).contains(&first.location.as_str()));

    match session.step(key('s')) {
        Command::Save(adventure) => store = Some(adventure),
        other => panic!("no save asked for: {:?}", other),
    }
    session.step(Event::Saved(Ok(())));
    assert_eq!(store, Some(first.clone()));

    session.step(key('c'));
    session.step(Event::Key(Key::Down));
    session.step(Event::Key(Key::Enter));
    session.step(Event::Key(Key::Esc));
    assert_eq!(session.game_state().settings.genre, Genre::SciFi);
    assert_eq!(session.game_state().current_adventure, Some(first.clone()));

    let second = match session.step(key('g')) {
        Command::Generate(settings) => {
            assert_eq!(settings.genre, Genre::SciFi);
            Adventure::generate(&settings)
        }
        other => panic!("no generation asked for: {:?}", other),
    };
    session.step(Event::Generated(Ok(second.clone())));
    assert_eq!(session.game_state().current_adventure, Some(second.clone()));
    assert!(locations(Genre::SciFi).contains(&second.location.as_str()));
    assert!(!locations(Genre::Fantasy).contains(&second.location.as_str()));
    assert_ne!(second, first);
    assert_eq!(store, Some(first.clone()));

    assert_eq!(session.step(key('l')), Command::Load);
    session.step(Event::Loaded(store.clone().ok_or(StoreError::NotFound)));
    assert_eq!(session.game_state().current_adventure, Some(first.clone()));
    assert_eq!(
        session.game_state().current_adventure.as_ref().map(|adventure| adventure.render()),
        Some(first.render())
    );

    session.step(Event::Loaded(Ok(second.clone())));
    match session.step(key('s')) {
        Command::Save(adventure) => store = Some(adventure),
        other => panic!("no save asked for: {:?}", other),
    }
    assert_eq!(store, Some(second));
}

#[test]
fn reply_with_missing_lines_still_gives_an_adventure_to_the_session() {
    let mut session = generating_session();
    let adventure = parse_adventure("Location: Mars\nObjective: Survive");
    session.step(Event::Generated(Ok(adventure)));
    assert_eq!(session.mode(), Mode::Idle);
    assert_eq!(session.last_error(), None);
    let current = session.game_state().current_adventure.clone();
    assert_eq!(
        current,
        Some(Adventure {
            location: "Mars".to_string(),
            characters: vec!["Unknown".to_string()],
            objective: "Survive".to_string(),
            challenges: vec!["Unknown".to_string()],
        })
    );
}

#[test]
fn main_screen_shows_what_the_session_holds() {
    let session = session_holding(sample_adventure());
    match session.screen() {
        Screen::Main(screen) => assert_eq!(screen.body, sample_adventure().render()),
        other => panic!("not the main screen: {:?}", other),
    }
}
