use adventure_generator::adventure::{
    archetypes, challenges, complications, generate_challenges, generate_characters,
    generate_location, generate_objective, locations, objectives, phrase_challenge,
    phrase_objective, Adventure,
};
use adventure_generator::game_state::{AdventureSettings, Difficulty, Genre, Length};

const DIFFICULTIES: [Difficulty; 3] = [Difficulty::Easy, Difficulty::Medium, Difficulty::Hard];
const GENRES: [Genre; 3] = [Genre::Fantasy, Genre::SciFi, Genre::Horror];
const LENGTHS: [Length; 3] = [Length::Short, Length::Medium, Length::Long];
const ROUNDS: usize = 40;

fn expected_count(length: Length) -> usize {
    match length {
        Length::Short => 2,
        Length::Medium => 3,
        Length::Long => 4,
    }
}

fn is_objective_of(genre: Genre, difficulty: Difficulty, text: &str) -> bool {
    objectives(genre).iter().any(|base| match difficulty {
        Difficulty::Easy => text == format!("{} (with clear guidance and support)", base),
        Difficulty::Medium => text == *base,
        Difficulty::Hard => {
            text == format!("{} (while facing numerous obstacles and betrayals)", base)
        }
    })
}

fn is_challenge_of(genre: Genre, difficulty: Difficulty, text: &str) -> bool {
    challenges(genre).iter().any(|base| match difficulty {
        Difficulty::Easy => text == format!("{} (with helpful clues)", base),
        Difficulty::Medium => text == *base,
        Difficulty::Hard => complications()
            .iter()
            .any(|complication| text == format!("{} ({})", base, complication)),
    })
}

#[test]
fn tables_have_their_sizes() {
    for genre in GENRES {
        assert_eq!(locations(genre).len(), 6);
        assert_eq!(archetypes(genre).len(), 8);
        assert_eq!(objectives(genre).len(), 5);
        assert_eq!(challenges(genre).len(), 6);
    }
    assert_eq!(complications().len(), 5);
}

#[test]
fn tables_begin_and_end_as_written() {
    assert_eq!(locations(Genre::Fantasy)[0], "Ancient Elven Forest");
    assert_eq!(locations(Genre::Fantasy)[5], "Enchanted Crystal Caves");
    assert_eq!(locations(Genre::SciFi)[0], "Abandoned Space Station");
    assert_eq!(locations(Genre::Horror)[5], "Haunted Ghost Ship");
    assert_eq!(archetypes(Genre::Fantasy)[0], "Wise Wizard");
    assert_eq!(archetypes(Genre::SciFi)[7], "Space Pirate");
    assert_eq!(archetypes(Genre::Horror)[7], "Possessed Child");
    assert_eq!(objectives(Genre::Fantasy)[0], "Recover the lost artifact of immense power");
    assert_eq!(objectives(Genre::SciFi)[4], "Cure a deadly virus spreading across multiple planets");
    assert_eq!(
        objectives(Genre::Horror)[4],
        "Uncover the truth behind a town's dark and bloody history"
    );
    assert_eq!(challenges(Genre::Fantasy)[0], "Navigate treacherous terrain");
    assert_eq!(challenges(Genre::SciFi)[5], "Neutralize a hostile artificial intelligence");
    assert_eq!(challenges(Genre::Horror)[5], "Uncover the truth hidden in fragmented memories");
    assert_eq!(complications()[0], "under extreme time pressure");
    assert_eq!(complications()[4], "while protecting vulnerable allies");
}

#[test]
fn no_table_entry_is_empty() {
    for genre in GENRES {
        for table in [locations(genre), archetypes(genre), objectives(genre), challenges(genre)] {
            assert!(table.iter().all(|entry| !entry.is_empty()));
        }
    }
    assert!(complications().iter().all(|entry| !entry.is_empty()));
}

#[test]
fn objective_is_phrased_for_the_difficulty() {
    assert_eq!(
        phrase_objective("Find the key", Difficulty::Easy),
        "Find the key (with clear guidance and support)"
    );
    assert_eq!(phrase_objective("Find the key", Difficulty::Medium), "Find the key");
    assert_eq!(
        phrase_objective("Find the key", Difficulty::Hard),
        "Find the key (while facing numerous obstacles and betrayals)"
    );
}

#[test]
fn challenge_is_phrased_for_the_difficulty() {
    assert_eq!(
        phrase_challenge("Cross the river", Difficulty::Easy, "while being hunted"),
        "Cross the river (with helpful clues)"
    );
    assert_eq!(
        phrase_challenge("Cross the river", Difficulty::Medium, "while being hunted"),
        "Cross the river"
    );
    assert_eq!(
        phrase_challenge("Cross the river", Difficulty::Hard, "while being hunted"),
        "Cross the river (while being hunted)"
    );
}

#[test]
fn generated_location_is_of_the_genre() {
    for genre in GENRES {
        for _ in 0..ROUNDS {
            let location = generate_location(genre);
            assert!(locations(genre).contains(&location.as_str()));
        }
    }
}

#[test]
fn generated_characters_are_of_the_genre_and_as_many_as_the_length_asks() {
    for genre in GENRES {
        for length in LENGTHS {
            for _ in 0..ROUNDS {
                let characters = generate_characters(genre, length);
                assert_eq!(characters.len(), expected_count(length));
                for character in &characters {
                    assert!(archetypes(genre).contains(&character.as_str()));
                }
            }
        }
    }
}

#[test]
fn generated_objective_is_of_the_genre_and_the_difficulty() {
    for genre in GENRES {
        for difficulty in DIFFICULTIES {
            for _ in 0..ROUNDS {
                let objective = generate_objective(genre, difficulty);
                assert!(is_objective_of(genre, difficulty, &objective));
            }
        }
    }
}

#[test]
fn generated_challenges_are_of_the_genre_and_the_difficulty() {
    for genre in GENRES {
        for difficulty in DIFFICULTIES {
            for length in LENGTHS {
                for _ in 0..ROUNDS {
                    let list = generate_challenges(genre, difficulty, length);
                    assert_eq!(list.len(), expected_count(length));
                    for challenge in &list {
                        assert!(is_challenge_of(genre, difficulty, challenge));
                    }
                }
            }
        }
    }
}

#[test]
fn generated_adventure_has_the_counts_of_its_length() {
    for difficulty in DIFFICULTIES {
        for genre in GENRES {
            for length in LENGTHS {
                let settings = AdventureSettings { difficulty, genre, length };
                for _ in 0..ROUNDS {
                    let adventure = Adventure::generate(&settings);
                    assert_eq!(adventure.characters.len(), expected_count(length));
                    assert_eq!(adventure.challenges.len(), expected_count(length));
                }
            }
        }
    }
}

#[test]
fn generated_adventure_is_well_formed_and_from_the_tables() {
    for difficulty in DIFFICULTIES {
        for genre in GENRES {
            for length in LENGTHS {
                let settings = AdventureSettings { difficulty, genre, length };
                for _ in 0..ROUNDS {
                    let adventure = Adventure::generate(&settings);
                    assert!(!adventure.location.is_empty());
                    assert!(!adventure.objective.is_empty());
                    assert!((2..=4).contains(&adventure.characters.len()));
                    assert!((2..=4).contains(&adventure.challenges.len()));
                    assert!(adventure.characters.iter().all(|text| !text.is_empty()));
                    assert!(adventure.challenges.iter().all(|text| !text.is_empty()));
                    assert!(locations(genre).contains(&adventure.location.as_str()));
                    assert!(adventure
                        .characters
                        .iter()
                        .all(|text| archetypes(genre).contains(&text.as_str())));
                    assert!(is_objective_of(genre, difficulty, &adventure.objective));
                    assert!(adventure
                        .challenges
                        .iter()
                        .all(|text| is_challenge_of(genre, difficulty, text)));
                }
            }
        }
    }
}

#[test]
fn generation_reaches_more_than_one_entry_of_a_table() {
    let first = generate_location(Genre::Fantasy);
    let mut other = false;
    for _ in 0..500 {
        if generate_location(Genre::Fantasy) != first {
            other = true;
        }
    }
    assert!(other);
}

#[test]
fn render_lays_the_adventure_out() {
    let adventure = Adventure {
        location: "Cave".to_string(),
        characters: vec!["A".to_string(), "B".to_string()],
        objective: "Win".to_string(),
        challenges: vec!["X".to_string(), "Y".to_string(), "Z".to_string()],
    };
    assert_eq!(
        adventure.render(),
        "Location: Cave\n\nCharacters:\n- A\n- B\n\nObjective: Win\n\nChallenges:\n- X\n- Y\n- Z\n"
    );
}

#[test]
fn render_keeps_the_order_of_the_lists() {
    let adventure = Adventure {
        location: "L".to_string(),
        characters: vec!["3".to_string(), "1".to_string(), "2".to_string(), "1".to_string()],
        objective: "O".to_string(),
        challenges: vec!["b".to_string(), "a".to_string()],
    };
    assert_eq!(
        adventure.render(),
        "Location: L\n\nCharacters:\n- 3\n- 1\n- 2\n- 1\n\nObjective: O\n\nChallenges:\n- b\n- a\n"
    );
}

#[test]
fn render_of_empty_lists_keeps_the_headings() {
    let adventure = Adventure {
        location: String::new(),
        characters: Vec::new(),
        objective: String::new(),
        challenges: Vec::new(),
    };
    assert_eq!(adventure.render(), "Location: \n\nCharacters:\n\nObjective: \n\nChallenges:\n");
}

#[test]
fn render_twice_gives_the_same_text() {
    for genre in GENRES {
        let settings =
            AdventureSettings { difficulty: Difficulty::Hard, genre, length: Length::Long };
        let adventure = Adventure::generate(&settings);
        let first = adventure.render();
        assert_eq!(adventure.render(), first);
        assert_eq!(adventure.clone().render(), first);
    }
}

#[test]
fn render_handles_text_beyond_ascii() {
    let adventure = Adventure {
        location: "Zürich".to_string(),
        characters: vec!["Ωmega".to_string()],
        objective: "→".to_string(),
        challenges: vec!["日本".to_string()],
    };
    assert_eq!(
        adventure.render(),
        "Location: Zürich\n\nCharacters:\n- Ωmega\n\nObjective: →\n\nChallenges:\n- 日本\n"
    );
}

#[test]
fn clone_of_an_adventure_is_equal_to_it() {
    let settings = AdventureSettings {
        difficulty: Difficulty::Easy,
        genre: Genre::Horror,
        length: Length::Long,
    };
    let adventure = Adventure::generate(&settings);
    assert_eq!(adventure.clone(), adventure);
}
