//! The adventure record, its composition from tables and its text form.

use crate::game_state::{AdventureSettings, Difficulty, Genre, Length};
use crate::random::pick_one;
use rand::rngs::ThreadRng;
use vstd::prelude::*;

verus! {

/// One generated adventure. A new one replaces the old one whole.
#[derive(Debug, PartialEq, Eq)]
pub struct Adventure {
    pub location: String,
    pub characters: Vec<String>,
    pub objective: String,
    pub challenges: Vec<String>,
}

/// An adventure as plain text and sequences of text.
pub struct AdventureView {
    pub location: Seq<char>,
    pub characters: Seq<Seq<char>>,
    pub objective: Seq<char>,
    pub challenges: Seq<Seq<char>>,
}

impl View for Adventure {
    type V = AdventureView;

    open spec fn view(&self) -> AdventureView {
        AdventureView {
            location: self.location@,
            characters: self.characters.deep_view(),
            objective: self.objective@,
            challenges: self.challenges.deep_view(),
        }
    }
}

impl DeepView for Adventure {
    type V = AdventureView;

    open spec fn deep_view(&self) -> AdventureView {
        self@
    }
}

impl AdventureView {
    /// What an adventure is meant to be: no text of it is empty, and it has
    /// two to four characters and two to four challenges.
    pub open spec fn well_formed(self) -> bool {
        &&& self.location.len() > 0
        &&& 2 <= self.characters.len() <= 4
        &&& no_empty_text(self.characters)
        &&& self.objective.len() > 0
        &&& 2 <= self.challenges.len() <= 4
        &&& no_empty_text(self.challenges)
    }

    /// The adventure is one that the tables give for `settings`: the place
    /// and the characters are of the genre, the objective and the
    /// challenges are of the genre and phrased for the difficulty, and the
    /// length decides how many characters and challenges there are.
    pub open spec fn composed_from(self, settings: AdventureSettings) -> bool {
        &&& location_names(settings.genre).contains(self.location)
        &&& self.characters.len() == settings.length.spec_count()
        &&& all_from(self.characters, archetype_names(settings.genre))
        &&& is_objective(settings.genre, settings.difficulty, self.objective)
        &&& self.challenges.len() == settings.length.spec_count()
        &&& forall|i: int|
            0 <= i < self.challenges.len() ==> is_challenge(
                settings.genre,
                settings.difficulty,
                #[trigger] self.challenges[i],
            )
    }
}

/// No text of `table` is empty.
pub open spec fn no_empty_text(table: Seq<Seq<char>>) -> bool {
    forall|i: int| 0 <= i < table.len() ==> (#[trigger] table[i]).len() > 0
}

/// The lines of a bulleted list, one for each item, in order.
pub open spec fn bullets(items: Seq<Seq<char>>) -> Seq<char>
    decreases items.len(),
{
    if items.len() == 0 {
        Seq::empty()
    } else {
        bullets(items.drop_last()) + "- "@ + items.last() + "\n"@
    }
}

/// The text form of an adventure: the place, the characters as a bulleted
/// list under their heading, the objective, and the challenges as a
/// bulleted list under theirs, with an empty line between the parts.
pub open spec fn render_text(adventure: AdventureView) -> Seq<char> {
    "Location: "@ + adventure.location + "\n"@ + "\nCharacters:\n"@ + bullets(
        adventure.characters,
    ) + "\nObjective: "@ + adventure.objective + "\n"@ + "\nChallenges:\n"@ + bullets(
        adventure.challenges,
    )
}

/// The texts that a table of string slices holds.
pub open spec fn views(items: Seq<&'static str>) -> Seq<Seq<char>> {
    Seq::new(items.len(), |i: int| items[i]@)
}

/// Every one of `items` stands somewhere in `table`.
pub open spec fn all_from(items: Seq<Seq<char>>, table: Seq<Seq<char>>) -> bool {
    forall|i: int| 0 <= i < items.len() ==> table.contains(#[trigger] items[i])
}

/// The places an adventure of a genre can be set in.
pub open spec fn location_names(genre: Genre) -> Seq<Seq<char>> {
    match genre {
        Genre::Fantasy => seq![
            "Ancient Elven Forest"@,
            "Dwarven Mountain Stronghold"@,
            "Mystical Floating Islands"@,
            "Cursed Swamplands"@,
            "Dragon's Lair Caverns"@,
            "Enchanted Crystal Caves"@,
        ],
        Genre::SciFi => seq![
            "Abandoned Space Station"@,
            "Alien Megacity"@,
            "Terraformed Mars Colony"@,
            "Interdimensional Nexus"@,
            "Quantum Realm Laboratory"@,
            "Cybernetic Underworld"@,
        ],
        Genre::Horror => seq![
            "Decrepit Victorian Mansion"@,
            "Fog-Shrouded Graveyard"@,
            "Abandoned Asylum"@,
            "Cursed Ancient Tomb"@,
            "Nightmarish Dreamscape"@,
            "Haunted Ghost Ship"@,
        ],
    }
}

/// The kinds of character an adventure of a genre can have.
pub open spec fn archetype_names(genre: Genre) -> Seq<Seq<char>> {
    match genre {
        Genre::Fantasy => seq![
            "Wise Wizard"@,
            "Brave Knight"@,
            "Cunning Rogue"@,
            "Nature-attuned Druid"@,
            "Holy Paladin"@,
            "Mysterious Seer"@,
            "Dwarven Blacksmith"@,
            "Elven Archer"@,
        ],
        Genre::SciFi => seq![
            "AI Construct"@,
            "Cyborg Mercenary"@,
            "Alien Diplomat"@,
            "Rogue Android"@,
            "Psychic Navigator"@,
            "Quantum Engineer"@,
            "Xenobiologist"@,
            "Space Pirate"@,
        ],
        Genre::Horror => seq![
            "Paranormal Investigator"@,
            "Exorcist Priest"@,
            "Haunted Medium"@,
            "Skeptical Scientist"@,
            "Cursed Antique Dealer"@,
            "Amnesiac Survivor"@,
            "Occult Scholar"@,
            "Possessed Child"@,
        ],
    }
}

/// The objectives an adventure of a genre can have, before the difficulty
/// is worked in.
pub open spec fn objective_bases(genre: Genre) -> Seq<Seq<char>> {
    match genre {
        Genre::Fantasy => seq![
            "Recover the lost artifact of immense power"@,
            "Break the curse afflicting the royal bloodline"@,
            "Prevent an ancient evil from awakening"@,
            "Unite warring factions to face a common threat"@,
            "Discover the secret of immortality hidden by the gods"@,
        ],
        Genre::SciFi => seq![
            "Prevent a rogue AI from taking over the galaxy"@,
            "Establish first contact with a newly discovered alien species"@,
            "Retrieve crucial data from a black hole's event horizon"@,
            "Stop a time-traveling assassin from altering history"@,
            "Cure a deadly virus spreading across multiple planets"@,
        ],
        Genre::Horror => seq![
            "Banish an ancient evil entity back to its realm"@,
            "Solve a series of gruesome murders linked to the supernatural"@,
            "Escape a nightmarish realm created by a malevolent being"@,
            "Break a generations-old family curse before it claims another victim"@,
            "Uncover the truth behind a town's dark and bloody history"@,
        ],
    }
}

/// The challenges an adventure of a genre can hold, before the difficulty
/// is worked in.
pub open spec fn challenge_bases(genre: Genre) -> Seq<Seq<char>> {
    match genre {
        Genre::Fantasy => seq![
            "Navigate treacherous terrain"@,
            "Solve ancient riddles"@,
            "Negotiate with temperamental magical creatures"@,
            "Overcome a powerful magical barrier"@,
            "Survive in harsh, uncharted wilderness"@,
            "Infiltrate a heavily guarded fortress"@,
        ],
        Genre::SciFi => seq![
            "Hack into a secure alien database"@,
            "Survive in zero-gravity environments"@,
            "Repair a malfunctioning spacecraft mid-flight"@,
            "Navigate through a dangerous asteroid field"@,
            "Decipher an unknown alien language"@,
            "Neutralize a hostile artificial intelligence"@,
        ],
        Genre::Horror => seq![
            "Maintain sanity while facing eldritch horrors"@,
            "Survive a night in a haunted location"@,
            "Perform a complex exorcism ritual"@,
            "Escape from a labyrinth of nightmares"@,
            "Resist the influence of a corrupting artifact"@,
            "Uncover the truth hidden in fragmented memories"@,
        ],
    }
}

/// What makes a hard challenge harder.
pub open spec fn complication_names() -> Seq<Seq<char>> {
    seq![
        "under extreme time pressure"@,
        "while being hunted"@,
        "with limited resources"@,
        "in complete darkness"@,
        "while protecting vulnerable allies"@,
    ]
}

/// An objective as it reads at a difficulty.
pub open spec fn objective_text(base: Seq<char>, difficulty: Difficulty) -> Seq<char> {
    match difficulty {
        Difficulty::Easy => base + " (with clear guidance and support)"@,
        Difficulty::Medium => base,
        Difficulty::Hard => base + " (while facing numerous obstacles and betrayals)"@,
    }
}

/// A challenge as it reads at a difficulty. Only a hard one names its
/// complication.
pub open spec fn challenge_text(
    base: Seq<char>,
    difficulty: Difficulty,
    complication: Seq<char>,
) -> Seq<char> {
    match difficulty {
        Difficulty::Easy => base + " (with helpful clues)"@,
        Difficulty::Medium => base,
        Difficulty::Hard => base + " ("@ + complication + ")"@,
    }
}

/// `text` is one of a genre's objectives, as it reads at `difficulty`.
pub open spec fn is_objective(genre: Genre, difficulty: Difficulty, text: Seq<char>) -> bool {
    exists|base: Seq<char>|
        objective_bases(genre).contains(base) && text == #[trigger] objective_text(
            base,
            difficulty,
        )
}

/// `text` is one of a genre's challenges, as it reads at `difficulty` with
/// one of the complications.
pub open spec fn is_challenge(genre: Genre, difficulty: Difficulty, text: Seq<char>) -> bool {
    exists|base: Seq<char>, complication: Seq<char>|
        challenge_bases(genre).contains(base) && complication_names().contains(complication)
            && text == #[trigger] challenge_text(base, difficulty, complication)
}

pub fn locations(genre: Genre) -> (table: Vec<&'static str>)
    ensures
        views(table@) == location_names(genre),
{
    match genre {
        Genre::Fantasy => vec![
            "Ancient Elven Forest",
            "Dwarven Mountain Stronghold",
            "Mystical Floating Islands",
            "Cursed Swamplands",
            "Dragon's Lair Caverns",
            "Enchanted Crystal Caves",
        ],
        Genre::SciFi => vec![
            "Abandoned Space Station",
            "Alien Megacity",
            "Terraformed Mars Colony",
            "Interdimensional Nexus",
            "Quantum Realm Laboratory",
            "Cybernetic Underworld",
        ],
        Genre::Horror => vec![
            "Decrepit Victorian Mansion",
            "Fog-Shrouded Graveyard",
            "Abandoned Asylum",
            "Cursed Ancient Tomb",
            "Nightmarish Dreamscape",
            "Haunted Ghost Ship",
        ],
    }
}

pub fn archetypes(genre: Genre) -> (table: Vec<&'static str>)
    ensures
        views(table@) == archetype_names(genre),
{
    match genre {
        Genre::Fantasy => vec![
            "Wise Wizard",
            "Brave Knight",
            "Cunning Rogue",
            "Nature-attuned Druid",
            "Holy Paladin",
            "Mysterious Seer",
            "Dwarven Blacksmith",
            "Elven Archer",
        ],
        Genre::SciFi => vec![
            "AI Construct",
            "Cyborg Mercenary",
            "Alien Diplomat",
            "Rogue Android",
            "Psychic Navigator",
            "Quantum Engineer",
            "Xenobiologist",
            "Space Pirate",
        ],
        Genre::Horror => vec![
            "Paranormal Investigator",
            "Exorcist Priest",
            "Haunted Medium",
            "Skeptical Scientist",
            "Cursed Antique Dealer",
            "Amnesiac Survivor",
            "Occult Scholar",
            "Possessed Child",
        ],
    }
}

pub fn objectives(genre: Genre) -> (table: Vec<&'static str>)
    ensures
        views(table@) == objective_bases(genre),
{
    match genre {
        Genre::Fantasy => vec![
            "Recover the lost artifact of immense power",
            "Break the curse afflicting the royal bloodline",
            "Prevent an ancient evil from awakening",
            "Unite warring factions to face a common threat",
            "Discover the secret of immortality hidden by the gods",
        ],
        Genre::SciFi => vec![
            "Prevent a rogue AI from taking over the galaxy",
            "Establish first contact with a newly discovered alien species",
            "Retrieve crucial data from a black hole's event horizon",
            "Stop a time-traveling assassin from altering history",
            "Cure a deadly virus spreading across multiple planets",
        ],
        Genre::Horror => vec![
            "Banish an ancient evil entity back to its realm",
            "Solve a series of gruesome murders linked to the supernatural",
            "Escape a nightmarish realm created by a malevolent being",
            "Break a generations-old family curse before it claims another victim",
            "Uncover the truth behind a town's dark and bloody history",
        ],
    }
}

pub fn challenges(genre: Genre) -> (table: Vec<&'static str>)
    ensures
        views(table@) == challenge_bases(genre),
{
    match genre {
        Genre::Fantasy => vec![
            "Navigate treacherous terrain",
            "Solve ancient riddles",
            "Negotiate with temperamental magical creatures",
            "Overcome a powerful magical barrier",
            "Survive in harsh, uncharted wilderness",
            "Infiltrate a heavily guarded fortress",
        ],
        Genre::SciFi => vec![
            "Hack into a secure alien database",
            "Survive in zero-gravity environments",
            "Repair a malfunctioning spacecraft mid-flight",
            "Navigate through a dangerous asteroid field",
            "Decipher an unknown alien language",
            "Neutralize a hostile artificial intelligence",
        ],
        Genre::Horror => vec![
            "Maintain sanity while facing eldritch horrors",
            "Survive a night in a haunted location",
            "Perform a complex exorcism ritual",
            "Escape from a labyrinth of nightmares",
            "Resist the influence of a corrupting artifact",
            "Uncover the truth hidden in fragmented memories",
        ],
    }
}

pub fn complications() -> (table: Vec<&'static str>)
    ensures
        views(table@) == complication_names(),
{
    vec![
        "under extreme time pressure",
        "while being hunted",
        "with limited resources",
        "in complete darkness",
        "while protecting vulnerable allies",
    ]
}

/// One entry of a table that is not empty, picked at random.
fn pick_name(table: &Vec<&'static str>, rng: &mut ThreadRng) -> (name: &'static str)
    requires
        views(table@).len() > 0,
    ensures
        views(table@).contains(name@),
{
    match pick_one(table.as_slice(), rng) {
        Some(entry) => {
            proof {
                let i = choose|i: int| 0 <= i < table@.len() && table@[i] == *entry;
                assert(views(table@)[i] == entry@);
            }
            *entry
        },
        None => "",
    }
}

/// The objective `base` as it reads at `difficulty`.
pub fn phrase_objective(base: &str, difficulty: Difficulty) -> (text: String)
    ensures
        text@ == objective_text(base@, difficulty),
{
    let text = String::from_str(base);
    match difficulty {
        Difficulty::Easy => text.concat(" (with clear guidance and support)"),
        Difficulty::Medium => text,
        Difficulty::Hard => text.concat(" (while facing numerous obstacles and betrayals)"),
    }
}

/// The challenge `base` as it reads at `difficulty`, with `complication`
/// where the difficulty calls for one.
pub fn phrase_challenge(base: &str, difficulty: Difficulty, complication: &str) -> (text: String)
    ensures
        text@ == challenge_text(base@, difficulty, complication@),
{
    let text = String::from_str(base);
    match difficulty {
        Difficulty::Easy => text.concat(" (with helpful clues)"),
        Difficulty::Medium => text,
        Difficulty::Hard => text.concat(" (").concat(complication).concat(")"),
    }
}

/// A place of the genre, picked at random.
pub fn generate_location(genre: Genre) -> (location: String)
    ensures
        location_names(genre).contains(location@),
{
    let table = locations(genre);
    let mut rng = rand::thread_rng();
    String::from_str(pick_name(&table, &mut rng))
}

/// As many characters of the genre as the length asks for, each picked at
/// random; one kind may come twice.
pub fn generate_characters(genre: Genre, length: Length) -> (characters: Vec<String>)
    ensures
        characters.deep_view().len() == length.spec_count(),
        all_from(characters.deep_view(), archetype_names(genre)),
{
    let count: usize = length.count();
    let table = archetypes(genre);
    let mut rng = rand::thread_rng();
    let mut characters: Vec<String> = Vec::new();
    let mut i: usize = 0;
    while i < count
        invariant
            i <= count,
            characters@.len() == i,
            views(table@) == archetype_names(genre),
            forall|k: int| 0 <= k < i ==> archetype_names(genre).contains(#[trigger] characters@[k]@),
        decreases count - i,
    {
        let name = pick_name(&table, &mut rng);
        characters.push(String::from_str(name));
        i += 1;
    }
    characters
}

/// An objective of the genre, picked at random and phrased for the
/// difficulty.
pub fn generate_objective(genre: Genre, difficulty: Difficulty) -> (objective: String)
    ensures
        is_objective(genre, difficulty, objective@),
{
    let table = objectives(genre);
    let mut rng = rand::thread_rng();
    let base = pick_name(&table, &mut rng);
    phrase_objective(base, difficulty)
}

/// As many challenges of the genre as the length asks for, each picked at
/// random and phrased for the difficulty; a hard one gets a complication
/// picked at random too.
pub fn generate_challenges(genre: Genre, difficulty: Difficulty, length: Length) -> (challenges:
    Vec<String>)
    ensures
        challenges.deep_view().len() == length.spec_count(),
        forall|i: int|
            0 <= i < challenges.deep_view().len() ==> is_challenge(
                genre,
                difficulty,
                #[trigger] challenges.deep_view()[i],
            ),
{
    let count: usize = length.count();
    let mut rng = rand::thread_rng();
    let table = self::challenges(genre);
    let extras = complications();
    let mut challenges: Vec<String> = Vec::new();
    let mut i: usize = 0;
    while i < count
        invariant
            i <= count,
            challenges@.len() == i,
            views(table@) == challenge_bases(genre),
            views(extras@) == complication_names(),
            forall|k: int| 0 <= k < i ==> is_challenge(genre, difficulty, #[trigger] challenges@[k]@),
        decreases count - i,
    {
        let base = pick_name(&table, &mut rng);
        let challenge = match difficulty {
            Difficulty::Hard => {
                let complication = pick_name(&extras, &mut rng);
                phrase_challenge(base, difficulty, complication)
            },
            _ => {
                proof {
                    let spare = complication_names()[0];
                    assert(complication_names().contains(spare));
                    assert(challenge_text(base@, difficulty, ""@) == challenge_text(
                        base@,
                        difficulty,
                        spare,
                    ));
                }
                phrase_challenge(base, difficulty, "")
            },
        };
        challenges.push(challenge);
        i += 1;
    }
    challenges
}

/// Appends one bulleted line for each item.
fn append_bullets(text: &mut String, items: &Vec<String>)
    ensures
        final(text)@ == old(text)@ + bullets(items.deep_view()),
{
    let ghost all = items.deep_view();
    let mut i: usize = 0;
    while i < items.len()
        invariant
            i <= items.len(),
            all == items.deep_view(),
            text@ == old(text)@ + bullets(all.take(i as int)),
        decreases items.len() - i,
    {
        proof {
            let next = all.take(i + 1);
            assert(next.drop_last() == all.take(i as int));
            assert(next.last() == items@[i as int]@);
            assert(old(text)@ + bullets(next) == old(text)@ + bullets(all.take(i as int)) + "- "@
                + items@[i as int]@ + "\n"@);
        }
        text.append("- ");
        text.append(items[i].as_str());
        text.append("\n");
        i += 1;
    }
    proof {
        assert(all.take(i as int) == all);
    }
}

/// A copy of each text, in order.
fn copy_texts(items: &Vec<String>) -> (copy: Vec<String>)
    ensures
        copy.deep_view() == items.deep_view(),
{
    let mut copy: Vec<String> = Vec::new();
    let mut i: usize = 0;
    while i < items.len()
        invariant
            i <= items.len(),
            copy@.len() == i,
            forall|k: int| 0 <= k < i ==> copy@[k]@ == items@[k]@,
        decreases items.len() - i,
    {
        copy.push(items[i].clone());
        i += 1;
    }
    proof {
        assert(copy.deep_view() =~= items.deep_view());
    }
    copy
}

impl Clone for Adventure {
    fn clone(&self) -> (copy: Self)
        ensures
            copy@ == self@,
    {
        Adventure {
            location: self.location.clone(),
            characters: copy_texts(&self.characters),
            objective: self.objective.clone(),
            challenges: copy_texts(&self.challenges),
        }
    }
}

impl Adventure {
    /// Composes an adventure for `settings` from the tables, at random.
    /// Two calls with the same settings may give different adventures;
    /// each is well formed and of the settings' genre, difficulty and
    /// length.
    pub fn generate(settings: &AdventureSettings) -> (adventure: Self)
        ensures
            adventure@.composed_from(*settings),
            adventure@.characters.len() == settings.length.spec_count(),
            adventure@.challenges.len() == settings.length.spec_count(),
            adventure@.well_formed(),
    {
        let location = generate_location(settings.genre);
        let characters = generate_characters(settings.genre, settings.length);
        let objective = generate_objective(settings.genre, settings.difficulty);
        let challenges = generate_challenges(settings.genre, settings.difficulty, settings.length);
        let adventure = Adventure { location, characters, objective, challenges };
        proof {
            lemma_composed_is_well_formed(adventure@, *settings);
        }
        adventure
    }

    /// The adventure as text, as it is shown on the screen.
    pub fn render(&self) -> (text: String)
        ensures
            text@ == render_text(self@),
    {
        let mut text = String::from_str("Location: ");
        text.append(self.location.as_str());
        text.append("\n");
        text.append("\nCharacters:\n");
        append_bullets(&mut text, &self.characters);
        text.append("\nObjective: ");
        text.append(self.objective.as_str());
        text.append("\n");
        text.append("\nChallenges:\n");
        append_bullets(&mut text, &self.challenges);
        text
    }
}

proof fn lemma_location_names_filled(genre: Genre)
    ensures
        no_empty_text(location_names(genre)),
{
    reveal_strlit("Ancient Elven Forest");
    reveal_strlit("Dwarven Mountain Stronghold");
    reveal_strlit("Mystical Floating Islands");
    reveal_strlit("Cursed Swamplands");
    reveal_strlit("Dragon's Lair Caverns");
    reveal_strlit("Enchanted Crystal Caves");
    reveal_strlit("Abandoned Space Station");
    reveal_strlit("Alien Megacity");
    reveal_strlit("Terraformed Mars Colony");
    reveal_strlit("Interdimensional Nexus");
    reveal_strlit("Quantum Realm Laboratory");
    reveal_strlit("Cybernetic Underworld");
    reveal_strlit("Decrepit Victorian Mansion");
    reveal_strlit("Fog-Shrouded Graveyard");
    reveal_strlit("Abandoned Asylum");
    reveal_strlit("Cursed Ancient Tomb");
    reveal_strlit("Nightmarish Dreamscape");
    reveal_strlit("Haunted Ghost Ship");
}

proof fn lemma_archetype_names_filled(genre: Genre)
    ensures
        no_empty_text(archetype_names(genre)),
{
    reveal_strlit("Wise Wizard");
    reveal_strlit("Brave Knight");
    reveal_strlit("Cunning Rogue");
    reveal_strlit("Nature-attuned Druid");
    reveal_strlit("Holy Paladin");
    reveal_strlit("Mysterious Seer");
    reveal_strlit("Dwarven Blacksmith");
    reveal_strlit("Elven Archer");
    reveal_strlit("AI Construct");
    reveal_strlit("Cyborg Mercenary");
    reveal_strlit("Alien Diplomat");
    reveal_strlit("Rogue Android");
    reveal_strlit("Psychic Navigator");
    reveal_strlit("Quantum Engineer");
    reveal_strlit("Xenobiologist");
    reveal_strlit("Space Pirate");
    reveal_strlit("Paranormal Investigator");
    reveal_strlit("Exorcist Priest");
    reveal_strlit("Haunted Medium");
    reveal_strlit("Skeptical Scientist");
    reveal_strlit("Cursed Antique Dealer");
    reveal_strlit("Amnesiac Survivor");
    reveal_strlit("Occult Scholar");
    reveal_strlit("Possessed Child");
}

proof fn lemma_objective_bases_filled(genre: Genre)
    ensures
        no_empty_text(objective_bases(genre)),
{
    reveal_strlit("Recover the lost artifact of immense power");
    reveal_strlit("Break the curse afflicting the royal bloodline");
    reveal_strlit("Prevent an ancient evil from awakening");
    reveal_strlit("Unite warring factions to face a common threat");
    reveal_strlit("Discover the secret of immortality hidden by the gods");
    reveal_strlit("Prevent a rogue AI from taking over the galaxy");
    reveal_strlit("Establish first contact with a newly discovered alien species");
    reveal_strlit("Retrieve crucial data from a black hole's event horizon");
    reveal_strlit("Stop a time-traveling assassin from altering history");
    reveal_strlit("Cure a deadly virus spreading across multiple planets");
    reveal_strlit("Banish an ancient evil entity back to its realm");
    reveal_strlit("Solve a series of gruesome murders linked to the supernatural");
    reveal_strlit("Escape a nightmarish realm created by a malevolent being");
    reveal_strlit("Break a generations-old family curse before it claims another victim");
    reveal_strlit("Uncover the truth behind a town's dark and bloody history");
}

proof fn lemma_challenge_bases_filled(genre: Genre)
    ensures
        no_empty_text(challenge_bases(genre)),
{
    reveal_strlit("Navigate treacherous terrain");
    reveal_strlit("Solve ancient riddles");
    reveal_strlit("Negotiate with temperamental magical creatures");
    reveal_strlit("Overcome a powerful magical barrier");
    reveal_strlit("Survive in harsh, uncharted wilderness");
    reveal_strlit("Infiltrate a heavily guarded fortress");
    reveal_strlit("Hack into a secure alien database");
    reveal_strlit("Survive in zero-gravity environments");
    reveal_strlit("Repair a malfunctioning spacecraft mid-flight");
    reveal_strlit("Navigate through a dangerous asteroid field");
    reveal_strlit("Decipher an unknown alien language");
    reveal_strlit("Neutralize a hostile artificial intelligence");
    reveal_strlit("Maintain sanity while facing eldritch horrors");
    reveal_strlit("Survive a night in a haunted location");
    reveal_strlit("Perform a complex exorcism ritual");
    reveal_strlit("Escape from a labyrinth of nightmares");
    reveal_strlit("Resist the influence of a corrupting artifact");
    reveal_strlit("Uncover the truth hidden in fragmented memories");
}

/// Rendering depends on nothing but what the adventure holds: the same
/// adventure renders to the same text, time after time.
pub proof fn lemma_render_is_repeatable(adventure: Adventure, first: String, second: String)
    requires
        first@ == render_text(adventure@),
        second@ == render_text(adventure@),
    ensures
        first@ == second@,
{
}

/// Every adventure that the tables give for some settings is well formed,
/// and has as many characters and as many challenges as the settings'
/// length asks for: two for a short one, three for a medium one, four for a
/// long one.
pub proof fn lemma_composed_is_well_formed(adventure: AdventureView, settings: AdventureSettings)
    requires
        adventure.composed_from(settings),
    ensures
        adventure.well_formed(),
        adventure.characters.len() == settings.length.spec_count(),
        adventure.challenges.len() == settings.length.spec_count(),
        settings.length == Length::Short ==> adventure.characters.len() == 2,
        settings.length == Length::Medium ==> adventure.characters.len() == 3,
        settings.length == Length::Long ==> adventure.characters.len() == 4,
{
    let genre = settings.genre;
    let difficulty = settings.difficulty;
    lemma_location_names_filled(genre);
    lemma_archetype_names_filled(genre);
    lemma_objective_bases_filled(genre);
    lemma_challenge_bases_filled(genre);
    assert(adventure.location.len() > 0) by {
        let i = choose|i: int|
            0 <= i < location_names(genre).len() && location_names(genre)[i]
                == adventure.location;
        assert(location_names(genre)[i].len() > 0);
    }
    assert forall|k: int| 0 <= k < adventure.characters.len() implies (
    #[trigger] adventure.characters[k]).len() > 0 by {
        let text = adventure.characters[k];
        assert(archetype_names(genre).contains(text));
        let i = choose|i: int|
            0 <= i < archetype_names(genre).len() && archetype_names(genre)[i] == text;
        assert(archetype_names(genre)[i].len() > 0);
    }
    assert(adventure.objective.len() > 0) by {
        let base = choose|base: Seq<char>|
            objective_bases(genre).contains(base) && adventure.objective
                == #[trigger] objective_text(base, difficulty);
        let i = choose|i: int|
            0 <= i < objective_bases(genre).len() && objective_bases(genre)[i] == base;
        assert(objective_bases(genre)[i].len() > 0);
    }
    assert forall|k: int| 0 <= k < adventure.challenges.len() implies (
    #[trigger] adventure.challenges[k]).len() > 0 by {
        let text = adventure.challenges[k];
        assert(is_challenge(genre, difficulty, text));
        let (base, complication) = choose|base: Seq<char>, complication: Seq<char>|
            challenge_bases(genre).contains(base) && complication_names().contains(complication)
                && text == #[trigger] challenge_text(base, difficulty, complication);
        let i = choose|i: int|
            0 <= i < challenge_bases(genre).len() && challenge_bases(genre)[i] == base;
        assert(challenge_bases(genre)[i].len() > 0);
    }
}

} // verus!
