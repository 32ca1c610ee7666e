//! The exchange with a remote text generator: the request's wording and the
//! reading of its reply. Sending and receiving are left to the caller.

use crate::adventure::{Adventure, AdventureView};
use crate::game_state::AdventureSettings;
use crate::text::{
    chars_of, has_no, is_blank, is_trimmed, join, lemma_split_joined,
    lemma_split_without_separator, lemma_trim_after_blank, lemma_trim_of_trimmed, split,
    split_text, trim, trim_each, trim_text,
};
use vstd::prelude::*;

verus! {

/// Why a generation gave no adventure.
#[derive(Clone, Copy, PartialEq, Eq, Debug, Structural)]
pub enum GenerationFailure {
    /// The generator could not be reached, or the exchange broke off.
    Transport,
    /// The generator answered, but not with a reply that can be read.
    MalformedResponse,
}

/// Where the generator listens.
pub const ENDPOINT: &'static str = "http://localhost:8080/v1/chat/completions";

/// The model that the generator is asked for.
pub const MODEL: &'static str = "gpt-4";

/// The role under which the request's wording is sent.
pub const ROLE: &'static str = "user";

/// What stands for a field that the reply does not give.
pub open spec fn sentinel() -> Seq<char> {
    "Unknown"@
}

/// The wording of a request for an adventure of the given genre, difficulty
/// and length.
pub open spec fn prompt_text(genre: Seq<char>, difficulty: Seq<char>, length: Seq<char>) -> Seq<
    char,
> {
    "Gennerate an adventure with the following settings:\nGenre: "@ + genre + "\nDifficulty: "@
        + difficulty + "\nLength: "@ + length
        + "\n\nProvide the following details:\n1. Location\n2. Characters (comma-separated)\n3. Objective\n4. Challenges (comma-separated)"@
}

/// What a line says under `label`: the rest of the line after the label,
/// trimmed, where the trimmed line begins with the label.
pub open spec fn labelled_value(line: Seq<char>, label: Seq<char>) -> Option<Seq<char>> {
    let content = trim(line);
    if label.is_prefix_of(content) {
        Some(trim(content.skip(label.len() as int)))
    } else {
        None
    }
}

/// What the first line with `label` says under it, if any line has the
/// label.
pub open spec fn field_value(lines: Seq<Seq<char>>, label: Seq<char>) -> Option<Seq<char>>
    decreases lines.len(),
{
    if lines.len() == 0 {
        None
    } else {
        match labelled_value(lines[0], label) {
            Some(value) => Some(value),
            None => field_value(lines.drop_first(), label),
        }
    }
}

/// A field of the reply as text: the sentinel where no line has the label.
pub open spec fn text_field(lines: Seq<Seq<char>>, label: Seq<char>) -> Seq<char> {
    match field_value(lines, label) {
        Some(value) => value,
        None => sentinel(),
    }
}

/// A field of the reply as a list: the field's text, split at commas, each
/// item trimmed.
pub open spec fn list_field(lines: Seq<Seq<char>>, label: Seq<char>) -> Seq<Seq<char>> {
    trim_each(split(text_field(lines, label), ','))
}

/// The adventure that a reply describes. Each field is looked for on a line
/// of its own, under its label; a field without such a line holds the
/// sentinel.
pub open spec fn parsed_reply(reply: Seq<char>) -> AdventureView {
    let lines = split(reply, '\n');
    AdventureView {
        location: text_field(lines, "Location:"@),
        characters: list_field(lines, "Characters:"@),
        objective: text_field(lines, "Objective:"@),
        challenges: list_field(lines, "Challenges:"@),
    }
}

/// The request's wording for the genre, difficulty and length as named.
pub fn prompt(genre: &str, difficulty: &str, length: &str) -> (content: String)
    ensures
        content@ == prompt_text(genre@, difficulty@, length@),
{
    String::from_str("Gennerate an adventure with the following settings:\nGenre: ").concat(
        genre,
    ).concat("\nDifficulty: ").concat(difficulty).concat("\nLength: ").concat(length).concat(
        "\n\nProvide the following details:\n1. Location\n2. Characters (comma-separated)\n3. Objective\n4. Challenges (comma-separated)",
    )
}

/// The request's wording for `settings`, each value under its name.
pub fn prompt_for(settings: &AdventureSettings) -> (content: String)
    ensures
        content@ == prompt_text(
            settings.genre.spec_name(),
            settings.difficulty.spec_name(),
            settings.length.spec_name(),
        ),
{
    prompt(settings.genre.name(), settings.difficulty.name(), settings.length.name())
}

/// The text of the generator's answer: that of its first choice. An answer
/// without a choice is malformed.
pub fn first_reply(choices: Vec<String>) -> (reply: Result<String, GenerationFailure>)
    ensures
        choices@.len() == 0 ==> reply == Err::<String, GenerationFailure>(
            GenerationFailure::MalformedResponse,
        ),
        choices@.len() > 0 ==> reply == Ok::<String, GenerationFailure>(choices@[0]),
{
    let mut choices = choices;
    if choices.len() == 0 {
        Err(GenerationFailure::MalformedResponse)
    } else {
        Ok(choices.swap_remove(0))
    }
}

/// Whether a text begins with another.
pub fn begins_with(s: &Vec<char>, prefix: &Vec<char>) -> (found: bool)
    ensures
        found == prefix@.is_prefix_of(s@),
{
    if prefix.len() > s.len() {
        return false;
    }
    let mut i: usize = 0;
    while i < prefix.len()
        invariant
            i <= prefix.len() <= s.len(),
            forall|k: int| 0 <= k < i ==> s@[k] == prefix@[k],
        decreases prefix.len() - i,
    {
        if s[i] != prefix[i] {
            proof {
                assert(s@.subrange(0, prefix@.len() as int)[i as int] != prefix@[i as int]);
            }
            return false;
        }
        i += 1;
    }
    proof {
        assert(s@.subrange(0, prefix@.len() as int) == prefix@);
    }
    true
}

/// What `line` says under `label`, if it begins with the label.
pub fn read_labelled(line: &str, label: &str) -> (value: Option<String>)
    ensures
        value.deep_view() == labelled_value(line@, label@),
{
    let content = trim_text(line);
    let chars = chars_of(content.as_str());
    let label_chars = chars_of(label);
    if begins_with(&chars, &label_chars) {
        let rest = content.as_str().substring_char(label_chars.len(), chars.len());
        proof {
            assert(content@.subrange(label@.len() as int, content@.len() as int) == content@.skip(
                label@.len() as int,
            ));
        }
        Some(trim_text(rest))
    } else {
        None
    }
}

/// What the first of `lines` with `label` says under it.
pub fn read_field(lines: &Vec<String>, label: &str) -> (value: Option<String>)
    ensures
        value.deep_view() == field_value(lines.deep_view(), label@),
{
    let ghost all = lines.deep_view();
    let mut i: usize = 0;
    proof {
        assert(all.skip(0) == all);
    }
    while i < lines.len()
        invariant
            i <= lines.len(),
            all == lines.deep_view(),
            field_value(all, label@) == field_value(all.skip(i as int), label@),
        decreases lines.len() - i,
    {
        let found = read_labelled(lines[i].as_str(), label);
        proof {
            let rest = all.skip(i as int);
            assert(rest[0] == lines@[i as int]@);
            assert(rest.drop_first() == all.skip(i + 1));
        }
        if found.is_some() {
            return found;
        }
        i += 1;
    }
    None
}

/// A field of the reply as text.
fn read_text(lines: &Vec<String>, label: &str) -> (value: String)
    ensures
        value@ == text_field(lines.deep_view(), label@),
{
    match read_field(lines, label) {
        Some(value) => value,
        None => String::from_str("Unknown"),
    }
}

/// A field of the reply as a list.
fn read_list(lines: &Vec<String>, label: &str) -> (items: Vec<String>)
    ensures
        items.deep_view() == list_field(lines.deep_view(), label@),
{
    let value = read_text(lines, label);
    let raw = split_text(value.as_str(), ',');
    let mut items: Vec<String> = Vec::new();
    let mut i: usize = 0;
    while i < raw.len()
        invariant
            i <= raw.len(),
            items@.len() == i,
            forall|k: int| 0 <= k < i ==> items@[k]@ == trim(raw@[k]@),
        decreases raw.len() - i,
    {
        items.push(trim_text(raw[i].as_str()));
        i += 1;
    }
    proof {
        assert(items.deep_view() =~= trim_each(raw.deep_view()));
    }
    items
}

/// Reads the adventure that a reply describes. Never fails: a field that
/// the reply does not give holds the sentinel.
pub fn parse_adventure(reply: &str) -> (adventure: Adventure)
    ensures
        adventure@ == parsed_reply(reply@),
{
    let lines = split_text(reply, '\n');
    Adventure {
        location: read_text(&lines, "Location:"),
        characters: read_list(&lines, "Characters:"),
        objective: read_text(&lines, "Objective:"),
        challenges: read_list(&lines, "Challenges:"),
    }
}

/// A text that a reply can carry as a field: not empty, without blanks at
/// its ends and without a line break.
pub open spec fn fits_line(s: Seq<char>) -> bool {
    s.len() > 0 && is_trimmed(s) && has_no(s, '\n')
}

/// Texts that a reply can carry as a list: at least one, and each of them a
/// text that fits a line and holds no comma.
pub open spec fn fits_list(items: Seq<Seq<char>>) -> bool {
    &&& items.len() > 0
    &&& forall|i: int| 0 <= i < items.len() ==> fits_line(#[trigger] items[i])
    &&& forall|i: int| 0 <= i < items.len() ==> has_no(#[trigger] items[i], ',')
}

/// A line of a reply: the label, a space, and what the line says.
pub open spec fn reply_line(label: Seq<char>, value: Seq<char>) -> Seq<char> {
    label.push(' ') + value
}

/// The items of a list as a line says them: with a comma and a space
/// between each two.
pub open spec fn listed(items: Seq<Seq<char>>) -> Seq<char> {
    join(items, seq![',', ' '])
}

/// The reply in the form that the generator is expected to keep to: the
/// four fields, each on a line of its own under its label, the lists with
/// commas between their items.
pub open spec fn reply_text(adventure: AdventureView) -> Seq<char> {
    ((reply_line("Location:"@, adventure.location).push('\n') + reply_line(
        "Characters:"@,
        listed(adventure.characters),
    )).push('\n') + reply_line("Objective:"@, adventure.objective)).push('\n') + reply_line(
        "Challenges:"@,
        listed(adventure.challenges),
    )
}

/// A list as a line says it fits a line, where its items do.
proof fn lemma_listed_fits_line(items: Seq<Seq<char>>)
    requires
        fits_list(items),
    ensures
        fits_line(listed(items)),
    decreases items.len(),
{
    if items.len() > 1 {
        let front = items.drop_last();
        assert(fits_list(front)) by {
            assert forall|i: int| 0 <= i < front.len() implies fits_line(#[trigger] front[i])
                && has_no(front[i], ',') by {
                assert(front[i] == items[i]);
            }
        }
        lemma_listed_fits_line(front);
        let whole = listed(items);
        let before = listed(front);
        let last = items.last();
        assert(fits_line(last));
        assert(whole == before + seq![',', ' '] + last);
        assert(whole.first() == before.first());
        assert(whole.last() == last.last());
        assert forall|i: int| 0 <= i < whole.len() implies whole[i] != '\n' by {
            if i < before.len() {
                assert(whole[i] == before[i]);
            } else if i >= before.len() + 2 {
                assert(whole[i] == last[i - before.len() - 2]);
            }
        }
    } else {
        assert(fits_line(items[0]));
    }
}

/// The pieces of a list as a line says it, trimmed, are the list's items.
proof fn lemma_listed_splits_back(items: Seq<Seq<char>>)
    requires
        fits_list(items),
    ensures
        split(listed(items), ',').len() == items.len(),
        split(listed(items), ',')[0] == items[0],
        forall|i: int|
            1 <= i < items.len() ==> #[trigger] split(listed(items), ',')[i] == seq![' ']
                + items[i],
        trim_each(split(listed(items), ',')) == items,
    decreases items.len(),
{
    let pieces = split(listed(items), ',');
    if items.len() > 1 {
        let front = items.drop_last();
        assert(fits_list(front)) by {
            assert forall|i: int| 0 <= i < front.len() implies fits_line(#[trigger] front[i])
                && has_no(front[i], ',') by {
                assert(front[i] == items[i]);
            }
        }
        lemma_listed_splits_back(front);
        let before = listed(front);
        let last = items.last();
        let more = seq![' '] + last;
        assert(has_no(last, ','));
        assert(has_no(more, ',')) by {
            assert forall|i: int| 0 <= i < more.len() implies more[i] != ',' by {
                if i > 0 {
                    assert(more[i] == last[i - 1]);
                }
            }
        }
        assert(listed(items) == before.push(',') + more);
        lemma_split_joined(before, more, ',');
        assert(pieces == split(before, ',').push(more));
        assert forall|i: int| 1 <= i < items.len() implies #[trigger] pieces[i] == seq![' ']
            + items[i] by {
            if i < front.len() {
                assert(pieces[i] == split(before, ',')[i]);
                assert(front[i] == items[i]);
            }
        }
        assert(pieces[0] == split(before, ',')[0]);
    } else {
        assert(has_no(items[0], ','));
        lemma_split_without_separator(items[0], ',');
    }
    assert forall|i: int| 0 <= i < items.len() implies trim(pieces[i]) == items[i] by {
        assert(fits_line(items[i]));
        if i == 0 {
            lemma_trim_of_trimmed(items[0]);
        } else {
            lemma_trim_after_blank(' ', items[i]);
        }
    }
    assert(trim_each(pieces) =~= items);
}

/// A line in the expected form holds no line break, where neither its
/// label nor what it says does.
proof fn lemma_line_is_one_line(label: Seq<char>, value: Seq<char>)
    requires
        has_no(label, '\n'),
        has_no(value, '\n'),
    ensures
        has_no(reply_line(label, value), '\n'),
{
    let line = reply_line(label, value);
    assert forall|i: int| 0 <= i < line.len() implies line[i] != '\n' by {
        if i < label.len() {
            assert(line[i] == label[i]);
        } else if i > label.len() {
            assert(line[i] == value[i - label.len() - 1]);
        }
    }
}

/// A line in the expected form says under its label what was put there.
proof fn lemma_line_reads_back(label: Seq<char>, value: Seq<char>)
    requires
        label.len() > 0,
        !is_blank(label.first()),
        value.len() > 0,
        is_trimmed(value),
    ensures
        trim(reply_line(label, value)) == reply_line(label, value),
        labelled_value(reply_line(label, value), label) == Some(value),
{
    let line = reply_line(label, value);
    assert(line.first() == label.first());
    assert(line.last() == value.last());
    lemma_trim_of_trimmed(line);
    assert(line.subrange(0, label.len() as int) == label);
    assert(line.skip(label.len() as int) == seq![' '] + value);
    lemma_trim_after_blank(' ', value);
}

/// A line in the expected form says nothing under a label that parts from
/// its own label at some character.
proof fn lemma_line_has_one_label(label: Seq<char>, value: Seq<char>, other: Seq<char>, at: int)
    requires
        label.len() > 0,
        !is_blank(label.first()),
        value.len() > 0,
        is_trimmed(value),
        0 <= at < label.len(),
        0 <= at < other.len(),
        label[at] != other[at],
    ensures
        labelled_value(reply_line(label, value), other) is None,
{
    let line = reply_line(label, value);
    lemma_line_reads_back(label, value);
    assert(line[at] == label[at]);
    if other.len() <= line.len() {
        assert(line.subrange(0, other.len() as int)[at] == line[at]);
    }
}

/// Where a line says something under a label and no line before it does,
/// that is the field's value.
proof fn lemma_field_is_first_labelled(lines: Seq<Seq<char>>, label: Seq<char>, at: int)
    requires
        0 <= at < lines.len(),
        labelled_value(lines[at], label) is Some,
        forall|i: int| 0 <= i < at ==> labelled_value(#[trigger] lines[i], label) is None,
    ensures
        field_value(lines, label) == labelled_value(lines[at], label),
    decreases at,
{
    if at > 0 {
        let rest = lines.drop_first();
        assert(rest[at - 1] == lines[at]);
        assert forall|i: int| 0 <= i < at - 1 implies labelled_value(
            #[trigger] rest[i],
            label,
        ) is None by {
            assert(rest[i] == lines[i + 1]);
        }
        lemma_field_is_first_labelled(rest, label, at - 1);
    }
}

/// A reply in the expected form reads back as the adventure it was written
/// for, where each text of the adventure fits a line and no item of a list
/// holds a comma.
pub proof fn lemma_reply_reads_back(adventure: AdventureView)
    requires
        fits_line(adventure.location),
        fits_list(adventure.characters),
        fits_line(adventure.objective),
        fits_list(adventure.challenges),
    ensures
        parsed_reply(reply_text(adventure)) == adventure,
{
    reveal_strlit("Location:");
    reveal_strlit("Characters:");
    reveal_strlit("Objective:");
    reveal_strlit("Challenges:");
    let location = "Location:"@;
    let characters = "Characters:"@;
    let objective = "Objective:"@;
    let challenges = "Challenges:"@;
    let cast = listed(adventure.characters);
    let trials = listed(adventure.challenges);
    lemma_listed_fits_line(adventure.characters);
    lemma_listed_fits_line(adventure.challenges);
    let first = reply_line(location, adventure.location);
    let second = reply_line(characters, cast);
    let third = reply_line(objective, adventure.objective);
    let fourth = reply_line(challenges, trials);
    let lines = seq![first, second, third, fourth];

    assert(split(reply_text(adventure), '\n') == lines) by {
        lemma_line_is_one_line(location, adventure.location);
        lemma_line_is_one_line(characters, cast);
        lemma_line_is_one_line(objective, adventure.objective);
        lemma_line_is_one_line(challenges, trials);
        lemma_split_without_separator(first, '\n');
        lemma_split_joined(first, second, '\n');
        lemma_split_joined(first.push('\n') + second, third, '\n');
        lemma_split_joined((first.push('\n') + second).push('\n') + third, fourth, '\n');
    }

    lemma_line_reads_back(location, adventure.location);
    lemma_field_is_first_labelled(lines, location, 0);

    lemma_line_has_one_label(location, adventure.location, characters, 0);
    lemma_line_reads_back(characters, cast);
    lemma_field_is_first_labelled(lines, characters, 1);
    lemma_listed_splits_back(adventure.characters);

    lemma_line_has_one_label(location, adventure.location, objective, 0);
    lemma_line_has_one_label(characters, cast, objective, 0);
    lemma_line_reads_back(objective, adventure.objective);
    lemma_field_is_first_labelled(lines, objective, 2);

    lemma_line_has_one_label(location, adventure.location, challenges, 0);
    lemma_line_has_one_label(characters, cast, challenges, 3);
    lemma_line_has_one_label(objective, adventure.objective, challenges, 0);
    lemma_line_reads_back(challenges, trials);
    lemma_field_is_first_labelled(lines, challenges, 3);
    lemma_listed_splits_back(adventure.challenges);
}

} // verus!
