//! Text as sequences of characters: trimming and splitting.

use vstd::prelude::*;

verus! {

/// A character that counts as white space at the ends of a text.
pub open spec fn is_blank(c: char) -> bool {
    c == ' ' || c == '\t' || c == '\r' || c == '\n'
}

/// How many blanks a text begins with.
pub open spec fn leading_blanks(s: Seq<char>) -> nat
    decreases s.len(),
{
    if s.len() > 0 && is_blank(s[0]) {
        1 + leading_blanks(s.drop_first())
    } else {
        0
    }
}

/// How many blanks a text ends with.
pub open spec fn trailing_blanks(s: Seq<char>) -> nat
    decreases s.len(),
{
    if s.len() > 0 && is_blank(s.last()) {
        1 + trailing_blanks(s.drop_last())
    } else {
        0
    }
}

/// The text without the blanks at its two ends.
pub open spec fn trim(s: Seq<char>) -> Seq<char> {
    let rest = s.skip(leading_blanks(s) as int);
    rest.take(rest.len() - trailing_blanks(rest))
}

/// The pieces of a text between the occurrences of a separator, in order.
/// A text without the separator is one piece; one that ends with the
/// separator has an empty last piece.
pub open spec fn split(s: Seq<char>, sep: char) -> Seq<Seq<char>>
    decreases s.len(),
{
    if s.len() == 0 {
        seq![Seq::empty()]
    } else {
        let before = split(s.drop_last(), sep);
        if s.last() == sep {
            before.push(Seq::empty())
        } else {
            before.drop_last().push(before.last().push(s.last()))
        }
    }
}

/// Each text of a sequence, trimmed.
pub open spec fn trim_each(items: Seq<Seq<char>>) -> Seq<Seq<char>> {
    Seq::new(items.len(), |i: int| trim(items[i]))
}

/// The pieces put together again, with `sep` between each two.
pub open spec fn join(pieces: Seq<Seq<char>>, sep: Seq<char>) -> Seq<char>
    decreases pieces.len(),
{
    if pieces.len() == 0 {
        Seq::empty()
    } else if pieces.len() == 1 {
        pieces[0]
    } else {
        join(pieces.drop_last(), sep) + sep + pieces.last()
    }
}

/// The character occurs nowhere in the text.
pub open spec fn has_no(s: Seq<char>, c: char) -> bool {
    forall|i: int| 0 <= i < s.len() ==> s[i] != c
}

/// The text neither begins nor ends with a blank.
pub open spec fn is_trimmed(s: Seq<char>) -> bool {
    s.len() == 0 || (!is_blank(s.first()) && !is_blank(s.last()))
}

/// The blanks a text begins with are its first characters, and the
/// character after them, if there is one, is no blank.
pub proof fn lemma_leading_blanks(s: Seq<char>)
    ensures
        leading_blanks(s) <= s.len(),
        forall|i: int| 0 <= i < leading_blanks(s) ==> is_blank(#[trigger] s[i]),
        leading_blanks(s) < s.len() ==> !is_blank(s[leading_blanks(s) as int]),
    decreases s.len(),
{
    if s.len() > 0 && is_blank(s[0]) {
        let rest = s.drop_first();
        lemma_leading_blanks(rest);
        assert forall|i: int| 0 <= i < leading_blanks(s) implies is_blank(#[trigger] s[i]) by {
            if i > 0 {
                assert(s[i] == rest[i - 1]);
            }
        }
        if leading_blanks(s) < s.len() {
            assert(s[leading_blanks(s) as int] == rest[leading_blanks(rest) as int]);
        }
    }
}

/// The blanks a text ends with are its last characters, and the character
/// before them, if there is one, is no blank.
pub proof fn lemma_trailing_blanks(s: Seq<char>)
    ensures
        trailing_blanks(s) <= s.len(),
        forall|i: int| s.len() - trailing_blanks(s) <= i < s.len() ==> is_blank(#[trigger] s[i]),
        trailing_blanks(s) < s.len() ==> !is_blank(s[s.len() - trailing_blanks(s) - 1]),
    decreases s.len(),
{
    if s.len() > 0 && is_blank(s.last()) {
        let rest = s.drop_last();
        lemma_trailing_blanks(rest);
        assert forall|i: int| s.len() - trailing_blanks(s) <= i < s.len() implies is_blank(
            #[trigger] s[i],
        ) by {
            if i < s.len() - 1 {
                assert(s[i] == rest[i]);
            }
        }
        if trailing_blanks(s) < s.len() {
            assert(s[s.len() - trailing_blanks(s) - 1] == rest[rest.len() - trailing_blanks(rest)
                - 1]);
        }
    }
}

/// What trimming leaves is the text between the blanks at its two ends: it
/// neither begins nor ends with a blank, and the blanks and it make up the
/// text.
pub proof fn lemma_trim_is_trimmed(s: Seq<char>)
    ensures
        is_trimmed(trim(s)),
        trim(s).len() <= s.len(),
        trim(s) == s.subrange(
            leading_blanks(s) as int,
            (leading_blanks(s) + trim(s).len()) as int,
        ),
{
    lemma_leading_blanks(s);
    let rest = s.skip(leading_blanks(s) as int);
    lemma_trailing_blanks(rest);
    let kept: int = rest.len() - trailing_blanks(rest);
    assert(trim(s) == rest.take(kept));
    if kept > 0 {
        assert(trim(s).first() == s[leading_blanks(s) as int]);
        assert(trim(s).last() == rest[kept - 1]);
    }
}

/// Trimming leaves a text alone that neither begins nor ends with a blank.
pub proof fn lemma_trim_of_trimmed(s: Seq<char>)
    requires
        is_trimmed(s),
    ensures
        trim(s) == s,
{
    assert(leading_blanks(s) == 0);
    assert(s.skip(0) == s);
    assert(trailing_blanks(s) == 0);
    assert(s.take(s.len() as int) == s);
}

/// Trimming twice is trimming once.
pub proof fn lemma_trim_twice(s: Seq<char>)
    ensures
        trim(trim(s)) == trim(s),
{
    lemma_trim_is_trimmed(s);
    lemma_trim_of_trimmed(trim(s));
}

/// Trimming takes a blank away that stands before a trimmed text.
pub proof fn lemma_trim_after_blank(blank: char, s: Seq<char>)
    requires
        is_blank(blank),
        is_trimmed(s),
    ensures
        trim(seq![blank] + s) == s,
{
    let whole = seq![blank] + s;
    assert(whole[0] == blank);
    assert(whole.drop_first() == s);
    assert(leading_blanks(s) == 0);
    assert(leading_blanks(whole) == 1);
    assert(whole.skip(1) == s);
    assert(trailing_blanks(s) == 0);
    assert(s.take(s.len() as int) == s);
}

/// A split always gives at least one piece.
pub proof fn lemma_split_not_empty(s: Seq<char>, sep: char)
    ensures
        split(s, sep).len() >= 1,
    decreases s.len(),
{
    if s.len() > 0 {
        lemma_split_not_empty(s.drop_last(), sep);
    }
}

/// A text without the separator is its own single piece.
pub proof fn lemma_split_without_separator(s: Seq<char>, sep: char)
    requires
        has_no(s, sep),
    ensures
        split(s, sep) == seq![s],
    decreases s.len(),
{
    if s.len() == 0 {
        assert(s == Seq::<char>::empty());
    } else {
        let front = s.drop_last();
        assert(has_no(front, sep)) by {
            assert forall|i: int| 0 <= i < front.len() implies front[i] != sep by {
                assert(front[i] == s[i]);
            }
        }
        lemma_split_without_separator(front, sep);
        assert(s.last() != sep);
        assert(seq![front].last() == front);
        assert(seq![front].drop_last().push(front.push(s.last())) == seq![s]) by {
            assert(front.push(s.last()) == s);
        }
    }
}

/// Text without the separator, put after a text, goes to the end of that
/// text's last piece.
pub proof fn lemma_split_extended(s: Seq<char>, more: Seq<char>, sep: char)
    requires
        has_no(more, sep),
    ensures
        split(s + more, sep) == split(s, sep).drop_last().push(split(s, sep).last() + more),
    decreases more.len(),
{
    lemma_split_not_empty(s, sep);
    let pieces = split(s, sep);
    if more.len() == 0 {
        assert(s + more == s);
        assert(pieces.last() + more == pieces.last());
        assert(pieces.drop_last().push(pieces.last()) == pieces);
    } else {
        let front = more.drop_last();
        lemma_split_extended(s, front, sep);
        let whole = s + more;
        assert(whole.drop_last() == s + front);
        assert(whole.last() == more.last());
        let before = split(s + front, sep);
        assert(before.last() == pieces.last() + front);
        assert(before.drop_last() == pieces.drop_last());
        assert((pieces.last() + front).push(more.last()) == pieces.last() + more) by {
            assert(front.push(more.last()) == more);
        }
    }
}

/// The pieces of two texts with a separator between them are the pieces of
/// the first, then those of the second, where the second is without the
/// separator.
pub proof fn lemma_split_joined(s: Seq<char>, more: Seq<char>, sep: char)
    requires
        has_no(more, sep),
    ensures
        split(s.push(sep) + more, sep) == split(s, sep).push(more),
{
    let cut = s.push(sep);
    assert(cut.drop_last() == s);
    assert(cut.last() == sep);
    assert(split(cut, sep) == split(s, sep).push(Seq::empty()));
    lemma_split_extended(cut, more, sep);
    assert(split(cut, sep).drop_last() == split(s, sep));
    assert(Seq::<char>::empty() + more == more);
}

/// `String::push` of std appends one character to the end of the string.
pub assume_specification[ String::push ](s: &mut String, c: char)
    ensures
        final(s)@ == old(s)@.push(c),
;

pub fn is_blank_char(c: char) -> (blank: bool)
    ensures
        blank == is_blank(c),
{
    c == ' ' || c == '\t' || c == '\r' || c == '\n'
}

/// The characters of a string slice, for access by position.
pub fn chars_of(s: &str) -> (chars: Vec<char>)
    ensures
        chars@ == s@,
{
    let mut chars: Vec<char> = Vec::new();
    for c in it: s.chars()
        invariant
            it.seq() == s@,
            chars@ == it.seq().take(it.index()),
    {
        chars.push(c);
    }
    chars
}

/// The string without the blanks at its two ends.
pub fn trim_text(s: &str) -> (trimmed: String)
    ensures
        trimmed@ == trim(s@),
{
    let chars = chars_of(s);
    let len: usize = chars.len();
    let mut start: usize = 0;
    proof {
        assert(chars@.skip(0) == chars@);
    }
    while start < len && is_blank_char(chars[start])
        invariant
            start <= len,
            len == chars@.len(),
            leading_blanks(chars@) == start + leading_blanks(chars@.skip(start as int)),
        decreases len - start,
    {
        proof {
            let rest = chars@.skip(start as int);
            assert(rest[0] == chars@[start as int]);
            assert(rest.drop_first() == chars@.skip(start + 1));
        }
        start += 1;
    }
    let ghost rest = chars@.skip(start as int);
    proof {
        if start < len {
            assert(rest[0] == chars@[start as int]);
        }
        assert(leading_blanks(chars@) == start);
        assert(rest.take(len - start) == rest);
    }
    let mut end: usize = len;
    while end > start && is_blank_char(chars[end - 1])
        invariant
            start <= end <= len,
            len == chars@.len(),
            rest == chars@.skip(start as int),
            trailing_blanks(rest) == (len - end) + trailing_blanks(rest.take(end - start)),
        decreases end,
    {
        proof {
            let head = rest.take(end - start);
            assert(head.last() == chars@[end - 1]);
            assert(head.drop_last() == rest.take(end - 1 - start));
        }
        end -= 1;
    }
    proof {
        let head = rest.take(end - start);
        if end > start {
            assert(head.last() == chars@[end - 1]);
        }
        assert(trailing_blanks(rest) == len - end);
        assert(s@.subrange(start as int, end as int) == rest.take(rest.len() - trailing_blanks(
            rest,
        )));
    }
    String::from_str(s.substring_char(start, end))
}

/// The pieces of a string between the occurrences of a separator.
pub fn split_text(s: &str, sep: char) -> (pieces: Vec<String>)
    ensures
        pieces.deep_view() == split(s@, sep),
{
    let chars = chars_of(s);
    let len: usize = chars.len();
    let mut pieces: Vec<String> = Vec::new();
    let mut start: usize = 0;
    let mut i: usize = 0;
    proof {
        assert(s@.take(0) == Seq::<char>::empty());
        assert(s@.subrange(0, 0) == Seq::<char>::empty());
        assert(pieces.deep_view().push(s@.subrange(0, 0)) == seq![Seq::<char>::empty()]);
    }
    while i < len
        invariant
            start <= i <= len,
            len == chars@.len(),
            chars@ == s@,
            split(s@.take(i as int), sep) == pieces.deep_view().push(
                s@.subrange(start as int, i as int),
            ),
        decreases len - i,
    {
        let ghost before = split(s@.take(i as int), sep);
        let ghost done = pieces.deep_view();
        proof {
            let next = s@.take(i + 1);
            assert(next.drop_last() == s@.take(i as int));
            assert(next.last() == s@[i as int]);
            assert(before.drop_last() == done);
            assert(before.last() == s@.subrange(start as int, i as int));
        }
        if chars[i] == sep {
            pieces.push(String::from_str(s.substring_char(start, i)));
            start = i + 1;
            proof {
                assert(pieces.deep_view() == before);
                assert(s@.subrange(start as int, i + 1) == Seq::<char>::empty());
            }
        } else {
            proof {
                assert(s@.subrange(start as int, i as int).push(s@[i as int]) == s@.subrange(
                    start as int,
                    i + 1,
                ));
            }
        }
        i += 1;
    }
    proof {
        assert(s@.take(len as int) == s@);
    }
    let ghost done = pieces.deep_view();
    pieces.push(String::from_str(s.substring_char(start, len)));
    proof {
        assert(pieces.deep_view() == done.push(s@.subrange(start as int, len as int)));
    }
    pieces
}

} // verus!
