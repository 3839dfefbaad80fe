use vstd::prelude::*;
use vstd::string::*;

verus! {

/// The character that ends a line.
pub const NEWLINE: char = '\n';

/// The mathematical value of a list of strings.
pub open spec fn texts(list: Seq<String>) -> Seq<Seq<char>> {
    list.map_values(|item: String| item@)
}

/// The mathematical value of an optional string.
pub open spec fn optional_text(text: Option<String>) -> Option<Seq<char>> {
    match text {
        Some(s) => Some(s@),
        None => None,
    }
}

/// Whether `needle` stands in `text` at position `at`.
pub open spec fn stands_at(text: Seq<char>, needle: Seq<char>, at: int) -> bool {
    &&& 0 <= at
    &&& at + needle.len() <= text.len()
    &&& text.subrange(at, at + needle.len()) == needle
}

/// Whether `needle` stands somewhere in `text`.
pub open spec fn occurs_in(text: Seq<char>, needle: Seq<char>) -> bool {
    exists|at: int| stands_at(text, needle, at)
}

/// Whether `text` begins with `prefix`.
pub open spec fn begins_with(text: Seq<char>, prefix: Seq<char>) -> bool {
    stands_at(text, prefix, 0)
}

/// The lines of `text` that are not empty, in order, where the line being
/// read began at `start` and has been read up to `at`.
pub open spec fn lines_from(text: Seq<char>, start: int, at: int) -> Seq<Seq<char>>
    decreases text.len() - at,
{
    if at < 0 || start < 0 || start > at {
        Seq::empty()
    } else if at >= text.len() {
        if start < text.len() {
            seq![text.subrange(start, text.len() as int)]
        } else {
            Seq::empty()
        }
    } else if text[at] == NEWLINE {
        if start < at {
            seq![text.subrange(start, at)] + lines_from(text, at + 1, at + 1)
        } else {
            lines_from(text, at + 1, at + 1)
        }
    } else {
        lines_from(text, start, at + 1)
    }
}

/// The lines of `text` that are not empty, in order. A line ends at a
/// newline or at the end of the text.
pub open spec fn nonempty_lines(text: Seq<char>) -> Seq<Seq<char>> {
    lines_from(text, 0, 0)
}

/// The parts from position `from` on, with `separator` between each two.
pub open spec fn joined_from(parts: Seq<Seq<char>>, separator: Seq<char>, from: int) -> Seq<char>
    decreases parts.len() - from,
{
    if from < 0 || from >= parts.len() {
        Seq::empty()
    } else if from == parts.len() - 1 {
        parts[from]
    } else {
        parts[from] + separator + joined_from(parts, separator, from + 1)
    }
}

/// The parts in order, with `separator` between each two.
pub open spec fn joined(parts: Seq<Seq<char>>, separator: Seq<char>) -> Seq<char> {
    joined_from(parts, separator, 0)
}

/// The parts up to position `to`, with `separator` between each two.
pub open spec fn joined_up_to(parts: Seq<Seq<char>>, separator: Seq<char>, to: int) -> Seq<char>
    decreases to,
{
    if to <= 0 || to > parts.len() {
        Seq::empty()
    } else if to == 1 {
        parts[0]
    } else {
        joined_up_to(parts, separator, to - 1) + separator + parts[to - 1]
    }
}

/// Joining from the front and joining towards the back give the same text.
pub proof fn lemma_joined_both_ways(parts: Seq<Seq<char>>, separator: Seq<char>, from: int)
    requires
        0 <= from < parts.len(),
    ensures
        from == 0 ==> joined_from(parts, separator, 0) == joined_up_to(
            parts,
            separator,
            parts.len() as int,
        ),
        from > 0 ==> joined_up_to(parts, separator, from) + separator + joined_from(
            parts,
            separator,
            from,
        ) == joined_up_to(parts, separator, parts.len() as int),
    decreases parts.len() - from,
{
    if from < parts.len() - 1 {
        lemma_joined_both_ways(parts, separator, from + 1);
    }
}

/// The characters of a text, one by one.
pub fn chars_of(text: &str) -> (result: Vec<char>)
    ensures
        result@ == text@,
{
    let length = text.unicode_len();
    let mut result: Vec<char> = Vec::new();
    let mut i: usize = 0;
    while i < length
        invariant
            length == text@.len(),
            i <= length,
            result@ == text@.subrange(0, i as int),
        decreases length - i,
    {
        result.push(text.get_char(i));
        i = i + 1;
    }
    result
}

/// Whether `needle` stands in `text` at position `at`.
fn matches_at(text: &Vec<char>, needle: &Vec<char>, at: usize) -> (result: bool)
    requires
        at + needle@.len() <= text@.len(),
    ensures
        result == stands_at(text@, needle@, at as int),
{
    let length = text.len();
    let mut i: usize = 0;
    while i < needle.len()
        invariant
            i <= needle@.len(),
            length == text@.len(),
            at + needle@.len() <= length,
            forall|j: int| 0 <= j < i ==> text@[at + j] == needle@[j],
        decreases needle@.len() - i,
    {
        if text[at + i] != needle[i] {
            return false;
        }
        i = i + 1;
    }
    assert(text@.subrange(at as int, at + needle@.len()) =~= needle@);
    true
}

/// Whether `text` begins with `prefix`.
pub fn starts_with(text: &str, prefix: &str) -> (result: bool)
    ensures
        result == begins_with(text@, prefix@),
{
    let text_chars = chars_of(text);
    let prefix_chars = chars_of(prefix);
    if prefix_chars.len() > text_chars.len() {
        return false;
    }
    matches_at(&text_chars, &prefix_chars, 0)
}

/// Whether `needle` stands somewhere in `text`.
pub fn contains(text: &str, needle: &str) -> (result: bool)
    ensures
        result == occurs_in(text@, needle@),
{
    let text_chars = chars_of(text);
    let needle_chars = chars_of(needle);
    if needle_chars.len() > text_chars.len() {
        return false;
    }
    let last = text_chars.len() - needle_chars.len();
    let mut at: usize = 0;
    while at < last
        invariant
            at <= last,
            last == text_chars@.len() - needle_chars@.len(),
            text_chars@ == text@,
            needle_chars@ == needle@,
            forall|j: int| 0 <= j < at ==> !stands_at(text@, needle@, j),
        decreases last - at,
    {
        if matches_at(&text_chars, &needle_chars, at) {
            return true;
        }
        at = at + 1;
    }
    matches_at(&text_chars, &needle_chars, last)
}

/// The lines of `text` that are not empty, in order.
pub fn lines_of(text: &str) -> (result: Vec<String>)
    ensures
        texts(result@) == nonempty_lines(text@),
{
    let chars = chars_of(text);
    let mut result: Vec<String> = Vec::new();
    let mut start: usize = 0;
    let mut at: usize = 0;
    while at < chars.len()
        invariant
            chars@ == text@,
            start <= at <= chars@.len(),
            texts(result@) + lines_from(text@, start as int, at as int) == nonempty_lines(text@),
        decreases chars@.len() - at,
    {
        if chars[at] == NEWLINE {
            if start < at {
                result.push(String::from_str(text.substring_char(start, at)));
            }
            start = at + 1;
        }
        at = at + 1;
    }
    if start < at {
        result.push(String::from_str(text.substring_char(start, at)));
    }
    result
}

/// The parts in order, with `separator` between each two.
pub fn join(parts: &Vec<String>, separator: &str) -> (result: String)
    ensures
        result@ == joined(texts(parts@), separator@),
{
    let mut result = String::new();
    let mut i: usize = 0;
    while i < parts.len()
        invariant
            i <= parts@.len(),
            result@ == joined_up_to(texts(parts@), separator@, i as int),
        decreases parts@.len() - i,
    {
        if i > 0 {
            result.append(separator);
        }
        result.append(parts[i].as_str());
        i = i + 1;
    }
    proof {
        if parts@.len() > 0 {
            lemma_joined_both_ways(texts(parts@), separator@, 0);
        }
    }
    result
}

} // verus!
