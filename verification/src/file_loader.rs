//! Reading the lines of a `KEY=VALUE` file into a key-value map.

use crate::kv_map::{distinct_keys, lemma_put, map_of, put, Entry, KeyValueMap};
use vstd::prelude::*;

verus! {

/// The character between a key and its value.
pub const SEPARATOR: char = '=';

/// The place of the first `c` in `text`, or the length of `text` where it holds none.
pub open spec fn find(text: Seq<char>, c: char) -> int
    decreases text.len(),
{
    if text.len() == 0 || text[0] == c {
        0
    } else {
        1 + find(text.drop_first(), c)
    }
}

/// `line` without one carriage return at its end.
pub open spec fn without_cr(line: Seq<char>) -> Seq<char> {
    if line.len() > 0 && line.last() == '\r' {
        line.drop_last()
    } else {
        line
    }
}

/// The lines of `text`. A line ends at a line feed, or at a carriage return directly followed
/// by a line feed; neither belongs to the line. What follows the last line feed is a line of its
/// own unless it is empty.
pub open spec fn lines(text: Seq<char>) -> Seq<Seq<char>>
    decreases text.len(),
{
    let end = find(text, '\n');
    if text.len() == 0 {
        Seq::empty()
    } else if 0 <= end < text.len() {
        seq![without_cr(text.subrange(0, end))] + lines(text.subrange(end + 1, text.len() as int))
    } else {
        seq![text]
    }
}

/// The entry that a line gives: what stands before its first separator is the key, what follows
/// it the value. A line without a separator gives none.
pub open spec fn parse_line(line: Seq<char>) -> Option<Entry> {
    let at = find(line, SEPARATOR);
    if 0 <= at < line.len() {
        Some((line.subrange(0, at), line.subrange(at + 1, line.len() as int)))
    } else {
        None
    }
}

/// The entries that a sequence of lines gives, each line's entry set in its turn.
pub open spec fn entries_of(lines: Seq<Seq<char>>) -> Seq<Entry>
    decreases lines.len(),
{
    if lines.len() == 0 {
        Seq::empty()
    } else {
        let before = entries_of(lines.drop_last());
        match parse_line(lines.last()) {
            Some((key, value)) => put(before, key, value),
            None => before,
        }
    }
}

/// The entries that the contents of a file give.
pub open spec fn parse(text: Seq<char>) -> Seq<Entry> {
    entries_of(lines(text))
}

/// `find` gives the place `at` where `c` stands there, or `text` ends there, and no `c` comes
/// before.
pub proof fn lemma_find(text: Seq<char>, c: char, at: int)
    requires
        0 <= at <= text.len(),
        at < text.len() ==> text[at] == c,
        forall|j: int| 0 <= j < at ==> text[j] != c,
    ensures
        find(text, c) == at,
    decreases text.len(),
{
    if at > 0 {
        let rest = text.drop_first();
        assert(text[0] != c);
        assert forall|j: int| 0 <= j < at - 1 implies rest[j] != c by {
            assert(text[j + 1] != c);
        }
        lemma_find(rest, c, at - 1);
    }
}

/// No key stands twice among the entries that a sequence of lines gives.
pub proof fn lemma_entries_of_distinct(lines: Seq<Seq<char>>)
    ensures
        distinct_keys(entries_of(lines)),
    decreases lines.len(),
{
    if lines.len() > 0 {
        lemma_entries_of_distinct(lines.drop_last());
        match parse_line(lines.last()) {
            Some((key, value)) => {
                lemma_put(entries_of(lines.drop_last()), key, value);
            },
            None => {},
        }
    }
}

/// A line with a separator overrides what the lines before it gave its key, and leaves the
/// other keys as they were. A line without a separator changes nothing.
pub proof fn lemma_later_line_wins(before: Seq<Seq<char>>, line: Seq<char>)
    ensures
        map_of(entries_of(before.push(line))) == match parse_line(line) {
            Some((key, value)) => map_of(entries_of(before)).insert(key, value),
            None => map_of(entries_of(before)),
        },
{
    assert(before.push(line).drop_last() =~= before);
    lemma_entries_of_distinct(before);
    match parse_line(line) {
        Some((key, value)) => {
            lemma_put(entries_of(before), key, value);
        },
        None => {},
    }
}

/// Reads the contents of a file into a key-value map. Each line with a separator sets the key
/// before its first separator to the value after it; a later line overrides an earlier one with
/// the same key. Lines without a separator are skipped.
pub fn read_file(contents: &str) -> (map: KeyValueMap)
    ensures
        map.entries() == parse(contents@),
{
    let mut map = KeyValueMap::new();
    let mut key = String::new();
    let mut value = String::new();
    let mut seen_separator = false;
    let mut pending_cr = false;
    let ghost text = contents@;
    let ghost start: int = 0;
    let ghost separator_at: int = 0;
    let ghost done: Seq<Seq<char>> = Seq::empty();
    proof {
        assert(text.subrange(0, text.len() as int) =~= text);
        assert(text.subrange(0, 0) =~= Seq::<char>::empty());
    }
    for c in it: contents.chars()
        invariant
            it.seq() == text,
            0 <= start <= it.index() <= text.len(),
            pending_cr ==> start < it.index() && text[it.index() - 1] == '\r',
            !pending_cr && start < it.index() ==> text[it.index() - 1] != '\r',
            forall|j: int| start <= j < it.index() ==> text[j] != '\n',
            seen_separator ==> {
                &&& start <= separator_at < it.index() - (if pending_cr { 1int } else { 0 })
                &&& text[separator_at] == SEPARATOR
                &&& forall|j: int| start <= j < separator_at ==> text[j] != SEPARATOR
                &&& key@ == text.subrange(start, separator_at)
                &&& value@ == text.subrange(
                    separator_at + 1,
                    it.index() - (if pending_cr { 1int } else { 0 }),
                )
            },
            !seen_separator ==> {
                &&& forall|j: int| start <= j < it.index() ==> text[j] != SEPARATOR
                &&& key@ == text.subrange(start, it.index() - (if pending_cr { 1int } else { 0 }))
                &&& value@ == Seq::<char>::empty()
            },
            lines(text) == done + lines(text.subrange(start, text.len() as int)),
            map.entries() == entries_of(done),
    {
        let ghost at = it.index() as int;
        let ghost end = at - (if pending_cr { 1int } else { 0 });
        if c == '\n' {
            let ghost rest = text.subrange(start, text.len() as int);
            let ghost line = text.subrange(start, end);
            proof {
                lemma_find(rest, '\n', at - start);
                assert(rest.subrange(0, at - start) =~= text.subrange(start, at));
                assert(without_cr(text.subrange(start, at)) =~= line);
                assert(rest.subrange(at - start + 1, rest.len() as int) =~= text.subrange(
                    at + 1,
                    text.len() as int,
                ));
                assert(done.push(line).drop_last() =~= done);
                assert(done + (seq![line] + lines(text.subrange(at + 1, text.len() as int)))
                    =~= done.push(line) + lines(text.subrange(at + 1, text.len() as int)));
                if seen_separator {
                    lemma_find(line, SEPARATOR, separator_at - start);
                    assert(line.subrange(0, separator_at - start) =~= key@);
                    assert(line.subrange(separator_at - start + 1, line.len() as int) =~= value@);
                } else {
                    lemma_find(line, SEPARATOR, line.len() as int);
                }
            }
            if seen_separator {
                map.insert(key, value);
            }
            key = String::new();
            value = String::new();
            seen_separator = false;
            pending_cr = false;
            proof {
                start = at + 1;
                done = done.push(line);
                assert(text.subrange(start, start) =~= Seq::<char>::empty());
            }
        } else {
            if pending_cr {
                if seen_separator {
                    value.push('\r');
                    proof {
                        assert(text.subrange(separator_at + 1, at) =~= text.subrange(
                            separator_at + 1,
                            end,
                        ).push('\r'));
                    }
                } else {
                    key.push('\r');
                    proof {
                        assert(text.subrange(start, at) =~= text.subrange(start, end).push('\r'));
                    }
                }
            }
            if c == '\r' {
                pending_cr = true;
            } else {
                pending_cr = false;
                if !seen_separator && c == SEPARATOR {
                    seen_separator = true;
                    proof {
                        separator_at = at;
                        assert(text.subrange(at + 1, at + 1) =~= Seq::<char>::empty());
                    }
                } else if seen_separator {
                    value.push(c);
                    proof {
                        assert(text.subrange(separator_at + 1, at + 1) =~= text.subrange(
                            separator_at + 1,
                            at,
                        ).push(c));
                    }
                } else {
                    key.push(c);
                    proof {
                        assert(text.subrange(start, at + 1) =~= text.subrange(start, at).push(c));
                    }
                }
            }
        }
    }
    let ghost rest = text.subrange(start, text.len() as int);
    if pending_cr {
        if seen_separator {
            value.push('\r');
            proof {
                assert(text.subrange(separator_at + 1, text.len() as int) =~= text.subrange(
                    separator_at + 1,
                    text.len() - 1,
                ).push('\r'));
            }
        } else {
            key.push('\r');
            proof {
                assert(rest =~= text.subrange(start, text.len() - 1).push('\r'));
            }
        }
    }
    proof {
        lemma_find(rest, '\n', rest.len() as int);
        if rest.len() > 0 {
            assert(done.push(rest).drop_last() =~= done);
            assert(done + seq![rest] =~= done.push(rest));
            if seen_separator {
                lemma_find(rest, SEPARATOR, separator_at - start);
                assert(rest.subrange(0, separator_at - start) =~= key@);
                assert(rest.subrange(separator_at - start + 1, rest.len() as int) =~= value@);
            } else {
                lemma_find(rest, SEPARATOR, rest.len() as int);
            }
        } else {
            assert(done + Seq::<Seq<char>>::empty() =~= done);
        }
    }
    if seen_separator {
        map.insert(key, value);
    }
    map
}

} // verus!
