//! Lines in text: where a line stands, and what putting texts together does
//! to the lines they hold.

use vstd::prelude::*;

verus! {

/// Whether `line` is a line together with the line feed that ends it: it
/// ends in a line feed and holds no other.
pub open spec fn is_line(line: Seq<char>) -> bool {
    &&& line.len() > 0
    &&& line.last() == '\n'
    &&& forall|i: int| 0 <= i < line.len() - 1 ==> line[i] != '\n'
}

/// Whether `text` holds no line feed.
pub open spec fn single_line(text: Seq<char>) -> bool {
    forall|i: int| 0 <= i < text.len() ==> text[i] != '\n'
}

/// Whether `text` ends where a line ends: it is empty or ends in a line feed.
pub open spec fn ends_lines(text: Seq<char>) -> bool {
    text.len() == 0 || text.last() == '\n'
}

/// Whether `line` stands in `text` at offset `at` as a line of its own: at the
/// start of the text or right after a line feed.
pub open spec fn line_at(text: Seq<char>, line: Seq<char>, at: int) -> bool {
    &&& 0 <= at
    &&& at + line.len() <= text.len()
    &&& text.subrange(at, at + line.len()) == line
    &&& (at == 0 || text[at - 1] == '\n')
}

/// Whether `line` is one of the lines of `text`.
pub open spec fn has_line(text: Seq<char>, line: Seq<char>) -> bool {
    exists|at: int| line_at(text, line, at)
}

/// Whether `line` is one of the lines of `text` that follow a line feed of
/// `text` itself, which leaves out a line at its very start.
pub open spec fn line_within(text: Seq<char>, line: Seq<char>) -> bool {
    exists|at: int| at >= 1 && line_at(text, line, at)
}

/// Each character of a line that stands in a text is there in the text.
proof fn line_at_chars(text: Seq<char>, line: Seq<char>, at: int, d: int)
    requires
        line_at(text, line, at),
        0 <= d < line.len(),
    ensures
        text[at + d] == line[d],
{
    assert(text.subrange(at, at + line.len())[d] == text[at + d]);
}

/// Texts that end where lines end do so together.
pub proof fn ends_lines_concat(first: Seq<char>, second: Seq<char>)
    requires
        ends_lines(first),
        ends_lines(second),
    ensures
        ends_lines(first + second),
{
    if second.len() == 0 {
        assert(first + second =~= first);
    }
}

/// Behind a text that ends where a line ends, the lines are those of the
/// two texts.
pub proof fn has_line_concat(first: Seq<char>, second: Seq<char>, line: Seq<char>)
    requires
        ends_lines(first),
        is_line(line),
    ensures
        has_line(first + second, line) <==> has_line(first, line) || has_line(second, line),
{
    let both = first + second;
    let n = line.len() as int;
    if has_line(both, line) {
        let at = choose|at: int| line_at(both, line, at);
        if at + n <= first.len() {
            assert(first.subrange(at, at + n) =~= both.subrange(at, at + n));
            assert(at > 0 ==> first[at - 1] == both[at - 1]);
            assert(line_at(first, line, at));
        } else if at >= first.len() {
            let to = at - first.len();
            assert(second.subrange(to, to + n) =~= both.subrange(at, at + n));
            assert(to > 0 ==> second[to - 1] == both[at - 1]);
            assert(line_at(second, line, to));
        } else {
            let d = first.len() - 1 - at;
            line_at_chars(both, line, at, d);
            assert(both[at + d] == first.last());
            assert(false);
        }
    }
    if has_line(first, line) {
        let at = choose|at: int| line_at(first, line, at);
        assert(both.subrange(at, at + n) =~= first.subrange(at, at + n));
        assert(at > 0 ==> first[at - 1] == both[at - 1]);
        assert(line_at(both, line, at));
    }
    if has_line(second, line) {
        let to = choose|to: int| line_at(second, line, to);
        let at = to + first.len();
        assert(both.subrange(at, at + n) =~= second.subrange(to, to + n));
        assert(to > 0 ==> second[to - 1] == both[at - 1]);
        assert(at > 0 && to == 0 ==> both[at - 1] == first.last());
        assert(line_at(both, line, at));
    }
}

/// A text shorter than a line does not hold it.
pub proof fn short_text_has_no_line(text: Seq<char>, line: Seq<char>)
    requires
        text.len() < line.len(),
    ensures
        !has_line(text, line),
{
}

/// Behind a key that holds no line feed and differs from the line somewhere
/// along its length, a line stands only after a line feed of what follows
/// the key.
pub proof fn has_line_after_key(key: Seq<char>, rest: Seq<char>, line: Seq<char>, d: int)
    requires
        single_line(key),
        0 <= d < key.len(),
        d < line.len(),
        key[d] != line[d],
    ensures
        has_line(key + rest, line) <==> line_within(rest, line),
{
    let both = key + rest;
    let n = line.len() as int;
    if has_line(both, line) {
        let at = choose|at: int| line_at(both, line, at);
        if at == 0 {
            line_at_chars(both, line, at, d);
            assert(both[d] == key[d]);
            assert(false);
        } else if at <= key.len() {
            assert(both[at - 1] == key[at - 1]);
            assert(false);
        } else {
            let to = at - key.len();
            assert(rest.subrange(to, to + n) =~= both.subrange(at, at + n));
            assert(rest[to - 1] == both[at - 1]);
            assert(to >= 1 && line_at(rest, line, to));
        }
    }
    if line_within(rest, line) {
        let to = choose|to: int| to >= 1 && line_at(rest, line, to);
        let at = to + key.len();
        assert(both.subrange(at, at + n) =~= rest.subrange(to, to + n));
        assert(rest[to - 1] == both[at - 1]);
        assert(line_at(both, line, at));
    }
}

/// A text without a line feed, closed by one, holds no line after a line
/// feed of its own.
pub proof fn single_line_holds_none(text: Seq<char>, line: Seq<char>)
    requires
        single_line(text),
        line.len() > 0,
    ensures
        !line_within(text + seq!['\n'], line),
{
    let closed = text + seq!['\n'];
    if line_within(closed, line) {
        let at = choose|at: int| at >= 1 && line_at(closed, line, at);
        assert(closed[at - 1] == text[at - 1]);
    }
}

} // verus!
