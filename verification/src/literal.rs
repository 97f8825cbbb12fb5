//! JSON string literals: how a text is written as one, and where one ends.
//!
//! Writing is left to `serde_json`. What it writes is stated here in full,
//! and proved of it is that a literal cannot be left early: whatever the
//! text, reading from the opening quote ends at the closing one.

use vstd::prelude::*;

verus! {

/// The hexadecimal digit of a value below sixteen, in lower case.
pub open spec fn hex_digit(value: int) -> char {
    if value == 0 {
        '0'
    } else if value == 1 {
        '1'
    } else if value == 2 {
        '2'
    } else if value == 3 {
        '3'
    } else if value == 4 {
        '4'
    } else if value == 5 {
        '5'
    } else if value == 6 {
        '6'
    } else if value == 7 {
        '7'
    } else if value == 8 {
        '8'
    } else if value == 9 {
        '9'
    } else if value == 10 {
        'a'
    } else if value == 11 {
        'b'
    } else if value == 12 {
        'c'
    } else if value == 13 {
        'd'
    } else if value == 14 {
        'e'
    } else {
        'f'
    }
}

/// How one character stands inside a JSON string literal: the quote, the
/// backslash and the control characters below U+0020 are escaped, every other
/// character stands for itself.
pub open spec fn escaped(c: char) -> Seq<char> {
    if c == '"' {
        seq!['\\', '"']
    } else if c == '\\' {
        seq!['\\', '\\']
    } else if c == '\u{8}' {
        seq!['\\', 'b']
    } else if c == '\t' {
        seq!['\\', 't']
    } else if c == '\n' {
        seq!['\\', 'n']
    } else if c == '\u{c}' {
        seq!['\\', 'f']
    } else if c == '\r' {
        seq!['\\', 'r']
    } else if (c as u32) < 0x20 {
        seq![
            '\\',
            'u',
            '0',
            '0',
            hex_digit((c as u32) as int / 16),
            hex_digit((c as u32) as int % 16),
        ]
    } else {
        seq![c]
    }
}

/// The characters of a text, each as it stands inside a JSON string literal.
pub open spec fn escaped_text(text: Seq<char>) -> Seq<char>
    decreases text.len(),
{
    if text.len() == 0 {
        Seq::<char>::empty()
    } else {
        escaped(text.first()) + escaped_text(text.drop_first())
    }
}

/// A text as a JSON string literal: its escaped characters between quotes.
pub open spec fn quoted(text: Seq<char>) -> Seq<char> {
    seq!['"'] + escaped_text(text) + seq!['"']
}

/// Where the JSON string literal ends whose inside is being read at `at`:
/// just behind the first quote that no backslash escapes. A backslash takes
/// the character behind it along.
pub open spec fn literal_end(text: Seq<char>, at: int) -> Option<int>
    decreases text.len() - at,
{
    if at < 0 || at >= text.len() {
        None
    } else if text[at] == '"' {
        Some(at + 1)
    } else if text[at] == '\\' {
        if at + 1 < text.len() {
            literal_end(text, at + 2)
        } else {
            None
        }
    } else {
        literal_end(text, at + 1)
    }
}

/// Writes a string as a JSON string literal: the `Display` output of
/// `serde_json::Value::String`, which is serde_json's compact encoding. The
/// contract states its escaping: `\"` and `\\`, the short forms `\b`, `\t`,
/// `\n`, `\f` and `\r`, `\u00` and two lower-case hexadecimal digits for the
/// other characters below U+0020, and nothing else.
#[verifier::external_body]
pub(crate) fn quote(text: &str) -> (literal: String)
    ensures
        literal@ == quoted(text@),
{
    serde_json::Value::String(text.to_owned()).to_string()
}

/// An escaped character is read as a whole: behind it, reading goes on as if
/// it had begun there.
proof fn lemma_escaped_is_read_whole(text: Seq<char>, at: int, c: char)
    requires
        0 <= at,
        at + escaped(c).len() <= text.len(),
        text.subrange(at, at + escaped(c).len()) == escaped(c),
    ensures
        literal_end(text, at) == literal_end(text, at + escaped(c).len()),
{
    let piece = escaped(c);
    assert forall|i: int| 0 <= i < piece.len() implies text[at + i] == piece[i] by {
        assert(text.subrange(at, at + piece.len())[i] == text[at + i]);
    }
    if piece.len() == 1 {
        assert(text[at] == piece[0]);
    } else if piece.len() == 2 {
        assert(text[at] == piece[0]);
    } else {
        assert(text[at] == piece[0]);
        assert(text[at + 2] == piece[2]);
        assert(text[at + 3] == piece[3]);
        assert(text[at + 4] == piece[4]);
        assert(text[at + 5] == piece[5]);
        assert(literal_end(text, at) == literal_end(text, at + 2));
        assert(literal_end(text, at + 2) == literal_end(text, at + 3));
        assert(literal_end(text, at + 3) == literal_end(text, at + 4));
        assert(literal_end(text, at + 4) == literal_end(text, at + 5));
        assert(literal_end(text, at + 5) == literal_end(text, at + 6));
    }
}

/// Escaped text is read to its end, and the quote behind it ends the
/// literal.
proof fn lemma_escaped_text_is_read_whole(text: Seq<char>, at: int, inside: Seq<char>)
    requires
        0 <= at,
        at + escaped_text(inside).len() < text.len(),
        text.subrange(at, at + escaped_text(inside).len()) == escaped_text(inside),
        text[at + escaped_text(inside).len()] == '"',
    ensures
        literal_end(text, at) == Some(at + escaped_text(inside).len() + 1),
    decreases inside.len(),
{
    if inside.len() > 0 {
        let piece = escaped(inside.first());
        let rest = escaped_text(inside.drop_first());
        assert(escaped_text(inside) == piece + rest);
        assert(text.subrange(at, at + piece.len()) =~= piece) by {
            assert(text.subrange(at, at + escaped_text(inside).len()).subrange(
                0,
                piece.len() as int,
            ) =~= piece);
        }
        assert(text.subrange(at + piece.len(), at + piece.len() + rest.len()) =~= rest) by {
            assert(text.subrange(at, at + escaped_text(inside).len()).subrange(
                piece.len() as int,
                (piece.len() + rest.len()) as int,
            ) =~= rest);
        }
        lemma_escaped_is_read_whole(text, at, inside.first());
        lemma_escaped_text_is_read_whole(text, at + piece.len(), inside.drop_first());
    }
}

/// Whatever a text holds, its literal is read from the opening quote to the
/// closing one and no further: nothing in the text ends the literal early,
/// and nothing runs over its end. `before` and `behind` are what stands
/// around the literal.
pub proof fn literal_ends_at_its_closing_quote(
    before: Seq<char>,
    inside: Seq<char>,
    behind: Seq<char>,
)
    ensures
        literal_end(before + quoted(inside) + behind, before.len() as int + 1) == Some(
            before.len() as int + quoted(inside).len(),
        ),
{
    let text = before + quoted(inside) + behind;
    let at = before.len() as int + 1;
    let body = escaped_text(inside);
    assert(quoted(inside).len() == body.len() + 2);
    assert(text.subrange(at, at + body.len()) =~= body);
    assert(text[at + body.len()] == '"');
    lemma_escaped_text_is_read_whole(text, at, inside);
}

} // verus!
