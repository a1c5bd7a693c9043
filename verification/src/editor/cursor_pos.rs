use vstd::prelude::*;
use crate::utils::text::{
    append_chars,
    find_char,
    index_of,
    lemma_index_of_at,
    chars_of,
    copy_range,
    decimal,
    decimal_chars,
    decimal_value,
    parse_decimal,
    string_of,
};

verus! {

/// A place in the document: the line and the column, both counted from one.
#[derive(Clone, Copy, Debug, PartialEq, Eq, Structural)]
pub struct EditorCursorPos {
    pub row: usize,
    pub col: usize,
}

impl EditorCursorPos {
    /// The short form of a place: the row, a colon, the column.
    pub open spec fn short_text(self) -> Seq<char> {
        decimal(self.row as nat) + seq![':'] + decimal(self.col as nat)
    }

    /// The long form of a place, as the status bar shows it.
    pub open spec fn long_text(self) -> Seq<char> {
        seq!['L', 'n', ' '] + decimal(self.row as nat) + seq![',', ' ', 'C', 'o', 'l', ' ']
            + decimal(self.col as nat)
    }

    /// The place that a text in the short form names: what stands before
    /// the first colon is the row and what stands behind it the column,
    /// both in decimal. Any other text names no place.
    pub open spec fn parsed(s: Seq<char>) -> Option<EditorCursorPos> {
        let at = index_of(s, ':');
        if at >= s.len() {
            None
        } else {
            match (decimal_value(s.take(at)), decimal_value(s.skip(at + 1))) {
                (Some(row), Some(col)) => if row <= usize::MAX && col <= usize::MAX {
                    Some(EditorCursorPos { row: row as usize, col: col as usize })
                } else {
                    None
                },
                _ => None,
            }
        }
    }

    pub fn short_display(&self) -> (text: String)
        ensures
            text@ == self.short_text(),
    {
        let mut chars = decimal_chars(self.row);
        chars.push(':');
        let col = decimal_chars(self.col);
        append_chars(&mut chars, &col);
        string_of(&chars)
    }

    pub fn long_display(&self) -> (text: String)
        ensures
            text@ == self.long_text(),
    {
        let mut chars: Vec<char> = Vec::new();
        chars.push('L');
        chars.push('n');
        chars.push(' ');
        let row = decimal_chars(self.row);
        append_chars(&mut chars, &row);
        chars.push(',');
        chars.push(' ');
        chars.push('C');
        chars.push('o');
        chars.push('l');
        chars.push(' ');
        let col = decimal_chars(self.col);
        append_chars(&mut chars, &col);
        assert(chars@ =~= self.long_text());
        string_of(&chars)
    }

    /// Reads a place in the short form.
    pub fn parse(str: &str) -> (pos: Option<EditorCursorPos>)
        ensures
            pos == Self::parsed(str@),
    {
        let chars = chars_of(str);
        assert(chars@.skip(0) =~= chars@);
        let at = find_char(&chars, 0, ':');
        if at >= chars.len() {
            return None;
        }
        let row_chars = copy_range(&chars, 0, at);
        let col_chars = copy_range(&chars, at + 1, chars.len());
        assert(row_chars@ =~= chars@.take(at as int));
        assert(col_chars@ =~= chars@.skip(at + 1));
        match (parse_decimal(&row_chars), parse_decimal(&col_chars)) {
            (Some(row), Some(col)) => Some(EditorCursorPos { row, col }),
            _ => None,
        }
    }
}

/// Reading the short form of a place gives back the place.
pub proof fn lemma_parse_short_text(pos: EditorCursorPos)
    ensures
        EditorCursorPos::parsed(pos.short_text()) == Some(pos),
{
    let row = decimal(pos.row as nat);
    let col = decimal(pos.col as nat);
    let s = pos.short_text();
    lemma_decimal_has_no_colon(pos.row as nat);
    lemma_index_of_at(s, ':', row.len() as int);
    assert(s.take(row.len() as int) =~= row);
    assert(s.skip((row.len() + 1) as int) =~= col);
    crate::utils::text::lemma_decimal_round_trip(pos.row as nat);
    crate::utils::text::lemma_decimal_round_trip(pos.col as nat);
}

/// A number written in decimal holds no colon.
pub proof fn lemma_decimal_has_no_colon(n: nat)
    ensures
        forall|i: int| 0 <= i < decimal(n).len() ==> decimal(n)[i] != ':',
    decreases n,
{
    let text = decimal(n);
    if n >= 10 {
        let high = decimal(n / 10);
        lemma_decimal_has_no_colon(n / 10);
        assert forall|i: int| 0 <= i < text.len() implies text[i] != ':' by {
            if i < high.len() {
                assert(text[i] == high[i]);
            }
        }
    } else {
        assert(text[0] != ':');
    }
}

} // verus!
