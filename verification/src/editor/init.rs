use vstd::prelude::*;
use crate::utils::screen::Screen;
use crate::utils::text::{append_chars, append_repeated, chars_of, repeated, string_of};

verus! {

/// What is drawn once, when the editor starts.
pub struct EditorInit;

/// The border: the number of rows that get a two-column mark at the left
/// edge, from the top row down, and the blank text of the bottom row.
pub struct RenderedBorder {
    pub side_rows: usize,
    pub bottom: String,
}

impl EditorInit {
    /// The name of the editor with its version.
    pub open spec fn title_text(version: Seq<char>) -> Seq<char> {
        "REditor v"@ + version
    }

    /// The title row: the title, with as many spaces before it as centre
    /// it in `width` columns, and spaces behind it up to the terminal's
    /// width.
    pub open spec fn title_row(version: Seq<char>, width: int, term_width: int) -> Seq<char> {
        let title = Self::title_text(version);
        let padding = (width - title.len()) / 2;
        repeated(' ', padding as nat) + title + repeated(
            ' ',
            (term_width - title.len() - padding) as nat,
        )
    }

    /// The title row for a terminal whose width `screen` holds.
    pub fn display_title(width: usize, version: &str, screen: &Screen) -> (row: String)
        requires
            Self::title_text(version@).len() <= width,
            Self::title_text(version@).len() + (width - Self::title_text(version@).len()) / 2
                <= screen.width,
        ensures
            row@ == Self::title_row(version@, width as int, screen.width as int),
            row@.len() == screen.width,
    {
        let term_width = screen.width();
        let mut title_str = chars_of("REditor v");
        let version_chars = chars_of(version);
        append_chars(&mut title_str, &version_chars);
        let padding = (width - title_str.len()) / 2;
        let mut row: Vec<char> = Vec::new();
        append_repeated(&mut row, ' ', padding);
        append_chars(&mut row, &title_str);
        append_repeated(&mut row, ' ', term_width - title_str.len() - padding);
        assert(row@ =~= Self::title_row(version@, width as int, screen.width as int));
        string_of(&row)
    }

    /// The border for a terminal whose height `screen` holds, with a
    /// bottom row of `width` columns. The cursor goes to the left end of
    /// the first row below the title.
    pub fn display_border(width: usize, screen: &mut Screen) -> (border: RenderedBorder)
        requires
            old(screen).height >= 1,
        ensures
            border.side_rows == old(screen).height - 1,
            border.bottom@ == repeated(' ', width as nat),
            *final(screen) == (Screen { row: 1, col: 0, ..*old(screen) }),
    {
        let mut bottom: Vec<char> = Vec::new();
        append_repeated(&mut bottom, ' ', width);
        assert(bottom@ =~= repeated(' ', width as nat));
        // move cursor to left-top of edit area
        screen.move_to_row(1);
        screen.move_to_col(0);
        RenderedBorder { side_rows: screen.height() - 1, bottom: string_of(&bottom) }
    }
}

} // verus!
