//! Board display with pluggable rendering strategies.
//!
//! A [`DisplayStrategy`] says how one square, one rank label, and the file
//! label row are drawn; [`render`] walks the board and stitches the pieces
//! together into one text block. Three strategies exist: half-block pixel
//! art ([`SpriteDisplay`]), chess symbols ([`UnicodeDisplay`]), and plain
//! letters ([`AsciiDisplay`]). The two colored strategies emit ANSI escapes
//! in either truecolor or 256-color form, chosen by [`ColorMode`].

use vstd::prelude::*;

use crate::board::Board;
use crate::chess::{spec_file_char, Color, Piece};
use crate::text::{digit_char, push_char, spec_digit};

verus! {

/// ANSI color depth for terminal output: 24-bit RGB or the xterm palette.
#[derive(Debug, Clone, Copy, PartialEq, Eq, Structural)]
pub enum ColorMode {
    TrueColor,
    Color256,
}

/// Checkerboard square parity. On a standard board the corner square a1 is
/// dark, and neighbors alternate.
#[derive(Debug, Clone, Copy, PartialEq, Eq, Structural)]
pub enum SquareShade {
    Light,
    Dark,
}

/// The selectable rendering strategies.
#[derive(Debug, Clone, Copy, PartialEq, Eq, Structural)]
pub enum DisplayMode {
    Sprite,
    Unicode,
    Ascii,
}

/// The letter a piece shows in plain text: upper case for White, lower case
/// for Black.
pub open spec fn spec_piece_symbol(piece: Piece, color: Color) -> char {
    match color {
        Color::White => match piece {
            Piece::Pawn => 'P',
            Piece::Knight => 'N',
            Piece::Bishop => 'B',
            Piece::Rook => 'R',
            Piece::Queen => 'Q',
            Piece::King => 'K',
        },
        Color::Black => match piece {
            Piece::Pawn => 'p',
            Piece::Knight => 'n',
            Piece::Bishop => 'b',
            Piece::Rook => 'r',
            Piece::Queen => 'q',
            Piece::King => 'k',
        },
    }
}

/// The letter a piece shows in plain text.
pub fn piece_symbol(piece: Piece, color: Color) -> (c: char)
    ensures
        c == spec_piece_symbol(piece, color),
{
    let upper = match piece {
        Piece::Pawn => 'P',
        Piece::Knight => 'N',
        Piece::Bishop => 'B',
        Piece::Rook => 'R',
        Piece::Queen => 'Q',
        Piece::King => 'K',
    };
    match color {
        Color::White => upper,
        Color::Black => match piece {
            Piece::Pawn => 'p',
            Piece::Knight => 'n',
            Piece::Bishop => 'b',
            Piece::Rook => 'r',
            Piece::Queen => 'q',
            Piece::King => 'k',
        },
    }
}

/// The Unicode chess symbol for a piece of a color.
pub open spec fn spec_unicode_symbol(piece: Piece, color: Color) -> char {
    match color {
        Color::White => match piece {
            Piece::King => '♔',
            Piece::Queen => '♕',
            Piece::Rook => '♖',
            Piece::Bishop => '♗',
            Piece::Knight => '♘',
            Piece::Pawn => '♙',
        },
        Color::Black => match piece {
            Piece::King => '♚',
            Piece::Queen => '♛',
            Piece::Rook => '♜',
            Piece::Bishop => '♝',
            Piece::Knight => '♞',
            Piece::Pawn => '♟',
        },
    }
}

/// The Unicode chess symbol for a piece of a color.
pub fn unicode_symbol(piece: Piece, color: Color) -> (c: char)
    ensures
        c == spec_unicode_symbol(piece, color),
{
    match (piece, color) {
        (Piece::King, Color::White) => '♔',
        (Piece::Queen, Color::White) => '♕',
        (Piece::Rook, Color::White) => '♖',
        (Piece::Bishop, Color::White) => '♗',
        (Piece::Knight, Color::White) => '♘',
        (Piece::Pawn, Color::White) => '♙',
        (Piece::King, Color::Black) => '♚',
        (Piece::Queen, Color::Black) => '♛',
        (Piece::Rook, Color::Black) => '♜',
        (Piece::Bishop, Color::Black) => '♝',
        (Piece::Knight, Color::Black) => '♞',
        (Piece::Pawn, Color::Black) => '♟',
    }
}

/// One row of a piece sprite: half-block pixel art, three rows of seven
/// cells per piece.
pub open spec fn spec_sprite_row(piece: Piece, row: int) -> Seq<char> {
    match piece {
        Piece::King => if row == 0 {
            "   █   "@
        } else if row == 1 {
            "  ▀█▀  "@
        } else {
            "  ▀▀▀  "@
        },
        Piece::Queen => if row == 0 {
            "  ▄ ▄  "@
        } else if row == 1 {
            "  ▀█▀  "@
        } else {
            "  ▀▀▀  "@
        },
        Piece::Rook => if row == 0 {
            " ▄ ▄ ▄ "@
        } else if row == 1 {
            "  ███  "@
        } else {
            "  ▀▀▀  "@
        },
        Piece::Bishop => if row == 0 {
            "   ▄   "@
        } else if row == 1 {
            "  ▄█▄  "@
        } else {
            "  ▀▀▀  "@
        },
        Piece::Knight => if row == 0 {
            "  ▄▄▄  "@
        } else if row == 1 {
            "  ██   "@
        } else {
            "  ▀    "@
        },
        Piece::Pawn => if row == 0 {
            "       "@
        } else if row == 1 {
            "  ▄█▄  "@
        } else {
            "  ▀▀▀  "@
        },
    }
}

/// The three sprite rows of a piece.
pub fn sprite_for(piece: Piece) -> (r: [&'static str; 3])
    ensures
        forall|i: int| 0 <= i < 3 ==> r@[i]@ == spec_sprite_row(piece, i),
{
    let r = match piece {
        Piece::King => ["   █   ", "  ▀█▀  ", "  ▀▀▀  "],
        Piece::Queen => ["  ▄ ▄  ", "  ▀█▀  ", "  ▀▀▀  "],
        Piece::Rook => [" ▄ ▄ ▄ ", "  ███  ", "  ▀▀▀  "],
        Piece::Bishop => ["   ▄   ", "  ▄█▄  ", "  ▀▀▀  "],
        Piece::Knight => ["  ▄▄▄  ", "  ██   ", "  ▀    "],
        Piece::Pawn => ["       ", "  ▄█▄  ", "  ▀▀▀  "],
    };
    proof {
        assert(forall|i: int| 0 <= i < 3 ==> r@[i]@ == spec_sprite_row(piece, i));
    }
    r
}

/// One sprite row of a piece, as render loops consume it.
pub fn sprite_row(piece: Piece, row: usize) -> (s: &'static str)
    requires
        row < 3,
    ensures
        s@ == spec_sprite_row(piece, row as int),
{
    let rows = sprite_for(piece);
    rows[row]
}

/// The shade of a square: a1 is dark and neighbors alternate.
pub open spec fn spec_square_shade(file: int, rank: int) -> SquareShade {
    if (file + rank) % 2 != 0 {
        SquareShade::Light
    } else {
        SquareShade::Dark
    }
}

/// The shade of a square.
pub fn square_shade(file: u8, rank: u8) -> (s: SquareShade)
    requires
        file < 8,
        rank < 8,
    ensures
        s == spec_square_shade(file as int, rank as int),
{
    if (file + rank) % 2 != 0 {
        SquareShade::Light
    } else {
        SquareShade::Dark
    }
}

/// The ANSI reset escape that ends every colored run.
pub open spec fn spec_reset() -> Seq<char> {
    "\u{1b}[0m"@
}

/// The ANSI foreground escape for a piece color.
pub open spec fn spec_piece_foreground(color: Color, mode: ColorMode) -> Seq<char> {
    match (color, mode) {
        (Color::White, ColorMode::TrueColor) => "\u{1b}[38;2;255;255;255m"@,
        (Color::Black, ColorMode::TrueColor) => "\u{1b}[38;2;0;0;0m"@,
        (Color::White, ColorMode::Color256) => "\u{1b}[38;5;231m"@,
        (Color::Black, ColorMode::Color256) => "\u{1b}[38;5;16m"@,
    }
}

/// The ANSI foreground escape for a piece color (white or black fill).
pub fn piece_foreground(color: Color, mode: ColorMode) -> (s: &'static str)
    ensures
        s@ == spec_piece_foreground(color, mode),
{
    match (color, mode) {
        (Color::White, ColorMode::TrueColor) => "\u{1b}[38;2;255;255;255m",
        (Color::Black, ColorMode::TrueColor) => "\u{1b}[38;2;0;0;0m",
        (Color::White, ColorMode::Color256) => "\u{1b}[38;5;231m",
        (Color::Black, ColorMode::Color256) => "\u{1b}[38;5;16m",
    }
}

/// The ANSI background escape for a square shade.
pub open spec fn spec_square_background(shade: SquareShade, mode: ColorMode) -> Seq<char> {
    match (shade, mode) {
        (SquareShade::Light, ColorMode::TrueColor) => "\u{1b}[48;2;235;236;208m"@,
        (SquareShade::Dark, ColorMode::TrueColor) => "\u{1b}[48;2;119;149;86m"@,
        (SquareShade::Light, ColorMode::Color256) => "\u{1b}[48;5;187m"@,
        (SquareShade::Dark, ColorMode::Color256) => "\u{1b}[48;5;65m"@,
    }
}

/// The ANSI background escape for a square shade (light or dark board
/// colors).
pub fn square_background(shade: SquareShade, mode: ColorMode) -> (s: &'static str)
    ensures
        s@ == spec_square_background(shade, mode),
{
    match (shade, mode) {
        (SquareShade::Light, ColorMode::TrueColor) => "\u{1b}[48;2;235;236;208m",
        (SquareShade::Dark, ColorMode::TrueColor) => "\u{1b}[48;2;119;149;86m",
        (SquareShade::Light, ColorMode::Color256) => "\u{1b}[48;5;187m",
        (SquareShade::Dark, ColorMode::Color256) => "\u{1b}[48;5;65m",
    }
}

/// The ANSI foreground escape for rank and file labels (muted gray).
pub open spec fn spec_label_foreground(mode: ColorMode) -> Seq<char> {
    match mode {
        ColorMode::TrueColor => "\u{1b}[38;2;150;150;150m"@,
        ColorMode::Color256 => "\u{1b}[38;5;248m"@,
    }
}

/// The ANSI foreground escape for rank and file labels.
pub fn label_foreground(mode: ColorMode) -> (s: &'static str)
    ensures
        s@ == spec_label_foreground(mode),
{
    match mode {
        ColorMode::TrueColor => "\u{1b}[38;2;150;150;150m",
        ColorMode::Color256 => "\u{1b}[38;5;248m",
    }
}

/// The color mode named by the COLORTERM convention: "truecolor" and
/// "24bit" mean 24-bit color, anything else falls back to the 256-color
/// palette.
pub open spec fn spec_color_mode(s: Seq<char>) -> ColorMode {
    if s == "truecolor"@ || s == "24bit"@ {
        ColorMode::TrueColor
    } else {
        ColorMode::Color256
    }
}

/// Picks the color mode from a COLORTERM value.
pub fn color_mode_from_env(colorterm: &str) -> (m: ColorMode)
    ensures
        m == spec_color_mode(colorterm@),
{
    let chars = crate::text::chars_of(colorterm);
    if crate::text::eq_chars(&chars, "truecolor") || crate::text::eq_chars(&chars, "24bit") {
        ColorMode::TrueColor
    } else {
        ColorMode::Color256
    }
}

/// The display mode named by a command word, if any.
pub open spec fn spec_display_mode(s: Seq<char>) -> Option<DisplayMode> {
    if s == "sprite"@ {
        Some(DisplayMode::Sprite)
    } else if s == "unicode"@ {
        Some(DisplayMode::Unicode)
    } else if s == "ascii"@ {
        Some(DisplayMode::Ascii)
    } else {
        None
    }
}

/// Picks a display mode from its command word.
pub fn parse_display_mode(value: &str) -> (m: Option<DisplayMode>)
    ensures
        m == spec_display_mode(value@),
{
    let chars = crate::text::chars_of(value);
    if crate::text::eq_chars(&chars, "sprite") {
        Some(DisplayMode::Sprite)
    } else if crate::text::eq_chars(&chars, "unicode") {
        Some(DisplayMode::Unicode)
    } else if crate::text::eq_chars(&chars, "ascii") {
        Some(DisplayMode::Ascii)
    } else {
        None
    }
}

/// The file letter for a 0-indexed file, as render loops consume it.
fn file_label(file: u8) -> (c: char)
    requires
        file < 8,
    ensures
        c == spec_file_char(file as int),
{
    match file {
        0 => 'a',
        1 => 'b',
        2 => 'c',
        3 => 'd',
        4 => 'e',
        5 => 'f',
        6 => 'g',
        _ => 'h',
    }
}

/// Rendering strategy for board display: how one square row, one rank
/// label, and the file label row are drawn, each pinned down by its own
/// specification function.
pub trait DisplayStrategy {
    /// The number of text rows one square occupies.
    spec fn spec_height(&self) -> int;

    /// The number of text columns one square occupies.
    spec fn spec_width(&self) -> int;

    /// The characters drawn for one row of one square.
    spec fn spec_square_row(
        &self,
        square: Option<(Piece, Color)>,
        shade: SquareShade,
        row: int,
    ) -> Seq<char>;

    /// The characters drawn for one row of a rank label.
    spec fn spec_rank_label(&self, rank: int, row: int) -> Seq<char>;

    /// The characters of the file label row, newline included.
    spec fn spec_file_labels(&self) -> Seq<char>;

    fn square_height(&self) -> (h: usize)
        ensures
            h as int == self.spec_height(),
            1 <= h <= 3,
    ;

    fn square_width(&self) -> (w: usize)
        ensures
            w as int == self.spec_width(),
    ;

    fn render_square_row(
        &self,
        square: Option<(Piece, Color)>,
        shade: SquareShade,
        row: usize,
    ) -> (s: String)
        requires
            row < self.spec_height(),
        ensures
            s@ == self.spec_square_row(square, shade, row as int),
    ;

    fn render_rank_label(&self, rank: u8, row: usize) -> (s: String)
        requires
            rank < 8,
            row < self.spec_height(),
        ensures
            s@ == self.spec_rank_label(rank as int, row as int),
    ;

    fn render_file_labels(&self) -> (s: String)
        ensures
            s@ == self.spec_file_labels(),
    ;
}

/// Plain ASCII display: letters for pieces, dots for empty squares, no
/// colors at all.
pub struct AsciiDisplay;

impl DisplayStrategy for AsciiDisplay {
    open spec fn spec_height(&self) -> int {
        1
    }

    open spec fn spec_width(&self) -> int {
        3
    }

    open spec fn spec_square_row(
        &self,
        square: Option<(Piece, Color)>,
        shade: SquareShade,
        row: int,
    ) -> Seq<char> {
        match square {
            None => " . "@,
            Some((piece, color)) => seq![' ', spec_piece_symbol(piece, color), ' '],
        }
    }

    open spec fn spec_rank_label(&self, rank: int, row: int) -> Seq<char> {
        seq![' ', spec_digit(rank + 1), ' ']
    }

    open spec fn spec_file_labels(&self) -> Seq<char> {
        "    a  b  c  d  e  f  g  h \n"@
    }

    fn square_height(&self) -> usize {
        1
    }

    fn square_width(&self) -> usize {
        3
    }

    fn render_square_row(
        &self,
        square: Option<(Piece, Color)>,
        shade: SquareShade,
        row: usize,
    ) -> (s: String) {
        match square {
            None => String::from_str(" . "),
            Some((piece, color)) => {
                let mut s = String::new();
                push_char(&mut s, ' ');
                push_char(&mut s, piece_symbol(piece, color));
                push_char(&mut s, ' ');
                proof {
                    assert(s@ =~= seq![' ', spec_piece_symbol(piece, color), ' ']);
                }
                s
            },
        }
    }

    fn render_rank_label(&self, rank: u8, row: usize) -> (s: String) {
        let mut s = String::new();
        push_char(&mut s, ' ');
        push_char(&mut s, digit_char((rank + 1) as usize));
        push_char(&mut s, ' ');
        proof {
            assert(s@ =~= seq![' ', spec_digit(rank + 1), ' ']);
        }
        s
    }

    fn render_file_labels(&self) -> (s: String) {
        String::from_str("    a  b  c  d  e  f  g  h \n")
    }
}

/// Half-block pixel art display with ANSI colored backgrounds: each square
/// is seven characters wide and three rows tall.
pub struct SpriteDisplay {
    pub color_mode: ColorMode,
}

impl SpriteDisplay {
    pub fn new(color_mode: ColorMode) -> (r: SpriteDisplay)
        ensures
            r.color_mode == color_mode,
    {
        SpriteDisplay { color_mode }
    }
}

/// The sprite strategy's file label row from a given file onward.
pub open spec fn spec_sprite_labels_from(mode: ColorMode, file: int) -> Seq<char>
    decreases 8 - file,
{
    if file < 0 || file >= 8 {
        "\n"@
    } else {
        spec_label_foreground(mode) + "   "@ + seq![spec_file_char(file)] + "   "@ + spec_reset()
            + spec_sprite_labels_from(mode, file + 1)
    }
}

impl DisplayStrategy for SpriteDisplay {
    open spec fn spec_height(&self) -> int {
        3
    }

    open spec fn spec_width(&self) -> int {
        7
    }

    open spec fn spec_square_row(
        &self,
        square: Option<(Piece, Color)>,
        shade: SquareShade,
        row: int,
    ) -> Seq<char> {
        spec_square_background(shade, self.color_mode) + (match square {
            None => "       "@,
            Some((piece, color)) => spec_piece_foreground(color, self.color_mode)
                + spec_sprite_row(piece, row),
        }) + spec_reset()
    }

    open spec fn spec_rank_label(&self, rank: int, row: int) -> Seq<char> {
        if row == 1 {
            spec_label_foreground(self.color_mode) + seq![' ', spec_digit(rank + 1), ' ']
                + spec_reset()
        } else {
            "   "@
        }
    }

    open spec fn spec_file_labels(&self) -> Seq<char> {
        "   "@ + spec_sprite_labels_from(self.color_mode, 0)
    }

    fn square_height(&self) -> usize {
        3
    }

    fn square_width(&self) -> usize {
        7
    }

    fn render_square_row(
        &self,
        square: Option<(Piece, Color)>,
        shade: SquareShade,
        row: usize,
    ) -> (s: String) {
        let mut s = String::from_str(square_background(shade, self.color_mode));
        match square {
            None => s.append("       "),
            Some((piece, color)) => {
                s.append(piece_foreground(color, self.color_mode));
                s.append(sprite_row(piece, row));
            },
        }
        s.append("\u{1b}[0m");
        proof {
            assert(s@ =~= self.spec_square_row(square, shade, row as int));
        }
        s
    }

    fn render_rank_label(&self, rank: u8, row: usize) -> (s: String) {
        if row == 1 {
            let mut s = String::from_str(label_foreground(self.color_mode));
            push_char(&mut s, ' ');
            push_char(&mut s, digit_char((rank + 1) as usize));
            push_char(&mut s, ' ');
            s.append("\u{1b}[0m");
            proof {
                assert(s@ =~= self.spec_rank_label(rank as int, row as int));
            }
            s
        } else {
            String::from_str("   ")
        }
    }

    fn render_file_labels(&self) -> (s: String) {
        let mut s = String::from_str("   ");
        let mut file: u8 = 0;
        while file < 8
            invariant
                file <= 8,
                s@ + spec_sprite_labels_from(self.color_mode, file as int)
                    == self.spec_file_labels(),
            decreases 8 - file,
        {
            s.append(label_foreground(self.color_mode));
            s.append("   ");
            push_char(&mut s, file_label(file));
            s.append("   ");
            s.append("\u{1b}[0m");
            file = file + 1;
        }
        s.append("\n");
        proof {
            assert(s@ =~= self.spec_file_labels());
        }
        s
    }
}

/// Unicode chess symbol display with ANSI colored backgrounds: each square
/// is three characters wide on one row.
pub struct UnicodeDisplay {
    pub color_mode: ColorMode,
}

impl UnicodeDisplay {
    pub fn new(color_mode: ColorMode) -> (r: UnicodeDisplay)
        ensures
            r.color_mode == color_mode,
    {
        UnicodeDisplay { color_mode }
    }
}

/// The unicode strategy's file label row from a given file onward.
pub open spec fn spec_unicode_labels_from(mode: ColorMode, file: int) -> Seq<char>
    decreases 8 - file,
{
    if file < 0 || file >= 8 {
        "\n"@
    } else {
        spec_label_foreground(mode) + seq![' ', spec_file_char(file), ' '] + spec_reset()
            + spec_unicode_labels_from(mode, file + 1)
    }
}

impl DisplayStrategy for UnicodeDisplay {
    open spec fn spec_height(&self) -> int {
        1
    }

    open spec fn spec_width(&self) -> int {
        3
    }

    open spec fn spec_square_row(
        &self,
        square: Option<(Piece, Color)>,
        shade: SquareShade,
        row: int,
    ) -> Seq<char> {
        spec_square_background(shade, self.color_mode) + (match square {
            None => "   "@,
            Some((piece, color)) => spec_piece_foreground(color, self.color_mode) + seq![
                ' ',
                spec_unicode_symbol(piece, color),
                ' ',
            ],
        }) + spec_reset()
    }

    open spec fn spec_rank_label(&self, rank: int, row: int) -> Seq<char> {
        spec_label_foreground(self.color_mode) + seq![' ', spec_digit(rank + 1), ' ']
            + spec_reset()
    }

    open spec fn spec_file_labels(&self) -> Seq<char> {
        "   "@ + spec_unicode_labels_from(self.color_mode, 0)
    }

    fn square_height(&self) -> usize {
        1
    }

    fn square_width(&self) -> usize {
        3
    }

    fn render_square_row(
        &self,
        square: Option<(Piece, Color)>,
        shade: SquareShade,
        row: usize,
    ) -> (s: String) {
        let mut s = String::from_str(square_background(shade, self.color_mode));
        match square {
            None => s.append("   "),
            Some((piece, color)) => {
                s.append(piece_foreground(color, self.color_mode));
                push_char(&mut s, ' ');
                push_char(&mut s, unicode_symbol(piece, color));
                push_char(&mut s, ' ');
            },
        }
        s.append("\u{1b}[0m");
        proof {
            assert(s@ =~= self.spec_square_row(square, shade, row as int));
        }
        s
    }

    fn render_rank_label(&self, rank: u8, row: usize) -> (s: String) {
        let mut s = String::from_str(label_foreground(self.color_mode));
        push_char(&mut s, ' ');
        push_char(&mut s, digit_char((rank + 1) as usize));
        push_char(&mut s, ' ');
        s.append("\u{1b}[0m");
        proof {
            assert(s@ =~= self.spec_rank_label(rank as int, row as int));
        }
        s
    }

    fn render_file_labels(&self) -> (s: String) {
        let mut s = String::from_str("   ");
        let mut file: u8 = 0;
        while file < 8
            invariant
                file <= 8,
                s@ + spec_unicode_labels_from(self.color_mode, file as int)
                    == self.spec_file_labels(),
            decreases 8 - file,
        {
            s.append(label_foreground(self.color_mode));
            push_char(&mut s, ' ');
            push_char(&mut s, file_label(file));
            push_char(&mut s, ' ');
            s.append("\u{1b}[0m");
            file = file + 1;
        }
        s.append("\n");
        proof {
            assert(s@ =~= self.spec_file_labels());
        }
        s
    }
}

/// One board row of squares, from `file` to the right edge.
pub open spec fn spec_cells_row<S: DisplayStrategy>(
    b: Board,
    strat: &S,
    rank: int,
    row: int,
    file: int,
) -> Seq<char>
    decreases 8 - file,
{
    if file < 0 || file >= 8 {
        Seq::empty()
    } else {
        strat.spec_square_row(b.at(file, rank), spec_square_shade(file, rank), row)
            + spec_cells_row(b, strat, rank, row, file + 1)
    }
}

/// The text lines of one rank, from `row` down, each ending in a newline.
pub open spec fn spec_rank_rows<S: DisplayStrategy>(
    b: Board,
    strat: &S,
    rank: int,
    row: int,
) -> Seq<char>
    decreases strat.spec_height() - row,
{
    if row < 0 || row >= strat.spec_height() {
        Seq::empty()
    } else {
        strat.spec_rank_label(rank, row) + spec_cells_row(b, strat, rank, row, 0) + seq!['\n']
            + spec_rank_rows(b, strat, rank, row + 1)
    }
}

/// The text of the board from `rank` down to rank 0.
pub open spec fn spec_ranks_down<S: DisplayStrategy>(b: Board, strat: &S, rank: int) -> Seq<char>
    decreases rank + 1,
{
    if rank < 0 {
        Seq::empty()
    } else {
        spec_rank_rows(b, strat, rank, 0) + spec_ranks_down(b, strat, rank - 1)
    }
}

/// The whole rendered board: ranks 8 down to 1, then the file labels.
pub open spec fn spec_render<S: DisplayStrategy>(b: Board, strat: &S) -> Seq<char> {
    spec_ranks_down(b, strat, 7) + strat.spec_file_labels()
}

/// Renders the whole board with the given strategy: ranks from the top down,
/// each as `square_height` text lines, then one row of file labels.
pub fn render<S: DisplayStrategy>(board: &Board, strategy: &S) -> (out: String)
    ensures
        out@ == spec_render(*board, strategy),
{
    let height = strategy.square_height();
    let mut out = String::new();
    let mut i: u8 = 0;
    while i < 8
        invariant
            i <= 8,
            height as int == strategy.spec_height(),
            1 <= height <= 3,
            spec_render(*board, strategy) == out@ + spec_ranks_down(*board, strategy, 7 - i)
                + strategy.spec_file_labels(),
        decreases 8 - i,
    {
        let rank = 7 - i;
        let ghost rest_ranks = spec_ranks_down(*board, strategy, rank - 1 as int);
        proof {
            assert(out@ + spec_ranks_down(*board, strategy, rank as int)
                + strategy.spec_file_labels() =~= out@ + (spec_rank_rows(
                *board,
                strategy,
                rank as int,
                0,
            ) + rest_ranks) + strategy.spec_file_labels());
        }
        let mut row: usize = 0;
        while row < height
            invariant
                row <= height,
                rank == 7 - i,
                i < 8,
                height as int == strategy.spec_height(),
                1 <= height <= 3,
                rest_ranks == spec_ranks_down(*board, strategy, rank - 1 as int),
                spec_render(*board, strategy) == out@ + spec_rank_rows(
                    *board,
                    strategy,
                    rank as int,
                    row as int,
                ) + rest_ranks + strategy.spec_file_labels(),
            decreases height - row,
        {
            let label = strategy.render_rank_label(rank, row);
            out.append(label.as_str());
            let mut file: u8 = 0;
            while file < 8
                invariant
                    file <= 8,
                    rank < 8,
                    row < height,
                    height as int == strategy.spec_height(),
                    spec_render(*board, strategy) == out@ + spec_cells_row(
                        *board,
                        strategy,
                        rank as int,
                        row as int,
                        file as int,
                    ) + seq!['\n'] + spec_rank_rows(*board, strategy, rank as int, row + 1)
                        + rest_ranks + strategy.spec_file_labels(),
                decreases 8 - file,
            {
                let shade = square_shade(file, rank);
                let square = board.get(file, rank);
                let cell = strategy.render_square_row(square, shade, row);
                out.append(cell.as_str());
                file = file + 1;
            }
            push_char(&mut out, '\n');
            proof {
                assert(spec_cells_row(*board, strategy, rank as int, row as int, 8) =~= Seq::<
                    char,
                >::empty());
            }
            row = row + 1;
        }
        proof {
            assert(spec_rank_rows(*board, strategy, rank as int, height as int) =~= Seq::<
                char,
            >::empty());
        }
        i = i + 1;
    }
    proof {
        assert(spec_ranks_down(*board, strategy, -1) =~= Seq::<char>::empty());
    }
    let labels = strategy.render_file_labels();
    out.append(labels.as_str());
    out
}

/// A heap-allocated strategy chosen at runtime, so a caller can swap
/// rendering styles behind one trait object.
pub fn create_strategy(mode: DisplayMode, color_mode: ColorMode) -> Box<dyn DisplayStrategy> {
    match mode {
        DisplayMode::Sprite => Box::new(SpriteDisplay::new(color_mode)),
        DisplayMode::Unicode => Box::new(UnicodeDisplay::new(color_mode)),
        DisplayMode::Ascii => Box::new(AsciiDisplay),
    }
}

/// One rank's cells in the plain text block, each " x" or " .", ending in a
/// newline.
pub open spec fn spec_text_cells(b: Board, rank: int, file: int) -> Seq<char>
    decreases 8 - file,
{
    if file < 0 || file >= 8 {
        seq!['\n']
    } else {
        seq![
            ' ',
            match b.at(file, rank) {
                Some((piece, color)) => spec_piece_symbol(piece, color),
                None => '.',
            },
        ] + spec_text_cells(b, rank, file + 1)
    }
}

/// The plain text block from `rank` down: labeled rank lines, then the frame
/// and the file letters.
pub open spec fn spec_text_ranks(b: Board, rank: int) -> Seq<char>
    decreases rank + 1,
{
    if rank < 0 {
        "    +----------------\n      a b c d e f g h\n"@
    } else {
        seq![' ', ' ', spec_digit(rank + 1), ' ', '|'] + spec_text_cells(b, rank, 0)
            + spec_text_ranks(b, rank - 1)
    }
}

/// The board as a plain text block: one line per rank from the top down,
/// then a frame line and the file letters.
pub fn board_text(board: &Board) -> (out: String)
    ensures
        out@ == spec_text_ranks(*board, 7),
{
    let mut out = String::new();
    let mut i: u8 = 0;
    while i < 8
        invariant
            i <= 8,
            spec_text_ranks(*board, 7) == out@ + spec_text_ranks(*board, 7 - i),
        decreases 8 - i,
    {
        let rank = 7 - i;
        push_char(&mut out, ' ');
        push_char(&mut out, ' ');
        push_char(&mut out, digit_char((rank + 1) as usize));
        push_char(&mut out, ' ');
        push_char(&mut out, '|');
        let mut file: u8 = 0;
        while file < 8
            invariant
                file <= 8,
                rank == 7 - i,
                i < 8,
                spec_text_ranks(*board, 7) == out@ + spec_text_cells(
                    *board,
                    rank as int,
                    file as int,
                ) + spec_text_ranks(*board, rank - 1 as int),
            decreases 8 - file,
        {
            push_char(&mut out, ' ');
            match board.get(file, rank) {
                Some((piece, color)) => push_char(&mut out, piece_symbol(piece, color)),
                None => push_char(&mut out, '.'),
            }
            file = file + 1;
        }
        push_char(&mut out, '\n');
        i = i + 1;
    }
    out.append("    +----------------\n      a b c d e f g h\n");
    out
}

} // verus!
