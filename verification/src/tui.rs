//! The interactive view: board rendering with a move-list sidebar, screen
//! redraw escapes, and the pure decisions of the interactive loop (whose
//! turn it is, threat messages, post-game choices). The loop itself, with
//! its input and output, lives with the program around this library.

use vstd::prelude::*;

use crate::board::Board;
use crate::chess::{Color, Threat};
use crate::display::{spec_cells_row, square_shade, DisplayStrategy};
use crate::text::{chars_of, decimal_string, eq_chars, push_char, spec_decimal};

verus! {

/// The views of a run of strings.
pub open spec fn views_of(s: Seq<String>) -> Seq<Seq<char>> {
    s.map_values(|x: String| x@)
}

/// A string padded with spaces on the right to at least six characters, the
/// column width of a white move in the move list.
pub open spec fn spec_pad6(s: Seq<char>) -> Seq<char> {
    if s.len() >= 6 {
        s
    } else {
        s + Seq::new((6 - s.len()) as nat, |i: int| ' ')
    }
}

/// One line of the move list: "3. e4    e5" for a full pair, "3. e4" when
/// Black has not answered yet.
pub open spec fn spec_move_line(moves: Seq<Seq<char>>, pair: int) -> Seq<char> {
    let head = spec_decimal(pair + 1) + ". "@;
    if 2 * pair + 1 < moves.len() {
        head + spec_pad6(moves[2 * pair]) + moves[2 * pair + 1]
    } else {
        head + moves[2 * pair]
    }
}

/// The move list: half-moves paired into numbered lines.
pub open spec fn spec_move_list(moves: Seq<Seq<char>>) -> Seq<Seq<char>> {
    Seq::new(((moves.len() + 1) / 2) as nat, |i: int| spec_move_line(moves, i))
}

/// The sidebar: a header, a divider, and as much of the tail of the move
/// list as the available height leaves room for.
pub open spec fn spec_sidebar(moves: Seq<Seq<char>>, available_height: int) -> Seq<Seq<char>> {
    let list = spec_move_list(moves);
    let room = if available_height >= 2 {
        available_height - 2
    } else {
        0
    };
    let skip = if list.len() > room {
        list.len() - room
    } else {
        0
    };
    seq!["Moves"@, "─────────────"@] + list.subrange(skip, list.len() as int)
}

/// Appends spaces until the line is at least six characters long.
fn pad_to_six(line: &mut String)
    ensures
        final(line)@ == spec_pad6(old(line)@),
{
    let ghost orig = line@;
    let mut len = line.as_str().unicode_len();
    if len >= 6 {
        return ;
    }
    while len < 6
        invariant
            len == line@.len(),
            orig.len() <= len <= 6,
            line@ == orig + Seq::new((len - orig.len()) as nat, |i: int| ' '),
        decreases 6 - len,
    {
        push_char(line, ' ');
        len = len + 1;
        proof {
            assert(line@ =~= orig + Seq::new((len - orig.len()) as nat, |i: int| ' '));
        }
    }
    proof {
        assert(line@ =~= spec_pad6(orig));
    }
}

/// Pairs half-moves into numbered move-list lines.
pub fn format_move_list(half_moves: &Vec<String>) -> (r: Vec<String>)
    ensures
        views_of(r@) == spec_move_list(views_of(half_moves@)),
{
    let ghost moves = views_of(half_moves@);
    let mut r: Vec<String> = Vec::new();
    let mut pair: usize = 0;
    let total = half_moves.len();
    let pair_count = total / 2 + total % 2;
    while pair < pair_count
        invariant
            total == half_moves@.len(),
            pair_count == total / 2 + total % 2,
            pair <= pair_count,
            views_of(r@) =~~= spec_move_list(moves).subrange(0, pair as int),
            r@.len() == pair,
            moves == views_of(half_moves@),
        decreases pair_count - pair,
    {
        let mut line = decimal_string(pair + 1);
        line.append(". ");
        let white = &half_moves[2 * pair];
        if 2 * pair + 1 < total {
            let mut padded = white.clone();
            pad_to_six(&mut padded);
            line.append(padded.as_str());
            line.append(half_moves[2 * pair + 1].as_str());
        } else {
            line.append(white.as_str());
        }
        proof {
            assert(line@ == spec_move_line(moves, pair as int));
        }
        r.push(line);
        pair = pair + 1;
        proof {
            assert(views_of(r@) =~~= spec_move_list(moves).subrange(0, pair as int));
        }
    }
    proof {
        assert(spec_move_list(moves).subrange(0, spec_move_list(moves).len() as int)
            =~~= spec_move_list(moves));
        assert(views_of(r@) =~~= spec_move_list(moves));
    }
    r
}

/// Builds the sidebar for the given board height: header, divider, and the
/// tail of the move list that fits.
pub fn sidebar_lines(half_moves: &Vec<String>, available_height: usize) -> (r: Vec<String>)
    ensures
        views_of(r@) == spec_sidebar(views_of(half_moves@), available_height as int),
{
    let ghost moves = views_of(half_moves@);
    let mut r: Vec<String> = Vec::new();
    r.push(String::from_str("Moves"));
    r.push(String::from_str("─────────────"));
    let move_lines = format_move_list(half_moves);
    let max_move_lines = if available_height >= 2 {
        available_height - 2
    } else {
        0
    };
    let skip_count = if move_lines.len() > max_move_lines {
        move_lines.len() - max_move_lines
    } else {
        0
    };
    let mut i = skip_count;
    while i < move_lines.len()
        invariant
            skip_count <= i <= move_lines@.len(),
            views_of(move_lines@) == spec_move_list(moves),
            skip_count == (if spec_move_list(moves).len() > (if available_height >= 2 {
                available_height - 2
            } else {
                0
            }) {
                spec_move_list(moves).len() - (if available_height >= 2 {
                    available_height - 2
                } else {
                    0
                })
            } else {
                0
            }),
            views_of(r@) =~~= seq!["Moves"@, "─────────────"@] + views_of(move_lines@).subrange(
                skip_count as int,
                i as int,
            ),
        decreases move_lines@.len() - i,
    {
        let ghost r_before = r@;
        r.push(move_lines[i].clone());
        i = i + 1;
        proof {
            let target_prev = seq!["Moves"@, "─────────────"@] + views_of(move_lines@).subrange(
                skip_count as int,
                i - 1,
            );
            let target = seq!["Moves"@, "─────────────"@] + views_of(move_lines@).subrange(
                skip_count as int,
                i as int,
            );
            assert(views_of(r_before) == target_prev);
            assert(views_of(r_before).len() == r_before.len());
            assert(views_of(r@).len() == r@.len());
            assert(r@.len() == r_before.len() + 1);
            assert(target.len() == target_prev.len() + 1);
            assert(r@.last()@ == views_of(move_lines@)[i - 1]);
            assert(target.last() == views_of(move_lines@)[i - 1]);
            assert forall|j: int| 0 <= j < r@.len() - 1 implies views_of(r@)[j] == target[j] by {
                assert(r@[j] == r_before[j]);
                assert(views_of(r@)[j] == views_of(r_before)[j]);
                assert(target[j] == target_prev[j]);
            }
            assert(views_of(r@) =~= target);
        }
    }
    proof {
        assert(views_of(r@) =~~= spec_sidebar(moves, available_height as int));
    }
    r
}

/// The number of text lines one full redraw occupies: labels above, eight
/// ranks of squares, labels below.
pub fn layout_height<S: DisplayStrategy>(strategy: &S) -> (h: usize)
    ensures
        h as int == 2 + 8 * strategy.spec_height(),
{
    1 + 8 * strategy.square_height() + 1
}

/// The ANSI escape that moves the cursor up over the previous frame and
/// clears from there down.
pub fn cursor_up_and_clear(line_count: usize) -> (s: String)
    ensures
        s@ == "\u{1b}["@ + spec_decimal(line_count as int) + "A\u{1b}[J"@,
{
    let mut s = String::from_str("\u{1b}[");
    let num = decimal_string(line_count);
    s.append(num.as_str());
    s.append("A\u{1b}[J");
    proof {
        assert(s@ =~= "\u{1b}["@ + spec_decimal(line_count as int) + "A\u{1b}[J"@);
    }
    s
}

/// The sidebar text appended to one board line: three spaces and the line,
/// or nothing once the sidebar is exhausted.
pub open spec fn spec_sidebar_suffix(sidebar: Seq<Seq<char>>, idx: int) -> Seq<char> {
    if 0 <= idx < sidebar.len() {
        "   "@ + sidebar[idx]
    } else {
        Seq::empty()
    }
}

/// The text lines of one rank in the sidebar view, from `row` down, the
/// running line index choosing the sidebar line for each.
pub open spec fn spec_tui_rank_rows<S: DisplayStrategy>(
    b: Board,
    strat: &S,
    sidebar: Seq<Seq<char>>,
    rank: int,
    row: int,
    idx: int,
) -> Seq<char>
    decreases strat.spec_height() - row,
{
    if row < 0 || row >= strat.spec_height() {
        Seq::empty()
    } else {
        strat.spec_rank_label(rank, row) + spec_cells_row(b, strat, rank, row, 0)
            + spec_sidebar_suffix(sidebar, idx) + seq!['\n'] + spec_tui_rank_rows(
            b,
            strat,
            sidebar,
            rank,
            row + 1,
            idx + 1,
        )
    }
}

/// The board body in the sidebar view, from `rank` down to rank 0.
pub open spec fn spec_tui_ranks<S: DisplayStrategy>(
    b: Board,
    strat: &S,
    sidebar: Seq<Seq<char>>,
    rank: int,
    idx: int,
) -> Seq<char>
    decreases rank + 1,
{
    if rank < 0 {
        Seq::empty()
    } else {
        spec_tui_rank_rows(b, strat, sidebar, rank, 0, idx) + spec_tui_ranks(
            b,
            strat,
            sidebar,
            rank - 1,
            idx + strat.spec_height(),
        )
    }
}

/// The whole sidebar view: file labels above and below, the eight ranks
/// between them, each board line carrying its sidebar line when one exists.
/// An empty move history shows no sidebar at all.
pub open spec fn spec_tui_render<S: DisplayStrategy>(
    b: Board,
    strat: &S,
    moves: Seq<Seq<char>>,
) -> Seq<char> {
    let sidebar = if moves.len() == 0 {
        Seq::<Seq<char>>::empty()
    } else {
        spec_sidebar(moves, 8 * strat.spec_height())
    };
    strat.spec_file_labels() + spec_tui_ranks(b, strat, sidebar, 7, 0) + strat.spec_file_labels()
}

/// Renders the board with the move list beside it: file labels on top,
/// ranks from the top down with sidebar lines attached, file labels below.
pub fn render<S: DisplayStrategy>(board: &Board, strategy: &S, moves: &Vec<String>) -> (out:
    String)
    ensures
        out@ == spec_tui_render(*board, strategy, views_of(moves@)),
{
    let height = strategy.square_height();
    let mut out = strategy.render_file_labels();
    let board_height = 8 * height;
    let sidebar: Vec<String> = if moves.len() == 0 {
        Vec::new()
    } else {
        sidebar_lines(moves, board_height)
    };
    let ghost sb = if views_of(moves@).len() == 0 {
        Seq::<Seq<char>>::empty()
    } else {
        spec_sidebar(views_of(moves@), 8 * strategy.spec_height())
    };
    proof {
        assert(views_of(sidebar@) =~~= sb);
    }
    let mut line_index: usize = 0;
    let mut i: u8 = 0;
    while i < 8
        invariant
            i <= 8,
            height as int == strategy.spec_height(),
            1 <= height <= 3,
            views_of(sidebar@) == sb,
            line_index == i * height,
            spec_tui_render(*board, strategy, views_of(moves@)) == out@ + spec_tui_ranks(
                *board,
                strategy,
                sb,
                7 - i,
                line_index as int,
            ) + strategy.spec_file_labels(),
        decreases 8 - i,
    {
        let rank = 7 - i;
        let ghost rest_ranks = spec_tui_ranks(
            *board,
            strategy,
            sb,
            rank - 1 as int,
            line_index + height as int,
        );
        let mut row: usize = 0;
        while row < height
            invariant
                row <= height,
                rank == 7 - i,
                i < 8,
                height as int == strategy.spec_height(),
                1 <= height <= 3,
                views_of(sidebar@) == sb,
                line_index == i * height + row,
                rest_ranks == spec_tui_ranks(
                    *board,
                    strategy,
                    sb,
                    rank - 1 as int,
                    i * height + height as int,
                ),
                spec_tui_render(*board, strategy, views_of(moves@)) == out@ + spec_tui_rank_rows(
                    *board,
                    strategy,
                    sb,
                    rank as int,
                    row as int,
                    line_index as int,
                ) + rest_ranks + strategy.spec_file_labels(),
            decreases height - row,
        {
            let label = strategy.render_rank_label(rank, row);
            out.append(label.as_str());
            let mut file: u8 = 0;
            while file < 8
                invariant
                    file <= 8,
                    rank < 8,
                    row < height,
                    height as int == strategy.spec_height(),
                    views_of(sidebar@) == sb,
                    line_index == i * height + row,
                    spec_tui_render(*board, strategy, views_of(moves@)) == out@ + spec_cells_row(
                        *board,
                        strategy,
                        rank as int,
                        row as int,
                        file as int,
                    ) + spec_sidebar_suffix(sb, line_index as int) + seq!['\n']
                        + spec_tui_rank_rows(
                        *board,
                        strategy,
                        sb,
                        rank as int,
                        row + 1,
                        line_index + 1,
                    ) + rest_ranks + strategy.spec_file_labels(),
                decreases 8 - file,
            {
                let shade = square_shade(file, rank);
                let square = board.get(file, rank);
                let cell = strategy.render_square_row(square, shade, row);
                out.append(cell.as_str());
                file = file + 1;
            }
            proof {
                assert(spec_cells_row(*board, strategy, rank as int, row as int, 8) =~= Seq::<
                    char,
                >::empty());
            }
            if line_index < sidebar.len() {
                out.append("   ");
                out.append(sidebar[line_index].as_str());
            }
            push_char(&mut out, '\n');
            proof {
                assert(line_index < 24) by (nonlinear_arith)
                    requires
                        line_index == i * height + row,
                        i < 8,
                        row < height,
                        height <= 3,
                ;
            }
            line_index = line_index + 1;
            row = row + 1;
        }
        proof {
            assert(spec_tui_rank_rows(
                *board,
                strategy,
                sb,
                rank as int,
                height as int,
                line_index as int,
            ) =~= Seq::<char>::empty());
            assert((i + 1) * height == i * height + height) by (nonlinear_arith);
        }
        i = i + 1;
    }
    proof {
        assert(spec_tui_ranks(*board, strategy, sb, -1, line_index as int) =~= Seq::<
            char,
        >::empty());
    }
    let labels = strategy.render_file_labels();
    out.append(labels.as_str());
    out
}

/// Whether the side to move at this half-move index is White.
pub fn is_white_turn(move_index: usize) -> (r: bool)
    ensures
        r == (move_index % 2 == 0),
{
    move_index % 2 == 0
}

/// The 1-based full-move number shown at this half-move index.
pub fn full_move_number(move_index: usize) -> (r: usize)
    requires
        move_index < usize::MAX - 1,
    ensures
        r == move_index / 2 + 1,
{
    move_index / 2 + 1
}

/// What the player asked for once a game has ended.
#[derive(Debug, Clone, Copy, PartialEq, Eq, Structural)]
pub enum PostGameAction {
    NewGame,
    Quit,
}

/// The post-game choice a command word names, if any.
pub open spec fn spec_post_game_choice(s: Seq<char>) -> Option<PostGameAction> {
    if s == "new"@ || s == "reset"@ {
        Some(PostGameAction::NewGame)
    } else if s == "quit"@ {
        Some(PostGameAction::Quit)
    } else {
        None
    }
}

/// Reads a post-game command word.
pub fn parse_post_game_choice(input: &str) -> (r: Option<PostGameAction>)
    ensures
        r == spec_post_game_choice(input@),
{
    let chars = chars_of(input);
    if eq_chars(&chars, "new") || eq_chars(&chars, "reset") {
        Some(PostGameAction::NewGame)
    } else if eq_chars(&chars, "quit") {
        Some(PostGameAction::Quit)
    } else {
        None
    }
}

/// The message the board state earns after a move: checkmate names the
/// winner, check is announced, anything else stays quiet.
pub open spec fn spec_threat_message(
    in_check: bool,
    is_checkmate: bool,
    opponent_color: Color,
) -> Option<Seq<char>> {
    if is_checkmate {
        match opponent_color {
            Color::White => Some("  Checkmate! Black wins!"@),
            Color::Black => Some("  Checkmate! White wins!"@),
        }
    } else if in_check {
        Some("  Check!"@)
    } else {
        None
    }
}

/// The message earned by precomputed check and checkmate state, where
/// `opponent_color` is the side that may stand in check.
pub fn format_threat_message(in_check: bool, is_checkmate: bool, opponent_color: Color) -> (r:
    Option<String>)
    ensures
        match r {
            Some(s) => spec_threat_message(in_check, is_checkmate, opponent_color) == Some(s@),
            None => spec_threat_message(in_check, is_checkmate, opponent_color) is None,
        },
{
    if is_checkmate {
        match opponent_color {
            Color::White => Some(String::from_str("  Checkmate! Black wins!")),
            Color::Black => Some(String::from_str("  Checkmate! White wins!")),
        }
    } else if in_check {
        Some(String::from_str("  Check!"))
    } else {
        None
    }
}

/// The warning a notation annotation earns when the board disagrees: an
/// annotated check or mate the board denies, or a silent token where the
/// board sees check or mate.
pub open spec fn spec_threat_warning(
    notation_threat: Threat,
    in_check: bool,
    is_checkmate: bool,
) -> Option<Seq<char>> {
    match notation_threat {
        Threat::Checkmate => if !is_checkmate {
            Some("  Warning: move annotated as checkmate but board disagrees"@)
        } else {
            None
        },
        Threat::Check => if !in_check {
            Some("  Warning: move annotated as check but board disagrees"@)
        } else {
            None
        },
        Threat::Quiet => if in_check || is_checkmate {
            Some("  Warning: check/checkmate detected but not annotated in notation"@)
        } else {
            None
        },
    }
}

/// Holds a notation annotation against what the board itself says of check
/// and checkmate, warning on any mismatch.
pub fn validate_threat(notation_threat: Threat, in_check: bool, is_checkmate: bool) -> (r: Option<
    String,
>)
    ensures
        match r {
            Some(s) => spec_threat_warning(notation_threat, in_check, is_checkmate) == Some(s@),
            None => spec_threat_warning(notation_threat, in_check, is_checkmate) is None,
        },
{
    match notation_threat {
        Threat::Checkmate => if !is_checkmate {
            Some(String::from_str("  Warning: move annotated as checkmate but board disagrees"))
        } else {
            None
        },
        Threat::Check => if !in_check {
            Some(String::from_str("  Warning: move annotated as check but board disagrees"))
        } else {
            None
        },
        Threat::Quiet => if in_check || is_checkmate {
            Some(
                String::from_str(
                    "  Warning: check/checkmate detected but not annotated in notation",
                ),
            )
        } else {
            None
        },
    }
}

/// Whether a frame is the first draw or replaces a previous one of the
/// given height.
#[derive(Debug, Clone, Copy, PartialEq, Eq, Structural)]
pub enum RenderMode {
    Initial,
    Redraw(usize),
}

/// One full frame: on a redraw, first the escape that wipes the previous
/// frame, then the board with its sidebar.
pub fn render_board<S: DisplayStrategy>(
    board: &Board,
    strategy: &S,
    moves: &Vec<String>,
    mode: RenderMode,
) -> (out: String)
    ensures
        out@ == (match mode {
            RenderMode::Initial => spec_tui_render(*board, strategy, views_of(moves@)),
            RenderMode::Redraw(clear_height) => "\u{1b}["@ + spec_decimal(clear_height as int)
                + "A\u{1b}[J"@ + spec_tui_render(*board, strategy, views_of(moves@)),
        }),
{
    let mut out = match mode {
        RenderMode::Initial => String::new(),
        RenderMode::Redraw(clear_height) => cursor_up_and_clear(clear_height),
    };
    let frame = render(board, strategy, moves);
    out.append(frame.as_str());
    proof {
        if mode is Initial {
            assert(out@ =~= spec_tui_render(*board, strategy, views_of(moves@)));
        }
    }
    out
}

} // verus!
