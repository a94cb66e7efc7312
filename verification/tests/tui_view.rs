use chesswav::board::Board;
use chesswav::chess::{Color, Piece, Threat};
use chesswav::display::{
    AsciiDisplay, ColorMode, DisplayStrategy, SpriteDisplay, SquareShade, UnicodeDisplay,
};
use chesswav::tui::{
    cursor_up_and_clear, format_move_list, format_threat_message, full_move_number, is_white_turn,
    layout_height, parse_post_game_choice, render, render_board, sidebar_lines, validate_threat,
    PostGameAction, RenderMode,
};

fn no_moves() -> Vec<String> {
    Vec::new()
}

#[test]
fn format_move_list_empty_input() {
    let result = format_move_list(&no_moves());
    assert!(result.is_empty());
}

#[test]
fn format_move_list_single_move() {
    let moves = vec!["e4".to_string()];
    let result = format_move_list(&moves);
    assert_eq!(result, vec!["1. e4"]);
}

#[test]
fn format_move_list_complete_pair() {
    let moves = vec!["e4".to_string(), "e5".to_string()];
    let result = format_move_list(&moves);
    assert_eq!(result, vec!["1. e4    e5"]);
}

#[test]
fn format_move_list_multiple_pairs() {
    let moves = vec![
        "e4".to_string(),
        "e5".to_string(),
        "Nf3".to_string(),
        "Nc6".to_string(),
    ];
    let result = format_move_list(&moves);
    assert_eq!(result, vec!["1. e4    e5", "2. Nf3   Nc6"]);
}

#[test]
fn format_move_list_odd_count() {
    let moves = vec!["e4".to_string(), "e5".to_string(), "Nf3".to_string()];
    let result = format_move_list(&moves);
    assert_eq!(result, vec!["1. e4    e5", "2. Nf3"]);
}

#[test]
fn sidebar_lines_empty_moves() {
    let result = sidebar_lines(&no_moves(), 8);
    assert_eq!(result, vec!["Moves", "─────────────"]);
}

#[test]
fn sidebar_lines_with_moves() {
    let moves = vec!["e4".to_string(), "e5".to_string()];
    let result = sidebar_lines(&moves, 8);
    assert_eq!(result, vec!["Moves", "─────────────", "1. e4    e5"]);
}

#[test]
fn sidebar_lines_scrolling() {
    let moves: Vec<String> = (0..20).map(|i| format!("m{i}")).collect();
    let result = sidebar_lines(&moves, 8);
    assert_eq!(result.len(), 8);
    assert_eq!(result[0], "Moves");
    assert_eq!(result[1], "─────────────");
    assert_eq!(result.last().unwrap(), "10. m18   m19");
}

#[test]
fn sidebar_lines_exact_fit() {
    let moves = vec![
        "e4".to_string(),
        "e5".to_string(),
        "Nf3".to_string(),
        "Nc6".to_string(),
        "Bb5".to_string(),
        "a6".to_string(),
    ];
    let result = sidebar_lines(&moves, 5);
    assert_eq!(result.len(), 5);
    assert_eq!(result[0], "Moves");
    assert_eq!(result[1], "─────────────");
    assert_eq!(result[2], "1. e4    e5");
    assert_eq!(result[3], "2. Nf3   Nc6");
    assert_eq!(result[4], "3. Bb5   a6");
}

#[test]
fn render_with_empty_moves_has_no_sidebar() {
    let board = Board::new();
    let output = render(&board, &AsciiDisplay, &no_moves());
    assert!(!output.contains("Moves"));
}

#[test]
fn render_with_moves_shows_sidebar() {
    let board = Board::new();
    let moves = vec!["e4".to_string(), "e5".to_string()];
    let output = render(&board, &AsciiDisplay, &moves);
    assert!(output.contains("Moves"), "should contain sidebar header");
    assert!(
        output.contains("─────────────"),
        "should contain sidebar divider"
    );
    assert!(output.contains("1. e4    e5"), "should contain move line");
}

#[test]
fn render_sidebar_not_on_file_label_lines() {
    let board = Board::new();
    let moves = vec!["e4".to_string(), "e5".to_string()];
    let output = render(&board, &AsciiDisplay, &moves);
    let lines: Vec<&str> = output.lines().collect();
    let first_line = lines[0];
    let last_line = lines.last().unwrap();
    assert!(
        !first_line.contains("Moves"),
        "top file labels should have no sidebar"
    );
    assert!(
        !last_line.contains("Moves"),
        "bottom file labels should have no sidebar"
    );
}

#[test]
fn render_with_moves_same_line_count() {
    let board = Board::new();
    let moves = vec!["e4".to_string(), "e5".to_string()];
    let out_no_moves = render(&board, &AsciiDisplay, &no_moves());
    let out_with_moves = render(&board, &AsciiDisplay, &moves);
    let lines_no_moves = out_no_moves.lines().count();
    let lines_with_moves = out_with_moves.lines().count();
    assert_eq!(
        lines_no_moves, lines_with_moves,
        "sidebar should not add extra lines"
    );
}

#[test]
fn cursor_up_and_clear_ten_lines() {
    let output = cursor_up_and_clear(10);
    assert_eq!(output, "\x1b[10A\x1b[J");
}

#[test]
fn cursor_up_and_clear_one_line() {
    let output = cursor_up_and_clear(1);
    assert_eq!(output, "\x1b[1A\x1b[J");
}

#[test]
fn layout_height_ascii() {
    let strategy = AsciiDisplay;
    assert_eq!(layout_height(&strategy), 10);
}

#[test]
fn layout_height_sprite() {
    let strategy = SpriteDisplay::new(ColorMode::TrueColor);
    assert_eq!(layout_height(&strategy), 26);
}

#[test]
fn layout_height_unicode() {
    let strategy = UnicodeDisplay::new(ColorMode::TrueColor);
    assert_eq!(layout_height(&strategy), 10);
}

#[test]
fn mod_display_initial_position() {
    let board = Board::new();
    let output = render(&board, &AsciiDisplay, &no_moves());
    assert!(output.contains(" r "), "should contain black rook");
    assert!(output.contains(" P "), "should contain white pawn");
    assert!(output.contains('a'), "should contain file labels");
}

#[test]
fn mod_render_full_board_initial_position() {
    let board = Board::new();
    let strategy = SpriteDisplay::new(ColorMode::TrueColor);
    let output = render(&board, &strategy, &no_moves());
    for rank in 1..=8 {
        assert!(output.contains(&format!(" {rank} ")), "missing rank {rank}");
    }
    for file_label in ['a', 'b', 'c', 'd', 'e', 'f', 'g', 'h'] {
        assert!(output.contains(file_label), "missing file {file_label}");
    }
    assert!(output.contains('█'), "should contain full blocks");
    assert!(output.contains('▄'), "should contain lower half blocks");
    assert!(output.contains('▀'), "should contain upper half blocks");
    let line_count = output.lines().count();
    assert_eq!(line_count, 26, "expected 26 lines, got {line_count}");
}

#[test]
fn mod_render_with_ascii_strategy() {
    let board = Board::new();
    let strategy = AsciiDisplay;
    let output = render(&board, &strategy, &no_moves());
    for rank in 1..=8 {
        assert!(output.contains(&format!(" {rank} ")), "missing rank {rank}");
    }
    for file_label in ['a', 'b', 'c', 'd', 'e', 'f', 'g', 'h'] {
        assert!(output.contains(file_label), "missing file {file_label}");
    }
    assert!(output.contains(" R "), "should contain rook");
    assert!(output.contains(" P "), "should contain pawn");
    assert!(output.contains(" . "), "should contain empty square");
    let line_count = output.lines().count();
    assert_eq!(
        line_count, 10,
        "top labels + 8 ranks + bottom labels = 10 lines"
    );
}

#[test]
fn mod_render_with_sprite_strategy() {
    let board = Board::new();
    let strategy = SpriteDisplay::new(ColorMode::TrueColor);
    let output = render(&board, &strategy, &no_moves());
    for rank in 1..=8 {
        assert!(output.contains(&format!(" {rank} ")), "missing rank {rank}");
    }
    assert!(output.contains('█'), "should contain full blocks");
    assert!(output.contains('▄'), "should contain lower half blocks");
    assert!(output.contains('▀'), "should contain upper half blocks");
    let line_count = output.lines().count();
    assert_eq!(line_count, 26, "expected 26 lines, got {line_count}");
}

#[test]
fn mod_render_with_unicode_strategy() {
    let board = Board::new();
    let strategy = UnicodeDisplay::new(ColorMode::TrueColor);
    let output = render(&board, &strategy, &no_moves());
    assert!(output.contains('♔'), "should contain white king");
    assert!(output.contains('♟'), "should contain black pawn");
    let line_count = output.lines().count();
    assert_eq!(
        line_count, 10,
        "top labels + 8 ranks + bottom labels = 10 lines"
    );
}

#[test]
fn sprite_dimensions() {
    let strategy = SpriteDisplay::new(ColorMode::TrueColor);
    assert_eq!(strategy.square_height(), 3);
    assert_eq!(strategy.square_width(), 7);
}

#[test]
fn sprite_renders_empty_square() {
    let strategy = SpriteDisplay::new(ColorMode::TrueColor);
    let output = strategy.render_square_row(None, SquareShade::Light, 0);
    assert_eq!(output, format!("\x1b[48;2;235;236;208m       \x1b[0m"));
}

#[test]
fn sprite_renders_occupied_square() {
    let strategy = SpriteDisplay::new(ColorMode::TrueColor);
    let output =
        strategy.render_square_row(Some((Piece::Rook, Color::White)), SquareShade::Dark, 1);
    assert!(output.contains('█'), "should contain full block");
    assert!(output.ends_with("\x1b[0m"), "should end with reset");
}

#[test]
fn unicode_dimensions() {
    let strategy = UnicodeDisplay::new(ColorMode::TrueColor);
    assert_eq!(strategy.square_height(), 1);
    assert_eq!(strategy.square_width(), 3);
}

#[test]
fn unicode_renders_empty_square() {
    let strategy = UnicodeDisplay::new(ColorMode::TrueColor);
    let output = strategy.render_square_row(None, SquareShade::Light, 0);
    assert!(output.starts_with("\x1b[48;2;235;236;208m"));
    assert!(output.ends_with("\x1b[0m"));
    assert_eq!(output.len(), "\x1b[48;2;235;236;208m   \x1b[0m".len());
}

#[test]
fn renders_white_king() {
    let strategy = UnicodeDisplay::new(ColorMode::TrueColor);
    let output =
        strategy.render_square_row(Some((Piece::King, Color::White)), SquareShade::Dark, 0);
    assert!(output.contains('♔'));
}

#[test]
fn renders_black_pawn() {
    let strategy = UnicodeDisplay::new(ColorMode::TrueColor);
    let output =
        strategy.render_square_row(Some((Piece::Pawn, Color::Black)), SquareShade::Light, 0);
    assert!(output.contains('♟'));
}

#[test]
fn ascii_dimensions() {
    let strategy = AsciiDisplay;
    assert_eq!(strategy.square_height(), 1);
    assert_eq!(strategy.square_width(), 3);
}

#[test]
fn ascii_renders_empty_square() {
    let strategy = AsciiDisplay;
    let output = strategy.render_square_row(None, SquareShade::Light, 0);
    assert_eq!(output, " . ");
}

#[test]
fn ascii_renders_occupied_square() {
    let strategy = AsciiDisplay;
    let output =
        strategy.render_square_row(Some((Piece::King, Color::White)), SquareShade::Dark, 0);
    assert_eq!(output, " K ");
}

#[test]
fn format_threat_no_check() {
    let message = format_threat_message(false, false, Color::Black);
    assert_eq!(message, None);
}

#[test]
fn format_threat_check_when_in_check() {
    let message = format_threat_message(true, false, Color::Black);
    assert_eq!(message, Some("  Check!".to_string()));
}

#[test]
fn format_threat_checkmate_message() {
    let message = format_threat_message(true, true, Color::White);
    assert_eq!(message, Some("  Checkmate! Black wins!".to_string()));
}

#[test]
fn parse_post_game_new() {
    assert_eq!(parse_post_game_choice("new"), Some(PostGameAction::NewGame));
}

#[test]
fn parse_post_game_reset() {
    assert_eq!(
        parse_post_game_choice("reset"),
        Some(PostGameAction::NewGame)
    );
}

#[test]
fn parse_post_game_quit() {
    assert_eq!(parse_post_game_choice("quit"), Some(PostGameAction::Quit));
}

#[test]
fn parse_post_game_invalid() {
    assert_eq!(parse_post_game_choice("blah"), None);
}

#[test]
fn validate_threat_checkmate_annotation_but_not_actual() {
    let warning = validate_threat(Threat::Checkmate, false, false);
    assert!(warning.is_some());
}

#[test]
fn validate_threat_check_annotation_confirmed() {
    let warning = validate_threat(Threat::Check, true, false);
    assert!(warning.is_none());
}

#[test]
fn validate_threat_missing_check_annotation() {
    let warning = validate_threat(Threat::Quiet, true, false);
    assert!(warning.is_some());
}

#[test]
fn render_board_with_moves_writes_sidebar() {
    let board = Board::new();
    let moves = vec!["e4".to_string(), "e5".to_string()];
    let output = render_board(&board, &AsciiDisplay, &moves, RenderMode::Initial);
    assert!(output.contains("Moves"));
    assert!(output.contains("1. e4    e5"));
}

#[test]
fn render_board_redraw_emits_cursor_up() {
    let board = Board::new();
    let output = render_board(&board, &AsciiDisplay, &no_moves(), RenderMode::Redraw(11));
    assert!(
        output.starts_with("\x1b["),
        "redraw should start with ANSI escape"
    );
    assert!(output.contains("\x1b[J"), "redraw should contain clear");
}

#[test]
fn render_board_first_draw_no_cursor_up() {
    let board = Board::new();
    let output = render_board(&board, &AsciiDisplay, &no_moves(), RenderMode::Initial);
    assert!(
        !output.starts_with("\x1b["),
        "first draw should not have ANSI escape at start"
    );
}

#[test]
fn white_turn_alternates() {
    assert!(is_white_turn(0));
    assert!(!is_white_turn(1));
    assert!(is_white_turn(2));
}

#[test]
fn full_move_number_counts_pairs() {
    assert_eq!(full_move_number(0), 1);
    assert_eq!(full_move_number(1), 1);
    assert_eq!(full_move_number(2), 2);
    assert_eq!(full_move_number(7), 4);
}
