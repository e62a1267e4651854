use tictactoe::game::{Game, Square, Winner};

fn play(game: &mut Game, moves: &[(usize, usize)]) {
    for &(x, y) in moves {
        game.hit(x, y);
    }
}

fn cell(game: &Game, x: usize, y: usize) -> Square {
    game.board()[x][y]
}

fn all_empty(game: &Game) -> bool {
    game.board().iter().all(|column| column.iter().all(|c| *c == Square::Empty))
}

const NOBODY: Winner = Winner { player: Square::Empty, x1: 0, y1: 0, x2: 0, y2: 0 };

#[test]
fn new_game_is_empty_and_x_begins() {
    let game = Game::new();
    assert_eq!(game.size(), 3);
    assert_eq!(game.win_len(), 3);
    assert_eq!(game.turn(), Square::PlayerX);
    assert_eq!(game.scores(), (0, 0));
    assert_eq!(game.winner(), NOBODY);
    assert_eq!(game.board().len(), 3);
    assert!(game.board().iter().all(|column| column.len() == 3));
    assert!(all_empty(&game));
}

#[test]
fn opponent_of_each_square() {
    assert_eq!(Square::PlayerX.opponent(), Square::PlayerO);
    assert_eq!(Square::PlayerO.opponent(), Square::PlayerX);
    assert_eq!(Winner::nobody(), NOBODY);
}

#[test]
fn hit_places_the_mark_and_passes_the_turn() {
    let mut game = Game::new();
    game.hit(2, 1);
    assert_eq!(cell(&game, 2, 1), Square::PlayerX);
    assert_eq!(game.turn(), Square::PlayerO);
    game.hit(0, 0);
    assert_eq!(cell(&game, 0, 0), Square::PlayerO);
    assert_eq!(game.turn(), Square::PlayerX);
    assert_eq!(game.winner(), NOBODY);
    assert_eq!(game.scores(), (0, 0));
}

#[test]
fn classic_row_zero_wins_for_x() {
    let mut game = Game::new();
    play(&mut game, &[(0, 0), (1, 1), (0, 1), (2, 2)]);
    assert_eq!(game.winner().player, Square::Empty);
    assert_eq!(game.scores(), (0, 0));
    game.hit(0, 2);
    assert_eq!(game.winner(), Winner { player: Square::PlayerX, x1: 0, y1: 2, x2: 0, y2: 0 });
    assert_eq!(game.scores(), (1, 0));
    assert_eq!(game.turn(), Square::PlayerO);
    assert_eq!(cell(&game, 0, 0), Square::PlayerX);
    assert_eq!(cell(&game, 0, 1), Square::PlayerX);
    assert_eq!(cell(&game, 0, 2), Square::PlayerX);
}

#[test]
fn player_o_wins_a_column_and_scores() {
    let mut game = Game::new();
    play(&mut game, &[(0, 0), (0, 1), (2, 2), (1, 1), (0, 2)]);
    assert_eq!(game.winner().player, Square::Empty);
    game.hit(2, 1);
    assert_eq!(game.winner(), Winner { player: Square::PlayerO, x1: 2, y1: 1, x2: 0, y2: 1 });
    assert_eq!(game.scores(), (0, 1));
    assert_eq!(game.turn(), Square::PlayerX);
}

#[test]
fn mark_in_the_middle_completes_the_line() {
    let mut game = Game::new();
    play(&mut game, &[(0, 0), (0, 1), (2, 0), (0, 2), (1, 0)]);
    assert_eq!(game.winner(), Winner { player: Square::PlayerX, x1: 2, y1: 0, x2: 0, y2: 0 });
    assert_eq!(game.scores(), (1, 0));
}

#[test]
fn anti_diagonal_wins() {
    let mut game = Game::new();
    play(&mut game, &[(0, 2), (0, 0), (1, 1), (0, 1), (2, 0)]);
    assert_eq!(game.winner(), Winner { player: Square::PlayerX, x1: 2, y1: 0, x2: 0, y2: 2 });
}

#[test]
fn first_direction_is_recorded_when_two_lines_are_completed() {
    let mut game = Game::new();
    play(&mut game, &[(0, 0), (0, 1), (2, 2), (0, 2), (1, 0), (2, 0), (1, 2), (2, 1)]);
    assert_eq!(game.winner().player, Square::Empty);
    game.hit(1, 1);
    // the diagonal and the column x = 1 are both complete: the diagonal comes first
    assert_eq!(game.winner(), Winner { player: Square::PlayerX, x1: 2, y1: 2, x2: 0, y2: 0 });
    assert_eq!(game.scores(), (1, 0));
}

#[test]
fn full_board_without_line_is_a_draw() {
    // X O X / X O O / O X X
    let mut game = Game::new();
    play(&mut game, &[(0, 0), (0, 1), (0, 2), (1, 1), (1, 0), (1, 2), (2, 1), (2, 0)]);
    assert_eq!(game.winner().player, Square::Empty);
    game.hit(2, 2);
    assert_eq!(game.winner().player, Square::Draw);
    assert_eq!(game.scores(), (0, 0));
    assert!(game.board().iter().all(|column| column.iter().all(|c| *c != Square::Empty)));
}

#[test]
fn winning_move_that_fills_the_board_is_no_draw() {
    let mut game = Game::new();
    play(&mut game, &[(0, 0), (0, 1), (1, 1), (0, 2), (2, 1), (1, 0), (1, 2), (2, 0)]);
    assert_eq!(game.winner().player, Square::Empty);
    game.hit(2, 2);
    assert_eq!(game.winner().player, Square::PlayerX);
    assert_eq!(game.scores(), (1, 0));
    assert!(game.board().iter().all(|column| column.iter().all(|c| *c != Square::Empty)));
}

#[test]
fn hit_on_occupied_cell_changes_nothing() {
    let mut game = Game::new();
    game.hit(1, 1);
    let board = game.board().clone();
    game.hit(1, 1);
    assert_eq!(*game.board(), board);
    assert_eq!(game.turn(), Square::PlayerO);
    assert_eq!(game.scores(), (0, 0));
    assert_eq!(game.winner(), NOBODY);
    assert_eq!(cell(&game, 1, 1), Square::PlayerX);
}

#[test]
fn hit_after_the_game_is_decided_changes_nothing() {
    let mut game = Game::new();
    play(&mut game, &[(0, 0), (1, 1), (0, 1), (2, 2), (0, 2)]);
    let board = game.board().clone();
    let winner = game.winner();
    game.hit(2, 0);
    assert_eq!(*game.board(), board);
    assert_eq!(cell(&game, 2, 0), Square::Empty);
    assert_eq!(game.turn(), Square::PlayerO);
    assert_eq!(game.scores(), (1, 0));
    assert_eq!(game.winner(), winner);
}

#[test]
fn hit_after_a_draw_changes_nothing() {
    let mut game = Game::with_size(4, 4).unwrap();
    // fill a 4 by 4 board without four in a line, then try once more
    let order = [
        (0, 2), (0, 3), (1, 0), (3, 1), (2, 1), (0, 1), (1, 2), (1, 3),
        (0, 0), (3, 3), (2, 2), (3, 2), (3, 0), (1, 1), (2, 3), (2, 0),
    ];
    play(&mut game, &order);
    assert_eq!(game.winner().player, Square::Draw);
    let board = game.board().clone();
    game.hit(0, 0);
    assert_eq!(*game.board(), board);
    assert_eq!(game.turn(), Square::PlayerX);
    assert_eq!(game.scores(), (0, 0));
}

#[test]
fn rematch_clears_the_board_and_keeps_the_scores() {
    let mut game = Game::new();
    play(&mut game, &[(0, 0), (1, 1), (0, 1), (2, 2), (0, 2)]);
    assert_eq!(game.scores(), (1, 0));
    game.rematch();
    assert!(all_empty(&game));
    assert_eq!(game.size(), 3);
    assert_eq!(game.winner(), NOBODY);
    assert_eq!(game.turn(), Square::PlayerX);
    assert_eq!(game.scores(), (1, 0));
}

#[test]
fn rematch_keeps_the_size_of_a_larger_board() {
    let mut game = Game::with_size(5, 4).unwrap();
    game.hit(4, 4);
    game.rematch();
    assert_eq!(game.size(), 5);
    assert_eq!(game.win_len(), 4);
    assert!(all_empty(&game));
    assert_eq!(game.turn(), Square::PlayerX);
}

#[test]
fn restart_clears_the_board_and_the_scores() {
    let mut game = Game::new();
    play(&mut game, &[(0, 0), (1, 1), (0, 1), (2, 2), (0, 2)]);
    game.rematch();
    play(&mut game, &[(2, 2), (0, 0), (1, 2), (0, 1), (1, 1), (0, 2)]);
    assert_eq!(game.scores(), (1, 1));
    game.restart();
    assert!(all_empty(&game));
    assert_eq!(game.winner(), NOBODY);
    assert_eq!(game.turn(), Square::PlayerX);
    assert_eq!(game.scores(), (0, 0));
}

#[test]
fn with_size_takes_boards_of_at_least_three_and_lines_that_fit() {
    assert!(Game::with_size(2, 2).is_none());
    assert!(Game::with_size(0, 0).is_none());
    assert!(Game::with_size(3, 0).is_none());
    assert!(Game::with_size(3, 4).is_none());
    assert!(Game::with_size(5, 6).is_none());
    let game = Game::with_size(5, 4).unwrap();
    assert_eq!(game.size(), 5);
    assert_eq!(game.win_len(), 4);
    assert_eq!(game.board().len(), 5);
    assert!(game.board().iter().all(|column| column.len() == 5));
    assert!(all_empty(&game));
    assert_eq!(game.turn(), Square::PlayerX);
    assert_eq!(game.scores(), (0, 0));
    assert_eq!(game.winner(), NOBODY);
    assert!(Game::with_size(3, 1).is_some());
    assert!(Game::with_size(6, 6).is_some());
}

#[test]
fn four_in_a_diagonal_win_on_five_by_five() {
    let mut game = Game::with_size(5, 4).unwrap();
    play(&mut game, &[(0, 0), (0, 4), (1, 1), (1, 4), (2, 2), (2, 4)]);
    // three in a line are not enough
    assert_eq!(game.winner().player, Square::Empty);
    game.hit(3, 3);
    assert_eq!(game.winner(), Winner { player: Square::PlayerX, x1: 3, y1: 3, x2: 0, y2: 0 });
    assert_eq!(game.scores(), (1, 0));
}

#[test]
fn four_in_a_column_win_with_the_gap_filled_last() {
    let mut game = Game::with_size(5, 4).unwrap();
    play(&mut game, &[(1, 0), (4, 0), (1, 1), (4, 1), (1, 3), (4, 2)]);
    assert_eq!(game.winner().player, Square::Empty);
    game.hit(1, 2);
    assert_eq!(game.winner(), Winner { player: Square::PlayerX, x1: 1, y1: 3, x2: 1, y2: 0 });
}

#[test]
fn four_in_a_row_win_for_o_on_five_by_five() {
    let mut game = Game::with_size(5, 4).unwrap();
    play(&mut game, &[(0, 0), (1, 2), (0, 1), (2, 2), (4, 4), (3, 2), (0, 3)]);
    assert_eq!(game.winner().player, Square::Empty);
    game.hit(4, 2);
    assert_eq!(game.winner(), Winner { player: Square::PlayerO, x1: 4, y1: 2, x2: 1, y2: 2 });
    assert_eq!(game.scores(), (0, 1));
}

#[test]
fn line_longer_than_the_winning_length_is_recorded_whole() {
    let mut game = Game::with_size(5, 3).unwrap();
    // X holds (2,0) (2,1) and (2,3) (2,4); O cannot win meanwhile
    play(&mut game, &[(2, 0), (0, 0), (2, 1), (1, 1), (2, 3), (0, 2), (2, 4), (4, 4)]);
    assert_eq!(game.winner().player, Square::Empty);
    play(&mut game, &[(2, 2)]);
    assert_eq!(game.winner(), Winner { player: Square::PlayerX, x1: 2, y1: 4, x2: 2, y2: 0 });
}

#[test]
fn short_diagonal_through_a_corner_cell_does_not_win() {
    let mut game = Game::new();
    // X on (0,1) and (1,0): a diagonal of two that ends at the edges
    play(&mut game, &[(0, 1), (2, 2), (1, 0)]);
    assert_eq!(game.winner().player, Square::Empty);
    assert_eq!(game.scores(), (0, 0));
}

#[test]
fn winning_length_one_wins_with_the_first_mark() {
    let mut game = Game::with_size(3, 1).unwrap();
    game.hit(2, 0);
    assert_eq!(game.winner(), Winner { player: Square::PlayerX, x1: 2, y1: 0, x2: 2, y2: 0 });
    assert_eq!(game.scores(), (1, 0));
}

#[test]
fn set_size_replaces_the_board() {
    let mut game = Game::new();
    game.hit(0, 0);
    game.set_size(6);
    assert_eq!(game.size(), 6);
    assert_eq!(game.win_len(), 3);
    assert!(all_empty(&game));
    assert!(game.board().iter().all(|column| column.len() == 6));
    // the turn stays with the player who was to move
    assert_eq!(game.turn(), Square::PlayerO);
}

#[test]
fn set_size_below_three_changes_nothing() {
    let mut game = Game::with_size(4, 4).unwrap();
    game.hit(1, 2);
    game.set_size(2);
    assert_eq!(game.size(), 4);
    assert_eq!(cell(&game, 1, 2), Square::PlayerX);
    game.set_size(0);
    assert_eq!(game.size(), 4);
}

#[test]
fn set_size_shortens_a_winning_length_that_no_longer_fits() {
    let mut game = Game::with_size(6, 5).unwrap();
    game.set_size(4);
    assert_eq!(game.size(), 4);
    assert_eq!(game.win_len(), 4);
}

#[test]
fn scores_stay_at_their_maximum() {
    let mut game = Game::new();
    for round in 0..300u32 {
        play(&mut game, &[(0, 0), (1, 1), (0, 1), (2, 2), (0, 2)]);
        assert_eq!(game.winner().player, Square::PlayerX);
        let expected = if round + 1 < 255 { (round + 1) as u8 } else { 255 };
        assert_eq!(game.scores(), (expected, 0));
        game.rematch();
    }
    assert_eq!(game.scores(), (255, 0));
}
