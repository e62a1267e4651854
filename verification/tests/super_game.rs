use tictactoe::action::Action;
use tictactoe::components::game::{Square, Winner};
use tictactoe::components::super_game::SuperGame;
use tictactoe::event::{KeyCode, KeyEvent};

fn key(game: &mut SuperGame, code: KeyCode) {
    let action = game.handle_key_event(KeyEvent::press(code));
    assert!(matches!(action, Action::Continue));
}

/// The cursor that the keys steer: the meta-board's while a sub-game is
/// chosen, the active sub-game's else.
fn cursor(game: &SuperGame) -> (usize, usize) {
    let meta = game.managing_game().selected();
    if game.selecting_game() {
        meta
    } else {
        game.games()[meta.0][meta.1].selected()
    }
}

fn steer(game: &mut SuperGame, x: usize, y: usize) {
    while cursor(game).0 < x {
        key(game, KeyCode::Right);
    }
    while cursor(game).0 > x {
        key(game, KeyCode::Left);
    }
    while cursor(game).1 < y {
        key(game, KeyCode::Up);
    }
    while cursor(game).1 > y {
        key(game, KeyCode::Down);
    }
    assert_eq!(cursor(game), (x, y));
}

fn pick(game: &mut SuperGame, i: usize, j: usize) {
    assert!(game.selecting_game());
    steer(game, i, j);
    key(game, KeyCode::Enter);
}

fn play(game: &mut SuperGame, r: usize, c: usize) {
    assert!(!game.selecting_game());
    steer(game, r, c);
    key(game, KeyCode::Enter);
}

fn shown(game: &SuperGame) -> Vec<(usize, usize)> {
    let mut places = Vec::new();
    for (i, column) in game.games().iter().enumerate() {
        for (j, sub) in column.iter().enumerate() {
            if sub.show_selector() {
                places.push((i, j));
            }
        }
    }
    places
}

fn meta_is_empty(game: &SuperGame) -> bool {
    game.managing_game().board().iter().all(|column| column.iter().all(|c| *c == Square::Empty))
}

fn script(game: &mut SuperGame, moves: &[(usize, usize)]) {
    for &(r, c) in moves {
        play(game, r, c);
    }
}

#[test]
fn new_nested_game_lets_the_player_choose() {
    let game = SuperGame::new();
    assert!(game.selecting_game());
    assert_eq!(game.games().len(), 3);
    assert!(game.games().iter().all(|column| column.len() == 3));
    assert!(shown(&game).is_empty());
    assert!(game.managing_game().show_selector());
    assert_eq!(game.managing_game().selected(), (1, 1));
    assert_eq!(game.managing_game().size(), 3);
    assert_eq!(game.managing_game().turn(), Square::PlayerX);
    assert!(meta_is_empty(&game));
    for column in game.games() {
        for sub in column {
            assert_eq!(sub.size(), 3);
            assert_eq!(sub.selected(), (1, 1));
            assert_eq!(sub.winner().player, Square::Empty);
        }
    }
}

#[test]
fn keys_move_the_meta_cursor_while_choosing() {
    let mut game = SuperGame::new();
    key(&mut game, KeyCode::Left);
    key(&mut game, KeyCode::Up);
    assert_eq!(game.managing_game().selected(), (0, 2));
    assert!(game.selecting_game());
    assert!(shown(&game).is_empty());
    assert!(meta_is_empty(&game));
    for column in game.games() {
        for sub in column {
            assert_eq!(sub.selected(), (1, 1));
            assert!(sub.board().iter().all(|col| col.iter().all(|c| *c == Square::Empty)));
        }
    }
}

#[test]
fn enter_activates_the_chosen_sub_game() {
    let mut game = SuperGame::new();
    pick(&mut game, 2, 0);
    assert!(!game.selecting_game());
    assert!(!game.managing_game().show_selector());
    assert_eq!(game.managing_game().selected(), (2, 0));
    assert_eq!(shown(&game), vec![(2, 0)]);
    assert_eq!(game.games()[2][0].turn(), Square::PlayerX);
    assert!(meta_is_empty(&game));
}

#[test]
fn move_sends_play_to_the_matching_sub_game() {
    let mut game = SuperGame::new();
    pick(&mut game, 0, 0);
    play(&mut game, 1, 2);
    assert_eq!(game.games()[0][0].board()[1][2], Square::PlayerX);
    assert_eq!(game.games()[0][0].winner().player, Square::Empty);
    assert!(!game.selecting_game());
    assert_eq!(game.managing_game().selected(), (1, 2));
    assert_eq!(shown(&game), vec![(1, 2)]);
    assert_eq!(game.managing_game().turn(), Square::PlayerO);
    assert_eq!(game.games()[1][2].turn(), Square::PlayerO);
    assert!(meta_is_empty(&game));
    assert_eq!(game.managing_game().winner().player, Square::Empty);
}

#[test]
fn cursor_keys_in_a_sub_game_are_no_move() {
    let mut game = SuperGame::new();
    pick(&mut game, 1, 1);
    key(&mut game, KeyCode::Up);
    key(&mut game, KeyCode::Right);
    assert_eq!(game.games()[1][1].selected(), (2, 2));
    assert_eq!(game.managing_game().selected(), (1, 1));
    assert_eq!(game.managing_game().turn(), Square::PlayerX);
    assert_eq!(shown(&game), vec![(1, 1)]);
    assert!(!game.selecting_game());
}

#[test]
fn hit_on_an_occupied_cell_of_a_sub_game_is_no_move() {
    let mut game = SuperGame::new();
    pick(&mut game, 1, 1);
    play(&mut game, 1, 1);
    // play stays in the sub-game (1, 1); its centre is taken
    assert_eq!(game.managing_game().selected(), (1, 1));
    key(&mut game, KeyCode::Enter);
    assert_eq!(game.managing_game().selected(), (1, 1));
    assert_eq!(game.managing_game().turn(), Square::PlayerO);
    assert_eq!(game.games()[1][1].turn(), Square::PlayerO);
    assert_eq!(game.games()[1][1].board()[1][1], Square::PlayerX);
    assert_eq!(shown(&game), vec![(1, 1)]);
}

#[test]
fn move_to_a_decided_sub_game_lets_the_player_choose() {
    let mut game = SuperGame::new();
    pick(&mut game, 0, 1);
    // X plays in the sub-game (0, 1), O is sent away and sends X back
    script(&mut game, &[(0, 2), (0, 1), (0, 0), (0, 1)]);
    assert_eq!(game.managing_game().selected(), (0, 1));
    assert_eq!(game.games()[0][1].winner().player, Square::Empty);
    assert!(!game.selecting_game());
    // X completes the row x = 0 of the sub-game (0, 1) with its cell (0, 1)
    play(&mut game, 0, 1);
    assert_eq!(game.games()[0][1].winner(), Winner { player: Square::PlayerX, x1: 0, y1: 2, x2: 0, y2: 0 });
    assert_eq!(game.managing_game().board()[0][1], Square::PlayerX);
    // the sub-game that the move leads to is decided
    assert!(game.selecting_game());
    assert_eq!(game.managing_game().selected(), (1, 1));
    assert!(game.managing_game().show_selector());
    assert!(shown(&game).is_empty());
    assert_eq!(game.managing_game().turn(), Square::PlayerO);
    assert_eq!(game.managing_game().winner().player, Square::Empty);
    assert_eq!(game.managing_game().scores(), (0, 0));
}

#[test]
fn decided_sub_game_cannot_be_chosen() {
    let mut game = SuperGame::new();
    pick(&mut game, 0, 1);
    script(&mut game, &[(0, 2), (0, 1), (0, 0), (0, 1), (0, 1)]);
    assert!(game.selecting_game());
    steer(&mut game, 0, 1);
    key(&mut game, KeyCode::Enter);
    assert!(game.selecting_game());
    assert_eq!(game.managing_game().selected(), (0, 1));
    assert!(shown(&game).is_empty());
    assert!(game.managing_game().show_selector());
    // an undecided one can
    pick(&mut game, 2, 2);
    assert!(!game.selecting_game());
    assert_eq!(shown(&game), vec![(2, 2)]);
    assert_eq!(game.games()[2][2].turn(), Square::PlayerO);
    assert!(!game.managing_game().show_selector());
}

#[test]
fn three_sub_games_in_a_line_win_the_nested_game() {
    let mut game = SuperGame::new();
    pick(&mut game, 0, 2);
    let moves = [
        (0, 2), (1, 0), (1, 1), (2, 0), (2, 2), (1, 1), (2, 1), (0, 0), (2, 1), (1, 1), (1, 1), (0, 2),
        (0, 0), (0, 2), (0, 1), (0, 0), (0, 0), (2, 0), (0, 0), (1, 1), (0, 1), (2, 0), (2, 1), (2, 0),
    ];
    script(&mut game, &moves);
    assert_eq!(game.managing_game().winner().player, Square::Empty);
    assert_eq!(game.managing_game().board()[0][2], Square::PlayerX);
    assert_eq!(game.managing_game().board()[1][1], Square::PlayerX);
    assert_eq!(game.managing_game().board()[2][0], Square::Empty);
    assert_eq!(game.managing_game().selected(), (2, 0));
    play(&mut game, 1, 1);
    assert_eq!(game.games()[0][2].winner().player, Square::PlayerX);
    assert_eq!(game.games()[1][1].winner().player, Square::PlayerX);
    assert_eq!(game.games()[2][0].winner().player, Square::PlayerX);
    assert_eq!(
        game.managing_game().winner(),
        Winner { player: Square::PlayerX, x1: 2, y1: 0, x2: 0, y2: 2 }
    );
    assert_eq!(game.managing_game().scores(), (1, 0));
    assert_eq!(game.managing_game().board()[2][0], Square::PlayerX);
    assert_eq!(game.managing_game().board()[0][0], Square::PlayerO);
    assert_eq!(game.managing_game().turn(), Square::PlayerO);
    assert!(game.selecting_game());
    assert_eq!(game.managing_game().selected(), (1, 1));
    assert!(shown(&game).is_empty());
}

#[test]
fn nested_rematch_keeps_the_scores_and_restart_clears_them() {
    let mut game = SuperGame::new();
    pick(&mut game, 0, 2);
    let moves = [
        (0, 2), (1, 0), (1, 1), (2, 0), (2, 2), (1, 1), (2, 1), (0, 0), (2, 1), (1, 1), (1, 1), (0, 2),
        (0, 0), (0, 2), (0, 1), (0, 0), (0, 0), (2, 0), (0, 0), (1, 1), (0, 1), (2, 0), (2, 1), (2, 0),
        (1, 1),
    ];
    script(&mut game, &moves);
    assert_eq!(game.managing_game().scores(), (1, 0));
    game.rematch();
    assert!(game.selecting_game());
    assert!(meta_is_empty(&game));
    assert_eq!(game.managing_game().winner().player, Square::Empty);
    assert_eq!(game.managing_game().turn(), Square::PlayerX);
    assert_eq!(game.managing_game().scores(), (1, 0));
    assert_eq!(game.managing_game().selected(), (1, 1));
    assert!(game.managing_game().show_selector());
    assert!(shown(&game).is_empty());
    for column in game.games() {
        for sub in column {
            assert_eq!(sub.winner().player, Square::Empty);
            assert!(sub.board().iter().all(|col| col.iter().all(|c| *c == Square::Empty)));
        }
    }
    pick(&mut game, 0, 0);
    play(&mut game, 2, 2);
    game.restart();
    assert!(game.selecting_game());
    assert_eq!(game.managing_game().scores(), (0, 0));
    assert_eq!(game.games()[0][0].board()[2][2], Square::Empty);
    assert!(shown(&game).is_empty());
}

#[test]
fn nested_set_size_resizes_every_board() {
    let mut game = SuperGame::new();
    game.set_size(4);
    assert_eq!(game.managing_game().size(), 4);
    assert_eq!(game.managing_game().selected(), (2, 2));
    assert_eq!(game.games().len(), 4);
    for column in game.games() {
        assert_eq!(column.len(), 4);
        for sub in column {
            assert_eq!(sub.size(), 4);
            assert_eq!(sub.selected(), (2, 2));
            assert!(!sub.show_selector());
            assert_eq!(sub.game().win_len(), 3);
        }
    }
    assert!(game.selecting_game());
    game.set_size(2);
    assert_eq!(game.managing_game().size(), 4);
    assert_eq!(game.games().len(), 4);
    // play on the larger grid: the cell (3, 0) of the sub-game (0, 3) leads to the sub-game (3, 0)
    pick(&mut game, 0, 3);
    play(&mut game, 3, 0);
    assert_eq!(game.managing_game().selected(), (3, 0));
    assert_eq!(shown(&game), vec![(3, 0)]);
}
