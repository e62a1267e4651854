use tictactoe::action::Action;
use tictactoe::app::App;
use tictactoe::components::game_selection::GameSelection;
use tictactoe::components::local_game::LocalGame;
use tictactoe::components::Component;
use tictactoe::event::{Event, KeyCode, KeyEvent, KeyEventKind};

fn key(code: KeyCode) -> Option<Event> {
    Some(Event::Key(KeyEvent::press(code)))
}

#[test]
fn app_begins_with_the_main_menu() {
    let app = App::new();
    match app.component() {
        Component::MainMenu(menu) => assert_eq!(menu.selected(), 0),
        _ => panic!("the program begins with the main menu"),
    }
}

#[test]
fn handle_action_applies_the_action() {
    let mut app = App::new();
    assert!(app.handle_action(Action::Continue));
    assert!(matches!(app.component(), Component::MainMenu(_)));
    assert!(app.handle_action(Action::ChangeComponent(Component::LocalGame(LocalGame::new()))));
    assert!(matches!(app.component(), Component::LocalGame(_)));
    assert!(app.handle_action(Action::ChangeComponent(Component::GameSelection(GameSelection::new()))));
    assert!(matches!(app.component(), Component::GameSelection(_)));
    assert!(!app.handle_action(Action::Quit));
    assert!(matches!(app.component(), Component::GameSelection(_)));
}

#[test]
fn update_changes_nothing_and_goes_on() {
    let mut app = App::new();
    assert!(app.handle_event(key(KeyCode::Down)));
    assert!(app.update());
    match app.component() {
        Component::MainMenu(menu) => assert_eq!(menu.selected(), 1),
        _ => panic!("the main menu stays"),
    }
}

#[test]
fn events_other_than_key_presses_change_nothing() {
    let mut app = App::new();
    assert!(app.handle_event(None));
    assert!(app.handle_event(Some(Event::Other)));
    assert!(app.handle_event(Some(Event::Paste(String::from("q")))));
    assert!(app.handle_event(Some(Event::Key(KeyEvent { code: KeyCode::Char('q'), kind: KeyEventKind::Release }))));
    match app.component() {
        Component::MainMenu(menu) => assert_eq!(menu.selected(), 0),
        _ => panic!("the main menu stays"),
    }
}

#[test]
fn paste_and_update_of_a_screen_change_nothing() {
    let mut screen = Component::LocalGame(LocalGame::new());
    assert!(matches!(screen.handle_paste(String::from("\n")), Action::Continue));
    assert!(matches!(screen.update(), Action::Continue));
    assert!(matches!(screen.handle_event(None), Action::Continue));
    match &screen {
        Component::LocalGame(game) => {
            assert_eq!(game.selected(), (1, 1));
            assert!(!game.pause().is_open());
        },
        _ => panic!("the screen stays"),
    }
}

#[test]
fn navigation_from_the_menu_into_a_game_and_back() {
    let mut app = App::new();
    // Local leads to the game selection, its first entry to the classic game
    assert!(app.handle_event(key(KeyCode::Enter)));
    assert!(matches!(app.component(), Component::GameSelection(_)));
    assert!(app.handle_event(key(KeyCode::Enter)));
    assert!(matches!(app.component(), Component::LocalGame(_)));
    // a move, then the pause menu, then back to the selection
    assert!(app.handle_event(key(KeyCode::Enter)));
    for code in [KeyCode::Esc, KeyCode::Down, KeyCode::Down, KeyCode::Down, KeyCode::Enter] {
        assert!(app.handle_event(key(code)));
    }
    match app.component() {
        Component::GameSelection(selection) => assert_eq!(selection.selected(), 0),
        _ => panic!("the pause menu leads back to the game selection"),
    }
    // Quit ends the program and leaves the screen
    assert!(app.handle_event(key(KeyCode::Down)));
    assert!(!app.handle_event(key(KeyCode::Enter)));
    assert!(matches!(app.component(), Component::GameSelection(_)));
}

#[test]
fn navigation_into_the_other_games() {
    let mut app = App::new();
    assert!(app.handle_event(key(KeyCode::Down)));
    assert!(app.handle_event(key(KeyCode::Enter)));
    assert!(matches!(app.component(), Component::NormalLocalGame(_)));
    for code in [KeyCode::Esc, KeyCode::Down, KeyCode::Down, KeyCode::Down, KeyCode::Enter] {
        assert!(app.handle_event(key(code)));
    }
    assert!(matches!(app.component(), Component::MainMenu(_)));
    assert!(app.handle_event(key(KeyCode::Down)));
    assert!(app.handle_event(key(KeyCode::Down)));
    assert!(app.handle_event(key(KeyCode::Enter)));
    match app.component() {
        Component::SuperLocalGame(screen) => assert!(screen.in_setup()),
        _ => panic!("the third entry starts a nested game"),
    }
    // Enter ends the choice of the size
    assert!(app.handle_event(key(KeyCode::Enter)));
    // q does not quit a game: only its pause menu does
    assert!(app.handle_event(key(KeyCode::Char('q'))));
    for code in [KeyCode::Esc, KeyCode::Up, KeyCode::Down, KeyCode::Down, KeyCode::Down, KeyCode::Down] {
        assert!(app.handle_event(key(code)));
    }
    assert!(!app.handle_event(key(KeyCode::Enter)));
}

#[test]
fn q_quits_from_the_main_menu() {
    let mut app = App::new();
    assert!(!app.handle_event(key(KeyCode::Char('q'))));
    assert!(matches!(app.component(), Component::MainMenu(_)));
}
