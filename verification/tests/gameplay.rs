use mastermind_core::adapter::{MarkerKind, TurnEffect};
use mastermind_core::color::PieceColor;
use mastermind_core::engine::{Game, Mastermind};
use mastermind_core::geometry::{Point, Selectable};
use mastermind_core::menu::{menu_clear, menu_setup};
use mastermind_core::modes::{AppState, Hook, ModeStack};
use mastermind_core::picking::{Piece, Position, Select};
use mastermind_core::selector::{ButtonEvent, MouseButton, MouseState, PointerButtonState, Selector};
use mastermind_core::session::{game_clear, game_setup, game_tick, restart, Session};
use mastermind_core::snapshots::Snapshots;
use mastermind_core::structure::{board_cells, palette_pieces, Structure};
use mastermind_core::turn::State;

fn click() -> Vec<ButtonEvent> {
    vec![
        ButtonEvent { button: MouseButton::Left, state: PointerButtonState::Pressed },
        ButtonEvent { button: MouseButton::Left, state: PointerButtonState::Released },
    ]
}

fn session_with_secret(secret: [PieceColor; 4]) -> Session {
    Session {
        mouse: MouseState { state: PointerButtonState::Released },
        selector: Selector { position: Point { x: 0, y: 0 }, selected: false },
        held: None,
        state: State::new(),
        mastermind: Mastermind { state: Game::with_secret(secret) },
        locked: false,
    }
}

fn game_board() -> (Vec<(Selectable, Piece)>, Vec<(u64, Selectable, Position)>) {
    let s = Structure::from_window(300, 600);
    let palette = palette_pieces(&s);
    let cells: Vec<(u64, Selectable, Position)> = board_cells(&s)
        .into_iter()
        .enumerate()
        .map(|(k, (region, position))| (100 + k as u64, region, position))
        .collect();
    (palette, cells)
}

fn palette_point(color_index: usize) -> Point {
    Point { x: color_index as i32 * 50 + 25, y: 25 }
}

fn cell_point(row: usize, col: usize) -> Point {
    Point { x: 25 + col as i32 * 50 + 25, y: 50 + row as i32 * 50 + 25 }
}

#[test]
fn full_round_scores_one_good_two_bad() {
    let secret = [PieceColor::Black, PieceColor::White, PieceColor::Yellow, PieceColor::Blue];
    let guess = [PieceColor::Black, PieceColor::Yellow, PieceColor::Blue, PieceColor::Green];
    let mut session = session_with_secret(secret);
    let (palette, cells) = game_board();

    for (col, color) in guess.iter().enumerate() {
        let pick = game_tick(
            &mut session,
            &vec![palette_point(color.value())],
            &click(),
            &palette,
            &cells,
        )
        .expect("no violation");
        assert!(pick.0.is_none());
        assert_eq!(session.held, Some(Select { piece: Piece { color: *color } }));

        let place = game_tick(
            &mut session,
            &vec![cell_point(0, col)],
            &click(),
            &palette,
            &cells,
        )
        .expect("no violation");
        let placed = place.0.expect("the click lands on the active row");
        assert_eq!(placed.row, 0);
        assert_eq!(placed.col as usize, col);
        assert_eq!(placed.color, *color);

        if col < 3 {
            assert!(matches!(place.1, TurnEffect::Idle));
            assert_eq!(session.state.code[col], Some(*color));
        } else {
            match place.1 {
                TurnEffect::Scored { row, markers } => {
                    assert_eq!(row, 0);
                    assert_eq!(markers.len(), 3);
                    assert_eq!(markers[0].kind, MarkerKind::Good);
                    assert_eq!((markers[0].sub_col, markers[0].sub_row), (0, 0));
                    assert_eq!(markers[1].kind, MarkerKind::Bad);
                    assert_eq!((markers[1].sub_col, markers[1].sub_row), (1, 0));
                    assert_eq!(markers[2].kind, MarkerKind::Bad);
                    assert_eq!((markers[2].sub_col, markers[2].sub_row), (0, 1));
                }
                _ => panic!("the fourth placement must score the row"),
            }
        }
    }

    assert_eq!(session.state.row, 1);
    assert_eq!(session.state.code, [None, None, None, None]);
    assert!(!session.selector.selected);
}

#[test]
fn guessing_the_secret_finishes_the_game() {
    let secret = [PieceColor::Red, PieceColor::Green, PieceColor::Blue, PieceColor::White];
    let mut session = session_with_secret(secret);
    let (palette, cells) = game_board();

    let mut last_effect = None;
    for (col, color) in secret.iter().enumerate() {
        game_tick(
            &mut session,
            &vec![palette_point(color.value())],
            &click(),
            &palette,
            &cells,
        )
        .expect("no violation");
        let place = game_tick(
            &mut session,
            &vec![cell_point(0, col)],
            &click(),
            &palette,
            &cells,
        )
        .expect("no violation");
        last_effect = Some(place.1);
    }
    match last_effect.expect("four placements happened") {
        TurnEffect::Finished { secret: revealed } => assert_eq!(revealed, secret),
        _ => panic!("the exact code must finish the game"),
    }
    assert_eq!(session.state.row, 0);
    assert!(session.locked);

    // The board is locked: the same clicks change nothing any more.
    let held_before = session.held;
    let r = game_tick(&mut session, &vec![palette_point(0)], &click(), &palette, &cells)
        .expect("no violation");
    assert!(r.0.is_none());
    assert!(matches!(r.1, TurnEffect::Idle));
    assert_eq!(session.held, held_before);
}

#[test]
fn a_click_is_consumed_by_at_most_one_consumer() {
    let secret = [PieceColor::Black, PieceColor::White, PieceColor::Yellow, PieceColor::Blue];
    let mut session = session_with_secret(secret);
    let (palette, cells) = game_board();

    // A click on a palette swatch picks up and leaves the buffer alone, even
    // though a held piece is already in hand.
    session.held = Some(Select { piece: Piece { color: PieceColor::Red } });
    let r = game_tick(&mut session, &vec![palette_point(5)], &click(), &palette, &cells)
        .expect("no violation");
    assert!(r.0.is_none());
    assert_eq!(session.held, Some(Select { piece: Piece { color: PieceColor::Green } }));
    assert_eq!(session.state.code, [None, None, None, None]);
}

#[test]
fn game_setup_registers_scope_and_enters_loading() {
    let mut snapshots = Snapshots::new();
    let mut stack = ModeStack::new(AppState::InGame);
    let (session, hooks) = game_setup(&mut snapshots, &mut stack);
    assert_eq!(hooks, vec![Hook::Pause(AppState::InGame), Hook::Enter(AppState::Loading)]);
    assert_eq!(stack.current(), AppState::Loading);
    assert_eq!(snapshots.get_snap(&String::from("Game")), Some(&Vec::new()));
    assert_eq!(session.state.row, 0);
    assert!(session.held.is_none());

    assert!(snapshots.push_entity(&String::from("Game"), 42));
    let removed = game_clear(&mut snapshots);
    assert_eq!(removed, vec![42]);
    let removed_again = game_clear(&mut snapshots);
    assert!(removed_again.is_empty());
}

#[test]
fn menu_setup_tracks_the_font_and_enters_loading() {
    let mut snapshots = Snapshots::new();
    let mut stack = ModeStack::new(AppState::Menu);
    let (loader, hooks) = menu_setup(&mut snapshots, &mut stack, 7);
    assert_eq!(hooks, vec![Hook::Pause(AppState::Menu), Hook::Enter(AppState::Loading)]);
    assert_eq!(loader.handles(), &vec![7]);
    assert_eq!(snapshots.get_snap(&String::from("Menu")), Some(&Vec::new()));

    assert!(snapshots.push_entity(&String::from("Menu"), 3));
    let removed = menu_clear(&mut snapshots);
    assert_eq!(removed, vec![3]);
}

#[test]
fn restart_resets_the_stack_into_a_fresh_game() {
    let mut stack = ModeStack::new(AppState::Menu);
    stack.push(AppState::Restart);
    let hooks = restart(&mut stack);
    assert_eq!(
        hooks,
        vec![
            Hook::Exit(AppState::Restart),
            Hook::Exit(AppState::Menu),
            Hook::Enter(AppState::InGame),
        ]
    );
    assert_eq!(stack.current(), AppState::InGame);
    assert!(stack.pop().is_err());
}
