use mastermind_core::geometry::Point;
use mastermind_core::loading::{check_assets_ready, AssetsLoading, LoadState};
use mastermind_core::menu::menu_backdrop_pieces;
use mastermind_core::modes::{AppState, Hook, ModeStack};
use mastermind_core::snapshots::Snapshots;
use mastermind_core::structure::{
    board_cells, marker_position, palette_pieces, piece_draw_position, secret_draw_position,
    Structure,
};
use mastermind_core::adapter::{Marker, MarkerKind};
use mastermind_core::color::PieceColor;

#[test]
fn snapshots_snap_replaces_wholesale() {
    let mut snapshots = Snapshots::new();
    let name = String::from("Game");
    assert!(snapshots.get_snap(&name).is_none());
    snapshots.snap(&name, vec![1, 2, 3]);
    assert_eq!(snapshots.get_snap(&name), Some(&vec![1, 2, 3]));
    snapshots.snap(&name, Vec::new());
    assert_eq!(snapshots.get_snap(&name), Some(&Vec::new()));
}

#[test]
fn snapshots_push_entity_appends_to_known_scope() {
    let mut snapshots = Snapshots::new();
    let name = String::from("Menu");
    assert!(!snapshots.push_entity(&name, 9));
    snapshots.snap(&name, Vec::new());
    assert!(snapshots.push_entity(&name, 9));
    assert!(snapshots.push_entity(&name, 11));
    assert_eq!(snapshots.get_snap(&name), Some(&vec![9, 11]));
}

#[test]
fn snapshots_scopes_are_independent() {
    let mut snapshots = Snapshots::new();
    let game = String::from("Game");
    let menu = String::from("Menu");
    snapshots.snap(&game, vec![1]);
    snapshots.snap(&menu, vec![2]);
    snapshots.clear(&game);
    assert_eq!(snapshots.get_snap(&menu), Some(&vec![2]));
    assert_eq!(snapshots.get_snap(&game), Some(&Vec::new()));
}

#[test]
fn snapshots_clear_twice_is_a_no_op_the_second_time() {
    let mut snapshots = Snapshots::new();
    let name = String::from("Game");
    snapshots.snap(&name, vec![4, 5]);
    let first = snapshots.clear(&name);
    assert_eq!(first, vec![4, 5]);
    let second = snapshots.clear(&name);
    assert!(second.is_empty());
    assert_eq!(snapshots.get_snap(&name), Some(&Vec::new()));
}

#[test]
fn snapshots_clear_of_unknown_scope_is_a_no_op() {
    let mut snapshots = Snapshots::new();
    let removed = snapshots.clear(&String::from("Nowhere"));
    assert!(removed.is_empty());
    assert!(snapshots.get_snap(&String::from("Nowhere")).is_none());
}

#[test]
fn mode_push_pauses_and_enters() {
    let mut stack = ModeStack::new(AppState::Menu);
    assert_eq!(stack.current(), AppState::Menu);
    let hooks = stack.push(AppState::Loading);
    assert_eq!(hooks, vec![Hook::Pause(AppState::Menu), Hook::Enter(AppState::Loading)]);
    assert_eq!(stack.current(), AppState::Loading);
}

#[test]
fn mode_pop_resumes_the_mode_beneath_exactly_once() {
    let mut stack = ModeStack::new(AppState::Menu);
    stack.push(AppState::Loading);
    let hooks = stack.pop().expect("a mode lies beneath");
    assert_eq!(hooks, vec![Hook::Resume(AppState::Menu)]);
    assert_eq!(stack.current(), AppState::Menu);
}

#[test]
fn mode_pop_of_the_last_mode_fails_loudly() {
    let mut stack = ModeStack::new(AppState::Menu);
    assert!(stack.pop().is_err());
    assert_eq!(stack.current(), AppState::Menu);
}

#[test]
fn mode_set_exits_everything_then_enters() {
    let mut stack = ModeStack::new(AppState::Menu);
    stack.push(AppState::Restart);
    let hooks = stack.set(AppState::InGame);
    assert_eq!(
        hooks,
        vec![
            Hook::Exit(AppState::Restart),
            Hook::Exit(AppState::Menu),
            Hook::Enter(AppState::InGame),
        ]
    );
    assert_eq!(stack.current(), AppState::InGame);
    assert!(stack.pop().is_err());
}

#[test]
fn loading_pops_only_on_loaded() {
    let mut stack = ModeStack::new(AppState::Menu);
    stack.push(AppState::Loading);
    let mut loader = AssetsLoading::new();
    loader.add(7);

    let hooks = check_assets_ready(&mut stack, &mut loader, LoadState::Loading).expect("no underflow");
    assert!(hooks.is_empty());
    assert_eq!(stack.current(), AppState::Loading);
    assert_eq!(loader.handles(), &vec![7]);

    let hooks = check_assets_ready(&mut stack, &mut loader, LoadState::Failed).expect("no underflow");
    assert!(hooks.is_empty());
    assert_eq!(stack.current(), AppState::Loading);

    let hooks = check_assets_ready(&mut stack, &mut loader, LoadState::Loaded).expect("no underflow");
    assert_eq!(hooks, vec![Hook::Resume(AppState::Menu)]);
    assert_eq!(stack.current(), AppState::Menu);
    assert!(loader.handles().is_empty());
}

#[test]
fn structure_fits_the_reference_window() {
    let s = Structure::from_window(300, 600);
    assert_eq!(s.piece_size, 50);
    assert_eq!(s.pieces_position, Point { x: 0, y: 0 });
    assert_eq!(s.boardgame_position, Point { x: 25, y: 50 });
    assert_eq!(s.secrets_position, Point { x: 25, y: 500 });
}

#[test]
fn board_cells_cover_ten_rows_of_four() {
    let s = Structure::from_window(300, 600);
    let cells = board_cells(&s);
    assert_eq!(cells.len(), 40);
    for (k, (region, position)) in cells.iter().enumerate() {
        assert_eq!(position.row as usize, k / 4);
        assert_eq!(position.col as usize, k % 4);
        let center = Point {
            x: 25 + (k % 4) as i32 * 50 + 25,
            y: 50 + (k / 4) as i32 * 50 + 25,
        };
        assert!(region.is_selected(&center));
        assert!(region.is_selected(&Point { x: center.x + 25, y: center.y }));
        assert!(!region.is_selected(&Point { x: center.x + 26, y: center.y }));
    }
}

#[test]
fn palette_offers_the_six_colors_in_order() {
    let s = Structure::from_window(300, 600);
    let pieces = palette_pieces(&s);
    assert_eq!(pieces.len(), 6);
    for (k, (region, piece)) in pieces.iter().enumerate() {
        assert_eq!(piece.color, PieceColor::from_value(k));
        let center = Point { x: k as i32 * 50 + 25, y: 25 };
        assert!(region.is_selected(&center));
        assert!(!region.is_selected(&Point { x: center.x, y: center.y + 26 }));
    }
}

#[test]
fn marker_positions_shift_only_with_the_row() {
    let s = Structure::from_window(300, 600);
    let marker = Marker { kind: MarkerKind::Good, sub_col: 1, sub_row: 1 };
    let at_row_0 = marker_position(&s, 0, &marker);
    let at_row_2 = marker_position(&s, 2, &marker);
    assert_eq!(at_row_0, Point { x: 25 - 12 + 200 + 25, y: 50 - 12 + 25 });
    assert_eq!(at_row_2.x, at_row_0.x);
    assert_eq!(at_row_2.y, at_row_0.y + 100);
}

#[test]
fn draw_positions_follow_the_grid() {
    let s = Structure::from_window(300, 600);
    assert_eq!(piece_draw_position(&s, 0, 0), Point { x: 25, y: 50 });
    assert_eq!(piece_draw_position(&s, 3, 2), Point { x: 125, y: 200 });
    assert_eq!(secret_draw_position(&s, 1), Point { x: 75, y: 550 });
}

#[test]
fn menu_backdrop_stays_on_its_field() {
    let mut ever_sparse = false;
    let mut colors_seen = std::collections::BTreeSet::new();
    for _ in 0..20 {
        let pieces = menu_backdrop_pieces();
        assert!(pieces.len() <= 14 * 6);
        ever_sparse = ever_sparse || pieces.len() < 14 * 6;
        let mut last_slot: Option<u32> = None;
        for (row, col, color) in pieces.iter() {
            assert!(*row < 14);
            assert!(*col < 6);
            colors_seen.insert(color.value());
            let slot = row * 6 + col;
            if let Some(prev) = last_slot {
                assert!(prev < slot);
            }
            last_slot = Some(slot);
        }
    }
    // Twenty backdrops with every cell filled, or all in one color, would
    // mean the dice were not rolled at all.
    assert!(ever_sparse);
    assert!(colors_seen.len() > 1);
}
