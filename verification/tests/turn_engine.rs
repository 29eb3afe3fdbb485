use mastermind_core::adapter::{feedback_layout, game_update, MarkerKind, TurnEffect};
use mastermind_core::color::{PieceColor, PALETTE_SIZE};
use mastermind_core::engine::{Game, Mastermind, Outcome, Score};
use mastermind_core::turn::{is_all_some, some_code_to_code, State};

#[test]
fn color_indices_round_trip() {
    let all = [
        PieceColor::Black,
        PieceColor::White,
        PieceColor::Yellow,
        PieceColor::Blue,
        PieceColor::Red,
        PieceColor::Green,
    ];
    for (i, color) in all.iter().enumerate() {
        assert_eq!(color.value(), i);
        assert_eq!(PieceColor::from_value(i), *color);
    }
    assert_eq!(all.len(), PALETTE_SIZE);
}

#[test]
fn buffer_fullness_is_detected() {
    let mut code = [None, None, None, None];
    assert!(!is_all_some(&code));
    code = [Some(PieceColor::Red), Some(PieceColor::Red), None, Some(PieceColor::Red)];
    assert!(!is_all_some(&code));
    code[2] = Some(PieceColor::Blue);
    assert!(is_all_some(&code));
}

#[test]
fn empty_slots_flatten_to_the_first_color() {
    let code = [Some(PieceColor::Green), None, Some(PieceColor::White), None];
    let flat = some_code_to_code(&code);
    assert_eq!(
        flat,
        [PieceColor::Green, PieceColor::Black, PieceColor::White, PieceColor::Black]
    );
}

#[test]
fn initial_state_is_empty_row_zero() {
    let state = State::new();
    assert_eq!(state.row, 0);
    assert_eq!(state.code, [None, None, None, None]);
}

#[test]
fn engine_scores_one_exact_two_partial() {
    let secret = [PieceColor::Black, PieceColor::White, PieceColor::Yellow, PieceColor::Blue];
    let mut game = Game::with_secret(secret);
    let guess = [PieceColor::Black, PieceColor::Yellow, PieceColor::Blue, PieceColor::Green];
    match game.play(guess) {
        Outcome::Continuing { history } => {
            assert_eq!(history, vec![Score { exact: 1, partial: 2 }]);
        }
        Outcome::Finished { .. } => panic!("the game should continue on a wrong guess"),
    }
}

#[test]
fn engine_accumulates_history_in_order() {
    let secret = [PieceColor::Black, PieceColor::White, PieceColor::Yellow, PieceColor::Blue];
    let mut game = Game::with_secret(secret);
    let all_green = [PieceColor::Green; 4];
    match game.play(all_green) {
        Outcome::Continuing { history } => {
            assert_eq!(history, vec![Score { exact: 0, partial: 0 }]);
        }
        Outcome::Finished { .. } => panic!("all-green cannot break this secret"),
    }
    let guess = [PieceColor::Black, PieceColor::White, PieceColor::Blue, PieceColor::Yellow];
    match game.play(guess) {
        Outcome::Continuing { history } => {
            assert_eq!(
                history,
                vec![Score { exact: 0, partial: 0 }, Score { exact: 2, partial: 2 }]
            );
        }
        Outcome::Finished { .. } => panic!("two swapped pegs cannot break this secret"),
    }
}

#[test]
fn engine_finishes_on_the_exact_code() {
    let secret = [PieceColor::Red, PieceColor::Red, PieceColor::Green, PieceColor::Blue];
    let mut game = Game::with_secret(secret);
    match game.play(secret) {
        Outcome::Finished { secret: revealed } => assert_eq!(revealed, secret),
        Outcome::Continuing { .. } => panic!("the exact code must finish the game"),
    }
}

#[test]
fn random_session_plays_one_turn() {
    let mut game = Game::new();
    match game.play([PieceColor::Black, PieceColor::White, PieceColor::Yellow, PieceColor::Blue]) {
        Outcome::Continuing { history } => {
            assert_eq!(history.len(), 1);
            assert!(history[0].exact + history[0].partial <= 4);
            assert!(history[0].exact < 4);
        }
        Outcome::Finished { secret } => {
            assert_eq!(
                secret,
                [PieceColor::Black, PieceColor::White, PieceColor::Yellow, PieceColor::Blue]
            );
        }
    }
}

#[test]
fn feedback_layout_two_exact_one_partial() {
    let markers = feedback_layout(2, 1);
    assert_eq!(markers.len(), 3);
    assert_eq!(markers[0].kind, MarkerKind::Good);
    assert_eq!((markers[0].sub_col, markers[0].sub_row), (0, 0));
    assert_eq!(markers[1].kind, MarkerKind::Good);
    assert_eq!((markers[1].sub_col, markers[1].sub_row), (1, 0));
    assert_eq!(markers[2].kind, MarkerKind::Bad);
    assert_eq!((markers[2].sub_col, markers[2].sub_row), (0, 1));
}

#[test]
fn feedback_layout_fills_two_sub_rows_at_most() {
    let markers = feedback_layout(3, 1);
    assert_eq!(markers.len(), 4);
    for (i, marker) in markers.iter().enumerate() {
        assert_eq!(marker.sub_col as usize, i % 2);
        assert_eq!(marker.sub_row as usize, i / 2);
        assert_eq!(marker.kind, if i < 3 { MarkerKind::Good } else { MarkerKind::Bad });
    }
}

#[test]
fn adapter_idles_on_a_partial_buffer() {
    let secret = [PieceColor::Black, PieceColor::White, PieceColor::Yellow, PieceColor::Blue];
    let mut mastermind = Mastermind { state: Game::with_secret(secret) };
    let mut state = State::new();
    state.code[0] = Some(PieceColor::Red);
    let effect = game_update(&mut mastermind, &mut state).expect("no violation");
    assert!(matches!(effect, TurnEffect::Idle));
    assert_eq!(state.row, 0);
    assert_eq!(state.code[0], Some(PieceColor::Red));
}

#[test]
fn adapter_scores_a_full_buffer_once_and_clears_it() {
    let secret = [PieceColor::Black, PieceColor::White, PieceColor::Yellow, PieceColor::Blue];
    let mut mastermind = Mastermind { state: Game::with_secret(secret) };
    let mut state = State::new();
    state.code = [
        Some(PieceColor::Black),
        Some(PieceColor::Yellow),
        Some(PieceColor::Blue),
        Some(PieceColor::Green),
    ];
    match game_update(&mut mastermind, &mut state).expect("no violation") {
        TurnEffect::Scored { row, markers } => {
            assert_eq!(row, 0);
            assert_eq!(markers.len(), 3);
            assert_eq!(markers[0].kind, MarkerKind::Good);
            assert_eq!(markers[1].kind, MarkerKind::Bad);
            assert_eq!(markers[2].kind, MarkerKind::Bad);
        }
        _ => panic!("a fresh full buffer must be scored"),
    }
    assert_eq!(state.row, 1);
    assert_eq!(state.code, [None, None, None, None]);
    let effect = game_update(&mut mastermind, &mut state).expect("no violation");
    assert!(matches!(effect, TurnEffect::Idle));
    assert_eq!(state.row, 1);
}

#[test]
fn adapter_advances_one_row_per_submission() {
    let secret = [PieceColor::Black, PieceColor::White, PieceColor::Yellow, PieceColor::Blue];
    let mut mastermind = Mastermind { state: Game::with_secret(secret) };
    let mut state = State::new();
    state.code = [Some(PieceColor::Green); 4];
    game_update(&mut mastermind, &mut state).expect("no violation");
    assert_eq!(state.row, 1);
    state.code = [Some(PieceColor::Red); 4];
    game_update(&mut mastermind, &mut state).expect("no violation");
    assert_eq!(state.row, 2);
}

#[test]
fn adapter_reveals_the_secret_on_a_win() {
    let secret = [PieceColor::Red, PieceColor::Green, PieceColor::Blue, PieceColor::White];
    let mut mastermind = Mastermind { state: Game::with_secret(secret) };
    let mut state = State::new();
    state.code = [
        Some(PieceColor::Red),
        Some(PieceColor::Green),
        Some(PieceColor::Blue),
        Some(PieceColor::White),
    ];
    match game_update(&mut mastermind, &mut state).expect("no violation") {
        TurnEffect::Finished { secret: revealed } => assert_eq!(revealed, secret),
        _ => panic!("the exact code must finish the game"),
    }
    assert_eq!(state.row, 0);
}

#[test]
fn adapter_rejects_a_shrunken_history() {
    let secret = [PieceColor::Black, PieceColor::White, PieceColor::Yellow, PieceColor::Blue];
    let mut mastermind = Mastermind { state: Game::with_secret(secret) };
    let mut state = State::new();
    state.row = 5;
    state.code = [Some(PieceColor::Green); 4];
    assert!(game_update(&mut mastermind, &mut state).is_err());
    assert_eq!(state.row, 5);
}
