use shogi_session::codec::{decode, encode, FragmentError};
use shogi_session::engine::Tables;
use shogi_session::intent::{MoveIntentBuilder, Origin};
use shogi_session::pieces::{Color, Piece, PieceType, Square};
use shogi_session::session::{Session, START_SFEN};

fn sq(file: u8, rank: u8) -> Square {
    Square::new(file, rank).unwrap()
}

fn session_at(sfen: &str) -> Session {
    let fragment = format!("#{}", base64::encode(sfen));
    let session = Session::new(&fragment).unwrap();
    assert_eq!(session.position().to_sfen(), sfen);
    session
}

fn click(session: &mut Session, square: Square) -> bool {
    session.click_square(square).unwrap()
}

fn history_len(session: &Session) -> usize {
    session.position().move_history().len()
}

#[test]
fn empty_fragment_starts_from_standard_position() {
    let session = Session::new("").unwrap();
    assert_eq!(session.position().to_sfen(), START_SFEN);
    assert_eq!(session.move_intent(), MoveIntentBuilder::NoIntent);
    assert!(!session.can_undo());
}

#[test]
fn start_fragment_has_exact_value() {
    let session = Session::new("").unwrap();
    assert_eq!(
        session.fragment(),
        "#bG5zZ2tnc25sLzFyNWIxL3BwcHBwcHBwcC85LzkvOS9QUFBQUFBQUFAvMUI1UjEvTE5TR0tHU05MIGIgLSAx"
    );
}

#[test]
fn origin_candidates_are_pieces_of_side_to_move() {
    let session = Session::new("").unwrap();
    let candidates = session.origin_candidates();
    assert_eq!(candidates.len(), 20);
    for s in candidates.iter() {
        let piece = shogi_session::intent::piece_at(session.position(), *s).unwrap();
        assert_eq!(piece.color, Color::Black);
    }
    for w in candidates.windows(2) {
        assert!(w[0].index < w[1].index);
    }
}

#[test]
fn clicking_own_piece_offers_exactly_reachable_squares() {
    let tables = Tables::new();
    let mut session = Session::new("").unwrap();
    let origin = sq(6, 6);
    assert!(!click(&mut session, origin));
    let intent = session.move_intent();
    assert_eq!(intent, MoveIntentBuilder::WithOrigin { from: Origin::SquarePiece(origin) });
    let destinations = session.destination_candidates();
    assert_eq!(destinations, vec![sq(6, 5)]);
    for i in 0..81u8 {
        let s = Square::from_index(i).unwrap();
        assert_eq!(destinations.contains(&s), intent.can_move_to(&tables, s, session.position()));
    }
    assert!(session.origin_candidates().is_empty());
    assert_eq!(
        session.ghost_piece(),
        Some(Piece { piece_type: PieceType::Pawn, color: Color::Black })
    );
}

#[test]
fn clicking_opponent_or_empty_square_does_nothing() {
    let mut session = Session::new("").unwrap();
    assert!(!click(&mut session, sq(6, 2)));
    assert_eq!(session.move_intent(), MoveIntentBuilder::NoIntent);
    assert!(!click(&mut session, sq(4, 4)));
    assert_eq!(session.move_intent(), MoveIntentBuilder::NoIntent);
}

#[test]
fn clicking_unreachable_square_cancels() {
    let mut session = Session::new("").unwrap();
    click(&mut session, sq(6, 6));
    assert!(!click(&mut session, sq(6, 3)));
    assert_eq!(session.move_intent(), MoveIntentBuilder::NoIntent);
    assert_eq!(history_len(&session), 0);
}

#[test]
fn pawn_push_from_start_applies_without_prompt() {
    let mut session = Session::new("").unwrap();
    click(&mut session, sq(6, 6));
    assert!(click(&mut session, sq(6, 5)));
    assert_eq!(session.move_intent(), MoveIntentBuilder::NoIntent);
    assert_eq!(history_len(&session), 1);
    assert_eq!(shogi_session::intent::side_to_move(session.position()), Color::White);
    assert_eq!(session.previous_move(), Some((Some(sq(6, 6)), sq(6, 5))));
    assert_eq!(
        session.position().to_sfen(),
        "lnsgkgsnl/1r5b1/ppppppppp/9/9/9/PPPPPPPPP/1B5R1/LNSGKGSNL b - 1 moves 7g7f"
    );
}

#[test]
fn king_step_resolves_to_no_promotion() {
    let tables = Tables::new();
    let mut session = session_at("4k4/9/9/9/9/9/9/9/4K4 b - 1");
    let from = Origin::SquarePiece(sq(4, 8));
    let chosen = MoveIntentBuilder::WithDestination { from, to: sq(4, 7) };
    assert!(!chosen.must_promote(&tables, session.position()));
    assert!(chosen.cant_promote(&tables, session.position()));
    click(&mut session, sq(4, 8));
    assert!(click(&mut session, sq(4, 7)));
    assert_eq!(session.move_intent(), MoveIntentBuilder::NoIntent);
    assert_eq!(session.promotion_prompt_piece(), None);
    assert_eq!(
        shogi_session::intent::piece_at(session.position(), sq(4, 7)),
        Some(Piece { piece_type: PieceType::King, color: Color::Black })
    );
}

#[test]
fn pawn_onto_last_rank_must_promote() {
    let tables = Tables::new();
    let mut session = session_at("4k4/P8/9/9/9/9/9/9/4K4 b - 1");
    let from = Origin::SquarePiece(sq(8, 1));
    let chosen = MoveIntentBuilder::WithDestination { from, to: sq(8, 0) };
    assert!(chosen.must_promote(&tables, session.position()));
    assert!(!chosen.cant_promote(&tables, session.position()));
    click(&mut session, sq(8, 1));
    assert!(click(&mut session, sq(8, 0)));
    assert_eq!(session.move_intent(), MoveIntentBuilder::NoIntent);
    assert_eq!(
        shogi_session::intent::piece_at(session.position(), sq(8, 0)),
        Some(Piece { piece_type: PieceType::ProPawn, color: Color::Black })
    );
}

#[test]
fn silver_entering_zone_asks_for_promotion() {
    let tables = Tables::new();
    let mut session = session_at("4k4/9/9/4S4/9/9/9/9/4K4 b - 1");
    let from = Origin::SquarePiece(sq(4, 3));
    let chosen = MoveIntentBuilder::WithDestination { from, to: sq(4, 2) };
    assert!(!chosen.must_promote(&tables, session.position()));
    assert!(!chosen.cant_promote(&tables, session.position()));
    click(&mut session, sq(4, 3));
    assert!(!click(&mut session, sq(4, 2)));
    assert_eq!(session.move_intent(), chosen);
    assert_eq!(
        session.promotion_prompt_piece(),
        Some(Piece { piece_type: PieceType::Silver, color: Color::Black })
    );
    assert_eq!(history_len(&session), 0);
    assert_eq!(session.choose_promotion(true), Ok(()));
    assert_eq!(session.move_intent(), MoveIntentBuilder::NoIntent);
    assert_eq!(
        shogi_session::intent::piece_at(session.position(), sq(4, 2)),
        Some(Piece { piece_type: PieceType::ProSilver, color: Color::Black })
    );
}

#[test]
fn silver_declining_promotion_keeps_silver() {
    let mut session = session_at("4k4/9/9/4S4/9/9/9/9/4K4 b - 1");
    click(&mut session, sq(4, 3));
    click(&mut session, sq(4, 2));
    assert_eq!(session.choose_promotion(false), Ok(()));
    assert_eq!(
        shogi_session::intent::piece_at(session.position(), sq(4, 2)),
        Some(Piece { piece_type: PieceType::Silver, color: Color::Black })
    );
}

#[test]
fn click_while_prompting_cancels() {
    let mut session = session_at("4k4/9/9/4S4/9/9/9/9/4K4 b - 1");
    click(&mut session, sq(4, 3));
    click(&mut session, sq(4, 2));
    assert!(!click(&mut session, sq(4, 2)));
    assert_eq!(session.move_intent(), MoveIntentBuilder::NoIntent);
    assert_eq!(history_len(&session), 0);
}

#[test]
fn no_promotion_prompt_without_destination() {
    let mut session = Session::new("").unwrap();
    assert_eq!(session.promotion_prompt_piece(), None);
    click(&mut session, sq(6, 6));
    assert!(matches!(session.move_intent(), MoveIntentBuilder::WithOrigin { .. }));
    assert_eq!(session.promotion_prompt_piece(), None);
}

#[test]
fn hand_piece_drop_applies_without_prompt() {
    let mut session = session_at("4k4/9/9/9/9/9/9/9/4K4 b P 1");
    session.click_hand(PieceType::Pawn, Color::Black);
    assert_eq!(
        session.move_intent(),
        MoveIntentBuilder::WithOrigin { from: Origin::HeldPiece(PieceType::Pawn) }
    );
    assert!(session.destination_candidates().contains(&sq(4, 4)));
    assert!(!session.destination_candidates().contains(&sq(4, 0)));
    assert!(click(&mut session, sq(4, 4)));
    assert_eq!(session.previous_move(), Some((None, sq(4, 4))));
    assert_eq!(session.hand_pieces(Color::Black)[6], (PieceType::Pawn, 0));
}

#[test]
fn hand_click_of_other_side_or_empty_kind_cancels() {
    let mut session = session_at("4k4/9/9/9/9/9/9/9/4K4 b P 1");
    session.click_hand(PieceType::Pawn, Color::White);
    assert_eq!(session.move_intent(), MoveIntentBuilder::NoIntent);
    session.click_hand(PieceType::Gold, Color::Black);
    assert_eq!(session.move_intent(), MoveIntentBuilder::NoIntent);
    click(&mut session, sq(4, 8));
    session.click_hand(PieceType::Pawn, Color::Black);
    assert_eq!(session.move_intent(), MoveIntentBuilder::NoIntent);
}

#[test]
fn hand_pieces_lists_counts_rook_to_pawn() {
    let session = session_at("4k4/9/9/9/9/9/9/9/4K4 b 2P 1");
    let hand = session.hand_pieces(Color::Black);
    assert_eq!(hand.len(), 7);
    assert_eq!(hand[0], (PieceType::Rook, 0));
    assert_eq!(hand[6], (PieceType::Pawn, 2));
    assert_eq!(session.hand_pieces(Color::White)[6], (PieceType::Pawn, 0));
}

#[test]
fn check_flags_follow_engine() {
    let session = session_at("4k4/9/9/9/9/9/9/4r4/4K4 b - 1");
    assert!(session.in_check(Color::Black));
    assert!(!session.in_check(Color::White));
}

#[test]
fn undo_is_unavailable_on_empty_history() {
    let mut session = Session::new("").unwrap();
    assert!(!session.can_undo());
    click(&mut session, sq(6, 6));
    assert!(click(&mut session, sq(6, 5)));
    assert!(session.can_undo());
    assert_eq!(session.undo(), Ok(()));
    assert!(!session.can_undo());
    assert_eq!(session.position().to_sfen(), START_SFEN);
}

#[test]
fn moves_then_as_many_undos_restore_position() {
    let mut session = Session::new("").unwrap();
    let before = session.position().to_sfen();
    click(&mut session, sq(6, 6));
    assert!(click(&mut session, sq(6, 5)));
    click(&mut session, sq(2, 2));
    assert!(click(&mut session, sq(2, 3)));
    click(&mut session, sq(1, 6));
    assert!(click(&mut session, sq(1, 5)));
    assert_eq!(history_len(&session), 3);
    for _ in 0..3 {
        assert_eq!(session.undo(), Ok(()));
    }
    assert_eq!(session.position().to_sfen(), before);
    assert!(!session.can_undo());
}

#[test]
fn undo_clears_the_intent() {
    let mut session = Session::new("").unwrap();
    click(&mut session, sq(6, 6));
    click(&mut session, sq(6, 5));
    click(&mut session, sq(2, 2));
    assert_eq!(session.undo(), Ok(()));
    assert_eq!(session.move_intent(), MoveIntentBuilder::NoIntent);
}

#[test]
fn restart_returns_to_standard_position() {
    let mut session = Session::new("").unwrap();
    click(&mut session, sq(6, 6));
    click(&mut session, sq(6, 5));
    assert_eq!(session.restart(), Ok(()));
    assert_eq!(session.position().to_sfen(), START_SFEN);
    assert!(!session.can_undo());
}

#[test]
fn fragment_round_trip_gives_same_position() {
    let tables = Tables::new();
    let mut session = Session::new("").unwrap();
    click(&mut session, sq(6, 6));
    click(&mut session, sq(6, 5));
    let fragment = session.fragment();
    let decoded = decode(&tables, &fragment).unwrap();
    assert_eq!(decoded.to_sfen(), session.position().to_sfen());
    let reopened = Session::new(&fragment).unwrap();
    assert_eq!(reopened.position().to_sfen(), session.position().to_sfen());
    assert_eq!(encode(&decoded), fragment);
}

#[test]
fn garbage_fragment_is_rejected_and_leaves_position() {
    let tables = Tables::new();
    assert!(decode(&tables, "#####").is_err());
    let mut session = Session::new("").unwrap();
    click(&mut session, sq(6, 6));
    click(&mut session, sq(6, 5));
    let before = session.position().to_sfen();
    assert_eq!(session.load_fragment("#####"), Err(FragmentError::BadEncoding));
    assert_eq!(session.position().to_sfen(), before);
}

#[test]
fn garbage_fragment_at_startup_falls_back_to_start() {
    let session = Session::new("#####").unwrap();
    assert_eq!(session.position().to_sfen(), START_SFEN);
}

#[test]
fn decode_errors_by_kind() {
    let tables = Tables::new();
    assert_eq!(decode(&tables, "").err(), Some(FragmentError::MissingMarker));
    assert_eq!(decode(&tables, "NGs0").err(), Some(FragmentError::MissingMarker));
    assert_eq!(decode(&tables, "#\u{e9}").err(), Some(FragmentError::BadEncoding));
    assert_eq!(decode(&tables, "#/w==").err(), Some(FragmentError::BadText));
    assert_eq!(decode(&tables, "#aGVsbG8=").err(), Some(FragmentError::BadPosition));
    assert_eq!(
        decode(&tables, "#NGs0LzkvOS85LzkvOS85LzkvNEs0IGIgMzAwUCAx").err(),
        Some(FragmentError::BadPosition)
    );
}

#[test]
fn load_fragment_replaces_position_and_clears_intent() {
    let mut session = Session::new("").unwrap();
    click(&mut session, sq(6, 6));
    assert_eq!(session.load_fragment("#NGs0LzkvOS85LzkvOS85LzkvNEs0IGIgLSAx"), Ok(()));
    assert_eq!(session.position().to_sfen(), "4k4/9/9/9/9/9/9/9/4K4 b - 1");
    assert_eq!(session.move_intent(), MoveIntentBuilder::NoIntent);
}

#[test]
fn square_coordinates() {
    let s = sq(6, 5);
    assert_eq!(s.index, 59);
    assert_eq!(s.file(), 6);
    assert_eq!(s.rank(), 5);
    assert!(Square::new(9, 0).is_none());
    assert!(Square::from_index(81).is_none());
    assert_eq!(Square::from_index(80), Some(sq(8, 8)));
}

#[test]
fn piece_type_indices_round_trip() {
    for i in 0..14u8 {
        assert_eq!(PieceType::from_index(i).index(), i);
    }
    assert!(PieceType::Pawn.is_hand_piece());
    assert!(!PieceType::King.is_hand_piece());
    assert!(!PieceType::ProPawn.is_hand_piece());
    assert_eq!(Color::Black.flip(), Color::White);
}

#[test]
fn origin_accessors() {
    let on_board = Origin::SquarePiece(sq(1, 1));
    let in_hand = Origin::HeldPiece(PieceType::Gold);
    assert_eq!(on_board.square(), Some(sq(1, 1)));
    assert_eq!(on_board.hand_piece_type(), None);
    assert_eq!(in_hand.square(), None);
    assert_eq!(in_hand.hand_piece_type(), Some(PieceType::Gold));
    let waiting = MoveIntentBuilder::WithDestination { from: on_board, to: sq(1, 0) };
    assert_eq!(waiting.move_origin_square(), Some(sq(1, 1)));
    assert_eq!(waiting.move_destination(), Some(sq(1, 0)));
    assert_eq!(waiting.move_origin_hand_piece_type(), None);
    assert_eq!(MoveIntentBuilder::NoIntent.move_destination(), None);
}

#[test]
fn rook_shuffle_last_return_is_judged_on_a_copy() {
    // A copy rebuilt from the text counts the start position once more than
    // the game itself, so it refuses the last return as a repetition and the
    // click cancels instead of moving.
    let mut session = Session::new("").unwrap();
    let path = [
        (sq(1, 7), sq(2, 7)),
        (sq(7, 1), sq(6, 1)),
        (sq(2, 7), sq(1, 7)),
        (sq(6, 1), sq(7, 1)),
    ];
    for round in 0..2 {
        for (turn, (from, to)) in path.iter().enumerate() {
            assert!(!click(&mut session, *from));
            let last = round == 1 && turn == 3;
            assert_eq!(click(&mut session, *to), !last);
        }
    }
    assert_eq!(history_len(&session), 7);
    assert_eq!(session.move_intent(), MoveIntentBuilder::NoIntent);
}

#[test]
fn undo_then_replaying_the_same_move_is_recorded() {
    let mut session = Session::new("").unwrap();
    let path = [
        (sq(1, 7), sq(2, 7)),
        (sq(7, 1), sq(6, 1)),
        (sq(2, 7), sq(1, 7)),
        (sq(6, 1), sq(7, 1)),
        (sq(1, 7), sq(2, 7)),
    ];
    for (from, to) in path.iter() {
        click(&mut session, *from);
        assert!(click(&mut session, *to));
    }
    let after_five = session.position().to_sfen();
    assert_eq!(session.undo(), Ok(()));
    click(&mut session, sq(1, 7));
    assert!(click(&mut session, sq(2, 7)));
    assert_eq!(history_len(&session), 5);
    assert_eq!(session.position().to_sfen(), after_five);
    assert_eq!(shogi_session::intent::side_to_move(session.position()), Color::White);
}

#[test]
fn hand_selection_follows_intent_and_side() {
    let mut session = session_at("4k4/9/9/9/9/9/9/9/4K4 b P 1");
    assert!(session.hand_can_select(Color::Black));
    assert!(!session.hand_can_select(Color::White));
    session.click_hand(PieceType::Pawn, Color::Black);
    assert_eq!(session.hand_selection(Color::Black), Some(PieceType::Pawn));
    assert_eq!(session.hand_selection(Color::White), None);
    assert!(!session.hand_can_select(Color::Black));
}

#[test]
fn three_digit_move_number_loads() {
    let session = Session::new("#NGs0LzkvOS85LzkvOS85LzkvNEs0IGIgLSAxMDA=").unwrap();
    assert_eq!(session.position().to_sfen(), "4k4/9/9/9/9/9/9/9/4K4 b - 100");
}

#[test]
fn hand_counts_above_eighteen_are_refused() {
    let tables = Tables::new();
    let session = Session::new("#NGs0LzkvOS85LzkvOS85LzkvNEs0IGIgMThQIDE=").unwrap();
    assert_eq!(session.hand_pieces(Color::Black)[6], (PieceType::Pawn, 18));
    assert_eq!(decode(&tables, "#NGs0LzkvOS85LzkvOS85LzkvNEs0IGIgMTlQIDE=").err(), Some(FragmentError::BadPosition));
}
