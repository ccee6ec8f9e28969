//! The move under construction, and the legality questions it asks the
//! engine. Every question is put to a throwaway copy of the position, built
//! afresh from the text the engine prints for it; the position itself is
//! never touched.
//! The contracts speak of the copy: it rebuilds its repetition log from the
//! text, so it need not answer as the position itself would.
use vstd::prelude::*;
use crate::engine::{
    engine_hand, engine_make_move, engine_piece_at, engine_side_to_move, engine_text,
    load_position, accepts, has_room, room_for_move, mover, piece_on, reloaded, sfen_of, Tables,
};
use crate::pieces::{all_squares, Color, Move, Piece, PieceType, Square, BOARD_SQUARES};

verus! {

/// The piece on `s` in `p`.
pub open spec fn piece_in(p: shogi::Position, s: Square) -> Option<Piece> {
    match piece_on(p, s.index as int) {
        Some((k, c)) => Some(
            Piece {
                piece_type: PieceType::spec_from_index(k as nat),
                color: Color::spec_from_index(c as nat),
            },
        ),
        None => None,
    }
}

/// The side to move in `p`.
pub open spec fn side_in(p: shogi::Position) -> Color {
    Color::spec_from_index(mover(p) as nat)
}

/// Move `m` is accepted on a fresh copy of `p`, rebuilt from its text, that
/// has room for one more move.
pub open spec fn probe(p: shogi::Position, m: Move) -> bool {
    match reloaded(sfen_of(p)) {
        Some(copy) => has_room(copy) && accepts(copy, m),
        None => false,
    }
}

/// Square `s` of `p` holds a piece of the side to move.
pub open spec fn holds_own_piece(p: shogi::Position, s: Square) -> bool {
    match piece_in(p, s) {
        Some(pc) => pc.color == side_in(p),
        None => false,
    }
}

/// The piece on a square, read from the engine.
pub fn piece_at(position: &shogi::Position, s: Square) -> (r: Option<Piece>)
    requires
        s.wf(),
    ensures
        r == piece_in(*position, s),
{
    match engine_piece_at(position, s) {
        Some((k, c)) => Some(
            Piece { piece_type: PieceType::from_index(k), color: Color::from_index(c) },
        ),
        None => None,
    }
}

/// The side to move, read from the engine.
pub fn side_to_move(position: &shogi::Position) -> (r: Color)
    ensures
        r == side_in(*position),
{
    Color::from_index(engine_side_to_move(position))
}

/// How many pieces of a kind a side holds in hand.
pub fn hand_count(position: &shogi::Position, piece_type: PieceType, color: Color) -> (r: u8)
    ensures
        r == crate::engine::in_hand(
            *position,
            piece_type.spec_index() as int,
            color.spec_index() as int,
        ),
{
    engine_hand(position, piece_type.index(), color.index())
}

/// A throwaway copy of the position, rebuilt from the text the engine prints.
pub(crate) fn create_sandbox(tables: &Tables, position: &shogi::Position) -> (r: Option<
    shogi::Position,
>)
    ensures
        r == reloaded(sfen_of(*position)),
{
    let text = engine_text(position);
    assert(crate::engine::printed(text@));
    match load_position(tables, text.as_str()) {
        Ok(copy) => Some(copy),
        Err(_) => None,
    }
}

/// Whether the engine accepts move `m` on a fresh copy of the position.
pub fn try_on_copy(tables: &Tables, position: &shogi::Position, m: Move) -> (r: bool)
    requires
        m.wf(),
    ensures
        r == probe(*position, m),
{
    match create_sandbox(tables, position) {
        Some(copy) => {
            let mut copy = copy;
            room_for_move(&copy) && engine_make_move(tables, &mut copy, m).is_ok()
        },
        None => false,
    }
}

/// Where a move under construction starts.
#[derive(Clone, Copy, Debug, PartialEq, Eq, Structural)]
pub enum Origin {
    SquarePiece(Square),
    HeldPiece(PieceType),
}

impl Origin {
    pub open spec fn wf(self) -> bool {
        match self {
            Origin::SquarePiece(s) => s.wf(),
            Origin::HeldPiece(_) => true,
        }
    }

    /// The piece that the origin stands for: the one on its square, or one of
    /// its kind belonging to the side to move.
    pub open spec fn spec_piece(self, p: shogi::Position) -> Option<Piece> {
        match self {
            Origin::SquarePiece(s) => piece_in(p, s),
            Origin::HeldPiece(k) => Some(Piece { piece_type: k, color: side_in(p) }),
        }
    }

    /// The move from this origin to `to`; `promote` matters for board moves only.
    pub open spec fn spec_move_to(self, to: Square, promote: bool) -> Move {
        match self {
            Origin::SquarePiece(from) => Move::Normal { from, to, promote },
            Origin::HeldPiece(piece_type) => Move::Drop { piece_type, to },
        }
    }

    pub fn move_to(self, to: Square, promote: bool) -> (r: Move)
        ensures
            r == self.spec_move_to(to, promote),
    {
        match self {
            Origin::SquarePiece(from) => Move::Normal { from, to, promote },
            Origin::HeldPiece(piece_type) => Move::Drop { piece_type, to },
        }
    }

    pub fn square(self) -> (r: Option<Square>)
        ensures
            r == (match self {
                Origin::SquarePiece(s) => Some(s),
                Origin::HeldPiece(_) => None::<Square>,
            }),
    {
        match self {
            Origin::SquarePiece(s) => Some(s),
            Origin::HeldPiece(..) => None,
        }
    }

    pub fn hand_piece_type(self) -> (r: Option<PieceType>)
        ensures
            r == (match self {
                Origin::SquarePiece(_) => None::<PieceType>,
                Origin::HeldPiece(k) => Some(k),
            }),
    {
        match self {
            Origin::SquarePiece(..) => None,
            Origin::HeldPiece(k) => Some(k),
        }
    }

    pub fn piece(self, position: &shogi::Position) -> (r: Option<Piece>)
        requires
            self.wf(),
        ensures
            r == self.spec_piece(*position),
    {
        match self {
            Origin::SquarePiece(s) => piece_at(position, s),
            Origin::HeldPiece(piece_type) => Some(
                Piece { piece_type, color: side_to_move(position) },
            ),
        }
    }
}

/// The move the user is building: nothing yet, an origin, or an origin and
/// a destination waiting for the promotion choice.
#[derive(Clone, Copy, Debug, PartialEq, Eq, Structural)]
pub enum MoveIntentBuilder {
    NoIntent,
    WithOrigin { from: Origin },
    WithDestination { from: Origin, to: Square },
}

impl MoveIntentBuilder {
    pub open spec fn wf(self) -> bool {
        match self {
            MoveIntentBuilder::NoIntent => true,
            MoveIntentBuilder::WithOrigin { from } => from.wf(),
            MoveIntentBuilder::WithDestination { from, to } => from.wf() && to.wf(),
        }
    }

    /// From the chosen origin some completion of a move onto `to` is accepted:
    /// a board move with or without promotion, or a drop.
    pub open spec fn spec_can_move_to(self, to: Square, p: shogi::Position) -> bool {
        match self {
            MoveIntentBuilder::WithOrigin { from } => match from {
                Origin::SquarePiece(_) => probe(p, from.spec_move_to(to, true)) || probe(
                    p,
                    from.spec_move_to(to, false),
                ),
                Origin::HeldPiece(_) => probe(p, from.spec_move_to(to, false)),
            },
            _ => false,
        }
    }

    /// The move cannot be completed without promoting. Never for a drop.
    pub open spec fn spec_must_promote(self, p: shogi::Position) -> bool {
        match self {
            MoveIntentBuilder::WithDestination { from, to } => match from {
                Origin::SquarePiece(_) => !probe(p, from.spec_move_to(to, false)),
                Origin::HeldPiece(_) => false,
            },
            _ => false,
        }
    }

    /// The move cannot be completed with a promotion. Always for a drop.
    pub open spec fn spec_cant_promote(self, p: shogi::Position) -> bool {
        match self {
            MoveIntentBuilder::WithDestination { from, to } => match from {
                Origin::SquarePiece(_) => !probe(p, from.spec_move_to(to, true)),
                Origin::HeldPiece(_) => true,
            },
            _ => false,
        }
    }

    /// The squares a move from the chosen origin can land on, in index order.
    pub open spec fn destinations(self, p: shogi::Position) -> Seq<Square> {
        if self is WithOrigin {
            all_squares().filter(|s: Square| self.spec_can_move_to(s, p))
        } else {
            Seq::<Square>::empty()
        }
    }

    /// Whether a move from the chosen origin can land on `square`.
    pub fn can_move_to(self, tables: &Tables, square: Square, position: &shogi::Position) -> (r: bool)
        requires
            self is WithOrigin,
            self.wf(),
            square.wf(),
        ensures
            r == self.spec_can_move_to(square, *position),
                {
        match self {
            MoveIntentBuilder::WithOrigin { from } => match from {
                Origin::SquarePiece(_) => try_on_copy(tables, position, from.move_to(square, true))
                    || try_on_copy(tables, position, from.move_to(square, false)),
                Origin::HeldPiece(_) => try_on_copy(tables, position, from.move_to(square, false)),
            },
            _ => false,
        }
    }

    /// Whether the chosen move is only legal with a promotion.
    pub fn must_promote(self, tables: &Tables, position: &shogi::Position) -> (r: bool)
        requires
            self is WithDestination,
            self.wf(),
        ensures
            r == self.spec_must_promote(*position),
    {
        match self {
            MoveIntentBuilder::WithDestination { from, to } => match from {
                Origin::SquarePiece(_) => !try_on_copy(tables, position, from.move_to(to, false)),
                Origin::HeldPiece(_) => false,
            },
            _ => false,
        }
    }

    /// Whether the chosen move is only legal without a promotion.
    pub fn cant_promote(self, tables: &Tables, position: &shogi::Position) -> (r: bool)
        requires
            self is WithDestination,
            self.wf(),
        ensures
            r == self.spec_cant_promote(*position),
    {
        match self {
            MoveIntentBuilder::WithDestination { from, to } => match from {
                Origin::SquarePiece(_) => !try_on_copy(tables, position, from.move_to(to, true)),
                Origin::HeldPiece(_) => true,
            },
            _ => false,
        }
    }

    /// The squares that can start a move: with nothing chosen, those holding
    /// a piece of the side to move, in index order; otherwise none.
    pub fn move_origin_candidates(self, position: &shogi::Position) -> (r: Vec<Square>)
        ensures
            r@ == (if self is NoIntent {
                all_squares().filter(|s: Square| holds_own_piece(*position, s))
            } else {
                Seq::<Square>::empty()
            }),
    {
        let mut r: Vec<Square> = Vec::new();
        if !matches!(self, MoveIntentBuilder::NoIntent) {
            return r;
        }
        let ghost p = *position;
        let ghost pred = |s: Square| holds_own_piece(p, s);
        let side = side_to_move(position);
        let mut i: u8 = 0;
        while i < BOARD_SQUARES
            invariant
                i <= BOARD_SQUARES,
                p == *position,
                side == side_in(p),
                pred == (|s: Square| holds_own_piece(p, s)),
                r@ == all_squares().take(i as int).filter(pred),
            decreases BOARD_SQUARES - i,
        {
            let s = Square { index: i };
            proof {
                reveal(Seq::filter);
                assert(all_squares().take(i + 1).drop_last() == all_squares().take(i as int));
                assert(all_squares().take(i + 1).last() == s);
            }
            match piece_at(position, s) {
                Some(pc) => {
                    if pc.color == side {
                        r.push(s);
                    }
                },
                None => {},
            }
            i = i + 1;
        }
        proof {
            assert(all_squares().take(BOARD_SQUARES as int) == all_squares());
        }
        r
    }

    /// The squares a move from the chosen origin can land on, in index order;
    /// none unless exactly an origin is chosen.
    pub fn move_destination_candidates(self, tables: &Tables, position: &shogi::Position) -> (r: Vec<Square>)
        requires
            self.wf(),
        ensures
            r@ == self.destinations(*position),
    {
        let mut r: Vec<Square> = Vec::new();
        if !matches!(self, MoveIntentBuilder::WithOrigin { .. }) {
            return r;
        }
        let ghost p = *position;
        let ghost pred = |s: Square| self.spec_can_move_to(s, p);
        let mut i: u8 = 0;
        while i < BOARD_SQUARES
            invariant
                i <= BOARD_SQUARES,
                self is WithOrigin,
                self.wf(),
                p == *position,
                pred == (|s: Square| self.spec_can_move_to(s, p)),
                r@ == all_squares().take(i as int).filter(pred),
            decreases BOARD_SQUARES - i,
        {
            let s = Square { index: i };
            proof {
                reveal(Seq::filter);
                assert(all_squares().take(i + 1).drop_last() == all_squares().take(i as int));
                assert(all_squares().take(i + 1).last() == s);
            }
            if self.can_move_to(tables, s, position) {
                r.push(s);
            }
            i = i + 1;
        }
        proof {
            assert(all_squares().take(BOARD_SQUARES as int) == all_squares());
        }
        r
    }

    /// The square the move starts from, if it starts on the board.
    pub fn move_origin_square(self) -> (r: Option<Square>)
        ensures
            r == (match self {
                MoveIntentBuilder::WithOrigin { from: Origin::SquarePiece(s) } => Some(s),
                MoveIntentBuilder::WithDestination { from: Origin::SquarePiece(s), .. } => Some(s),
                _ => None::<Square>,
            }),
    {
        match self {
            MoveIntentBuilder::NoIntent => None,
            MoveIntentBuilder::WithOrigin { from } => from.square(),
            MoveIntentBuilder::WithDestination { from, .. } => from.square(),
        }
    }

    /// The kind taken from hand, if the move is a drop.
    pub fn move_origin_hand_piece_type(self) -> (r: Option<PieceType>)
        ensures
            r == (match self {
                MoveIntentBuilder::WithOrigin { from: Origin::HeldPiece(k) } => Some(k),
                MoveIntentBuilder::WithDestination { from: Origin::HeldPiece(k), .. } => Some(k),
                _ => None::<PieceType>,
            }),
    {
        match self {
            MoveIntentBuilder::NoIntent => None,
            MoveIntentBuilder::WithOrigin { from } => from.hand_piece_type(),
            MoveIntentBuilder::WithDestination { from, .. } => from.hand_piece_type(),
        }
    }

    /// The piece being moved (shown as a ghost under the cursor).
    pub fn move_origin_piece(self, position: &shogi::Position) -> (r: Option<Piece>)
        requires
            self.wf(),
        ensures
            r == (match self {
                MoveIntentBuilder::NoIntent => None::<Piece>,
                MoveIntentBuilder::WithOrigin { from } => from.spec_piece(*position),
                MoveIntentBuilder::WithDestination { from, .. } => from.spec_piece(
                    *position,
                ),
            }),
    {
        match self {
            MoveIntentBuilder::NoIntent => None,
            MoveIntentBuilder::WithOrigin { from } => from.piece(position),
            MoveIntentBuilder::WithDestination { from, .. } => from.piece(position),
        }
    }

    /// The chosen destination, once there is one.
    pub fn move_destination(self) -> (r: Option<Square>)
        ensures
            r == (match self {
                MoveIntentBuilder::WithDestination { to, .. } => Some(to),
                _ => None::<Square>,
            }),
    {
        match self {
            MoveIntentBuilder::NoIntent => None,
            MoveIntentBuilder::WithOrigin { .. } => None,
            MoveIntentBuilder::WithDestination { to, .. } => Some(to),
        }
    }

    /// The piece to offer in the promotion prompt, while a destination waits
    /// for the promotion choice.
    pub fn is_asking_promotion_with_piece(self, position: &shogi::Position) -> (r: Option<Piece>)
        requires
            self.wf(),
        ensures
            r == (match self {
                MoveIntentBuilder::WithDestination { from, .. } => from.spec_piece(
                    *position,
                ),
                _ => None::<Piece>,
            }),
    {
        match self {
            MoveIntentBuilder::NoIntent => None,
            MoveIntentBuilder::WithOrigin { .. } => None,
            MoveIntentBuilder::WithDestination { from, .. } => from.piece(position),
        }
    }
}

} // verus!
