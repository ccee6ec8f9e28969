//! The session: the one owner of the position and of the move under
//! construction. It turns clicks into moves, takes moves back, restarts, and
//! reloads from a fragment; each event is handled completely before the next.
use vstd::prelude::*;
use crate::codec::{decode, decoded, encode, fragment_of, has_short_numbers, FragmentError};
use crate::engine::{
    accepts, after_move, checked, engine_history_len, engine_in_check, engine_last_move,
    engine_make_move, engine_text, engine_unmake_move, in_hand, last_move, load_position,
    moves_made, printed, has_room, room_for_move, reloaded, sfen_of, short_numbers, text_after_undos, unmade, Tables,
};
use crate::intent::{
    hand_count, holds_own_piece, side_in, side_to_move, MoveIntentBuilder, Origin,
};
use crate::pieces::{all_squares, Color, Move, Piece, PieceType, Square};

verus! {

/// The standard starting arrangement, black to move.
pub const START_SFEN: &'static str = "lnsgkgsnl/1r5b1/ppppppppp/9/9/9/PPPPPPPPP/1B5R1/LNSGKGSNL b - 1";

/// An engine refusal that the session reports instead of making a move. The
/// position is then left as it was, or rebuilt from the text it had.
#[derive(Clone, Copy, Debug, PartialEq, Eq, Structural)]
pub enum SessionFault {
    /// The engine refused, on the position itself, a move that a copy accepted.
    MoveRefused,
    /// One more move would overflow the engine's move counter or a hand count.
    CountersFull,
    /// The engine would not take back the last move.
    UndoRefused,
    /// The engine would not load the starting arrangement.
    StartRefused,
}

/// The starting position, or `None` when the engine refuses it.
pub open spec fn start_position() -> Option<shogi::Position> {
    if short_numbers(START_SFEN@) {
        reloaded(START_SFEN@)
    } else {
        None
    }
}

/// Loads the standard starting arrangement.
fn load_start(tables: &Tables) -> (r: Option<shogi::Position>)
    ensures
        r == start_position(),
{
    if !has_short_numbers(START_SFEN) {
        return None;
    }
    match load_position(tables, START_SFEN) {
        Ok(p) => Some(p),
        Err(_) => None,
    }
}

/// The promotion choice that a move from `from` onto `to` settles by itself:
/// `false` when promoting is refused, `true` when only promoting is accepted,
/// `None` when both are accepted and the player must choose.
pub open spec fn forced_promotion(from: Origin, to: Square, p: shogi::Position) -> Option<bool> {
    let d = MoveIntentBuilder::WithDestination { from, to };
    if d.spec_cant_promote(p) {
        Some(false)
    } else if d.spec_must_promote(p) {
        Some(true)
    } else {
        None
    }
}

/// The intent is consistent with `p`: an origin holds a piece of the side to
/// move (or a kind it has in hand), and a destination is reachable and still
/// waits for a promotion choice.
pub open spec fn intent_fits(intent: MoveIntentBuilder, p: shogi::Position) -> bool {
    &&& intent.wf()
    &&& match intent {
        MoveIntentBuilder::NoIntent => true,
        MoveIntentBuilder::WithOrigin { from } => origin_fits(from, p),
        MoveIntentBuilder::WithDestination { from, to } => {
            &&& origin_fits(from, p)
            &&& (MoveIntentBuilder::WithOrigin { from }).spec_can_move_to(to, p)
            &&& forced_promotion(from, to, p) is None
        },
    }
}

pub open spec fn origin_fits(from: Origin, p: shogi::Position) -> bool {
    match from {
        Origin::SquarePiece(s) => holds_own_piece(p, s),
        Origin::HeldPiece(k) => in_hand(p, k.spec_index() as int, side_in(p).spec_index() as int)
            > 0,
    }
}

/// Taking back moves from `p` until only the first `i` of the recorded
/// session moves remain prints `past[i]`.
pub open spec fn past_link(p: shogi::Position, past: Seq<Seq<char>>, i: int) -> bool {
    text_after_undos(p, (past.len() - i) as nat) == Some(past[i])
}

/// One game in progress.
pub struct Session {
    tables: Tables,
    position: shogi::Position,
    move_intent: MoveIntentBuilder,
    past: Ghost<Seq<Seq<char>>>,
}

/// What making move `m` on `p` answers.
pub open spec fn move_result(p: shogi::Position, m: Move) -> Result<(), SessionFault> {
    if !has_room(p) {
        Err(SessionFault::CountersFull)
    } else if accepts(p, m) {
        Ok(())
    } else {
        Err(SessionFault::MoveRefused)
    }
}

/// The state after the session has made move `m` on `before`: the move is
/// recorded where the engine accepts it on the position; where the counters
/// are full nothing changes; where the engine refuses it, the position is
/// rebuilt from the text it had before, where possible.
pub open spec fn settled_after_move(before: Session, after: Session, m: Move) -> bool {
    &&& after.intent() == MoveIntentBuilder::NoIntent
    &&& if !has_room(before.pos()) {
        &&& after.pos() == before.pos()
        &&& after.past() == before.past()
    } else if accepts(before.pos(), m) {
        &&& after.pos() == after_move(before.pos(), m)
        &&& after.past() == before.past().push(before.text())
    } else {
        &&& after.past().len() == 0
        &&& (reloaded(before.text()) matches Some(q) ==> after.pos() == q)
    }
}

impl Session {
    /// The current position.
    pub closed spec fn pos(self) -> shogi::Position {
        self.position
    }

    /// The text the engine prints for the current position.
    pub open spec fn text(self) -> Seq<char> {
        sfen_of(self.pos())
    }

    /// The move under construction.
    pub closed spec fn intent(self) -> MoveIntentBuilder {
        self.move_intent
    }

    /// The texts from before each move made in this session since the last
    /// load, restart or refusal, oldest first.
    pub closed spec fn past(self) -> Seq<Seq<char>> {
        self.past@
    }

    pub open spec fn wf(self) -> bool {
        &&& intent_fits(self.intent(), self.pos())
        &&& moves_made(self.pos()) >= self.past().len()
        &&& forall|i: int| 0 <= i < self.past().len() ==> #[trigger] past_link(self.pos(), self.past(), i)
    }

    /// A session on the position of `fragment`, or on the starting arrangement
    /// when the fragment gives none.
    pub fn new(fragment: &str) -> (r: Result<Session, SessionFault>)
        ensures
            r is Err <==> decoded(fragment@) is Err && start_position() is None,
            r matches Err(e) ==> e == SessionFault::StartRefused,
            r matches Ok(s) ==> {
                &&& s.wf()
                &&& s.intent() == MoveIntentBuilder::NoIntent
                &&& s.past().len() == 0
                &&& match decoded(fragment@) {
                    Ok(q) => s.pos() == q,
                    Err(_) => Some(s.pos()) == start_position(),
                }
            },
    {
        let tables = Tables::new();
        let position = match decode(&tables, fragment) {
            Ok(p) => p,
            Err(_) => match load_start(&tables) {
                Some(p) => p,
                None => return Err(SessionFault::StartRefused),
            },
        };
        Ok(
            Session {
                tables,
                position,
                move_intent: MoveIntentBuilder::NoIntent,
                past: Ghost(Seq::empty()),
            },
        )
    }

    /// Replaces the position by the starting arrangement and drops the move
    /// under construction.
    pub fn restart(&mut self) -> (r: Result<(), SessionFault>)
        requires
            old(self).wf(),
        ensures
            final(self).wf(),
            r is Ok <==> start_position() is Some,
            r is Ok ==> Some(final(self).pos()) == start_position() && final(self).intent()
                == MoveIntentBuilder::NoIntent && final(self).past().len() == 0,
            r matches Err(e) ==> e == SessionFault::StartRefused && *final(self) == *old(self),
    {
        match load_start(&self.tables) {
            Some(p) => {
                self.position = p;
                self.move_intent = MoveIntentBuilder::NoIntent;
                self.past = Ghost(Seq::empty());
                Ok(())
            },
            None => Err(SessionFault::StartRefused),
        }
    }

    /// Loads the position of `fragment`, dropping the move under
    /// construction; a fragment that gives no position changes nothing.
    pub fn load_fragment(&mut self, fragment: &str) -> (r: Result<(), FragmentError>)
        requires
            old(self).wf(),
        ensures
            final(self).wf(),
            r is Ok <==> decoded(fragment@) is Ok,
            r is Ok ==> decoded(fragment@) == Ok::<shogi::Position, FragmentError>(
                final(self).pos(),
            ) && final(self).intent() == MoveIntentBuilder::NoIntent && final(self).past().len()
                == 0,
            r matches Err(e) ==> decoded(fragment@) == Err::<shogi::Position, FragmentError>(e)
                && *final(self) == *old(self),
    {
        match decode(&self.tables, fragment) {
            Ok(p) => {
                self.position = p;
                self.move_intent = MoveIntentBuilder::NoIntent;
                self.past = Ghost(Seq::empty());
                Ok(())
            },
            Err(e) => Err(e),
        }
    }

    /// The current position.
    pub fn position(&self) -> (r: &shogi::Position)
        ensures
            *r == self.pos(),
    {
        &self.position
    }

    /// The move under construction.
    pub fn move_intent(&self) -> (r: MoveIntentBuilder)
        ensures
            r == self.intent(),
    {
        self.move_intent
    }

    /// The fragment that shares the current position.
    pub fn fragment(&self) -> (r: String)
        ensures
            r@ == fragment_of(self.text()),
    {
        encode(&self.position)
    }

    /// The squares that can start a move now.
    pub fn origin_candidates(&self) -> (r: Vec<Square>)
        ensures
            r@ == (if self.intent() is NoIntent {
                all_squares().filter(|s: Square| holds_own_piece(self.pos(), s))
            } else {
                Seq::<Square>::empty()
            }),
    {
        self.move_intent.move_origin_candidates(&self.position)
    }

    /// The squares the chosen origin can reach.
    pub fn destination_candidates(&self) -> (r: Vec<Square>)
        requires
            self.wf(),
        ensures
            r@ == self.intent().destinations(self.pos()),
    {
        self.move_intent.move_destination_candidates(&self.tables, &self.position)
    }

    /// The piece offered in the promotion prompt, while a destination waits.
    pub fn promotion_prompt_piece(&self) -> (r: Option<Piece>)
        requires
            self.wf(),
        ensures
            r == (match self.intent() {
                MoveIntentBuilder::WithDestination { from, .. } => from.spec_piece(self.pos()),
                _ => None::<Piece>,
            }),
    {
        self.move_intent.is_asking_promotion_with_piece(&self.position)
    }

    /// The piece shown under the cursor while a move is under construction.
    pub fn ghost_piece(&self) -> (r: Option<Piece>)
        requires
            self.wf(),
        ensures
            r == (match self.intent() {
                MoveIntentBuilder::NoIntent => None::<Piece>,
                MoveIntentBuilder::WithOrigin { from } => from.spec_piece(self.pos()),
                MoveIntentBuilder::WithDestination { from, .. } => from.spec_piece(self.pos()),
            }),
    {
        self.move_intent.move_origin_piece(&self.position)
    }

    /// Whether the king of `color` is in check.
    pub fn in_check(&self, color: Color) -> (r: bool)
        ensures
            r == checked(self.pos(), color.spec_index() as int),
    {
        engine_in_check(&self.tables, &self.position, color.index())
    }

    /// Whether a move is recorded that an undo could take back.
    pub fn can_undo(&self) -> (r: bool)
        ensures
            r == (moves_made(self.pos()) > 0),
    {
        engine_history_len(&self.position) > 0
    }

    /// The origin square (none for a drop) and destination square of the
    /// last recorded move.
    pub fn previous_move(&self) -> (r: Option<(Option<Square>, Square)>)
        ensures
            r == (match last_move(self.pos()) {
                Some((from, to)) => Some(
                    (
                        match from {
                            Some(f) => Some(Square { index: f }),
                            None => None::<Square>,
                        },
                        Square { index: to },
                    ),
                ),
                None => None,
            }),
            r matches Some((from, to)) ==> to.wf() && (from matches Some(f) ==> f.wf()),
    {
        match engine_last_move(&self.position) {
            Some((from, to)) => Some(
                (
                    match from {
                        Some(f) => Some(Square { index: f }),
                        None => None,
                    },
                    Square { index: to },
                ),
            ),
            None => None,
        }
    }

    /// The hand of `color`: each kind that can be held, rook to pawn, with
    /// its count.
    pub fn hand_pieces(&self, color: Color) -> (r: Vec<(PieceType, u8)>)
        ensures
            r@.len() == 7,
            forall|i: int|
                0 <= i < 7 ==> #[trigger] r@[i] == (
                    PieceType::spec_from_index((i + 1) as nat),
                    in_hand(self.pos(), i + 1, color.spec_index() as int),
                ),
    {
        let mut r: Vec<(PieceType, u8)> = Vec::new();
        let mut k: u8 = 1;
        while k <= 7
            invariant
                1 <= k <= 8,
                r@.len() == k - 1,
                forall|i: int|
                    0 <= i < k - 1 ==> #[trigger] r@[i] == (
                        PieceType::spec_from_index((i + 1) as nat),
                        in_hand(self.pos(), i + 1, color.spec_index() as int),
                    ),
            decreases 8 - k,
        {
            let piece_type = PieceType::from_index(k);
            r.push((piece_type, hand_count(&self.position, piece_type, color)));
            k = k + 1;
        }
        r
    }

    /// The kind chosen from the hand of `color`, shown as selected there.
    pub fn hand_selection(&self, color: Color) -> (r: Option<PieceType>)
        ensures
            r == (if color == side_in(self.pos()) {
                match self.intent() {
                    MoveIntentBuilder::WithOrigin { from: Origin::HeldPiece(k) } => Some(k),
                    MoveIntentBuilder::WithDestination { from: Origin::HeldPiece(k), .. } => Some(k),
                    _ => None::<PieceType>,
                }
            } else {
                None::<PieceType>
            }),
    {
        if color == side_to_move(&self.position) {
            self.move_intent.move_origin_hand_piece_type()
        } else {
            None
        }
    }

    /// Whether a click on the hand of `color` can start a move now.
    pub fn hand_can_select(&self, color: Color) -> (r: bool)
        ensures
            r == (color == side_in(self.pos()) && self.intent() is NoIntent),
    {
        color == side_to_move(&self.position) && matches!(self.move_intent, MoveIntentBuilder::NoIntent)
    }

    /// After the engine refused an operation on the position, rebuilds it
    /// from `before`, the text it printed before that operation.
    fn restore(&mut self, before: &String)
        requires
            printed(before@),
        ensures
            final(self).wf(),
            final(self).intent() == MoveIntentBuilder::NoIntent,
            final(self).past().len() == 0,
            reloaded(before@) matches Some(q) ==> final(self).pos() == q,
    {
        match load_position(&self.tables, before.as_str()) {
            Ok(q) => self.position = q,
            Err(_) => {},
        }
        self.move_intent = MoveIntentBuilder::NoIntent;
        self.past = Ghost(Seq::empty());
    }

    /// Makes move `m` on the position.
    fn apply(&mut self, m: Move) -> (r: Result<(), SessionFault>)
        requires
            old(self).wf(),
            m.wf(),
        ensures
            final(self).wf(),
            settled_after_move(*old(self), *final(self), m),
            r == move_result(old(self).pos(), m),
    {
        if !room_for_move(&self.position) {
            self.move_intent = MoveIntentBuilder::NoIntent;
            return Err(SessionFault::CountersFull);
        }
        let before = engine_text(&self.position);
        let ghost old_pos = self.position;
        let ghost past = self.past();
        assert(printed(before@));
        match engine_make_move(&self.tables, &mut self.position, m) {
            Ok(_) => {
                self.move_intent = MoveIntentBuilder::NoIntent;
                self.past = Ghost(past.push(before@));
                proof {
                    let np = self.past();
                    assert forall|i: int| 0 <= i < np.len() implies #[trigger] past_link(
                        self.position,
                        np,
                        i,
                    ) by {
                        let n = (past.len() - i) as nat;
                        assert(text_after_undos(self.position, n + 1) == text_after_undos(
                            old_pos,
                            n,
                        ));
                        if i < past.len() {
                            assert(past_link(old_pos, past, i));
                        }
                    }
                }
                Ok(())
            },
            Err(_) => {
                self.restore(&before);
                Err(SessionFault::MoveRefused)
            },
        }
    }

    /// A click on `square`. With nothing chosen, a square holding a piece of
    /// the side to move becomes the origin. With an origin chosen, a square
    /// that a copy of the position lets the origin reach becomes the
    /// destination, and the move is made at once when the promotion choice is
    /// forced; any other square cancels. With a destination waiting, any click
    /// cancels. Returns whether a move was made.
    pub fn click_square(&mut self, square: Square) -> (r: Result<bool, SessionFault>)
        requires
            old(self).wf(),
            square.wf(),
        ensures
            final(self).wf(),
            match old(self).intent() {
                MoveIntentBuilder::NoIntent => {
                    &&& r == Ok::<bool, SessionFault>(false)
                    &&& final(self).pos() == old(self).pos()
                    &&& final(self).past() == old(self).past()
                    &&& final(self).intent() == if holds_own_piece(old(self).pos(), square) {
                        MoveIntentBuilder::WithOrigin { from: Origin::SquarePiece(square) }
                    } else {
                        MoveIntentBuilder::NoIntent
                    }
                },
                MoveIntentBuilder::WithOrigin { from } => if !old(self).intent().spec_can_move_to(
                    square,
                    old(self).pos(),
                ) {
                    &&& r == Ok::<bool, SessionFault>(false)
                    &&& final(self).pos() == old(self).pos()
                    &&& final(self).past() == old(self).past()
                    &&& final(self).intent() == MoveIntentBuilder::NoIntent
                } else {
                    match forced_promotion(from, square, old(self).pos()) {
                        Some(promote) => {
                            let m = from.spec_move_to(square, promote);
                            &&& settled_after_move(*old(self), *final(self), m)
                            &&& r == match move_result(old(self).pos(), m) {
                                Ok(_) => Ok::<bool, SessionFault>(true),
                                Err(e) => Err(e),
                            }
                        },
                        None => {
                            &&& r == Ok::<bool, SessionFault>(false)
                            &&& final(self).pos() == old(self).pos()
                            &&& final(self).past() == old(self).past()
                            &&& final(self).intent() == MoveIntentBuilder::WithDestination {
                                from,
                                to: square,
                            }
                        },
                    }
                },
                MoveIntentBuilder::WithDestination { .. } => {
                    &&& r == Ok::<bool, SessionFault>(false)
                    &&& final(self).pos() == old(self).pos()
                    &&& final(self).past() == old(self).past()
                    &&& final(self).intent() == MoveIntentBuilder::NoIntent
                },
            },
    {
        match self.move_intent {
            MoveIntentBuilder::NoIntent => {
                let own = match crate::intent::piece_at(&self.position, square) {
                    Some(pc) => pc.color == side_to_move(&self.position),
                    None => false,
                };
                if own {
                    self.move_intent = MoveIntentBuilder::WithOrigin {
                        from: Origin::SquarePiece(square),
                    };
                }
                Ok(false)
            },
            MoveIntentBuilder::WithOrigin { from } => {
                if !self.move_intent.can_move_to(&self.tables, square, &self.position) {
                    self.move_intent = MoveIntentBuilder::NoIntent;
                    return Ok(false);
                }
                let chosen = MoveIntentBuilder::WithDestination { from, to: square };
                if chosen.cant_promote(&self.tables, &self.position) {
                    match self.apply(from.move_to(square, false)) {
                        Ok(()) => Ok(true),
                        Err(e) => Err(e),
                    }
                } else if chosen.must_promote(&self.tables, &self.position) {
                    match self.apply(from.move_to(square, true)) {
                        Ok(()) => Ok(true),
                        Err(e) => Err(e),
                    }
                } else {
                    self.move_intent = chosen;
                    Ok(false)
                }
            },
            MoveIntentBuilder::WithDestination { .. } => {
                self.move_intent = MoveIntentBuilder::NoIntent;
                Ok(false)
            },
        }
    }

    /// A click on a hand piece. With nothing chosen, a kind that the side to
    /// move holds becomes the origin; in every other case the click cancels.
    pub fn click_hand(&mut self, piece_type: PieceType, color: Color)
        requires
            old(self).wf(),
        ensures
            final(self).wf(),
            final(self).pos() == old(self).pos(),
            final(self).past() == old(self).past(),
            final(self).intent() == if old(self).intent() is NoIntent && color == side_in(
                old(self).pos(),
            ) && in_hand(old(self).pos(), piece_type.spec_index() as int, color.spec_index() as int)
                > 0 {
                MoveIntentBuilder::WithOrigin { from: Origin::HeldPiece(piece_type) }
            } else {
                MoveIntentBuilder::NoIntent
            },
    {
        let pick = match self.move_intent {
            MoveIntentBuilder::NoIntent => color == side_to_move(&self.position) && hand_count(
                &self.position,
                piece_type,
                color,
            ) > 0,
            _ => false,
        };
        self.move_intent = if pick {
            MoveIntentBuilder::WithOrigin { from: Origin::HeldPiece(piece_type) }
        } else {
            MoveIntentBuilder::NoIntent
        };
    }

    /// The player's promotion choice for the destination that waits for it:
    /// the move is made. A choice while no destination waits is a fault of
    /// the caller.
    pub fn choose_promotion(&mut self, promote: bool) -> (r: Result<(), SessionFault>)
        requires
            old(self).wf(),
            old(self).intent() is WithDestination,
        ensures
            final(self).wf(),
            match old(self).intent() {
                MoveIntentBuilder::WithDestination { from, to } => {
                    let m = from.spec_move_to(to, promote);
                    &&& settled_after_move(*old(self), *final(self), m)
                    &&& r == move_result(old(self).pos(), m)
                },
                _ => false,
            },
    {
        match self.move_intent {
            MoveIntentBuilder::WithDestination { from, to } => self.apply(from.move_to(to, promote)),
            _ => Err(SessionFault::MoveRefused),
        }
    }

    /// Takes back the last move and drops the move under construction. An
    /// undo with no move recorded is a fault of the caller. Every move made
    /// in this session since the last load, restart or refusal can be taken
    /// back, and restores the text from before it.
    pub fn undo(&mut self) -> (r: Result<(), SessionFault>)
        requires
            old(self).wf(),
            moves_made(old(self).pos()) > 0,
        ensures
            final(self).wf(),
            r is Ok <==> unmade(old(self).pos()) is Some,
            r is Ok ==> Some(final(self).pos()) == unmade(old(self).pos()) && final(self).intent()
                == MoveIntentBuilder::NoIntent,
            old(self).past().len() > 0 ==> r is Ok && final(self).text() == old(self).past().last()
                && final(self).past() == old(self).past().drop_last(),
            r is Ok && old(self).past().len() == 0 ==> final(self).past().len() == 0,
            r == Err::<(), SessionFault>(SessionFault::UndoRefused) ==> {
                &&& final(self).intent() == MoveIntentBuilder::NoIntent
                &&& final(self).past().len() == 0
                &&& (reloaded(old(self).text()) matches Some(q) ==> final(self).pos() == q)
            },
            r matches Err(e) ==> e == SessionFault::UndoRefused,
    {
        let before = engine_text(&self.position);
        let ghost old_pos = self.position;
        let ghost past = self.past();
        proof {
            if past.len() > 0 {
                assert(past_link(old_pos, past, past.len() - 1));
            }
        }
        assert(printed(before@));
        match engine_unmake_move(&mut self.position) {
            Ok(_) => {},
            Err(_) => {
                self.restore(&before);
                return Err(SessionFault::UndoRefused);
            },
        }
        self.move_intent = MoveIntentBuilder::NoIntent;
        self.past = Ghost(
            if past.len() > 0 {
                past.drop_last()
            } else {
                past
            },
        );
        proof {
            assert(text_after_undos(old_pos, 1) == text_after_undos(self.position, 0));
            let np = self.past();
            assert forall|i: int| 0 <= i < np.len() implies #[trigger] past_link(
                self.position,
                np,
                i,
            ) by {
                assert(past_link(old_pos, past, i));
            }
        }
        Ok(())
    }
}

/// Choosing a square of the side to move as origin offers as destinations
/// exactly the squares of the board that the origin can reach.
pub proof fn lemma_origin_offers_reachable(p: shogi::Position, square: Square)
    requires
        square.wf(),
        holds_own_piece(p, square),
    ensures
        ({
            let chosen = MoveIntentBuilder::WithOrigin { from: Origin::SquarePiece(square) };
            &&& intent_fits(chosen, p)
            &&& forall|s: Square| #[trigger]
                chosen.destinations(p).contains(s) <==> s.wf() && chosen.spec_can_move_to(s, p)
        }),
{
    broadcast use vstd::seq_lib::group_filter_ensures;

    let chosen = MoveIntentBuilder::WithOrigin { from: Origin::SquarePiece(square) };
    let pred = |s: Square| chosen.spec_can_move_to(s, p);
    let all = all_squares();
    assert forall|s: Square| #[trigger]
        chosen.destinations(p).contains(s) <==> s.wf() && chosen.spec_can_move_to(s, p) by {
        if s.wf() && chosen.spec_can_move_to(s, p) {
            assert(all[s.index as int] == s);
            assert(all.filter(pred).contains(all[s.index as int]));
        }
        if all.filter(pred).contains(s) {
            let j = choose|j: int| 0 <= j < all.filter(pred).len() && all.filter(pred)[j] == s;
            assert(pred(all.filter(pred)[j]));
            all.lemma_filter_contains_rev(pred, s);
            let k = choose|k: int| 0 <= k < all.len() && all[k] == s;
            assert(s.wf());
        }
    }
}

/// Every move made since the last load, restart or refusal can be taken
/// back: taking back as many moves as were made prints exactly the text from
/// before the first of them.
pub proof fn lemma_undo_all_restores(s: Session)
    requires
        s.wf(),
        s.past().len() > 0,
    ensures
        text_after_undos(s.pos(), s.past().len()) == Some(s.past()[0]),
{
    assert(past_link(s.pos(), s.past(), 0));
}

} // verus!
