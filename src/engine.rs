//! The rules engine: positions of the `shogi` crate, and the few of its
//! operations that the session uses. What the engine answers is named over
//! the position value itself: a position carries a repetition log that its
//! text does not show, so two positions that print the same text may answer
//! differently. Calls that generate moves take a `Tables`, which shows that
//! the engine's attack tables have been filled.
use vstd::prelude::*;
use vstd::utf8::is_ascii_chars;
use crate::pieces::{Move, Square};

verus! {

#[verifier::external_type_specification]
#[verifier::external_body]
pub struct ExPosition(shogi::Position);

#[verifier::external_type_specification]
#[verifier::external_body]
pub struct ExMoveError(shogi::MoveError);

#[verifier::external_type_specification]
#[verifier::external_body]
pub struct ExSfenError(shogi::SfenError);

/// The text (SFEN, with the moves played since the loaded start) that the
/// engine prints for a position.
pub uninterp spec fn sfen_of(p: shogi::Position) -> Seq<char>;

/// The position that the engine builds when an empty position is set from
/// `text` (with its attack tables filled), or `None` when it refuses `text`.
pub uninterp spec fn reloaded(text: Seq<char>) -> Option<shogi::Position>;

/// Whether the engine (with its attack tables filled) accepts move `m` on `p`.
pub uninterp spec fn accepts(p: shogi::Position, m: Move) -> bool;

/// The position after the engine has made move `m` on `p`, where it accepts it.
pub uninterp spec fn after_move(p: shogi::Position, m: Move) -> shogi::Position;

/// The position after the engine has taken back the last move of `p` (`p`
/// itself when nothing is recorded), or `None` when it reports an
/// inconsistency.
pub uninterp spec fn unmade(p: shogi::Position) -> Option<shogi::Position>;

/// What stands on square `index` of `p`, as (kind index, side index).
pub uninterp spec fn piece_on(p: shogi::Position, index: int) -> Option<(u8, u8)>;

/// The side to move in `p` (0 black, 1 white).
pub uninterp spec fn mover(p: shogi::Position) -> u8;

/// How many pieces of kind `kind` side `side` holds in hand in `p`.
pub uninterp spec fn in_hand(p: shogi::Position, kind: int, side: int) -> u8;

/// How many moves `p` records.
pub uninterp spec fn moves_made(p: shogi::Position) -> nat;

/// The last recorded move of `p`, as (origin index, destination index); a
/// drop has no origin.
pub uninterp spec fn last_move(p: shogi::Position) -> Option<(Option<u8>, u8)>;

/// The move counter of `p`.
pub uninterp spec fn ply(p: shogi::Position) -> nat;

/// `p` can take one more move without overflowing the engine's counters: the
/// move counter is below its limit and no hand count is at its limit.
pub open spec fn has_room(p: shogi::Position) -> bool {
    &&& ply(p) < 65535
    &&& forall|k: int, c: int| 0 <= k < 14 && 0 <= c < 2 ==> #[trigger] in_hand(p, k, c) < 255
}

/// Whether the king of side `side` is attacked in `p` (attack tables filled).
pub uninterp spec fn checked(p: shogi::Position, side: int) -> bool;

/// The text printed after taking back `n` moves from `p`, one at a time.
pub open spec fn text_after_undos(p: shogi::Position, n: nat) -> Option<Seq<char>>
    decreases n,
{
    if n == 0 {
        Some(sfen_of(p))
    } else {
        match unmade(p) {
            Some(q) => text_after_undos(q, (n - 1) as nat),
            None => None,
        }
    }
}

/// Proof that the engine's attack tables have been filled in this process.
/// Only `Tables::new` makes one, and every call that generates moves takes one.
pub struct Tables {
    ready: (),
}

impl Tables {
    /// Fills the engine's attack tables.
    pub fn new() -> (r: Tables) {
        init_tables()
    }
}

/// Relies on `shogi::bitboard::Factory::init`: fills the process-wide attack
/// tables that move generation reads. Idempotent.
#[verifier::external_body]
fn init_tables() -> (r: Tables) {
    shogi::bitboard::Factory::init();
    Tables { ready: () }
}

/// Relies on `Position::to_sfen`: the text the engine prints for the position.
#[verifier::external_body]
pub(crate) fn engine_text(p: &shogi::Position) -> (r: String)
    ensures
        r@ == sfen_of(*p),
{
    p.to_sfen()
}

/// `text` is what the engine prints for some position.
pub open spec fn printed(text: Seq<char>) -> bool {
    exists|q: shogi::Position| sfen_of(q) == text
}

pub open spec fn is_digit(c: char) -> bool {
    '0' <= c <= '9'
}

/// How many spaces `s` holds.
pub open spec fn spaces_in(s: Seq<char>) -> nat
    decreases s.len(),
{
    if s.len() == 0 {
        0
    } else {
        spaces_in(s.drop_last()) + if s.last() == ' ' {
            1nat
        } else {
            0nat
        }
    }
}

/// What `short_numbers` asks of the character at `j`: it is no whitespace
/// but a single space that does not start the text; a run of three digits or
/// more starting there lies in the fourth field (the move number) and has at
/// most four digits; and two digits there in the third field (the hands)
/// count at most 18.
pub open spec fn fits_at(text: Seq<char>, j: int) -> bool {
    &&& !('\t' <= text[j] <= '\r')
    &&& (text[j] == ' ' ==> j > 0 && (j + 1 < text.len() ==> text[j + 1] != ' '))
    &&& (j + 2 < text.len() && is_digit(text[j]) && is_digit(text[j + 1]) && is_digit(text[j + 2])
        ==> spaces_in(text.take(j)) == 3 && !(j + 4 < text.len() && is_digit(text[j + 3])
        && is_digit(text[j + 4])))
    &&& (j + 1 < text.len() && is_digit(text[j]) && is_digit(text[j + 1]) && spaces_in(
        text.take(j),
    ) == 2 ==> text[j] == '1' && text[j + 1] <= '8')
}

/// ASCII text of bounded length whose fields are separated by single spaces,
/// whose move number has at most four digits, whose hand counts are at most
/// 18 and whose other numbers have at most two digits. The engine parses such
/// text, and replays its moves, without overflowing its counters (a kind
/// then has at most 18 + 18 + 81 pieces, and captures keep that total) and
/// without slicing inside a character. Fields are told apart by counting
/// single spaces, so tabs and runs of spaces, which the engine never prints,
/// are refused.
pub open spec fn short_numbers(text: Seq<char>) -> bool {
    &&& is_ascii_chars(text)
    &&& text.len() <= MAX_TEXT_LEN
    &&& forall|j: int| 0 <= j < text.len() ==> #[trigger] fits_at(text, j)
}

pub const MAX_TEXT_LEN: usize = 200000;

/// Relies on `Position::new` and `Position::set_sfen` on it: the engine either
/// refuses the text or builds the position that `reloaded` names (a load that
/// stops at a refused move still succeeds). Text that the engine printed
/// itself, or that `short_numbers` admits, is parsed without panicking.
#[verifier::external_body]
pub(crate) fn load_position(_tables: &Tables, text: &str) -> (r: Result<
    shogi::Position,
    shogi::SfenError,
>)
    requires
        printed(text@) || short_numbers(text@),
    ensures
        r is Ok <==> reloaded(text@) is Some,
        r matches Ok(p) ==> Some(p) == reloaded(text@),
{
    let mut p = shogi::Position::new();
    p.set_sfen(text).map(|_| p)
}

/// Relies on `Position::make_move`. A move that is made is recorded once
/// more in the history; taking back one more move afterwards prints what
/// taking back none did before, and so on for any number of take-backs. On a
/// refusal the position may have been changed (a move refused for repetition
/// is left on the board unrecorded), so nothing is said of it. The move
/// counter and the captured piece's hand count are raised by one, so both
/// must have room (`has_room`).
#[verifier::external_body]
pub(crate) fn engine_make_move(_tables: &Tables, p: &mut shogi::Position, m: Move) -> (r: Result<
    (),
    shogi::MoveError,
>)
    requires
        m.wf(),
        has_room(*old(p)),
    ensures
        r is Ok <==> accepts(*old(p), m),
        r is Ok ==> *final(p) == after_move(*old(p), m),
        r is Ok ==> moves_made(*final(p)) == moves_made(*old(p)) + 1,
        r is Ok ==> forall|n: nat| #[trigger]
            text_after_undos(*final(p), n + 1) == text_after_undos(*old(p), n),
{
    let sq = |s: Square| shogi::Square::from_index(s.index).unwrap();
    p.make_move(match m {
        Move::Normal { from, to, promote } => shogi::Move::Normal { from: sq(from), to: sq(to), promote },
        Move::Drop { piece_type, to } => shogi::Move::Drop {
            to: sq(to),
            piece_type: shogi::PieceType::iter().nth(piece_type as usize).unwrap(),
        },
    })
}

/// Relies on `Position::unmake_move`: takes back the last recorded move, and
/// does nothing when none is recorded. On an inconsistency the last record
/// may already be gone, so nothing is said of the position then.
#[verifier::external_body]
pub(crate) fn engine_unmake_move(p: &mut shogi::Position) -> (r: Result<(), shogi::MoveError>)
    ensures
        r is Ok <==> unmade(*old(p)) is Some,
        r is Ok ==> Some(*final(p)) == unmade(*old(p)),
        moves_made(*old(p)) == 0 ==> r is Ok && *final(p) == *old(p),
        r is Ok && moves_made(*old(p)) > 0 ==> moves_made(*final(p)) + 1 == moves_made(*old(p)),
{
    p.unmake_move()
}

/// Relies on `Position::piece_at`, reporting the piece by the engine's
/// indices of its kind and side.
#[verifier::external_body]
pub(crate) fn engine_piece_at(p: &shogi::Position, s: Square) -> (r: Option<(u8, u8)>)
    requires
        s.wf(),
    ensures
        r == piece_on(*p, s.index as int),
        r matches Some((k, c)) ==> k < 14 && c < 2,
{
    p.piece_at(shogi::Square::from_index(s.index).unwrap())
        .map(|pc| (pc.piece_type.index() as u8, pc.color.index() as u8))
}

/// Relies on `Position::side_to_move`, by the engine's index of the side.
#[verifier::external_body]
pub(crate) fn engine_side_to_move(p: &shogi::Position) -> (r: u8)
    ensures
        r == mover(*p),
        r < 2,
{
    p.side_to_move().index() as u8
}

/// Relies on `Position::hand`: the count of a kind in a side's hand.
#[verifier::external_body]
pub(crate) fn engine_hand(p: &shogi::Position, kind: u8, side: u8) -> (r: u8)
    requires
        kind < 14,
        side < 2,
    ensures
        r == in_hand(*p, kind as int, side as int),
{
    p.hand(shogi::Piece {
        piece_type: shogi::PieceType::iter().nth(kind as usize).unwrap(),
        color: shogi::Color::iter().nth(side as usize).unwrap(),
    })
}

/// Relies on `Position::ply`: the move counter.
#[verifier::external_body]
pub(crate) fn engine_ply(p: &shogi::Position) -> (r: u16)
    ensures
        r as nat == ply(*p),
{
    p.ply()
}

/// Whether one more move fits in the engine's counters.
pub(crate) fn room_for_move(p: &shogi::Position) -> (r: bool)
    ensures
        r == has_room(*p),
{
    if engine_ply(p) == 65535 {
        return false;
    }
    let mut k: u8 = 0;
    while k < 14
        invariant
            k <= 14,
            ply(*p) < 65535,
            forall|k2: int, c: int| 0 <= k2 < k && 0 <= c < 2 ==> #[trigger] in_hand(*p, k2, c) < 255,
        decreases 14 - k,
    {
        if engine_hand(p, k, 0) == 255 || engine_hand(p, k, 1) == 255 {
            return false;
        }
        assert forall|k2: int, c: int| 0 <= k2 < k + 1 && 0 <= c < 2 implies #[trigger] in_hand(
            *p,
            k2,
            c,
        ) < 255 by {
            if k2 == k {
                assert(c == 0 || c == 1);
            }
        }
        k = k + 1;
    }
    true
}

/// Relies on `Position::move_history`: the number of recorded moves.
#[verifier::external_body]
pub(crate) fn engine_history_len(p: &shogi::Position) -> (r: usize)
    ensures
        r as nat == moves_made(*p),
{
    p.move_history().len()
}

/// Relies on `Position::in_check` for the side with the given engine index.
#[verifier::external_body]
pub(crate) fn engine_in_check(_tables: &Tables, p: &shogi::Position, side: u8) -> (r: bool)
    requires
        side < 2,
    ensures
        r == checked(*p, side as int),
{
    p.in_check(shogi::Color::iter().nth(side as usize).unwrap())
}

/// Relies on `Position::move_history`: the squares of the last record.
#[verifier::external_body]
pub(crate) fn engine_last_move(p: &shogi::Position) -> (r: Option<(Option<u8>, u8)>)
    ensures
        r == last_move(*p),
        r matches Some((from, to)) ==> to < 81 && (from matches Some(f) ==> f < 81),
{
    p.move_history().last().map(|record| match record {
        shogi::MoveRecord::Normal { from, to, .. } => (Some(from.index() as u8), to.index() as u8),
        shogi::MoveRecord::Drop { to, .. } => (None, to.index() as u8),
    })
}

} // verus!
