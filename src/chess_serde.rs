//! Canonical text forms of moves (UCI) and positions (FEN).

use std::str::FromStr;

use shakmaty::fen::Fen;
use shakmaty::uci::Uci;
use shakmaty::{CastlingMode, Chess, EnPassantMode, Position, Role, Square};
use vstd::prelude::*;

verus! {

#[verifier::external_type_specification]
#[verifier::external_body]
pub struct ExChess(shakmaty::Chess);

#[verifier::external_type_specification]
#[verifier::external_body]
pub struct ExMove(shakmaty::Move);

/// A move in UCI coordinate notation.
///
/// Squares are indices `0..64` (`a1` is 0, `b1` is 1, `h8` is 63); piece
/// roles are `1..=6` (pawn, knight, bishop, rook, queen, king).
#[derive(Clone, Copy, Debug, PartialEq, Eq, Structural)]
pub enum UciMove {
    /// A move from one square to another, with an optional promotion role.
    Normal { from: u8, to: u8, promotion: Option<u8> },
    /// A piece drop.
    Put { role: u8, to: u8 },
    /// The null move, `0000`: no move was made.
    Null,
}

/// Why a text failed to decode.
#[derive(Clone, Copy, Debug, PartialEq, Eq, Structural)]
pub enum CodecError {
    /// The text is not a structurally valid position.
    MalformedPosition,
    /// The text is not a structurally valid move token.
    MalformedMove,
    /// The move token is well formed, but not legal in the given position.
    IllegalInContext,
}

pub open spec fn file_char(f: int) -> char {
    if f == 0 { 'a' } else if f == 1 { 'b' } else if f == 2 { 'c' } else if f == 3 { 'd' }
    else if f == 4 { 'e' } else if f == 5 { 'f' } else if f == 6 { 'g' } else { 'h' }
}

pub open spec fn rank_char(r: int) -> char {
    if r == 0 { '1' } else if r == 1 { '2' } else if r == 2 { '3' } else if r == 3 { '4' }
    else if r == 4 { '5' } else if r == 5 { '6' } else if r == 6 { '7' } else { '8' }
}

/// The lower-case letter of a role.
pub open spec fn role_char(r: u8) -> char {
    if r == 1 { 'p' } else if r == 2 { 'n' } else if r == 3 { 'b' }
    else if r == 4 { 'r' } else if r == 5 { 'q' } else { 'k' }
}

/// The upper-case letter of a role.
pub open spec fn role_upper_char(r: u8) -> char {
    if r == 1 { 'P' } else if r == 2 { 'N' } else if r == 3 { 'B' }
    else if r == 4 { 'R' } else if r == 5 { 'Q' } else { 'K' }
}

/// A square's name: its file letter, then its rank digit.
pub open spec fn square_text(s: u8) -> Seq<char> {
    seq![file_char(s as int % 8), rank_char(s as int / 8)]
}

pub open spec fn is_square(s: u8) -> bool {
    s < 64
}

pub open spec fn is_role(r: u8) -> bool {
    1 <= r <= 6
}

impl UciMove {
    /// Every square and role in the move is in range.
    pub open spec fn wf(self) -> bool {
        match self {
            UciMove::Normal { from, to, promotion } => is_square(from) && is_square(to) && (
            promotion matches Some(p) ==> is_role(p)),
            UciMove::Put { role, to } => is_role(role) && is_square(to),
            UciMove::Null => true,
        }
    }

    /// Whether every square and role in the move is in range.
    pub fn is_valid(&self) -> (r: bool)
        ensures
            r == self.wf(),
    {
        match *self {
            UciMove::Normal { from, to, promotion } => from < 64 && to < 64 && match promotion {
                Some(p) => 1 <= p && p <= 6,
                None => true,
            },
            UciMove::Put { role, to } => 1 <= role && role <= 6 && to < 64,
            UciMove::Null => true,
        }
    }

    /// The canonical UCI text of the move.
    pub open spec fn text(self) -> Seq<char> {
        match self {
            UciMove::Normal { from, to, promotion } => match promotion {
                None => square_text(from) + square_text(to),
                Some(p) => (square_text(from) + square_text(to)).push(role_char(p)),
            },
            UciMove::Put { role, to } => seq![role_upper_char(role), '@'] + square_text(to),
            UciMove::Null => seq!['0', '0', '0', '0'],
        }
    }
}

pub open spec fn file_of_char(c: char) -> Option<u8> {
    if c == 'a' { Some(0u8) } else if c == 'b' { Some(1u8) } else if c == 'c' { Some(2u8) }
    else if c == 'd' { Some(3u8) } else if c == 'e' { Some(4u8) } else if c == 'f' { Some(5u8) }
    else if c == 'g' { Some(6u8) } else if c == 'h' { Some(7u8) } else { None }
}

pub open spec fn rank_of_char(c: char) -> Option<u8> {
    if c == '1' { Some(0u8) } else if c == '2' { Some(1u8) } else if c == '3' { Some(2u8) }
    else if c == '4' { Some(3u8) } else if c == '5' { Some(4u8) } else if c == '6' { Some(5u8) }
    else if c == '7' { Some(6u8) } else if c == '8' { Some(7u8) } else { None }
}

/// The role of a piece letter, in either case.
pub open spec fn role_of_char(c: char) -> Option<u8> {
    if c == 'p' || c == 'P' { Some(1u8) } else if c == 'n' || c == 'N' { Some(2u8) }
    else if c == 'b' || c == 'B' { Some(3u8) } else if c == 'r' || c == 'R' { Some(4u8) }
    else if c == 'q' || c == 'Q' { Some(5u8) } else if c == 'k' || c == 'K' { Some(6u8) }
    else { None }
}

/// The square named by the two characters at `i`.
pub open spec fn square_at(s: Seq<char>, i: int) -> Option<u8> {
    match (file_of_char(s[i]), rank_of_char(s[i + 1])) {
        (Some(f), Some(r)) => Some((f + 8 * r) as u8),
        _ => None,
    }
}

pub open spec fn is_ascii(s: Seq<char>) -> bool {
    forall|i: int| 0 <= i < s.len() ==> (#[trigger] s[i] as u32) < 128
}

/// The move that a UCI token stands for: four or five ASCII characters;
/// `0000` is the null move; a drop is a role letter, `@` and a square (a
/// fifth character is ignored); otherwise two squares and, in the fifth
/// place, a promotion role.
pub open spec fn uci_parse(s: Seq<char>) -> Option<UciMove> {
    if (s.len() != 4 && s.len() != 5) || !is_ascii(s) {
        None
    } else if s == seq!['0', '0', '0', '0'] {
        Some(UciMove::Null)
    } else {
        match square_at(s, 2) {
            None => None,
            Some(to) => if s[1] == '@' {
                match role_of_char(s[0]) {
                    Some(role) => Some(UciMove::Put { role, to }),
                    None => None,
                }
            } else {
                match square_at(s, 0) {
                    None => None,
                    Some(from) => if s.len() == 5 {
                        match role_of_char(s[4]) {
                            Some(p) => Some(UciMove::Normal { from, to, promotion: Some(p) }),
                            None => None,
                        }
                    } else {
                        Some(UciMove::Normal { from, to, promotion: None })
                    },
                }
            },
        }
    }
}

/// The FEN text that shakmaty writes for a position.
pub uninterp spec fn fen_of(p: Chess) -> Seq<char>;

/// The position that shakmaty reads from a FEN text, if it is a legal one.
pub uninterp spec fn fen_parse(s: Seq<char>) -> Option<Chess>;

/// The standard-notation UCI token of a move.
pub uninterp spec fn uci_of(m: shakmaty::Move) -> UciMove;

/// The legal move that a token names in a position, if any.
pub uninterp spec fn move_of(u: UciMove, p: Chess) -> Option<shakmaty::Move>;

/// The position after a move, if the move is legal.
pub uninterp spec fn play_of(p: Chess, m: shakmaty::Move) -> Option<Chess>;

/// Relies on `Uci::from_str`, that is `Uci::from_ascii` (shakmaty): the
/// grammar of `uci_parse`, read on the bytes of the text.
#[verifier::external_body]
fn parse_uci(s: &str) -> (r: Option<UciMove>)
    ensures
        r == uci_parse(s@),
{
    match Uci::from_str(s) {
        Ok(Uci::Normal { from, to, promotion }) => Some(
            UciMove::Normal { from: u8::from(from), to: u8::from(to), promotion: promotion.map(u8::from) },
        ),
        Ok(Uci::Put { role, to }) => Some(UciMove::Put { role: u8::from(role), to: u8::from(to) }),
        Ok(Uci::Null) => Some(UciMove::Null),
        Err(_) => None,
    }
}

/// Relies on shakmaty's `Display` for `Uci`: file letter and rank digit per
/// square, a lower-case promotion letter, `R@sq` for drops, `0000` for null.
#[verifier::external_body]
fn uci_string(u: &UciMove) -> (r: String)
    requires
        u.wf(),
    ensures
        r@ == u.text(),
{
    let uci = match *u {
        UciMove::Normal { from, to, promotion } => Uci::Normal {
            from: Square::new(from as u32),
            to: Square::new(to as u32),
            promotion: promotion.map(|p| Role::try_from(p).unwrap()),
        },
        UciMove::Put { role, to } => Uci::Put { role: Role::try_from(role).unwrap(), to: Square::new(to as u32) },
        UciMove::Null => Uci::Null,
    };
    uci.to_string()
}

/// Relies on `Move::to_uci` with standard castling notation (shakmaty): the
/// result depends on the move alone, and is a normal move or a drop, with
/// squares and roles in range.
#[verifier::external_body]
pub(crate) fn move_uci(m: &shakmaty::Move) -> (r: UciMove)
    ensures
        r == uci_of(*m),
        r.wf(),
        !(r is Null),
{
    match m.to_uci(CastlingMode::Standard) {
        Uci::Normal { from, to, promotion } => UciMove::Normal {
            from: u8::from(from),
            to: u8::from(to),
            promotion: promotion.map(u8::from),
        },
        Uci::Put { role, to } => UciMove::Put { role: u8::from(role), to: u8::from(to) },
        Uci::Null => UciMove::Null,
    }
}

/// Relies on `Uci::to_move` (shakmaty): the legal move that the token names in
/// the position, if any; the null move names none.  A move is handed back
/// only where `pos.is_legal` holds of it, which is also what `Position::play`
/// tests, so it plays.
#[verifier::external_body]
pub(crate) fn move_in_position(u: &UciMove, pos: &Chess) -> (r: Option<shakmaty::Move>)
    requires
        u.wf(),
    ensures
        r == move_of(*u, *pos),
        u is Null ==> r is None,
        r matches Some(m) ==> play_of(*pos, m) is Some,
        r matches Some(m) ==> uci_of(m) == *u || (u is Normal && uci_of(m) == UciMove::Normal {
            from: u->Normal_from,
            to: uci_of(m)->Normal_to,
            promotion: None,
        }),
{
    let uci = match *u {
        UciMove::Normal { from, to, promotion } => Uci::Normal {
            from: Square::new(from as u32),
            to: Square::new(to as u32),
            promotion: promotion.map(|p| Role::try_from(p).unwrap()),
        },
        UciMove::Put { role, to } => Uci::Put { role: Role::try_from(role).unwrap(), to: Square::new(to as u32) },
        UciMove::Null => Uci::Null,
    };
    uci.to_move(pos).ok()
}

/// Relies on `Position::play` (shakmaty): the position after the move, or
/// nothing where the move is not legal there.
#[verifier::external_body]
pub(crate) fn play_move(pos: &Chess, m: &shakmaty::Move) -> (r: Option<Chess>)
    ensures
        r == play_of(*pos, *m),
{
    pos.clone().play(m).ok()
}

/// Relies on `Fen::from_position` and `Fen`'s `Display` (shakmaty): the FEN
/// text of the position, with an en-passant square only where a capture there
/// is legal.
#[verifier::external_body]
fn position_fen(pos: &Chess) -> (r: String)
    ensures
        r@ == fen_of(*pos),
{
    Fen::from_position(pos.clone(), EnPassantMode::Legal).to_string()
}

/// Relies on `Fen::from_str` and `Fen::into_position` with standard
/// castling (shakmaty): the position, where the text is a FEN record of a
/// legal one.
#[verifier::external_body]
fn parse_position(s: &str) -> (r: Option<Chess>)
    ensures
        r == fen_parse(s@),
{
    Fen::from_str(s).ok()?.into_position(CastlingMode::Standard).ok()
}

/// The canonical UCI text of a move.
pub fn encode_move(u: &UciMove) -> (r: String)
    requires
        u.wf(),
    ensures
        r@ == u.text(),
{
    uci_string(u)
}

/// Decodes a UCI move token, outside any position: the move of the
/// `uci_parse` grammar, else `MalformedMove`.  The canonical text of every
/// move decodes to that move.
pub fn decode_move(s: &str) -> (r: Result<UciMove, CodecError>)
    ensures
        r == match uci_parse(s@) {
            Some(m) => Ok::<UciMove, CodecError>(m),
            None => Err(CodecError::MalformedMove),
        },
        r matches Ok(m) ==> m.wf(),
        forall|m: UciMove| #[trigger] m.text() == s@ && m.wf() ==> r == Ok::<UciMove, CodecError>(m),
{
    proof {
        lemma_uci_parse_wf(s@);
        assert forall|m: UciMove| #[trigger] m.text() == s@ && m.wf() implies uci_parse(s@) == Some(m) by {
            lemma_uci_parse_text(m);
        }
    }
    match parse_uci(s) {
        Some(m) => Ok(m),
        None => Err(CodecError::MalformedMove),
    }
}

/// Decodes a UCI move token in the context of a position.
///
/// A text that is no move token is `MalformedMove`; a token that names no
/// legal move of the position (the null move among them) is
/// `IllegalInContext`.  On success the token is returned with the move, and
/// the move encodes back to the token, but for the two rewritings of
/// `move_in_position` (castling onto the rook, a promotion letter on an
/// en-passant capture).
pub fn decode_move_in(s: &str, pos: &Chess) -> (r: Result<(UciMove, shakmaty::Move), CodecError>)
    ensures
        r == match uci_parse(s@) {
            None => Err(CodecError::MalformedMove),
            Some(u) => match move_of(u, *pos) {
                Some(m) => Ok::<(UciMove, shakmaty::Move), CodecError>((u, m)),
                None => Err(CodecError::IllegalInContext),
            },
        },
        r matches Ok((u, m)) ==> u.wf() && !(u is Null) && play_of(*pos, m) is Some,
        r matches Ok((u, m)) ==> uci_of(m) == u || (u is Normal && uci_of(m) == UciMove::Normal {
            from: u->Normal_from,
            to: uci_of(m)->Normal_to,
            promotion: None,
        }),
        forall|m: UciMove| #[trigger] m.text() == s@ && m.wf() ==> match r {
            Ok((u, _)) => u == m,
            Err(e) => e == CodecError::IllegalInContext,
        },
{
    match decode_move(s) {
        Err(e) => Err(e),
        Ok(u) => match move_in_position(&u, pos) {
            Some(m) => Ok((u, m)),
            None => Err(CodecError::IllegalInContext),
        },
    }
}

/// The canonical UCI text of a move played in some position, castling
/// written as the king's two-square move.
pub fn encode_played_move(m: &shakmaty::Move) -> (r: String)
    ensures
        r@ == uci_of(*m).text(),
{
    let u = move_uci(m);
    uci_string(&u)
}

/// The canonical FEN text of a position.
pub fn encode_position(pos: &Chess) -> (r: String)
    ensures
        r@ == fen_of(*pos),
{
    position_fen(pos)
}

/// Decodes a FEN text into a position; a text that is no FEN record, or one
/// that describes no legal position, is `MalformedPosition`.
pub fn decode_position(s: &str) -> (r: Result<Chess, CodecError>)
    ensures
        r == match fen_parse(s@) {
            Some(p) => Ok::<Chess, CodecError>(p),
            None => Err(CodecError::MalformedPosition),
        },
{
    match parse_position(s) {
        Some(p) => Ok(p),
        None => Err(CodecError::MalformedPosition),
    }
}

/// Whatever the grammar accepts has its squares and roles in range.
pub proof fn lemma_uci_parse_wf(s: Seq<char>)
    ensures
        uci_parse(s) matches Some(m) ==> m.wf(),
{
}

proof fn lemma_square_at_text(t: Seq<char>, i: int, sq: u8)
    requires
        is_square(sq),
        0 <= i,
        i + 1 < t.len(),
        t[i] == square_text(sq)[0],
        t[i + 1] == square_text(sq)[1],
    ensures
        square_at(t, i) == Some(sq),
{
    let f = sq as int % 8;
    let r = sq as int / 8;
    assert(0 <= f < 8 && 0 <= r < 8);
    assert(file_of_char(file_char(f)) == Some(f as u8));
    assert(rank_of_char(rank_char(r)) == Some(r as u8));
}

/// The canonical text of a move is read back as that move: decoding then
/// encoding a canonical text gives it again, and encoding then decoding a
/// move gives the move.
pub proof fn lemma_uci_parse_text(m: UciMove)
    requires
        m.wf(),
    ensures
        uci_parse(m.text()) == Some(m),
{
    let t = m.text();
    match m {
        UciMove::Normal { from, to, promotion } => {
            lemma_square_at_text(t, 0, from);
            lemma_square_at_text(t, 2, to);
            assert(t[1] != '@' && t[1] != '0');
            if let Some(p) = promotion {
                assert(t[4] == role_char(p));
            }
            assert(is_ascii(t));
        },
        UciMove::Put { role, to } => {
            lemma_square_at_text(t, 2, to);
            assert(t[1] == '@' && t[0] == role_upper_char(role));
            assert(t[1] != '0');
            assert(is_ascii(t));
        },
        UciMove::Null => {
            assert(t =~= seq!['0', '0', '0', '0']);
            assert(is_ascii(t));
        },
    }
}

proof fn lemma_square_text_injective(a: u8, b: u8)
    requires
        is_square(a),
        is_square(b),
        square_text(a) == square_text(b),
    ensures
        a == b,
{
    assert(square_text(a)[0] == square_text(b)[0]);
    assert(square_text(a)[1] == square_text(b)[1]);
}

/// Distinct moves have distinct texts, so the canonical text of a move
/// decodes back to that move, and re-encoding a decoded canonical text gives
/// the text again.
pub proof fn lemma_move_text_injective(a: UciMove, b: UciMove)
    requires
        a.wf(),
        b.wf(),
        a.text() == b.text(),
    ensures
        a == b,
{
    let t = a.text();
    match a {
        UciMove::Normal { from: fa, to: ta, promotion: pa } => {
            assert(t[0] == file_char(fa as int % 8) && t[1] == rank_char(fa as int / 8));
            assert(t[2] == file_char(ta as int % 8) && t[3] == rank_char(ta as int / 8));
        },
        UciMove::Put { role: ra, to: ta } => {
            assert(t[1] == '@');
        },
        UciMove::Null => {
            assert(t[1] == '0');
        },
    }
    match b {
        UciMove::Normal { from: fb, to: tb, promotion: pb } => {
            assert(t[0] == file_char(fb as int % 8) && t[1] == rank_char(fb as int / 8));
            assert(t[2] == file_char(tb as int % 8) && t[3] == rank_char(tb as int / 8));
            if let UciMove::Normal { from: fa, to: ta, promotion: pa } = a {
                assert(square_text(fa) =~= t.subrange(0, 2));
                assert(square_text(fb) =~= t.subrange(0, 2));
                assert(square_text(ta) =~= t.subrange(2, 4));
                assert(square_text(tb) =~= t.subrange(2, 4));
                lemma_square_text_injective(fa, fb);
                lemma_square_text_injective(ta, tb);
                if pa is Some || pb is Some {
                    assert(t.len() == 5);
                    assert(t[4] == role_char(pa->0));
                    assert(t[4] == role_char(pb->0));
                }
            }
        },
        UciMove::Put { role: rb, to: tb } => {
            assert(t[1] == '@');
            assert(t[0] == role_upper_char(rb));
            if let UciMove::Put { role: ra, to: ta } = a {
                assert(square_text(ta) =~= t.subrange(2, 4));
                assert(square_text(tb) =~= t.subrange(2, 4));
                lemma_square_text_injective(ta, tb);
            }
        },
        UciMove::Null => {
            assert(t[1] == '0');
        },
    }
}

} // verus!
