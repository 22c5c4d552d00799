//! The contract that a pluggable chess engine implements.

use crate::server_types::EngineInfo;
use shakmaty::{Chess, Move};
use vstd::prelude::*;

verus! {

/// A chess engine: a program that takes positions and produces moves.
///
/// The engine is handed a seed for every call to [`Engine::propose_move`] and
/// [`Engine::observe_move`], and draws any randomness it needs from that seed
/// alone (seeding a generator from it where 64 bits are not enough), so that
/// its decisions can be replayed.
///
/// Playing White, the engine proposes a move, observes the move that White
/// plays, observes Black's reply, and so on.  Playing Black, it first observes
/// White's move.
///
/// The engine keeps no game information in its own value: whatever it needs is
/// in `State`, which the caller round-trips.  It must make the same moves
/// whether used many times or created afresh, as long as `State` is the same.
pub trait Engine: Sized {
    /// What the engine needs in order to produce moves; stored by the caller.
    /// Its initial value is the starting position, White to move.
    type State: Default + Clone;

    /// An explanation of the engine's thinking about a move.
    type StatusInfo;

    /// How the engine's thinking can fail.  The caller retries a failed
    /// operation a few times, and then treats the game as forfeit.
    type Error;

    /// What [`Engine::propose_move`] gives for a seed, a state and a position:
    /// it depends on these alone, neither on the engine's value nor on
    /// anything else.  An engine verified against this trait defines it; the
    /// default leaves the value unstated.
    open spec fn proposal(rand: u64, state: Self::State, position: Chess) -> Result<(Move, Self::StatusInfo), Self::Error> {
        arbitrary()
    }

    /// The state that [`Engine::observe_move`] leaves for a seed, a state, a
    /// move and the position after it, or its error; again a function of
    /// these alone, defined by a verified engine and unstated by default.
    open spec fn observation(rand: u64, state: Self::State, move_taken: Move, position_after: Chess) -> Result<Self::State, Self::Error> {
        arbitrary()
    }

    /// Static metadata, with the initial state.
    fn get_info() -> EngineInfo<Self::State>;

    /// Calculates a move for the side to move in `current_position`.  Where
    /// `current_state` disagrees with the position, this is an error.
    fn propose_move(
        &mut self,
        rand: u64,
        current_state: &Self::State,
        current_position: &Chess,
    ) -> (r: Result<(Move, Self::StatusInfo), Self::Error>)
        ensures
            r == Self::proposal(rand, *current_state, *current_position),
    ;

    /// Calculates a move without status info; by default, the move of
    /// [`Engine::propose_move`].
    fn propose_move_without_info(
        &mut self,
        rand: u64,
        current_state: &Self::State,
        current_position: &Chess,
    ) -> (r: Result<Move, Self::Error>)
        ensures
            r == match Self::proposal(rand, *current_state, *current_position) {
                Ok((m, _)) => Ok::<Move, Self::Error>(m),
                Err(e) => Err(e),
            },
    {
        match self.propose_move(rand, current_state, current_position) {
            Ok((m, _)) => Ok(m),
            Err(e) => Err(e),
        }
    }

    /// Observes that `move_taken` was played, giving `position_after`.  Called
    /// for the engine's own moves and for the opponent's alike.
    fn observe_move(
        &mut self,
        rand: u64,
        state: &mut Self::State,
        move_taken: &Move,
        position_after: &Chess,
    ) -> (r: Result<(), Self::Error>)
        ensures
            match Self::observation(rand, *old(state), *move_taken, *position_after) {
                Ok(after) => r is Ok && *final(state) == after,
                Err(e) => r == Err::<(), Self::Error>(e),
            },
    ;
}

} // verus!
