//! The request, response and error values that cross the wire.

use crate::chess_serde::UciMove;
use shakmaty::Chess;
use vstd::prelude::*;

verus! {

#[verifier::external_type_specification]
#[verifier::external_body]
pub struct ExValue(serde_json::Value);

/// A request for the engine to take a move.
pub struct EngineRequest<S> {
    /// The move that the caller took; the null move if the engine moves first.
    pub opponent_move: UciMove,
    /// The game state before the caller's move was played.
    pub game_before: Chess,
    /// The engine's state after its last move.
    pub engine_state: S,
    /// The seed for observing the caller's move; drawn at random if absent.
    pub observe_mine_rand: Option<u64>,
    /// The seed for producing the engine's move; drawn at random if absent.
    pub produce_rand: Option<u64>,
    /// The seed for observing the engine's own move; drawn at random if absent.
    pub observe_your_rand: Option<u64>,
    /// Whether status info is wanted.
    pub with_status_info: bool,
}

/// General engine info, including the initial state.
pub struct EngineInfo<S> {
    /// The engine's algorithm id.
    pub id: String,
    /// A human-readable description of what the engine does.
    pub description: String,
    /// The initial state value, to pass with the first move.
    pub initial_state: S,
}

/// [`EngineInfo`] with the engine-specific field held as a JSON value.
pub struct AnyEngineInfo {
    pub id: String,
    pub description: String,
    pub initial_state: serde_json::Value,
}

/// Errors of a request, independent of the engine.
#[derive(Clone, Copy, Debug, PartialEq, Eq, Structural)]
pub enum EngineRequestError {
    /// The submitted move is not legal in the submitted position, or not at all.
    PositionMoveMismatch,
    /// The engine produced a move that is not legal in its position: a bug in
    /// the engine.  The move is included.
    EngineSentIllegalMove { illegal_move: UciMove },
}

/// The engine's answer to a request.
pub struct EngineResponse<S, I> {
    /// The move that the engine chose.
    pub engine_move: UciMove,
    /// The game state after the engine's move.
    pub game_after: Chess,
    /// The engine's status info about the move, where the request asked for it.
    pub status_info: Option<I>,
    /// The seed for observing the caller's move; absent where there was none.
    pub observe_other_rand_used: Option<u64>,
    /// The seed for producing the move.
    pub produce_rand_used: u64,
    /// The seed for observing the engine's own move.
    pub observe_mine_rand_used: u64,
    /// The engine's state, to pass with the next request.
    pub engine_state: S,
}

/// [`EngineResponse`] with the engine-specific fields held as JSON values.
pub struct AnyEngineResponse {
    pub engine_move: UciMove,
    pub game_after: Chess,
    pub status_info: Option<serde_json::Value>,
    pub observe_other_rand_used: Option<u64>,
    pub produce_rand_used: u64,
    pub observe_mine_rand_used: u64,
    pub engine_state: serde_json::Value,
}

/// The outcome of one request.
pub enum EngineResult<S, I, Er> {
    RequestError(EngineRequestError),
    EngineError(Er),
    Response(EngineResponse<S, I>),
}

/// [`EngineResult`] with the engine-specific fields held as JSON values.
pub enum AnyEngineResult {
    RequestError(EngineRequestError),
    EngineError(serde_json::Value),
    Response(AnyEngineResponse),
}

/// The body sent for an engine's own failure.
#[derive(Clone, Debug, PartialEq, Eq)]
pub struct EngineInternalError {
    pub error_text: String,
}

/// The transport status of an outcome: success, a request-level error, or
/// an engine-level error.
pub open spec fn status_of<S, I, Er>(r: EngineResult<S, I, Er>) -> u16 {
    match r {
        EngineResult::Response(_) => 200,
        EngineResult::RequestError(_) => 400,
        EngineResult::EngineError(_) => 500,
    }
}

impl<S, I, Er> EngineResult<S, I, Er> {
    /// The HTTP status that the outcome is sent with.
    pub fn status_code(&self) -> (r: u16)
        ensures
            r == status_of(*self),
    {
        match self {
            EngineResult::Response(_) => 200,
            EngineResult::RequestError(_) => 400,
            EngineResult::EngineError(_) => 500,
        }
    }
}

impl AnyEngineResult {
    /// The HTTP status that the outcome is sent with.
    pub fn status_code(&self) -> (r: u16)
        ensures
            r == match *self {
                AnyEngineResult::Response(_) => 200u16,
                AnyEngineResult::RequestError(_) => 400u16,
                AnyEngineResult::EngineError(_) => 500u16,
            },
    {
        match self {
            AnyEngineResult::Response(_) => 200,
            AnyEngineResult::RequestError(_) => 400,
            AnyEngineResult::EngineError(_) => 500,
        }
    }
}

} // verus!
