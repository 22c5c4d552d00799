//! One exchange: the caller's move is observed, the engine proposes a move,
//! and the engine observes its own move.

use crate::chess_serde::{move_in_position, move_of, move_uci, play_move, play_of, uci_of, UciMove};
use shakmaty::{Chess, Move};
use crate::engine::Engine;
use crate::server_types::{EngineRequest, EngineRequestError, EngineResponse, EngineResult};
use vstd::prelude::*;

verus! {

pub assume_specification<T>[ rand::random::<T> ]() -> (r: T)
    where
        rand::distributions::Standard: rand::distributions::Distribution<T>,
;

/// The seed to hand the engine: the caller's where given, else a random one.
pub fn resolve_seed(given: Option<u64>) -> (r: u64)
    ensures
        given matches Some(v) ==> r == v,
{
    match given {
        Some(v) => v,
        None => rand::random::<u64>(),
    }
}

/// Resolves the caller's move.
///
/// `applied` is the caller's move as decoded in `game_before` with the
/// position it leads to, or nothing where the move is not legal there.  The
/// null move leaves `game_before` as it is and has nothing to observe; any
/// other move is applied where it was legal, and is `PositionMoveMismatch`
/// where it was not.
pub fn opponent_step(opponent_move: &UciMove, game_before: Chess, applied: Option<(Move, Chess)>) -> (r:
    Result<(Chess, Option<Move>), EngineRequestError>)
    ensures
        opponent_move is Null ==> r == Ok::<(Chess, Option<Move>), EngineRequestError>((game_before, None)),
        !(opponent_move is Null) ==> r == match applied {
            Some((m, p)) => Ok::<(Chess, Option<Move>), EngineRequestError>((p, Some(m))),
            None => Err(EngineRequestError::PositionMoveMismatch),
        },
{
    if matches!(opponent_move, UciMove::Null) {
        Ok((game_before, None))
    } else {
        match applied {
            Some((m, p)) => Ok((p, Some(m))),
            None => Err(EngineRequestError::PositionMoveMismatch),
        }
    }
}

/// Checks the engine's move: `applied` is the position it leads to, or
/// nothing where it is not legal, which is `EngineSentIllegalMove` with the
/// move.
pub fn own_move_step(engine_move: UciMove, applied: Option<Chess>) -> (r: Result<Chess, EngineRequestError>)
    ensures
        r == match applied {
            Some(p) => Ok::<Chess, EngineRequestError>(p),
            None => Err(EngineRequestError::EngineSentIllegalMove { illegal_move: engine_move }),
        },
{
    match applied {
        Some(p) => Ok(p),
        None => Err(EngineRequestError::EngineSentIllegalMove { illegal_move: engine_move }),
    }
}

/// The outcome of the caller's move: the position to propose in, with the
/// move to observe; nothing where the move is out of range or not legal.
pub open spec fn opponent_outcome(mv: UciMove, before: Chess) -> Option<(Chess, Option<Move>)> {
    if mv is Null {
        Some((before, None))
    } else if mv.wf() {
        match move_of(mv, before) {
            Some(m) => match play_of(before, m) {
                Some(p) => Some((p, Some(m))),
                None => None,
            },
            None => None,
        }
    } else {
        None
    }
}

/// The outcome of one exchange with seeds `s1` (observing the caller's
/// move), `s2` (proposing) and `s3` (observing the engine's own move).
///
/// The caller's move is resolved; unless it is the null move, the engine
/// observes it on the position after it; the engine proposes on that
/// position with the state it has then; its move is played, or reported as
/// illegal; the engine observes its own move.  The first failure ends the
/// exchange.
pub open spec fn exchange_spec<E: Engine>(
    mv: UciMove,
    before: Chess,
    state: E::State,
    s1: u64,
    s2: u64,
    s3: u64,
    with_info: bool,
) -> EngineResult<E::State, E::StatusInfo, E::Error> {
    match opponent_outcome(mv, before) {
        None => EngineResult::RequestError(EngineRequestError::PositionMoveMismatch),
        Some((g1, opp)) => {
            let observed = match opp {
                None => Ok::<E::State, E::Error>(state),
                Some(m) => E::observation(s1, state, m, g1),
            };
            match observed {
                Err(e) => EngineResult::EngineError(e),
                Ok(st1) => match E::proposal(s2, st1, g1) {
                    Err(e) => EngineResult::EngineError(e),
                    Ok((m, info)) => match play_of(g1, m) {
                        None => EngineResult::RequestError(
                            EngineRequestError::EngineSentIllegalMove { illegal_move: uci_of(m) },
                        ),
                        Some(g2) => match E::observation(s3, st1, m, g2) {
                            Err(e) => EngineResult::EngineError(e),
                            Ok(st2) => EngineResult::Response(EngineResponse {
                                engine_move: uci_of(m),
                                game_after: g2,
                                status_info: if with_info { Some(info) } else { None },
                                observe_other_rand_used: if mv is Null { None } else { Some(s1) },
                                produce_rand_used: s2,
                                observe_mine_rand_used: s3,
                                engine_state: st2,
                            }),
                        },
                    },
                },
            }
        },
    }
}

/// Two exchanges on equal requests with equal seeds have equal outcomes,
/// bit for bit, whichever engine values run them: the outcome is a function
/// of the request and the seeds alone.
pub proof fn lemma_exchange_deterministic<E: Engine>(
    r1: EngineResult<E::State, E::StatusInfo, E::Error>,
    r2: EngineResult<E::State, E::StatusInfo, E::Error>,
    mv: UciMove,
    before: Chess,
    state: E::State,
    s1: u64,
    s2: u64,
    s3: u64,
    with_info: bool,
)
    requires
        r1 == exchange_spec::<E>(mv, before, state, s1, s2, s3, with_info),
        r2 == exchange_spec::<E>(mv, before, state, s1, s2, s3, with_info),
    ensures
        r1 == r2,
{
}

/// With the null move, nothing is observed before the proposal: the engine
/// proposes on `before` with the request's state, the first seed is never
/// handed to it, and a response reports no seed for observing the caller.
pub proof fn lemma_null_move<E: Engine>(
    before: Chess,
    state: E::State,
    s1: u64,
    s2: u64,
    s3: u64,
    with_info: bool,
)
    ensures
        exchange_spec::<E>(UciMove::Null, before, state, s1, s2, s3, with_info) == exchange_spec::<E>(
            UciMove::Null,
            before,
            state,
            0,
            s2,
            s3,
            with_info,
        ),
        E::proposal(s2, state, before) is Err ==> exchange_spec::<E>(
            UciMove::Null,
            before,
            state,
            s1,
            s2,
            s3,
            with_info,
        ) == EngineResult::<E::State, E::StatusInfo, E::Error>::EngineError(E::proposal(s2, state, before)->Err_0),
        exchange_spec::<E>(UciMove::Null, before, state, s1, s2, s3, with_info) matches EngineResult::Response(
            resp,
        ) ==> resp.observe_other_rand_used is None,
{
}

/// A move that the engine proposes and that is not legal where it was
/// proposed ends the exchange with `EngineSentIllegalMove`, carrying that
/// move's token, and no response.
pub proof fn lemma_illegal_reply<E: Engine>(
    mv: UciMove,
    before: Chess,
    state: E::State,
    s1: u64,
    s2: u64,
    s3: u64,
    with_info: bool,
    g1: Chess,
    st1: E::State,
    m: Move,
    info: E::StatusInfo,
)
    requires
        opponent_outcome(mv, before) matches Some((p, opp)) && p == g1 && match opp {
            None => st1 == state,
            Some(om) => E::observation(s1, state, om, g1) == Ok::<E::State, E::Error>(st1),
        },
        E::proposal(s2, st1, g1) == Ok::<(Move, E::StatusInfo), E::Error>((m, info)),
        play_of(g1, m) is None,
    ensures
        exchange_spec::<E>(mv, before, state, s1, s2, s3, with_info) == EngineResult::<
            E::State,
            E::StatusInfo,
            E::Error,
        >::RequestError(EngineRequestError::EngineSentIllegalMove { illegal_move: uci_of(m) }),
{
}

/// The move that `u` names in `pos`, with the position it leads to; nothing
/// where `u` is out of range, the null move, or not legal there.
fn apply_token(u: &UciMove, pos: &Chess) -> (r: Option<(Move, Chess)>)
    ensures
        r == (if u.wf() && !(u is Null) {
            match move_of(*u, *pos) {
                Some(m) => match play_of(*pos, m) {
                    Some(p) => Some((m, p)),
                    None => None,
                },
                None => None,
            }
        } else {
            None
        }),
        u.wf() && !(u is Null) ==> (move_of(*u, *pos) matches Some(m) ==> play_of(*pos, m) is Some),
{
    if !u.is_valid() || matches!(u, UciMove::Null) {
        return None;
    }
    match move_in_position(u, pos) {
        Some(m) => match play_move(pos, &m) {
            Some(p) => Some((m, p)),
            None => None,
        },
        None => None,
    }
}

/// Drives `engine` through one request with the seeds `s1`, `s2` and `s3`
/// (see [`exchange_spec`]).  An illegal caller's move is reported before any
/// engine call.
pub fn run_exchange<E: Engine>(
    engine: &mut E,
    request: EngineRequest<E::State>,
    s1: u64,
    s2: u64,
    s3: u64,
) -> (r: EngineResult<E::State, E::StatusInfo, E::Error>)
    ensures
        r == exchange_spec::<E>(
            request.opponent_move,
            request.game_before,
            request.engine_state,
            s1,
            s2,
            s3,
            request.with_status_info,
        ),
        r matches EngineResult::RequestError(EngineRequestError::PositionMoveMismatch) ==> *final(engine)
            == *old(engine),
        !(request.opponent_move is Null) ==> (r matches EngineResult::RequestError(
            EngineRequestError::PositionMoveMismatch,
        ) <==> !(request.opponent_move.wf() && move_of(request.opponent_move, request.game_before) is Some)),
{
    let EngineRequest { opponent_move, game_before, engine_state, with_status_info, .. } = request;
    let mut state = engine_state;

    // The caller's move, unless it is the null move.
    let applied = apply_token(&opponent_move, &game_before);
    let (game_after, user_move) = match opponent_step(&opponent_move, game_before, applied) {
        Ok(v) => v,
        Err(e) => return EngineResult::RequestError(e),
    };
    let observe_other_rand_used = match user_move {
        None => None,
        Some(m) => {
            if let Err(why) = engine.observe_move(s1, &mut state, &m, &game_after) {
                return EngineResult::EngineError(why);
            }
            Some(s1)
        },
    };

    // The engine's move.
    let (proposed_move, status_info) = if with_status_info {
        match engine.propose_move(s2, &state, &game_after) {
            Ok((m, info)) => (m, Some(info)),
            Err(why) => return EngineResult::EngineError(why),
        }
    } else {
        match engine.propose_move_without_info(s2, &state, &game_after) {
            Ok(m) => (m, None),
            Err(why) => return EngineResult::EngineError(why),
        }
    };
    let engine_move = move_uci(&proposed_move);

    // The engine observes its own move.
    let game_after_mine = match own_move_step(engine_move, play_move(&game_after, &proposed_move)) {
        Ok(p) => p,
        Err(e) => return EngineResult::RequestError(e),
    };
    if let Err(why) = engine.observe_move(s3, &mut state, &proposed_move, &game_after_mine) {
        return EngineResult::EngineError(why);
    }

    EngineResult::Response(EngineResponse {
        engine_move,
        game_after: game_after_mine,
        status_info,
        observe_other_rand_used,
        produce_rand_used: s2,
        observe_mine_rand_used: s3,
        engine_state: state,
    })
}

/// Drives `engine` through one request: each seed is the request's where
/// given and a random one otherwise, and the outcome is that of
/// [`exchange_spec`] with those seeds.
pub fn handle_move<E: Engine>(engine: &mut E, request: EngineRequest<E::State>) -> (r: EngineResult<
    E::State,
    E::StatusInfo,
    E::Error,
>)
    ensures
        exists|s1: u64, s2: u64, s3: u64|
            {
                &&& (request.observe_mine_rand matches Some(v) ==> s1 == v)
                &&& (request.produce_rand matches Some(v) ==> s2 == v)
                &&& (request.observe_your_rand matches Some(v) ==> s3 == v)
                &&& r == #[trigger] exchange_spec::<E>(
                    request.opponent_move,
                    request.game_before,
                    request.engine_state,
                    s1,
                    s2,
                    s3,
                    request.with_status_info,
                )
            },
        r matches EngineResult::RequestError(EngineRequestError::PositionMoveMismatch) ==> *final(engine)
            == *old(engine),
        !(request.opponent_move is Null) ==> (r matches EngineResult::RequestError(
            EngineRequestError::PositionMoveMismatch,
        ) <==> !(request.opponent_move.wf() && move_of(request.opponent_move, request.game_before) is Some)),
{
    let s1 = resolve_seed(request.observe_mine_rand);
    let s2 = resolve_seed(request.produce_rand);
    let s3 = resolve_seed(request.observe_your_rand);
    run_exchange(engine, request, s1, s2, s3)
}

} // verus!
