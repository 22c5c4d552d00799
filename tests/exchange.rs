use chess_engine_protocol::chess_serde::{decode_position, encode_position, UciMove};
use chess_engine_protocol::engine::Engine;
use chess_engine_protocol::exchange::{handle_move, opponent_step, own_move_step, resolve_seed, run_exchange};
use chess_engine_protocol::server_types::{
    EngineInfo, EngineRequest, EngineRequestError, EngineResponse, EngineResult,
};
use shakmaty::{Chess, Move, Role, Square};

const AFTER_E4_FEN: &str = "rnbqkbnr/pppppppp/8/8/4P3/8/PPPP1PPP/RNBQKBNR b KQkq - 0 1";

fn pawn_move(from: Square, to: Square) -> Move {
    Move::Normal { role: Role::Pawn, from, capture: None, to, promotion: None }
}

/// Plays a fixed move, records every call, and keeps the seeds it saw in its state.
struct Scripted {
    reply: Move,
    calls: Vec<String>,
    fail_propose: bool,
}

impl Scripted {
    fn new(reply: Move) -> Scripted {
        Scripted { reply, calls: Vec::new(), fail_propose: false }
    }
}

impl Engine for Scripted {
    type State = Vec<u64>;
    type StatusInfo = String;
    type Error = String;

    fn get_info() -> EngineInfo<Vec<u64>> {
        EngineInfo { id: "scripted".to_string(), description: "plays one move".to_string(), initial_state: Vec::new() }
    }

    fn propose_move(&mut self, rand: u64, state: &Vec<u64>, _: &Chess) -> Result<(Move, String), String> {
        self.calls.push(format!("propose {rand}"));
        if self.fail_propose {
            return Err("no move".to_string());
        }
        Ok((self.reply.clone(), format!("seen {}", state.len())))
    }

    fn observe_move(&mut self, rand: u64, state: &mut Vec<u64>, _: &Move, _: &Chess) -> Result<(), String> {
        self.calls.push(format!("observe {rand}"));
        state.push(rand);
        Ok(())
    }
}

fn request(opponent_move: UciMove, game_before: Chess) -> EngineRequest<Vec<u64>> {
    EngineRequest {
        opponent_move,
        game_before,
        engine_state: Vec::new(),
        observe_mine_rand: Some(1),
        produce_rand: Some(2),
        observe_your_rand: Some(3),
        with_status_info: false,
    }
}

fn response(r: EngineResult<Vec<u64>, String, String>) -> EngineResponse<Vec<u64>, String> {
    match r {
        EngineResult::Response(resp) => resp,
        _ => panic!("expected a response"),
    }
}

#[test]
fn engine_opens_with_e4() {
    let mut engine = Scripted::new(pawn_move(Square::E2, Square::E4));
    let resp = response(handle_move(&mut engine, request(UciMove::Null, Chess::default())));
    assert_eq!(resp.engine_move, UciMove::Normal { from: 12, to: 28, promotion: None });
    assert_eq!(chess_engine_protocol::chess_serde::encode_move(&resp.engine_move), "e2e4");
    assert_eq!(encode_position(&resp.game_after), AFTER_E4_FEN);
}

#[test]
fn null_move_skips_observing_the_opponent() {
    let mut engine = Scripted::new(pawn_move(Square::E2, Square::E4));
    let resp = response(handle_move(&mut engine, request(UciMove::Null, Chess::default())));
    assert_eq!(resp.observe_other_rand_used, None);
    assert_eq!(engine.calls, vec!["propose 2".to_string(), "observe 3".to_string()]);
    assert_eq!(resp.engine_state, vec![3]);
}

#[test]
fn opponent_move_is_observed_first() {
    let mut engine = Scripted::new(pawn_move(Square::E7, Square::E5));
    let e2e4 = UciMove::Normal { from: 12, to: 28, promotion: None };
    let resp = response(handle_move(&mut engine, request(e2e4, Chess::default())));
    assert_eq!(resp.observe_other_rand_used, Some(1));
    assert_eq!(resp.produce_rand_used, 2);
    assert_eq!(resp.observe_mine_rand_used, 3);
    assert_eq!(engine.calls, vec!["observe 1".to_string(), "propose 2".to_string(), "observe 3".to_string()]);
    assert_eq!(resp.engine_state, vec![1, 3]);
    assert_eq!(
        encode_position(&resp.game_after),
        "rnbqkbnr/pppp1ppp/8/4p3/4P3/8/PPPP1PPP/RNBQKBNR w KQkq - 0 2"
    );
}

#[test]
fn illegal_opponent_move_calls_no_engine_operation() {
    let mut engine = Scripted::new(pawn_move(Square::E2, Square::E4));
    let e2e5 = UciMove::Normal { from: 12, to: 36, promotion: None };
    let r = handle_move(&mut engine, request(e2e5, Chess::default()));
    assert!(matches!(r, EngineResult::RequestError(EngineRequestError::PositionMoveMismatch)));
    assert_eq!(r.status_code(), 400);
    assert!(engine.calls.is_empty());
}

#[test]
fn illegal_engine_reply_is_reported_with_the_move() {
    let mut engine = Scripted::new(pawn_move(Square::E2, Square::E5));
    let r = handle_move(&mut engine, request(UciMove::Null, Chess::default()));
    match r {
        EngineResult::RequestError(EngineRequestError::EngineSentIllegalMove { illegal_move }) => {
            assert_eq!(illegal_move, UciMove::Normal { from: 12, to: 36, promotion: None });
        }
        _ => panic!("expected an illegal engine move"),
    }
    assert_eq!(engine.calls, vec!["propose 2".to_string()]);
}

#[test]
fn engine_failure_is_passed_on() {
    let mut engine = Scripted::new(pawn_move(Square::E2, Square::E4));
    engine.fail_propose = true;
    let r = handle_move(&mut engine, request(UciMove::Null, Chess::default()));
    assert_eq!(r.status_code(), 500);
    assert!(matches!(r, EngineResult::EngineError(ref e) if e == "no move"));
}

#[test]
fn status_info_only_when_asked() {
    let mut engine = Scripted::new(pawn_move(Square::E2, Square::E4));
    let mut req = request(UciMove::Null, Chess::default());
    req.with_status_info = true;
    let r = handle_move(&mut engine, req);
    assert_eq!(r.status_code(), 200);
    assert_eq!(response(r).status_info, Some("seen 0".to_string()));
    let resp = response(handle_move(&mut engine, request(UciMove::Null, Chess::default())));
    assert_eq!(resp.status_info, None);
}

#[test]
fn identical_requests_give_identical_responses() {
    let fen = "rnbqkbnr/pppppppp/8/8/4P3/8/PPPP1PPP/RNBQKBNR b KQkq - 0 1";
    let e7e5 = UciMove::Normal { from: 52, to: 36, promotion: None };
    let run = || {
        let mut engine = Scripted::new(pawn_move(Square::G2, Square::G3));
        let mut req = request(e7e5, decode_position(fen).unwrap());
        req.engine_state = vec![9];
        response(handle_move(&mut engine, req))
    };
    let (a, b) = (run(), run());
    assert_eq!(a.engine_move, b.engine_move);
    assert_eq!(encode_position(&a.game_after), encode_position(&b.game_after));
    assert_eq!(a.engine_state, b.engine_state);
    assert_eq!(a.status_info, b.status_info);
    assert_eq!(
        (a.observe_other_rand_used, a.produce_rand_used, a.observe_mine_rand_used),
        (b.observe_other_rand_used, b.produce_rand_used, b.observe_mine_rand_used)
    );
}

#[test]
fn given_seeds_are_used_and_missing_ones_drawn() {
    assert_eq!(resolve_seed(Some(42)), 42);
    let mut engine = Scripted::new(pawn_move(Square::E2, Square::E4));
    let mut req = request(UciMove::Null, Chess::default());
    req.produce_rand = None;
    req.observe_your_rand = None;
    let resp = response(handle_move(&mut engine, req));
    assert_eq!(engine.calls[0], format!("propose {}", resp.produce_rand_used));
    assert_eq!(engine.calls[1], format!("observe {}", resp.observe_mine_rand_used));
}

#[test]
fn engine_info_carries_the_initial_state() {
    let info = Scripted::get_info();
    assert_eq!(info.id, "scripted");
    assert!(info.initial_state.is_empty());
}

#[test]
fn out_of_range_opponent_move_is_a_mismatch() {
    let mut engine = Scripted::new(pawn_move(Square::E2, Square::E4));
    let bad = UciMove::Normal { from: 64, to: 28, promotion: None };
    let r = handle_move(&mut engine, request(bad, Chess::default()));
    assert!(matches!(r, EngineResult::RequestError(EngineRequestError::PositionMoveMismatch)));
    assert!(engine.calls.is_empty());
}

#[test]
fn status_codes_follow_the_error_family() {
    let ok: EngineResult<u8, u8, u8> = EngineResult::EngineError(0);
    assert_eq!(ok.status_code(), 500);
    let bad: EngineResult<u8, u8, u8> = EngineResult::RequestError(EngineRequestError::PositionMoveMismatch);
    assert_eq!(bad.status_code(), 400);
}

#[test]
fn opponent_step_decides_by_what_decoding_gave() {
    let start = Chess::default();
    let after = decode_position(AFTER_E4_FEN).unwrap();
    let e2e4 = UciMove::Normal { from: 12, to: 28, promotion: None };
    let m = pawn_move(Square::E2, Square::E4);

    let (p, seen) = opponent_step(&UciMove::Null, start.clone(), None).unwrap();
    assert_eq!(encode_position(&p), encode_position(&start));
    assert!(seen.is_none());

    let (p, seen) = opponent_step(&e2e4, start.clone(), Some((m.clone(), after))).unwrap();
    assert_eq!(encode_position(&p), AFTER_E4_FEN);
    assert_eq!(seen, Some(m));

    assert!(matches!(opponent_step(&e2e4, start, None), Err(EngineRequestError::PositionMoveMismatch)));
}

#[test]
fn own_move_step_reports_an_illegal_move() {
    let e2e5 = UciMove::Normal { from: 12, to: 36, promotion: None };
    assert_eq!(
        own_move_step(e2e5, None).err(),
        Some(EngineRequestError::EngineSentIllegalMove { illegal_move: e2e5 })
    );
    let after = decode_position(AFTER_E4_FEN).unwrap();
    let p = own_move_step(e2e5, Some(after)).unwrap();
    assert_eq!(encode_position(&p), AFTER_E4_FEN);
}

#[test]
fn run_exchange_hands_the_given_seeds_to_the_engine() {
    let mut engine = Scripted::new(pawn_move(Square::E7, Square::E5));
    let mut req = request(UciMove::Normal { from: 12, to: 28, promotion: None }, Chess::default());
    req.observe_mine_rand = None;
    req.produce_rand = None;
    req.observe_your_rand = None;
    let resp = response(run_exchange(&mut engine, req, 7, 8, 9));
    assert_eq!(engine.calls, vec!["observe 7".to_string(), "propose 8".to_string(), "observe 9".to_string()]);
    assert_eq!((resp.observe_other_rand_used, resp.produce_rand_used, resp.observe_mine_rand_used), (Some(7), 8, 9));
}
