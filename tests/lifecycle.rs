use match_information::lifecycle::{self, PendingTransition};
use match_information::{
    Address, CollaboratorCall, Config, GameState, MatchError, MatchEvent, MatchInformationContract,
    MatchRecord,
};

fn addr(n: u8) -> Address {
    Address::new([n; 20])
}

const OWNER: u8 = 0xA1;
const OPERATOR: u8 = 0x0E;
const PLAYERS: u8 = 0x11;
const PREDICTION: u8 = 0x22;

/// An initialised registry with both collaborators and the operator set.
fn configured() -> MatchInformationContract {
    let mut k = MatchInformationContract::new();
    k.init(addr(OWNER)).unwrap();
    k.set_matchmaking_server_wallet_address(addr(OWNER), addr(OPERATOR)).unwrap();
    k.set_player_info_smart_contract_address(addr(OWNER), addr(PLAYERS)).unwrap();
    k.set_prediction_smart_contract_address(addr(OWNER), addr(PREDICTION)).unwrap();
    k
}

fn state_of(k: &MatchInformationContract, id: u64) -> GameState {
    k.get_match(id).unwrap().state
}

/// Stages and completes a step whose collaborator calls all succeed.
fn run(k: &mut MatchInformationContract, staged: Result<PendingTransition, MatchError>) -> Option<MatchEvent> {
    let t = staged.unwrap();
    k.complete(&t, true).unwrap()
}

#[test]
fn create_ids_are_consecutive_from_zero() {
    let mut k = configured();
    for i in 0..5u64 {
        let caller = addr(0x30 + i as u8);
        assert_eq!(
            k.create_match(caller),
            Ok(MatchEvent::Created { match_id: i, player1: caller })
        );
        assert_eq!(k.get_latest_match_id(), Ok(i + 1));
    }
}

#[test]
fn create_stores_a_finding_record() {
    let mut k = configured();
    k.create_match(addr(0xB)).unwrap();
    assert_eq!(
        k.get_match(0),
        Some(MatchRecord { player1: addr(0xB), player2: Address::zero(), state: GameState::Finding })
    );
    assert_eq!(k.get_match(1), None);
}

#[test]
fn join_unknown_match_is_not_found() {
    let mut k = configured();
    k.create_match(addr(0xB)).unwrap();
    assert_eq!(k.join_match(addr(0xC), 1), Err(MatchError::MatchNotFound));
    assert_eq!(k.join_match(addr(0xC), u64::MAX), Err(MatchError::MatchNotFound));
    assert_eq!(state_of(&k, 0), GameState::Finding);
}

#[test]
fn join_twice_is_an_invalid_transition() {
    let mut k = configured();
    k.create_match(addr(0xB)).unwrap();
    assert_eq!(k.join_match(addr(0xC), 0), Ok(MatchEvent::Joined { match_id: 0, player2: addr(0xC) }));
    assert_eq!(k.join_match(addr(0xD), 0), Err(MatchError::InvalidStateTransition));
    assert_eq!(k.get_match(0).unwrap().player2, addr(0xC));
}

#[test]
fn self_join_is_permitted() {
    let mut k = configured();
    k.create_match(addr(0xB)).unwrap();
    assert!(k.join_match(addr(0xB), 0).is_ok());
    assert_eq!(k.get_match(0).unwrap().player2, addr(0xB));
}

#[test]
fn states_only_move_forward() {
    let mut k = configured();
    let op = addr(OPERATOR);
    k.create_match(addr(0xB)).unwrap();
    let mut seen = vec![state_of(&k, 0).code()];
    k.join_match(addr(0xC), 0).unwrap();
    seen.push(state_of(&k, 0).code());
    assert_eq!(k.join_match(addr(0xC), 0), Err(MatchError::InvalidStateTransition));
    let staged = k.open_prediction_market(op, 0);
    run(&mut k, staged);
    seen.push(state_of(&k, 0).code());
    assert!(matches!(k.open_prediction_market(op, 0), Err(MatchError::InvalidStateTransition)));
    let staged = k.start_match(op, 0);
    run(&mut k, staged);
    seen.push(state_of(&k, 0).code());
    assert!(matches!(k.start_match(op, 0), Err(MatchError::InvalidStateTransition)));
    let staged = k.end_match(op, 0, 1);
    run(&mut k, staged);
    seen.push(state_of(&k, 0).code());
    assert!(matches!(k.end_match(op, 0, 1), Err(MatchError::InvalidStateTransition)));
    assert_eq!(seen, vec![0, 1, 2, 3, 4]);
    assert_eq!(state_of(&k, 0), GameState::Ended);
}

#[test]
fn only_owner_sets_addresses() {
    let mut k = configured();
    let before = k.config();
    let intruder = addr(0x99);
    assert_eq!(k.set_matchmaking_server_wallet_address(intruder, intruder), Err(MatchError::Unauthorized));
    assert_eq!(k.set_player_info_smart_contract_address(intruder, intruder), Err(MatchError::Unauthorized));
    assert_eq!(k.set_prediction_smart_contract_address(intruder, intruder), Err(MatchError::Unauthorized));
    assert_eq!(k.config(), before);
    assert_eq!(k.set_matchmaking_server_wallet_address(addr(OWNER), addr(0x55)), Ok(()));
    assert_eq!(k.get_matchmaking_server_wallet_address(), addr(0x55));
    assert_eq!(k.set_player_info_smart_contract_address(addr(OWNER), addr(0x56)), Ok(()));
    assert_eq!(k.get_player_info_smart_contract_address(), addr(0x56));
    assert_eq!(k.set_prediction_smart_contract_address(addr(OWNER), addr(0x57)), Ok(()));
    assert_eq!(k.get_prediction_smart_contract_address(), addr(0x57));
}

#[test]
fn only_operator_advances_matches() {
    let mut k = configured();
    let op = addr(OPERATOR);
    let other = addr(0xD);
    k.create_match(addr(0xB)).unwrap();
    k.join_match(addr(0xC), 0).unwrap();
    assert!(matches!(k.open_prediction_market(other, 0), Err(MatchError::Unauthorized)));
    assert_eq!(state_of(&k, 0), GameState::Matched);
    let staged = k.open_prediction_market(op, 0);
    run(&mut k, staged);
    assert!(matches!(k.start_match(other, 0), Err(MatchError::Unauthorized)));
    assert_eq!(state_of(&k, 0), GameState::ReadyForPrediction);
    let staged = k.start_match(op, 0);
    run(&mut k, staged);
    assert!(matches!(k.end_match(other, 0, 1), Err(MatchError::Unauthorized)));
    assert_eq!(state_of(&k, 0), GameState::Started);
    // the owner holds no operator rights either
    assert!(matches!(k.end_match(addr(OWNER), 0, 1), Err(MatchError::Unauthorized)));
    // and a caller without the role is refused even for a match that does not exist
    assert!(matches!(k.end_match(other, 7, 1), Err(MatchError::Unauthorized)));
}

#[test]
fn failed_downstream_call_rolls_back() {
    let mut k = configured();
    let op = addr(OPERATOR);
    k.create_match(addr(0xB)).unwrap();
    k.join_match(addr(0xC), 0).unwrap();

    let t = k.open_prediction_market(op, 0).unwrap();
    assert_eq!(k.complete(&t, false), Err(MatchError::DownstreamCallFailed));
    assert_eq!(state_of(&k, 0), GameState::Matched);
    let staged = k.open_prediction_market(op, 0);
    run(&mut k, staged);

    let t = k.start_match(op, 0).unwrap();
    assert_eq!(k.complete(&t, false), Err(MatchError::DownstreamCallFailed));
    assert_eq!(state_of(&k, 0), GameState::ReadyForPrediction);
    let staged = k.start_match(op, 0);
    run(&mut k, staged);

    let t = k.end_match(op, 0, 2).unwrap();
    assert_eq!(k.complete(&t, false), Err(MatchError::DownstreamCallFailed));
    assert_eq!(state_of(&k, 0), GameState::Started);
}

#[test]
fn scenario_create_join_open_market() {
    let (a, b, c, d) = (addr(0xA), addr(0xB), addr(0xC), addr(0xD));
    let op = addr(OPERATOR);
    let mut k = MatchInformationContract::new();
    assert_eq!(k.init(a), Ok(()));
    k.set_matchmaking_server_wallet_address(a, op).unwrap();
    assert_eq!(k.create_match(b), Ok(MatchEvent::Created { match_id: 0, player1: b }));
    assert_eq!(k.join_match(c, 0), Ok(MatchEvent::Joined { match_id: 0, player2: c }));
    assert_eq!(state_of(&k, 0), GameState::Matched);
    assert!(matches!(k.open_prediction_market(d, 0), Err(MatchError::Unauthorized)));
    assert_eq!(state_of(&k, 0), GameState::Matched);
    let t = k.open_prediction_market(op, 0).unwrap();
    assert_eq!(k.complete(&t, true), Ok(None));
    assert_eq!(state_of(&k, 0), GameState::ReadyForPrediction);
}

#[test]
fn scenario_end_names_player1() {
    let (b, c) = (addr(0xB), addr(0xC));
    let op = addr(OPERATOR);
    let mut k = configured();
    k.create_match(b).unwrap();
    k.join_match(c, 0).unwrap();
    let staged = k.open_prediction_market(op, 0);
    run(&mut k, staged);
    let staged = k.start_match(op, 0);
    run(&mut k, staged);
    let t = k.end_match(op, 0, 1).unwrap();
    assert_eq!(
        t.calls(),
        &vec![
            CollaboratorCall::AddMatchResults { registry: addr(PLAYERS), winner: b, loser: c },
            CollaboratorCall::SubmitMatchResults { registry: addr(PREDICTION), match_id: 0, winner: 1 },
        ]
    );
    assert_eq!(k.complete(&t, true), Ok(Some(MatchEvent::Ended { match_id: 0, winner: b })));
    assert_eq!(state_of(&k, 0), GameState::Ended);
}

#[test]
fn end_with_other_discriminant_names_player2() {
    let (b, c) = (addr(0xB), addr(0xC));
    let op = addr(OPERATOR);
    let mut k = configured();
    k.create_match(b).unwrap();
    k.join_match(c, 0).unwrap();
    for winner in [0u64, 2, u64::MAX] {
        let t = k.end_match(op, 0, winner).unwrap();
        assert_eq!(
            t.calls(),
            &vec![
                CollaboratorCall::AddMatchResults { registry: addr(PLAYERS), winner: c, loser: b },
                CollaboratorCall::SubmitMatchResults { registry: addr(PREDICTION), match_id: 0, winner },
            ]
        );
        assert_eq!(t.event(), Some(MatchEvent::Ended { match_id: 0, winner: c }));
    }
    // ending straight from Matched is allowed
    let staged = k.end_match(op, 0, 2);
    run(&mut k, staged);
    assert_eq!(state_of(&k, 0), GameState::Ended);
}

#[test]
fn end_needs_both_players() {
    let op = addr(OPERATOR);
    let mut k = configured();
    k.create_match(addr(0xB)).unwrap();
    assert!(matches!(k.end_match(op, 0, 1), Err(MatchError::InvalidStateTransition)));
    assert!(matches!(k.end_match(op, 3, 1), Err(MatchError::MatchNotFound)));
}

#[test]
fn staged_calls_and_events() {
    let (b, c) = (addr(0xB), addr(0xC));
    let op = addr(OPERATOR);
    let mut k = configured();
    k.create_match(b).unwrap();
    k.join_match(c, 0).unwrap();
    let t = k.open_prediction_market(op, 0).unwrap();
    assert_eq!(t.match_id(), 0);
    assert_eq!(t.source(), GameState::Matched);
    assert_eq!(t.target(), GameState::ReadyForPrediction);
    assert_eq!(t.calls(), &vec![CollaboratorCall::CreatePredictionPool { registry: addr(PREDICTION), match_id: 0 }]);
    assert_eq!(t.event(), None);
    k.complete(&t, true).unwrap();
    let t = k.start_match(op, 0).unwrap();
    assert_eq!(t.calls(), &vec![CollaboratorCall::StopAllowPrediction { registry: addr(PREDICTION), match_id: 0 }]);
    assert_eq!(k.complete(&t, true), Ok(Some(MatchEvent::Started { match_id: 0, player1: b, player2: c })));
}

#[test]
fn stale_transition_is_refused() {
    let op = addr(OPERATOR);
    let mut k = configured();
    k.create_match(addr(0xB)).unwrap();
    k.join_match(addr(0xC), 0).unwrap();
    let t = k.open_prediction_market(op, 0).unwrap();
    assert_eq!(k.complete(&t, true), Ok(None));
    assert_eq!(k.complete(&t, true), Err(MatchError::InvalidStateTransition));
    assert_eq!(state_of(&k, 0), GameState::ReadyForPrediction);
}

#[test]
fn nothing_works_before_init() {
    let mut k = MatchInformationContract::new();
    let x = addr(0x7);
    assert_eq!(k.get_latest_match_id(), Err(MatchError::NotInitialized));
    assert_eq!(k.create_match(x), Err(MatchError::NotInitialized));
    assert_eq!(k.join_match(x, 0), Err(MatchError::NotInitialized));
    assert!(matches!(k.open_prediction_market(x, 0), Err(MatchError::NotInitialized)));
    assert!(matches!(k.start_match(x, 0), Err(MatchError::NotInitialized)));
    assert!(matches!(k.end_match(x, 0, 1), Err(MatchError::NotInitialized)));
    assert_eq!(k.set_matchmaking_server_wallet_address(x, x), Err(MatchError::NotInitialized));
    assert_eq!(k.set_player_info_smart_contract_address(x, x), Err(MatchError::NotInitialized));
    assert_eq!(k.set_prediction_smart_contract_address(x, x), Err(MatchError::NotInitialized));
    assert_eq!(k.get_matchmaking_server_wallet_address(), Address::zero());
}

#[test]
fn init_only_once() {
    let mut k = MatchInformationContract::new();
    assert_eq!(k.init(addr(1)), Ok(()));
    assert_eq!(k.get_latest_match_id(), Ok(0));
    assert_eq!(k.init(addr(2)), Err(MatchError::AlreadyInitialized));
    assert_eq!(k.config().owner, addr(1));
    assert!(k.config().initialized);
}

#[test]
fn game_state_codes_round_trip() {
    let all = [
        GameState::Finding,
        GameState::Matched,
        GameState::ReadyForPrediction,
        GameState::Started,
        GameState::Ended,
    ];
    for (i, s) in all.iter().enumerate() {
        assert_eq!(s.code(), i as u8);
        assert_eq!(GameState::from_code(i as u8), Some(*s));
    }
    assert_eq!(GameState::from_code(5), None);
}

#[test]
fn addresses_compare_by_bytes() {
    let mut bytes = [0u8; 20];
    assert_eq!(Address::new(bytes), Address::zero());
    bytes[19] = 1;
    assert_ne!(Address::new(bytes), Address::zero());
}

#[test]
fn rules_work_on_a_single_record() {
    let mut cfg = Config::new();
    assert_eq!(lifecycle::create(&cfg, addr(0xB), 9).unwrap_err(), MatchError::NotInitialized);
    cfg.init(addr(OWNER)).unwrap();
    cfg.set_matchmaking_server_wallet_address(addr(OWNER), addr(OPERATOR)).unwrap();
    let (rec, ev) = lifecycle::create(&cfg, addr(0xB), 9).unwrap();
    assert_eq!(ev, MatchEvent::Created { match_id: 9, player1: addr(0xB) });
    assert_eq!(lifecycle::join(&cfg, addr(0xC), 9, None), Err(MatchError::MatchNotFound));
    let (joined, ev) = lifecycle::join(&cfg, addr(0xC), 9, Some(rec)).unwrap();
    assert_eq!(ev, MatchEvent::Joined { match_id: 9, player2: addr(0xC) });
    assert_eq!(joined.state, GameState::Matched);
    assert!(matches!(lifecycle::open_market(&cfg, addr(OPERATOR), 9, None), Err(MatchError::MatchNotFound)));
    assert!(matches!(lifecycle::start(&cfg, addr(OPERATOR), 9, Some(joined)), Err(MatchError::InvalidStateTransition)));
    let t = lifecycle::open_market(&cfg, addr(OPERATOR), 9, Some(joined)).unwrap();
    assert_eq!(t.target(), GameState::ReadyForPrediction);
}
