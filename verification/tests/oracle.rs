use renaissance::oracle::{FootballOracleContract, MatchResult, OracleError};
use renaissance::platform::PlatformError;
use soroban_sdk::{Env, Vec as HostVec};

const ORACLE_CONTRACT: u64 = 1;
const ADMIN: u64 = 10;
const A: u64 = 20;
const B: u64 = 21;

fn oracles(env: &Env, ids: &[u64]) -> HostVec<u64> {
    let mut v = HostVec::new(env);
    for id in ids {
        v.push_back(*id);
    }
    v
}

fn setup() -> (Env, FootballOracleContract) {
    let env = Env::default();
    let mut c = FootballOracleContract::new(env.clone(), ORACLE_CONTRACT);
    c.initialize(ADMIN, oracles(&env, &[A, B])).unwrap();
    (env, c)
}

#[test]
fn oracle_initialize_needs_two_oracles() {
    let env = Env::default();
    let mut c = FootballOracleContract::new(env.clone(), ORACLE_CONTRACT);
    assert_eq!(c.initialize(ADMIN, oracles(&env, &[A])), Err(PlatformError::InternalError));
    c.initialize(ADMIN, oracles(&env, &[A, B])).unwrap();
    assert_eq!(c.initialize(ADMIN, oracles(&env, &[A, B])), Err(PlatformError::InternalError));
}

#[test]
fn oracle_get_oracles_and_add_oracle() {
    let env = Env::default();
    let fresh = FootballOracleContract::new(env.clone(), ORACLE_CONTRACT);
    assert_eq!(fresh.get_oracles().len(), 0);

    let (_env, mut c) = setup();
    assert_eq!(c.get_oracles().len(), 2);
    c.add_oracle(30).unwrap();
    c.add_oracle(30).unwrap();
    let list = c.get_oracles();
    assert_eq!(list.len(), 3);
    assert_eq!(list.get(2), Some(30));
}

#[test]
fn oracle_add_oracle_needs_admin() {
    let env = Env::default();
    let mut c = FootballOracleContract::new(env, ORACLE_CONTRACT);
    assert_eq!(c.add_oracle(30), Err(PlatformError::Unauthorized));
}

#[test]
fn oracle_submit_then_confirm_finalizes() {
    let (_env, mut c) = setup();
    c.submit_result(A, 5, 2, 1, 100, 200, 300).unwrap();
    assert!(!c.is_finalized(5));
    assert_eq!(c.get_result(5), Err(OracleError::ResultNotFound));
    assert_eq!(c.confirm_result(A, 5), Err(OracleError::CannotConfirmOwnSubmission));
    c.confirm_result(B, 5).unwrap();
    assert!(c.is_finalized(5));
    assert_eq!(
        c.get_result(5),
        Ok(MatchResult { match_id: 5, home_score: 2, away_score: 1, started_at: 100, finished_at: 200, finalized: true })
    );
    let topics: std::vec::Vec<&str> = c.events.iter().map(|e| e.topic()).collect();
    assert_eq!(topics, vec!["ResultSubmitted", "ResultConfirmed", "ResultFinalized"]);
    assert_eq!(c.submit_result(A, 5, 0, 0, 100, 200, 300), Err(OracleError::MatchAlreadyFinalized));
    assert_eq!(c.confirm_result(B, 5), Err(OracleError::MatchAlreadyFinalized));
}

#[test]
fn oracle_submit_rejections() {
    let (_env, mut c) = setup();
    assert_eq!(c.submit_result(99, 5, 1, 1, 100, 200, 300), Err(OracleError::OracleUnauthorized));
    assert_eq!(c.submit_result(A, 5, 1, 1, 200, 200, 300), Err(OracleError::InvalidMatchWindow));
    assert_eq!(c.submit_result(A, 5, 1, 1, 100, 400, 300), Err(OracleError::InvalidMatchWindow));
    c.submit_result(A, 5, 1, 1, 100, 200, 300).unwrap();
    assert_eq!(c.submit_result(B, 5, 1, 1, 100, 200, 300), Err(OracleError::ResultAlreadyExists));
    c.paused = true;
    assert_eq!(c.submit_result(A, 6, 1, 1, 100, 200, 300), Err(OracleError::OracleUnauthorized));
}

#[test]
fn oracle_authorizes_the_caller() {
    let (_env, mut c) = setup();
    let outsider: u64 = 40;
    assert_eq!(c.submit_result(outsider, 5, 1, 1, 100, 200, 300), Err(OracleError::OracleUnauthorized));
    c.submit_result(A, 5, 1, 1, 100, 200, 300).unwrap();
    assert_eq!(c.confirm_result(outsider, 5), Err(OracleError::OracleUnauthorized));
    c.confirm_result(B, 5).unwrap();
    assert!(c.is_finalized(5));
    assert_eq!(c.confirm_result(A, 5), Err(OracleError::MatchAlreadyFinalized));
    assert_eq!(c.submit_result(B, 5, 1, 1, 100, 200, 300), Err(OracleError::MatchAlreadyFinalized));
}

#[test]
fn oracle_confirm_rejections() {
    let (_env, mut c) = setup();
    assert_eq!(c.confirm_result(B, 5), Err(OracleError::ResultNotFound));
    c.submit_result(A, 5, 1, 1, 100, 200, 300).unwrap();
    assert_eq!(c.confirm_result_with_room(B, 5), Some(Ok(())));
    assert_eq!(c.confirm_result_with_room(B, 6), Some(Err(OracleError::ResultNotFound)));
}

#[test]
fn oracle_error_codes() {
    assert_eq!(OracleError::OracleUnauthorized.code(), 100);
    assert_eq!(OracleError::ResultAlreadyExists.code(), 101);
    assert_eq!(OracleError::InvalidMatchWindow.code(), 102);
    assert_eq!(OracleError::ResultNotFound.code(), 103);
    assert_eq!(OracleError::CannotConfirmOwnSubmission.code(), 104);
    assert_eq!(OracleError::AlreadyConfirmed.code(), 105);
    assert_eq!(OracleError::MatchAlreadyFinalized.code(), 106);
    assert_eq!(OracleError::InsufficientConfirmations.code(), 107);
}

#[test]
fn oracle_list_room() {
    let (_env, c) = setup();
    assert!(c.oracle_list_has_room());
}
