use lightningchess::challenge::{parse_to_lichess_challenge, Challenge, ChallengeStatus, User};
use lightningchess::errors::CoreError;
use lightningchess::ledger::{Ledger, NewTransaction, TransactionType, TxState};
use lightningchess::settlement::{commit_accept, create_challenge, prepare_accept};

fn user(name: &str, token: &str) -> User {
    User { username: name.to_string(), access_token: token.to_string() }
}

/// Funds an account the way a paid invoice would: a settled entry plus the
/// matching credit, keeping the ledger balanced.
fn fund(ledger: &mut Ledger, name: &str, amount: i64) {
    ledger.record_transaction(NewTransaction {
        username: name.to_string(),
        ttype: TransactionType::Invoice,
        detail: "funding".to_string(),
        amount,
        state: TxState::Settled,
        payment_addr: None,
        payment_request: None,
        payment_hash: None,
    });
    ledger.credit(&name.to_string(), amount);
}

fn waiting_challenge(stake: i64, time_limit: i32, opponent_time_limit: i32) -> Challenge {
    Challenge {
        id: 7,
        username: "user1".to_string(),
        time_limit: Some(time_limit),
        opponent_time_limit: Some(opponent_time_limit),
        increment: Some(0),
        color: Some("white".to_string()),
        sats: Some(stake),
        opp_username: "user2".to_string(),
        status: Some(ChallengeStatus::WaitingForAcceptance),
        lichess_challenge_id: None,
        created_on: None,
        expire_after: Some(1800),
        challenger_token: Some("challenger-token".to_string()),
    }
}

#[test]
fn accept_equal_limits_settles_stake() {
    let mut ledger = Ledger::new();
    fund(&mut ledger, "user2", 500);
    let mut challenge = waiting_challenge(100, 300, 300);
    let opponent = user("user2", "opponent-token");

    let plan = prepare_accept(&ledger, &Some(challenge.clone()), &opponent).unwrap();
    assert_eq!(plan.stake, 100);
    assert_eq!(plan.challenger_username, "user1");
    assert_eq!(plan.create_token, "opponent-token");
    assert_eq!(plan.accept_token, "challenger-token");
    assert!(plan.add_time.is_none());

    let txs_before = ledger.transactions.len();
    let row =
        commit_accept(&mut ledger, &mut challenge, &opponent, Some("lich42".to_string())).unwrap();

    assert_eq!(ledger.get_balance(&"user2".to_string()), 400);
    assert_eq!(ledger.transactions.len(), txs_before + 1);
    assert_eq!(row.username, "user2");
    assert_eq!(row.ttype, TransactionType::AcceptChallenge);
    assert_eq!(row.amount, -100);
    assert_eq!(row.state, TxState::Settled);
    assert_eq!(row.detail, "challenge vs user1");
    assert_eq!(challenge.status, Some(ChallengeStatus::Accepted));
    assert_eq!(challenge.lichess_challenge_id, Some("lich42".to_string()));
}

#[test]
fn accept_insufficient_funds_changes_nothing() {
    let mut ledger = Ledger::new();
    fund(&mut ledger, "user2", 50);
    let mut challenge = waiting_challenge(100, 300, 300);
    let opponent = user("user2", "opponent-token");

    let prepared = prepare_accept(&ledger, &Some(challenge.clone()), &opponent);
    assert_eq!(prepared.unwrap_err(), CoreError::InsufficientFunds);

    let txs_before = ledger.transactions.len();
    let committed =
        commit_accept(&mut ledger, &mut challenge, &opponent, Some("lich42".to_string()));
    assert_eq!(committed.unwrap_err(), CoreError::InsufficientFunds);

    assert_eq!(ledger.get_balance(&"user2".to_string()), 50);
    assert_eq!(ledger.transactions.len(), txs_before);
    assert_eq!(challenge.status, Some(ChallengeStatus::WaitingForAcceptance));
}

#[test]
fn accept_unequal_limits_plans_one_clock_adjustment() {
    let mut ledger = Ledger::new();
    fund(&mut ledger, "user2", 500);
    let mut challenge = waiting_challenge(100, 300, 180);
    let opponent = user("user2", "opponent-token");

    let plan = prepare_accept(&ledger, &Some(challenge.clone()), &opponent).unwrap();
    assert_eq!(plan.body.clock.limit, 180);
    let add_time = plan.add_time.expect("limits differ, one adjustment is due");
    assert_eq!(add_time.seconds, 120);
    // The side with the larger configured limit gets the extra seconds; its
    // token here is the accepting user's.
    assert_eq!(add_time.token, "opponent-token");

    let res = commit_accept(&mut ledger, &mut challenge, &opponent, Some("lich7".to_string()));
    assert!(res.is_ok());
    assert_eq!(ledger.get_balance(&"user2".to_string()), 400);
}

#[test]
fn accept_smaller_own_limit_uses_challenger_token() {
    let ledger = {
        let mut l = Ledger::new();
        fund(&mut l, "user2", 500);
        l
    };
    let challenge = waiting_challenge(100, 180, 300);
    let opponent = user("user2", "opponent-token");

    let plan = prepare_accept(&ledger, &Some(challenge), &opponent).unwrap();
    assert_eq!(plan.body.clock.limit, 180);
    let add_time = plan.add_time.expect("limits differ, one adjustment is due");
    assert_eq!(add_time.seconds, 120);
    assert_eq!(add_time.token, "challenger-token");
}

#[test]
fn accept_twice_is_a_state_conflict() {
    let mut ledger = Ledger::new();
    fund(&mut ledger, "user2", 500);
    let mut challenge = waiting_challenge(100, 300, 300);
    let opponent = user("user2", "opponent-token");

    commit_accept(&mut ledger, &mut challenge, &opponent, Some("lich42".to_string())).unwrap();
    assert_eq!(ledger.get_balance(&"user2".to_string()), 400);
    let txs_after_first = ledger.transactions.len();

    let second =
        commit_accept(&mut ledger, &mut challenge, &opponent, Some("lich43".to_string()));
    assert_eq!(second.unwrap_err(), CoreError::StateConflict);
    assert_eq!(ledger.get_balance(&"user2".to_string()), 400);
    assert_eq!(ledger.transactions.len(), txs_after_first);
    assert_eq!(challenge.lichess_challenge_id, Some("lich42".to_string()));
}

#[test]
fn accept_by_wrong_caller_is_forbidden() {
    let mut ledger = Ledger::new();
    fund(&mut ledger, "user3", 500);
    let mut challenge = waiting_challenge(100, 300, 300);
    let intruder = user("user3", "intruder-token");

    let prepared = prepare_accept(&ledger, &Some(challenge.clone()), &intruder);
    assert_eq!(prepared.unwrap_err(), CoreError::Forbidden);
    let committed =
        commit_accept(&mut ledger, &mut challenge, &intruder, Some("lich42".to_string()));
    assert_eq!(committed.unwrap_err(), CoreError::Forbidden);
    assert_eq!(ledger.get_balance(&"user3".to_string()), 500);
}

#[test]
fn accept_missing_challenge_is_not_found() {
    let ledger = Ledger::new();
    let opponent = user("user2", "opponent-token");
    let prepared = prepare_accept(&ledger, &None, &opponent);
    assert_eq!(prepared.unwrap_err(), CoreError::NotFound);
}

#[test]
fn accept_external_failure_leaves_ledger_untouched() {
    let mut ledger = Ledger::new();
    fund(&mut ledger, "user2", 500);
    let mut challenge = waiting_challenge(100, 300, 300);
    let opponent = user("user2", "opponent-token");

    let txs_before = ledger.transactions.len();
    let committed = commit_accept(&mut ledger, &mut challenge, &opponent, None);
    assert_eq!(committed.unwrap_err(), CoreError::ExternalService);
    assert_eq!(ledger.get_balance(&"user2".to_string()), 500);
    assert_eq!(ledger.transactions.len(), txs_before);
    assert_eq!(challenge.status, Some(ChallengeStatus::WaitingForAcceptance));
    assert_eq!(challenge.lichess_challenge_id, None);
}

#[test]
fn lichess_body_inverts_white_to_black() {
    let challenge = waiting_challenge(100, 300, 300);
    let body = parse_to_lichess_challenge(&challenge);
    assert!(body.rated);
    assert_eq!(body.clock.limit, 300);
    assert_eq!(body.clock.increment, 0);
    assert_eq!(body.color, "black");
    assert_eq!(body.variant, "standard");
    assert_eq!(body.rules, "noClaimWin");
}

#[test]
fn lichess_body_inverts_black_to_white() {
    let base = waiting_challenge(100, 300, 180);
    let challenge = Challenge { color: Some("black".to_string()), ..base };
    let body = parse_to_lichess_challenge(&challenge);
    assert_eq!(body.color, "white");
    assert_eq!(body.clock.limit, 180);
}

#[test]
fn lichess_body_without_preference_has_empty_color() {
    let base = waiting_challenge(100, 300, 300);
    let challenge = Challenge { color: None, ..base };
    let body = parse_to_lichess_challenge(&challenge);
    assert_eq!(body.color, "");
}

#[test]
fn create_challenge_lays_out_waiting_record() {
    let mut ledger = Ledger::new();
    fund(&mut ledger, "user1", 1000);
    let challenger = user("user1", "challenger-token");
    let req = Challenge { status: None, challenger_token: None, ..waiting_challenge(100, 300, 300) };

    let created = create_challenge(&ledger, &challenger, &req).unwrap();
    assert_eq!(created.username, "user1");
    assert_eq!(created.opp_username, "user2");
    assert_eq!(created.status, Some(ChallengeStatus::WaitingForAcceptance));
    assert_eq!(created.expire_after, Some(1800));
    assert_eq!(created.challenger_token, Some("challenger-token".to_string()));
    assert_eq!(created.lichess_challenge_id, None);
    // Creation only sanity-checks the challenger's funds; nothing is reserved.
    assert_eq!(ledger.get_balance(&"user1".to_string()), 1000);
}

#[test]
fn create_challenge_rejects_invalid_proposal() {
    let mut ledger = Ledger::new();
    fund(&mut ledger, "user1", 1000);
    let challenger = user("user1", "challenger-token");
    let req = Challenge { sats: Some(99), ..waiting_challenge(100, 300, 300) };
    let created = create_challenge(&ledger, &challenger, &req);
    assert_eq!(created.unwrap_err(), CoreError::Validation);
}

#[test]
fn create_challenge_rejects_uncovered_stake() {
    let mut ledger = Ledger::new();
    fund(&mut ledger, "user1", 99);
    let challenger = user("user1", "challenger-token");
    let req = waiting_challenge(100, 300, 300);
    let created = create_challenge(&ledger, &challenger, &req);
    assert_eq!(created.unwrap_err(), CoreError::InsufficientFunds);
}
