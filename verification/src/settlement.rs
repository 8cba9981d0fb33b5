use vstd::prelude::*;
use vstd::string::StringExecFns;
use crate::challenge::{
    Challenge, ChallengeStatus, LichessChallenge, User, inverted_color, parse_request_to_challenge,
    parse_to_lichess_challenge, proposal_valid, valid_color, valid_increment, valid_sats,
    valid_time_limit,
};
use crate::errors::CoreError;
use crate::ledger::{
    Ledger, NewTransaction, Transaction, TransactionType, TxState, lemma_settled_sum_push,
    settled_sum, spec_balance_of,
};

verus! {

/// What a stored challenge always satisfies: it was validated at creation,
/// so every term is present and in range, and the challenger's token was
/// captured so the coordinator can act on their behalf later.
pub open spec fn stored_challenge_wf(c: Challenge) -> bool {
    &&& c.time_limit is Some && valid_time_limit(c.time_limit.unwrap() as int)
    &&& c.opponent_time_limit is Some && valid_time_limit(c.opponent_time_limit.unwrap() as int)
    &&& c.increment is Some && valid_increment(c.increment.unwrap() as int)
    &&& c.sats is Some && valid_sats(c.sats.unwrap() as int)
    &&& c.color is Some && valid_color(c.color.unwrap()@)
    &&& c.challenger_token is Some
}

/// The first reason an accept attempt is refused, before any mutation:
/// only the stored opponent may accept, only a waiting challenge can be
/// accepted, and the opponent's balance must cover the stake.  `None` means
/// every precondition holds.
pub open spec fn accept_precheck(l: Ledger, c: Challenge, caller: User) -> Option<CoreError> {
    if c.opp_username@ != caller.username@ {
        Some(CoreError::Forbidden)
    } else if c.status != Some(ChallengeStatus::WaitingForAcceptance) {
        Some(CoreError::StateConflict)
    } else if spec_balance_of(l.balances@, caller.username@) < c.sats.unwrap() as int {
        Some(CoreError::InsufficientFunds)
    } else {
        None
    }
}

/// The one clock-adjustment call the external orchestration issues when the
/// two stated limits differ: how many seconds to add, under which user's
/// token.
#[derive(Debug)]
pub struct AddTimePlan {
    pub seconds: i32,
    pub token: String,
}

/// The external game orchestration an accept entails, computed before any
/// funds move: create a contest against the challenger under the accepting
/// user's token, accept it under the challenger's stored token, and, when
/// the limits differ, issue one clock adjustment.
#[derive(Debug)]
pub struct AcceptPlan {
    pub stake: i64,
    /// Whom the contest is created against.
    pub challenger_username: String,
    /// The accepting user's token, under which the contest is created.
    pub create_token: String,
    /// The create-contest body.
    pub body: LichessChallenge,
    /// The challenger's stored token, under which the contest is accepted on
    /// their behalf.
    pub accept_token: String,
    /// The clock adjustment, absent when the two limits are equal.
    pub add_time: Option<AddTimePlan>,
}

/// Checks an accept attempt and lays out the external calls it entails:
/// the challenge must exist, the caller must be its stored opponent, it must
/// still be waiting for acceptance, and the caller's balance must cover the
/// stake.  Reads only; nothing is reserved until the external contest is
/// confirmed and [`commit_accept`] applies the whole scope.
pub fn prepare_accept(ledger: &Ledger, challenge: &Option<Challenge>, caller: &User) -> (r: Result<
    AcceptPlan,
    CoreError,
>)
    requires
        ledger.basic_wf(),
        challenge is Some ==> stored_challenge_wf(challenge.unwrap()),
    ensures
        challenge is None ==> r == Err::<AcceptPlan, CoreError>(CoreError::NotFound),
        (*challenge) matches Some(c) ==> {
            &&& accept_precheck(*ledger, c, *caller) matches Some(e) ==> r == Err::<
                AcceptPlan,
                CoreError,
            >(e)
            &&& accept_precheck(*ledger, c, *caller) is None ==> (r matches Ok(plan) && {
                &&& plan.stake == c.sats.unwrap()
                &&& plan.challenger_username@ == c.username@
                &&& plan.create_token@ == caller.access_token@
                &&& plan.accept_token@ == c.challenger_token.unwrap()@
                &&& plan.body.rated == true
                &&& plan.body.clock.limit == if c.time_limit.unwrap()
                    < c.opponent_time_limit.unwrap() {
                    c.time_limit.unwrap()
                } else {
                    c.opponent_time_limit.unwrap()
                }
                &&& plan.body.clock.increment == c.increment.unwrap()
                &&& plan.body.color@ == inverted_color(c.color)
                &&& plan.body.variant@ == "standard"@
                &&& plan.body.rules@ == "noClaimWin"@
                &&& c.time_limit.unwrap() == c.opponent_time_limit.unwrap() ==> plan.add_time
                    is None
                &&& c.time_limit.unwrap() != c.opponent_time_limit.unwrap()
                    ==> (plan.add_time matches Some(at) && {
                    &&& at.seconds == if c.time_limit.unwrap() < c.opponent_time_limit.unwrap() {
                        c.opponent_time_limit.unwrap() - c.time_limit.unwrap()
                    } else {
                        c.time_limit.unwrap() - c.opponent_time_limit.unwrap()
                    }
                    &&& at.token@ == if c.time_limit.unwrap() < c.opponent_time_limit.unwrap() {
                        c.challenger_token.unwrap()@
                    } else {
                        caller.access_token@
                    }
                })
            })
        },
{
    let c = match challenge {
        Some(c) => c,
        None => {
            return Err(CoreError::NotFound);
        },
    };
    if !(c.opp_username == caller.username) {
        return Err(CoreError::Forbidden);
    }
    let waiting = match c.status {
        Some(ChallengeStatus::WaitingForAcceptance) => true,
        _ => false,
    };
    if !waiting {
        return Err(CoreError::StateConflict);
    }
    let stake = c.sats.unwrap();
    let bal = ledger.get_balance(&caller.username);
    if bal < stake {
        return Err(CoreError::InsufficientFunds);
    }

    let body = parse_to_lichess_challenge(c);
    let time_limit = c.time_limit.unwrap();
    let opponent_time_limit = c.opponent_time_limit.unwrap();
    let add_time = if time_limit == opponent_time_limit {
        None
    } else {
        let seconds = if time_limit < opponent_time_limit {
            opponent_time_limit - time_limit
        } else {
            time_limit - opponent_time_limit
        };
        let token = if time_limit < opponent_time_limit {
            c.challenger_token.as_ref().unwrap().clone()
        } else {
            caller.access_token.clone()
        };
        Some(AddTimePlan { seconds, token })
    };
    Ok(
        AcceptPlan {
            stake,
            challenger_username: c.username.clone(),
            create_token: caller.access_token.clone(),
            body,
            accept_token: c.challenger_token.as_ref().unwrap().clone(),
            add_time,
        },
    )
}

/// Applies an accept once the outcome of the external orchestration is
/// known.  Every precondition is checked again, in the same order, so a
/// challenge that was accepted in the meantime is refused with a state
/// conflict and no further debit.  `game_id` is the identifier the external
/// game service confirmed, or `None` when any of its calls failed or ran
/// past the shell's bounded timeout; on failure the whole scope is abandoned
/// and nothing is applied.  On success
/// the stake is debited, one settled entry is recorded, and the challenge is
/// bound to the external contest — together or not at all.
///
/// The external calls are not compensable: should the surrounding storage
/// fail to commit what this scope applied after the contest was created, a
/// live external contest remains with no committed local state, and a retry
/// may create a duplicate — a known gap of this design, flagged and not
/// resolved here.
pub fn commit_accept(
    ledger: &mut Ledger,
    challenge: &mut Challenge,
    caller: &User,
    game_id: Option<String>,
) -> (r: Result<Transaction, CoreError>)
    requires
        old(ledger).basic_wf(),
        old(ledger).balanced(),
        old(ledger).next_id < i32::MAX,
        stored_challenge_wf(*old(challenge)),
    ensures
        final(ledger).basic_wf(),
        final(ledger).balanced(),
        accept_precheck(*old(ledger), *old(challenge), *caller) matches Some(e) ==> {
            &&& r == Err::<Transaction, CoreError>(e)
            &&& *final(ledger) == *old(ledger)
            &&& *final(challenge) == *old(challenge)
        },
        accept_precheck(*old(ledger), *old(challenge), *caller) is None && game_id is None ==> {
            &&& r == Err::<Transaction, CoreError>(CoreError::ExternalService)
            &&& *final(ledger) == *old(ledger)
            &&& *final(challenge) == *old(challenge)
        },
        accept_precheck(*old(ledger), *old(challenge), *caller) is None && game_id is Some ==> {
            &&& r matches Ok(t) && {
                &&& t.transaction_id == old(ledger).next_id
                &&& t.username == caller.username
                &&& t.ttype == TransactionType::AcceptChallenge
                &&& t.amount == -old(challenge).sats.unwrap()
                &&& t.state == TxState::Settled
                &&& t.detail@ == "challenge vs "@ + old(challenge).username@
                &&& t.payment_addr is None
                &&& t.payment_request is None
                &&& t.payment_hash is None
                &&& final(ledger).transactions@ == old(ledger).transactions@.push(t)
            }
            &&& final(ledger).next_id == old(ledger).next_id + 1
            &&& spec_balance_of(final(ledger).balances@, caller.username@) == spec_balance_of(
                old(ledger).balances@,
                caller.username@,
            ) - old(challenge).sats.unwrap()
            &&& forall|u: Seq<char>|
                u != caller.username@ ==> #[trigger] spec_balance_of(final(ledger).balances@, u)
                    == spec_balance_of(old(ledger).balances@, u)
            &&& *final(challenge) == Challenge {
                status: Some(ChallengeStatus::Accepted),
                lichess_challenge_id: game_id,
                ..*old(challenge)
            }
        },
{
    if !(challenge.opp_username == caller.username) {
        return Err(CoreError::Forbidden);
    }
    let waiting = match challenge.status {
        Some(ChallengeStatus::WaitingForAcceptance) => true,
        _ => false,
    };
    if !waiting {
        return Err(CoreError::StateConflict);
    }
    let stake = challenge.sats.unwrap();
    let bal = ledger.get_balance(&caller.username);
    if bal < stake {
        return Err(CoreError::InsufficientFunds);
    }
    let confirmed = match game_id {
        Some(id) => id,
        None => {
            return Err(CoreError::ExternalService);
        },
    };

    let ghost pre_ledger = *ledger;
    let debited = ledger.reserve_and_debit(&caller.username, stake);
    match debited {
        Ok(_) => (),
        Err(_) => {
            proof {
                assert(false);
            }
            return Err(CoreError::InsufficientFunds);
        },
    }

    let mut detail = "challenge vs ".to_owned();
    detail.append(challenge.username.as_str());
    let entry = NewTransaction {
        username: caller.username.clone(),
        ttype: TransactionType::AcceptChallenge,
        detail,
        amount: -stake,
        state: TxState::Settled,
        payment_addr: None,
        payment_request: None,
        payment_hash: None,
    };
    let t = ledger.record_transaction(entry);

    challenge.status = Some(ChallengeStatus::Accepted);
    challenge.lichess_challenge_id = Some(confirmed);

    proof {
        assert forall|u: Seq<char>| #[trigger] spec_balance_of(ledger.balances@, u) == settled_sum(
            ledger.transactions@,
            u,
        ) by {
            lemma_settled_sum_push(pre_ledger.transactions@, t, u);
            assert(spec_balance_of(pre_ledger.balances@, u) == settled_sum(
                pre_ledger.transactions@,
                u,
            ));
        }
    }
    Ok(t)
}

/// Checks a proposed challenge and lays out the record to persist: the
/// proposal must validate and the challenger's balance must cover the stake
/// as a sanity check — nothing is reserved at creation.  The returned record
/// waits for acceptance, expires after thirty minutes, and captures the
/// challenger's token for the later external accept; storage assigns its
/// identity and timestamp.
pub fn create_challenge(ledger: &Ledger, user: &User, req: &Challenge) -> (r: Result<
    Challenge,
    CoreError,
>)
    requires
        ledger.basic_wf(),
    ensures
        !proposal_valid(*req) ==> r == Err::<Challenge, CoreError>(CoreError::Validation),
        proposal_valid(*req) && spec_balance_of(ledger.balances@, user.username@)
            < req.sats.unwrap() as int ==> r == Err::<Challenge, CoreError>(
            CoreError::InsufficientFunds,
        ),
        proposal_valid(*req) && spec_balance_of(ledger.balances@, user.username@)
            >= req.sats.unwrap() as int ==> (r matches Ok(c) && {
            &&& c.id == 0
            &&& c.username == user.username
            &&& c.time_limit == req.time_limit
            &&& c.opponent_time_limit == req.opponent_time_limit
            &&& c.increment == req.increment
            &&& c.color == req.color
            &&& c.sats == req.sats
            &&& c.opp_username == req.opp_username
            &&& c.status == Some(ChallengeStatus::WaitingForAcceptance)
            &&& c.lichess_challenge_id is None
            &&& c.created_on is None
            &&& c.expire_after == Some(1800i32)
            &&& c.challenger_token == Some(user.access_token)
            &&& stored_challenge_wf(c)
        }),
{
    let validated = match parse_request_to_challenge(req) {
        Ok(c) => c,
        Err(_) => {
            return Err(CoreError::Validation);
        },
    };
    let stake = validated.sats.unwrap();
    let bal = ledger.get_balance(&user.username);
    if bal < stake {
        return Err(CoreError::InsufficientFunds);
    }
    Ok(
        Challenge {
            id: 0,
            username: user.username.clone(),
            time_limit: validated.time_limit,
            opponent_time_limit: validated.opponent_time_limit,
            increment: validated.increment,
            color: validated.color,
            sats: validated.sats,
            opp_username: validated.opp_username,
            status: Some(ChallengeStatus::WaitingForAcceptance),
            lichess_challenge_id: None,
            created_on: None,
            expire_after: Some(1800),
            challenger_token: Some(user.access_token.clone()),
        },
    )
}

/// Law: accepting is not re-enterable.  Once a challenge has left the
/// waiting state — in particular once it is accepted — a further accept
/// attempt by the stored opponent is refused as a state conflict, whatever
/// the ledger holds; by [`commit_accept`]'s contract such a refusal leaves
/// the ledger untouched, so no additional debit is ever performed.
pub proof fn lemma_accept_not_reenterable(l: Ledger, c: Challenge, caller: User)
    requires
        c.opp_username@ == caller.username@,
        c.status != Some(ChallengeStatus::WaitingForAcceptance),
    ensures
        accept_precheck(l, c, caller) == Some(CoreError::StateConflict),
{
}

} // verus!
