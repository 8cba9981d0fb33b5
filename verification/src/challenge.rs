use vstd::prelude::*;
use crate::errors::ParseRequestError;

verus! {

/// An authenticated caller: the resolved account name together with the
/// bearer token the identity layer resolved it from.  The token is kept so
/// the coordinator can act on the external game service on this user's
/// behalf.
#[derive(Debug)]
pub struct User {
    pub username: String,
    pub access_token: String,
}

impl Clone for User {
    fn clone(&self) -> (r: Self)
        ensures
            r == *self,
    {
        User { username: self.username.clone(), access_token: self.access_token.clone() }
    }
}

/// Lifecycle state of a challenge.  A challenge is created waiting for
/// acceptance and transitions to accepted exactly once, exclusively through
/// the settlement coordinator.
#[derive(Clone, Copy, Debug, PartialEq, Eq, Structural)]
pub enum ChallengeStatus {
    WaitingForAcceptance,
    Accepted,
}

/// A proposed or active wager contract.  Optional fields mirror the wire
/// format: a proposal arrives with any subset filled in, and the validator
/// decides whether the terms are complete and in range.
#[derive(Debug)]
pub struct Challenge {
    pub id: i32,
    /// The challenger, who owns the record at creation.
    pub username: String,
    /// Seconds on one side's clock; in range and a multiple of fifteen.
    pub time_limit: Option<i32>,
    /// Seconds on the other side's clock, same constraint.
    pub opponent_time_limit: Option<i32>,
    /// Seconds added per move.
    pub increment: Option<i32>,
    /// The opponent's color preference, `"white"` or `"black"`.
    pub color: Option<String>,
    /// The stake, in the smallest payment unit.
    pub sats: Option<i64>,
    /// The opponent, the only user who may accept.
    pub opp_username: String,
    pub status: Option<ChallengeStatus>,
    /// Identifier of the bound contest on the external game service.
    pub lichess_challenge_id: Option<String>,
    pub created_on: Option<i64>,
    /// Expiry window in seconds.
    pub expire_after: Option<i32>,
    /// The challenger's stored access token, pre-authorized at creation so
    /// the coordinator can accept the external contest on their behalf.
    pub challenger_token: Option<String>,
}

impl Clone for Challenge {
    fn clone(&self) -> (r: Self)
        ensures
            r == *self,
    {
        Challenge {
            id: self.id,
            username: self.username.clone(),
            time_limit: self.time_limit,
            opponent_time_limit: self.opponent_time_limit,
            increment: self.increment,
            color: clone_opt_string(&self.color),
            sats: self.sats,
            opp_username: self.opp_username.clone(),
            status: self.status,
            lichess_challenge_id: clone_opt_string(&self.lichess_challenge_id),
            created_on: self.created_on,
            expire_after: self.expire_after,
            challenger_token: clone_opt_string(&self.challenger_token),
        }
    }
}

fn clone_opt_string(s: &Option<String>) -> (r: Option<String>)
    ensures
        r == *s,
{
    match s {
        Some(v) => Some(v.clone()),
        None => None,
    }
}

/// A clock limit is whole minutes between one and ten, in fifteen-second
/// steps.
pub open spec fn valid_time_limit(t: int) -> bool {
    60 <= t <= 600 && t % 15 == 0
}

/// A per-move increment is at most five seconds.
pub open spec fn valid_increment(i: int) -> bool {
    0 <= i <= 5
}

/// A stake is between one hundred and three million payment units.
pub open spec fn valid_sats(s: int) -> bool {
    100 <= s <= 3_000_000
}

/// A color preference is the word `white` or the word `black`.
pub open spec fn valid_color(c: Seq<char>) -> bool {
    c == "white"@ || c == "black"@
}

/// The first constraint a proposal violates, in the validator's fixed check
/// order, as the message the validator reports; `None` when the proposal is
/// well formed.
pub open spec fn first_violation(c: Challenge) -> Option<Seq<char>> {
    if c.time_limit is None {
        Some("time_limit required"@)
    } else if !valid_time_limit(c.time_limit.unwrap() as int) {
        Some("time_limit constraint"@)
    } else if c.opponent_time_limit is None {
        Some("opp_time_limit required"@)
    } else if !valid_time_limit(c.opponent_time_limit.unwrap() as int) {
        Some("opp_time_limit constraint"@)
    } else if c.increment is None {
        Some("increment required"@)
    } else if !valid_increment(c.increment.unwrap() as int) {
        Some("increment constraint"@)
    } else if c.sats is None {
        Some("sats required"@)
    } else if !valid_sats(c.sats.unwrap() as int) {
        Some("sats constraint"@)
    } else if c.color is None {
        Some("color required"@)
    } else if !valid_color(c.color.unwrap()@) {
        Some("color constraint"@)
    } else {
        None
    }
}

/// A proposal is acceptable when every term is present and in range.
pub open spec fn proposal_valid(c: Challenge) -> bool {
    first_violation(c) is None
}

/// Validates a wager proposal: both clock limits present, in range and
/// multiples of fifteen; the increment present and in range; the stake
/// present and in range; the color present and one of the two words.  The
/// checks run in exactly this order and the error names the first violated
/// constraint.  Pure: the proposal is returned unchanged on success.
pub fn parse_request_to_challenge(c: &Challenge) -> (r: Result<Challenge, ParseRequestError>)
    ensures
        r is Ok <==> proposal_valid(*c),
        r is Ok ==> r.unwrap() == *c,
        r is Err ==> r.unwrap_err().m@ == first_violation(*c).unwrap(),
{
    let time_limit = match c.time_limit {
        Some(t) => t,
        None => {
            return Err(ParseRequestError { m: "time_limit required".to_owned() });
        },
    };
    if time_limit < 60 || time_limit > 600 || time_limit % 15 != 0 {
        return Err(ParseRequestError { m: "time_limit constraint".to_owned() });
    }

    let opp_time_limit = match c.opponent_time_limit {
        Some(t) => t,
        None => {
            return Err(ParseRequestError { m: "opp_time_limit required".to_owned() });
        },
    };
    if opp_time_limit < 60 || opp_time_limit > 600 || opp_time_limit % 15 != 0 {
        return Err(ParseRequestError { m: "opp_time_limit constraint".to_owned() });
    }

    let increment = match c.increment {
        Some(i) => i,
        None => {
            return Err(ParseRequestError { m: "increment required".to_owned() });
        },
    };
    if increment < 0 || increment > 5 {
        return Err(ParseRequestError { m: "increment constraint".to_owned() });
    }

    let sats = match c.sats {
        Some(s) => s,
        None => {
            return Err(ParseRequestError { m: "sats required".to_owned() });
        },
    };
    if sats < 100 || sats > 3_000_000 {
        return Err(ParseRequestError { m: "sats constraint".to_owned() });
    }

    let color_ok = match &c.color {
        Some(col) => *col == "white".to_owned() || *col == "black".to_owned(),
        None => {
            return Err(ParseRequestError { m: "color required".to_owned() });
        },
    };
    if !color_ok {
        return Err(ParseRequestError { m: "color constraint".to_owned() });
    }

    Ok(c.clone())
}

/// The contest body sent to the external game service.  The clock values are
/// plain seconds; the surrounding shell renders them in the wire format.
#[derive(Debug)]
pub struct LichessChallengeClock {
    pub limit: i32,
    pub increment: i32,
}

/// A create-contest request framed from the challenger's side: always rated,
/// standard variant, fixed ruleset, color inverted relative to the
/// opponent's stated preference, clock limit the smaller of the two stated
/// limits.
#[derive(Debug)]
pub struct LichessChallenge {
    pub rated: bool,
    pub clock: LichessChallengeClock,
    pub color: String,
    pub variant: String,
    pub rules: String,
}

/// The color the external contest is created with: the opposite of the
/// opponent's stated preference, or empty when no preference is stored.
pub open spec fn inverted_color(c: Option<String>) -> Seq<char> {
    if c is Some && c.unwrap()@ == "white"@ {
        "black"@
    } else if c is Some && c.unwrap()@ == "black"@ {
        "white"@
    } else {
        Seq::<char>::empty()
    }
}

/// Frames a stored challenge as a create-contest request for the external
/// game service: color inverted, clock limit the smaller of the two stated
/// limits, fixed variant and ruleset.
pub fn parse_to_lichess_challenge(challenge: &Challenge) -> (r: LichessChallenge)
    requires
        challenge.time_limit is Some,
        challenge.opponent_time_limit is Some,
        challenge.increment is Some,
    ensures
        r.rated == true,
        r.clock.limit == if challenge.time_limit.unwrap() < challenge.opponent_time_limit.unwrap() {
            challenge.time_limit.unwrap()
        } else {
            challenge.opponent_time_limit.unwrap()
        },
        r.clock.increment == challenge.increment.unwrap(),
        r.color@ == inverted_color(challenge.color),
        r.variant@ == "standard"@,
        r.rules@ == "noClaimWin"@,
{
    let color = match &challenge.color {
        Some(col) => {
            if *col == "white".to_owned() {
                "black".to_owned()
            } else if *col == "black".to_owned() {
                "white".to_owned()
            } else {
                String::new()
            }
        },
        None => String::new(),
    };

    let time_limit = challenge.time_limit.unwrap();
    let opponent_time_limit = challenge.opponent_time_limit.unwrap();
    let limit = if time_limit < opponent_time_limit {
        time_limit
    } else {
        opponent_time_limit
    };
    LichessChallenge {
        rated: true,
        clock: LichessChallengeClock { limit, increment: challenge.increment.unwrap() },
        color,
        variant: "standard".to_owned(),
        rules: "noClaimWin".to_owned(),
    }
}

} // verus!
