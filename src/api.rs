//! Decisions of the HTTP interface: error kinds and their status codes, and
//! which user a request acts for.
use vstd::prelude::*;

verus! {

/// The error kinds that a request can end with.
#[derive(Debug, Clone, Copy, PartialEq, Eq, Structural)]
pub enum ApiError {
    BadRequest,
    Unauthorized,
    NotFound,
    Conflict,
    Internal,
}

pub open spec fn status_spec(e: ApiError) -> u16 {
    match e {
        ApiError::BadRequest => 400,
        ApiError::Unauthorized => 401,
        ApiError::NotFound => 404,
        ApiError::Conflict => 409,
        ApiError::Internal => 500,
    }
}

impl ApiError {
    /// The HTTP status that the error is answered with.
    pub fn status_code(&self) -> (r: u16)
        ensures
            r == status_spec(*self),
    {
        match self {
            ApiError::BadRequest => 400,
            ApiError::Unauthorized => 401,
            ApiError::NotFound => 404,
            ApiError::Conflict => 409,
            ApiError::Internal => 500,
        }
    }
}

/// The status of work accepted to run later.
pub const ACCEPTED: u16 = 202;

/// What became of the bearer token that a request carried.
#[derive(Debug, Clone, Copy, PartialEq, Eq, Structural)]
pub enum TokenCheck {
    /// No token was sent.
    Absent,
    /// The token was valid and names this user.
    Valid { sub: i64 },
    /// The token was sent but did not verify.
    Invalid,
}

pub open spec fn acting_user_spec(explicit: Option<i64>, token: TokenCheck) -> Result<i64, ApiError> {
    match explicit {
        Some(u) => Ok(u),
        None => match token {
            TokenCheck::Valid { sub } => Ok(sub),
            TokenCheck::Invalid => Err(ApiError::Unauthorized),
            TokenCheck::Absent => Err(ApiError::BadRequest),
        },
    }
}

/// The user a request acts for: the explicit `user_id`, else the token's
/// subject; a bad token is unauthorized, and a request with neither is bad.
pub fn acting_user(explicit: Option<i64>, token: TokenCheck) -> (r: Result<i64, ApiError>)
    ensures
        r == acting_user_spec(explicit, token),
{
    match explicit {
        Some(u) => Ok(u),
        None => match token {
            TokenCheck::Valid { sub } => Ok(sub),
            TokenCheck::Invalid => Err(ApiError::Unauthorized),
            TokenCheck::Absent => Err(ApiError::BadRequest),
        },
    }
}

/// The message that answers a repeated subscription.
pub fn subscribe_message(already_subscribed: bool) -> (r: Option<&'static str>)
    ensures
        already_subscribed ==> (r matches Some(m) && m@ == "Already subscribed"@),
        !already_subscribed ==> r is None,
{
    if already_subscribed {
        Some("Already subscribed")
    } else {
        None
    }
}

/// The user a subscription acts for, checked against the known users: the
/// explicit id or the token's subject, which must name a known user; an
/// unknown user is unauthorized.
pub fn subscriber(explicit: Option<i64>, token: TokenCheck, known_users: &Vec<i64>) -> (r: Result<i64, ApiError>)
    ensures
        match acting_user_spec(explicit, token) {
            Ok(u) => if known_users@.contains(u) {
                r == Ok::<i64, ApiError>(u)
            } else {
                r == Err::<i64, ApiError>(ApiError::Unauthorized)
            },
            Err(e) => r == Err::<i64, ApiError>(e),
        },
{
    let u = match acting_user(explicit, token) {
        Ok(u) => u,
        Err(e) => return Err(e),
    };
    let mut i: usize = 0;
    while i < known_users.len()
        invariant
            acting_user_spec(explicit, token) == Ok::<i64, ApiError>(u),
            i <= known_users@.len(),
            forall|k: int| 0 <= k < i ==> known_users@[k] != u,
        decreases known_users.len() - i,
    {
        if known_users[i] == u {
            assert(known_users@.contains(u));
            return Ok(u);
        }
        i = i + 1;
    }
    Err(ApiError::Unauthorized)
}

} // verus!
