//! Settling a decoded reply into a typed result: the HTTP status, a body
//! that did not decode, and the status code inside a decoded body each lead
//! to their own kind of error.
use vstd::prelude::*;

use crate::error::ClientError;
use crate::model::{
    ActionResult, Balance, BalanceResponse, History, LocationInfo, LoginResponse, MachineData,
    ReserveStopResponse, Response,
};
use crate::user::Token;

verus! {

/// Whether an HTTP status reports success.
pub open spec fn status_ok(status: u16) -> bool {
    200 <= status <= 299
}

/// The body of a reply, from its HTTP status and the outcome of decoding
/// it: a status outside the success range is a network error, a body that
/// did not decode is a decode error carrying the decoder's message.
pub fn settle_body<T>(status: u16, decoded: Result<T, String>) -> (r: Result<T, ClientError>)
    ensures
        !status_ok(status) ==> r matches Err(ClientError::Network(_)),
        status_ok(status) ==> match decoded {
            Ok(v) => r == Ok::<T, ClientError>(v),
            Err(msg) => r == Err::<T, ClientError>(ClientError::Decode(msg)),
        },
{
    if status < 200 || status > 299 {
        return Err(ClientError::Network(String::from_str("the service answered with an error status")));
    }
    match decoded {
        Ok(v) => Ok(v),
        Err(msg) => Err(ClientError::Decode(msg)),
    }
}

/// Whether a login reply grants a token: a zero code and a non-empty secret.
pub open spec fn login_accepted(reply: LoginResponse) -> bool {
    reply.error_code == 0 && reply.login.token@.len() > 0
}

/// The token that a login reply grants.
pub fn login_token(reply: LoginResponse) -> (r: Result<Token, ClientError>)
    ensures
        login_accepted(reply) ==> r == Ok::<Token, ClientError>(
            Token { secret: reply.login.token, expires: reply.token_expire_ts },
        ),
        !login_accepted(reply) ==> r matches Err(ClientError::Auth(_)),
{
    if reply.error_code != 0 {
        return Err(ClientError::Auth(reply.error_description));
    }
    if reply.login.token.unicode_len() == 0 {
        return Err(ClientError::Auth(String::from_str("the login reply holds no token")));
    }
    Ok(Token::new(reply.login.token, reply.token_expire_ts))
}

/// The prepaid balance that a reply reports.
pub fn balance_of(reply: BalanceResponse) -> (r: Result<Balance, ClientError>)
    ensures
        reply.error_code == 0 ==> r == Ok::<Balance, ClientError>(
            Balance { amount_cents: reply.balance_cents, currency: reply.currency },
        ),
        reply.error_code != 0 ==> r == Err::<Balance, ClientError>(
            ClientError::Domain {
                code: reply.error_code as u64,
                description: reply.error_description,
            },
        ),
{
    if reply.error_code != 0 {
        return Err(
            ClientError::Domain {
                code: reply.error_code as u64,
                description: reply.error_description,
            },
        );
    }
    Ok(Balance { amount_cents: reply.balance_cents, currency: reply.currency })
}

/// The error that a non-zero code in an envelope stands for.
pub open spec fn envelope_failure<T>(reply: Response<T>) -> ClientError {
    ClientError::Domain { code: reply.error_code as u64, description: reply.error_description }
}

/// Whether every machine of `ms` has a session start exactly when a session
/// is running on it.
pub open spec fn all_consistent(ms: Seq<MachineData>) -> bool {
    forall|i: int| 0 <= i < ms.len() ==> (#[trigger] ms[i]).session_consistent()
}

/// The machines that a reply lists, in the order the service gave them. A
/// machine whose session start does not agree with its state makes the
/// reply malformed.
pub fn machines_of(reply: Response<Vec<MachineData>>) -> (r: Result<Vec<MachineData>, ClientError>)
    ensures
        reply.error_code != 0 ==> r == Err::<Vec<MachineData>, ClientError>(
            envelope_failure(reply),
        ),
        reply.error_code == 0 && all_consistent(reply.data@) ==> r == Ok::<
            Vec<MachineData>,
            ClientError,
        >(reply.data),
        reply.error_code == 0 && !all_consistent(reply.data@) ==> r matches Err(
            ClientError::Decode(_),
        ),
{
    if reply.error_code != 0 {
        return Err(
            ClientError::Domain {
                code: reply.error_code as u64,
                description: reply.error_description,
            },
        );
    }
    let n = reply.data.len();
    let mut i: usize = 0;
    while i < n
        invariant
            n == reply.data@.len(),
            reply.error_code == 0,
            i <= n,
            forall|k: int| 0 <= k < i ==> (#[trigger] reply.data@[k]).session_consistent(),
        decreases n - i,
    {
        if !reply.data[i].has_consistent_session() {
            return Err(
                ClientError::Decode(
                    String::from_str("a machine's session start does not agree with its state"),
                ),
            );
        }
        i = i + 1;
    }
    Ok(reply.data)
}

/// The location that a reply describes.
pub fn location_of(reply: Response<LocationInfo>) -> (r: Result<LocationInfo, ClientError>)
    ensures
        reply.error_code != 0 ==> r == Err::<LocationInfo, ClientError>(envelope_failure(reply)),
        reply.error_code == 0 ==> r == Ok::<LocationInfo, ClientError>(reply.data),
{
    if reply.error_code != 0 {
        return Err(
            ClientError::Domain {
                code: reply.error_code as u64,
                description: reply.error_description,
            },
        );
    }
    Ok(reply.data)
}

/// The history entries that a reply lists, in the order the service gave
/// them.
pub fn history_of(reply: Response<Vec<History>>) -> (r: Result<Vec<History>, ClientError>)
    ensures
        reply.error_code != 0 ==> r == Err::<Vec<History>, ClientError>(envelope_failure(reply)),
        reply.error_code == 0 ==> r == Ok::<Vec<History>, ClientError>(reply.data),
{
    if reply.error_code != 0 {
        return Err(
            ClientError::Domain {
                code: reply.error_code as u64,
                description: reply.error_description,
            },
        );
    }
    Ok(reply.data)
}

/// The outcome of a reserve or a stop. A refusal by the service is an
/// outcome with a non-zero code, not an error.
pub fn action_of(reply: ReserveStopResponse) -> (r: ActionResult)
    ensures
        r == (ActionResult {
            error_code: reply.error_code,
            error_description: reply.error_description,
        }),
{
    ActionResult { error_code: reply.error_code, error_description: reply.error_description }
}

} // verus!
