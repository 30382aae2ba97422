//! The decisions of the token session. The caller asks, before each
//! request, whether the stored token can be used; when it cannot, it is
//! handed the login request to send, and gives the reply back.
use vstd::prelude::*;

use crate::error::ClientError;
use crate::model::LoginResponse;
use crate::request::{credentials_present, login_request, login_request_spec, ApiRequest};
use crate::settle::{login_accepted, login_token, settle_body, status_ok};
use crate::user::{Token, UserConfig};

verus! {

/// How many seconds before its expiry a token is already replaced, so that
/// it cannot lapse between the check and the request.
pub const TOKEN_MARGIN_SECS: u64 = 5;

/// Whether `token` can still be used at time `now`, in seconds since the
/// epoch: `now` lies before the expiry less the margin.
pub open spec fn token_fresh(token: Token, now: u64) -> bool {
    (now as int) < (token.expires as int) - (TOKEN_MARGIN_SECS as int)
}

/// What to do before a request.
#[derive(Debug, Clone, PartialEq, Eq)]
pub enum TokenStep {
    /// Send the request with this token.
    Reuse(Token),
    /// Send this login first, and hand its reply to `accept_login`.
    Login(ApiRequest),
}

impl UserConfig {
    /// Decides, at time `now`, whether the stored token can be used as it
    /// is or a new login is due.
    pub fn ensure_valid(&self, now: u64) -> (r: Result<TokenStep, ClientError>)
        ensures
            token_fresh(self.token, now) ==> r == Ok::<TokenStep, ClientError>(
                TokenStep::Reuse(self.token),
            ),
            !token_fresh(self.token, now) && credentials_present(self.account) ==> (r matches Ok(
                TokenStep::Login(req),
            ) && req@ == login_request_spec(self.account)),
            !token_fresh(self.token, now) && !credentials_present(self.account) ==> (r matches Err(
                ClientError::Config(_),
            )),
    {
        let expires = self.token.expires as u64;
        if expires >= TOKEN_MARGIN_SECS && now < expires - TOKEN_MARGIN_SECS {
            let token = Token { secret: self.token.secret.clone(), expires: self.token.expires };
            return Ok(TokenStep::Reuse(token));
        }
        match login_request(&self.account) {
            Ok(req) => Ok(TokenStep::Login(req)),
            Err(e) => Err(e),
        }
    }

    /// Takes the reply to a login. An accepted login replaces the stored
    /// token wholesale and returns it; a refused one leaves the
    /// configuration as it was.
    pub fn accept_login(&mut self, reply: LoginResponse) -> (r: Result<Token, ClientError>)
        ensures
            login_accepted(reply) ==> r == Ok::<Token, ClientError>(
                Token { secret: reply.login.token, expires: reply.token_expire_ts },
            ) && final(self).token == (Token {
                secret: reply.login.token,
                expires: reply.token_expire_ts,
            }),
            !login_accepted(reply) ==> (r matches Err(ClientError::Auth(_))),
            !login_accepted(reply) ==> *final(self) == *old(self),
            final(self).account == old(self).account,
    {
        match login_token(reply) {
            Ok(token) => {
                let kept = Token { secret: token.secret.clone(), expires: token.expires };
                self.set_token(kept);
                Ok(token)
            },
            Err(e) => Err(e),
        }
    }

    /// Takes the raw outcome of the login request: its HTTP status and the
    /// decoded body, or the decoder's message. A client-error status or a
    /// body that does not decode is a refused login; any other status
    /// outside the success range is a network error; a decoded reply goes
    /// to `accept_login`.
    pub fn accept_login_reply(&mut self, status: u16, decoded: Result<LoginResponse, String>) -> (r:
        Result<Token, ClientError>)
        ensures
            400 <= status <= 499 ==> (r matches Err(ClientError::Auth(_))) && *final(self) == *old(
                self,
            ),
            !status_ok(status) && !(400 <= status <= 499) ==> (r matches Err(
                ClientError::Network(_),
            )) && *final(self) == *old(self),
            status_ok(status) ==> match decoded {
                Ok(reply) => {
                    &&& login_accepted(reply) ==> r == Ok::<Token, ClientError>(
                        Token { secret: reply.login.token, expires: reply.token_expire_ts },
                    ) && final(self).token == (Token {
                        secret: reply.login.token,
                        expires: reply.token_expire_ts,
                    })
                    &&& !login_accepted(reply) ==> (r matches Err(ClientError::Auth(_)))
                        && *final(self) == *old(self)
                },
                Err(msg) => r == Err::<Token, ClientError>(ClientError::Auth(msg)) && *final(self)
                    == *old(self),
            },
            final(self).account == old(self).account,
    {
        if 400 <= status && status <= 499 {
            return Err(ClientError::Auth(String::from_str("the service refused the login")));
        }
        match settle_body(status, decoded) {
            Ok(reply) => self.accept_login(reply),
            Err(ClientError::Decode(msg)) => Err(ClientError::Auth(msg)),
            Err(e) => Err(e),
        }
    }
}

/// A token that a login has just granted is reused by every check made
/// before its expiry less the margin, and replaced by every check made
/// later.
pub proof fn lemma_granted_token_lifetime(reply: LoginResponse, now: u64)
    requires
        login_accepted(reply),
    ensures
        token_fresh(Token { secret: reply.login.token, expires: reply.token_expire_ts }, now) <==> (
        now as int) + (TOKEN_MARGIN_SECS as int) < reply.token_expire_ts as int,
{
}

/// A token that is fresh at some time is fresh at every earlier time, so
/// checks made in turn reuse it until the first one that finds it stale.
pub proof fn lemma_fresh_token_stays_fresh_earlier(token: Token, earlier: u64, later: u64)
    requires
        earlier <= later,
        token_fresh(token, later),
    ensures
        token_fresh(token, earlier),
{
}

} // verus!
