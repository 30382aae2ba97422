//! The account of the user and the access token that the service issued.
use vstd::prelude::*;

verus! {

/// An access token: the secret sent with each request and the time, in
/// seconds since the epoch, at which the service stops accepting it.
#[derive(Debug, Clone, PartialEq, Eq)]
pub struct Token {
    pub secret: String,
    pub expires: u32,
}

impl Token {
    pub fn new(secret: String, expires: u32) -> (r: Self)
        ensures
            r.secret == secret,
            r.expires == expires,
    {
        Self { secret, expires }
    }
}

/// The credentials and the location of the user.
#[derive(Debug, Clone, PartialEq, Eq)]
pub struct Account {
    pub email: String,
    pub password: String,
    pub location: u32,
}

/// What the user keeps between runs: the account and the last token.
#[derive(Debug, Clone, PartialEq, Eq)]
pub struct UserConfig {
    pub account: Account,
    pub token: Token,
}

impl Default for UserConfig {
    fn default() -> (r: Self)
        ensures
            r.account.email@ == "<YOUR EMAIL>"@,
            r.account.password@ == "<YOUR PASSWORD>"@,
            r.account.location == 0,
            r.token.secret@ == "<TOKEN WILL BE AUTOMATICALLY GENERATED>"@,
            r.token.expires == 0,
    {
        Self {
            account: Account {
                email: String::from_str("<YOUR EMAIL>"),
                password: String::from_str("<YOUR PASSWORD>"),
                location: 0,
            },
            token: Token {
                secret: String::from_str("<TOKEN WILL BE AUTOMATICALLY GENERATED>"),
                expires: 0,
            },
        }
    }
}

impl UserConfig {
    /// Replaces the stored token wholesale; the account stays as it was.
    pub fn set_token(&mut self, token: Token)
        ensures
            final(self).token == token,
            final(self).account == old(self).account,
    {
        self.token = token;
    }
}

/// A user's credentials and token secret, all empty until filled in.
#[derive(Debug, Clone, PartialEq, Eq)]
pub struct User {
    pub email: String,
    pub password: String,
    pub token: String,
}

impl User {
    pub fn new() -> (r: Self)
        ensures
            r.email@.len() == 0,
            r.password@.len() == 0,
            r.token@.len() == 0,
    {
        User { email: String::new(), password: String::new(), token: String::new() }
    }
}

} // verus!
