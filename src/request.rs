//! The requests of the client: for each remote operation, the method, the
//! address, the headers and the body that go out. Sending them is left to
//! the caller.
use vstd::prelude::*;

use crate::action::{
    fixed_metadata, lemma_fixed_metadata_wf, lemma_metadata_round_trip, parse_metadata, ActionMetadata,
};
use crate::bridge::{header_text_ok, header_value_accepted, json_string, json_string_literal};
use crate::error::ClientError;
use crate::text::{decimal, decimal_text, opt_view};
use crate::user::{Account, Token};

verus! {

/// The root of every address of the service.
pub const BASE_URL: &'static str = "https://www.involtum-services.com/api-rest";

/// The client identifier sent with every request.
pub const USER_AGENT: &'static str = "appwash-cli v1.0.0";

/// The body of a machine listing: the filter on washing machines, passed on
/// unmodified.
pub const MACHINE_FILTER_BODY: &'static str = "{\"serviceType\":\"WASHING_MACHINE\"}";

/// The HTTP method of a request.
#[derive(Debug, Clone, Copy, PartialEq, Eq, Structural)]
pub enum Method {
    Get,
    Post,
}

/// One request header.
#[derive(Debug, Clone, PartialEq, Eq)]
pub struct Header {
    pub name: String,
    pub value: String,
}

/// A request, ready to be sent.
#[derive(Debug, Clone, PartialEq, Eq)]
pub struct ApiRequest {
    pub method: Method,
    pub url: String,
    pub headers: Vec<Header>,
    pub body: Option<String>,
}

/// A request as a mathematical value.
pub struct RequestView {
    pub method: Method,
    pub url: Seq<char>,
    pub headers: Seq<(Seq<char>, Seq<char>)>,
    pub body: Option<Seq<char>>,
}

/// The name and the value of each header, in order.
pub open spec fn header_pairs(hs: Seq<Header>) -> Seq<(Seq<char>, Seq<char>)> {
    hs.map_values(|h: Header| (h.name@, h.value@))
}

impl View for ApiRequest {
    type V = RequestView;

    open spec fn view(&self) -> RequestView {
        RequestView {
            method: self.method,
            url: self.url@,
            headers: header_pairs(self.headers@),
            body: opt_view(self.body),
        }
    }
}

/// The address of `path` at the service.
pub open spec fn endpoint(path: Seq<char>) -> Seq<char> {
    BASE_URL@ + path
}

/// The identification headers, the same on every request.
pub open spec fn identification_headers() -> Seq<(Seq<char>, Seq<char>)> {
    seq![
        ("Content-Type"@, "application/json"@),
        ("User-Agent"@, USER_AGENT@),
        ("language"@, "EN"@),
        ("platform"@, "appWash"@),
        ("Referer"@, "https://appwash.com/"@),
    ]
}

/// The headers of a request made with the token secret `secret`.
pub open spec fn authorized_headers(secret: Seq<char>) -> Seq<(Seq<char>, Seq<char>)> {
    identification_headers().push(("token"@, secret))
}

/// The body of a login with the credentials already written as JSON strings.
pub open spec fn login_body_spec(email_json: Seq<char>, password_json: Seq<char>) -> Seq<char> {
    "{\"email\":"@ + email_json + ",\"password\":"@ + password_json + "}"@
}

/// Whether the account holds credentials that a login can be attempted with.
pub open spec fn credentials_present(account: Account) -> bool {
    account.email@.len() > 0 && account.password@.len() > 0
}

fn header(name: &str, value: &str) -> (r: Header)
    ensures
        r.name@ == name@,
        r.value@ == value@,
{
    Header { name: String::from_str(name), value: String::from_str(value) }
}

/// The identification headers that every request carries.
pub fn get_headers() -> (r: Vec<Header>)
    ensures
        header_pairs(r@) == identification_headers(),
{
    let mut hs: Vec<Header> = Vec::new();
    hs.push(header("Content-Type", "application/json"));
    hs.push(header("User-Agent", USER_AGENT));
    hs.push(header("language", "EN"));
    hs.push(header("platform", "appWash"));
    hs.push(header("Referer", "https://appwash.com/"));
    assert(header_pairs(hs@) =~= identification_headers());
    hs
}

/// The headers of a request made with `token`; refused when the secret
/// holds a character that no header value may hold.
fn authorized_header_list(token: &Token) -> (r: Result<Vec<Header>, ClientError>)
    ensures
        header_text_ok(token.secret@) ==> (r matches Ok(hs) && header_pairs(hs@)
            == authorized_headers(token.secret@)),
        !header_text_ok(token.secret@) ==> r matches Err(ClientError::Config(_)),
{
    if !header_value_accepted(token.secret.as_str()) {
        return Err(ClientError::Config(String::from_str("the token holds characters a header cannot carry")));
    }
    let mut hs = get_headers();
    let ghost before = hs@;
    hs.push(header("token", token.secret.as_str()));
    assert(header_pairs(hs@) =~= header_pairs(before).push(("token"@, token.secret@)));
    Ok(hs)
}

/// The body of a login, from the credentials already written as JSON
/// strings.
pub fn login_body(email_json: &str, password_json: &str) -> (r: String)
    ensures
        r@ == login_body_spec(email_json@, password_json@),
{
    let s = String::from_str("{\"email\":");
    let s = s.concat(email_json);
    let s = s.concat(",\"password\":");
    let s = s.concat(password_json);
    s.concat("}")
}

/// The login request for `account`, once its credentials are written as
/// JSON strings.
pub open spec fn login_request_spec(account: Account) -> RequestView {
    RequestView {
        method: Method::Post,
        url: endpoint("/login"@),
        headers: identification_headers(),
        body: Some(login_body_spec(json_string(account.email@), json_string(account.password@))),
    }
}

/// The login request for `account`. Missing credentials are refused before
/// anything is built.
pub fn login_request(account: &Account) -> (r: Result<ApiRequest, ClientError>)
    ensures
        !credentials_present(*account) ==> r matches Err(ClientError::Config(_)),
        credentials_present(*account) ==> (r matches Ok(req) && req@ == login_request_spec(
            *account,
        )),
{
    if account.email.unicode_len() == 0 || account.password.unicode_len() == 0 {
        return Err(ClientError::Config(String::from_str("the email and the password must both be set")));
    }
    let email = json_string_literal(account.email.as_str());
    let password = json_string_literal(account.password.as_str());
    match (email, password) {
        (Some(e), Some(p)) => {
            let body = login_body(e.as_str(), p.as_str());
            Ok(
                ApiRequest {
                    method: Method::Post,
                    url: address_of(String::from_str("/login")),
                    headers: get_headers(),
                    body: Some(body),
                },
            )
        },
        _ => {
            assert(false);
            Err(ClientError::Config(String::new()))
        },
    }
}

/// The request of an operation made with a token: `None` when the token
/// secret cannot be sent in a header, else the request with the
/// identification headers, the token header and then `extra`.
pub open spec fn authorized_request(
    token: Token,
    method: Method,
    path: Seq<char>,
    extra: Seq<(Seq<char>, Seq<char>)>,
    body: Option<Seq<char>>,
) -> Option<RequestView> {
    if header_text_ok(token.secret@) {
        Some(
            RequestView {
                method,
                url: endpoint(path),
                headers: authorized_headers(token.secret@) + extra,
                body,
            },
        )
    } else {
        None
    }
}

/// The outcome that a builder of a token-bearing request promises: refused
/// as a configuration error where `expected` is `None`, else that request.
pub open spec fn built_as(r: Result<ApiRequest, ClientError>, expected: Option<RequestView>) -> bool {
    match expected {
        Some(v) => r matches Ok(req) && req@ == v,
        None => r matches Err(ClientError::Config(_)),
    }
}

/// The path of the machine list of a location.
pub open spec fn machines_path(location: u32) -> Seq<char> {
    "/location/"@ + decimal(location as nat) + "/connectorsv2"@
}

/// The path of the description of a location.
pub open spec fn location_path(location: u32) -> Seq<char> {
    "/locations/split/"@ + decimal(location as nat)
}

/// The path of a reserve of a machine.
pub open spec fn reserve_path(machine_id: u32) -> Seq<char> {
    "/connector/"@ + decimal(machine_id as nat) + "/start"@
}

/// The path of a stop of a machine.
pub open spec fn stop_path(machine_id: u32) -> Seq<char> {
    "/connector/"@ + decimal(machine_id as nat) + "/stop"@
}

/// The request that lists the machines of a location. Location zero stands
/// for a location that was never set and is refused.
pub open spec fn machines_request_spec(token: Token, location: u32) -> Option<RequestView> {
    if location == 0 {
        None
    } else {
        authorized_request(
            token,
            Method::Post,
            machines_path(location),
            seq![("DNT"@, "1"@)],
            Some(MACHINE_FILTER_BODY@),
        )
    }
}

/// The request that describes a location; location zero is refused.
pub open spec fn location_request_spec(token: Token, location: u32) -> Option<RequestView> {
    if location == 0 {
        None
    } else {
        authorized_request(token, Method::Get, location_path(location), seq![], None)
    }
}

/// The request of a reserve or a stop: a post to `path` with the fixed
/// action metadata as body.
pub open spec fn action_request_spec(token: Token, path: Seq<char>) -> Option<RequestView> {
    authorized_request(token, Method::Post, path, seq![], Some(fixed_metadata().encoding()))
}

fn authorized(token: &Token, method: Method, path: String, body: Option<String>) -> (r: Result<
    ApiRequest,
    ClientError,
>)
    ensures
        built_as(
            r,
            authorized_request(*token, method, path@, seq![], opt_view(body)),
        ),
{
    match authorized_header_list(token) {
        Ok(headers) => {
            proof {
                assert(header_pairs(headers@) + seq![] =~= header_pairs(headers@));
            }
            Ok(ApiRequest { method, url: address_of(path), headers, body })
        },
        Err(e) => Err(e),
    }
}

fn address_of(path: String) -> (r: String)
    ensures
        r@ == endpoint(path@),
{
    String::from_str(BASE_URL).concat(path.as_str())
}

fn location_refused() -> (r: ClientError)
    ensures
        r is Config,
{
    ClientError::Config(String::from_str("no location is set"))
}

/// The request that lists the washing machines of `location`.
pub fn machines_request(token: &Token, location: u32) -> (r: Result<ApiRequest, ClientError>)
    ensures
        built_as(r, machines_request_spec(*token, location)),
{
    if location == 0 {
        return Err(location_refused());
    }
    let path = String::from_str("/location/").concat(decimal_text(location as u64).as_str()).concat(
        "/connectorsv2",
    );
    match authorized(token, Method::Post, path, Some(String::from_str(MACHINE_FILTER_BODY))) {
        Ok(req) => {
            let mut req = req;
            let ghost before = req.headers@;
            req.headers.push(header("DNT", "1"));
            assert(header_pairs(req.headers@) =~= header_pairs(before) + seq![("DNT"@, "1"@)]);
            Ok(req)
        },
        Err(e) => Err(e),
    }
}

/// The request that describes `location`.
pub fn location_request(token: &Token, location: u32) -> (r: Result<ApiRequest, ClientError>)
    ensures
        built_as(r, location_request_spec(*token, location)),
{
    if location == 0 {
        return Err(location_refused());
    }
    let path = String::from_str("/locations/split/").concat(decimal_text(location as u64).as_str());
    authorized(token, Method::Get, path, None)
}

/// The request for the prepaid balance of the account.
pub fn balance_request(token: &Token) -> (r: Result<ApiRequest, ClientError>)
    ensures
        built_as(r, authorized_request(*token, Method::Get, "/account/getprepaid"@, seq![], None)),
{
    authorized(token, Method::Get, String::from_str("/account/getprepaid"), None)
}

/// The request for the prepaid history of the account.
pub fn history_request(token: &Token) -> (r: Result<ApiRequest, ClientError>)
    ensures
        built_as(
            r,
            authorized_request(*token, Method::Get, "/account/getprepaidmutations"@, seq![], None),
        ),
{
    authorized(token, Method::Get, String::from_str("/account/getprepaidmutations"), None)
}

fn metadata_body() -> (r: String)
    ensures
        r@ == fixed_metadata().encoding(),
{
    proof {
        lemma_fixed_metadata_wf();
    }
    match ActionMetadata::fixed().encode() {
        Some(text) => text,
        None => {
            assert(false);
            String::new()
        },
    }
}

/// The request that reserves machine `machine_id`.
pub fn reserve_request(token: &Token, machine_id: u32) -> (r: Result<ApiRequest, ClientError>)
    ensures
        built_as(r, action_request_spec(*token, reserve_path(machine_id))),
{
    let path = String::from_str("/connector/").concat(decimal_text(machine_id as u64).as_str()).concat(
        "/start",
    );
    authorized(token, Method::Post, path, Some(metadata_body()))
}

/// The request that stops machine `machine_id`.
pub fn stop_request(token: &Token, machine_id: u32) -> (r: Result<ApiRequest, ClientError>)
    ensures
        built_as(r, action_request_spec(*token, stop_path(machine_id))),
{
    let path = String::from_str("/connector/").concat(decimal_text(machine_id as u64).as_str()).concat(
        "/stop",
    );
    authorized(token, Method::Post, path, Some(metadata_body()))
}

/// Every reserve and every stop carries the same metadata text, whatever
/// the machine, and reading that text back gives the fixed metadata.
pub proof fn lemma_action_body_is_constant(token: Token, reserved: u32, stopped: u32)
    ensures
        action_request_spec(token, reserve_path(reserved)) matches Some(req) ==> req.body == Some(
            fixed_metadata().encoding(),
        ),
        action_request_spec(token, stop_path(stopped)) matches Some(req) ==> req.body == Some(
            fixed_metadata().encoding(),
        ),
        parse_metadata(fixed_metadata().encoding()) == Some(fixed_metadata()),
{
    lemma_fixed_metadata_wf();
    lemma_metadata_round_trip(fixed_metadata());
}

} // verus!
