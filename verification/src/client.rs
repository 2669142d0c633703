//! The client: credentials, the cached token, the authentication handshake
//! and the single request-dispatch choke point.
//!
//! The network transport stays outside the library. A caller asks the
//! client what to send — a [`RequestPlan`] for an endpoint call, an
//! [`AuthStep`] for authentication — performs the HTTP exchange itself, and
//! feeds the status and body back into [`classify_response`] or
//! [`Client::apply_auth_response`], which decide everything that follows.

use vstd::prelude::*;
use vstd::string::StringExecFns;
use vstd::utf8::encode_utf8;
use crate::model::error::RequestError;
use crate::model::token::Token;
use crate::model::token::now_timestamp;
use crate::model::token::token_fields_of;
use crate::model::token::parse_token_fields;
use crate::text::form_encode;
use crate::text::form_encoded;

verus! {

/// The fixed base of every request URL.
pub open spec fn spec_base_url() -> Seq<char> {
    "https://api.reyden-x.com/v1"@
}

/// The fixed base of every request URL.
pub fn base_url() -> (r: &'static str)
    ensures
        r@ == spec_base_url(),
{
    "https://api.reyden-x.com/v1"
}

/// The absolute URL of the token endpoint.
pub fn token_url() -> (r: String)
    ensures
        r@ == spec_base_url() + "/token/"@,
{
    String::from_str(base_url()).concat("/token/")
}

/// The closed set of HTTP verbs the vendor API is spoken to with.
#[derive(Debug, Clone, Copy, PartialEq, Eq, Structural)]
pub enum Method {
    Get,
    Post,
    Patch,
    Delete,
}

impl Method {
    /// Only creation and in-place mutation carry a body; reads and removals
    /// never do.
    pub open spec fn spec_carries_body(&self) -> bool {
        self is Post || self is Patch
    }
}

/// One fully prepared HTTP request: everything the transport needs, and
/// everything the dispatcher decides. `bearer` is the complete value of the
/// Authorization header; the Accept header is always `application/json`,
/// and `timeout_seconds` is the fixed per-call timeout.
#[derive(Debug, Clone)]
pub struct RequestPlan {
    pub method: Method,
    pub url: String,
    pub bearer: String,
    pub body: Option<String>,
    pub timeout_seconds: u64,
}

/// The form-encoded exchange that authentication prescribes when no valid
/// token is cached.
#[derive(Debug, Clone)]
pub struct AuthRequest {
    pub url: String,
    pub username: String,
    pub password: String,
}

impl AuthRequest {
    /// The exchange's form-encoded body: the `username` and `password`
    /// fields, percent-encoded.
    pub fn form_body(&self) -> (r: String)
        ensures
            r@ == "username="@ + form_encoded(encode_utf8(self.username@)) + "&password="@
                + form_encoded(encode_utf8(self.password@)),
    {
        let mut out = String::from_str("username=");
        out.append(form_encode(self.username.as_str()).as_str());
        out.append("&password=");
        out.append(form_encode(self.password.as_str()).as_str());
        out
    }
}

/// What authentication does next: return the cached token untouched, or
/// post the credentials to the token endpoint.
#[derive(Debug, Clone)]
pub enum AuthStep {
    Cached,
    Exchange(AuthRequest),
}

/// What the first `msg` of the vendor's 422 error envelope
/// (`{"detail":[{"msg":...},...]}`) holds, or nothing when the body is not
/// such an envelope or the list is empty.
pub uninterp spec fn first_detail_of(s: Seq<char>) -> Option<Seq<char>>;

/// Relies on serde_json's `from_str::<Value>`, `Value::get` and
/// `Value::as_str`: the first detail message of the error envelope depends
/// on the characters alone.
#[verifier::external_body]
fn first_detail_msg(body: &str) -> (r: Option<String>)
    ensures
        r is Some <==> first_detail_of(body@) is Some,
        r is Some ==> first_detail_of(body@) == Some(r->0@),
{
    let v: serde_json::Value = match serde_json::from_str(body) {
        Ok(v) => v,
        Err(_) => return None,
    };
    Some(v.get("detail")?.get(0)?.get("msg")?.as_str()?.to_string())
}

/// Classify one HTTP response, in the documented precedence: 200 passes the
/// body through for the caller to decode; 429 is a rate limit; 422 is a
/// validation failure carrying the envelope's first detail message (a 422
/// whose body is not a proper envelope fails closed as malformed); 401 is
/// unauthorized; every other status falls into the coarse catch-all.
pub fn classify_response(status: u16, body: String) -> (r: Result<String, RequestError>)
    ensures
        status == 200 ==> r is Ok && r->Ok_0 == body,
        status != 200 ==> r is Err,
        status == 429 ==> r->Err_0 is RateLimited,
        status == 422 && first_detail_of(body@) is Some ==> (r->Err_0 matches
            RequestError::ValidationFailed(m) && Some(m@) == first_detail_of(body@)),
        status == 422 && first_detail_of(body@) is None ==> r->Err_0 is Malformed,
        status == 401 ==> r->Err_0 is Unauthorized,
        status != 200 && status != 429 && status != 422 && status != 401 ==> r->Err_0
            is InvalidRequest,
{
    if status == 200 {
        Ok(body)
    } else if status == 429 {
        Err(RequestError::RateLimited)
    } else if status == 422 {
        match first_detail_msg(body.as_str()) {
            Option::Some(msg) => Err(RequestError::ValidationFailed(msg)),
            Option::None => Err(RequestError::Malformed),
        }
    } else if status == 401 {
        Err(RequestError::Unauthorized)
    } else {
        Err(RequestError::InvalidRequest)
    }
}

/// The client: the credentials it was constructed with and the token the
/// last successful authentication stored. Only authentication replaces the
/// token, and always as a whole.
#[derive(Debug, Clone)]
pub struct Client {
    pub username: String,
    pub password: String,
    pub token: Token,
}

/// Access to the authentication state, as a trait so that callers can stay
/// generic over the concrete client.
pub trait Auth {
    /// The token the implementor currently holds.
    spec fn spec_token(&self) -> Token;

    /// Whether the held token is valid now.
    fn is_authenticated(&self) -> (r: bool)
        ensures
            exists|now: int| r == self.spec_token().spec_valid_at(now),
            self.spec_token().access_token@.len() == 0 ==> !r,
            self.spec_token().expires_in@.len() == 0 ==> !r,
    ;

    /// The held token.
    fn get_token(&self) -> (t: &Token)
        ensures
            t == self.spec_token(),
    ;
}

impl Auth for Client {
    open spec fn spec_token(&self) -> Token {
        self.token
    }

    fn is_authenticated(&self) -> (r: bool) {
        let r = self.token.is_valid();
        proof {
            let now = choose|now: int| r == self.token.spec_valid_at(now);
            assert(r == self.spec_token().spec_valid_at(now));
        }
        r
    }

    fn get_token(&self) -> (t: &Token) {
        &self.token
    }
}

impl Client {
    /// A fresh client: the given credentials and an empty — hence always
    /// invalid — token.
    pub fn new(username: String, password: String) -> (c: Client)
        ensures
            c.username == username,
            c.password == password,
            c.token.access_token@.len() == 0,
            c.token.expires_in@.len() == 0,
            forall|now: int| !c.token.spec_valid_at(now),
    {
        let c = Client {
            username,
            password,
            token: Token { access_token: String::new(), expires_in: String::new() },
        };
        c
    }

    /// Whether authentication at `now` would have to exchange credentials:
    /// exactly when the held token is not valid at `now`.
    pub open spec fn spec_needs_exchange(&self, now: int) -> bool {
        !self.token.spec_valid_at(now)
    }

    /// What authentication does at the instant `now`: nothing when the held
    /// token is still valid, otherwise a credentials exchange against the
    /// token endpoint.
    pub fn auth_step_at(&self, now: i64) -> (r: AuthStep)
        ensures
            r is Cached <==> !self.spec_needs_exchange(now as int),
            r matches AuthStep::Exchange(q) ==> q.url@ == spec_base_url() + "/token/"@
                && q.username == self.username && q.password == self.password,
    {
        if self.token.is_valid_at(now) {
            AuthStep::Cached
        } else {
            AuthStep::Exchange(
                AuthRequest {
                    url: token_url(),
                    username: self.username.clone(),
                    password: self.password.clone(),
                },
            )
        }
    }

    /// What authentication does at the current time.
    pub fn auth_step(&self) -> (r: AuthStep)
        ensures
            r is Cached ==> exists|now: int| self.token.spec_valid_at(now),
            (forall|now: int| !self.token.spec_valid_at(now)) ==> r is Exchange,
            r matches AuthStep::Exchange(q) ==> q.url@ == spec_base_url() + "/token/"@
                && q.username == self.username && q.password == self.password,
    {
        let now = now_timestamp();
        self.auth_step_at(now)
    }

    /// Fold the token endpoint's answer into the client: 200 with a proper
    /// `{access_token, expires_in}` body replaces the held token as a
    /// whole; 200 with any other body is malformed and changes nothing; 429
    /// is a rate limit, 422 a validation failure, and any other status is
    /// taken as invalid credentials — in every failure the held token stays
    /// as it was. The credentials never change.
    pub fn apply_auth_response(&mut self, status: u16, body: &str) -> (r: Result<
        (),
        RequestError,
    >)
        ensures
            final(self).username == old(self).username,
            final(self).password == old(self).password,
            r is Ok <==> status == 200 && token_fields_of(body@) is Some,
            r is Ok ==> Some(
                (final(self).token.access_token@, final(self).token.expires_in@),
            ) == token_fields_of(body@),
            r is Err ==> final(self).token == old(self).token,
            status == 200 && token_fields_of(body@) is None ==> r->Err_0 is Malformed,
            status == 429 ==> r->Err_0 is RateLimited,
            status == 422 ==> (r->Err_0 matches RequestError::ValidationFailed(m) && m@
                == "Validation error"@),
            status != 200 && status != 429 && status != 422 ==> r->Err_0 is InvalidCredentials,
    {
        if status == 200 {
            match parse_token_fields(body) {
                Option::Some((access_token, expires_in)) => {
                    self.token = Token { access_token, expires_in };
                    Ok(())
                },
                Option::None => Err(RequestError::Malformed),
            }
        } else if status == 429 {
            Err(RequestError::RateLimited)
        } else if status == 422 {
            Err(RequestError::ValidationFailed(String::from_str("Validation error")))
        } else {
            Err(RequestError::InvalidCredentials)
        }
    }

    /// Prepare one endpoint request: the absolute URL is the fixed base
    /// followed by the already-escaped relative path, the Authorization
    /// header carries the held token as a bearer credential, the timeout is
    /// the fixed five seconds, and a body is attached only where the verb
    /// carries one.
    pub fn build_request(&self, method: Method, path: &str, payload: Option<String>) -> (r:
        RequestPlan)
        ensures
            r.method == method,
            r.url@ == spec_base_url() + path@,
            r.bearer@ == "Bearer "@ + self.token.access_token@,
            r.timeout_seconds == 5,
            method.spec_carries_body() ==> r.body == payload,
            !method.spec_carries_body() ==> r.body is None,
    {
        let body = match method {
            Method::Post | Method::Patch => payload,
            Method::Get | Method::Delete => Option::None,
        };
        RequestPlan {
            method,
            url: String::from_str(base_url()).concat(path),
            bearer: String::from_str("Bearer ").concat(self.token.access_token.as_str()),
            body,
            timeout_seconds: 5,
        }
    }
}

/// A client whose token is valid needs no exchange: authentication returns
/// the cached token and makes no network call.
pub proof fn lemma_cached_auth_no_exchange(c: Client, now: int)
    requires
        c.token.spec_valid_at(now),
    ensures
        !c.spec_needs_exchange(now),
{
}

} // verus!
