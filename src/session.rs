//! The client instance and its authkey lifecycle.
//!
//! A client holds at most one authkey. `authenticate` stores the key that the
//! hypervisor hands out, `reauthenticate` replaces it, `deauthenticate` clears
//! it once the hypervisor confirmed the revocation. Every other operation
//! reads it through `get_authkey`, which refuses when there is none.
use vstd::prelude::*;
use crate::error::{not_authenticated, ErrorView, VelocityError};
use crate::json::{members_view, object, push_member, text, text_field, u64_field, Json, JsonValue};
use crate::transport::{
    body_view, failure_of, malformed, malformed_reply, reply_body, reply_status, request_is, HttpReply,
    Method, Request, STATUS_OK,
};

verus! {

/// What an authkey holds.
pub struct AuthkeyView {
    pub key: Seq<char>,
    pub expires: u64,
}

/// An authkey has a key value that authenticates and an expiration time
#[derive(Debug)]
pub struct Authkey {
    /// The key string to authenticate to Velocity
    key: String,
    /// The expiration time, in seconds since the UNIX epoch
    expires: u64,
}

impl View for Authkey {
    type V = AuthkeyView;

    closed spec fn view(&self) -> AuthkeyView {
        AuthkeyView { key: self.key@, expires: self.expires }
    }
}

impl Clone for Authkey {
    fn clone(&self) -> (r: Self)
        ensures
            r@ == self@,
    {
        Authkey { key: self.key.clone(), expires: self.expires }
    }
}

impl Authkey {
    /// Creates a new authkey
    /// # Arguments
    /// * `key` - The key value to use
    /// * `expires` - The time since the UNIX epoch in seconds the key expires
    pub fn new(key: &str, expires: u64) -> (r: Self)
        ensures
            r@ == (AuthkeyView { key: key@, expires }),
    {
        Authkey { key: key.to_owned(), expires }
    }

    /// The key string
    pub fn key(&self) -> (r: &str)
        ensures
            r@ == self@.key,
    {
        self.key.as_str()
    }

    /// The expiration time, in seconds since the UNIX epoch
    pub fn expires(&self) -> (r: u64)
        ensures
            r == self@.expires,
    {
        self.expires
    }
}

/// What a client holds: where it sends requests, and its authkey if any.
pub struct SessionView {
    pub base_url: Seq<char>,
    pub authkey: Option<AuthkeyView>,
}

/// The client of one session with a hypervisor. All requests and functions
/// go through this struct and its methods.
#[derive(Debug)]
pub struct Velocity {
    base_url: String,
    authkey: Option<Authkey>,
}

impl View for Velocity {
    type V = SessionView;

    closed spec fn view(&self) -> SessionView {
        SessionView {
            base_url: self.base_url@,
            authkey: match self.authkey {
                Some(k) => Some(k@),
                None => None,
            },
        }
    }
}

/// The authkey that `get_authkey` hands out, or its error.
pub open spec fn stored_key(s: SessionView) -> Result<AuthkeyView, ErrorView> {
    match s.authkey {
        Some(k) => Ok(k),
        None => Err(not_authenticated()),
    }
}

/// An authkey result as plain values.
pub open spec fn key_result(r: Result<Authkey, VelocityError>) -> Result<AuthkeyView, ErrorView> {
    match r {
        Ok(k) => Ok(k@),
        Err(e) => Err(e@),
    }
}

/// The object that a request carries: the authkey `key` first, then `fields`.
pub open spec fn keyed_body(key: Seq<char>, fields: Seq<(Seq<char>, Json)>) -> Json {
    Json::Object(seq![("authkey"@, Json::Text(key))] + fields)
}

/// The request that an operation needing an authkey makes from the session
/// `s`: none, with the client error, where `s` holds no authkey; else
/// `method endpoint` with the key and `fields` as its body.
pub open spec fn authorized_request(
    s: SessionView,
    r: Result<Request, VelocityError>,
    method: Method,
    endpoint: Seq<char>,
    fields: Seq<(Seq<char>, Json)>,
) -> bool {
    match s.authkey {
        None => r matches Err(e) && e@ == not_authenticated(),
        Some(k) => r matches Ok(q) && request_is(q, method, endpoint, keyed_body(k.key, fields)),
    }
}

/// The authkey that a reply to `/u/auth` hands out, or its error.
pub open spec fn key_reply(status: u16, body: Result<Json, Seq<char>>) -> Result<
    AuthkeyView,
    ErrorView,
> {
    if status != STATUS_OK {
        Err(failure_of(status, body))
    } else {
        match body {
            Err(m) => Err(ErrorView::Transport(m)),
            Ok(j) => match (text_field(j, "authkey"@), u64_field(j, "expires"@)) {
                (Some(key), Some(expires)) => Ok(AuthkeyView { key, expires: expires as u64 }),
                _ => Err(ErrorView::Transport(malformed_reply())),
            },
        }
    }
}

/// The session after `/u/auth` handed out `outcome`: a new key replaces the
/// stored one, an error leaves the session as it was.
pub open spec fn with_key(s: SessionView, outcome: Result<AuthkeyView, ErrorView>) -> SessionView {
    match outcome {
        Ok(k) => SessionView { authkey: Some(k), ..s },
        Err(_) => s,
    }
}

/// The session after a revocation answered by `outcome`: cleared on success,
/// as it was on failure.
pub open spec fn revoked(s: SessionView, outcome: Result<u16, ErrorView>) -> SessionView {
    match outcome {
        Ok(status) => if status == STATUS_OK {
            SessionView { authkey: None, ..s }
        } else {
            s
        },
        Err(_) => s,
    }
}

/// The status that a reply to a revocation gives, or its error.
pub open spec fn status_reply(status: u16, body: Result<Json, Seq<char>>) -> Result<u16, ErrorView> {
    if status == STATUS_OK {
        Ok(STATUS_OK)
    } else {
        Err(failure_of(status, body))
    }
}

impl Velocity {
    /// Creates a client that routes all requests to `base_url` and holds no
    /// authkey yet
    pub fn new(base_url: &str) -> (r: Velocity)
        ensures
            r@ == (SessionView { base_url: base_url@, authkey: None }),
    {
        Velocity { base_url: base_url.to_owned(), authkey: None }
    }

    /// The full URL of an endpoint: the base url followed by the endpoint's
    /// path, e.g. `/u/auth`
    pub fn url(&self, endpoint: &str) -> (r: String)
        ensures
            r@ == self@.base_url + endpoint@,
    {
        let mut r = self.base_url.clone();
        r.append(endpoint);
        r
    }

    /// Tries to retrieve the authkey from this instance. If it doesn't exist, this will error
    /// with a `ClientError::NotAuthenticated`
    pub fn get_authkey(&self) -> (r: Result<Authkey, VelocityError>)
        ensures
            key_result(r) == stored_key(self@),
    {
        match &self.authkey {
            Some(key) => Ok(key.clone()),
            None => Err(VelocityError::not_authenticated()),
        }
    }

    /// The request `method endpoint` whose body holds the authkey and then
    /// `fields`, or the client error where there is no authkey
    pub fn authorized(&self, method: Method, endpoint: &str, fields: Vec<(String, JsonValue)>) -> (r:
        Result<Request, VelocityError>)
        ensures
            authorized_request(self@, r, method, endpoint@, members_view(fields@)),
    {
        let authkey = match self.get_authkey() {
            Ok(k) => k,
            Err(e) => return Err(e),
        };
        let mut members: Vec<(String, JsonValue)> = Vec::new();
        push_member(&mut members, "authkey", text(authkey.key()));
        let ghost head = members@;
        assert(members_view(head) =~= seq![("authkey"@, Json::Text(authkey@.key))]);
        let mut rest = fields;
        members.append(&mut rest);
        assert(members_view(members@) =~= members_view(head) + members_view(fields@));
        Ok(Request { method, endpoint: endpoint.to_owned(), body: object(members) })
    }

    /// The request that asks for an authkey with a username and a password
    pub fn authenticate(username: &str, password: &str) -> (r: Request)
        ensures
            request_is(
                r,
                Method::Post,
                "/u/auth"@,
                Json::Object(
                    seq![("username"@, Json::Text(username@)), ("password"@, Json::Text(password@))],
                ),
            ),
    {
        let mut members: Vec<(String, JsonValue)> = Vec::new();
        push_member(&mut members, "username", text(username));
        push_member(&mut members, "password", text(password));
        assert(members_view(members@) =~= seq![
            ("username"@, Json::Text(username@)),
            ("password"@, Json::Text(password@)),
        ]);
        Request { method: Method::Post, endpoint: "/u/auth".to_owned(), body: object(members) }
    }

    /// Reads the authkey that a reply to `/u/auth` hands out and stores it in
    /// place of any earlier one; on an error the stored key stays
    /// # Returns
    /// The key on success
    pub fn authenticate_reply(&mut self, reply: HttpReply) -> (r: Result<Authkey, VelocityError>)
        ensures
            key_result(r) == key_reply(reply.status, body_view(reply.body)),
            final(self)@ == with_key(old(self)@, key_result(r)),
    {
        let j = match reply_body(reply) {
            Ok(j) => j,
            Err(e) => return Err(e),
        };
        match (j.text_member("authkey"), j.u64_member("expires")) {
            (Some(key), Some(expires)) => {
                let k = Authkey::new(key.as_str(), expires);
                self.authkey = Some(k.clone());
                Ok(k)
            },
            _ => Err(malformed()),
        }
    }

    /// The request that exchanges the current authkey for a renewed one, or
    /// the client error where there is none
    pub fn reauthenticate(&self) -> (r: Result<Request, VelocityError>)
        ensures
            authorized_request(self@, r, Method::Patch, "/u/auth"@, seq![]),
    {
        let r = self.authorized(Method::Patch, "/u/auth", Vec::new());
        assert(members_view(Seq::<(String, JsonValue)>::empty()) =~= seq![]);
        r
    }

    /// Reads the renewed authkey out of a reply to the `PATCH` of `/u/auth`
    /// and stores it in place of the old one; on an error the old key stays
    /// # Returns
    /// The key on success
    pub fn reauthenticate_reply(&mut self, reply: HttpReply) -> (r: Result<Authkey, VelocityError>)
        ensures
            key_result(r) == key_reply(reply.status, body_view(reply.body)),
            final(self)@ == with_key(old(self)@, key_result(r)),
    {
        self.authenticate_reply(reply)
    }

    /// The request that revokes the current authkey, or the client error
    /// where there is none
    pub fn deauthenticate(&self) -> (r: Result<Request, VelocityError>)
        ensures
            authorized_request(self@, r, Method::Delete, "/u/auth"@, seq![]),
    {
        let r = self.authorized(Method::Delete, "/u/auth", Vec::new());
        assert(members_view(Seq::<(String, JsonValue)>::empty()) =~= seq![]);
        r
    }

    /// Reads the reply to a revocation: on success the stored authkey is
    /// dropped; on a failure it stays, since it may still be valid
    pub fn deauthenticate_reply(&mut self, reply: HttpReply) -> (r: Result<(), VelocityError>)
        ensures
            final(self)@ == revoked(
                old(self)@,
                status_reply(reply.status, body_view(reply.body)),
            ),
            reply.status == STATUS_OK ==> r is Ok,
            reply.status != STATUS_OK ==> (r matches Err(e) && e@ == failure_of(
                reply.status,
                body_view(reply.body),
            )),
    {
        match reply_status(reply) {
            Ok(status) => {
                if status == STATUS_OK {
                    self.authkey = None;
                }
                Ok(())
            },
            Err(e) => Err(e),
        }
    }

    /// The request that a client still holding an authkey sends when it is
    /// shut down: the revocation of that key. Its reply may be ignored, since
    /// the key expires on the hypervisor anyway.
    pub fn close(&self) -> (r: Option<Request>)
        ensures
            self@.authkey is None ==> r is None,
            self@.authkey matches Some(k) ==> (r matches Some(q) && request_is(
                q,
                Method::Delete,
                "/u/auth"@,
                keyed_body(k.key, seq![]),
            )),
    {
        match self.deauthenticate() {
            Ok(q) => Some(q),
            Err(_) => None,
        }
    }
}

/// An operation that needs an authkey, asked of a client that holds none,
/// fails with the client error and yields no request to send.
pub proof fn lemma_unauthenticated_refused(
    s: SessionView,
    r: Result<Request, VelocityError>,
    method: Method,
    endpoint: Seq<char>,
    fields: Seq<(Seq<char>, Json)>,
)
    requires
        s.authkey is None,
        authorized_request(s, r, method, endpoint, fields),
    ensures
        r matches Err(e) && e@ == not_authenticated(),
{
}

/// Right after a successful authentication, `get_authkey` hands out exactly
/// the key and expiry that the hypervisor returned.
pub proof fn lemma_authenticate_then_get_authkey(
    s: SessionView,
    status: u16,
    body: Result<Json, Seq<char>>,
)
    ensures
        key_reply(status, body) matches Ok(k) ==> stored_key(with_key(s, key_reply(status, body)))
            == Ok::<AuthkeyView, ErrorView>(k),
{
}

/// A successful reauthentication replaces the stored key: `get_authkey` then
/// hands out the new key, and no longer the old one where the two differ.
pub proof fn lemma_reauthenticate_replaces_key(
    s: SessionView,
    status: u16,
    body: Result<Json, Seq<char>>,
)
    requires
        s.authkey is Some,
    ensures
        key_reply(status, body) matches Ok(k) ==> {
            &&& stored_key(with_key(s, key_reply(status, body))) == Ok::<AuthkeyView, ErrorView>(k)
            &&& k != s.authkey->0 ==> stored_key(with_key(s, key_reply(status, body))) != Ok::<
                AuthkeyView,
                ErrorView,
            >(s.authkey->0)
        },
{
}

/// A revocation that the hypervisor confirms clears the stored key; one that
/// fails leaves the session as it was.
pub proof fn lemma_deauthenticate_clears_only_on_success(
    s: SessionView,
    status: u16,
    body: Result<Json, Seq<char>>,
)
    ensures
        status == STATUS_OK ==> stored_key(revoked(s, status_reply(status, body))) == Err::<
            AuthkeyView,
            ErrorView,
        >(not_authenticated()),
        status != STATUS_OK ==> revoked(s, status_reply(status, body)) == s,
{
}

} // verus!
