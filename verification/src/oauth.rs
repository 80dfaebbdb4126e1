//! The credential manager.
//!
//! A manager owns one spoofed device identity, builds the token request for
//! the fixed endpoint, applies the server's response to its state, and keeps
//! the header set that authenticated outbound requests attach verbatim.  The
//! exchange is all-or-nothing: a failed exchange leaves every field exactly
//! as it was, so readers keep using the last good token.

use crate::device::{device_wf, Device};
use crate::headers::HeaderMap;
use crate::trusted::{
    b64_encode, base64_of, json_get_str, json_get_u64, json_str_field, json_u64_field,
};
use vstd::prelude::*;
use vstd::string::StringExecFns;

verus! {

/// Why a token exchange failed.
#[derive(Clone, Copy, Debug, PartialEq, Eq, Structural)]
pub enum AuthError {
    /// The request could not be delivered or the response could not be read.
    TransportError,
    /// The response body is not valid JSON or lacks a required field.
    MalformedResponse,
}

/// The fixed token endpoint URL.
pub open spec fn spec_token_url() -> Seq<char> {
    "https://accounts.reddit.com"@ + "/api/access_token"@
}

/// The fixed authentication host.
pub fn auth_endpoint() -> (r: &'static str)
    ensures
        r@ == "https://accounts.reddit.com"@,
{
    "https://accounts.reddit.com"
}

/// The fixed JSON body of every token request.
pub open spec fn spec_login_body() -> Seq<char> {
    "{\"scopes\":[\"*\",\"email\"]}"@
}

/// Whether an HTTP status counts as a delivered, successful response.
pub open spec fn spec_status_ok(status: u16) -> bool {
    200 <= status < 300
}

/// The header set after storing the optional session-identifying response
/// headers, each only when the server sent it.
pub open spec fn with_session_headers(
    m: Map<Seq<char>, Seq<char>>,
    loid: Option<Seq<char>>,
    session: Option<Seq<char>>,
) -> Map<Seq<char>, Seq<char>> {
    let m1 = match loid {
        Some(l) => m.insert("x-reddit-loid"@, l),
        None => m,
    };
    match session {
        Some(sv) => m1.insert("x-reddit-session"@, sv),
        None => m1,
    }
}

/// An outbound token request: a POST to `url` with `headers` and JSON `body`.
pub struct TokenRequest {
    pub url: String,
    pub headers: HeaderMap,
    pub body: String,
}

/// What came back from the token endpoint, as plain values: the HTTP status,
/// the two optional session-identifying headers, and the raw body bytes.
pub struct TokenResponse {
    pub status: u16,
    pub loid: Option<String>,
    pub session: Option<String>,
    pub body: Vec<u8>,
}

/// The spoofed-client credential manager.
pub struct Oauth {
    pub initial_headers: HeaderMap,
    pub headers_map: HeaderMap,
    pub token: String,
    pub expires_in: u64,
    pub device: Device,
}

impl Oauth {
    /// Both header sets are dictionaries and the identity is well formed.
    pub open spec fn wf(&self) -> bool {
        &&& self.initial_headers.wf()
        &&& self.headers_map.wf()
        &&& device_wf(self.device)
    }

    /// Creates a manager with a freshly generated identity and no token: the
    /// persistent headers become the current header set, the token is empty
    /// and the expiry zero.  No network exchange happens here.
    pub fn default() -> (r: Oauth)
        ensures
            r.wf(),
            r.token@ == Seq::<char>::empty(),
            r.expires_in == 0,
            r.headers_map@ == r.device.headers@,
            r.initial_headers@ == r.device.initial_headers@,
    {
        let device = Device::random();
        let headers_map = device.headers.duplicate();
        let initial_headers = device.initial_headers.duplicate();
        Oauth { initial_headers, headers_map, token: String::new(), expires_in: 0, device }
    }

    /// Builds the token request: the identity's initial headers plus the
    /// Basic credential computed from `"<client id>:"` (empty password) in
    /// standard base64.
    pub fn login_request(&self) -> (r: TokenRequest)
        requires
            self.wf(),
        ensures
            r.url@ == spec_token_url(),
            r.body@ == spec_login_body(),
            r.headers.wf(),
            r.headers@ == self.initial_headers@.insert(
                "Authorization"@,
                "Basic "@ + base64_of(self.device.oauth_id@ + ":"@),
            ),
    {
        let url = String::from_str(auth_endpoint()).concat("/api/access_token");
        let basic = b64_encode(self.device.oauth_id.clone().concat(":").as_str());
        let auth_value = String::from_str("Basic ").concat(basic.as_str());
        let mut headers = self.initial_headers.duplicate();
        headers.insert(String::from_str("Authorization"), auth_value);
        let body = String::from_str("{\"scopes\":[\"*\",\"email\"]}");
        TokenRequest { url, headers, body }
    }

    /// Applies one token-exchange response.
    ///
    /// On a non-success status the exchange is a transport failure; on a
    /// success status whose body lacks a string `access_token` or an
    /// unsigned-integer `expires_in` it is a malformed response.  On any
    /// failure the manager is left exactly as it was.  On success the token
    /// and expiry are replaced together, the optional session headers are
    /// stored, and the `Authorization` header becomes `"Bearer "` followed by
    /// the new token.
    pub fn login(&mut self, resp: &TokenResponse) -> (r: Result<(), AuthError>)
        requires
            old(self).wf(),
        ensures
            final(self).wf(),
            r is Err ==> *final(self) == *old(self),
            !spec_status_ok(resp.status) ==> r == Err::<(), AuthError>(AuthError::TransportError),
            spec_status_ok(resp.status) && (json_str_field(resp.body@, "access_token"@) is None
                || json_u64_field(resp.body@, "expires_in"@) is None) ==> r == Err::<(), AuthError>(
                AuthError::MalformedResponse,
            ),
            spec_status_ok(resp.status) && json_str_field(resp.body@, "access_token"@) is Some
                && json_u64_field(resp.body@, "expires_in"@) is Some ==> r is Ok,
            r is Ok ==> {
                &&& final(self).token@ == json_str_field(resp.body@, "access_token"@)->0
                &&& final(self).expires_in == json_u64_field(resp.body@, "expires_in"@)->0
                &&& final(self).device == old(self).device
                &&& final(self).initial_headers == old(self).initial_headers
                &&& final(self).headers_map@ == with_session_headers(
                    old(self).headers_map@,
                    resp.loid.deep_view(),
                    resp.session.deep_view(),
                ).insert("Authorization"@, "Bearer "@ + final(self).token@)
                &&& final(self).headers_map@.contains_key("Authorization"@)
                &&& final(self).headers_map@["Authorization"@] == "Bearer "@ + final(self).token@
                &&& (json_str_field(resp.body@, "access_token"@)->0.len() > 0
                    ==> final(self).token@.len() > 0)
                &&& (json_u64_field(resp.body@, "expires_in"@)->0 > 0 ==> final(self).expires_in
                    > 0)
            },
    {
        if !(resp.status >= 200 && resp.status < 300) {
            return Err(AuthError::TransportError);
        }
        let tok = json_get_str(resp.body.as_slice(), "access_token");
        let exp = json_get_u64(resp.body.as_slice(), "expires_in");
        match (tok, exp) {
            (Some(token), Some(expires_in)) => {
                match &resp.loid {
                    Some(l) => {
                        self.headers_map.insert(String::from_str("x-reddit-loid"), l.clone());
                    },
                    None => {},
                }
                match &resp.session {
                    Some(sv) => {
                        self.headers_map.insert(String::from_str("x-reddit-session"), sv.clone());
                    },
                    None => {},
                }
                let bearer = String::from_str("Bearer ").concat(token.as_str());
                self.headers_map.insert(String::from_str("Authorization"), bearer);
                self.token = token;
                self.expires_in = expires_in;
                Ok(())
            },
            _ => Err(AuthError::MalformedResponse),
        }
    }

    /// Applies a refresh exchange.  Upstream re-authentication is the refresh
    /// mechanism, so this is the same exchange as `login` with the same
    /// identity, and the same contract: on success the token and expiry are
    /// replaced together with newly returned values, on failure every field
    /// is left unchanged - never partially overwritten.
    pub fn refresh(&mut self, resp: &TokenResponse) -> (r: Result<(), AuthError>)
        requires
            old(self).wf(),
        ensures
            final(self).wf(),
            r is Err ==> *final(self) == *old(self),
            !spec_status_ok(resp.status) ==> r == Err::<(), AuthError>(AuthError::TransportError),
            spec_status_ok(resp.status) && (json_str_field(resp.body@, "access_token"@) is None
                || json_u64_field(resp.body@, "expires_in"@) is None) ==> r == Err::<(), AuthError>(
                AuthError::MalformedResponse,
            ),
            spec_status_ok(resp.status) && json_str_field(resp.body@, "access_token"@) is Some
                && json_u64_field(resp.body@, "expires_in"@) is Some ==> r is Ok,
            r is Ok ==> {
                &&& final(self).token@ == json_str_field(resp.body@, "access_token"@)->0
                &&& final(self).expires_in == json_u64_field(resp.body@, "expires_in"@)->0
                &&& final(self).device == old(self).device
                &&& final(self).initial_headers == old(self).initial_headers
                &&& final(self).headers_map@ == with_session_headers(
                    old(self).headers_map@,
                    resp.loid.deep_view(),
                    resp.session.deep_view(),
                ).insert("Authorization"@, "Bearer "@ + final(self).token@)
                &&& final(self).headers_map@.contains_key("Authorization"@)
                &&& final(self).headers_map@["Authorization"@] == "Bearer "@ + final(self).token@
            },
    {
        self.login(resp)
    }
}

} // verus!
