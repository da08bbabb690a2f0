//! Connection parameters and the description of an outgoing HTTP request.
//!
//! The library never performs I/O itself: it builds an [`HttpRequest`]
//! description (target URL plus optional `Basic` credentials) and hands it to
//! the caller, which performs the transfer and reports the outcome back to
//! the fetch state machine.

use vstd::prelude::*;
use crate::text::push_char;

verus! {

use vstd::string::StringExecFns;

/// Connection parameters shared by all fetches: endpoint base plus optional
/// HTTP Basic credentials.  Considered initialized only when the endpoint is
/// non-empty.
#[derive(Clone)]
pub struct RequestConfig {
    pub endpoint: String,
    pub user_name: String,
    pub password: String,
}

/// A fully assembled request the caller is asked to perform: the target URL
/// and, when both credentials are set, the `Authorization` header value.
pub struct HttpRequest {
    pub url: String,
    pub auth_header: Option<String>,
}

/// What `Credentials::new(user, password).as_http_header()` returns: the RFC
/// 7617 `Basic` header value, a function of the two strings alone.
pub uninterp spec fn basic_auth_header_of(user: Seq<char>, password: Seq<char>) -> Seq<char>;

/// Relies on `http_auth_basic::Credentials`: `new` stores the two strings
/// unchanged and `as_http_header` base64-encodes `user:password` after the
/// `Basic ` scheme tag.
#[verifier::external_body]
fn basic_auth_header(user: &str, password: &str) -> (r: String)
    ensures
        r@ == basic_auth_header_of(user@, password@),
{
    http_auth_basic::Credentials::new(user, password).as_http_header()
}

impl RequestConfig {
    pub open spec fn is_initialized_spec(&self) -> bool {
        self.endpoint@.len() != 0
    }

    /// Whether the endpoint has been set; nothing may be fetched before then.
    pub fn is_initialized(&self) -> (r: bool)
        ensures
            r == self.is_initialized_spec(),
    {
        if self.endpoint.as_str().is_empty() {
            return false;
        }
        true
    }

    /// Whether requests carry credentials: both the user name and the
    /// password must be non-empty.
    pub open spec fn uses_auth(&self) -> bool {
        self.user_name@.len() > 0 && self.password@.len() > 0
    }

    /// The target URL of a request for `path`: `endpoint/path`.
    pub open spec fn request_url_of(&self, path: Seq<char>) -> Seq<char> {
        self.endpoint@ + seq!['/'] + path
    }

    /// Assembles the request for `path` against this configuration.
    pub fn build_request(&self, path: &str) -> (r: HttpRequest)
        ensures
            r.url@ == self.request_url_of(path@),
            self.uses_auth() ==> (r.auth_header matches Some(h) && h@ == basic_auth_header_of(
                self.user_name@,
                self.password@,
            )),
            !self.uses_auth() ==> r.auth_header is None,
    {
        let mut url = self.endpoint.clone();
        push_char(&mut url, '/');
        url.append(path);
        proof {
            assert(self.endpoint@.push('/') + path@ =~= self.request_url_of(path@));
        }
        let auth_header = if !self.user_name.as_str().is_empty()
            && !self.password.as_str().is_empty() {
            Some(basic_auth_header(self.user_name.as_str(), self.password.as_str()))
        } else {
            None
        };
        HttpRequest { url, auth_header }
    }
}

impl Default for RequestConfig {
    /// An unconfigured connection: all three fields empty.
    fn default() -> (r: Self)
        ensures
            r.endpoint@ == Seq::<char>::empty(),
            r.user_name@ == Seq::<char>::empty(),
            r.password@ == Seq::<char>::empty(),
    {
        RequestConfig { endpoint: String::new(), user_name: String::new(), password: String::new() }
    }
}

} // verus!
