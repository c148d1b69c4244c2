use vstd::prelude::*;
use vstd::string::StringExecFns;
use crate::models::{Session, SurrDB};
use base64::Engine;

verus! {

/// Standard base64 of the UTF-8 encoding of `s`. The digits themselves are
/// left to the base64 crate, which computes them from the input alone.
pub uninterp spec fn base64_of(s: Seq<char>) -> Seq<char>;

/// Relies on base64's `Engine::encode` with the standard (padded) engine:
/// the result depends on the input bytes alone.
#[verifier::external_body]
fn encode_base64(s: &str) -> (r: String)
    ensures
        r@ == base64_of(s@),
{
    base64::engine::general_purpose::STANDARD.encode(s)
}

/// Mathematical view of one prepared request.
pub ghost struct RequestModel {
    pub url: Seq<char>,
    pub auth: Seq<char>,
    pub ns: Seq<char>,
    pub db: Seq<char>,
    pub body: Seq<char>,
    pub timeout: u64,
    pub pretty: bool,
}

/// One HTTP request against the remote database, ready for a transport layer
/// to send: POST `url` with body `body`, Basic authentication `auth`, the
/// namespace and database headers, and a hard timeout in seconds.
pub struct RequestSpec {
    pub url: String,
    pub auth: String,
    pub ns: String,
    pub db: String,
    pub body: String,
    pub timeout: u64,
    pub pretty: bool,
}

impl View for RequestSpec {
    type V = RequestModel;

    open spec fn view(&self) -> RequestModel {
        RequestModel {
            url: self.url@,
            auth: self.auth@,
            ns: self.ns@,
            db: self.db@,
            body: self.body@,
            timeout: self.timeout,
            pretty: self.pretty,
        }
    }
}

/// The target URL: the transport schema, the host, and the fixed path.
pub open spec fn url_of(s: Session) -> Seq<char> {
    s.schema + "://"@ + s.host + "/sql"@
}

/// The Basic-authentication value: base64 of `user:password`.
pub open spec fn auth_of(s: Session) -> Seq<char> {
    base64_of(s.user + ":"@ + s.pass)
}

/// The one request a session sends for the query text `q`.
pub open spec fn request_model(s: Session, q: Seq<char>) -> RequestModel {
    RequestModel {
        url: url_of(s),
        auth: auth_of(s),
        ns: s.namespace,
        db: s.database,
        body: q,
        timeout: s.timeout,
        pretty: s.pretty,
    }
}

impl SurrDB {
    /// The Basic-authentication value for the current user and password.
    pub fn basic_auth(&self) -> (r: String)
        ensures
            r@ == auth_of(self@),
    {
        let mut a = self.user.clone();
        a.append(":");
        a.append(self.pass.as_str());
        encode_base64(a.as_str())
    }

    /// Build the request that sends `query` verbatim to the remote database.
    pub fn requester(&self, query: &str) -> (r: RequestSpec)
        ensures
            r@ == request_model(self@, query@),
    {
        let mut url = self.schema.clone();
        url.append("://");
        url.append(self.host.as_str());
        url.append("/sql");
        RequestSpec {
            url,
            auth: self.basic_auth(),
            ns: self.namespace.clone(),
            db: self.database.clone(),
            body: query.to_owned(),
            timeout: self.timeout,
            pretty: self.pretty,
        }
    }

    /// Record `query` as the last executed query and build its request. The
    /// rest of the session is untouched.
    pub fn contact_surr(&mut self, query: &str) -> (r: RequestSpec)
        ensures
            final(self)@ == (Session { query: query@, ..old(self)@ }),
            r@ == request_model(old(self)@, query@),
    {
        self.query = query.to_owned();
        self.requester(query)
    }

    /// Build the fixed diagnostic request run once before the interactive
    /// loop starts.
    pub fn test_connection(&self) -> (r: RequestSpec)
        ensures
            r@ == request_model(self@, "INFO FOR DB;"@),
    {
        self.requester("INFO FOR DB;")
    }
}

/// What the diagnostic request's status code means.
#[derive(Clone, Copy, PartialEq, Eq, Structural, Debug)]
pub enum ConnCheck {
    /// The remote database answered normally.
    Healthy,
    /// The remote database rejected the credentials.
    AuthProblem,
    /// Any other answer.
    Trouble,
}

/// Classify the status code of the diagnostic request: 200 is healthy, 403
/// is an authentication problem, anything else generic trouble.
pub fn classify_status(status: u16) -> (r: ConnCheck)
    ensures
        (r is Healthy) <==> status == 200,
        (r is AuthProblem) <==> status == 403,
{
    if status == 200 {
        ConnCheck::Healthy
    } else if status == 403 {
        ConnCheck::AuthProblem
    } else {
        ConnCheck::Trouble
    }
}

/// How a response body is to be presented.
pub enum RenderAction {
    /// Pretty-print the body as JSON.
    Pretty(String),
    /// Print the body as it is.
    Raw(String),
}

impl SurrDB {
    /// How to present a response: the body is handed on exactly as received,
    /// whatever the status code; only the form depends on the pretty-print
    /// flag. A non-2xx status is data, never a failure.
    pub fn response_action(&self, body: String, _status: u16) -> (r: RenderAction)
        ensures
            self@.pretty ==> (r matches RenderAction::Pretty(b) && b@ == body@),
            !self@.pretty ==> (r matches RenderAction::Raw(b) && b@ == body@),
    {
        if self.pretty {
            RenderAction::Pretty(body)
        } else {
            RenderAction::Raw(body)
        }
    }
}

} // verus!
