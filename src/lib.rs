//! Client for a website-hosting service's REST API.
//!
//! Every operation is described here as a plain [`request::Request`] value
//! whose shape is fixed by the operation's contract; a transport sends it and
//! hands the response status back to [`request::check_status`].
use vstd::prelude::*;

pub mod big;
pub mod encode;
pub mod file;
pub mod path;
pub mod request;
pub mod site;

pub use big::{AfterUpload, BigFile};
pub use file::File;
pub use request::{Body, ApiError, Method, Part, Request};
pub use site::{Site, Timestamp};

use request::{auth_get, bare_post, form_post, join_url, multipart_post, parts_view, plain_get};

verus! {

/// State of a client that holds no credential.
pub struct Unauthenticated;

/// State of a client that holds an API credential.
pub struct Authenticated {
    token: String,
}

/// A client of the API, in one of the two states `Unauthenticated` or
/// `Authenticated`. Only `Client<Authenticated>` offers the operations that
/// need a credential, so they cannot be called without one.
pub struct Client<S> {
    base_url: String,
    user_agent: String,
    state: S,
}

impl Client<Unauthenticated> {
    /// A client of the service's API that identifies itself as `user_agent`.
    pub fn new(user_agent: &str) -> (r: Client<Unauthenticated>)
        ensures
            r.base() == "https://nekoweb.org/api"@,
            r.agent() == user_agent@,
    {
        Client {
            base_url: String::from_str("https://nekoweb.org/api"),
            user_agent: String::from_str(user_agent),
            state: Unauthenticated,
        }
    }

    /// Consumes the client and yields one that holds `token`; there is no way
    /// back.
    pub fn authenticate(self, token: String) -> (r: Client<Authenticated>)
        ensures
            r.base() == self.base(),
            r.agent() == self.agent(),
            r.token() == token@,
    {
        Client { state: Authenticated { token }, base_url: self.base_url, user_agent: self.user_agent }
    }
}

impl<S> Client<S> {
    /// The API root that request URLs start with.
    pub closed spec fn base(&self) -> Seq<char> {
        self.base_url@
    }

    /// The user agent the client identifies itself as.
    pub closed spec fn agent(&self) -> Seq<char> {
        self.user_agent@
    }

    pub fn base_url(&self) -> (r: &str)
        ensures
            r@ == self.base(),
    {
        self.base_url.as_str()
    }

    pub fn user_agent(&self) -> (r: &str)
        ensures
            r@ == self.agent(),
    {
        self.user_agent.as_str()
    }

    /// A GET of `path` without a credential.
    pub fn get(&self, path: &str) -> (r: Request)
        ensures
            r@ == plain_get(self.base(), path@),
    {
        Request { method: Method::Get, url: join_url(&self.base_url, path), auth: None, body: Body::Empty }
    }
}

impl Client<Authenticated> {
    /// The credential this client sends.
    pub closed spec fn token(&self) -> Seq<char> {
        self.state.token@
    }

    fn credential(&self) -> (r: Option<String>)
        ensures
            r is Some && r->0@ == self.token(),
    {
        Some(self.state.token.clone())
    }

    /// A GET of `path` that carries the credential.
    pub fn get_auth(&self, path: &str) -> (r: Request)
        ensures
            r@ == auth_get(self.base(), self.token(), path@),
    {
        Request {
            method: Method::Get,
            url: join_url(&self.base_url, path),
            auth: self.credential(),
            body: Body::Empty,
        }
    }

    /// A POST of form `fields` to `path` that carries the credential.
    pub fn post(&self, path: &str, fields: Vec<(String, String)>) -> (r: Request)
        ensures
            r@ == form_post(self.base(), self.token(), path@, fields.deep_view()),
    {
        Request {
            method: Method::Post,
            url: join_url(&self.base_url, path),
            auth: self.credential(),
            body: Body::Form(fields),
        }
    }

    /// A POST without a body to `path` that carries the credential.
    pub fn post_bare(&self, path: &str) -> (r: Request)
        ensures
            r@ == bare_post(self.base(), self.token(), path@),
    {
        Request {
            method: Method::Post,
            url: join_url(&self.base_url, path),
            auth: self.credential(),
            body: Body::Empty,
        }
    }

    /// A POST of multipart `parts` to `path` that carries the credential.
    pub fn multipart(&self, path: &str, parts: Vec<Part>) -> (r: Request)
        ensures
            r@ == multipart_post(self.base(), self.token(), path@, parts_view(parts@)),
    {
        Request {
            method: Method::Post,
            url: join_url(&self.base_url, path),
            auth: self.credential(),
            body: Body::Multipart(parts),
        }
    }
}

} // verus!
