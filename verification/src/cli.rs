use vstd::prelude::*;

verus! {

/// Everything one invocation is asked to do, as plain values.  The flag
/// grammar that fills it in lives outside the library; the mutual
/// exclusivity of the flag groups is expressed by [`Cli::wf`].
#[derive(Debug, Clone)]
pub struct Cli {
    /// The URL to request.
    pub url: String,
    pub method: Method,
    /// Headers to add, each as `name=value`.
    pub headers: Vec<String>,
    /// Cookies to add, one raw cookie string each.
    pub cookies: Vec<String>,
    /// Query parameters to append to the URL, each as `key=value`.
    pub query_params: Vec<String>,
    /// Do not follow redirects.
    pub no_follow_redirects: bool,
    /// Maximum number of redirects to follow.
    pub max_redirects: usize,
    /// Print response headers.
    pub print_headers: bool,
    pub auth_method: AuthMethod,
    pub body_source: BodySource,
    /// The body is JSON: implies the `application/json` content type and
    /// denies the request if a body fragment is syntactically malformed.
    pub json: bool,
    /// The body is URL encoded: implies the
    /// `application/x-www-form-urlencoded` content type, and a `&` is
    /// inserted before each body fragment.
    pub url_encoded_body: bool,
}

impl Cli {
    /// The construction invariant: each mutually exclusive flag group
    /// holds at most one choice.
    pub open spec fn wf(self) -> bool {
        &&& self.auth_method.wf()
        &&& self.body_source.wf()
        &&& !(self.json && self.url_encoded_body)
    }
}

/// How the `Authorization` header is chosen: a shorthand value used
/// verbatim, or basic authentication from `user[:password]`.  At most one
/// is set.
#[derive(Debug, Clone)]
pub struct AuthMethod {
    /// Shorthand notation: the full header value.
    pub auth: Option<String>,
    /// HTTP basic authentication in the format `username:password`; when
    /// the password is omitted it is asked for interactively.
    pub user: Option<String>,
}

impl AuthMethod {
    pub open spec fn wf(self) -> bool {
        !(self.auth is Some && self.user is Some)
    }
}

/// Where the request body comes from: inline text, a file (`-` for
/// standard input), or multipart form fields.  At most one is set.
#[derive(Debug, Clone)]
pub struct BodySource {
    /// Inline body contents.
    pub string: Option<String>,
    /// Read body contents from this file path; `-` means standard input.
    pub path: Option<String>,
    /// Multipart form fields, each as `name=value`.
    pub form_fields: Option<Vec<String>>,
}

impl BodySource {
    pub open spec fn wf(self) -> bool {
        &&& !(self.string is Some && self.path is Some)
        &&& !(self.string is Some && self.form_fields is Some)
        &&& !(self.path is Some && self.form_fields is Some)
    }
}

/// The HTTP verbs a request can be sent with.
#[derive(Debug, Copy, Clone, PartialEq, Eq, Structural)]
pub enum Method {
    GET,
    POST,
    PUT,
    DELETE,
    HEAD,
    OPTIONS,
    PATCH,
    TRACE,
    CONNECT,
}

impl Method {
    /// The lower-case name of the verb, as it is shown to the user.
    pub open spec fn spec_name(self) -> Seq<char> {
        match self {
            Method::GET => "get"@,
            Method::POST => "post"@,
            Method::PUT => "put"@,
            Method::DELETE => "delete"@,
            Method::HEAD => "head"@,
            Method::OPTIONS => "options"@,
            Method::PATCH => "patch"@,
            Method::TRACE => "trace"@,
            Method::CONNECT => "connect"@,
        }
    }

    pub fn name(&self) -> (r: &'static str)
        ensures
            r@ == self.spec_name(),
    {
        match self {
            Method::GET => "get",
            Method::POST => "post",
            Method::PUT => "put",
            Method::DELETE => "delete",
            Method::HEAD => "head",
            Method::OPTIONS => "options",
            Method::PATCH => "patch",
            Method::TRACE => "trace",
            Method::CONNECT => "connect",
        }
    }
}

} // verus!
