use vstd::prelude::*;
use vstd::string::StringExecFns;

use crate::auth;
use crate::body;
use crate::body::BodyContent;
use crate::body::BodyFlags;
use crate::cli::AuthMethod;
use crate::cli::Cli;
use crate::cli::Method;
use crate::error::Error;
use crate::query;
use crate::text;
use crate::text::eq_split;

verus! {

/// The request body as handed to the transport.
#[derive(Debug, PartialEq, Eq)]
pub enum RequestBody {
    Empty,
    Bytes(Vec<u8>),
    Multipart(Vec<(String, String)>),
}

/// One fully assembled outgoing request: everything the transport needs,
/// as plain values plus the assembled URL.
#[derive(Debug)]
pub struct BuiltRequest {
    pub method: Method,
    pub url: url::Url,
    /// All request headers in application order: the header flags split at
    /// their first `=`, then the authorization header if any, then the
    /// implied content type if any.
    pub headers: Vec<(String, String)>,
    /// Raw cookie strings, applied against the URL by the transport's
    /// cookie jar.
    pub cookies: Vec<String>,
    pub body: RequestBody,
    pub follow_redirects: bool,
    pub max_redirects: usize,
}

/// Whether every entry of `list` holds a `=`.
pub open spec fn spec_all_split(list: Seq<String>) -> bool {
    forall|i: int| 0 <= i < list.len() ==> #[trigger] eq_split(list[i]@) is Some
}

/// Whether `i` points at the first entry of `list` without a `=`.
pub open spec fn spec_first_unsplit(list: Seq<String>, i: int) -> bool {
    &&& 0 <= i < list.len()
    &&& eq_split(list[i]@) is None
    &&& forall|j: int| 0 <= j < i ==> #[trigger] eq_split(list[j]@) is Some
}

/// Whether every body fragment is valid JSON-tolerant text.
pub open spec fn spec_all_valid_json(contents: Seq<BodyContent>) -> bool {
    forall|i: int| 0 <= i < contents.len() ==> #[trigger] contents[i].spec_is_valid_json()
}

/// Whether `i` points at the first body fragment that is not valid
/// JSON-tolerant text.
pub open spec fn spec_first_invalid_json(contents: Seq<BodyContent>, i: int) -> bool {
    &&& 0 <= i < contents.len()
    &&& !contents[i].spec_is_valid_json()
    &&& forall|j: int| 0 <= j < i ==> #[trigger] contents[j].spec_is_valid_json()
}

/// The view of an optional borrowed string.
pub open spec fn spec_opt_str(o: Option<&String>) -> Option<Seq<char>> {
    match o {
        Some(s) => Some(s@),
        None => None,
    }
}

/// The body-kind flags the command line implies.  Multipart form fields
/// override the JSON and URL-encoded switches: those do not apply to a
/// multipart body.
pub open spec fn spec_flags(args: Cli) -> BodyFlags {
    if args.body_source.form_fields is Some {
        BodyFlags { is_json: false, is_url_encoded: false, is_multipart: true }
    } else {
        BodyFlags { is_json: args.json, is_url_encoded: args.url_encoded_body, is_multipart: false }
    }
}

/// The `Authorization` header value the flags resolve to, given the
/// password as obtained (`None` where resolution would fail instead).
pub open spec fn spec_auth_value(auth: AuthMethod, password: Option<Seq<char>>) -> Option<
    Seq<char>,
> {
    match auth.auth {
        Some(a) => Some(a@),
        None => match auth.user {
            Some(u) => {
                if u@.contains(':') {
                    Some(auth::spec_basic_header(u@))
                } else {
                    match password {
                        Some(p) => Some(auth::spec_basic_header(u@ + ":"@ + p)),
                        None => None,
                    }
                }
            },
            None => None,
        },
    }
}

/// Whether basic authentication was chosen with a user lacking a colon,
/// so that a password must have been obtained.
pub open spec fn spec_needs_password(auth: AuthMethod) -> bool {
    auth.auth is None && match auth.user {
        Some(u) => !u@.contains(':'),
        None => false,
    }
}

/// Whether the command line — with the password as obtained and the body
/// fragments as resolved — assembles into a request.
pub open spec fn spec_request_ok(
    args: Cli,
    password: Option<Seq<char>>,
    contents: Seq<BodyContent>,
) -> bool {
    &&& query::url_parsed(args.url@) is Some
    &&& spec_all_split(args.query_params@)
    &&& spec_all_split(args.headers@)
    &&& (spec_needs_password(args.auth_method) ==> password is Some)
    &&& match args.body_source.form_fields {
        Some(fields) => spec_all_split(fields@),
        None => args.json ==> spec_all_valid_json(contents),
    }
}

/// The error the assembly stops at, in pipeline order: the URL first, then
/// the query parameters, the headers, the authentication, and the body.
pub open spec fn spec_request_error(
    args: Cli,
    password: Option<Seq<char>>,
    contents: Seq<BodyContent>,
    e: Error,
) -> bool {
    if query::url_parsed(args.url@) is None {
        e == Error::InvalidUrl
    } else if !spec_all_split(args.query_params@) {
        exists|i: int| #[trigger]
            spec_first_unsplit(args.query_params@, i) && e == Error::InvalidQueryParam(
                args.query_params@[i],
            )
    } else if !spec_all_split(args.headers@) {
        exists|i: int| #[trigger]
            spec_first_unsplit(args.headers@, i) && e == Error::InvalidHeader(args.headers@[i])
    } else if spec_needs_password(args.auth_method) && password is None {
        e == Error::IoError
    } else {
        match args.body_source.form_fields {
            Some(fields) => exists|i: int| #[trigger]
                spec_first_unsplit(fields@, i) && e == Error::InvalidFormField(fields@[i]),
            None => args.json && exists|i: int| #[trigger]
                spec_first_invalid_json(contents, i) && (if !contents[i].spec_is_text() {
                    e == Error::Utf8DecodeError
                } else {
                    e is InvalidJson
                }),
        }
    }
}

/// The header list of the built request: the `name=value` header flags
/// split at their first `=`, in order, then the authorization header if
/// any, then the content type the body kind implies, if any.
pub open spec fn spec_built_headers(args: Cli, password: Option<Seq<char>>) -> Seq<
    (Seq<char>, Seq<char>),
> {
    query::spec_split_pairs(args.headers.deep_view()) + (match spec_auth_value(
        args.auth_method,
        password,
    ) {
        Some(v) => seq![("authorization"@, v)],
        None => Seq::empty(),
    }) + (if args.body_source.form_fields is Some {
        Seq::empty()
    } else if args.json {
        seq![("content-type"@, "application/json"@)]
    } else if args.url_encoded_body {
        seq![("content-type"@, "application/x-www-form-urlencoded"@)]
    } else {
        Seq::empty()
    })
}

/// Splits each `name=value` header flag at its first `=`, in order.  Fails
/// with `InvalidHeader` naming the first flag without `=`.
pub fn parse_headers(headers: &Vec<String>) -> (r: Result<Vec<(String, String)>, Error>)
    ensures
        r is Ok <==> spec_all_split(headers@),
        r matches Ok(pairs) ==> pairs@.len() == headers@.len() && forall|i: int|
            0 <= i < headers@.len() ==> (#[trigger] pairs@[i].0@, pairs@[i].1@) == eq_split(
                headers@[i]@,
            )->Some_0,
        r matches Err(e) ==> exists|i: int| #[trigger]
            spec_first_unsplit(headers@, i) && e == Error::InvalidHeader(headers@[i]),
{
    let mut pairs: Vec<(String, String)> = Vec::new();
    let mut i: usize = 0;
    while i < headers.len()
        invariant
            0 <= i <= headers@.len(),
            pairs@.len() == i,
            forall|j: int| 0 <= j < i ==> #[trigger] eq_split(headers@[j]@) is Some,
            forall|j: int|
                0 <= j < i ==> (#[trigger] pairs@[j].0@, pairs@[j].1@) == eq_split(
                    headers@[j]@,
                )->Some_0,
        decreases headers@.len() - i,
    {
        match text::split_key_value(headers[i].as_str()) {
            Some(kv) => {
                pairs.push(kv);
            },
            None => {
                proof {
                    assert(spec_first_unsplit(headers@, i as int));
                }
                return Err(Error::InvalidHeader(headers[i].clone()));
            },
        }
        i = i + 1;
    }
    Ok(pairs)
}

/// Composes the outgoing request.  The URL is parsed and the query
/// parameters merged into it; then, in this order, the header flags, the
/// authorization header and the implied content type are applied, the
/// cookies attached, and the body assembled from the resolved fragments —
/// multipart form fields, when given, instead.  The first error in that
/// order aborts the assembly.
///
/// `password` is the interactively obtained password, `None` when no
/// prompt was made or it failed; `contents` are the body fragments with
/// files and standard input already read.
pub fn build_request(args: &Cli, password: Option<&String>, contents: &Vec<BodyContent>) -> (r:
    Result<BuiltRequest, Error>)
    requires
        args.wf(),
    ensures
        r is Ok <==> spec_request_ok(*args, spec_opt_str(password), contents@),
        r matches Ok(req) ==> {
            &&& req.method == args.method
            &&& query::url_base(req.url) == query::url_parsed(args.url@)->Some_0.0
            &&& query::url_query_pairs(req.url) == query::url_parsed(args.url@)->Some_0.1
                + query::spec_split_pairs(args.query_params.deep_view())
            &&& req.headers.deep_view() == spec_built_headers(*args, spec_opt_str(password))
            &&& req.cookies@ == args.cookies@
            &&& req.follow_redirects == !args.no_follow_redirects
            &&& req.max_redirects == args.max_redirects
            &&& match args.body_source.form_fields {
                Some(fields) => req.body matches RequestBody::Multipart(pairs) && pairs@.len()
                    == fields@.len() && forall|i: int|
                    0 <= i < fields@.len() ==> (#[trigger] pairs@[i].0@, pairs@[i].1@) == eq_split(
                        fields@[i]@,
                    )->Some_0,
                None => {
                    if contents@.len() == 0 {
                        req.body is Empty
                    } else {
                        req.body matches RequestBody::Bytes(b) && b@ == body::spec_assembled_from(
                            contents@,
                            0,
                            args.url_encoded_body,
                        )
                    }
                },
            }
        },
        r matches Err(e) ==> spec_request_error(*args, spec_opt_str(password), contents@, e),
{
    let url = match query::assemble_url(args.url.as_str(), &args.query_params) {
        Ok(u) => u,
        Err(e) => {
            proof {
                if query::url_parsed(args.url@) is Some {
                    let i = choose|i: int|
                        {
                            &&& 0 <= i < args.query_params@.len()
                            &&& #[trigger] eq_split(args.query_params@[i]@) is None
                            &&& forall|j: int|
                                0 <= j < i ==> #[trigger] eq_split(args.query_params@[j]@) is Some
                            &&& e == Error::InvalidQueryParam(args.query_params@[i])
                        };
                    assert(spec_first_unsplit(args.query_params@, i));
                    assert(!spec_all_split(args.query_params@));
                }
            }
            return Err(e);
        },
    };
    let mut headers = match parse_headers(&args.headers) {
        Ok(h) => h,
        Err(e) => {
            proof {
                let i = choose|i: int| #[trigger]
                    spec_first_unsplit(args.headers@, i) && e == Error::InvalidHeader(
                        args.headers@[i],
                    );
                assert(!spec_all_split(args.headers@));
            }
            return Err(e);
        },
    };
    let auth_value = match auth::resolve_auth(&args.auth_method, password) {
        Ok(v) => v,
        Err(e) => {
            return Err(e);
        },
    };
    if let Some(v) = auth_value {
        headers.push((String::from_str("authorization"), v));
    }
    let flags = if args.body_source.form_fields.is_some() {
        BodyFlags { is_json: false, is_url_encoded: false, is_multipart: true }
    } else {
        BodyFlags { is_json: args.json, is_url_encoded: args.url_encoded_body, is_multipart: false }
    };
    if let Some(ct) = body::content_type_for(&flags) {
        headers.push((String::from_str("content-type"), String::from_str(ct)));
    }
    let request_body = match &args.body_source.form_fields {
        Some(fields) => {
            match body::parse_form_fields(fields) {
                Ok(pairs) => RequestBody::Multipart(pairs),
                Err(e) => {
                    proof {
                        let i = choose|i: int|
                            {
                                &&& 0 <= i < fields@.len()
                                &&& #[trigger] eq_split(fields@[i]@) is None
                                &&& forall|j: int|
                                    0 <= j < i ==> #[trigger] eq_split(fields@[j]@) is Some
                                &&& e == Error::InvalidFormField(fields@[i])
                            };
                        assert(spec_first_unsplit(fields@, i));
                    }
                    return Err(e);
                },
            }
        },
        None => {
            match body::assemble_body(contents, &flags) {
                Ok(bytes) => {
                    if contents.len() == 0 {
                        RequestBody::Empty
                    } else {
                        RequestBody::Bytes(bytes)
                    }
                },
                Err(e) => {
                    proof {
                        let i = choose|i: int|
                            {
                                &&& 0 <= i < contents@.len()
                                &&& !(#[trigger] contents@[i].spec_is_valid_json())
                                &&& forall|j: int|
                                    0 <= j < i ==> #[trigger] contents@[j].spec_is_valid_json()
                                &&& if !contents@[i].spec_is_text() {
                                    e == Error::Utf8DecodeError
                                } else {
                                    e is InvalidJson
                                }
                            };
                        assert(spec_first_invalid_json(contents@, i));
                    }
                    return Err(e);
                },
            }
        },
    };
    Ok(
        BuiltRequest {
            method: args.method,
            url,
            headers,
            cookies: args.cookies.clone(),
            body: request_body,
            follow_redirects: !args.no_follow_redirects,
            max_redirects: args.max_redirects,
        },
    )
}

} // verus!
