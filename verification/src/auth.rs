use vstd::prelude::*;
use vstd::string::StringExecFns;
use vstd::string::StringSliceAdditionalSpecFns;
use vstd::utf8::encode_utf8;

use base64::Engine;

use crate::cli::AuthMethod;
use crate::error::Error;
use crate::text;

verus! {

/// The standard (padded, not URL-safe) Base64 encoding of `bytes`, as the
/// `base64` crate computes it.
pub uninterp spec fn base64_std(bytes: Seq<u8>) -> Seq<char>;

/// Relies on base64's `Engine::encode` with the `STANDARD` engine: the
/// padded standard-alphabet Base64 encoding of the input, four output
/// characters for every three input bytes (the last group padded with `=`).
#[verifier::external_body]
fn base64_encode(bytes: &[u8]) -> (r: String)
    ensures
        r@ == base64_std(bytes@),
        r@.len() == 4 * ((bytes@.len() + 2) / 3),
{
    base64::prelude::BASE64_STANDARD.encode(bytes)
}

/// The value of the `Authorization` header computed for basic
/// authentication with the given `username:password` credentials.
pub open spec fn spec_basic_header(credentials: Seq<char>) -> Seq<char> {
    "Basic "@ + base64_std(encode_utf8(credentials))
}

/// `Basic ` followed by the Base64 encoding of the credentials' UTF-8
/// bytes, standard alphabet with padding.
pub fn basic_auth_header(credentials: &str) -> (r: String)
    ensures
        r@ == spec_basic_header(credentials@),
{
    let encoded = base64_encode(credentials.as_bytes());
    let mut r = String::from_str("Basic ");
    r.append(encoded.as_str());
    r
}

/// `user` and `password` joined with a colon.
pub fn join_credentials(user: &str, password: &str) -> (r: String)
    ensures
        r@ == user@ + ":"@ + password@,
{
    let mut s = String::from_str(user);
    s.append(":");
    s.append(password);
    s
}

/// Whether resolving basic authentication for `user` first needs a
/// password obtained interactively: exactly when `user` holds no colon.
pub fn user_needs_password(user: &str) -> (r: bool)
    ensures
        r == !user@.contains(':'),
{
    !text::str_contains_char(user, ':')
}

/// Computes the `Authorization` header value for the chosen
/// authentication, if any was chosen.
///
/// A shorthand value passes through unchanged.  A `user:password` argument
/// is encoded eagerly and needs no prompt.  A `user` argument without a
/// colon needs the interactively obtained `password`; when reading it
/// failed (`None`), the resolution fails with `IoError`.
pub fn resolve_auth(auth: &AuthMethod, password: Option<&String>) -> (r: Result<
    Option<String>,
    Error,
>)
    requires
        auth.wf(),
    ensures
        auth.auth matches Some(a) ==> r matches Ok(h) && h matches Some(v) && v@ == a@,
        auth.auth is None ==> match auth.user {
            None => r matches Ok(h) && h is None,
            Some(u) => {
                if u@.contains(':') {
                    r matches Ok(h) && h matches Some(v) && v@ == spec_basic_header(u@)
                } else {
                    match password {
                        Some(p) => r matches Ok(h) && h matches Some(v) && v@
                            == spec_basic_header(u@ + ":"@ + p@),
                        None => r matches Err(e) && e == Error::IoError,
                    }
                }
            },
        },
{
    if let Some(a) = &auth.auth {
        return Ok(Some(a.clone()));
    }
    if let Some(u) = &auth.user {
        if text::str_contains_char(u.as_str(), ':') {
            return Ok(Some(basic_auth_header(u.as_str())));
        }
        match password {
            Some(p) => {
                let creds = join_credentials(u.as_str(), p.as_str());
                return Ok(Some(basic_auth_header(creds.as_str())));
            },
            None => {
                return Err(Error::IoError);
            },
        }
    }
    Ok(None)
}

} // verus!
