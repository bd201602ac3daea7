use vstd::prelude::*;

use crate::error::Error;
use crate::text;
use crate::text::eq_split;

verus! {

/// Declares the url crate's `Url` so it can stand in signatures and
/// fields; its values stay opaque here.
#[verifier::external_type_specification]
#[verifier::external_body]
pub struct ExUrl(url::Url);

/// What `url::Url::parse` yields for `s`: `None` when `s` is not an
/// absolute URL, otherwise the fresh URL's base — everything but the query
/// — and the decoded query pairs it starts with.  Parsing is a function of
/// the input text alone.
pub uninterp spec fn url_parsed(s: Seq<char>) -> Option<
    (Seq<char>, Seq<(Seq<char>, Seq<char>)>),
>;

/// The URL apart from its query: scheme, authority, path and fragment, as
/// one text, without the query component and its `?` separator.
pub uninterp spec fn url_base(u: url::Url) -> Seq<char>;

/// The query component of `u`, decoded as `application/x-www-form-urlencoded`
/// `(key, value)` pairs in order, as `Url::query_pairs` yields them.
pub uninterp spec fn url_query_pairs(u: url::Url) -> Seq<(Seq<char>, Seq<char>)>;

/// Relies on url's `Url::parse`: it accepts exactly the absolute-URL
/// strings, deterministically, and the fresh URL carries the base and the
/// query pairs parsed from the input.
#[verifier::external_body]
pub fn parse_url(s: &str) -> (r: Result<url::Url, Error>)
    ensures
        r is Ok <==> url_parsed(s@) is Some,
        r matches Ok(u) ==> url_parsed(s@) == Some((url_base(u), url_query_pairs(u))),
        r matches Err(e) ==> e == Error::InvalidUrl,
{
    match url::Url::parse(s) {
        Ok(u) => Ok(u),
        Err(_) => Err(Error::InvalidUrl),
    }
}

/// Relies on url's `Url::query_pairs_mut` and form_urlencoded's
/// `Serializer::append_pair`: appending one percent-encoded pair extends
/// the decoded pair list by exactly that pair and rewrites only the query
/// component, so scheme, authority, path and fragment stay as they were.
#[verifier::external_body]
pub fn url_append_pair(u: &mut url::Url, key: &str, value: &str)
    ensures
        url_query_pairs(*final (u)) == url_query_pairs(*old(u)).push((key@, value@)),
        url_base(*final (u)) == url_base(*old(u)),
{
    u.query_pairs_mut().append_pair(key, value);
}

/// The `(key, value)` pairs denoted by a list of `key=value` strings, when
/// every entry holds a `=`.
pub open spec fn spec_split_pairs(params: Seq<Seq<char>>) -> Seq<(Seq<char>, Seq<char>)> {
    params.map_values(|p: Seq<char>| eq_split(p)->Some_0)
}

/// Splits each `key=value` parameter at its first `=` and appends the pair
/// to the URL's query, in the order given; duplicate keys are preserved,
/// and everything but the query is left as it was.  Fails with
/// `InvalidQueryParam` naming the first parameter without `=`.
pub fn add_query_params(url: &mut url::Url, params: &Vec<String>) -> (r: Result<(), Error>)
    ensures
        url_base(*final (url)) == url_base(*old(url)),
        r is Ok <==> (forall|i: int|
            0 <= i < params@.len() ==> #[trigger] eq_split(params@[i]@) is Some),
        r is Ok ==> url_query_pairs(*final (url)) == url_query_pairs(*old(url))
            + spec_split_pairs(params.deep_view()),
        r matches Err(e) ==> exists|i: int|
            {
                &&& 0 <= i < params@.len()
                &&& #[trigger] eq_split(params@[i]@) is None
                &&& forall|j: int| 0 <= j < i ==> #[trigger] eq_split(params@[j]@) is Some
                &&& e == Error::InvalidQueryParam(params@[i])
            },
{
    let ghost orig_pairs = url_query_pairs(*url);
    let ghost orig_base = url_base(*url);
    let mut i: usize = 0;
    while i < params.len()
        invariant
            0 <= i <= params@.len(),
            forall|j: int| 0 <= j < i ==> #[trigger] eq_split(params@[j]@) is Some,
            url_query_pairs(*url) == orig_pairs + spec_split_pairs(
                params.deep_view().take(i as int),
            ),
            url_base(*url) == orig_base,
            url_query_pairs(*old(url)) == orig_pairs,
            url_base(*old(url)) == orig_base,
        decreases params@.len() - i,
    {
        match text::split_key_value(params[i].as_str()) {
            Some(kv) => {
                url_append_pair(url, kv.0.as_str(), kv.1.as_str());
                proof {
                    assert(params.deep_view().take(i + 1) =~= params.deep_view().take(
                        i as int,
                    ).push(params@[i as int]@));
                    assert(spec_split_pairs(params.deep_view().take(i + 1)) =~= spec_split_pairs(
                        params.deep_view().take(i as int),
                    ).push((kv.0@, kv.1@)));
                    assert(orig_pairs + spec_split_pairs(params.deep_view().take(i + 1)) =~= (
                    orig_pairs + spec_split_pairs(params.deep_view().take(i as int))).push(
                        (kv.0@, kv.1@),
                    ));
                }
            },
            None => {
                return Err(Error::InvalidQueryParam(params[i].clone()));
            },
        }
        i = i + 1;
    }
    proof {
        assert(params.deep_view().take(params@.len() as int) =~= params.deep_view());
    }
    Ok(())
}

/// Parses the target URL and merges the query parameters into it: the
/// resulting URL keeps the parsed URL's base and carries its own query
/// pairs followed by one pair per `key=value` parameter, in the order
/// given.
pub fn assemble_url(raw: &str, params: &Vec<String>) -> (r: Result<url::Url, Error>)
    ensures
        r is Ok <==> (url_parsed(raw@) is Some && forall|i: int|
            0 <= i < params@.len() ==> #[trigger] eq_split(params@[i]@) is Some),
        r matches Ok(u) ==> url_base(u) == url_parsed(raw@)->Some_0.0 && url_query_pairs(u)
            == url_parsed(raw@)->Some_0.1 + spec_split_pairs(params.deep_view()),
        r matches Err(e) ==> {
            if url_parsed(raw@) is None {
                e == Error::InvalidUrl
            } else {
                exists|i: int|
                    {
                        &&& 0 <= i < params@.len()
                        &&& #[trigger] eq_split(params@[i]@) is None
                        &&& forall|j: int| 0 <= j < i ==> #[trigger] eq_split(params@[j]@) is Some
                        &&& e == Error::InvalidQueryParam(params@[i])
                    }
            }
        },
{
    let mut url = match parse_url(raw) {
        Ok(u) => u,
        Err(e) => {
            return Err(e);
        },
    };
    match add_query_params(&mut url, params) {
        Ok(()) => Ok(url),
        Err(e) => Err(e),
    }
}

} // verus!
