use vstd::prelude::*;

verus! {

use vstd::string::*;

use crate::error::{bad_url_message, MediaError};

/// What the `url` crate reads out of an absolute URL string: its
/// percent-encoded path and, when a `?` is present, the query behind it
/// (an empty query after `?` is present and empty; a URL without `?` has
/// none); or nothing when the string is not a valid URL.
pub uninterp spec fn url_components_of(s: Seq<char>) -> Option<(Seq<char>, Option<Seq<char>>)>;

/// Relies on url::Url::parse and on the path and query accessors of
/// url::Url: parsing fails exactly where the string is not a valid URL,
/// and both components are functions of the URL string alone.
#[verifier::external_body]
fn split_url(s: &str) -> (r: Option<(String, Option<String>)>)
    ensures
        r is Some <==> url_components_of(s@) is Some,
        r matches Some(pq) ==> {
            &&& url_components_of(s@) matches Some(c)
            &&& pq.0@ == c.0
            &&& (pq.1 is Some <==> c.1 is Some)
            &&& (pq.1 matches Some(q) ==> c.1 matches Some(cq) && q@ == cq)
        },
{
    match url::Url::parse(s) {
        Ok(u) => Some((u.path().to_string(), u.query().map(|q| q.to_string()))),
        Err(_) => None,
    }
}

/// The externally configured public scheme and host substituted into
/// issued URLs in reverse-proxy deployments, written without a trailing
/// slash, e.g. `https://public.example`.
pub struct RewriteDomain {
    pub origin: String,
}

/// The query component as it reappears in an adapted URL: absent stays
/// absent, present stays behind a `?`, byte for byte — in particular an
/// empty query stays an empty query component.
pub open spec fn query_suffix(q: Option<Seq<char>>) -> Seq<char> {
    match q {
        Some(qs) => seq!['?'] + qs,
        None => Seq::empty(),
    }
}

/// A URL rewritten onto a public origin: the configured scheme and host,
/// then the original path and query unchanged.
pub open spec fn rewritten_url(origin: Seq<char>, path: Seq<char>, query: Option<Seq<char>>) -> Seq<
    char,
> {
    origin + path + query_suffix(query)
}

/// A presigned URL adapted to a shared public path prefix: the prefix,
/// then the original path, a `?`, and the original query (empty when the
/// URL had none).
pub open spec fn proxied_path(prefix: Seq<char>, path: Seq<char>, query: Option<Seq<char>>) -> Seq<
    char,
> {
    prefix + path + seq!['?'] + (match query {
        Some(qs) => qs,
        None => Seq::<char>::empty(),
    })
}

fn bad_url_error() -> (r: MediaError)
    ensures
        r matches MediaError::Store(m) && m@ == bad_url_message(),
{
    MediaError::Store(String::from_str("presigned URL could not be parsed"))
}

/// Rewrites an issued URL onto the configured rewrite domain, keeping
/// path and query byte for byte: the signature stays valid because it
/// covers path and query, not the host.
pub fn adapt_url_to_rewrite_domain(url: &str, rewrite_domain: &RewriteDomain) -> (r: Result<
    String,
    MediaError,
>)
    ensures
        url_components_of(url@) matches Some(c) ==> (r matches Ok(u) && u@ == rewritten_url(
            rewrite_domain.origin@,
            c.0,
            c.1,
        )),
        url_components_of(url@) is None ==> (r matches Err(e) && e matches MediaError::Store(m)
            && m@ == bad_url_message()),
{
    match split_url(url) {
        None => Err(bad_url_error()),
        Some((path, query)) => {
            let mut out = rewrite_domain.origin.clone();
            out.append(path.as_str());
            match query {
                Some(q) => {
                    out.append("?");
                    out.append(q.as_str());
                    proof {
                        reveal_strlit("?");
                        assert(("?")@ =~= seq!['?']);
                    }
                },
                None => {},
            }
            proof {
                let c = url_components_of(url@)->Some_0;
                assert(out@ =~= rewritten_url(rewrite_domain.origin@, c.0, c.1));
            }
            Ok(out)
        },
    }
}

/// Adapts a presigned URL to the fixed public path prefix under which a
/// reverse proxy exposes the store, keeping path and query byte for byte.
pub fn proxied_media_path(proxy_path: &str, url: &str) -> (r: Result<String, MediaError>)
    ensures
        url_components_of(url@) matches Some(c) ==> (r matches Ok(u) && u@ == proxied_path(
            proxy_path@,
            c.0,
            c.1,
        )),
        url_components_of(url@) is None ==> (r matches Err(e) && e matches MediaError::Store(m)
            && m@ == bad_url_message()),
{
    match split_url(url) {
        None => Err(bad_url_error()),
        Some((path, query)) => {
            let mut out = String::from_str(proxy_path);
            out.append(path.as_str());
            out.append("?");
            match query {
                Some(q) => {
                    out.append(q.as_str());
                },
                None => {},
            }
            proof {
                reveal_strlit("?");
                assert(("?")@ =~= seq!['?']);
                let c = url_components_of(url@)->Some_0;
                assert(out@ =~= proxied_path(proxy_path@, c.0, c.1));
            }
            Ok(out)
        },
    }
}

/// Adaptation preserves path and query exactly: the adapted URL is the
/// configured origin followed by the original path, and the query
/// reappears unchanged — an absent query stays absent, and an empty one
/// stays an empty component rather than any substitute text.
pub proof fn lemma_rewrite_preserves_components(
    origin: Seq<char>,
    path: Seq<char>,
    query: Option<Seq<char>>,
)
    ensures
        rewritten_url(origin, path, None) == origin + path,
        rewritten_url(origin, path, Some(Seq::empty())) == origin + path + seq!['?'],
        query matches Some(q) ==> rewritten_url(origin, path, query) == origin + path + seq!['?']
            + q,
{
    assert(origin + path + query_suffix(None) =~= origin + path);
    assert(origin + path + query_suffix(Some(Seq::empty())) =~= origin + path + seq!['?']);
    if let Some(q) = query {
        assert(origin + path + query_suffix(Some(q)) =~= origin + path + seq!['?'] + q);
    }
}

} // verus!
