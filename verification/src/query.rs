use vstd::prelude::*;

verus! {

use crate::error::{bad_url_message, MediaError};
use crate::identifier::{canonical_of, MediaId};
use crate::presign::{adapt_url_to_rewrite_domain, rewritten_url, url_components_of, RewriteDomain};
use crate::resolver::{not_found_message, resolve, spec_resolve, ListingPage};

/// Describes media queries: resolving an identifier to its stored key
/// and adapting the store's presigned URL for the caller. The store
/// calls themselves (prefix listing, signing) stand between these
/// stages.
pub struct Query;

impl Query {
    /// The prefix the store listing for a media is scoped to: the
    /// identifier's canonical string form (the extension is unknowable
    /// at query time).
    pub fn list_prefix(&self, id: &MediaId) -> (r: String)
        requires
            id.wf(),
        ensures
            r@ == canonical_of(id@),
    {
        id.hyphenated()
    }

    /// Resolution stage of a media URL query: the stored key, out of the
    /// listing the store answered for the prefix.
    pub fn resolve_media(&self, id: &MediaId, pages: &Vec<ListingPage>) -> (r: Result<
        String,
        MediaError,
    >)
        requires
            id.wf(),
        ensures
            r is Ok <==> spec_resolve(pages@) is Some,
            r matches Ok(k) ==> spec_resolve(pages@) == Some(k@),
            r matches Err(e) ==> e matches MediaError::NotFound(m) && m@ == not_found_message(id@),
    {
        resolve(id, pages)
    }

    /// Adaptation stage of a media URL query: the presigned URL the
    /// store issued for the resolved key, rewritten onto the configured
    /// public domain with path and query preserved byte for byte.
    pub fn get_media_url(&self, presigned_url: &str, rewrite_domain: &RewriteDomain) -> (r: Result<
        String,
        MediaError,
    >)
        ensures
            url_components_of(presigned_url@) matches Some(c) ==> (r matches Ok(u) && u@
                == rewritten_url(rewrite_domain.origin@, c.0, c.1)),
            url_components_of(presigned_url@) is None ==> (r matches Err(e)
                && e matches MediaError::Store(m) && m@ == bad_url_message()),
    {
        adapt_url_to_rewrite_domain(presigned_url, rewrite_domain)
    }
}

} // verus!
