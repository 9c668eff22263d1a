use vstd::prelude::*;

verus! {

use vstd::string::*;

use crate::error::MediaError;
use crate::identifier::{canonical_of, MediaId};

/// One page of a prefix listing answered by the object store: the keys
/// of its content entries, in the store's listing order.
pub struct ListingPage {
    pub contents: Vec<String>,
}

impl View for ListingPage {
    type V = Seq<Seq<char>>;

    open spec fn view(&self) -> Seq<Seq<char>> {
        self.contents.deep_view()
    }
}

/// Message of the not-found failure, echoing the identifier that had no
/// stored object.
pub open spec fn not_found_message(id: Seq<u8>) -> Seq<char> {
    "Media file of UUID: `"@ + canonical_of(id) + "` not found."@
}

/// The key a prefix listing resolves to: the first content entry of the
/// first page, or nothing when the listing is empty.
pub open spec fn spec_resolve(pages: Seq<ListingPage>) -> Option<Seq<char>> {
    if pages.len() > 0 && pages[0]@.len() > 0 {
        Some(pages[0]@[0])
    } else {
        None
    }
}

fn not_found_error(id: &MediaId) -> (r: MediaError)
    requires
        id.wf(),
    ensures
        r matches MediaError::NotFound(m) && m@ == not_found_message(id@),
{
    let mut m = String::from_str("Media file of UUID: `");
    let h = id.hyphenated();
    m.append(h.as_str());
    m.append("` not found.");
    proof {
        assert(m@ =~= not_found_message(id@));
    }
    MediaError::NotFound(m)
}

/// Resolves an identifier against the pages a prefix listing scoped to
/// its canonical form returned: the single stored object's key is the
/// first content entry of the first page; an empty listing means no
/// stored object corresponds to the identifier.
pub fn resolve(id: &MediaId, pages: &Vec<ListingPage>) -> (r: Result<String, MediaError>)
    requires
        id.wf(),
    ensures
        r is Ok <==> spec_resolve(pages@) is Some,
        r matches Ok(k) ==> spec_resolve(pages@) == Some(k@),
        r matches Err(e) ==> e matches MediaError::NotFound(m) && m@ == not_found_message(id@),
{
    if pages.len() == 0 {
        return Err(not_found_error(id));
    }
    let first = &pages[0];
    if first.contents.len() == 0 {
        return Err(not_found_error(id));
    }
    let key = first.contents[0].clone();
    proof {
        assert(key@ == pages@[0]@[0]);
    }
    Ok(key)
}

/// With exactly one stored key under the listed prefix, resolution
/// returns that key: when every entry the listing presents is the one
/// key and the first page is not empty, the resolved key is it.
pub proof fn lemma_resolve_single_match(pages: Seq<ListingPage>, k: Seq<char>)
    requires
        pages.len() > 0,
        pages[0]@.len() > 0,
        forall|i: int, j: int|
            0 <= i < pages.len() && 0 <= j < pages[i]@.len() ==> #[trigger] pages[i]@[j] == k,
    ensures
        spec_resolve(pages) == Some(k),
{
    assert(pages[0]@[0] == k);
}

/// With no stored key under the listed prefix, resolution reports
/// not-found: when every page the listing presents is empty, nothing is
/// resolved.
pub proof fn lemma_resolve_no_match(pages: Seq<ListingPage>)
    requires
        forall|i: int| 0 <= i < pages.len() ==> #[trigger] pages[i]@.len() == 0,
    ensures
        spec_resolve(pages) is None,
{
}

} // verus!
