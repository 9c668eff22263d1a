use vstd::prelude::*;

verus! {

use vstd::string::*;

use crate::identifier::{canonical_of, MediaId};

/// DTO of a media: the payload of the creation event delivered once per
/// successful ingestion.
pub struct MediaDTO {
    pub id: MediaId,
}

/// The JSON body of a media-created event: an object with the single
/// field `id` holding the canonical identifier string.
pub open spec fn media_created_json(id: Seq<u8>) -> Seq<char> {
    "{\"id\":\""@ + canonical_of(id) + "\"}"@
}

impl MediaDTO {
    /// Frames the event payload as JSON bytes for delivery.
    pub fn to_json(&self) -> (r: String)
        requires
            self.id.wf(),
        ensures
            r@ == media_created_json(self.id@),
    {
        let mut out = String::from_str("{\"id\":\"");
        let h = self.id.hyphenated();
        out.append(h.as_str());
        out.append("\"}");
        proof {
            assert(out@ =~= media_created_json(self.id@));
        }
        out
    }
}

} // verus!
