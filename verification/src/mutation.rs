use vstd::prelude::*;

verus! {

use vstd::string::*;

use crate::error::{
    insert_failed_message, invalid_content_type_message, missing_content_type_message, MediaError,
};
use crate::identifier::{canonical_of, MediaId};

/// The storage key derived once at ingestion: the identifier's canonical
/// string form, a dot, and the extension taken from the declared content
/// type.
pub open spec fn key_of(id: Seq<u8>, extension: Seq<char>) -> Seq<char> {
    canonical_of(id) + seq!['.'] + extension
}

/// What the `mime` crate reads as the subtype of a content-type string
/// (`png` out of `image/png`), or nothing when the string is not a
/// parsable MIME value. A function of the string alone.
pub uninterp spec fn mime_subtype_of(s: Seq<char>) -> Option<Seq<char>>;

/// Relies on str::parse::<mime::Mime> and mime::Mime::subtype: parsing
/// fails exactly where the string is not a valid MIME value, and the
/// subtype is a function of the string alone.
#[verifier::external_body]
fn parse_mime_subtype(s: &str) -> (r: Option<String>)
    ensures
        r is Some <==> mime_subtype_of(s@) is Some,
        r matches Some(sub) ==> mime_subtype_of(s@) == Some(sub@),
{
    match s.parse::<mime::Mime>() {
        Ok(m) => Some(m.subtype().as_str().to_string()),
        Err(_) => None,
    }
}

/// Describes media mutations: the decisions of the upload pipeline, in
/// the deployment variant that reports a write's outcome directly,
/// without event notification.
pub struct Mutation;

impl Mutation {
    /// Validates the declared content type of an upload and extracts the
    /// file extension from it: a missing header and an unparsable MIME
    /// value are client-fixable validation failures; any parsable
    /// subtype is accepted.
    pub fn validate_content_type(&self, content_type: Option<&str>) -> (r: Result<
        String,
        MediaError,
    >)
        ensures
            content_type is None ==> (r matches Err(e) && e matches MediaError::Validation(m) && m@
                == missing_content_type_message()),
            content_type matches Some(ct) ==> {
                &&& mime_subtype_of(ct@) is None ==> (r matches Err(e)
                    && e matches MediaError::Validation(m) && m@ == invalid_content_type_message())
                &&& mime_subtype_of(ct@) matches Some(sub) ==> (r matches Ok(ext) && ext@ == sub)
            },
    {
        match content_type {
            None => Err(MediaError::Validation(String::from_str("missing content type"))),
            Some(ct) => match parse_mime_subtype(ct) {
                None => Err(MediaError::Validation(String::from_str("invalid content type"))),
                Some(sub) => Ok(sub),
            },
        }
    }

    /// Derives the storage key a fresh upload is written under:
    /// the minted identifier's canonical form with the extension.
    pub fn storage_key(&self, id: &MediaId, extension: &str) -> (r: String)
        requires
            id.wf(),
        ensures
            r@ == key_of(id@, extension@),
    {
        let mut out = id.hyphenated();
        out.append(".");
        out.append(extension);
        proof {
            reveal_strlit(".");
            assert((".")@ =~= seq!['.']);
            assert(out@ =~= key_of(id@, extension@));
        }
        out
    }

    /// Decides an upload from the store's write status: only a success
    /// status hands the identifier to the caller; any other status is a
    /// store failure and the identifier is not returned.
    pub fn write_outcome(&self, id: MediaId, status_code: u16) -> (r: Result<MediaId, MediaError>)
        ensures
            status_code == 200 ==> (r matches Ok(i) && i == id),
            status_code != 200 ==> (r matches Err(e) && e matches MediaError::Store(m) && m@
                == insert_failed_message()),
    {
        if status_code == 200 {
            Ok(id)
        } else {
            Err(MediaError::Store(String::from_str("Media file could not be inserted into MinIO.")))
        }
    }
}

} // verus!
