use vstd::prelude::*;

verus! {

use vstd::string::*;

use crate::error::{
    insert_failed_message, invalid_content_type_message, missing_content_type_message,
    notify_failed_message, unauthorized_message, MediaError,
};
use crate::identifier::MediaId;
use crate::mutation::{key_of, mime_subtype_of, Mutation as BaseMutation};

/// Describes media mutations: the decisions of the upload pipeline, in
/// the deployment variant that authorizes the caller before validation
/// and announces each successful write before handing the identifier out.
pub struct Mutation;

impl Mutation {
    /// The steps of ingestion up to the durable write: an unauthorized
    /// caller never reaches content validation; an authorized upload has
    /// its content type validated and its storage key derived from the
    /// freshly minted identifier and the extracted extension.
    pub fn plan_upload(&self, authorized: bool, content_type: Option<&str>, id: &MediaId) -> (r:
        Result<String, MediaError>)
        requires
            id.wf(),
        ensures
            !authorized ==> (r matches Err(e) && e matches MediaError::Authorization(m) && m@
                == unauthorized_message()),
            authorized ==> {
                &&& content_type is None ==> (r matches Err(e)
                    && e matches MediaError::Validation(m) && m@ == missing_content_type_message())
                &&& content_type matches Some(ct) ==> {
                    &&& mime_subtype_of(ct@) is None ==> (r matches Err(e)
                        && e matches MediaError::Validation(m) && m@
                        == invalid_content_type_message())
                    &&& mime_subtype_of(ct@) matches Some(sub) ==> (r matches Ok(k) && k@ == key_of(
                        id@,
                        sub,
                    ))
                }
            },
    {
        if !authorized {
            return Err(
                MediaError::Authorization(
                    String::from_str("caller is not authorized to upload media"),
                ),
            );
        }
        let base = BaseMutation;
        let extension = match base.validate_content_type(content_type) {
            Ok(ext) => ext,
            Err(e) => {
                return Err(e);
            },
        };
        Ok(base.storage_key(id, extension.as_str()))
    }

    /// Decides the durable-write step from the store's status: only a
    /// success status lets ingestion proceed to notification; any other
    /// status is a store failure, the identifier is not returned and no
    /// event is emitted.
    pub fn write_outcome(&self, status_code: u16) -> (r: Result<(), MediaError>)
        ensures
            r is Ok <==> status_code == 200,
            status_code != 200 ==> (r matches Err(e) && e matches MediaError::Store(m) && m@
                == insert_failed_message()),
    {
        if status_code == 200 {
            Ok(())
        } else {
            Err(MediaError::Store(String::from_str("Media file could not be inserted into MinIO.")))
        }
    }

    /// Decides ingestion after the notification step: the identifier is
    /// handed to the caller only when the creation event was delivered;
    /// a failed delivery fails the whole ingestion even though the blob
    /// is already durably written.
    pub fn finish_upload(&self, id: MediaId, notified: bool) -> (r: Result<MediaId, MediaError>)
        ensures
            notified ==> (r matches Ok(i) && i == id),
            !notified ==> (r matches Err(e) && e matches MediaError::Notify(m) && m@
                == notify_failed_message()),
    {
        if notified {
            Ok(id)
        } else {
            Err(
                MediaError::Notify(
                    String::from_str("Media created event could not be delivered."),
                ),
            )
        }
    }
}

} // verus!
