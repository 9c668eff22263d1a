use vstd::prelude::*;

verus! {

/// Failure taxonomy of the media service. Every failure carries a
/// human-readable message; where a failure concerns a particular
/// identifier, the message echoes that identifier.
#[derive(Debug)]
pub enum MediaError {
    /// The uploaded content's declared type is missing or unparsable.
    Validation(String),
    /// No stored object corresponds to the presented identifier.
    NotFound(String),
    /// The underlying object store failed or answered with a
    /// non-success status.
    Store(String),
    /// The creation event could not be delivered.
    Notify(String),
    /// The caller lacks permission for the operation.
    Authorization(String),
}

impl MediaError {
    /// The human-readable message carried by this failure.
    pub open spec fn message_view(&self) -> Seq<char> {
        match self {
            MediaError::Validation(m) => m@,
            MediaError::NotFound(m) => m@,
            MediaError::Store(m) => m@,
            MediaError::Notify(m) => m@,
            MediaError::Authorization(m) => m@,
        }
    }

    /// The human-readable message carried by this failure.
    pub fn message(&self) -> (r: &String)
        ensures
            r@ == self.message_view(),
    {
        match self {
            MediaError::Validation(m) => m,
            MediaError::NotFound(m) => m,
            MediaError::Store(m) => m,
            MediaError::Notify(m) => m,
            MediaError::Authorization(m) => m,
        }
    }
}

/// Message of the validation failure for an upload without a content type.
pub open spec fn missing_content_type_message() -> Seq<char> {
    "missing content type"@
}

/// Message of the validation failure for an unparsable content type.
pub open spec fn invalid_content_type_message() -> Seq<char> {
    "invalid content type"@
}

/// Message of the store failure for a rejected write.
pub open spec fn insert_failed_message() -> Seq<char> {
    "Media file could not be inserted into MinIO."@
}

/// Message of the notification failure after a successful write.
pub open spec fn notify_failed_message() -> Seq<char> {
    "Media created event could not be delivered."@
}

/// Message of the authorization failure for an upload.
pub open spec fn unauthorized_message() -> Seq<char> {
    "caller is not authorized to upload media"@
}

/// Message of the validation failure for a malformed identifier string.
pub open spec fn invalid_identifier_message() -> Seq<char> {
    "invalid media identifier"@
}

/// Message of the validation failure for a bucket key without a name.
pub open spec fn no_name_message() -> Seq<char> {
    "File in bucket does not have a name."@
}

/// Message of the failure for a presigned URL that cannot be parsed.
pub open spec fn bad_url_message() -> Seq<char> {
    "presigned URL could not be parsed"@
}

} // verus!
