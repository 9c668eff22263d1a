use media::error::MediaError;
use media::graphql::mutation::Mutation as UploadMutation;
use media::identifier::MediaId;
use media::media::Media;
use media::mutation::Mutation;
use media::resolver::{resolve, ListingPage};

/// An in-memory stand-in for the object store and the notifier,
/// recording what the driver asked of them.
struct FakeCollaborators {
    stored: Vec<(String, Vec<u8>)>,
    notifications: usize,
    notify_succeeds: bool,
}

impl FakeCollaborators {
    fn new(notify_succeeds: bool) -> FakeCollaborators {
        FakeCollaborators { stored: Vec::new(), notifications: 0, notify_succeeds }
    }

    fn put(&mut self, key: &str, bytes: &[u8]) -> u16 {
        self.stored.push((key.to_string(), bytes.to_vec()));
        200
    }

    fn notify(&mut self) -> bool {
        self.notifications += 1;
        self.notify_succeeds
    }

    fn listing_for(&self, prefix: &str) -> Vec<ListingPage> {
        let keys: Vec<String> =
            self.stored.iter().map(|(k, _)| k.clone()).filter(|k| k.starts_with(prefix)).collect();
        if keys.is_empty() {
            vec![]
        } else {
            vec![ListingPage { contents: keys }]
        }
    }
}

/// Drives the ingestion pipeline the way the service does: plan, write,
/// check the write, notify, finish.
fn ingest(
    collaborators: &mut FakeCollaborators,
    authorized: bool,
    content_type: Option<&str>,
    bytes: &[u8],
) -> Result<MediaId, MediaError> {
    let mutation = UploadMutation;
    let id = MediaId::fresh();
    let key = mutation.plan_upload(authorized, content_type, &id)?;
    let status = collaborators.put(&key, bytes);
    mutation.write_outcome(status)?;
    let notified = collaborators.notify();
    mutation.finish_upload(id, notified)
}

#[test]
fn validate_content_type_extracts_subtype() {
    let ext = Mutation.validate_content_type(Some("image/png")).expect("png parses");
    assert_eq!(ext, "png");
}

#[test]
fn validate_content_type_missing_header() {
    match Mutation.validate_content_type(None) {
        Err(MediaError::Validation(m)) => assert_eq!(m, "missing content type"),
        _ => panic!("a missing header must be a validation failure"),
    }
}

#[test]
fn validate_content_type_unparsable_value() {
    match Mutation.validate_content_type(Some("nonsense")) {
        Err(MediaError::Validation(m)) => assert_eq!(m, "invalid content type"),
        _ => panic!("an unparsable value must be a validation failure"),
    }
}

#[test]
fn storage_key_is_identifier_dot_extension() {
    let id = MediaId::fresh();
    let key = Mutation.storage_key(&id, "png");
    assert_eq!(key, format!("{}.png", id.hyphenated()));
}

#[test]
fn write_outcome_rejects_non_success_status() {
    let id = MediaId::fresh();
    match Mutation.write_outcome(id, 500) {
        Err(MediaError::Store(m)) => {
            assert_eq!(m, "Media file could not be inserted into MinIO.")
        },
        _ => panic!("a non-success status must be a store failure"),
    }
}

#[test]
fn ingested_png_resolves_to_its_key() {
    let mut collaborators = FakeCollaborators::new(true);
    let bytes = [137u8, 80, 78, 71];
    let id = ingest(&mut collaborators, true, Some("image/png"), &bytes).expect("ingestion works");
    let expected_key = format!("{}.png", id.hyphenated());
    let pages = collaborators.listing_for(&id.hyphenated());
    let resolved = resolve(&id, &pages).expect("the fresh upload resolves");
    assert_eq!(resolved, expected_key);
    let media = Media::try_from(resolved.as_str()).expect("the key reads back");
    assert_eq!(media.id.hyphenated(), id.hyphenated());
}

#[test]
fn ingest_without_content_type_writes_and_notifies_nothing() {
    let mut collaborators = FakeCollaborators::new(true);
    let r = ingest(&mut collaborators, true, None, b"payload");
    match r {
        Err(MediaError::Validation(m)) => assert_eq!(m, "missing content type"),
        _ => panic!("a missing content type must be a validation failure"),
    }
    assert_eq!(collaborators.stored.len(), 0);
    assert_eq!(collaborators.notifications, 0);
}

#[test]
fn unauthorized_ingest_reaches_no_collaborator() {
    let mut collaborators = FakeCollaborators::new(true);
    let r = ingest(&mut collaborators, false, Some("image/png"), b"payload");
    assert!(matches!(r, Err(MediaError::Authorization(_))));
    assert_eq!(collaborators.stored.len(), 0);
    assert_eq!(collaborators.notifications, 0);
}

#[test]
fn failed_notification_fails_ingestion_but_blob_is_written() {
    let mut collaborators = FakeCollaborators::new(false);
    let r = ingest(&mut collaborators, true, Some("image/png"), b"payload");
    match r {
        Err(MediaError::Notify(m)) => {
            assert_eq!(m, "Media created event could not be delivered.")
        },
        _ => panic!("a failed notification must fail the ingestion"),
    }
    assert_eq!(collaborators.stored.len(), 1);
    assert_eq!(collaborators.notifications, 1);
}

#[test]
fn concurrent_ingests_of_identical_content_stay_distinct() {
    let mut collaborators = FakeCollaborators::new(true);
    let bytes = [1u8, 2, 3];
    let a = ingest(&mut collaborators, true, Some("image/png"), &bytes).expect("first works");
    let b = ingest(&mut collaborators, true, Some("image/png"), &bytes).expect("second works");
    assert_ne!(a.hyphenated(), b.hyphenated());
    assert_eq!(collaborators.stored.len(), 2);
    assert_ne!(collaborators.stored[0].0, collaborators.stored[1].0);
}
