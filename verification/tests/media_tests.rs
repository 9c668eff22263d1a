use media::error::MediaError;
use media::event::media_dto::MediaDTO;
use media::identifier::MediaId;
use media::media::Media;
use media::media_connection::MediaConnection;

#[test]
fn try_from_reads_the_key_stem() {
    let id = MediaId::fresh();
    let key = format!("{}.png", id.hyphenated());
    let media = Media::try_from(&key).expect("a derived key reads back");
    assert_eq!(media.id.hyphenated(), id.hyphenated());
}

#[test]
fn try_from_accepts_a_bare_identifier() {
    let id = MediaId::fresh();
    let text = id.hyphenated();
    let media = Media::try_from(&text).expect("a bare canonical form reads back");
    assert_eq!(media.id.hyphenated(), text);
}

#[test]
fn try_from_rejects_a_non_identifier_stem() {
    match Media::try_from("notanidentifier.png") {
        Err(MediaError::Validation(m)) => assert_eq!(m, "invalid media identifier"),
        _ => panic!("a non-identifier stem must be rejected"),
    }
}

#[test]
fn try_from_rejects_an_empty_key() {
    match Media::try_from("") {
        Err(MediaError::Validation(m)) => {
            assert_eq!(m, "File in bucket does not have a name.")
        },
        _ => panic!("an empty key must be rejected"),
    }
}

#[test]
fn try_from_cuts_the_stem_at_the_final_dot() {
    let id = MediaId::fresh();
    let key = format!("{}.vnd.ms-excel", id.hyphenated());
    assert!(Media::try_from(&key).is_err());
}

#[test]
fn media_created_event_is_a_single_field_json_object() {
    let id = MediaId::fresh();
    let text = id.hyphenated();
    let dto = MediaDTO { id };
    assert_eq!(dto.to_json(), format!("{{\"id\":\"{}\"}}", text));
}

#[test]
fn media_connection_carries_its_nodes() {
    let a = Media { id: MediaId::fresh() };
    let b = Media { id: MediaId::fresh() };
    let connection =
        MediaConnection { nodes: vec![a, b], has_next_page: false, total_count: 2 };
    assert_eq!(connection.nodes.len(), 2);
    assert!(!connection.has_next_page);
    assert_eq!(connection.total_count, 2);
}
