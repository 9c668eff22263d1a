use media::error::MediaError;
use media::identifier::MediaId;
use media::resolver::{resolve, ListingPage};

fn page(keys: &[&str]) -> ListingPage {
    ListingPage { contents: keys.iter().map(|k| k.to_string()).collect() }
}

#[test]
fn resolve_returns_the_single_matching_key() {
    let id = MediaId::fresh();
    let key = format!("{}.png", id.hyphenated());
    let pages = vec![page(&[&key])];
    assert_eq!(resolve(&id, &pages).expect("one key resolves"), key);
}

#[test]
fn resolve_empty_listing_is_not_found_and_echoes_identifier() {
    let id = MediaId::fresh();
    let pages: Vec<ListingPage> = vec![];
    match resolve(&id, &pages) {
        Err(MediaError::NotFound(m)) => {
            assert_eq!(m, format!("Media file of UUID: `{}` not found.", id.hyphenated()));
        },
        _ => panic!("an empty listing must be not-found"),
    }
}

#[test]
fn resolve_empty_first_page_is_not_found() {
    let id = MediaId::fresh();
    let pages = vec![page(&[])];
    assert!(matches!(resolve(&id, &pages), Err(MediaError::NotFound(_))));
}

#[test]
fn resolve_picks_the_first_entry_of_the_first_page() {
    let id = MediaId::fresh();
    let first = format!("{}.png", id.hyphenated());
    let second = format!("{}.jpeg", id.hyphenated());
    let pages = vec![page(&[&first, &second]), page(&[&second])];
    assert_eq!(resolve(&id, &pages).expect("a non-empty listing resolves"), first);
}
