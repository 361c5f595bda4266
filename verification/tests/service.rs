use shortlink::bytes::short_link;
use shortlink::service::{
    create_path, resolve_response, CreateError, CreatePath, LookupOutcome, ResolveResponse,
    Shortener,
};

fn bytes(s: &str) -> Vec<u8> {
    s.as_bytes().to_vec()
}

fn is_valid_id_bytes(id: &[u8]) -> bool {
    id.len() == 6 && id.iter().all(|b| b.is_ascii_lowercase() || b.is_ascii_digit())
}

#[test]
fn created_url_resolves_to_it() {
    let mut svc = Shortener::new(bytes("http://sho.rt"), true, true);
    let id = svc.create_shorten(&bytes("http://example.com")).unwrap();
    let url = svc.resolve(&id).expect("issued identifier must resolve");
    assert_eq!(url, bytes("http://example.com"));
}

#[test]
fn unissued_id_is_not_found() {
    let mut svc = Shortener::new(bytes("http://sho.rt"), true, true);
    svc.create_shorten(&bytes("http://example.com")).unwrap();
    assert!(svc.resolve(&bytes("doesnotexist")).is_none());
    assert!(svc.resolve(&bytes("a1b2c3")).is_none());
}

#[test]
fn resolve_on_empty_store_is_not_found() {
    let svc = Shortener::new(bytes("http://sho.rt"), false, false);
    assert!(svc.resolve(&bytes("abc123")).is_none());
}

#[test]
fn dedup_create_is_idempotent() {
    let mut svc = Shortener::new(bytes("http://sho.rt"), true, true);
    let first = svc.create_shorten(&bytes("http://example.com/page")).unwrap();
    let second = svc.create_shorten(&bytes("http://example.com/page")).unwrap();
    assert_eq!(first, second);
    assert_eq!(svc.store.len(), 1);
}

#[test]
fn non_dedup_create_appends_each_time() {
    let mut svc = Shortener::new(bytes("http://sho.rt"), false, false);
    let first = svc.create_shorten(&bytes("http://example.com/page")).unwrap();
    let second = svc.create_shorten(&bytes("http://example.com/page")).unwrap();
    assert_eq!(svc.store.len(), 2);
    assert!(is_valid_id_bytes(&first));
    assert!(is_valid_id_bytes(&second));
    // Two independent six-byte draws from a 36-symbol alphabet collide with
    // probability 36^-6: two creations yield distinct identifiers.
    assert_ne!(first, second);
}

#[test]
fn issued_ids_are_six_bytes_from_the_alphabet() {
    let mut svc = Shortener::new(bytes("http://sho.rt"), false, false);
    for i in 0..50 {
        let url = bytes(&format!("http://example.com/{}", i));
        let id = svc.create_shorten(&url).unwrap();
        assert!(is_valid_id_bytes(&id));
    }
}

#[test]
fn invalid_url_is_rejected_and_nothing_is_stored() {
    let mut svc = Shortener::new(bytes("http://sho.rt"), true, true);
    let r = svc.create_shorten(&bytes("not a url"));
    assert!(matches!(r, Err(CreateError::InvalidUrl)));
    assert_eq!(svc.store.len(), 0);
    assert!(svc.create_shorten(&bytes("http://example.com/x")).is_ok());
    assert_eq!(svc.store.len(), 1);
}

#[test]
fn validation_off_accepts_anything() {
    let mut svc = Shortener::new(bytes("http://sho.rt"), false, true);
    assert!(svc.create_shorten(&bytes("not a url")).is_ok());
    assert_eq!(svc.store.len(), 1);
}

#[test]
fn create_then_redirect_scenario() {
    let base = bytes("http://sho.rt");
    let mut svc = Shortener::new(base.clone(), true, true);
    let id = svc.create_shorten(&bytes("http://example.com")).unwrap();
    let link = short_link(&base, &id);
    let mut expected = base.clone();
    expected.push(b'/');
    expected.extend_from_slice(&id);
    assert_eq!(link, expected);
    assert!(is_valid_id_bytes(&id));
    let outcome = match svc.resolve(&id) {
        Some(url) => LookupOutcome::Found(url),
        None => LookupOutcome::Absent,
    };
    match resolve_response(outcome) {
        ResolveResponse::Redirect(location) => {
            assert_eq!(location, bytes("http://example.com"));
        }
        ResolveResponse::NotFound => panic!("expected a redirect"),
    }
}

#[test]
fn missing_id_scenario_gives_not_found() {
    let svc = Shortener::new(bytes("http://sho.rt"), true, true);
    let outcome = match svc.resolve(&bytes("doesnotexist")) {
        Some(url) => LookupOutcome::Found(url),
        None => LookupOutcome::Absent,
    };
    assert!(matches!(
        resolve_response(outcome),
        ResolveResponse::NotFound
    ));
}

#[test]
fn store_failure_collapses_to_not_found() {
    assert!(matches!(
        resolve_response(LookupOutcome::StoreFailed),
        ResolveResponse::NotFound
    ));
}

#[test]
fn failed_dedup_lookup_leads_to_minting() {
    assert!(matches!(
        create_path(LookupOutcome::StoreFailed),
        CreatePath::Mint
    ));
    assert!(matches!(create_path(LookupOutcome::Absent), CreatePath::Mint));
    let reused = create_path(LookupOutcome::Found(bytes("abc123")));
    match reused {
        CreatePath::Reuse(id) => assert_eq!(id, bytes("abc123")),
        CreatePath::Mint => panic!("an existing identifier must be reused"),
    }
}
