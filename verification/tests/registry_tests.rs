use qrlink::api::QrCodeApi;
use qrlink::api::QrCodeCreateResponse;
use qrlink::api::QrCodeDeleteResponse;
use qrlink::api::QrCodeGetResponse;
use qrlink::api::QrCodeUpdateResponse;
use qrlink::api::RedirectApi;
use qrlink::api::RedirectResponse;
use qrlink::registry::CreateError;
use qrlink::registry::QrCodeDatabase;

fn created(db: &mut QrCodeDatabase, link: &str) -> (u128, String, String) {
    match QrCodeApi.create(db, link) {
        QrCodeCreateResponse::Created(resp) => {
            let passphrase = resp.passphrase.expect("creation response carries the passphrase");
            (resp.id, resp.link, passphrase)
        }
        QrCodeCreateResponse::Database(msg) => panic!("creation failed: {msg}"),
    }
}

#[test]
fn create_then_get_returns_link() {
    let mut db = QrCodeDatabase::new();
    let (id, stored, _pass) = created(&mut db, "https://example.com/a");
    assert_eq!(stored, "https://example.com/a");
    match QrCodeApi.get(&db, id) {
        QrCodeGetResponse::Found(resp) => {
            assert_eq!(resp.id, id);
            assert_eq!(resp.link, "https://example.com/a");
            assert!(resp.passphrase.is_none());
        }
        QrCodeGetResponse::NotFound(msg) => panic!("record vanished: {msg}"),
    }
}

#[test]
fn create_normalizes_the_stored_link() {
    let mut db = QrCodeDatabase::new();
    let (id, stored, _pass) = created(&mut db, "HTTPS://EXAMPLE.COM");
    assert_eq!(stored, "https://example.com/");
    match QrCodeApi.get(&db, id) {
        QrCodeGetResponse::Found(resp) => assert_eq!(resp.link, "https://example.com/"),
        QrCodeGetResponse::NotFound(msg) => panic!("record vanished: {msg}"),
    }
}

#[test]
fn create_rejects_a_malformed_link() {
    let mut db = QrCodeDatabase::new();
    match QrCodeApi.create(&mut db, "not a url") {
        QrCodeCreateResponse::Created(_) => panic!("a malformed link was accepted"),
        QrCodeCreateResponse::Database(msg) => {
            assert_eq!(msg, "Could not create qr code because of an internal error.");
        }
    }
    match QrCodeApi.create(&mut db, "/relative/path") {
        QrCodeCreateResponse::Created(_) => panic!("a relative link was accepted"),
        QrCodeCreateResponse::Database(_) => {}
    }
}

#[test]
fn update_with_wrong_passphrase_changes_nothing() {
    let mut db = QrCodeDatabase::new();
    let (id, _stored, pass) = created(&mut db, "https://example.com/a");
    let wrong = format!("{pass}x");
    match QrCodeApi.update(&mut db, id, wrong, "https://x") {
        QrCodeUpdateResponse::NotFound(msg) => {
            assert_eq!(msg, "No qr code could be found for this id.");
        }
        QrCodeUpdateResponse::Updated(_) => panic!("a wrong passphrase was accepted"),
        QrCodeUpdateResponse::BadRequest(msg) => panic!("link rejected: {msg}"),
    }
    match QrCodeApi.get(&db, id) {
        QrCodeGetResponse::Found(resp) => assert_eq!(resp.link, "https://example.com/a"),
        QrCodeGetResponse::NotFound(msg) => panic!("record vanished: {msg}"),
    }
}

#[test]
fn update_with_correct_passphrase_replaces_the_target() {
    let mut db = QrCodeDatabase::new();
    let (id, _stored, pass) = created(&mut db, "https://example.com/a");
    match QrCodeApi.update(&mut db, id, pass, "https://example.org/b") {
        QrCodeUpdateResponse::Updated(txt) => {
            assert_eq!(txt, qrlink::text::uuid_text(id));
        }
        QrCodeUpdateResponse::NotFound(msg) => panic!("update refused: {msg}"),
        QrCodeUpdateResponse::BadRequest(msg) => panic!("link rejected: {msg}"),
    }
    match QrCodeApi.get(&db, id) {
        QrCodeGetResponse::Found(resp) => assert_eq!(resp.link, "https://example.org/b"),
        QrCodeGetResponse::NotFound(msg) => panic!("record vanished: {msg}"),
    }
}

#[test]
fn update_rejects_a_malformed_link() {
    let mut db = QrCodeDatabase::new();
    let (id, _stored, pass) = created(&mut db, "https://example.com/a");
    match QrCodeApi.update(&mut db, id, pass, "::nonsense::") {
        QrCodeUpdateResponse::BadRequest(msg) => {
            assert_eq!(msg, "The supplied link is not a valid URL.");
        }
        _ => panic!("a malformed link was not rejected"),
    }
}

#[test]
fn delete_with_correct_passphrase_removes_the_record() {
    let mut db = QrCodeDatabase::new();
    let (id, _stored, pass) = created(&mut db, "https://example.com/a");
    match QrCodeApi.delete(&mut db, id, pass) {
        QrCodeDeleteResponse::Deleted => {}
        QrCodeDeleteResponse::NotFound(msg) => panic!("delete refused: {msg}"),
    }
    match QrCodeApi.get(&db, id) {
        QrCodeGetResponse::NotFound(msg) => {
            assert_eq!(msg, "No qr code could be found for this id.");
        }
        QrCodeGetResponse::Found(_) => panic!("the record survived its deletion"),
    }
}

#[test]
fn delete_with_wrong_passphrase_changes_nothing() {
    let mut db = QrCodeDatabase::new();
    let (id, _stored, pass) = created(&mut db, "https://example.com/a");
    let wrong = format!("{pass}x");
    match QrCodeApi.delete(&mut db, id, wrong) {
        QrCodeDeleteResponse::NotFound(msg) => {
            assert_eq!(msg, "No qr code could be found with this id.");
        }
        QrCodeDeleteResponse::Deleted => panic!("a wrong passphrase was accepted"),
    }
    assert!(matches!(QrCodeApi.get(&db, id), QrCodeGetResponse::Found(_)));
}

#[test]
fn reads_on_a_never_created_id_yield_not_found() {
    let mut db = QrCodeDatabase::new();
    let (_id, _stored, _pass) = created(&mut db, "https://example.com/a");
    let other: u128 = 0x1234_5678_9abc_def0_1234_5678_9abc_def0;
    assert!(matches!(QrCodeApi.get(&db, other), QrCodeGetResponse::NotFound(_)));
    match RedirectApi.redirect(&db, other) {
        RedirectResponse::NotFound(msg) => {
            assert_eq!(msg, "The requested qr code id could not be found.");
        }
        _ => panic!("a never-created id resolved"),
    }
}

#[test]
fn redirect_resolves_to_the_stored_target() {
    let mut db = QrCodeDatabase::new();
    let (id, stored, _pass) = created(&mut db, "https://example.com/a?q=1");
    match RedirectApi.redirect(&db, id) {
        RedirectResponse::Redirect(loc) => assert_eq!(loc, stored),
        _ => panic!("redirect failed"),
    }
}

#[test]
fn registry_create_with_reports_an_id_collision() {
    let mut db = QrCodeDatabase::new();
    let id: u128 = 42;
    let first = db.create_with("https://example.com/a", id, "secret".to_string(), 1000);
    assert!(first.is_ok());
    let second = db.create_with("https://example.com/b", id, "other".to_string(), 2000);
    assert_eq!(second.unwrap_err(), CreateError::Storage);
    let bad = db.create_with("nope", 43, "secret".to_string(), 1000);
    assert_eq!(bad.unwrap_err(), CreateError::Validation);
}

#[test]
fn update_stamps_the_modification_time() {
    let mut db = QrCodeDatabase::new();
    let rec = db
        .create_with("https://example.com/a", 7, "secret".to_string(), 1000)
        .expect("creation failed");
    assert_eq!(rec.created_at, 1000);
    assert_eq!(rec.modified_at, None);
    let updated = db
        .update(7, "secret".to_string(), "https://example.org/b".to_string(), 2000)
        .expect("update refused");
    assert_eq!(updated.modified_at, Some(2000));
    assert_eq!(updated.created_at, 1000);
    assert_eq!(updated.link, "https://example.org/b");
}

#[test]
fn the_modification_time_never_decreases() {
    let mut db = QrCodeDatabase::new();
    db.create_with("https://example.com/a", 7, "secret".to_string(), 1000)
        .expect("creation failed");
    let first = db
        .update(7, "secret".to_string(), "https://example.org/b".to_string(), 2000)
        .expect("update refused");
    assert_eq!(first.modified_at, Some(2000));
    // The clock stepped back: the stored stamp must stand.
    let second = db
        .update(7, "secret".to_string(), "https://example.net/c".to_string(), 1500)
        .expect("update refused");
    assert_eq!(second.modified_at, Some(2000));
    assert_eq!(second.link, "https://example.net/c");
    let third = db
        .update(7, "secret".to_string(), "https://example.net/d".to_string(), 3000)
        .expect("update refused");
    assert_eq!(third.modified_at, Some(3000));
}

#[test]
fn update_normalizes_the_new_target() {
    let mut db = QrCodeDatabase::new();
    let (id, _stored, pass) = created(&mut db, "https://example.com/a");
    match QrCodeApi.update(&mut db, id, pass, "HTTPS://EXAMPLE.ORG") {
        QrCodeUpdateResponse::Updated(_) => {}
        _ => panic!("update refused"),
    }
    match QrCodeApi.get(&db, id) {
        QrCodeGetResponse::Found(resp) => assert_eq!(resp.link, "https://example.org/"),
        QrCodeGetResponse::NotFound(msg) => panic!("record vanished: {msg}"),
    }
}
