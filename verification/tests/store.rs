use simchat::server::app_error::AppError;
use simchat::server::db::Storage as PlainStorage;
use simchat::server::model::db::{Storage, User as DbUser};
use simchat::server::model::user::User;
use simchat::server::model::kv::{password_from_read, password_from_record, refusal_for};
use simchat::server::model::record::{decode_text, encode_text, record_claim_fits_in};
use simchat::server::model::repositories::user_repository::UserRepository;
use simchat::shared::requests::LoginRegisterRequest;

fn temp_db() -> sled::Db {
    sled::Config::new().temporary(true).open().unwrap()
}

fn request(name: &str, password: &str) -> LoginRegisterRequest {
    LoginRegisterRequest {
        username: name.to_string(),
        password: password.to_string(),
        invitation_code: None,
    }
}

#[test]
fn registered_user_is_found_with_its_password() {
    let db = temp_db();
    let mut repo = UserRepository::new(db.open_tree("users").unwrap());
    repo.register_user(&request("alice", "hunter2")).unwrap();
    let user = repo.find_user("alice").unwrap();
    assert_eq!(user.password, "hunter2");
}

#[test]
fn second_registration_is_refused() {
    let db = temp_db();
    let mut repo = UserRepository::new(db.open_tree("users").unwrap());
    repo.register_user(&request("alice", "first")).unwrap();
    match repo.register_user(&request("alice", "second")) {
        Err(AppError::PermissionDenied(m)) => assert_eq!(m, "User already exists"),
        other => panic!("unexpected {:?}", other),
    }
    assert_eq!(repo.find_user("alice").unwrap().password, "first");
}

#[test]
fn unknown_user_is_not_found() {
    let db = temp_db();
    let repo = UserRepository::new(db.open_tree("users").unwrap());
    assert!(matches!(repo.find_user("nobody"), Err(AppError::NotFound)));
}

#[test]
fn registration_keeps_other_users() {
    let db = temp_db();
    let mut repo = UserRepository::new(db.open_tree("users").unwrap());
    repo.register_user(&request("alice", "a-pass")).unwrap();
    repo.register_user(&request("bob", "b-pass")).unwrap();
    assert_eq!(repo.find_user("alice").unwrap().password, "a-pass");
    assert_eq!(repo.find_user("bob").unwrap().password, "b-pass");
}

#[test]
fn unreadable_record_is_reported() {
    let db = temp_db();
    let tree = db.open_tree("users").unwrap();
    tree.insert("mallory", vec![5u8, b'a']).unwrap();
    tree.insert("eve", vec![1u8, 0xff]).unwrap();
    let mut repo = UserRepository::new(tree);
    assert!(matches!(repo.find_user("mallory"), Err(AppError::Any(_))));
    assert!(matches!(repo.find_user("eve"), Err(AppError::Any(_))));
    // An unreadable record does not block a new registration under its name.
    repo.register_user(&request("eve", "fresh")).unwrap();
    assert_eq!(repo.find_user("eve").unwrap().password, "fresh");
}

#[test]
fn stored_record_is_bincode_of_the_password() {
    let db = temp_db();
    let tree = db.open_tree("users").unwrap();
    let mut repo = UserRepository::new(tree.clone());
    repo.register_user(&request("alice", "pw")).unwrap();
    let stored = tree.get("alice").unwrap().unwrap();
    assert_eq!(stored.to_vec(), vec![2u8, b'p', b'w']);
}

#[test]
fn database_storage_registers_and_finds() {
    let mut storage = Storage::new(temp_db());
    assert!(matches!(storage.find_user("carol"), Err(AppError::NotFound)));
    storage.register_user(&request("carol", "c4r0l")).unwrap();
    assert_eq!(storage.find_user("carol").unwrap().password, "c4r0l");
    match storage.register_user(&request("carol", "other")) {
        Err(AppError::PermissionDenied(m)) => assert_eq!(m, "User already exists"),
        other => panic!("unexpected {:?}", other),
    }
}

#[test]
fn plain_storage_registers_nothing() {
    let db = temp_db();
    let mut storage = PlainStorage::new(db.clone());
    storage.register_user(&request("dave", "pw"));
    assert!(db.get("dave").unwrap().is_none());
}

#[test]
fn record_of_short_text() {
    assert_eq!(encode_text("hunter2"), b"\x07hunter2".to_vec());
    assert_eq!(encode_text(""), vec![0u8]);
    assert_eq!(encode_text("é"), vec![2u8, 0xc3, 0xa9]);
}

#[test]
fn record_of_long_text_uses_wide_lengths() {
    let text = "x".repeat(300);
    let bytes = encode_text(&text);
    assert_eq!(&bytes[..3], &[251u8, 44, 1]);
    assert_eq!(bytes.len(), 303);
    let text = "y".repeat(70000);
    let bytes = encode_text(&text);
    assert_eq!(&bytes[..5], &[252u8, 0x70, 0x11, 0x01, 0x00]);
    assert_eq!(decode_text(&bytes).unwrap(), text);
}

#[test]
fn record_of_250_and_251_bytes() {
    assert_eq!(encode_text(&"a".repeat(250))[0], 250u8);
    assert_eq!(&encode_text(&"a".repeat(251))[..3], &[251u8, 251, 0]);
}

#[test]
fn record_reads_back_ignoring_trailing_bytes() {
    let mut bytes = encode_text("hello");
    bytes.extend_from_slice(&[9, 9, 9]);
    assert_eq!(decode_text(&bytes).unwrap(), "hello");
}

#[test]
fn wide_length_marker_with_small_value_is_read() {
    assert_eq!(decode_text(&[251u8, 2, 0, b'o', b'k']).unwrap(), "ok");
}

#[test]
fn bad_records_are_refused() {
    assert!(decode_text(&[]).is_err());
    assert!(decode_text(&[5u8, b'a']).is_err());
    assert!(decode_text(&[1u8, 0xff]).is_err());
    assert!(decode_text(&[254u8, 0, 0]).is_err());
    assert!(decode_text(&[255u8]).is_err());
    assert!(decode_text(&[251u8, 1]).is_err());
    assert!(decode_text(&[253u8, 0, 0, 0, 0, 0, 0, 0, 1]).is_err());
}

#[test]
fn claim_check() {
    assert!(record_claim_fits_in(&[]));
    assert!(record_claim_fits_in(&[2u8, 1, 2]));
    assert!(!record_claim_fits_in(&[3u8, 1, 2]));
    assert!(!record_claim_fits_in(&[253u8, 0, 0, 0, 0, 0, 0, 0, 1]));
    assert!(record_claim_fits_in(&[252u8, 1, 0, 0, 0, 7]));
    assert!(record_claim_fits_in(&[254u8]));
}

#[test]
fn password_from_missing_or_bad_record() {
    assert!(matches!(password_from_record(None), Err(AppError::NotFound)));
    assert!(matches!(password_from_record(Some(vec![9u8])), Err(AppError::Any(_))));
    assert_eq!(password_from_record(Some(encode_text("pw"))).unwrap(), "pw");
}

#[test]
fn failed_read_is_reported() {
    let read: Result<Option<Vec<u8>>, sled::Error> = Err(sled::Error::Unsupported("down".into()));
    assert!(matches!(password_from_read(read), Err(AppError::Any(_))));
    assert!(matches!(password_from_read(Ok(None)), Err(AppError::NotFound)));
    assert_eq!(password_from_read(Ok(Some(encode_text("pw")))).unwrap(), "pw");
    assert!(matches!(password_from_read(Ok(Some(vec![1u8, 0xff]))), Err(AppError::Any(_))));
}

#[test]
fn only_a_found_user_is_refused() {
    let found: Result<u8, AppError> = Ok(1);
    match refusal_for(&found) {
        Some(AppError::PermissionDenied(m)) => assert_eq!(m, "User already exists"),
        other => panic!("unexpected {:?}", other),
    }
    let missing: Result<u8, AppError> = Err(AppError::NotFound);
    assert!(refusal_for(&missing).is_none());
    let broken: Result<u8, AppError> = Err(AppError::Any("bad".into()));
    assert!(refusal_for(&broken).is_none());
}

#[test]
fn register_after_lookup_follows_the_lookup() {
    let db = temp_db();
    let mut repo = UserRepository::new(db.open_tree("users").unwrap());
    let found: Result<User, AppError> = Ok(User { password: "old".into() });
    assert!(matches!(
        repo.register_after_lookup(&request("ann", "new"), &found),
        Err(AppError::PermissionDenied(_))
    ));
    assert!(matches!(repo.find_user("ann"), Err(AppError::NotFound)));
    let missing: Result<User, AppError> = Err(AppError::NotFound);
    repo.register_after_lookup(&request("ann", "new"), &missing).unwrap();
    assert_eq!(repo.find_user("ann").unwrap().password, "new");

    let mut storage = Storage::new(temp_db());
    let found: Result<DbUser, AppError> = Ok(DbUser { password: "old".into() });
    assert!(matches!(
        storage.register_after_lookup(&request("ann", "new"), &found),
        Err(AppError::PermissionDenied(_))
    ));
    assert!(matches!(storage.find_user("ann"), Err(AppError::NotFound)));
    let broken: Result<DbUser, AppError> = Err(AppError::Any("bad".into()));
    storage.register_after_lookup(&request("ann", "new"), &broken).unwrap();
    assert_eq!(storage.find_user("ann").unwrap().password, "new");
}
