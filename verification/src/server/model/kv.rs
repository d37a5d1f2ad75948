//! The sled trees that hold the users, as the library sees them: a map from
//! key bytes to value bytes. A user's key is the UTF-8 bytes of the user
//! name, its value the record of its password.
//!
//! The claims below treat a tree as owned by the value that holds it: they
//! describe what one handle reads and writes while no other handle to the
//! same tree writes to it.

use vstd::prelude::*;
use vstd::utf8::*;
use vstd::string::to_string_from_display_ensures;
use crate::server::app_error::AppError;
use crate::server::model::record::{decode_text, lemma_text_record_roundtrip, record_text, text_record};

verus! {

broadcast use {encode_utf8_valid_utf8, encode_utf8_decode_utf8};

#[verifier::external_type_specification]
#[verifier::external_body]
pub struct ExTree(sled::Tree);

#[verifier::external_type_specification]
#[verifier::external_body]
pub struct ExDb(sled::Db);

#[verifier::external_type_specification]
#[verifier::external_body]
pub struct ExSledError(sled::Error);

/// The entries of a sled tree: the bytes of each key to the bytes of its value.
pub uninterp spec fn tree_entries(tree: sled::Tree) -> Map<Seq<u8>, Seq<u8>>;

/// The entries of the default tree of a sled database.
pub uninterp spec fn db_entries(db: sled::Db) -> Map<Seq<u8>, Seq<u8>>;

/// The key under which a user name is stored.
pub open spec fn user_key(name: Seq<char>) -> Seq<u8> {
    encode_utf8(name)
}

/// The password that `entries` holds for `name`: there is an entry for the
/// name and it reads back as a text.
pub open spec fn stored_password(entries: Map<Seq<u8>, Seq<u8>>, name: Seq<char>) -> Option<Seq<char>> {
    if entries.contains_key(user_key(name)) {
        record_text(entries[user_key(name)])
    } else {
        None
    }
}

/// The entries after `name` is registered with `password`.
pub open spec fn registered(entries: Map<Seq<u8>, Seq<u8>>, name: Seq<char>, password: Seq<char>) -> Map<
    Seq<u8>,
    Seq<u8>,
> {
    entries.insert(user_key(name), text_record(password))
}

/// `sled::Tree::get` with the bytes of a text as the key. Claimed: a value
/// comes back exactly when the tree holds the key, and it is the value held.
/// An error (I/O, corruption) says nothing of the entries.
#[verifier::external_body]
pub(crate) fn tree_get(tree: &sled::Tree, key: &str) -> (r: Result<Option<Vec<u8>>, sled::Error>)
    ensures
        r matches Ok(Some(v)) ==> tree_entries(*tree).contains_key(user_key(key@)) && v@
            == tree_entries(*tree)[user_key(key@)],
        r matches Ok(None) ==> !tree_entries(*tree).contains_key(user_key(key@)),
{
    match tree.get(key) {
        Ok(Some(value)) => Ok(Some(value.to_vec())),
        Ok(None) => Ok(None),
        Err(e) => Err(e),
    }
}

/// `sled::Tree::insert` with the bytes of a text as the key. Claimed: on
/// success the key holds the new value, every other entry is kept, and the
/// previous value, if any, comes back. After an error nothing is claimed of
/// the entries.
#[verifier::external_body]
pub(crate) fn tree_insert(tree: &mut sled::Tree, key: &str, value: Vec<u8>) -> (r: Result<
    Option<Vec<u8>>,
    sled::Error,
>)
    ensures
        r is Ok ==> tree_entries(*final(tree)) == tree_entries(*old(tree)).insert(
            user_key(key@),
            value@,
        ),
        r matches Ok(Some(p)) ==> tree_entries(*old(tree)).contains_key(user_key(key@)) && p@
            == tree_entries(*old(tree))[user_key(key@)],
        r matches Ok(None) ==> !tree_entries(*old(tree)).contains_key(user_key(key@)),
{
    match tree.insert(key, value) {
        Ok(Some(previous)) => Ok(Some(previous.to_vec())),
        Ok(None) => Ok(None),
        Err(e) => Err(e),
    }
}

/// `sled::Db::get` (the default tree) with the bytes of a text as the key.
/// Claimed as for `tree_get`.
#[verifier::external_body]
pub(crate) fn db_get(db: &sled::Db, key: &str) -> (r: Result<Option<Vec<u8>>, sled::Error>)
    ensures
        r matches Ok(Some(v)) ==> db_entries(*db).contains_key(user_key(key@)) && v@ == db_entries(
            *db,
        )[user_key(key@)],
        r matches Ok(None) ==> !db_entries(*db).contains_key(user_key(key@)),
{
    match db.get(key) {
        Ok(Some(value)) => Ok(Some(value.to_vec())),
        Ok(None) => Ok(None),
        Err(e) => Err(e),
    }
}

/// `sled::Db::insert` (the default tree) with the bytes of a text as the
/// key. Claimed as for `tree_insert`.
#[verifier::external_body]
pub(crate) fn db_insert(db: &mut sled::Db, key: &str, value: Vec<u8>) -> (r: Result<
    Option<Vec<u8>>,
    sled::Error,
>)
    ensures
        r is Ok ==> db_entries(*final(db)) == db_entries(*old(db)).insert(user_key(key@), value@),
        r matches Ok(Some(p)) ==> db_entries(*old(db)).contains_key(user_key(key@)) && p@
            == db_entries(*old(db))[user_key(key@)],
        r matches Ok(None) ==> !db_entries(*old(db)).contains_key(user_key(key@)),
{
    match db.insert(key, value) {
        Ok(Some(previous)) => Ok(Some(previous.to_vec())),
        Ok(None) => Ok(None),
        Err(e) => Err(e),
    }
}

/// Once a user is registered, the store gives back the password it was
/// registered with.
pub proof fn lemma_registered_user_found(
    entries: Map<Seq<u8>, Seq<u8>>,
    name: Seq<char>,
    password: Seq<char>,
)
    requires
        encode_utf8(password).len() <= u64::MAX,
    ensures
        stored_password(registered(entries, name, password), name) == Some(password),
{
    lemma_text_record_roundtrip(password, seq![]);
}

/// Registering a user leaves what the store holds for every other name as
/// it was.
pub proof fn lemma_registration_keeps_others(
    entries: Map<Seq<u8>, Seq<u8>>,
    name: Seq<char>,
    password: Seq<char>,
    other: Seq<char>,
)
    requires
        other != name,
    ensures
        stored_password(registered(entries, name, password), other) == stored_password(
            entries,
            other,
        ),
{
    assert(decode_utf8(user_key(name)) == name);
    assert(decode_utf8(user_key(other)) == other);
    assert(user_key(name) != user_key(other));
}

/// Whether `r` is what a lookup that came back with `record` gives:
/// `NotFound` without a record, else the text the record holds, or `Any`
/// where it holds none.
pub open spec fn answers_record(record: Option<Vec<u8>>, r: Result<String, AppError>) -> bool {
    match record {
        None => r matches Err(AppError::NotFound),
        Some(b) => match record_text(b@) {
            Some(s) => r matches Ok(p) && p@ == s,
            None => r matches Err(AppError::Any(_)),
        },
    }
}

/// The password that the answer of a lookup gives: `NotFound` when no
/// record came back, else the text that the record holds, or an error where
/// it holds none.
pub fn password_from_record(record: Option<Vec<u8>>) -> (r: Result<String, AppError>)
    ensures
        answers_record(record, r),
{
    match record {
        None => Err(AppError::NotFound),
        Some(bytes) => match decode_text(bytes.as_slice()) {
            Ok(text) => Ok(text),
            Err(reason) => Err(AppError::Any(reason)),
        },
    }
}

/// The text is what a sled error displays: it reports a failed read or
/// write of the store.
pub open spec fn sled_failure_text(m: String) -> bool {
    exists|e: sled::Error| #[trigger] to_string_from_display_ensures::<sled::Error>(&e, m)
}

/// The password that a read of the store gives: a failed read is reported
/// as `Any`, a read that came back is answered as `password_from_record`
/// answers its record.
pub fn password_from_read(read: Result<Option<Vec<u8>>, sled::Error>) -> (r: Result<String, AppError>)
    ensures
        read is Err ==> r matches Err(AppError::Any(_)),
        read matches Err(e) ==> (r matches Err(AppError::Any(m))
            && to_string_from_display_ensures::<sled::Error>(&e, m)),
        read matches Ok(record) ==> answers_record(record, r),
{
    match read {
        Err(e) => Err(AppError::Any(e.to_string())),
        Ok(record) => password_from_record(record),
    }
}

/// The refusal that the answer of a lookup calls for: a name that already
/// gives back a user is refused, and nothing else is.
pub fn refusal_for<U>(lookup: &Result<U, AppError>) -> (r: Option<AppError>)
    ensures
        (lookup is Ok) == (r is Some),
        r matches Some(e) ==> (e matches AppError::PermissionDenied(m) && m@ == "User already exists"@),
{
    proof {
        reveal_strlit("User already exists");
    }
    match lookup {
        Ok(_) => Some(AppError::PermissionDenied(String::from_str("User already exists"))),
        Err(_) => None,
    }
}

} // verus!
