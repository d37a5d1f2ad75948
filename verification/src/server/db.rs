//! An earlier form of the user store, over a sled database, that registers
//! nothing.

use vstd::prelude::*;
use crate::server::model::kv::db_entries;
use crate::shared::requests::LoginRegisterRequest;

verus! {

/// A store over a sled database.
pub struct Storage {
    db: sled::Db,
}

impl View for Storage {
    type V = Map<Seq<u8>, Seq<u8>>;

    closed spec fn view(&self) -> Map<Seq<u8>, Seq<u8>> {
        db_entries(self.db)
    }
}

impl Storage {
    /// A store over an opened database.
    pub fn new(db: sled::Db) -> (s: Self)
        ensures
            s@ == db_entries(db),
    {
        Storage { db }
    }

    /// Accepts a registration and stores nothing.
    pub fn register_user(&mut self, request: &LoginRegisterRequest)
        ensures
            final(self)@ == old(self)@,
    {
    }
}

} // verus!
