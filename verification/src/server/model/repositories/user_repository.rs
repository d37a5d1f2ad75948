//! The user store kept in a sled tree.

use vstd::prelude::*;
use crate::server::app_error::AppError;
use crate::server::model::db;
use crate::server::model::kv::{
    tree_entries, tree_get, tree_insert, password_from_read, refusal_for, sled_failure_text, stored_password, registered,
    lemma_registered_user_found,
};
use crate::server::model::record::encode_text;
use crate::server::model::user::User;
use crate::shared::requests::LoginRegisterRequest;
use vstd::utf8::encode_utf8;

verus! {

/// The users of the server, in a sled tree: user name to the record of the
/// password.
pub struct UserRepository {
    tree: sled::Tree,
}

impl View for UserRepository {
    type V = Map<Seq<u8>, Seq<u8>>;

    closed spec fn view(&self) -> Map<Seq<u8>, Seq<u8>> {
        tree_entries(self.tree)
    }
}

impl UserRepository {
    /// A repository over a tree.
    pub fn new(tree: sled::Tree) -> (s: Self)
        ensures
            s@ == tree_entries(tree),
    {
        UserRepository { tree }
    }

    /// Looks a user up by name. A user comes back only with the password
    /// the tree holds for the name, `NotFound` only where the name has no
    /// entry; `Any` reports a failed read or a record that holds no text.
    pub fn find_user(&self, username: &str) -> (r: Result<User, AppError>)
        ensures
            r matches Ok(u) ==> stored_password(self@, username@) == Some(u.password@),
            r matches Err(AppError::NotFound) ==> !self@.contains_key(encode_utf8(username@)),
            r is Ok || r matches Err(AppError::NotFound) || r matches Err(AppError::Any(_)),
            stored_password(self@, username@) matches Some(p) ==> (r matches Ok(u) && u.password@
                == p) || (r matches Err(AppError::Any(m)) && sled_failure_text(m)),
            !self@.contains_key(encode_utf8(username@)) ==> r matches Err(AppError::NotFound) || (
            r matches Err(AppError::Any(m)) && sled_failure_text(m)),
            self@.contains_key(encode_utf8(username@)) && stored_password(self@, username@) is None
                ==> r matches Err(AppError::Any(_)),
    {
        match password_from_read(tree_get(&self.tree, username)) {
            Ok(password) => Ok(User { password }),
            Err(e) => Err(e),
        }
    }

    /// Registers a user. A name for which the tree already gives back a
    /// user is refused with `PermissionDenied`, and the tree is left as it
    /// was. Otherwise the record of the password is written under the name;
    /// after success the tree gives that password back for the name and
    /// holds every other entry as before. `Any` reports a failed write.
    pub fn register_user(&mut self, request: &LoginRegisterRequest) -> (r: Result<(), AppError>)
        ensures
            r matches Err(AppError::PermissionDenied(m)) ==> m@ == "User already exists"@ && final(self)@
                == old(self)@ && stored_password(old(self)@, request.username@) is Some,
            r is Ok ==> final(self)@ == registered(old(self)@, request.username@, request.password@),
            r is Ok ==> stored_password(final(self)@, request.username@) == Some(request.password@),
            r is Ok || r matches Err(AppError::PermissionDenied(_)) || r matches Err(
                AppError::Any(_),
            ),
            r matches Err(AppError::Any(m)) ==> sled_failure_text(m),
    {
        let lookup = self.find_user(request.username.as_str());
        self.register_after_lookup(request, &lookup)
    }

    /// Registers a user once the name has been looked up: a lookup that gave
    /// back a user is answered with `PermissionDenied` and the store is left
    /// as it was; any other answer lets the record of the password be
    /// written under the name. After success the store gives that password
    /// back for the name and holds every other entry as before. `Any`
    /// reports a failed write.
    pub fn register_after_lookup(
        &mut self,
        request: &LoginRegisterRequest,
        lookup: &Result<User, AppError>,
    ) -> (r: Result<(), AppError>)
        ensures
            lookup is Ok ==> (r matches Err(AppError::PermissionDenied(m)) && m@
                == "User already exists"@),
            lookup is Ok ==> final(self)@ == old(self)@,
            lookup is Err ==> (r is Ok || r matches Err(AppError::Any(_))),
            lookup is Err ==> (r is Ok || (r matches Err(AppError::Any(m)) && sled_failure_text(m))),
            r matches Err(AppError::Any(m)) ==> sled_failure_text(m),
            r is Ok ==> final(self)@ == registered(old(self)@, request.username@, request.password@),
            r is Ok ==> stored_password(final(self)@, request.username@) == Some(request.password@),
    {
        if let Some(refusal) = refusal_for(lookup) {
            return Err(refusal);
        }
        let user = db::User { password: request.password.clone() };
        let bytes = encode_text(user.password.as_str());
        proof {
            assert(bytes@.len() == bytes.len());
            assert(encode_utf8(request.password@).len() <= bytes@.len());
            lemma_registered_user_found(tree_entries(self.tree), request.username@, request.password@);
        }
        match tree_insert(&mut self.tree, request.username.as_str(), bytes) {
            Ok(_) => Ok(()),
            Err(e) => Err(AppError::Any(e.to_string())),
        }
    }
}

} // verus!
