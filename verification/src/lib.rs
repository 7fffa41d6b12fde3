//! A multi-user list and item manager.
//!
//! Users sign up and log in to obtain a signed bearer token; every later
//! request carries that token, which is checked for a valid signature, for
//! expiry against an injected clock, and for revocation against the session
//! identifier stored on the user record. Lists and their items are guarded by
//! a user-to-list association table: mutating or deleting a list requires
//! ownership, while reading a list or touching its items requires only
//! access. The storage tables are modelled in memory with their invariants;
//! password hashing and token signing are performed by outside crates behind
//! narrow trusted wrappers.

use vstd::prelude::*;
use vstd::string::StrSliceExecFns;

pub mod account_service;
pub mod constants;
pub mod gate;
pub mod items;
pub mod laws;
pub mod list_service;
pub mod lists;
pub mod password;
pub mod response;
pub mod store;
pub mod text;
pub mod token;
pub mod user_lists;
pub mod users;

use crate::store::Store;

verus! {

/// The assembled application: the storage model and the signing secret,
/// loaded once at startup and immutable for the life of the process. Every
/// operation of the library runs against the store held here and checks
/// tokens against this secret.
pub struct Application {
    pub store: Store,
    pub secret: Vec<u8>,
}

/// Builds the application instance to use: an empty store, and the signing
/// secret the deployment provided.
pub fn rocket(secret: Vec<u8>) -> (r: Application)
    ensures
        r.store.wf(),
        r.store.users@.len() == 0,
        r.store.lists@.len() == 0,
        r.store.items@.len() == 0,
        r.store.links@.len() == 0,
        r.secret@ == secret@,
{
    Application { store: Store::new(), secret }
}

/// The body served for a path no route recognises.
pub fn not_found(path: &str) -> (r: String)
    ensures
        r@ == "Sorry, '"@ + path@ + "' is not a valid path."@,
{
    let mut message = "Sorry, '".to_owned();
    message.append(path);
    message.append("' is not a valid path.");
    message
}

/// The greeting served at the root path.
pub fn index() -> (r: &'static str)
    ensures
        r@ == "Hello world!"@,
{
    "Hello world!"
}

} // verus!
