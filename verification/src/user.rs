use vstd::prelude::*;

verus! {

/// A stored user row: an identifier assigned by the store together with the
/// stored name. Identifiers are positive and assigned in insertion order.
pub struct User {
    pub id: i32,
    pub name: String,
}

/// The creation payload: only a requested name. A `User` exists only once the
/// store has assigned it an identifier.
pub struct NewUser {
    pub name: String,
}

} // verus!
