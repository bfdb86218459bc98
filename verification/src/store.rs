use vstd::prelude::*;

use crate::user::User;

verus! {

/// Sequential identifiers: row `i` of the listing holds id `i + 1`, the way
/// an insert-only table with an integer primary key assigns its keys.
pub open spec fn ids_sequential(users: Seq<User>) -> bool {
    forall|i: int| 0 <= i < users.len() ==> users[i].id == i + 1
}

/// The storage gateway, modelled as the table of user rows in insertion
/// order. This is the only component that owns persisted rows; handlers see
/// them only through the three calls below.
pub struct UserStore {
    users: Vec<User>,
}

impl View for UserStore {
    type V = Seq<User>;

    closed spec fn view(&self) -> Seq<User> {
        self.users@
    }
}

impl UserStore {
    /// Every row's id is its insertion position, counted from one.
    pub open spec fn wf(&self) -> bool {
        ids_sequential(self@)
    }

    /// An empty store.
    pub fn new() -> (s: UserStore)
        ensures
            s@ =~= Seq::<User>::empty(),
            s.wf(),
    {
        UserStore { users: Vec::new() }
    }

    /// All rows, in insertion order; an empty table is an empty listing, not
    /// an error.
    pub fn list_users(&self) -> (r: &Vec<User>)
        ensures
            r@ == self@,
    {
        &self.users
    }

    /// The row with the given id, or nothing when no row carries it; absence
    /// is not an error at this layer.
    pub fn get_user(&self, id: i32) -> (r: Option<&User>)
        requires
            self.wf(),
        ensures
            1 <= id <= self@.len() ==> (r matches Some(u) && *u == self@[id - 1] && u.id == id),
            !(1 <= id <= self@.len()) ==> r is None,
    {
        if 1 <= id && (id as usize) <= self.users.len() {
            Some(&self.users[(id as usize) - 1])
        } else {
            None
        }
    }

    /// Inserts a row under the next id and returns the stored row whole, id
    /// included, so that no follow-up read is ever needed.
    pub fn insert_user(&mut self, name: String) -> (r: User)
        requires
            old(self).wf(),
            old(self)@.len() + 1 <= i32::MAX,
        ensures
            final(self).wf(),
            final(self)@ == old(self)@.push(
                User { id: (old(self)@.len() + 1) as i32, name },
            ),
            r.id == old(self)@.len() + 1,
            r.name@ == name@,
    {
        let id: i32 = (self.users.len() + 1) as i32;
        let returned_name = name.clone();
        self.users.push(User { id, name });
        proof {
            assert forall|i: int| 0 <= i < self@.len() implies self@[i].id == i + 1 by {
                if i + 1 < self@.len() {
                    assert(self@[i] == old(self)@[i]);
                }
            }
        }
        User { id, name: returned_name }
    }
}

} // verus!
