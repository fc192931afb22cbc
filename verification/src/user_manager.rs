//! The register of users and the sequential ids it hands out.

use crate::clock::unix_seconds;
use crate::decimal::decimal_digits;
use crate::decimal::push_decimal;
use crate::models::User;
use crate::models::UserView;
use std::collections::HashMap;
use vstd::prelude::*;
use vstd::string::StringExecFns;

verus! {

broadcast use vstd::std_specs::hash::group_hash_axioms;

/// The users by id. Ids are handed out from 1 upwards, one per user, and no
/// user is ever removed.
pub struct UserManager {
    users: HashMap<u64, User>,
    next_id: u64,
}

/// The line that lists one user.
pub open spec fn user_line(user: UserView) -> Seq<char> {
    "  ID: "@ + decimal_digits(user.id as nat) + " - Name: "@ + user.name
}

/// The listing of `count` users with the ids 1 to `count`: a heading, then
/// one line for each user in the order of the ids.
pub open spec fn user_listing(users: Map<u64, UserView>, count: nat) -> Seq<Seq<char>> {
    seq!["Current users:"@] + Seq::new(count, |i: int| user_line(users[(i + 1) as u64]))
}

impl View for UserManager {
    type V = Map<u64, UserView>;

    closed spec fn view(&self) -> Map<u64, UserView> {
        self.users@.map_values(|user: User| user@)
    }
}

impl UserManager {
    /// The id that the next new user will get.
    pub closed spec fn next_id(&self) -> u64 {
        self.next_id
    }

    /// The users are exactly those with the ids from 1 up to the next id,
    /// each recorded under its own id.
    pub open spec fn well_formed(&self) -> bool {
        &&& self.next_id() >= 1
        &&& forall|id: u64| #[trigger] self@.contains_key(id) <==> 1 <= id < self.next_id()
        &&& forall|id: u64| #[trigger] self@.contains_key(id) ==> self@[id].id == id
    }

    /// A register without users; the first id is 1.
    pub fn new() -> (manager: Self)
        ensures
            manager.well_formed(),
            manager@ == Map::<u64, UserView>::empty(),
            manager.next_id() == 1,
    {
        let manager = UserManager { users: HashMap::new(), next_id: 1 };
        manager
    }

    /// The id that the next new user will get.
    pub fn peek_next_id(&self) -> (id: u64)
        ensures
            id == self.next_id(),
    {
        self.next_id
    }

    /// Registers a user created at the given time and returns the new id.
    pub fn add_user_at(&mut self, name: String, created_at: u64) -> (id: u64)
        requires
            old(self).well_formed(),
            old(self).next_id() < u64::MAX,
        ensures
            final(self).well_formed(),
            id == old(self).next_id(),
            final(self).next_id() == id + 1,
            final(self)@ == old(self)@.insert(
                id,
                (UserView { id, name: name@, created_at }),
            ),
    {
        let id = self.next_id;
        self.users.insert(id, User::with_created_at(id, name, created_at));
        self.next_id += 1;
        assert(self@ == old(self)@.insert(id, UserView { id, name: name@, created_at }));
        id
    }

    /// Registers a user created now and returns the new id.
    pub fn add_user(&mut self, name: String) -> (id: u64)
        requires
            old(self).well_formed(),
            old(self).next_id() < u64::MAX,
        ensures
            final(self).well_formed(),
            id == old(self).next_id(),
            final(self).next_id() == id + 1,
            final(self)@.contains_key(id),
            final(self)@ == old(self)@.insert(id, final(self)@[id]),
            final(self)@[id].id == id,
            final(self)@[id].name == name@,
    {
        self.add_user_at(name, unix_seconds())
    }

    /// The user with the given id, if there is one.
    pub fn get_user(&self, id: u64) -> (found: Option<&User>)
        ensures
            match found {
                Some(user) => self@.contains_key(id) && user@ == self@[id],
                None => !self@.contains_key(id),
            },
    {
        self.users.get(&id)
    }

    /// The listing of all users, in the order of their ids.
    pub fn list_users(&self) -> (lines: Vec<String>)
        requires
            self.well_formed(),
        ensures
            lines.deep_view() == user_listing(self@, (self.next_id() - 1) as nat),
    {
        let mut lines: Vec<String> = Vec::new();
        lines.push(String::from_str("Current users:"));
        let mut id: u64 = 1;
        while id < self.next_id
            invariant
                1 <= id <= self.next_id,
                self.well_formed(),
                lines.deep_view() == user_listing(self@, (id - 1) as nat),
            decreases self.next_id - id,
        {
            let ghost before = lines.deep_view();
            assert(self@.contains_key(id));
            if let Some(user) = self.users.get(&id) {
                let mut line = String::from_str("  ID: ");
                push_decimal(&mut line, user.id);
                line.append(" - Name: ");
                line.append(user.name.as_str());
                lines.push(line);
            }
            assert(lines.deep_view() == before.push(user_line(self@[id])));
            id += 1;
        }
        lines
    }
}

} // verus!
