//! A collection of users held in memory. It keeps the rule that the
//! database's unique index keeps: no two stored users share a username.
//! It serves where no database is at hand, and each of its operations does
//! to its contents exactly what the storage operation of that name is
//! defined to do.

use vstd::prelude::*;
use crate::patch::UserPatch;
use crate::storage::{
    accepts, deleted, found, inserted, is_listing, matched, nobody, updated, well_formed, Users,
};
use crate::user::{user_views, User, UserView};

verus! {

/// An insert that was refused: a stored user has the username already.
#[derive(Debug, PartialEq, Eq)]
pub struct Conflict {
    pub username: String,
}

/// The users, each username once.
pub struct UserCollection {
    users: Vec<User>,
}

/// No two users of the list share a username.
spec fn distinct(list: Seq<UserView>) -> bool {
    forall|i: int, j: int|
        0 <= i < j < list.len() ==> (#[trigger] list[i]).username != (#[trigger] list[j]).username
}

/// Somebody in the list has the username.
spec fn holds(list: Seq<UserView>, name: Seq<char>) -> bool {
    exists|i: int| 0 <= i < list.len() && (#[trigger] list[i]).username == name
}

/// A place in the list at which the username stands.
spec fn place(list: Seq<UserView>, name: Seq<char>) -> int {
    choose|i: int| 0 <= i < list.len() && (#[trigger] list[i]).username == name
}

/// The users of the list by username.
spec fn by_username(list: Seq<UserView>) -> Users {
    Map::new(|name: Seq<char>| holds(list, name), |name: Seq<char>| list[place(list, name)])
}

/// The usernames of the list, in its order.
spec fn usernames(list: Seq<UserView>) -> Seq<Seq<char>> {
    Seq::new(list.len(), |i: int| list[i].username)
}

/// Each user of a list without repeated usernames is stored under its
/// username.
proof fn lemma_stored_at(list: Seq<UserView>, i: int)
    requires
        distinct(list),
        0 <= i < list.len(),
    ensures
        by_username(list).contains_key(list[i].username),
        by_username(list)[list[i].username] == list[i],
{
    let name = list[i].username;
    assert(holds(list, name));
    let j = place(list, name);
    assert(0 <= j < list.len() && list[j].username == name);
    if j < i {
        assert(list[j].username != list[i].username);
    } else if i < j {
        assert(list[i].username != list[j].username);
    }
}

/// The usernames in use are those of the list: finitely many, and as many
/// as the list is long where no username repeats.
proof fn lemma_count(list: Seq<UserView>)
    ensures
        by_username(list).dom().finite(),
        distinct(list) ==> by_username(list).dom().len() == list.len(),
{
    let names = usernames(list);
    assert(by_username(list).dom() =~= names.to_set()) by {
        assert forall|name: Seq<char>| holds(list, name) <==> names.contains(name) by {
            if holds(list, name) {
                let i = place(list, name);
                assert(names[i] == name);
            }
            if names.contains(name) {
                let i = choose|i: int| 0 <= i < names.len() && names[i] == name;
                assert(list[i].username == name);
            }
        }
    }
    vstd::seq_lib::seq_to_set_is_finite(names);
    if distinct(list) {
        assert(names.no_duplicates()) by {
            assert forall|i: int, j: int|
                0 <= i < names.len() && 0 <= j < names.len() && i != j implies names[i]
                != names[j] by {
                if i < j {
                    assert(list[i].username != list[j].username);
                } else {
                    assert(list[j].username != list[i].username);
                }
            }
        }
        names.unique_seq_to_set();
    }
}

/// The map of any list is well formed.
proof fn lemma_well_formed(list: Seq<UserView>)
    ensures
        well_formed(by_username(list)),
{
    lemma_count(list);
    assert forall|name: Seq<char>| #[trigger]
        by_username(list).contains_key(name) implies by_username(list)[name].username
        == name by {
        assert(holds(list, name));
    }
}

/// A list without repeated usernames lists its own map.
proof fn lemma_listing(list: Seq<UserView>)
    requires
        distinct(list),
    ensures
        is_listing(by_username(list), list),
{
    lemma_count(list);
    let users = by_username(list);
    assert forall|i: int| 0 <= i < list.len() implies users.contains_key(
        #[trigger] list[i].username,
    ) && users[list[i].username] == list[i] by {
        lemma_stored_at(list, i);
    }
    assert forall|name: Seq<char>| #[trigger] users.contains_key(name) implies list.contains(
        users[name],
    ) by {
        assert(holds(list, name));
        let i = place(list, name);
        assert(list[i] == users[name]);
    }
}

/// Appending a user whose username is free inserts it.
proof fn lemma_push(list: Seq<UserView>, user: UserView)
    requires
        distinct(list),
        !holds(list, user.username),
    ensures
        distinct(list.push(user)),
        by_username(list.push(user)) == by_username(list).insert(user.username, user),
{
    let longer = list.push(user);
    assert forall|i: int, j: int| 0 <= i < j < longer.len() implies (#[trigger] longer[i]).username
        != (#[trigger] longer[j]).username by {
        if j < list.len() {
            assert(list[i].username != list[j].username);
        } else {
            assert(longer[i] == list[i]);
            if list[i].username == user.username {
                assert(holds(list, user.username));
            }
        }
    }
    let grown = by_username(list).insert(user.username, user);
    assert forall|name: Seq<char>| by_username(longer).contains_key(name) <==> grown.contains_key(
        name,
    ) by {
        if holds(longer, name) {
            let i = place(longer, name);
            if i < list.len() {
                assert(list[i].username == name);
            }
        }
        if holds(list, name) {
            let i = place(list, name);
            assert(longer[i].username == name);
        }
        if name == user.username {
            assert(longer[list.len() as int].username == name);
        }
    }
    assert forall|name: Seq<char>| by_username(longer).contains_key(name) implies by_username(
        longer,
    )[name] == grown[name] by {
        let i = place(longer, name);
        assert(holds(longer, name));
        lemma_stored_at(longer, i);
        if i < list.len() {
            assert(longer[i] == list[i]);
            lemma_stored_at(list, i);
        }
    }
    assert(by_username(longer) =~= grown);
}

/// The place that the user at `i` of a list had before the user at `at`
/// was taken out.
spec fn origin(i: int, at: int) -> int {
    if i < at {
        i
    } else {
        i + 1
    }
}

/// Taking a user out of the list removes its username.
proof fn lemma_remove(list: Seq<UserView>, at: int)
    requires
        distinct(list),
        0 <= at < list.len(),
    ensures
        distinct(list.remove(at)),
        by_username(list.remove(at)) == by_username(list).remove(list[at].username),
{
    let shorter = list.remove(at);
    let gone = list[at].username;
    assert forall|i: int, j: int| 0 <= i < j < shorter.len() implies (#[trigger] shorter[i]).username
        != (#[trigger] shorter[j]).username by {
        assert(shorter[i] == list[origin(i, at)]);
        assert(shorter[j] == list[origin(j, at)]);
    }
    let rest = by_username(list).remove(gone);
    assert forall|name: Seq<char>| by_username(shorter).contains_key(name) <==> rest.contains_key(
        name,
    ) by {
        if holds(shorter, name) {
            let i = place(shorter, name);
            let a = origin(i, at);
            assert(shorter[i] == list[a]);
            if a < at {
                assert(list[a].username != list[at].username);
            } else {
                assert(list[at].username != list[a].username);
            }
        }
        if holds(list, name) && name != gone {
            let a = place(list, name);
            let i = if a < at { a } else { a - 1 };
            assert(shorter[i] == list[a]);
        }
    }
    assert forall|name: Seq<char>| by_username(shorter).contains_key(name) implies by_username(
        shorter,
    )[name] == rest[name] by {
        assert(holds(shorter, name));
        let i = place(shorter, name);
        assert(shorter[i] == list[origin(i, at)]);
        lemma_stored_at(shorter, i);
        lemma_stored_at(list, origin(i, at));
    }
    assert(by_username(shorter) =~= rest);
}

/// Replacing a user by one of the same username stores the new one.
proof fn lemma_replace(list: Seq<UserView>, at: int, user: UserView)
    requires
        distinct(list),
        0 <= at < list.len(),
        user.username == list[at].username,
    ensures
        distinct(list.update(at, user)),
        by_username(list.update(at, user)) == by_username(list).insert(user.username, user),
{
    let changed = list.update(at, user);
    assert forall|i: int, j: int| 0 <= i < j < changed.len() implies (#[trigger] changed[i]).username
        != (#[trigger] changed[j]).username by {
        assert(list[i].username != list[j].username);
    }
    let grown = by_username(list).insert(user.username, user);
    assert forall|name: Seq<char>| by_username(changed).contains_key(name) <==> grown.contains_key(
        name,
    ) by {
        if holds(changed, name) {
            let i = place(changed, name);
            assert(list[i].username == name);
        }
        if holds(list, name) {
            let i = place(list, name);
            assert(changed[i].username == name);
        }
        if name == user.username {
            assert(changed[at].username == name);
        }
    }
    assert forall|name: Seq<char>| by_username(changed).contains_key(name) implies by_username(
        changed,
    )[name] == grown[name] by {
        assert(holds(changed, name));
        let i = place(changed, name);
        lemma_stored_at(changed, i);
        if i != at {
            assert(changed[i] == list[i]);
            lemma_stored_at(list, i);
            if i < at {
                assert(list[i].username != list[at].username);
            } else {
                assert(list[at].username != list[i].username);
            }
        }
    }
    assert(by_username(changed) =~= grown);
}

impl View for UserCollection {
    type V = Users;

    closed spec fn view(&self) -> Users {
        by_username(user_views(self.users@))
    }
}

impl UserCollection {
    #[verifier::type_invariant]
    spec fn usernames_unique(&self) -> bool {
        distinct(user_views(self.users@))
    }

    /// A collection that holds nobody.
    pub fn new() -> (collection: UserCollection)
        ensures
            collection@ == nobody(),
            well_formed(collection@),
    {
        let collection = UserCollection { users: Vec::new() };
        proof {
            assert(collection@ =~= nobody());
            lemma_well_formed(user_views(collection.users@));
        }
        collection
    }

    /// Where the user with the username stands, if anybody has it.
    fn position(&self, username: &str) -> (at: Option<usize>)
        ensures
            match at {
                Some(i) => i < self.users@.len() && self.users@[i as int]@.username == username@,
                None => !holds(user_views(self.users@), username@),
            },
    {
        let wanted = username.to_owned();
        let mut i: usize = 0;
        while i < self.users.len()
            invariant
                i <= self.users@.len(),
                wanted@ == username@,
                forall|k: int| 0 <= k < i ==> (#[trigger] self.users@[k])@.username != username@,
            decreases self.users@.len() - i,
        {
            if self.users[i].username == wanted {
                return Some(i);
            }
            i += 1;
        }
        proof {
            let list = user_views(self.users@);
            if holds(list, username@) {
                let k = place(list, username@);
                assert(self.users@[k]@.username == username@);
            }
        }
        None
    }

    /// The number of stored users.
    pub fn len(&self) -> (count: usize)
        ensures
            count == self@.dom().len(),
            well_formed(self@),
    {
        proof {
            use_type_invariant(self);
            lemma_count(user_views(self.users@));
            lemma_well_formed(user_views(self.users@));
        }
        self.users.len()
    }

    /// Stores `user`, unless somebody stored has its username: then the
    /// insert is refused and nothing changes.
    pub fn insert(&mut self, user: User) -> (outcome: Result<(), Conflict>)
        ensures
            outcome is Ok <==> accepts(old(self)@, user@),
            outcome is Err ==> outcome->Err_0.username@ == user@.username,
            final(self)@ == inserted(old(self)@, user@),
            well_formed(final(self)@),
    {
        proof {
            use_type_invariant(&*self);
        }
        let ghost before = user_views(self.users@);
        let at = self.position(user.username.as_str());
        match at {
            Some(i) => {
                proof {
                    lemma_stored_at(before, i as int);
                    lemma_well_formed(before);
                }
                Err(Conflict { username: user.username })
            },
            None => {
                let mut users: Vec<User> = Vec::new();
                core::mem::swap(&mut self.users, &mut users);
                users.push(user);
                proof {
                    assert(user_views(users@) =~= before.push(user@));
                    lemma_push(before, user@);
                    lemma_well_formed(before.push(user@));
                }
                self.users = users;
                Ok(())
            },
        }
    }

    /// The stored user with the username, if there is one.
    pub fn find_one(&self, username: &str) -> (user: Option<User>)
        ensures
            match user {
                Some(u) => found(self@, username@) == Some(u@),
                None => found(self@, username@) is None,
            },
    {
        proof {
            use_type_invariant(self);
        }
        match self.position(username) {
            Some(i) => {
                proof {
                    lemma_stored_at(user_views(self.users@), i as int);
                }
                Some(self.users[i].clone())
            },
            None => None,
        }
    }

    /// All stored users, each once.
    pub fn find_all(&self) -> (all: Vec<User>)
        ensures
            is_listing(self@, user_views(all@)),
            well_formed(self@),
    {
        let mut all: Vec<User> = Vec::new();
        let mut i: usize = 0;
        while i < self.users.len()
            invariant
                i <= self.users@.len(),
                all@.len() == i,
                forall|k: int| 0 <= k < i ==> (#[trigger] all@[k])@ == self.users@[k]@,
            decreases self.users@.len() - i,
        {
            all.push(self.users[i].clone());
            i += 1;
        }
        proof {
            use_type_invariant(self);
            assert(user_views(all@) =~= user_views(self.users@));
            lemma_listing(user_views(self.users@));
            lemma_well_formed(user_views(self.users@));
        }
        all
    }

    /// Overwrites, in the user with the username, the fields that the patch
    /// fills, and tells how many users it matched: one, or none where
    /// nobody has the username.
    pub fn update_partial(&mut self, username: &str, patch: &UserPatch) -> (count: u64)
        ensures
            count == matched(old(self)@, username@),
            final(self)@ == updated(old(self)@, username@, patch@),
            well_formed(final(self)@),
    {
        proof {
            use_type_invariant(&*self);
        }
        let ghost before = user_views(self.users@);
        proof {
            lemma_well_formed(before);
        }
        match self.position(username) {
            Some(i) => {
                let mut user = self.users[i].clone();
                patch.apply(&mut user);
                proof {
                    lemma_stored_at(before, i as int);
                    lemma_replace(before, i as int, user@);
                    lemma_well_formed(before.update(i as int, user@));
                }
                let mut users: Vec<User> = Vec::new();
                core::mem::swap(&mut self.users, &mut users);
                let ghost patched_user = user@;
                users.set(i, user);
                proof {
                    assert(user_views(users@) =~= before.update(i as int, patched_user));
                }
                self.users = users;
                1
            },
            None => 0,
        }
    }

    /// Removes the user with the username and tells how many users it
    /// removed: one, or none where nobody has the username.
    pub fn delete(&mut self, username: &str) -> (count: u64)
        ensures
            count == matched(old(self)@, username@),
            final(self)@ == deleted(old(self)@, username@),
            well_formed(final(self)@),
    {
        proof {
            use_type_invariant(&*self);
        }
        let ghost before = user_views(self.users@);
        proof {
            lemma_well_formed(before);
        }
        match self.position(username) {
            Some(i) => {
                proof {
                    lemma_stored_at(before, i as int);
                    lemma_remove(before, i as int);
                    lemma_well_formed(before.remove(i as int));
                }
                let mut users: Vec<User> = Vec::new();
                core::mem::swap(&mut self.users, &mut users);
                users.remove(i);
                proof {
                    assert(user_views(users@) =~= before.remove(i as int));
                }
                self.users = users;
                1
            },
            None => {
                proof {
                    assert(by_username(before).remove(username@) =~= by_username(before));
                }
                0
            },
        }
    }
}

} // verus!
