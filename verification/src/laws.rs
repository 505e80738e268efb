//! What holds of the storage operations and of the routes' answers, for all
//! contents and all users.

use vstd::prelude::*;
use crate::patch::{is_empty_patch, overwritten, patched, set_entries, UserPatchView};
use crate::document::no_entries;
use crate::routes::{
    add_user_answer, delete_user_answer, failure_answer, get_user_answer, not_found_answer,
    update_user_answer, BodyView, ResponseView, STATUS_FAILURE, STATUS_NOT_FOUND, STATUS_OK,
};
use crate::storage::{
    accepts, deleted, found, inserted, is_listing, matched, nobody, updated, well_formed, Users,
};
use crate::user::{User, UserView};

verus! {

/// The contents after the users of `batch` are inserted one after the
/// other, the first of them first.
pub open spec fn inserted_all(users: Users, batch: Seq<UserView>) -> Users
    decreases batch.len(),
{
    if batch.len() == 0 {
        users
    } else {
        inserted(inserted_all(users, batch.drop_last()), batch.last())
    }
}

/// No two users of the batch share a username.
pub open spec fn distinct_usernames(batch: Seq<UserView>) -> bool {
    forall|i: int, j: int|
        0 <= i < j < batch.len() ==> (#[trigger] batch[i]).username != (#[trigger] batch[j]).username
}

/// None of the batch's usernames is in use.
pub open spec fn all_new(users: Users, batch: Seq<UserView>) -> bool {
    forall|i: int| 0 <= i < batch.len() ==> !users.contains_key((#[trigger] batch[i]).username)
}

/// Every operation keeps the contents well formed: whatever is inserted,
/// updated or deleted, no two stored users share a username.
pub proof fn law_usernames_stay_unique(
    users: Users,
    user: UserView,
    username: Seq<char>,
    patch: UserPatchView,
)
    requires
        well_formed(users),
    ensures
        well_formed(nobody()),
        well_formed(inserted(users, user)),
        well_formed(updated(users, username, patch)),
        well_formed(deleted(users, username)),
{
}

/// A user whose insert is taken is then found under its username, equal
/// to what was inserted; the route that added it answers with success, and
/// the route that gets it answers with that user.
pub proof fn law_added_user_is_found(users: Users, user: User)
    ensures
        accepts(users, user@) ==> found(inserted(users, user@), user@.username) == Some(user@),
        accepts(nobody(), user@),
        add_user_answer(Ok(())).status == STATUS_OK,
        get_user_answer(user@.username, Ok(Some(user))) == (ResponseView {
            status: STATUS_OK,
            body: BodyView::User(user@),
        }),
{
}

/// After an insert of a user, an insert of another user with the same
/// username is refused and changes nothing; where the first insert was
/// taken, the username still finds the first user. The route answers a
/// refused insert with a failure.
pub proof fn law_second_insert_is_refused(
    users: Users,
    first: UserView,
    second: UserView,
    description: String,
)
    requires
        second.username == first.username,
    ensures
        !accepts(inserted(users, first), second),
        inserted(inserted(users, first), second) == inserted(users, first),
        accepts(users, first) ==> found(inserted(inserted(users, first), second), first.username)
            == Some(first),
        add_user_answer(Err(description)) == failure_answer(description@),
        add_user_answer(Err(description)).status == STATUS_FAILURE,
{
}

/// A listing of the collection that holds nobody is empty.
pub proof fn law_nobody_is_listed_empty(all: Seq<UserView>)
    requires
        is_listing(nobody(), all),
    ensures
        all.len() == 0,
{
}

/// Inserting users with usernames that are new and differ from each other
/// adds each of them: the count grows by their number, and each is found
/// as it was inserted.
pub proof fn law_inserts_add_up(users: Users, batch: Seq<UserView>)
    requires
        well_formed(users),
        distinct_usernames(batch),
        all_new(users, batch),
    ensures
        well_formed(inserted_all(users, batch)),
        inserted_all(users, batch).dom().len() == users.dom().len() + batch.len(),
        forall|i: int|
            0 <= i < batch.len() ==> found(
                inserted_all(users, batch),
                (#[trigger] batch[i]).username,
            ) == Some(batch[i]),
        forall|name: Seq<char>|
            users.contains_key(name) ==> found(inserted_all(users, batch), name) == found(
                users,
                name,
            ),
        forall|name: Seq<char>| #[trigger]
            inserted_all(users, batch).contains_key(name) ==> users.contains_key(name) || exists|
                i: int,
            |
                0 <= i < batch.len() && (#[trigger] batch[i]).username == name,
    decreases batch.len(),
{
    if batch.len() > 0 {
        let front = batch.drop_last();
        let last = batch.last();
        assert(distinct_usernames(front)) by {
            assert forall|i: int, j: int| 0 <= i < j < front.len() implies (#[trigger] front[i]).username
                != (#[trigger] front[j]).username by {
                assert(batch[i].username != batch[j].username);
            }
        }
        assert(all_new(users, front)) by {
            assert forall|i: int| 0 <= i < front.len() implies !users.contains_key(
                (#[trigger] front[i]).username,
            ) by {
                assert(!users.contains_key(batch[i].username));
            }
        }
        law_inserts_add_up(users, front);
        let before = inserted_all(users, front);
        assert(!before.contains_key(last.username)) by {
            if before.contains_key(last.username) {
                assert(!users.contains_key(batch[batch.len() - 1].username));
                let i = choose|i: int| 0 <= i < front.len() && (#[trigger] front[i]).username == last.username;
                assert(batch[i].username != batch[batch.len() - 1].username);
            }
        }
        assert(accepts(before, last));
        let after = inserted_all(users, batch);
        assert(after == before.insert(last.username, last));
        assert forall|i: int| 0 <= i < batch.len() implies found(
            after,
            (#[trigger] batch[i]).username,
        ) == Some(batch[i]) by {
            if i < front.len() {
                assert(front[i] == batch[i]);
                assert(found(before, front[i].username) == Some(front[i]));
                assert(batch[i].username != batch[batch.len() - 1].username);
            }
        }
        assert forall|name: Seq<char>| #[trigger] after.contains_key(name) implies users.contains_key(
            name,
        ) || exists|i: int| 0 <= i < batch.len() && (#[trigger] batch[i]).username == name by {
            if name == last.username {
                assert(batch[batch.len() - 1].username == name);
            } else {
                assert(before.contains_key(name));
                if !users.contains_key(name) {
                    let i = choose|i: int| 0 <= i < front.len() && (#[trigger] front[i]).username == name;
                    assert(batch[i].username == name);
                }
            }
        }
    }
}

/// After users with usernames that differ from each other are inserted
/// into the collection that holds nobody, a listing has as many entries as
/// were inserted, holds each inserted user, and holds nobody else.
pub proof fn law_listing_holds_the_inserted(batch: Seq<UserView>, all: Seq<UserView>)
    requires
        distinct_usernames(batch),
        is_listing(inserted_all(nobody(), batch), all),
    ensures
        all.len() == batch.len(),
        forall|i: int| 0 <= i < batch.len() ==> all.contains(#[trigger] batch[i]),
        forall|j: int| 0 <= j < all.len() ==> batch.contains(#[trigger] all[j]),
{
    law_inserts_add_up(nobody(), batch);
    let users = inserted_all(nobody(), batch);
    assert forall|i: int| 0 <= i < batch.len() implies all.contains(#[trigger] batch[i]) by {
        assert(found(users, batch[i].username) == Some(batch[i]));
        assert(users.contains_key(batch[i].username));
    }
    assert forall|j: int| 0 <= j < all.len() implies batch.contains(#[trigger] all[j]) by {
        let name = all[j].username;
        assert(users.contains_key(name) && users[name] == all[j]);
        let i = choose|i: int| 0 <= i < batch.len() && (#[trigger] batch[i]).username == name;
        assert(found(users, batch[i].username) == Some(batch[i]));
    }
}

/// An update overwrites, in the user it names, exactly the fields that the
/// patch fills: the username and the fields with an empty slot stay, and
/// so does every other user. It matches one user, and the route answers
/// with success.
pub proof fn law_update_overwrites_filled_fields(
    users: Users,
    username: Seq<char>,
    patch: UserPatchView,
)
    requires
        well_formed(users),
        users.contains_key(username),
    ensures
        matched(users, username) == 1,
        found(updated(users, username, patch), username) == Some(
            patched(users[username], patch),
        ),
        patched(users[username], patch).username == username,
        patched(users[username], patch).first_name == overwritten(
            users[username].first_name,
            patch.first_name,
        ),
        patched(users[username], patch).last_name == overwritten(
            users[username].last_name,
            patch.last_name,
        ),
        patched(users[username], patch).email == overwritten(users[username].email, patch.email),
        forall|other: Seq<char>|
            other != username ==> #[trigger] found(updated(users, username, patch), other)
                == found(users, other),
        updated(users, username, patch).dom() == users.dom(),
        update_user_answer(username, Ok(1)).status == STATUS_OK,
{
    assert(updated(users, username, patch).dom() =~= users.dom());
}

/// A patch without a filled slot carries no field to the database and
/// changes no user.
pub proof fn law_empty_patch_changes_nothing(
    users: Users,
    username: Seq<char>,
    patch: UserPatchView,
)
    requires
        is_empty_patch(patch),
    ensures
        set_entries(patch) == no_entries(),
        updated(users, username, patch) == users,
{
    if users.contains_key(username) {
        assert(patched(users[username], patch) == users[username]);
        assert(users.insert(username, users[username]) =~= users);
    }
}

/// An update or a delete by a username that nobody has matches no user and
/// leaves the contents, and with them the number of stored users, as they
/// were; the routes answer with not found.
pub proof fn law_unknown_username_changes_nothing(
    users: Users,
    username: Seq<char>,
    patch: UserPatchView,
)
    requires
        !users.contains_key(username),
    ensures
        matched(users, username) == 0,
        updated(users, username, patch) == users,
        deleted(users, username) == users,
        updated(users, username, patch).dom().len() == users.dom().len(),
        deleted(users, username).dom().len() == users.dom().len(),
        update_user_answer(username, Ok(0)) == not_found_answer(username),
        delete_user_answer(username, Ok(0)) == not_found_answer(username),
        not_found_answer(username).status == STATUS_NOT_FOUND,
        get_user_answer(username, Ok(None)) == not_found_answer(username),
{
    assert(users.remove(username) =~= users);
}

/// A delete removes the user it names and nobody else: the username finds
/// nobody afterwards, every other username finds what it found before, and
/// the count falls by the number of users matched.
pub proof fn law_delete_removes_only_the_target(users: Users, username: Seq<char>)
    requires
        well_formed(users),
    ensures
        found(deleted(users, username), username) is None,
        forall|other: Seq<char>|
            other != username ==> #[trigger] found(deleted(users, username), other) == found(
                users,
                other,
            ),
        deleted(users, username).dom().len() + matched(users, username) == users.dom().len(),
        get_user_answer(username, Ok(None)) == not_found_answer(username),
        users.contains_key(username) ==> delete_user_answer(username, Ok(1)).status == STATUS_OK,
{
}

} // verus!
