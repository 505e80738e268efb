//! The partial update of a user: one optional text for each field that may
//! be overwritten. A field outside `first_name`, `last_name` and `email` has
//! no slot, so it can never be written; an empty slot leaves its field as it
//! is.

use vstd::prelude::*;
use mongodb::bson::Document;
use serde_json::Value;
use crate::document::{document_entries, no_entries, put_text, with_text};
use crate::json::{coerced_text, text_member, text_view};
use crate::user::{User, UserView};

verus! {

/// The fields that an update overwrites, each with its new text.
#[derive(Debug, PartialEq, Eq)]
pub struct UserPatch {
    pub first_name: Option<String>,
    pub last_name: Option<String>,
    pub email: Option<String>,
}

/// The mathematical value of a [`UserPatch`].
pub struct UserPatchView {
    pub first_name: Option<Seq<char>>,
    pub last_name: Option<Seq<char>>,
    pub email: Option<Seq<char>>,
}

impl View for UserPatch {
    type V = UserPatchView;

    open spec fn view(&self) -> UserPatchView {
        UserPatchView {
            first_name: text_view(self.first_name),
            last_name: text_view(self.last_name),
            email: text_view(self.email),
        }
    }
}

/// The patch that a JSON body asks for: for each of the three fields, the
/// text that the body holds under the field's name. Members under other
/// names, and members that hold no text, are not in it.
pub open spec fn patch_of(form: Value) -> UserPatchView {
    UserPatchView {
        first_name: coerced_text(form, "first_name"@),
        last_name: coerced_text(form, "last_name"@),
        email: coerced_text(form, "email"@),
    }
}

/// The entries of the document that carries a patch to the database: one
/// for each filled slot, under the field's name, and no other.
pub open spec fn set_entries(patch: UserPatchView) -> Map<Seq<char>, Option<Seq<char>>> {
    with_text(
        with_text(with_text(no_entries(), "first_name"@, patch.first_name), "last_name"@, patch.last_name),
        "email"@,
        patch.email,
    )
}

/// `slot` where it is filled, `current` where it is empty.
pub open spec fn overwritten(current: Seq<char>, slot: Option<Seq<char>>) -> Seq<char> {
    match slot {
        Some(text) => text,
        None => current,
    }
}

/// A user after a patch: the username stays, and each of the other fields
/// takes the text of its slot where the slot is filled.
pub open spec fn patched(user: UserView, patch: UserPatchView) -> UserView {
    UserView {
        username: user.username,
        first_name: overwritten(user.first_name, patch.first_name),
        last_name: overwritten(user.last_name, patch.last_name),
        email: overwritten(user.email, patch.email),
    }
}

/// Whether a patch overwrites nothing.
pub open spec fn is_empty_patch(patch: UserPatchView) -> bool {
    patch.first_name is None && patch.last_name is None && patch.email is None
}

/// A copy of an optional text.
fn copy_text(text: &Option<String>) -> (copy: Option<String>)
    ensures
        text_view(copy) == text_view(*text),
{
    match text {
        Some(t) => Some(t.clone()),
        None => None,
    }
}

/// The text of `slot` where it is filled, else `current`.
fn overwrite(current: &mut String, slot: &Option<String>)
    ensures
        final(current)@ == overwritten(old(current)@, text_view(*slot)),
{
    match slot {
        Some(text) => {
            *current = text.clone();
        },
        None => {},
    }
}

impl Clone for UserPatch {
    fn clone(&self) -> (copy: Self)
        ensures
            copy@ == self@,
    {
        UserPatch {
            first_name: copy_text(&self.first_name),
            last_name: copy_text(&self.last_name),
            email: copy_text(&self.email),
        }
    }
}

impl UserPatch {
    /// The patch with the three slots given.
    pub fn new(first_name: Option<String>, last_name: Option<String>, email: Option<String>) -> (patch:
        UserPatch)
        ensures
            patch@ == (UserPatchView {
                first_name: text_view(first_name),
                last_name: text_view(last_name),
                email: text_view(email),
            }),
    {
        UserPatch { first_name, last_name, email }
    }

    /// Reads the patch out of a JSON body. A body that is no object, or
    /// that names none of the three fields, gives the empty patch.
    pub fn from_json(form: &Value) -> (patch: UserPatch)
        ensures
            patch@ == patch_of(*form),
    {
        UserPatch {
            first_name: text_member(form, "first_name"),
            last_name: text_member(form, "last_name"),
            email: text_member(form, "email"),
        }
    }

    /// The document of the fields to set: what the database's set-only
    /// update takes. For the empty patch it has no entries.
    pub fn set_fields(&self) -> (fields: Document)
        ensures
            document_entries(fields) == set_entries(self@),
    {
        let mut fields = Document::new();
        put_text(&mut fields, "first_name", &self.first_name);
        put_text(&mut fields, "last_name", &self.last_name);
        put_text(&mut fields, "email", &self.email);
        fields
    }

    /// Overwrites in `user` the fields whose slots are filled.
    pub fn apply(&self, user: &mut User)
        ensures
            final(user)@ == patched(old(user)@, self@),
    {
        overwrite(&mut user.first_name, &self.first_name);
        overwrite(&mut user.last_name, &self.last_name);
        overwrite(&mut user.email, &self.email);
    }
}

} // verus!
