//! The documents that the service hands to the database: a filter that
//! selects a user by username, and the fields that an update overwrites.
//! They are `mongodb::bson::Document` values, filled with texts only.

use vstd::prelude::*;
use mongodb::bson::Document;

verus! {

/// `mongodb::bson::Document`, carried through as it is.
#[verifier::external_type_specification]
#[verifier::external_body]
pub struct ExDocument(mongodb::bson::Document);

/// What a document holds: each of its keys, with the text of the value
/// under it where that value is a BSON string, and `None` where it is
/// anything else.
pub uninterp spec fn document_entries(document: Document) -> Map<Seq<char>, Option<Seq<char>>>;

/// `mongodb::bson::Document::new`: a document without entries.
pub assume_specification[ mongodb::bson::Document::new ]() -> (created: Document)
    ensures
        document_entries(created) == no_entries(),
;

/// `mongodb::bson::Document::insert` with a text as the value: the key then
/// holds that text as a BSON string, whether the key was there or not, and
/// the other entries stay.
#[verifier::external_body]
fn insert_text(document: &mut Document, key: &str, text: &str)
    ensures
        document_entries(*final(document)) == document_entries(*old(document)).insert(
            key@,
            Some(text@),
        ),
{
    document.insert(key, text);
}

/// The entries of a document that holds nothing.
pub open spec fn no_entries() -> Map<Seq<char>, Option<Seq<char>>> {
    Map::empty()
}

/// The entries of a document that holds one text under one key.
pub open spec fn single_text(key: Seq<char>, text: Seq<char>) -> Map<Seq<char>, Option<Seq<char>>> {
    no_entries().insert(key, Some(text))
}

/// The entries of `entries` after `text`, where there is one, is put under
/// `key`.
pub open spec fn with_text(
    entries: Map<Seq<char>, Option<Seq<char>>>,
    key: Seq<char>,
    text: Option<Seq<char>>,
) -> Map<Seq<char>, Option<Seq<char>>> {
    match text {
        Some(t) => entries.insert(key, Some(t)),
        None => entries,
    }
}

/// Puts `text` under `key` where there is a text, and leaves the document
/// as it is where there is none.
pub fn put_text(document: &mut Document, key: &str, text: &Option<String>)
    ensures
        document_entries(*final(document)) == with_text(
            document_entries(*old(document)),
            key@,
            crate::json::text_view(*text),
        ),
{
    match text {
        Some(t) => insert_text(document, key, t.as_str()),
        None => {},
    }
}

/// The filter that selects the user with the given username:
/// `{"username": username}`.
pub fn username_filter(username: &str) -> (filter: Document)
    ensures
        document_entries(filter) == single_text("username"@, username@),
{
    let mut filter = Document::new();
    insert_text(&mut filter, "username", username);
    filter
}

} // verus!
