//! The stored form of a credential record: one flat JSON object with the
//! members `access_token`, `refresh_token`, `expires_in` and `timestamp`.
//! Reading and writing the file are the caller's.

use vstd::prelude::*;
use crate::json::{
    json_object_text,
    json_text_member,
    json_u64_member,
    object_text,
    text_member,
    u64_member,
};
use crate::pairs::{number_pair, number_pairs_view, text_pair, text_pairs_view, text_view};
use crate::record::{CredentialRecord, RecordView};

verus! {

/// The record that a stored document holds: all four members must be there,
/// the tokens as strings and the two times as whole numbers.
pub open spec fn stored_record(document: Seq<char>) -> Option<RecordView> {
    match (
        json_text_member(document, "access_token"@),
        json_text_member(document, "refresh_token"@),
        json_u64_member(document, "expires_in"@),
        json_u64_member(document, "timestamp"@),
    ) {
        (Some(access_token), Some(refresh_token), Some(expires_in), Some(issued_at)) => Some(
            RecordView {
                access_token,
                refresh_token,
                expires_in: expires_in as nat,
                issued_at: issued_at as nat,
            },
        ),
        _ => None,
    }
}

/// The text members of a record's stored form.
pub open spec fn stored_texts(record: RecordView) -> Seq<(Seq<char>, Seq<char>)> {
    seq![("access_token"@, record.access_token), ("refresh_token"@, record.refresh_token)]
}

/// The number members of a record's stored form; the time of issue is stored
/// under the name `timestamp`.
pub open spec fn stored_numbers(record: RecordView) -> Seq<(Seq<char>, u64)> {
    seq![("expires_in"@, record.expires_in as u64), ("timestamp"@, record.issued_at as u64)]
}

/// The document that a record is stored as.
pub open spec fn stored_text(record: RecordView) -> Option<Seq<char>> {
    json_object_text(stored_texts(record), stored_numbers(record))
}

/// An optional record as a plain value.
pub open spec fn record_view(r: Option<CredentialRecord>) -> Option<RecordView> {
    match r {
        Some(record) => Some(record@),
        None => None,
    }
}

/// Reads a record from the contents of the token store. A document that is not
/// JSON, or that lacks a member or holds one of another type, gives `None`: it
/// counts as never having logged in.
pub fn decode_record(document: &str) -> (r: Option<CredentialRecord>)
    ensures
        record_view(r) == stored_record(document@),
{
    let access_token = text_member(document, "access_token");
    let refresh_token = text_member(document, "refresh_token");
    let expires_in = u64_member(document, "expires_in");
    let issued_at = u64_member(document, "timestamp");
    match (access_token, refresh_token, expires_in, issued_at) {
        (Some(access_token), Some(refresh_token), Some(expires_in), Some(issued_at)) => Some(
            CredentialRecord { access_token, refresh_token, expires_in, issued_at },
        ),
        _ => None,
    }
}

/// Writes a record as the document to put into the token store. `None` only
/// where `serde_json` fails to write the object.
pub fn encode_record(record: &CredentialRecord) -> (r: Option<String>)
    ensures
        text_view(r) == stored_text(record@),
{
    let mut texts: Vec<(String, String)> = Vec::new();
    texts.push(text_pair("access_token", record.access_token.as_str()));
    texts.push(text_pair("refresh_token", record.refresh_token.as_str()));
    let mut numbers: Vec<(String, u64)> = Vec::new();
    numbers.push(number_pair("expires_in", record.expires_in));
    numbers.push(number_pair("timestamp", record.issued_at));
    assert(text_pairs_view(texts@) =~= stored_texts(record@));
    assert(number_pairs_view(numbers@) =~= stored_numbers(record@));
    object_text(&texts, &numbers)
}

/// What loading yields: the record that the store's contents hold, and nothing
/// where the file could not be read.
pub open spec fn loaded(contents: Option<Seq<char>>) -> Option<RecordView> {
    match contents {
        Some(document) => stored_record(document),
        None => None,
    }
}

/// Turns what was read from the token store into the record it holds.
/// `contents` is `None` where the file is missing or unreadable.
pub fn load_tokens(contents: Option<String>) -> (r: Option<CredentialRecord>)
    ensures
        record_view(r) == loaded(text_view(contents)),
{
    match contents {
        Some(document) => decode_record(document.as_str()),
        None => None,
    }
}

} // verus!
