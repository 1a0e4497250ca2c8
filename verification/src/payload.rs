//! The payload of a line: one change event as a JSON object.
//!
//! ```text
//! {"change_type":"FileChange","files":["a.rs"],"commit_id":null}
//! ```
//!
//! Reading accepts the members in any order and ignores members it does not
//! know. `change_type` and `files` must be there; a missing `commit_id` reads
//! as `null`. An event whose fields do not fit its kind is not accepted.

use vstd::prelude::*;
use vstd::string::*;
use crate::changes::event_view;
use crate::changes::ChangeType;
use crate::changes::Changes;
use crate::changes::ChangesView;
use crate::json::json_object;
use crate::json::json_optional_string;
use crate::json::json_quoted;
use crate::json::json_string;
use crate::json::json_string_list;
use crate::json::quote;
use crate::json::read_object;
use crate::json::read_optional_string;
use crate::json::read_string;
use crate::json::read_string_list;
use crate::text::text_eq;

verus! {

/// The value text of the first member called `name`.
pub open spec fn member(members: Seq<(Seq<char>, Seq<char>)>, name: Seq<char>) -> Option<
    Seq<char>,
>
    decreases members.len(),
{
    if members.len() == 0 {
        None
    } else if members.first().0 == name {
        Some(members.first().1)
    } else {
        member(members.drop_first(), name)
    }
}

/// The event that three field values make: the kind must be known by its
/// wire name, and the paths and the commit id must fit the kind.
pub open spec fn fields_changes(
    kind_name: Seq<char>,
    files: Seq<Seq<char>>,
    commit_id: Option<Seq<char>>,
) -> Option<ChangesView> {
    match ChangeType::named(kind_name) {
        Some(kind) => {
            let event = ChangesView { kind, files, commit_id };
            if event.well_formed() {
                Some(event)
            } else {
                None
            }
        },
        None => None,
    }
}

/// The event that a payload text spells, if it spells one.
pub open spec fn payload_changes(payload: Seq<char>) -> Option<ChangesView> {
    match json_object(payload) {
        None => None,
        Some(members) => {
            let kind_name = match member(members, "change_type"@) {
                Some(text) => json_string(text),
                None => None,
            };
            let files = match member(members, "files"@) {
                Some(text) => json_string_list(text),
                None => None,
            };
            let commit_id = match member(members, "commit_id"@) {
                Some(text) => json_optional_string(text),
                None => Some(None),
            };
            match (kind_name, files, commit_id) {
                (Some(kind_name), Some(files), Some(commit_id)) => fields_changes(
                    kind_name,
                    files,
                    commit_id,
                ),
                _ => None,
            }
        },
    }
}

/// The paths of an event as the inside of a JSON array: each as a string
/// literal, with commas between them.
pub open spec fn quoted_list(files: Seq<Seq<char>>) -> Seq<char>
    decreases files.len(),
{
    if files.len() == 0 {
        Seq::empty()
    } else if files.len() == 1 {
        json_quoted(files[0])
    } else {
        quoted_list(files.drop_last()) + ","@ + json_quoted(files.last())
    }
}

/// The payload text of an event.
pub open spec fn payload_text(event: ChangesView) -> Seq<char> {
    "{\"change_type\":"@ + json_quoted(event.kind.wire_name()) + ",\"files\":["@ + quoted_list(
        event.files,
    ) + "],\"commit_id\":"@ + (match event.commit_id {
        Some(id) => json_quoted(id),
        None => "null"@,
    }) + "}"@
}

/// The value text of the first member called `name`.
fn find_member<'a>(members: &'a Vec<(String, String)>, name: &str) -> (found: Option<&'a String>)
    ensures
        found.deep_view() == member(members.deep_view(), name@),
{
    let ghost all = members.deep_view();
    let mut i: usize = 0;
    assert(all.skip(0) =~= all);
    while i < members.len()
        invariant
            i <= members.len(),
            all == members.deep_view(),
            member(all, name@) == member(all.skip(i as int), name@),
        decreases members.len() - i,
    {
        assert(all.skip(i as int).first() == all[i as int]);
        assert(all.skip(i as int).drop_first() =~= all.skip(i + 1));
        if text_eq(members[i].0.as_str(), name) {
            return Some(&members[i].1);
        }
        i = i + 1;
    }
    None
}

/// Builds the event that three field values make, or `None` where the kind
/// has no such wire name or the fields do not fit the kind.
pub fn changes_from_fields(kind_name: &str, files: Vec<String>, commit_id: Option<String>) -> (event:
    Option<Changes>)
    ensures
        event_view(event) == fields_changes(kind_name@, files.deep_view(), commit_id.deep_view()),
{
    match ChangeType::from_name(kind_name) {
        Some(kind) => Changes::new(kind, files, commit_id),
        None => None,
    }
}

/// Reads a payload text as a change event.
pub fn decode_payload(payload: &str) -> (event: Option<Changes>)
    ensures
        event_view(event) == payload_changes(payload@),
{
    let members = match read_object(payload) {
        Some(members) => members,
        None => {
            return None;
        },
    };
    let kind_name: Option<String> = match find_member(&members, "change_type") {
        Some(text) => read_string(text.as_str()),
        None => None,
    };
    let files: Option<Vec<String>> = match find_member(&members, "files") {
        Some(text) => read_string_list(text.as_str()),
        None => None,
    };
    let commit_id: Option<Option<String>> = match find_member(&members, "commit_id") {
        Some(text) => read_optional_string(text.as_str()),
        None => Some(None),
    };
    match (kind_name, files, commit_id) {
        (Some(kind_name), Some(files), Some(commit_id)) => changes_from_fields(
            kind_name.as_str(),
            files,
            commit_id,
        ),
        _ => None,
    }
}

/// Writes an event as its payload text.
pub fn encode_payload(event: &Changes) -> (payload: String)
    ensures
        payload@ == payload_text(event@),
{
    let files = event.files();
    let mut list = String::new();
    let mut i: usize = 0;
    assert(files.deep_view().take(0) =~= Seq::<Seq<char>>::empty());
    while i < files.len()
        invariant
            i <= files.len(),
            list@ == quoted_list(files.deep_view().take(i as int)),
        decreases files.len() - i,
    {
        let ghost before = files.deep_view().take(i as int);
        let ghost after = files.deep_view().take(i + 1);
        assert(after.drop_last() =~= before);
        assert(after.last() == files[i as int]@);
        if i > 0 {
            list.append(",");
        }
        let literal = quote(files[i].as_str());
        list.append(literal.as_str());
        assert(list@ =~= quoted_list(after));
        i = i + 1;
    }
    assert(files.deep_view().take(files.len() as int) =~= files.deep_view());
    let mut payload = String::from_str("{\"change_type\":");
    let kind = quote(event.change_type().name());
    payload.append(kind.as_str());
    payload.append(",\"files\":[");
    payload.append(list.as_str());
    payload.append("],\"commit_id\":");
    match event.commit_id() {
        Some(id) => {
            let literal = quote(id.as_str());
            payload.append(literal.as_str());
        },
        None => {
            payload.append("null");
        },
    }
    payload.append("}");
    assert(payload@ =~= payload_text(event@));
    payload
}

} // verus!
