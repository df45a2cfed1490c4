use crate::client_communication::apply_request;
use crate::map::{load, load_response, store, store_response, Contents, Storage};
use crate::structures::{
    str_equals, CommandUniversal, Name, NameOutput, RequestResponse, RequestView, ResponseView,
};
use vstd::prelude::*;

verus! {

/// The storage after a command, and what it is answered; `None` for a command
/// whose type is neither `"store"` nor `"load"`, which ends the conversation.
pub open spec fn apply_command(
    contents: Contents,
    request_type: Seq<char>,
    key: Seq<char>,
    hash: Seq<char>,
) -> (Contents, Option<ResponseView>) {
    if request_type == "store"@ {
        (contents.insert(key, hash), Some(store_response()))
    } else if request_type == "load"@ {
        (contents, Some(load_response(contents, key)))
    } else {
        (contents, None)
    }
}

/// Serves one command: `"store"` stores, `"load"` loads, any other type is refused.
pub fn execute_command(storage: &mut Storage, task: &CommandUniversal) -> (r: Option<RequestResponse>)
    ensures
        (final(storage)@, match r { Some(resp) => Some(resp@), None => None }) == apply_command(
            old(storage)@,
            task.request_type@,
            task.key@,
            task.hash@,
        ),
{
    if str_equals(task.request_type.as_str(), "store") {
        Some(store(storage, task.key.as_str(), task.hash.as_str()))
    } else if str_equals(task.request_type.as_str(), "load") {
        Some(load(storage, task.key.as_str()))
    } else {
        None
    }
}

/// The reply to a client that introduced itself: its own name, sent back.
pub fn reply_to_name(name: &Name) -> (out: NameOutput)
    ensures
        out.student_name@ == name.name@,
{
    NameOutput { student_name: name.name.clone() }
}

/// A `"store"` command does what a store request does, and a `"load"` command what a
/// load request does (the hash of a load command is ignored).
pub proof fn law_commands_act_as_requests(
    contents: Contents,
    key: Seq<char>,
    hash: Seq<char>,
)
    ensures
        apply_command(contents, "store"@, key, hash) == ({
            let (after, answer) = apply_request(contents, RequestView::Store { key, hash });
            (after, Some(answer))
        }),
        apply_command(contents, "load"@, key, hash) == ({
            let (after, answer) = apply_request(contents, RequestView::Load { key });
            (after, Some(answer))
        }),
{
    reveal_strlit("store");
    reveal_strlit("load");
    assert("load"@.len() != "store"@.len());
}

} // verus!
