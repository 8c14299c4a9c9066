use vstd::prelude::*;
use crate::envelope::CommandResponse;
use crate::payload::json_of_string;
use crate::payload::json_of_strings;
use crate::payload::json_string_list_value;
use crate::payload::json_string_value;

verus! {

/// How a native picker for one path ended: a chosen path, a cancellation by
/// the user, or a failure of the dialog itself.
#[derive(Debug, Clone)]
pub enum PickOutcome {
    Chosen(String),
    Cancelled,
    Failed(String),
}

/// How a native picker for several paths ended.
#[derive(Debug, Clone)]
pub enum MultiPickOutcome {
    Chosen(Vec<String>),
    Cancelled,
    Failed(String),
}

pub open spec fn msg_path_chosen() -> Seq<char> {
    "path selected"@
}

pub open spec fn msg_paths_chosen() -> Seq<char> {
    "paths selected"@
}

pub open spec fn msg_dialog_cancelled() -> Seq<char> {
    "dialog cancelled"@
}

pub open spec fn msg_revealed() -> Seq<char> {
    "path opened in file manager"@
}

/// A single-path picker fails only when the dialog itself failed; a
/// cancellation is not an error.
pub open spec fn pick_succeeds(outcome: PickOutcome) -> bool {
    !(outcome matches PickOutcome::Failed(_))
}

/// A several-path picker fails only when the dialog itself failed.
pub open spec fn multi_pick_succeeds(outcome: MultiPickOutcome) -> bool {
    !(outcome matches MultiPickOutcome::Failed(_))
}

/// Turns the outcome of a single-path picker (file or folder) into the
/// envelope: a chosen path rides along as a JSON string, a cancellation is
/// a success without a payload, a dialog failure carries the error's text.
pub fn pick_response(outcome: PickOutcome) -> (r: CommandResponse)
    ensures
        r.wf(),
        r.success == pick_succeeds(outcome),
        outcome matches PickOutcome::Chosen(p) ==> r.data == Some(json_of_string(p@)) && r.msg@
            == msg_path_chosen(),
        outcome is Cancelled ==> r.data is None && r.msg@ == msg_dialog_cancelled(),
        outcome matches PickOutcome::Failed(e) ==> r.data is None && r.msg@ == e@,
{
    match outcome {
        PickOutcome::Chosen(p) => CommandResponse::success(
            String::from_str("path selected"),
            Some(json_string_value(p)),
        ),
        PickOutcome::Cancelled => CommandResponse::success(
            String::from_str("dialog cancelled"),
            None,
        ),
        PickOutcome::Failed(e) => CommandResponse::error(e),
    }
}

/// Turns the outcome of a several-path picker into the envelope: chosen
/// paths ride along as a JSON array of strings, a cancellation is a success
/// without a payload, a dialog failure carries the error's text.
pub fn multi_pick_response(outcome: MultiPickOutcome) -> (r: CommandResponse)
    ensures
        r.wf(),
        r.success == multi_pick_succeeds(outcome),
        outcome matches MultiPickOutcome::Chosen(ps) ==> r.data == Some(
            json_of_strings(ps@.map_values(|e: String| e@)),
        ) && r.msg@ == msg_paths_chosen(),
        outcome is Cancelled ==> r.data is None && r.msg@ == msg_dialog_cancelled(),
        outcome matches MultiPickOutcome::Failed(e) ==> r.data is None && r.msg@ == e@,
{
    match outcome {
        MultiPickOutcome::Chosen(ps) => CommandResponse::success(
            String::from_str("paths selected"),
            Some(json_string_list_value(ps)),
        ),
        MultiPickOutcome::Cancelled => CommandResponse::success(
            String::from_str("dialog cancelled"),
            None,
        ),
        MultiPickOutcome::Failed(e) => CommandResponse::error(e),
    }
}

/// Turns the outcome of asking the OS to reveal a path in its file manager
/// into the envelope: the OS either accepted the request or answered with an
/// error, whose text the failure envelope carries.
pub fn file_manager_response(outcome: Result<(), String>) -> (r: CommandResponse)
    ensures
        r.wf(),
        outcome is Ok ==> r.success && r.data is None && r.msg@ == msg_revealed(),
        outcome matches Err(e) ==> !r.success && r.data is None && r.msg@ == e@,
{
    match outcome {
        Ok(()) => CommandResponse::success(
            String::from_str("path opened in file manager"),
            None,
        ),
        Err(e) => CommandResponse::error(e),
    }
}

/// A cancellation is always distinguishable from a dialog failure: the
/// cancelled envelope succeeds without a payload, the failed one does not
/// succeed, whatever the failure's text.
pub proof fn lemma_cancel_differs_from_failure(err: String)
    ensures
        pick_succeeds(PickOutcome::Cancelled),
        !pick_succeeds(PickOutcome::Failed(err)),
        multi_pick_succeeds(MultiPickOutcome::Cancelled),
        !multi_pick_succeeds(MultiPickOutcome::Failed(err)),
{
}

} // verus!
