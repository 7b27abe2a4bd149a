//! Failure values and their descriptions.
use vstd::prelude::*;
use std::any::Any;
use tokio::task::JoinError;

verus! {

/// What a unit of work left behind when it terminated abnormally: the
/// payload, as the capture boundary caught it and before anything is made
/// of it.
///
/// The payload is a value of any type. Nothing of it is visible to the
/// proofs; what the crate reads of it goes through [`payload_slice`],
/// [`payload_string`] and [`payload_rendering`].
#[verifier::external_body]
#[derive(Debug)]
pub struct SpawnError {
    /// The payload as it was caught.
    pub payload: Box<dyn Any + Send>,
}

/// The completion result of a unit that ran behind a synchronous capture
/// boundary.
pub type SyncSpawnResult = Result<(), SpawnError>;

/// The string slice that the payload is, if it is one.
pub uninterp spec fn payload_slice(err: SpawnError) -> Option<Seq<char>>;

/// The owned string that the payload is, if it is one.
pub uninterp spec fn payload_string(err: SpawnError) -> Option<Seq<char>>;

/// The generic rendering of the payload, which shows its type and nothing
/// of its value.
pub uninterp spec fn payload_rendering(err: SpawnError) -> Seq<char>;

impl SpawnError {
    /// The description of the failure, by an ordered chain over the shapes
    /// of a payload: the string slice if the payload is one; else the owned
    /// string if it is one; else the generic rendering.
    pub open spec fn message(&self) -> Seq<char> {
        match payload_slice(*self) {
            Some(slice) => slice,
            None => match payload_string(*self) {
                Some(string) => string,
                None => payload_rendering(*self),
            },
        }
    }
}

/// The payload as a string slice, by `downcast_ref::<&'static str>` of
/// `dyn Any`: the slice where the payload is of that type, else nothing.
/// The contract names the outcome [`payload_slice`].
#[verifier::external_body]
fn payload_as_slice(err: &SpawnError) -> (slice: Option<&'static str>)
    ensures
        slice matches Some(text) ==> payload_slice(*err) == Some(text@),
        slice is None ==> payload_slice(*err) is None,
{
    err.payload.downcast_ref::<&'static str>().copied()
}

/// The payload as an owned string, by `downcast_ref::<String>` of
/// `dyn Any`: the string where the payload is of that type, else nothing.
/// The contract names the outcome [`payload_string`].
#[verifier::external_body]
fn payload_as_string(err: &SpawnError) -> (string: Option<&String>)
    ensures
        string matches Some(text) ==> payload_string(*err) == Some(text@),
        string is None ==> payload_string(*err) is None,
{
    err.payload.downcast_ref::<String>()
}

/// The generic rendering of the payload, by the `Debug` form of the boxed
/// `dyn Any + Send`. The contract names the text [`payload_rendering`] and
/// claims nothing more of it.
#[verifier::external_body]
fn payload_render(err: &SpawnError) -> (rendering: String)
    ensures
        rendering@ == payload_rendering(*err),
{
    format!("{:?}", err.payload)
}

/// Puts a captured failure into words.
pub fn spawn_error_to_string(err: &SpawnError) -> (text: String)
    ensures
        text@ == err.message(),
{
    match payload_as_slice(err) {
        Some(str_slice) => str_slice.to_owned(),
        None => match payload_as_string(err) {
            Some(string) => string.clone(),
            None => payload_render(err),
        },
    }
}

/// The failure of a task to run to completion, as the executor reports it
/// when the task is joined: the task terminated abnormally, or it was
/// cancelled. Nothing of what is inside is visible here; the value is
/// carried along and put into words by [`tokio_error_to_string`].
#[verifier::external_type_specification]
#[verifier::external_body]
pub struct ExJoinError(JoinError);

/// The completion result of a unit that ran as a task.
pub type AsyncSpawnResult = Result<(), JoinError>;

/// The textual form of a join failure. It names the task and says whether
/// it was cancelled or terminated abnormally, with the message, quoted,
/// where the payload was a string.
pub uninterp spec fn join_error_text(err: JoinError) -> Seq<char>;

/// Puts the failure of a task into words.
///
/// This is `JoinError`'s own textual form (its `Display`, through
/// `to_string`), which depends on the join failure alone. The contract
/// names the text [`join_error_text`] and claims nothing more of it.
#[verifier::external_body]
pub fn tokio_error_to_string(err: &JoinError) -> (text: String)
    ensures
        text@ == join_error_text(*err),
{
    err.to_string()
}

} // verus!
