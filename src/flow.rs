//! Events and actions shared by the install flows.
//!
//! A flow never touches the network or the filesystem itself: each step takes
//! the outcome of the previous action and names the next one. The caller
//! performs it and reports back.
use vstd::prelude::*;
use crate::archive::ArchiveError;
use crate::release::FetchError;
use crate::signature::VerificationError;

verus! {

/// Why a flow ended without installing.
#[derive(Debug, Clone, Copy, PartialEq, Eq, Structural)]
pub enum FlowError {
    /// A download failed.
    Network(FetchError),
    /// The downloaded artifact's signature was refused.
    Verification(VerificationError),
    /// The downloaded archive held no usable entry.
    Archive(ArchiveError),
    /// Writing, setting permissions or renaming failed.
    Install,
    /// An event arrived that the flow was not waiting for.
    OutOfOrder,
}

/// The outcome of the action that a flow last asked for.
pub enum FlowEvent {
    /// The body of a download, or why there is none.
    Fetched(Result<Vec<u8>, FetchError>),
    /// Whether a filesystem action succeeded.
    Done(bool),
}

/// What a flow asks its caller to do next.
pub enum FlowAction {
    /// Download the resource at `url`.
    Fetch { url: String },
    /// Write `contents` to the file `path`, replacing it.
    WriteFile { path: String, contents: Vec<u8> },
    /// Give the file `path` executable permission.
    SetExecutable { path: String },
    /// Rename `from` onto `to`, in one filesystem operation.
    Rename { from: String, to: String },
    /// Remove the files in `remove`, ignoring failures, and end with `result`.
    Finish { remove: Vec<String>, result: Result<(), FlowError> },
}

/// An event, over plain values.
pub enum EventModel {
    Fetched(Result<Seq<u8>, FetchError>),
    Done(bool),
}

/// An action, over plain values.
pub enum ActionModel {
    Fetch(Seq<char>),
    WriteFile(Seq<char>, Seq<u8>),
    SetExecutable(Seq<char>),
    Rename(Seq<char>, Seq<char>),
    Finish(Seq<Seq<char>>, Result<(), FlowError>),
}

impl View for FlowEvent {
    type V = EventModel;

    open spec fn view(&self) -> EventModel {
        match self {
            FlowEvent::Fetched(Ok(b)) => EventModel::Fetched(Ok(b@)),
            FlowEvent::Fetched(Err(e)) => EventModel::Fetched(Err(*e)),
            FlowEvent::Done(ok) => EventModel::Done(*ok),
        }
    }
}

pub open spec fn paths_view(ps: Seq<String>) -> Seq<Seq<char>> {
    ps.map_values(|p: String| p@)
}

impl View for FlowAction {
    type V = ActionModel;

    open spec fn view(&self) -> ActionModel {
        match self {
            FlowAction::Fetch { url } => ActionModel::Fetch(url@),
            FlowAction::WriteFile { path, contents } => ActionModel::WriteFile(path@, contents@),
            FlowAction::SetExecutable { path } => ActionModel::SetExecutable(path@),
            FlowAction::Rename { from, to } => ActionModel::Rename(from@, to@),
            FlowAction::Finish { remove, result } => ActionModel::Finish(paths_view(remove@), *result),
        }
    }
}

/// Whether `a` writes, modifies, renames onto or removes the file `p`.
pub open spec fn action_touches(a: ActionModel, p: Seq<char>) -> bool {
    match a {
        ActionModel::Fetch(_) => false,
        ActionModel::WriteFile(q, _) => q == p,
        ActionModel::SetExecutable(q) => q == p,
        ActionModel::Rename(from, to) => from == p || to == p,
        ActionModel::Finish(rs, _) => rs.contains(p),
    }
}

/// The action that ends a flow with `result` after removing `remove`.
pub fn finish(remove: Vec<String>, result: Result<(), FlowError>) -> (r: FlowAction)
    ensures
        r@ == ActionModel::Finish(paths_view(remove@), result),
{
    FlowAction::Finish { remove, result }
}

/// A list of one path.
pub fn one_path(a: &String) -> (r: Vec<String>)
    ensures
        paths_view(r@) == seq![a@],
{
    let mut r: Vec<String> = Vec::new();
    r.push(a.clone());
    assert(paths_view(r@) =~= seq![a@]);
    r
}

/// A list of two paths.
pub fn two_paths(a: &String, b: &String) -> (r: Vec<String>)
    ensures
        paths_view(r@) == seq![a@, b@],
{
    let mut r: Vec<String> = Vec::new();
    r.push(a.clone());
    r.push(b.clone());
    assert(paths_view(r@) =~= seq![a@, b@]);
    r
}

/// An empty list of paths.
pub fn no_paths() -> (r: Vec<String>)
    ensures
        paths_view(r@) == Seq::<Seq<char>>::empty(),
{
    let r: Vec<String> = Vec::new();
    assert(paths_view(r@) =~= Seq::<Seq<char>>::empty());
    r
}

} // verus!
