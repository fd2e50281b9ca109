//! The actions that provisioning asks of the host, and what the host answers.
//!
//! The library decides which action comes next; the caller performs it on the
//! registry, the file system or a child process and reports how it ended.

use crate::text::texts_of;
use vstd::prelude::*;

verus! {

/// One thing the host is asked to do.
#[derive(Clone, Debug, PartialEq, Eq)]
pub enum HostAction {
    /// In one registry transaction: if `guard` is present, change nothing and
    /// answer `AlreadyExists`; otherwise store `value` under `key`.
    Register { guard: String, key: String, value: Vec<u8> },
    /// Delete the registry key `key`.
    Unregister { key: String },
    /// Create the directory `path` and its missing parents.
    CreateDir { path: String },
    /// Copy the file `from` to `to`.
    CopyFile { from: String, to: String },
    /// Write `content` to the file `path`, creating missing parent
    /// directories.
    WriteFile { path: String, content: Vec<u8> },
    /// Write `text` to the file `path`.
    WriteText { path: String, text: String },
    /// Mark the file `path` as executable (mode 0755).
    MakeExecutable { path: String },
    /// Make `link` a symbolic link to `target`, replacing what is there.
    Link { target: String, link: String },
    /// Remove the file `path`.
    RemoveFile { path: String },
    /// Run `program` with `args` and wait for it to exit; it succeeds when it
    /// exits with status zero.
    Run { program: String, args: Vec<String> },
}

/// A host action as plain values.
pub enum HostActionView {
    Register { guard: Seq<char>, key: Seq<char>, value: Seq<u8> },
    Unregister { key: Seq<char> },
    CreateDir { path: Seq<char> },
    CopyFile { from: Seq<char>, to: Seq<char> },
    WriteFile { path: Seq<char>, content: Seq<u8> },
    WriteText { path: Seq<char>, text: Seq<char> },
    MakeExecutable { path: Seq<char> },
    Link { target: Seq<char>, link: Seq<char> },
    RemoveFile { path: Seq<char> },
    Run { program: Seq<char>, args: Seq<Seq<char>> },
}

impl View for HostAction {
    type V = HostActionView;

    open spec fn view(&self) -> HostActionView {
        match self {
            HostAction::Register { guard, key, value } => HostActionView::Register {
                guard: guard@,
                key: key@,
                value: value@,
            },
            HostAction::Unregister { key } => HostActionView::Unregister { key: key@ },
            HostAction::CreateDir { path } => HostActionView::CreateDir { path: path@ },
            HostAction::CopyFile { from, to } => HostActionView::CopyFile { from: from@, to: to@ },
            HostAction::WriteFile { path, content } => HostActionView::WriteFile {
                path: path@,
                content: content@,
            },
            HostAction::WriteText { path, text } => HostActionView::WriteText {
                path: path@,
                text: text@,
            },
            HostAction::MakeExecutable { path } => HostActionView::MakeExecutable { path: path@ },
            HostAction::Link { target, link } => HostActionView::Link {
                target: target@,
                link: link@,
            },
            HostAction::RemoveFile { path } => HostActionView::RemoveFile { path: path@ },
            HostAction::Run { program, args } => HostActionView::Run {
                program: program@,
                args: texts_of(args@),
            },
        }
    }
}

/// How the host's attempt at an action ended.
#[derive(Clone, Copy, Debug, PartialEq, Eq, Structural)]
pub enum Outcome {
    /// The action was carried out.
    Done,
    /// The action could not be carried out.
    Failed,
    /// The registry already holds the guard of a `Register` action.
    AlreadyExists,
}

/// The view of an optional action.
pub open spec fn optional_action_view(action: Option<HostAction>) -> Option<HostActionView> {
    match action {
        Some(a) => Some(a@),
        None => None,
    }
}

/// The action that runs `program` with `args`.
pub fn run_action(program: &str, args: Vec<String>) -> (action: HostAction)
    ensures
        action@ == (HostActionView::Run { program: program@, args: texts_of(args@) }),
{
    HostAction::Run { program: String::from_str(program), args }
}

} // verus!
