//! What the caller is asked to do for the library, one action at a time.

use vstd::prelude::*;

verus! {

/// One piece of work outside the library. The caller carries it out and
/// reports how it went before asking for the next one.
#[derive(Clone, Debug, PartialEq, Eq)]
pub enum Action {
    /// Make sure that no directory stands at `path`.
    RequireAbsent { path: String },
    /// Download `url` in one go and store the body at `path`, replacing what
    /// is there.
    Fetch { url: String, path: String },
    /// Create the directory `path` and the directories above it.
    CreateDirectory { path: String },
    /// Start `program` with `arguments` and wait until it ends.
    Run { program: String, arguments: Vec<String> },
    /// Delete the file `path`.
    RemoveFile { path: String },
    /// Write `content` to the file `path`, replacing what is there.
    WriteFile { path: String, content: String },
    /// Delete the directory `path` with all that it holds.
    RemoveDirectory { path: String },
    /// Nothing is left to do.
    Stop,
}

/// An [`Action`] as plain text.
pub enum ActionView {
    RequireAbsent { path: Seq<char> },
    Fetch { url: Seq<char>, path: Seq<char> },
    CreateDirectory { path: Seq<char> },
    Run { program: Seq<char>, arguments: Seq<Seq<char>> },
    RemoveFile { path: Seq<char> },
    WriteFile { path: Seq<char>, content: Seq<char> },
    RemoveDirectory { path: Seq<char> },
    Stop,
}

impl View for Action {
    type V = ActionView;

    open spec fn view(&self) -> ActionView {
        match self {
            Action::RequireAbsent { path } => ActionView::RequireAbsent { path: path@ },
            Action::Fetch { url, path } => ActionView::Fetch { url: url@, path: path@ },
            Action::CreateDirectory { path } => ActionView::CreateDirectory { path: path@ },
            Action::Run { program, arguments } => ActionView::Run {
                program: program@,
                arguments: arguments.deep_view(),
            },
            Action::RemoveFile { path } => ActionView::RemoveFile { path: path@ },
            Action::WriteFile { path, content } => ActionView::WriteFile {
                path: path@,
                content: content@,
            },
            Action::RemoveDirectory { path } => ActionView::RemoveDirectory { path: path@ },
            Action::Stop => ActionView::Stop,
        }
    }
}

impl ActionView {
    /// Whether the action creates or changes anything on disk or starts a program.
    pub open spec fn is_effect(self) -> bool {
        !(self is Stop) && !(self is RequireAbsent)
    }
}

} // verus!
