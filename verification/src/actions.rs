//! What the trash can asks of the file system, and what it is told.
//!
//! The rules of the trash can do not touch the file system. Each operation
//! that changes it is a sequence of steps: a step asks for one action, the
//! caller performs it and hands back the answer, and the next step decides
//! from that answer what is asked next or how the operation ends.

use crate::error::{AppError, IoFailure};
use vstd::prelude::*;

verus! {

/// One action on the file system.
#[derive(Debug)]
pub enum FsAction {
    /// Whether something exists at `path`, links followed.
    Exists { path: String },
    /// Whether `path` is a directory, links followed.
    IsDir { path: String },
    /// The names of the entries of `dir` at which something exists; none
    /// where `dir` cannot be read.
    ListNames { dir: String },
    /// The canonical, absolute form of `path`.
    Canonicalize { path: String },
    /// The local time, written by the pattern `format`.
    LocalTime { format: String },
    /// Write `content` to the file at `path`, which is created or replaced.
    WriteFile { path: String, content: String },
    /// Rename `from` to `to`.
    Rename { from: String, to: String },
    /// Remove the file at `path`.
    RemoveFile { path: String },
    /// Create the directory `path`; its parent must exist.
    CreateDir { path: String },
    /// Create the directory `path` and the missing directories above it.
    CreateDirAll { path: String },
    /// Set the permission bits of `path`.
    SetMode { path: String, mode: u32 },
    /// Remove the directory `path` and all that it holds.
    RemoveDirAll { path: String },
}

/// The answer to an action.
#[derive(Debug)]
pub enum FsAnswer {
    /// Yes or no.
    Flag(bool),
    /// Names of directory entries.
    Names(Vec<String>),
    /// A text, or why there is none.
    Text(Result<String, IoFailure>),
    /// The time, written.
    Time(String),
    /// That the action was done, or why it was not.
    Done(Result<(), IoFailure>),
}

/// The kinds of answer.
#[derive(Debug, Clone, Copy, PartialEq, Eq, Structural)]
pub enum AnswerKind {
    Flag,
    Names,
    Text,
    Time,
    Done,
}

/// One step of an operation: the next action with the state in which its
/// answer is awaited, or the end of the operation.
#[derive(Debug)]
pub enum Step<S, T> {
    Ask { state: S, action: FsAction },
    Finish(Result<T, AppError>),
}

impl FsAction {
    /// The kind of answer that the action calls for.
    pub open spec fn expects(&self) -> AnswerKind {
        match self {
            FsAction::Exists { .. } => AnswerKind::Flag,
            FsAction::IsDir { .. } => AnswerKind::Flag,
            FsAction::ListNames { .. } => AnswerKind::Names,
            FsAction::Canonicalize { .. } => AnswerKind::Text,
            FsAction::LocalTime { .. } => AnswerKind::Time,
            FsAction::WriteFile { .. } => AnswerKind::Done,
            FsAction::Rename { .. } => AnswerKind::Done,
            FsAction::RemoveFile { .. } => AnswerKind::Done,
            FsAction::CreateDir { .. } => AnswerKind::Done,
            FsAction::CreateDirAll { .. } => AnswerKind::Done,
            FsAction::SetMode { .. } => AnswerKind::Done,
            FsAction::RemoveDirAll { .. } => AnswerKind::Done,
        }
    }

    /// Whether the action changes the file system.
    pub open spec fn is_change(&self) -> bool {
        self.expects() == AnswerKind::Done
    }

    /// The kind of answer that the action calls for.
    pub fn answer_kind(&self) -> (r: AnswerKind)
        ensures
            r == self.expects(),
    {
        match self {
            FsAction::Exists { .. } => AnswerKind::Flag,
            FsAction::IsDir { .. } => AnswerKind::Flag,
            FsAction::ListNames { .. } => AnswerKind::Names,
            FsAction::Canonicalize { .. } => AnswerKind::Text,
            FsAction::LocalTime { .. } => AnswerKind::Time,
            FsAction::WriteFile { .. } => AnswerKind::Done,
            FsAction::Rename { .. } => AnswerKind::Done,
            FsAction::RemoveFile { .. } => AnswerKind::Done,
            FsAction::CreateDir { .. } => AnswerKind::Done,
            FsAction::CreateDirAll { .. } => AnswerKind::Done,
            FsAction::SetMode { .. } => AnswerKind::Done,
            FsAction::RemoveDirAll { .. } => AnswerKind::Done,
        }
    }
}

impl FsAnswer {
    /// The kind of the answer.
    pub open spec fn kind(&self) -> AnswerKind {
        match self {
            FsAnswer::Flag(_) => AnswerKind::Flag,
            FsAnswer::Names(_) => AnswerKind::Names,
            FsAnswer::Text(_) => AnswerKind::Text,
            FsAnswer::Time(_) => AnswerKind::Time,
            FsAnswer::Done(_) => AnswerKind::Done,
        }
    }

    /// Whether the answer says that the action was done.
    pub open spec fn is_success(&self) -> bool {
        self matches FsAnswer::Done(Ok(_))
    }

    /// Whether the answer says that the action was not done.
    pub open spec fn is_failure(&self) -> bool {
        self matches FsAnswer::Done(Err(_))
    }

    /// The kind of the answer.
    pub fn kind_of(&self) -> (r: AnswerKind)
        ensures
            r == self.kind(),
    {
        match self {
            FsAnswer::Flag(_) => AnswerKind::Flag,
            FsAnswer::Names(_) => AnswerKind::Names,
            FsAnswer::Text(_) => AnswerKind::Text,
            FsAnswer::Time(_) => AnswerKind::Time,
            FsAnswer::Done(_) => AnswerKind::Done,
        }
    }
}

} // verus!
