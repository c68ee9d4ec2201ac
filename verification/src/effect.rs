//! What the panel asks of its surroundings, and what it hears back.

use vstd::prelude::*;

use crate::branch::{Branch, BranchView};
use crate::text::{view_option, views};

verus! {

/// The identity of an open repository.
#[derive(Clone, Copy, Debug, PartialEq, Eq, Structural)]
pub struct RepositoryId {
    pub id: u64,
}

/// What a click on a part of the panel does.
#[derive(Clone, Copy, Debug, PartialEq, Eq, Structural)]
pub enum Click {
    /// Refresh the panel.
    Refresh,
    /// Fold or unfold the local branches.
    ToggleLocal,
    /// Fold or unfold the remote branches.
    ToggleRemote,
}

/// Something that is to be done outside the panel.
#[derive(Debug)]
pub enum Effect {
    /// Report what the store of repositories reports.
    ObserveStore,
    /// Draw the panel anew.
    Notify,
    /// Ask a repository for its branches.
    LoadBranches { repo: RepositoryId },
    /// Check out a branch.
    ChangeBranch { repo: RepositoryId, name: String },
    /// Merge a branch into the one that is checked out.
    Merge { repo: RepositoryId, name: String },
    /// Rebase the branch that is checked out onto another.
    RebaseOnto { repo: RepositoryId, name: String },
    /// Delete a branch.
    DeleteBranch { repo: RepositoryId, is_remote: bool, name: String, force: bool },
    /// Write a message to the log of errors.
    LogError { message: String },
    /// Give the keyboard focus to the context menu.
    FocusMenu,
    /// Report when the context menu is dismissed.
    ObserveMenu,
}

/// What an `Effect` stands for.
pub enum EffectView {
    ObserveStore,
    Notify,
    LoadBranches { repo: RepositoryId },
    ChangeBranch { repo: RepositoryId, name: Seq<char> },
    Merge { repo: RepositoryId, name: Seq<char> },
    RebaseOnto { repo: RepositoryId, name: Seq<char> },
    DeleteBranch { repo: RepositoryId, is_remote: bool, name: Seq<char>, force: bool },
    LogError { message: Seq<char> },
    FocusMenu,
    ObserveMenu,
}

impl View for Effect {
    type V = EffectView;

    open spec fn view(&self) -> EffectView {
        match self {
            Effect::ObserveStore => EffectView::ObserveStore,
            Effect::Notify => EffectView::Notify,
            Effect::LoadBranches { repo } => EffectView::LoadBranches { repo: *repo },
            Effect::ChangeBranch { repo, name } => EffectView::ChangeBranch {
                repo: *repo,
                name: name@,
            },
            Effect::Merge { repo, name } => EffectView::Merge { repo: *repo, name: name@ },
            Effect::RebaseOnto { repo, name } => EffectView::RebaseOnto {
                repo: *repo,
                name: name@,
            },
            Effect::DeleteBranch { repo, is_remote, name, force } => EffectView::DeleteBranch {
                repo: *repo,
                is_remote: *is_remote,
                name: name@,
                force: *force,
            },
            Effect::LogError { message } => EffectView::LogError { message: message@ },
            Effect::FocusMenu => EffectView::FocusMenu,
            Effect::ObserveMenu => EffectView::ObserveMenu,
        }
    }
}

/// How a request for the branches of a repository came back.
#[derive(Debug)]
pub enum LoadOutcome {
    /// The branches that were found, and what went wrong with the others.
    Scanned { branches: Vec<Branch>, error: Option<String> },
    /// The repository answered with an error.
    Failed { message: String },
    /// There was no answer.
    Canceled,
}

/// What a `LoadOutcome` stands for.
pub enum LoadOutcomeView {
    Scanned { branches: Seq<BranchView>, error: Option<Seq<char>> },
    Failed { message: Seq<char> },
    Canceled,
}

impl View for LoadOutcome {
    type V = LoadOutcomeView;

    open spec fn view(&self) -> LoadOutcomeView {
        match self {
            LoadOutcome::Scanned { branches, error } => LoadOutcomeView::Scanned {
                branches: views(branches@),
                error: view_option(*error),
            },
            LoadOutcome::Failed { message } => LoadOutcomeView::Failed { message: message@ },
            LoadOutcome::Canceled => LoadOutcomeView::Canceled,
        }
    }
}

/// An operation on a repository that the context menu offers.
#[derive(Clone, Copy, Debug, PartialEq, Eq, Structural)]
pub enum Operation {
    Checkout,
    Merge,
    Rebase,
    Delete,
}

/// How an operation came back.
#[derive(Debug)]
pub enum OperationOutcome {
    Done,
    /// The repository answered with an error.
    Failed { message: String },
    /// There was no answer.
    Canceled,
}

/// What an `OperationOutcome` stands for.
pub enum OperationOutcomeView {
    Done,
    Failed { message: Seq<char> },
    Canceled,
}

impl View for OperationOutcome {
    type V = OperationOutcomeView;

    open spec fn view(&self) -> OperationOutcomeView {
        match self {
            OperationOutcome::Done => OperationOutcomeView::Done,
            OperationOutcome::Failed { message } => OperationOutcomeView::Failed {
                message: message@,
            },
            OperationOutcome::Canceled => OperationOutcomeView::Canceled,
        }
    }
}

/// What the store of repositories reports.
#[derive(Clone, Copy, Debug, PartialEq, Eq, Structural)]
pub enum GitStoreEvent {
    /// Another repository, or none, has become the active one.
    ActiveRepositoryChanged,
    /// Anything else.
    Other,
}

} // verus!
