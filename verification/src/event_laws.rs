//! What each event makes of the panel and asks for.

use vstd::prelude::*;

use crate::branch::BranchView;
use crate::effect::{
    Click, EffectView, GitStoreEvent, LoadOutcomeView, Operation, OperationOutcomeView,
    RepositoryId,
};
use crate::menu::MenuActionView;
use crate::panel::{
    chosen, clicked, finished, loaded, local_toggled, made, menu_dismissed, menu_opened, refreshed,
    remote_toggled, store_reported, PanelState,
};

verus! {

/// A new panel is unfolded, empty and without an error or a menu. It observes the
/// store of repositories, is drawn, and loads the branches of the active
/// repository where there is one.
pub proof fn law_new_panel(active_repo: Option<RepositoryId>)
    ensures
        ({
            let state = made(active_repo).0;
            &&& state.active_repo == active_repo
            &&& state.branches.len() == 0
            &&& state.error is None
            &&& state.is_loading == active_repo is Some
            &&& state.local_expanded
            &&& state.remote_expanded
            &&& state.context_menu is None
        }),
        match active_repo {
            Some(repo) => made(active_repo).1 == seq![
                EffectView::ObserveStore,
                EffectView::Notify,
                EffectView::LoadBranches { repo },
            ],
            None => made(active_repo).1 == seq![EffectView::ObserveStore, EffectView::Notify],
        },
{
}

/// A refresh asks the active repository, and only it, for its branches, exactly
/// once, and says so; the list and the error stay until the answer. Without a
/// repository it asks for nothing but a drawing, and the list and the error are
/// gone.
pub proof fn law_refresh(state: PanelState)
    ensures
        ({
            let next = refreshed(state).0;
            &&& next.active_repo == state.active_repo
            &&& next.local_expanded == state.local_expanded
            &&& next.remote_expanded == state.remote_expanded
            &&& next.context_menu == state.context_menu
            &&& match state.active_repo {
                Some(repo) => {
                    &&& next.is_loading
                    &&& next.branches == state.branches
                    &&& next.error == state.error
                    &&& refreshed(state).1 == seq![
                        EffectView::Notify,
                        EffectView::LoadBranches { repo },
                    ]
                },
                None => {
                    &&& next.is_loading == state.is_loading
                    &&& next.branches.len() == 0
                    &&& next.error is None
                    &&& refreshed(state).1 == seq![EffectView::Notify]
                },
            }
        }),
{
}

/// When another repository becomes the active one, the panel follows it from
/// every state: it loads the branches of that repository, or empties its list
/// where none is active any more.
pub proof fn law_panel_follows_the_active_repository(
    state: PanelState,
    active_repo: Option<RepositoryId>,
)
    ensures
        ({
            let (next, effects) = store_reported(
                state,
                GitStoreEvent::ActiveRepositoryChanged,
                active_repo,
            );
            &&& next.active_repo == active_repo
            &&& next.local_expanded == state.local_expanded
            &&& next.remote_expanded == state.remote_expanded
            &&& next.context_menu == state.context_menu
            &&& match active_repo {
                Some(repo) => {
                    &&& next.is_loading
                    &&& next.branches == state.branches
                    &&& next.error == state.error
                    &&& effects == seq![EffectView::Notify, EffectView::LoadBranches { repo }]
                },
                None => {
                    &&& next.is_loading == state.is_loading
                    &&& next.branches.len() == 0
                    &&& next.error is None
                    &&& effects == seq![EffectView::Notify]
                },
            }
        }),
{
}

/// Any other report of the store of repositories changes nothing and asks for
/// nothing, whichever repository is active.
pub proof fn law_other_reports_change_nothing(
    state: PanelState,
    active_repo: Option<RepositoryId>,
)
    ensures
        store_reported(state, GitStoreEvent::Other, active_repo).0 == state,
        store_reported(state, GitStoreEvent::Other, active_repo).1.len() == 0,
{
}

/// Every answer ends the loading and is drawn. A scan brings its branches and its
/// error, or the end of an earlier error; anything else keeps the branches and
/// tells its error.
pub proof fn law_answer(state: PanelState, outcome: LoadOutcomeView)
    ensures
        ({
            let (next, effects) = loaded(state, outcome);
            &&& !next.is_loading
            &&& effects == seq![EffectView::Notify]
            &&& next.active_repo == state.active_repo
            &&& next.local_expanded == state.local_expanded
            &&& next.remote_expanded == state.remote_expanded
            &&& next.context_menu == state.context_menu
            &&& match outcome {
                LoadOutcomeView::Scanned { branches, error } => next.branches == branches
                    && next.error == error,
                LoadOutcomeView::Failed { message } => next.branches == state.branches
                    && next.error == Some(message),
                LoadOutcomeView::Canceled => next.branches == state.branches && next.error == Some(
                    "Failed to load branches"@,
                ),
            }
        }),
{
}

/// The menu that opens is that of the branch, whichever was open before; it gets
/// the focus, is observed and drawn, and nothing else changes.
pub proof fn law_menu_opening(state: PanelState, branch: BranchView)
    ensures
        ({
            let (next, effects) = menu_opened(state, branch);
            &&& next.context_menu matches Some(menu) && menu.branch_name == branch.name
                && menu.items == crate::menu::menu_items(branch, state.active_repo)
            &&& effects == seq![EffectView::FocusMenu, EffectView::ObserveMenu, EffectView::Notify]
            &&& next.active_repo == state.active_repo
            &&& next.branches == state.branches
            &&& next.error == state.error
            &&& next.is_loading == state.is_loading
            &&& next.local_expanded == state.local_expanded
            &&& next.remote_expanded == state.remote_expanded
        }),
{
}

/// A dismissal closes whichever menu is open and is drawn, and nothing else
/// changes.
pub proof fn law_menu_dismissal(state: PanelState)
    ensures
        ({
            let (next, effects) = menu_dismissed(state);
            &&& next.context_menu is None
            &&& effects == seq![EffectView::Notify]
            &&& next.active_repo == state.active_repo
            &&& next.branches == state.branches
            &&& next.error == state.error
            &&& next.is_loading == state.is_loading
            &&& next.local_expanded == state.local_expanded
            &&& next.remote_expanded == state.remote_expanded
        }),
{
}

/// With a repository, a choice asks for its own operation on the named branch,
/// once, and for nothing else, whatever else the state is: a checkout in the
/// active repository, the others in the repository that they carry. Without one,
/// and on a push, it asks for nothing.
pub proof fn law_choice_asks_for_its_operation(
    state: PanelState,
    repo: RepositoryId,
    is_remote: bool,
    name: Seq<char>,
)
    ensures
        match state.active_repo {
            Some(active) => chosen(state, MenuActionView::Checkout { name }) == seq![
                EffectView::ChangeBranch { repo: active, name },
            ],
            None => chosen(state, MenuActionView::Checkout { name }).len() == 0,
        },
        chosen(state, MenuActionView::Merge { repo: Some(repo), name }) == seq![
            EffectView::Merge { repo, name },
        ],
        chosen(state, MenuActionView::Rebase { repo: Some(repo), name }) == seq![
            EffectView::RebaseOnto { repo, name },
        ],
        chosen(state, MenuActionView::Delete { repo: Some(repo), is_remote, name }) == seq![
            EffectView::DeleteBranch { repo, is_remote, name, force: false },
        ],
        chosen(state, MenuActionView::Push).len() == 0,
        chosen(state, MenuActionView::Merge { repo: None, name }).len() == 0,
        chosen(state, MenuActionView::Rebase { repo: None, name }).len() == 0,
        chosen(state, MenuActionView::Delete { repo: None, is_remote, name }).len() == 0,
{
}

/// The branches are loaded anew after a checkout or a deletion in any case, and
/// after a merge or a rebase that is done.
pub proof fn law_operation_is_followed_by_a_load(
    state: PanelState,
    operation: Operation,
    outcome: OperationOutcomeView,
    repo: RepositoryId,
)
    requires
        state.active_repo == Some(repo),
        operation is Checkout || operation is Delete || outcome is Done,
    ensures
        finished(state, operation, outcome).1 == seq![
            EffectView::Notify,
            EffectView::LoadBranches { repo },
        ],
        finished(state, operation, outcome).0.is_loading,
        finished(state, operation, outcome).0.branches == state.branches,
        finished(state, operation, outcome).0.error == state.error,
        finished(state, operation, outcome).0.active_repo == state.active_repo,
        finished(state, operation, outcome).0.local_expanded == state.local_expanded,
        finished(state, operation, outcome).0.remote_expanded == state.remote_expanded,
        finished(state, operation, outcome).0.context_menu == state.context_menu,
{
}

/// Where no repository is active any more, the end of such an operation empties
/// the list, as a refresh does.
pub proof fn law_operation_without_repository_empties_the_list(
    state: PanelState,
    operation: Operation,
    outcome: OperationOutcomeView,
)
    requires
        state.active_repo is None,
        operation is Checkout || operation is Delete || outcome is Done,
    ensures
        finished(state, operation, outcome) == refreshed(state),
{
}

/// A merge or a rebase that failed is logged by its name and its error; one
/// without an answer is passed over. Neither changes the panel.
pub proof fn law_failed_integration_is_logged(state: PanelState, message: Seq<char>)
    ensures
        ({
            let failed = OperationOutcomeView::Failed { message };
            let canceled = OperationOutcomeView::Canceled;
            &&& finished(state, Operation::Merge, failed) == (
                state,
                seq![EffectView::LogError { message: "merge failed: "@ + message }],
            )
            &&& finished(state, Operation::Rebase, failed) == (
                state,
                seq![EffectView::LogError { message: "rebase failed: "@ + message }],
            )
            &&& finished(state, Operation::Merge, canceled).0 == state
            &&& finished(state, Operation::Merge, canceled).1.len() == 0
            &&& finished(state, Operation::Rebase, canceled).0 == state
            &&& finished(state, Operation::Rebase, canceled).1.len() == 0
        }),
{
}

/// A click on a heading turns over the fold of its own section, and a click on
/// the button loads the branches or empties the list. Each is drawn, and nothing
/// else changes.
pub proof fn law_click(state: PanelState)
    ensures
        ({
            let (next, effects) = clicked(state, Click::ToggleLocal);
            &&& next.local_expanded == !state.local_expanded
            &&& next.remote_expanded == state.remote_expanded
            &&& next.active_repo == state.active_repo
            &&& next.branches == state.branches
            &&& next.error == state.error
            &&& next.is_loading == state.is_loading
            &&& next.context_menu == state.context_menu
            &&& effects == seq![EffectView::Notify]
            &&& (next, effects) == local_toggled(state)
        }),
        ({
            let (next, effects) = clicked(state, Click::ToggleRemote);
            &&& next.local_expanded == state.local_expanded
            &&& next.remote_expanded == !state.remote_expanded
            &&& next.active_repo == state.active_repo
            &&& next.branches == state.branches
            &&& next.error == state.error
            &&& next.is_loading == state.is_loading
            &&& next.context_menu == state.context_menu
            &&& effects == seq![EffectView::Notify]
            &&& (next, effects) == remote_toggled(state)
        }),
        clicked(state, Click::Refresh) == refreshed(state),
{
}

} // verus!
