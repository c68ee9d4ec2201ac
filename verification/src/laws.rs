//! What holds of the panel as a whole.

use vstd::prelude::*;

use crate::branch::{branches_where, BranchView};
use crate::clock::{age_count, age_label, age_unit, AgeUnit, DAY, HOUR, MINUTE};
use crate::effect::{
    EffectView, GitStoreEvent, LoadOutcomeView, Operation, OperationOutcomeView, RepositoryId,
};
use crate::menu::{
    checkout_entries, integrate_entries, manage_entries, menu_group, menu_items, remote_entries,
    MenuActionView, MenuItemView,
};
use crate::panel::{
    are_sections_of, chosen, clicked, finished, is_layout_of, loaded, local_toggled, made,
    menu_dismissed, menu_opened, refreshed, remote_toggled, section_heading, store_reported, PanelLayoutView,
    PanelState,
};
use crate::row::{row_of, small_label};
use crate::widget::{Color, IconName};

verus! {

/// Something that happens to a panel.
pub enum PanelEvent {
    Refresh,
    StoreReported { report: GitStoreEvent, active_repo: Option<RepositoryId> },
    Loaded { answer: LoadOutcomeView },
    MenuOpened { branch: BranchView },
    MenuDismissed,
    Chosen { action: MenuActionView },
    Finished { operation: Operation, outcome: OperationOutcomeView },
    LocalToggled,
    RemoteToggled,
}

/// What an event makes of a state, and what it asks for.
pub open spec fn step(state: PanelState, event: PanelEvent) -> (PanelState, Seq<EffectView>) {
    match event {
        PanelEvent::Refresh => refreshed(state),
        PanelEvent::StoreReported { report, active_repo } => store_reported(
            state,
            report,
            active_repo,
        ),
        PanelEvent::Loaded { answer } => loaded(state, answer),
        PanelEvent::MenuOpened { branch } => menu_opened(state, branch),
        PanelEvent::MenuDismissed => menu_dismissed(state),
        PanelEvent::Chosen { action } => (state, chosen(state, action)),
        PanelEvent::Finished { operation, outcome } => finished(state, operation, outcome),
        PanelEvent::LocalToggled => local_toggled(state),
        PanelEvent::RemoteToggled => remote_toggled(state),
    }
}

/// The state of a panel that was made while a repository was active, after some
/// events.
pub open spec fn run(active_repo: Option<RepositoryId>, events: Seq<PanelEvent>) -> PanelState
    decreases events.len(),
{
    if events.len() == 0 {
        made(active_repo).0
    } else {
        step(run(active_repo, events.drop_last()), events.last()).0
    }
}

/// How many requests for branches are among some effects.
pub open spec fn requests(effects: Seq<EffectView>) -> nat {
    effects.filter(|effect: EffectView| effect is LoadBranches).len()
}

/// How many requests for branches have been made and not been answered yet,
/// where each answer is counted off.
pub open spec fn outstanding(active_repo: Option<RepositoryId>, events: Seq<PanelEvent>) -> int
    decreases events.len(),
{
    if events.len() == 0 {
        requests(made(active_repo).1) as int
    } else {
        let before = events.drop_last();
        let answered: int = if events.last() is Loaded {
            1
        } else {
            0
        };
        outstanding(active_repo, before) + requests(
            step(run(active_repo, before), events.last()).1,
        ) - answered
    }
}

/// Whether some events can have come about: an answer comes only to a request
/// that has not been answered yet.
pub open spec fn is_history(active_repo: Option<RepositoryId>, events: Seq<PanelEvent>) -> bool {
    forall|n: int|
        0 <= n <= events.len() ==> outstanding(active_repo, #[trigger] events.take(n)) >= 0
}

proof fn lemma_requests(repo: RepositoryId)
    ensures
        requests(seq![]) == 0,
        requests(seq![EffectView::Notify]) == 0,
        requests(seq![EffectView::Notify, EffectView::LoadBranches { repo }]) == 1,
        requests(made(Some(repo)).1) == 1,
        requests(made(None).1) == 0,
{
    reveal_with_fuel(Seq::filter, 4);
    let three = made(Some(repo)).1;
    assert(three.drop_last() =~= made(None).1);
    assert(made(None).1.drop_last() =~= seq![EffectView::ObserveStore]);
    assert(seq![EffectView::ObserveStore].drop_last() =~= seq![]);
    let two = seq![EffectView::Notify, EffectView::LoadBranches { repo }];
    let one = seq![EffectView::Notify];
    assert(two.drop_last() =~= one);
    assert(one.drop_last() =~= seq![]);
}

/// While the panel says that it is loading, some request for branches awaits its
/// answer.
pub proof fn law_loading_awaits_an_answer(
    active_repo: Option<RepositoryId>,
    events: Seq<PanelEvent>,
)
    requires
        is_history(active_repo, events),
    ensures
        run(active_repo, events).is_loading ==> outstanding(active_repo, events) > 0,
    decreases events.len(),
{
    let repo = RepositoryId { id: 0 };
    lemma_requests(repo);
    if events.len() == 0 {
        if let Some(repo) = active_repo {
            lemma_requests(repo);
        }
    } else {
        let before = events.drop_last();
        assert(before =~= events.take(events.len() - 1));
        assert forall|n: int| 0 <= n <= before.len() implies outstanding(
            active_repo,
            #[trigger] before.take(n),
        ) >= 0 by {
            assert(before.take(n) =~= events.take(n));
        }
        law_loading_awaits_an_answer(active_repo, before);
        assert(events.take(before.len() as int) =~= before);
        assert(outstanding(active_repo, before) >= 0);
        let state = run(active_repo, before);
        if let Some(repo) = step(state, events.last()).0.active_repo {
            lemma_requests(repo);
        }
    }
}

/// Whatever changes in the panel is drawn.
pub proof fn law_changes_are_drawn(state: PanelState, event: PanelEvent)
    ensures
        step(state, event).0 != state ==> step(state, event).1.contains(EffectView::Notify),
{
    let effects = step(state, event).1;
    if step(state, event).0 != state {
        if event is MenuOpened {
            assert(effects[2] == EffectView::Notify);
        } else {
            assert(effects[0] == EffectView::Notify);
        }
    }
}

/// The list of branches changes only by a scan, which replaces it, and by the
/// refresh of a panel without a repository, which empties it.
pub proof fn law_only_scans_fill_the_list(state: PanelState, event: PanelEvent)
    ensures
        ({
            let next = step(state, event).0;
            ||| next.branches == state.branches
            ||| next.active_repo is None && next.branches.len() == 0 && next.error is None
            ||| event matches PanelEvent::Loaded {
                answer: LoadOutcomeView::Scanned { branches, error },
            } && next.branches == branches && next.error == error
        }),
{
}

/// Each part of the state is changed by its own events and by no other.
pub proof fn law_events_keep_to_their_part(state: PanelState, event: PanelEvent)
    ensures
        ({
            let next = step(state, event).0;
            &&& next.active_repo != state.active_repo ==> (event
                matches PanelEvent::StoreReported { report, active_repo }
                && report is ActiveRepositoryChanged && next.active_repo == active_repo)
            &&& next.context_menu != state.context_menu ==> event is MenuOpened
                || event is MenuDismissed
            &&& next.local_expanded != state.local_expanded ==> event is LocalToggled
            &&& next.remote_expanded != state.remote_expanded ==> event is RemoteToggled
            &&& state.is_loading && !next.is_loading ==> event is Loaded
        }),
{
}

/// Branches are requested of the active repository only, and from then on the
/// panel says that it is loading.
pub proof fn law_requests_go_to_the_active_repository(
    state: PanelState,
    event: PanelEvent,
    repo: RepositoryId,
)
    requires
        step(state, event).1.contains(EffectView::LoadBranches { repo }),
    ensures
        step(state, event).0.active_repo == Some(repo),
        step(state, event).0.is_loading,
{
}

/// A repository is changed only by the choice of an entry of a context menu, and
/// no deletion is forced.
pub proof fn law_only_choices_change_a_repository(
    state: PanelState,
    event: PanelEvent,
    effect: EffectView,
)
    requires
        step(state, event).1.contains(effect),
        effect is ChangeBranch || effect is Merge || effect is RebaseOnto
            || effect is DeleteBranch,
    ensures
        event is Chosen,
        effect matches EffectView::DeleteBranch { force, .. } ==> !force,
{
}

/// Two clicks on a heading leave the panel as it was.
pub proof fn law_toggling_twice_restores(state: PanelState)
    ensures
        local_toggled(local_toggled(state).0).0 == state,
        remote_toggled(remote_toggled(state).0).0 == state,
{
}

/// To dismiss the menu undoes its opening, where none was open before.
pub proof fn law_dismissal_undoes_opening(state: PanelState, branch: BranchView)
    requires
        state.context_menu is None,
    ensures
        menu_dismissed(menu_opened(state, branch).0).0 == state,
{
}

/// A checkout and a deletion are followed by a refresh whatever came of them.
pub proof fn law_checkout_and_deletion_always_refresh(
    state: PanelState,
    outcome: OperationOutcomeView,
)
    ensures
        finished(state, Operation::Checkout, outcome) == refreshed(state),
        finished(state, Operation::Delete, outcome) == refreshed(state),
{
}

/// A merge or a rebase that did not succeed leaves the panel as it was, and asks
/// neither for a refresh nor for a new drawing.
pub proof fn law_failed_integration_changes_nothing(
    state: PanelState,
    operation: Operation,
    outcome: OperationOutcomeView,
)
    requires
        operation is Merge || operation is Rebase,
        !(outcome is Done),
    ensures
        finished(state, operation, outcome).0 == state,
        forall|i: int|
            0 <= i < finished(state, operation, outcome).1.len() ==> #[trigger] finished(
                state,
                operation,
                outcome,
            ).1[i] is LogError,
{
}

/// Whether a menu has an entry that does something.
pub open spec fn offers(items: Seq<MenuItemView>, action: MenuActionView) -> bool {
    exists|i: int|
        0 <= i < items.len() && (#[trigger] items[i] matches MenuItemView::Entry {
            action: offered,
            ..
        } && offered == action)
}

proof fn lemma_offers_concat(
    first: Seq<MenuItemView>,
    second: Seq<MenuItemView>,
    action: MenuActionView,
)
    ensures
        offers(first + second, action) <==> offers(first, action) || offers(second, action),
{
    let both = first + second;
    if offers(first, action) {
        let i = choose|i: int|
            0 <= i < first.len() && (#[trigger] first[i] matches MenuItemView::Entry {
                action: offered,
                ..
            } && offered == action);
        assert(both[i] == first[i]);
    }
    if offers(second, action) {
        let i = choose|i: int|
            0 <= i < second.len() && (#[trigger] second[i] matches MenuItemView::Entry {
                action: offered,
                ..
            } && offered == action);
        assert(both[first.len() + i] == second[i]);
    }
    if offers(both, action) {
        let i = choose|i: int|
            0 <= i < both.len() && (#[trigger] both[i] matches MenuItemView::Entry {
                action: offered,
                ..
            } && offered == action);
        if i < first.len() {
            assert(first[i] == both[i]);
        } else {
            assert(second[i - first.len()] == both[i]);
        }
    }
}

/// What the menu of a branch offers, and nothing else: the checkout of a local
/// branch that is not checked out, the push of a local branch, the merge of and
/// the rebase onto a branch that is not checked out, and the deletion of any
/// branch. All but the push are about that very branch, and those that name a
/// repository name the one that was active when the menu was opened.
pub proof fn law_menu_offers(
    branch: BranchView,
    repo: Option<RepositoryId>,
    action: MenuActionView,
)
    ensures
        offers(menu_items(branch, repo), action) <==> match action {
            MenuActionView::Checkout { name } => name == branch.name && !branch.is_remote
                && !branch.is_head,
            MenuActionView::Push => !branch.is_remote,
            MenuActionView::Merge { repo: target, name } => target == repo && name == branch.name
                && !branch.is_head,
            MenuActionView::Rebase { repo: target, name } => target == repo && name == branch.name
                && !branch.is_head,
            MenuActionView::Delete { repo: target, is_remote, name } => target == repo && is_remote
                == branch.is_remote && name == branch.name,
        },
{
    let head = seq![MenuItemView::Header { text: branch.name }];
    let checkout = checkout_entries(branch);
    let remote = menu_group("Remote"@, remote_entries(branch));
    let integrate = menu_group("Integrate"@, integrate_entries(branch, repo));
    let manage = menu_group("Manage"@, manage_entries(branch, repo));
    lemma_offers_concat(head, checkout, action);
    lemma_offers_concat(head + checkout, remote, action);
    lemma_offers_concat(head + checkout + remote, integrate, action);
    lemma_offers_concat(head + checkout + remote + integrate, manage, action);
    lemma_group_offers("Remote"@, remote_entries(branch), action);
    lemma_group_offers("Integrate"@, integrate_entries(branch, repo), action);
    lemma_group_offers("Manage"@, manage_entries(branch, repo), action);
    assert(!offers(head, action));
    let wanted = |item: MenuItemView|
        item matches MenuItemView::Entry { action: offered, .. } && offered == action;
    if !branch.is_remote && !branch.is_head {
        assert(wanted(checkout[0]) ==> offers(checkout, action));
    }
    if !branch.is_remote {
        assert(wanted(remote_entries(branch)[0]) ==> offers(remote_entries(branch), action));
    }
    if !branch.is_head {
        let entries = integrate_entries(branch, repo);
        assert(wanted(entries[0]) ==> offers(entries, action));
        assert(wanted(entries[1]) ==> offers(entries, action));
    }
    let entries = manage_entries(branch, repo);
    assert(wanted(entries[0]) ==> offers(entries, action));
}

proof fn lemma_group_offers(
    heading: Seq<char>,
    entries: Seq<MenuItemView>,
    action: MenuActionView,
)
    ensures
        offers(menu_group(heading, entries), action) <==> offers(entries, action),
{
    let start = seq![MenuItemView::Separator, MenuItemView::Header { text: heading }];
    lemma_offers_concat(start, entries, action);
    assert(!offers(start, action));
}

/// Whatever becomes the active repository after a menu was opened: a merge, a
/// rebase and a deletion chosen from it take place in the repository that was
/// active when it was opened, a checkout in the one that is active by then. All
/// are about the branch of the menu.
pub proof fn law_menu_keeps_its_repository(
    opened: PanelState,
    branch: BranchView,
    later: PanelState,
    action: MenuActionView,
    effect: EffectView,
)
    requires
        offers(menu_opened(opened, branch).0.context_menu->0.items, action),
        chosen(later, action).contains(effect),
    ensures
        match effect {
            EffectView::ChangeBranch { repo, name } => later.active_repo == Some(repo) && name
                == branch.name,
            EffectView::Merge { repo, name } => opened.active_repo == Some(repo) && name
                == branch.name,
            EffectView::RebaseOnto { repo, name } => opened.active_repo == Some(repo) && name
                == branch.name,
            EffectView::DeleteBranch { repo, is_remote, name, force } => opened.active_repo == Some(
                repo,
            ) && is_remote == branch.is_remote && name == branch.name && !force,
            _ => false,
        },
{
    law_menu_offers(branch, opened.active_repo, action);
}

/// After a refresh with an active repository the panel says that it is loading
/// and hides the branches until the answer comes.
pub proof fn law_refresh_hides_the_branches(state: PanelState, layout: PanelLayoutView)
    requires
        state.active_repo is Some,
        is_layout_of(layout, refreshed(state).0),
    ensures
        layout.sections is None,
        layout.loading == Some(small_label("Loading…"@, Color::Muted)),
{
}

/// After an answer the branches are shown again: those of a scan, with the error
/// that it reported, or after an error those that were listed before.
pub proof fn law_answer_shows_the_branches(
    state: PanelState,
    outcome: LoadOutcomeView,
    layout: PanelLayoutView,
)
    requires
        is_layout_of(layout, loaded(state, outcome).0),
    ensures
        layout.loading is None,
        layout.sections is Some,
        match outcome {
            LoadOutcomeView::Scanned { branches, error } => {
                &&& are_sections_of(layout.sections->0, PanelState { branches, ..state })
                &&& layout.error == match error {
                    Some(message) => Some(small_label(message, Color::Error)),
                    None => None,
                }
            },
            LoadOutcomeView::Failed { message } => {
                &&& are_sections_of(layout.sections->0, state)
                &&& layout.error == Some(small_label(message, Color::Error))
            },
            LoadOutcomeView::Canceled => {
                &&& are_sections_of(layout.sections->0, state)
                &&& layout.error == Some(small_label("Failed to load branches"@, Color::Error))
            },
        },
{
}

/// Once no repository is active and no answer is awaited, a refreshed panel
/// shows two empty sections and no error.
pub proof fn law_without_repository_nothing_is_listed(state: PanelState, layout: PanelLayoutView)
    requires
        state.active_repo is None,
        !state.is_loading,
        is_layout_of(layout, refreshed(state).0),
    ensures
        layout.error is None,
        layout.sections matches Some(sections) && {
            &&& sections.local.rows.len() == 0
            &&& sections.remote.rows.len() == 0
            &&& sections.local.heading == small_label(
                section_heading("Local"@, 0),
                Color::Muted,
            )
            &&& sections.remote.heading == small_label(
                section_heading("Remote"@, 0),
                Color::Muted,
            )
        },
{
    reveal(Seq::filter);
}

proof fn lemma_branches_where(branches: Seq<BranchView>, is_remote: bool, branch: BranchView)
    ensures
        branches_where(branches, is_remote).contains(branch) <==> branches.contains(branch)
            && branch.is_remote == is_remote,
{
    let keep = |branch: BranchView| branch.is_remote == is_remote;
    let kept = branches_where(branches, is_remote);
    assert(kept == branches.filter(keep));
    if kept.contains(branch) {
        let i = choose|i: int| 0 <= i < kept.len() && kept[i] == branch;
        branches.lemma_filter_pred(keep, i);
        branches.lemma_filter_contains_rev(keep, branch);
    }
    if branches.contains(branch) && branch.is_remote == is_remote {
        let i = choose|i: int| 0 <= i < branches.len() && branches[i] == branch;
        branches.lemma_filter_contains(keep, i);
    }
}

/// Whether an event can fill the list of a panel that has no repository, or give
/// it a repository.
pub open spec fn brings_branches(event: PanelEvent) -> bool {
    match event {
        PanelEvent::Loaded { answer } => answer is Scanned,
        PanelEvent::StoreReported { report, .. } => report is ActiveRepositoryChanged,
        _ => false,
    }
}

/// From the moment when no repository is active, the panel lists no branch, until
/// one becomes active or the late answer to an earlier request comes in. That
/// moment is the event at `lost`, or the making of the panel where `lost` is -1.
pub proof fn law_no_repository_means_no_branches(
    active_repo: Option<RepositoryId>,
    events: Seq<PanelEvent>,
    lost: int,
)
    requires
        -1 <= lost < events.len(),
        lost == -1 ==> active_repo is None,
        lost >= 0 ==> events[lost] == (PanelEvent::StoreReported {
            report: GitStoreEvent::ActiveRepositoryChanged,
            active_repo: None,
        }),
        forall|i: int| lost < i < events.len() ==> !brings_branches(#[trigger] events[i]),
    ensures
        run(active_repo, events).active_repo is None,
        run(active_repo, events).branches.len() == 0,
    decreases events.len(),
{
    if lost < events.len() - 1 {
        let before = events.drop_last();
        assert forall|i: int| lost < i < before.len() implies !brings_branches(
            #[trigger] before[i],
        ) by {
            assert(before[i] == events[i]);
        }
        law_no_repository_means_no_branches(active_repo, before, lost);
        assert(!brings_branches(events[events.len() - 1]));
    }
}

/// The two sections divide the branches: each branch is in the one section that
/// its place tells, as often as it is in the list.
pub proof fn law_sections_divide_the_branches(branches: Seq<BranchView>)
    ensures
        branches_where(branches, false).len() + branches_where(branches, true).len()
            == branches.len(),
        (branches_where(branches, false) + branches_where(branches, true)).to_multiset()
            == branches.to_multiset(),
        forall|branch: BranchView, is_remote: bool| #[trigger]
            branches_where(branches, is_remote).contains(branch) <==> branches.contains(branch)
                && branch.is_remote == is_remote,
    decreases branches.len(),
{
    broadcast use vstd::seq_lib::group_to_multiset_ensures;

    let local = branches_where(branches, false);
    let remote = branches_where(branches, true);
    reveal(Seq::filter);
    if branches.len() > 0 {
        let rest = branches.drop_last();
        let last = branches.last();
        law_sections_divide_the_branches(rest);
        vstd::seq_lib::lemma_multiset_commutative(local, remote);
        vstd::seq_lib::lemma_multiset_commutative(
            branches_where(rest, false),
            branches_where(rest, true),
        );
        assert(branches =~= rest.push(last));
        assert(local.to_multiset() == if last.is_remote {
            branches_where(rest, false).to_multiset()
        } else {
            branches_where(rest, false).to_multiset().insert(last)
        });
        assert(remote.to_multiset() == if last.is_remote {
            branches_where(rest, true).to_multiset().insert(last)
        } else {
            branches_where(rest, true).to_multiset()
        });
        assert((local + remote).to_multiset() =~= branches.to_multiset());
    } else {
        assert(local + remote =~= branches);
    }
    assert forall|branch: BranchView, is_remote: bool| #[trigger]
        branches_where(branches, is_remote).contains(branch) <==> branches.contains(branch)
            && branch.is_remote == is_remote by {
        lemma_branches_where(branches, is_remote, branch);
    }
}

/// While both sections are unfolded, the panel has a row for each branch.
pub proof fn law_every_branch_has_a_row(state: PanelState, layout: PanelLayoutView)
    requires
        is_layout_of(layout, state),
        !state.is_loading,
        state.local_expanded,
        state.remote_expanded,
    ensures
        layout.sections matches Some(sections) && sections.local.rows.len()
            + sections.remote.rows.len() == state.branches.len(),
{
    law_sections_divide_the_branches(state.branches);
}

/// A fold hides the rows of a section and leaves its heading, with the number of
/// its branches, as it was.
pub proof fn law_folding_keeps_the_headings(
    state: PanelState,
    local_expanded: bool,
    remote_expanded: bool,
    before: PanelLayoutView,
    after: PanelLayoutView,
)
    requires
        !state.is_loading,
        is_layout_of(before, state),
        is_layout_of(after, PanelState { local_expanded, remote_expanded, ..state }),
    ensures
        after.sections->0.local.heading == before.sections->0.local.heading,
        after.sections->0.remote.heading == before.sections->0.remote.heading,
        !local_expanded ==> after.sections->0.local.rows.len() == 0,
        !remote_expanded ==> after.sections->0.remote.rows.len() == 0,
{
}

/// What is clicked is what reacts: the heading of a section folds or unfolds that
/// section, and the button refreshes the panel.
pub proof fn law_clicks_do_what_they_show(state: PanelState, layout: PanelLayoutView)
    requires
        is_layout_of(layout, state),
    ensures
        clicked(state, layout.refresh.on_click) == refreshed(state),
        layout.sections matches Some(sections) ==> {
            &&& clicked(state, sections.local.on_click) == local_toggled(state)
            &&& clicked(state, sections.remote.on_click) == remote_toggled(state)
        },
{
}

/// An age is told in whole units, rounded down: at most 59 minutes, 1 to 23
/// hours, or at least 1 day.
pub proof fn law_age_is_rounded_down(elapsed: int)
    requires
        elapsed >= 0,
    ensures
        match age_unit(elapsed) {
            AgeUnit::Minutes => {
                &&& age_count(elapsed) * MINUTE <= elapsed < (age_count(elapsed) + 1) * MINUTE
                &&& age_count(elapsed) <= 59
            },
            AgeUnit::Hours => {
                &&& age_count(elapsed) * HOUR <= elapsed < (age_count(elapsed) + 1) * HOUR
                &&& 1 <= age_count(elapsed) <= 23
            },
            AgeUnit::Days => {
                &&& age_count(elapsed) * DAY <= elapsed < (age_count(elapsed) + 1) * DAY
                &&& 1 <= age_count(elapsed)
            },
        },
{
}

/// A commit that lies in the future is told as one of this minute.
pub proof fn law_future_commits_have_no_age(elapsed: int)
    requires
        elapsed < 0,
    ensures
        age_label(elapsed) == age_label(0),
{
}

/// The branch that is checked out is the one with the check mark and the accent.
pub proof fn law_check_mark_is_on_the_head(branch: BranchView, age: Option<Seq<char>>)
    ensures
        row_of(branch, age).icon.name == IconName::Check <==> branch.is_head,
        row_of(branch, age).icon.color == Color::Accent <==> branch.is_head,
        row_of(branch, age).name.color == Color::Default <==> branch.is_head,
{
}

} // verus!
