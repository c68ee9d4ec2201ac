//! What the values of the library stand for: themselves, part by part, with the
//! characters of their texts.

use vstd::prelude::*;

use crate::branch::{Branch, CommitSummary};
use crate::dock::{is_valid_position, DockPosition};
use crate::effect::{
    Effect, EffectView, LoadOutcome, LoadOutcomeView, OperationOutcome, OperationOutcomeView,
};
use crate::menu::{BranchContextMenu, MenuAction, MenuActionView, MenuItem, MenuItemView};
use crate::panel::{IconButton, PanelLayout, Sections};
use crate::row::{BranchRow, Section};
use crate::text::{view_option, views};
use crate::widget::Label;

verus! {

/// A sequence stands for what its items stand for, one by one and in their order.
pub proof fn law_sequence_views<T: View>(items: Seq<T>)
    ensures
        views(items).len() == items.len(),
        forall|i: int| 0 <= i < items.len() ==> #[trigger] views(items)[i] == items[i]@,
{
}

/// An optional value stands for what it holds, if it holds anything.
pub proof fn law_option_view<T: View>(item: Option<T>)
    ensures
        item matches Some(value) ==> view_option(item) == Some(value@),
        item is None ==> view_option(item) is None,
{
}

pub proof fn law_commit_view(commit: CommitSummary)
    ensures
        commit@.subject == commit.subject@,
        commit@.commit_timestamp == commit.commit_timestamp,
{
}

pub proof fn law_branch_view(branch: Branch)
    ensures
        branch@.name == branch.name@,
        branch@.is_remote == branch.is_remote,
        branch@.is_head == branch.is_head,
        branch@.upstream == branch.upstream,
        match branch.most_recent_commit {
            Some(commit) => branch@.most_recent_commit == Some(commit@),
            None => branch@.most_recent_commit is None,
        },
{
}

pub proof fn law_effect_view(effect: Effect)
    ensures
        match effect {
            Effect::ObserveStore => effect@ is ObserveStore,
            Effect::Notify => effect@ is Notify,
            Effect::LoadBranches { repo } => effect@ == (EffectView::LoadBranches { repo }),
            Effect::ChangeBranch { repo, name } => effect@ == (EffectView::ChangeBranch {
                repo,
                name: name@,
            }),
            Effect::Merge { repo, name } => effect@ == (EffectView::Merge { repo, name: name@ }),
            Effect::RebaseOnto { repo, name } => effect@ == (EffectView::RebaseOnto {
                repo,
                name: name@,
            }),
            Effect::DeleteBranch { repo, is_remote, name, force } => effect@ == (
            EffectView::DeleteBranch { repo, is_remote, name: name@, force }),
            Effect::LogError { message } => effect@ == (EffectView::LogError {
                message: message@,
            }),
            Effect::FocusMenu => effect@ is FocusMenu,
            Effect::ObserveMenu => effect@ is ObserveMenu,
        },
{
}

pub proof fn law_load_outcome_view(outcome: LoadOutcome)
    ensures
        match outcome {
            LoadOutcome::Scanned { branches, error } => outcome@ matches LoadOutcomeView::Scanned {
                branches: found,
                error: reported,
            } && {
                &&& found.len() == branches@.len()
                &&& forall|i: int| 0 <= i < found.len() ==> #[trigger] found[i] == branches@[i]@
                &&& error matches Some(text) ==> reported == Some(text@)
                &&& error is None ==> reported is None
            },
            LoadOutcome::Failed { message } => outcome@ == (LoadOutcomeView::Failed {
                message: message@,
            }),
            LoadOutcome::Canceled => outcome@ is Canceled,
        },
{
}

pub proof fn law_operation_outcome_view(outcome: OperationOutcome)
    ensures
        match outcome {
            OperationOutcome::Done => outcome@ is Done,
            OperationOutcome::Failed { message } => outcome@ == (OperationOutcomeView::Failed {
                message: message@,
            }),
            OperationOutcome::Canceled => outcome@ is Canceled,
        },
{
}

pub proof fn law_menu_action_view(action: MenuAction)
    ensures
        match action {
            MenuAction::Checkout { name } => action@ == (MenuActionView::Checkout { name: name@ }),
            MenuAction::Push => action@ is Push,
            MenuAction::Merge { repo, name } => action@ == (MenuActionView::Merge {
                repo,
                name: name@,
            }),
            MenuAction::Rebase { repo, name } => action@ == (MenuActionView::Rebase {
                repo,
                name: name@,
            }),
            MenuAction::Delete { repo, is_remote, name } => action@ == (MenuActionView::Delete {
                repo,
                is_remote,
                name: name@,
            }),
        },
{
}

pub proof fn law_menu_item_view(item: MenuItem)
    ensures
        match item {
            MenuItem::Header { text } => item@ == (MenuItemView::Header { text: text@ }),
            MenuItem::Separator => item@ is Separator,
            MenuItem::Entry { text, action } => item@ == (MenuItemView::Entry {
                text: text@,
                action: action@,
            }),
        },
{
}

pub proof fn law_menu_view(menu: BranchContextMenu)
    ensures
        menu@.branch_name == menu.branch_name@,
        menu@.items.len() == menu.items@.len(),
        forall|i: int| 0 <= i < menu.items@.len() ==> #[trigger] menu@.items[i] == menu.items@[i]@,
{
}

pub proof fn law_label_view(label: Label)
    ensures
        label@.text == label.text@,
        label@.size == label.size,
        label@.color == label.color,
{
}

pub proof fn law_row_view(row: BranchRow)
    ensures
        row@.icon == row.icon,
        row@.name == row.name@,
        row@.branch == row.branch@,
        match row.tracking {
            Some(label) => row@.tracking == Some(label@),
            None => row@.tracking is None,
        },
        match row.age {
            Some(label) => row@.age == Some(label@),
            None => row@.age is None,
        },
{
}

pub proof fn law_section_view(section: Section)
    ensures
        section@.icon == section.icon,
        section@.heading == section.heading@,
        section@.on_click == section.on_click,
        section@.rows.len() == section.rows@.len(),
        forall|i: int|
            0 <= i < section.rows@.len() ==> #[trigger] section@.rows[i] == section.rows@[i]@,
{
}

pub proof fn law_sections_view(sections: Sections)
    ensures
        sections@.local == sections.local@,
        sections@.remote == sections.remote@,
{
}

pub proof fn law_button_view(button: IconButton)
    ensures
        button@.id == button.id@,
        button@.icon == button.icon,
        button@.icon_size == button.icon_size,
        button@.tooltip == button.tooltip@,
        button@.on_click == button.on_click,
{
}

pub proof fn law_layout_view(layout: PanelLayout<'_>)
    ensures
        layout@.title == layout.title@,
        layout@.refresh == layout.refresh@,
        match layout.loading {
            Some(label) => layout@.loading == Some(label@),
            None => layout@.loading is None,
        },
        match layout.error {
            Some(label) => layout@.error == Some(label@),
            None => layout@.error is None,
        },
        match layout.sections {
            Some(sections) => layout@.sections == Some(sections@),
            None => layout@.sections is None,
        },
        match layout.context_menu {
            Some(menu) => layout@.context_menu == Some(menu@),
            None => layout@.context_menu is None,
        },
{
}

/// The panel can be docked at every side but the bottom.
pub proof fn law_docks_at_the_sides(position: DockPosition)
    ensures
        is_valid_position(position) <==> position != DockPosition::Bottom,
{
}

} // verus!
