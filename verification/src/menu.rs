//! The context menu of a branch.

use vstd::prelude::*;

use crate::branch::{Branch, BranchView};
use crate::effect::RepositoryId;
use crate::text::views;

verus! {

/// What an entry of the menu does when it is chosen.
#[derive(Debug)]
pub enum MenuAction {
    /// Check out the branch, in the repository that is active by then.
    Checkout { name: String },
    /// Nothing: the entry is a reminder, and the push has its place elsewhere.
    Push,
    /// Merge the branch, in the repository that was active when the menu was
    /// opened.
    Merge { repo: Option<RepositoryId>, name: String },
    /// Rebase onto the branch, in that same repository.
    Rebase { repo: Option<RepositoryId>, name: String },
    /// Delete the branch, in that same repository.
    Delete { repo: Option<RepositoryId>, is_remote: bool, name: String },
}

/// What a `MenuAction` stands for.
pub enum MenuActionView {
    Checkout { name: Seq<char> },
    Push,
    Merge { repo: Option<RepositoryId>, name: Seq<char> },
    Rebase { repo: Option<RepositoryId>, name: Seq<char> },
    Delete { repo: Option<RepositoryId>, is_remote: bool, name: Seq<char> },
}

impl View for MenuAction {
    type V = MenuActionView;

    open spec fn view(&self) -> MenuActionView {
        match self {
            MenuAction::Checkout { name } => MenuActionView::Checkout { name: name@ },
            MenuAction::Push => MenuActionView::Push,
            MenuAction::Merge { repo, name } => MenuActionView::Merge { repo: *repo, name: name@ },
            MenuAction::Rebase { repo, name } => MenuActionView::Rebase {
                repo: *repo,
                name: name@,
            },
            MenuAction::Delete { repo, is_remote, name } => MenuActionView::Delete {
                repo: *repo,
                is_remote: *is_remote,
                name: name@,
            },
        }
    }
}

impl Clone for MenuAction {
    fn clone(&self) -> (copy: Self)
        ensures
            copy@ == self@,
    {
        match self {
            MenuAction::Checkout { name } => MenuAction::Checkout { name: name.clone() },
            MenuAction::Push => MenuAction::Push,
            MenuAction::Merge { repo, name } => MenuAction::Merge {
                repo: *repo,
                name: name.clone(),
            },
            MenuAction::Rebase { repo, name } => MenuAction::Rebase {
                repo: *repo,
                name: name.clone(),
            },
            MenuAction::Delete { repo, is_remote, name } => MenuAction::Delete {
                repo: *repo,
                is_remote: *is_remote,
                name: name.clone(),
            },
        }
    }
}

/// A line of the menu.
#[derive(Debug)]
pub enum MenuItem {
    Header { text: String },
    Separator,
    Entry { text: String, action: MenuAction },
}

/// What a `MenuItem` stands for.
pub enum MenuItemView {
    Header { text: Seq<char> },
    Separator,
    Entry { text: Seq<char>, action: MenuActionView },
}

impl View for MenuItem {
    type V = MenuItemView;

    open spec fn view(&self) -> MenuItemView {
        match self {
            MenuItem::Header { text } => MenuItemView::Header { text: text@ },
            MenuItem::Separator => MenuItemView::Separator,
            MenuItem::Entry { text, action } => MenuItemView::Entry {
                text: text@,
                action: action@,
            },
        }
    }
}

/// The context menu that is open for a branch.
#[derive(Debug)]
pub struct BranchContextMenu {
    pub items: Vec<MenuItem>,
    pub branch_name: String,
}

/// What a `BranchContextMenu` stands for.
pub struct BranchContextMenuView {
    pub items: Seq<MenuItemView>,
    pub branch_name: Seq<char>,
}

impl View for BranchContextMenu {
    type V = BranchContextMenuView;

    open spec fn view(&self) -> BranchContextMenuView {
        BranchContextMenuView { items: views(self.items@), branch_name: self.branch_name@ }
    }
}

/// A group of the menu: a line between it and the group above, its heading, and
/// its entries.
pub open spec fn menu_group(heading: Seq<char>, entries: Seq<MenuItemView>) -> Seq<MenuItemView> {
    seq![MenuItemView::Separator, MenuItemView::Header { text: heading }] + entries
}

/// The entries under the name of the branch. Only a local branch that is not
/// checked out can be checked out.
pub open spec fn checkout_entries(branch: BranchView) -> Seq<MenuItemView> {
    if !branch.is_remote && !branch.is_head {
        seq![
            MenuItemView::Entry {
                text: "Checkout"@,
                action: MenuActionView::Checkout { name: branch.name },
            },
        ]
    } else {
        seq![]
    }
}

/// The entries for the exchange with a remote. Only a local branch can be
/// pushed.
pub open spec fn remote_entries(branch: BranchView) -> Seq<MenuItemView> {
    if !branch.is_remote {
        seq![
            MenuItemView::Entry {
                text: if branch.upstream is Some {
                    "Push"@
                } else {
                    "Push (set upstream)"@
                },
                action: MenuActionView::Push,
            },
        ]
    } else {
        seq![]
    }
}

/// The entries that bring the branch together with the one that is checked out,
/// for any other branch than that one.
pub open spec fn integrate_entries(branch: BranchView, repo: Option<RepositoryId>) -> Seq<
    MenuItemView,
> {
    if !branch.is_head {
        seq![
            MenuItemView::Entry {
                text: "Merge into current branch"@,
                action: MenuActionView::Merge { repo, name: branch.name },
            },
            MenuItemView::Entry {
                text: "Rebase current branch onto this"@,
                action: MenuActionView::Rebase { repo, name: branch.name },
            },
        ]
    } else {
        seq![]
    }
}

/// The entry that deletes the branch.
pub open spec fn manage_entries(branch: BranchView, repo: Option<RepositoryId>) -> Seq<
    MenuItemView,
> {
    seq![
        MenuItemView::Entry {
            text: "Delete Branch"@,
            action: MenuActionView::Delete {
                repo,
                is_remote: branch.is_remote,
                name: branch.name,
            },
        },
    ]
}

/// The lines of the menu of a branch, opened while a repository is active.
pub open spec fn menu_items(branch: BranchView, repo: Option<RepositoryId>) -> Seq<MenuItemView> {
    seq![MenuItemView::Header { text: branch.name }] + checkout_entries(branch) + menu_group(
        "Remote"@,
        remote_entries(branch),
    ) + menu_group("Integrate"@, integrate_entries(branch, repo)) + menu_group(
        "Manage"@,
        manage_entries(branch, repo),
    )
}

/// The menu of a branch, opened while a repository is active.
pub open spec fn menu_of(branch: BranchView, repo: Option<RepositoryId>) -> BranchContextMenuView {
    BranchContextMenuView { items: menu_items(branch, repo), branch_name: branch.name }
}

/// Builds the menu of a branch, opened while a repository is active.
pub fn build_branch_context_menu(branch: &Branch, repo: Option<RepositoryId>) -> (menu:
    BranchContextMenu)
    ensures
        menu@ == menu_of(branch@, repo),
{
    let is_remote = branch.is_remote;
    let is_head = branch.is_head;
    let has_upstream = branch.upstream.is_some();
    let mut items: Vec<MenuItem> = Vec::new();
    items.push(MenuItem::Header { text: branch.name.clone() });
    if !is_remote && !is_head {
        items.push(
            MenuItem::Entry {
                text: "Checkout".to_owned(),
                action: MenuAction::Checkout { name: branch.name.clone() },
            },
        );
    }
    items.push(MenuItem::Separator);
    items.push(MenuItem::Header { text: "Remote".to_owned() });
    if !is_remote {
        items.push(
            MenuItem::Entry {
                text: if has_upstream {
                    "Push".to_owned()
                } else {
                    "Push (set upstream)".to_owned()
                },
                action: MenuAction::Push,
            },
        );
    }
    items.push(MenuItem::Separator);
    items.push(MenuItem::Header { text: "Integrate".to_owned() });
    if !is_head {
        items.push(
            MenuItem::Entry {
                text: "Merge into current branch".to_owned(),
                action: MenuAction::Merge { repo, name: branch.name.clone() },
            },
        );
        items.push(
            MenuItem::Entry {
                text: "Rebase current branch onto this".to_owned(),
                action: MenuAction::Rebase { repo, name: branch.name.clone() },
            },
        );
    }
    items.push(MenuItem::Separator);
    items.push(MenuItem::Header { text: "Manage".to_owned() });
    items.push(
        MenuItem::Entry {
            text: "Delete Branch".to_owned(),
            action: MenuAction::Delete { repo, is_remote, name: branch.name.clone() },
        },
    );
    assert(views(items@) =~= menu_items(branch@, repo));
    BranchContextMenu { items, branch_name: branch.name.clone() }
}

} // verus!
