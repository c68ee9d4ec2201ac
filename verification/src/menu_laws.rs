//! What holds of the context menu of a branch.

use vstd::prelude::*;

use crate::branch::BranchView;
use crate::effect::RepositoryId;
use crate::menu::{menu_items, menu_of, MenuActionView, MenuItemView};

verus! {

/// The lines of a menu, one by one. Each group has its heading below a line, and
/// an entry that a branch does not get leaves no gap.
pub proof fn law_menu_lines(branch: BranchView, repo: Option<RepositoryId>)
    ensures
        ({
            let items = menu_items(branch, repo);
            let name = branch.name;
            let remote: int = if !branch.is_remote && !branch.is_head {
                2
            } else {
                1
            };
            let integrate: int = if !branch.is_remote {
                remote + 3
            } else {
                remote + 2
            };
            let manage: int = if !branch.is_head {
                integrate + 4
            } else {
                integrate + 2
            };
            &&& items.len() == manage + 3
            &&& items[0] == (MenuItemView::Header { text: name })
            &&& remote == 2 ==> items[1] == (MenuItemView::Entry {
                text: "Checkout"@,
                action: MenuActionView::Checkout { name },
            })
            &&& items[remote] is Separator
            &&& items[remote + 1] == (MenuItemView::Header { text: "Remote"@ })
            &&& !branch.is_remote && branch.upstream is Some ==> items[remote + 2] == (
            MenuItemView::Entry { text: "Push"@, action: MenuActionView::Push })
            &&& !branch.is_remote && branch.upstream is None ==> items[remote + 2] == (
            MenuItemView::Entry { text: "Push (set upstream)"@, action: MenuActionView::Push })
            &&& items[integrate] is Separator
            &&& items[integrate + 1] == (MenuItemView::Header { text: "Integrate"@ })
            &&& !branch.is_head ==> items[integrate + 2] == (MenuItemView::Entry {
                text: "Merge into current branch"@,
                action: MenuActionView::Merge { repo, name },
            })
            &&& !branch.is_head ==> items[integrate + 3] == (MenuItemView::Entry {
                text: "Rebase current branch onto this"@,
                action: MenuActionView::Rebase { repo, name },
            })
            &&& items[manage] is Separator
            &&& items[manage + 1] == (MenuItemView::Header { text: "Manage"@ })
            &&& items[manage + 2] == (MenuItemView::Entry {
                text: "Delete Branch"@,
                action: MenuActionView::Delete { repo, is_remote: branch.is_remote, name },
            })
        }),
{
}

/// An entry does what its text says, and its text says what it does.
pub proof fn law_entries_do_what_they_say(
    branch: BranchView,
    repo: Option<RepositoryId>,
    i: int,
)
    requires
        0 <= i < menu_items(branch, repo).len(),
    ensures
        menu_items(branch, repo)[i] matches MenuItemView::Entry { text, action } ==> {
            &&& text == "Checkout"@ <==> action is Checkout
            &&& text == "Merge into current branch"@ <==> action is Merge
            &&& text == "Rebase current branch onto this"@ <==> action is Rebase
            &&& text == "Delete Branch"@ <==> action is Delete
            &&& text == "Push"@ <==> action is Push && branch.upstream is Some
            &&& text == "Push (set upstream)"@ <==> action is Push && branch.upstream is None
        },
{
    reveal_strlit("Checkout");
    reveal_strlit("Merge into current branch");
    reveal_strlit("Rebase current branch onto this");
    reveal_strlit("Delete Branch");
    reveal_strlit("Push");
    reveal_strlit("Push (set upstream)");
    assert("Checkout"@.len() == 8);
    assert("Merge into current branch"@.len() == 25);
    assert("Rebase current branch onto this"@.len() == 31);
    assert("Delete Branch"@.len() == 13);
    assert("Push"@.len() == 4);
    assert("Push (set upstream)"@.len() == 19);
    let items = menu_items(branch, repo);
    if let MenuItemView::Entry { text, action } = items[i] {
        match action {
            MenuActionView::Checkout { .. } => {
                assert(text == "Checkout"@);
            },
            MenuActionView::Push => {
                assert(text == if branch.upstream is Some {
                    "Push"@
                } else {
                    "Push (set upstream)"@
                });
            },
            MenuActionView::Merge { .. } => {
                assert(text == "Merge into current branch"@);
            },
            MenuActionView::Rebase { .. } => {
                assert(text == "Rebase current branch onto this"@);
            },
            MenuActionView::Delete { .. } => {
                assert(text == "Delete Branch"@);
            },
        }
    }
}

/// A menu bears the name of its branch and holds its lines.
pub proof fn law_menu_is_that_of_its_branch(branch: BranchView, repo: Option<RepositoryId>)
    ensures
        menu_of(branch, repo).branch_name == branch.name,
        menu_of(branch, repo).items == menu_items(branch, repo),
        menu_of(branch, repo).items[0] == (MenuItemView::Header { text: branch.name }),
{
}

} // verus!
