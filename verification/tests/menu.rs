use branch_panel::branch::{Branch, Upstream, UpstreamTracking};
use branch_panel::effect::{Effect, GitStoreEvent, RepositoryId};
use branch_panel::menu::{build_branch_context_menu, MenuAction, MenuItem};
use branch_panel::panel::BranchPanel;

const REPO: RepositoryId = RepositoryId { id: 1 };
const OTHER: RepositoryId = RepositoryId { id: 2 };

fn branch(name: &str, is_remote: bool, is_head: bool) -> Branch {
    Branch {
        name: name.to_string(),
        is_remote,
        is_head,
        upstream: None,
        most_recent_commit: None,
    }
}

fn lines(items: &[MenuItem]) -> Vec<String> {
    items
        .iter()
        .map(|item| match item {
            MenuItem::Header { text } => format!("# {text}"),
            MenuItem::Separator => "--".to_string(),
            MenuItem::Entry { text, .. } => text.clone(),
        })
        .collect()
}

fn action(items: &[MenuItem], wanted: &str) -> MenuAction {
    items
        .iter()
        .find_map(|item| match item {
            MenuItem::Entry { text, action } if text == wanted => Some(action.clone()),
            _ => None,
        })
        .unwrap()
}

#[test]
fn menu_of_a_local_branch() {
    let menu = build_branch_context_menu(&branch("topic", false, false), Some(REPO));
    assert_eq!(menu.branch_name, "topic");
    assert_eq!(
        lines(&menu.items),
        vec![
            "# topic",
            "Checkout",
            "--",
            "# Remote",
            "Push (set upstream)",
            "--",
            "# Integrate",
            "Merge into current branch",
            "Rebase current branch onto this",
            "--",
            "# Manage",
            "Delete Branch",
        ]
    );
}

#[test]
fn menu_of_the_branch_that_is_checked_out() {
    let mut head = branch("main", false, true);
    head.upstream = Some(Upstream { tracking: UpstreamTracking::Gone });
    let menu = build_branch_context_menu(&head, Some(REPO));
    assert_eq!(
        lines(&menu.items),
        vec![
            "# main",
            "--",
            "# Remote",
            "Push",
            "--",
            "# Integrate",
            "--",
            "# Manage",
            "Delete Branch",
        ]
    );
}

#[test]
fn menu_of_a_remote_branch() {
    let menu = build_branch_context_menu(&branch("origin/main", true, false), Some(REPO));
    assert_eq!(
        lines(&menu.items),
        vec![
            "# origin/main",
            "--",
            "# Remote",
            "--",
            "# Integrate",
            "Merge into current branch",
            "Rebase current branch onto this",
            "--",
            "# Manage",
            "Delete Branch",
        ]
    );
}

#[test]
fn entries_keep_the_repository_except_checkout() {
    let (mut panel, _) = BranchPanel::new(Some(REPO));
    panel.deploy_branch_context_menu(&branch("topic", false, false));
    panel.handle_git_store_event(GitStoreEvent::ActiveRepositoryChanged, Some(OTHER));
    let items = &panel.context_menu().unwrap().items;

    let effects = panel.choose_menu_entry(&action(items, "Checkout"));
    assert!(matches!(
        effects.as_slice(),
        [Effect::ChangeBranch { repo: OTHER, name }] if name == "topic"
    ));
    let effects = panel.choose_menu_entry(&action(items, "Merge into current branch"));
    assert!(matches!(
        effects.as_slice(),
        [Effect::Merge { repo: REPO, name }] if name == "topic"
    ));
    let effects = panel.choose_menu_entry(&action(items, "Rebase current branch onto this"));
    assert!(matches!(
        effects.as_slice(),
        [Effect::RebaseOnto { repo: REPO, name }] if name == "topic"
    ));
    let effects = panel.choose_menu_entry(&action(items, "Delete Branch"));
    assert!(matches!(
        effects.as_slice(),
        [Effect::DeleteBranch { repo: REPO, is_remote: false, name, force: false }]
            if name == "topic"
    ));
    assert!(panel.choose_menu_entry(&action(items, "Push (set upstream)")).is_empty());
}

#[test]
fn deletion_tells_whether_the_branch_is_remote() {
    let (mut panel, _) = BranchPanel::new(Some(REPO));
    panel.deploy_branch_context_menu(&branch("origin/main", true, false));
    let items = &panel.context_menu().unwrap().items;
    let effects = panel.choose_menu_entry(&action(items, "Delete Branch"));
    assert!(matches!(
        effects.as_slice(),
        [Effect::DeleteBranch { repo: REPO, is_remote: true, name, force: false }]
            if name == "origin/main"
    ));
}

#[test]
fn without_a_repository_nothing_is_asked_for() {
    let (mut panel, _) = BranchPanel::new(None);
    panel.deploy_branch_context_menu(&branch("topic", false, false));
    let items = &panel.context_menu().unwrap().items;
    for text in [
        "Checkout",
        "Merge into current branch",
        "Rebase current branch onto this",
        "Delete Branch",
    ] {
        assert!(panel.choose_menu_entry(&action(items, text)).is_empty());
    }
}

#[test]
fn opening_and_dismissal() {
    let (mut panel, _) = BranchPanel::new(Some(REPO));
    assert!(panel.context_menu().is_none());
    let effects = panel.deploy_branch_context_menu(&branch("one", false, false));
    assert!(matches!(
        effects.as_slice(),
        [Effect::FocusMenu, Effect::ObserveMenu, Effect::Notify]
    ));
    panel.deploy_branch_context_menu(&branch("two", false, false));
    assert_eq!(panel.context_menu().unwrap().branch_name, "two");
    assert_eq!(panel.render().context_menu.unwrap().branch_name, "two");
    assert!(matches!(panel.dismiss_context_menu().as_slice(), [Effect::Notify]));
    assert!(panel.context_menu().is_none());
    assert!(panel.render().context_menu.is_none());
}
