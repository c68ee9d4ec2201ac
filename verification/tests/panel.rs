use branch_panel::branch::{
    pick_branches, Branch, CommitSummary, Upstream, UpstreamTracking, UpstreamTrackingStatus,
};
use branch_panel::dock::{DockPosition, BRANCH_PANEL_KEY};
use branch_panel::effect::{
    Click, Effect, GitStoreEvent, LoadOutcome, Operation, OperationOutcome, RepositoryId,
};
use branch_panel::panel::BranchPanel;
use branch_panel::row::{branch_row, last_commit, tracking_label};
use branch_panel::widget::{Color, IconName, IconSize, LabelSize};

const REPO: RepositoryId = RepositoryId { id: 1 };
const OTHER: RepositoryId = RepositoryId { id: 2 };

fn branch(name: &str, is_remote: bool, is_head: bool) -> Branch {
    Branch {
        name: name.to_string(),
        is_remote,
        is_head,
        upstream: None,
        most_recent_commit: None,
    }
}

fn tracking(ahead: u32, behind: u32) -> Branch {
    let mut branch = branch("topic", false, false);
    branch.upstream = Some(Upstream {
        tracking: UpstreamTracking::Existing(UpstreamTrackingStatus { ahead, behind }),
    });
    branch
}

fn three_branches() -> Vec<Branch> {
    vec![
        branch("main", false, true),
        branch("origin/main", true, false),
        branch("topic", false, false),
    ]
}

fn scanned() -> BranchPanel {
    let (mut panel, _) = BranchPanel::new(Some(REPO));
    panel.branches_loaded(LoadOutcome::Scanned { branches: three_branches(), error: None });
    panel
}

fn asks_to_load(effects: &[Effect], wanted: RepositoryId) -> bool {
    matches!(effects, [Effect::Notify, Effect::LoadBranches { repo }] if *repo == wanted)
}

fn names(panel: &BranchPanel) -> (Vec<String>, Vec<String>) {
    let sections = panel.render().sections.unwrap();
    (
        sections.local.rows.iter().map(|row| row.name.text.clone()).collect(),
        sections.remote.rows.iter().map(|row| row.name.text.clone()).collect(),
    )
}

#[test]
fn a_new_panel_loads_the_active_repository() {
    let (panel, effects) = BranchPanel::new(Some(REPO));
    assert!(matches!(effects[0], Effect::ObserveStore));
    assert!(asks_to_load(&effects[1..], REPO));
    let layout = panel.render();
    assert_eq!(layout.loading.as_ref().unwrap().text, "Loading…");
    assert_eq!(layout.loading.unwrap().color, Color::Muted);
    assert!(layout.sections.is_none());
    assert!(layout.error.is_none());
    assert_eq!(layout.title.text, "Branches");
    assert_eq!(layout.title.color, Color::Default);
    assert_eq!(layout.refresh.id, "refresh-branches");
    assert_eq!(layout.refresh.tooltip, "Refresh branches");
    assert_eq!(layout.refresh.icon, IconName::ArrowCircle);
    assert_eq!(layout.refresh.icon_size, IconSize::Small);
}

#[test]
fn a_new_panel_without_a_repository_is_empty() {
    let (panel, effects) = BranchPanel::new(None);
    assert!(matches!(effects.as_slice(), [Effect::ObserveStore, Effect::Notify]));
    let layout = panel.render();
    assert!(layout.loading.is_none());
    let sections = layout.sections.unwrap();
    assert_eq!(sections.local.heading.text, "Local (0)");
    assert_eq!(sections.remote.heading.text, "Remote (0)");
    assert!(sections.local.rows.is_empty());
    assert!(sections.remote.rows.is_empty());
}

#[test]
fn a_scan_fills_the_sections() {
    let panel = scanned();
    let layout = panel.render();
    assert!(layout.loading.is_none());
    assert!(layout.error.is_none());
    let sections = layout.sections.unwrap();
    assert_eq!(sections.local.heading.text, "Local (2)");
    assert_eq!(sections.local.heading.color, Color::Muted);
    assert_eq!(sections.local.icon.name, IconName::ChevronDown);
    assert_eq!(sections.remote.heading.text, "Remote (1)");
    let (local, remote) = names(&panel);
    assert_eq!(local, vec!["main", "topic"]);
    assert_eq!(remote, vec!["origin/main"]);
}

#[test]
fn a_scan_can_report_an_error() {
    let (mut panel, _) = BranchPanel::new(Some(REPO));
    let effects = panel.branches_loaded(LoadOutcome::Scanned {
        branches: three_branches(),
        error: Some("one branch is broken".to_string()),
    });
    assert!(matches!(effects.as_slice(), [Effect::Notify]));
    let error = panel.render().error.unwrap();
    assert_eq!(error.text, "one branch is broken");
    assert_eq!(error.color, Color::Error);
    assert_eq!(names(&panel).0.len(), 2);
}

#[test]
fn an_error_keeps_the_list() {
    let mut panel = scanned();
    panel.refresh_branches();
    panel.branches_loaded(LoadOutcome::Failed { message: "no git".to_string() });
    assert_eq!(panel.render().error.unwrap().text, "no git");
    assert_eq!(names(&panel).0, vec!["main", "topic"]);

    panel.refresh_branches();
    assert_eq!(panel.render().error.unwrap().text, "no git");
    panel.branches_loaded(LoadOutcome::Canceled);
    assert_eq!(panel.render().error.unwrap().text, "Failed to load branches");
    assert_eq!(names(&panel).1, vec!["origin/main"]);

    panel.branches_loaded(LoadOutcome::Scanned { branches: Vec::new(), error: None });
    assert!(panel.render().error.is_none());
    assert!(names(&panel).0.is_empty());
}

#[test]
fn a_refresh_hides_the_list_until_the_answer() {
    let mut panel = scanned();
    assert!(asks_to_load(&panel.refresh_branches(), REPO));
    assert!(panel.render().sections.is_none());
    assert!(panel.render().loading.is_some());
}

#[test]
fn another_repository_is_loaded() {
    let mut panel = scanned();
    assert!(panel.handle_git_store_event(GitStoreEvent::Other, Some(OTHER)).is_empty());
    assert!(asks_to_load(&panel.refresh_branches(), REPO));
    let effects =
        panel.handle_git_store_event(GitStoreEvent::ActiveRepositoryChanged, Some(OTHER));
    assert!(asks_to_load(&effects, OTHER));
}

#[test]
fn a_lost_repository_empties_the_list() {
    let mut panel = scanned();
    panel.branches_loaded(LoadOutcome::Failed { message: "no git".to_string() });
    let effects = panel.handle_git_store_event(GitStoreEvent::ActiveRepositoryChanged, None);
    assert!(matches!(effects.as_slice(), [Effect::Notify]));
    assert!(panel.render().error.is_none());
    assert!(names(&panel).0.is_empty());
    assert!(names(&panel).1.is_empty());
}

#[test]
fn a_lost_repository_leaves_an_answer_outstanding() {
    let (mut panel, _) = BranchPanel::new(Some(REPO));
    panel.handle_git_store_event(GitStoreEvent::ActiveRepositoryChanged, None);
    assert!(panel.render().loading.is_some());
    panel.branches_loaded(LoadOutcome::Scanned { branches: three_branches(), error: None });
    assert!(panel.render().loading.is_none());
    assert_eq!(names(&panel).0, vec!["main", "topic"]);
}

#[test]
fn folding() {
    let mut panel = scanned();
    assert!(matches!(panel.toggle_local().as_slice(), [Effect::Notify]));
    let sections = panel.render().sections.unwrap();
    assert_eq!(sections.local.icon.name, IconName::ChevronRight);
    assert_eq!(sections.local.heading.text, "Local (2)");
    assert!(sections.local.rows.is_empty());
    assert_eq!(sections.remote.rows.len(), 1);
    assert!(matches!(panel.toggle_remote().as_slice(), [Effect::Notify]));
    assert!(panel.render().sections.unwrap().remote.rows.is_empty());
    panel.toggle_local();
    panel.toggle_remote();
    assert_eq!(names(&panel).0.len(), 2);
    assert_eq!(names(&panel).1.len(), 1);
}

#[test]
fn clicks_do_what_they_show() {
    let mut panel = scanned();
    let sections = panel.render().sections.unwrap();
    assert_eq!(sections.local.on_click, Click::ToggleLocal);
    assert_eq!(sections.remote.on_click, Click::ToggleRemote);
    assert!(matches!(panel.click(sections.local.on_click).as_slice(), [Effect::Notify]));
    assert!(names(&panel).0.is_empty());
    assert_eq!(names(&panel).1.len(), 1);
    assert!(matches!(panel.click(sections.remote.on_click).as_slice(), [Effect::Notify]));
    assert!(names(&panel).1.is_empty());
    let refresh = panel.render().refresh.on_click;
    assert_eq!(refresh, Click::Refresh);
    assert!(asks_to_load(&panel.click(refresh), REPO));
}

#[test]
fn checkout_and_deletion_refresh_in_any_case() {
    for operation in [Operation::Checkout, Operation::Delete] {
        for outcome in [
            OperationOutcome::Done,
            OperationOutcome::Failed { message: "locked".to_string() },
            OperationOutcome::Canceled,
        ] {
            let mut panel = scanned();
            assert!(asks_to_load(&panel.operation_finished(operation, outcome), REPO));
        }
    }
}

#[test]
fn merge_and_rebase_refresh_only_when_done() {
    let mut panel = scanned();
    for operation in [Operation::Merge, Operation::Rebase] {
        assert!(panel.operation_finished(operation, OperationOutcome::Canceled).is_empty());
    }
    let failed = || OperationOutcome::Failed { message: "conflict".to_string() };
    let effects = panel.operation_finished(Operation::Merge, failed());
    assert!(matches!(
        effects.as_slice(),
        [Effect::LogError { message }] if message == "merge failed: conflict"
    ));
    let effects = panel.operation_finished(Operation::Rebase, failed());
    assert!(matches!(
        effects.as_slice(),
        [Effect::LogError { message }] if message == "rebase failed: conflict"
    ));
    assert!(panel.render().sections.is_some());
    let effects = panel.operation_finished(Operation::Merge, OperationOutcome::Done);
    assert!(asks_to_load(&effects, REPO));
    let effects = panel.operation_finished(Operation::Rebase, OperationOutcome::Done);
    assert!(asks_to_load(&effects, REPO));
}

#[test]
fn icons_and_colors_of_rows() {
    let (panel, _) = BranchPanel::new(None);
    let head = panel.render_branch_row(&branch("main", false, true));
    assert_eq!(head.icon.name, IconName::Check);
    assert_eq!(head.icon.color, Color::Accent);
    assert_eq!(head.name.color, Color::Default);
    assert_eq!(head.name.size, LabelSize::Small);
    let remote = panel.render_branch_row(&branch("origin/main", true, false));
    assert_eq!(remote.icon.name, IconName::Screen);
    assert_eq!(remote.icon.color, Color::Muted);
    let local = panel.render_branch_row(&branch("topic", false, false));
    assert_eq!(local.icon.name, IconName::GitBranch);
    assert_eq!(local.name.color, Color::Muted);
    assert_eq!(local.branch.name, "topic");
    assert!(local.tracking.is_none());
    assert!(local.age.is_none());
}

#[test]
fn distance_to_the_upstream() {
    assert_eq!(tracking_label(&tracking(2, 10)).unwrap(), "↑2 ↓10");
    assert_eq!(tracking_label(&tracking(0, 1)).unwrap(), "↑0 ↓1");
    assert_eq!(tracking_label(&tracking(u32::MAX, 0)).unwrap(), "↑4294967295 ↓0");
    assert!(tracking_label(&tracking(0, 0)).is_none());
    assert!(tracking_label(&branch("topic", false, false)).is_none());
    let mut gone = branch("topic", false, false);
    gone.upstream = Some(Upstream { tracking: UpstreamTracking::Gone });
    assert_eq!(tracking_label(&gone).unwrap(), "gone");
}

#[test]
fn age_of_the_last_commit() {
    let (panel, _) = BranchPanel::new(None);
    let mut topic = branch("topic", false, false);
    let now = time::OffsetDateTime::now_utc().unix_timestamp();
    topic.most_recent_commit = Some(CommitSummary {
        subject: "Fix a bug".to_string(),
        commit_timestamp: now - 2 * 86_400 - 60,
    });
    let (subject, age) = last_commit(topic.most_recent_commit.as_ref().unwrap());
    assert_eq!(subject, "Fix a bug");
    assert_eq!(age, "2d ago");
    let label = panel.render_branch_row(&topic).age.unwrap();
    assert_eq!(label.text, "2d ago");
    assert_eq!(label.size, LabelSize::XSmall);
    assert_eq!(label.color, Color::Muted);

    topic.most_recent_commit.as_mut().unwrap().commit_timestamp = i64::MAX;
    assert_eq!(panel.render_branch_row(&topic).age.unwrap().text, "");
}

#[test]
fn rows_show_the_age_that_they_are_given() {
    let summary = ("Fix a bug".to_string(), "3h ago".to_string());
    let row = branch_row(&branch("topic", false, false), Some(summary));
    assert_eq!(row.age.unwrap().text, "3h ago");
    assert!(branch_row(&branch("topic", false, false), None).age.is_none());
}

#[test]
fn sections_divide_the_branches() {
    let branches = three_branches();
    let local = pick_branches(&branches, false);
    let remote = pick_branches(&branches, true);
    assert_eq!(local.len() + remote.len(), branches.len());
    assert!(local.iter().all(|branch| !branch.is_remote));
    assert!(remote.iter().all(|branch| branch.is_remote));
}

#[test]
fn place_in_the_dock() {
    let (mut panel, _) = BranchPanel::new(None);
    assert_eq!(panel.position(), DockPosition::Left);
    panel.set_position(DockPosition::Right);
    assert_eq!(panel.position(), DockPosition::Left);
    assert!(panel.position_is_valid(DockPosition::Left));
    assert!(panel.position_is_valid(DockPosition::Right));
    assert!(!panel.position_is_valid(DockPosition::Bottom));
    assert_eq!(panel.default_size(), 240);
    assert_eq!(panel.icon(), Some(IconName::GitBranch));
    assert_eq!(panel.icon_tooltip(), Some("Branch Panel"));
    assert_eq!(panel.activation_priority(), 2);
    assert_eq!(BranchPanel::persistent_name(), "BranchPanel");
    assert_eq!(BranchPanel::panel_key(), BRANCH_PANEL_KEY);
}
