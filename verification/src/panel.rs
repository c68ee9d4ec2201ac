//! The branch panel: its state, what changes it, and what it shows.

use vstd::prelude::*;

use crate::branch::{branches_where, pick_branches, Branch, BranchView};
use crate::effect::{
    Click, Effect, EffectView, GitStoreEvent, LoadOutcome, LoadOutcomeView, Operation,
    OperationOutcome, OperationOutcomeView, RepositoryId,
};
use crate::menu::{
    build_branch_context_menu, menu_of, BranchContextMenu, BranchContextMenuView, MenuAction,
    MenuActionView,
};
use crate::row::{is_section_of, small_label, Section, SectionView};
use crate::text::{clone_text, decimal, decimal_text, join, view_option, views};
use crate::widget::{Color, IconName, IconSize, Label, LabelSize, LabelView};

verus! {

/// A panel that lists the branches of the active repository.
#[derive(Debug)]
pub struct BranchPanel {
    active_repo: Option<RepositoryId>,
    branches: Vec<Branch>,
    error: Option<String>,
    is_loading: bool,
    local_expanded: bool,
    remote_expanded: bool,
    context_menu: Option<BranchContextMenu>,
}

/// What a `BranchPanel` stands for.
pub struct PanelState {
    /// The repository whose branches are listed, if there is one.
    pub active_repo: Option<RepositoryId>,
    /// The branches as they were last found.
    pub branches: Seq<BranchView>,
    /// What last went wrong with finding them.
    pub error: Option<Seq<char>>,
    /// Whether the answer to a request for them is awaited.
    pub is_loading: bool,
    /// Whether the local branches are unfolded.
    pub local_expanded: bool,
    /// Whether the remote branches are unfolded.
    pub remote_expanded: bool,
    /// The context menu that is open.
    pub context_menu: Option<BranchContextMenuView>,
}

impl View for BranchPanel {
    type V = PanelState;

    closed spec fn view(&self) -> PanelState {
        PanelState {
            active_repo: self.active_repo,
            branches: views(self.branches@),
            error: view_option(self.error),
            is_loading: self.is_loading,
            local_expanded: self.local_expanded,
            remote_expanded: self.remote_expanded,
            context_menu: view_option(self.context_menu),
        }
    }
}

/// The state of a panel that has not asked for anything yet.
pub open spec fn initial_state(active_repo: Option<RepositoryId>) -> PanelState {
    PanelState {
        active_repo,
        branches: seq![],
        error: None,
        is_loading: false,
        local_expanded: true,
        remote_expanded: true,
        context_menu: None,
    }
}

/// A refresh: the active repository is asked for its branches. Where there is
/// none, the list is emptied.
pub open spec fn refreshed(state: PanelState) -> (PanelState, Seq<EffectView>) {
    match state.active_repo {
        Some(repo) => (
            PanelState { is_loading: true, ..state },
            seq![EffectView::Notify, EffectView::LoadBranches { repo }],
        ),
        None => (
            PanelState { branches: seq![], error: None, ..state },
            seq![EffectView::Notify],
        ),
    }
}

/// The making of a panel while a repository is active: it observes the store of
/// repositories and is refreshed.
pub open spec fn made(active_repo: Option<RepositoryId>) -> (PanelState, Seq<EffectView>) {
    let (state, effects) = refreshed(initial_state(active_repo));
    (state, seq![EffectView::ObserveStore] + effects)
}

/// The answer to a request for branches. Only a scan replaces the list; an error
/// leaves it as it was.
pub open spec fn loaded(state: PanelState, outcome: LoadOutcomeView) -> (
    PanelState,
    Seq<EffectView>,
) {
    let state = PanelState { is_loading: false, ..state };
    let state = match outcome {
        LoadOutcomeView::Scanned { branches, error } => PanelState { branches, error, ..state },
        LoadOutcomeView::Failed { message } => PanelState { error: Some(message), ..state },
        LoadOutcomeView::Canceled => PanelState {
            error: Some("Failed to load branches"@),
            ..state
        },
    };
    (state, seq![EffectView::Notify])
}

/// A report of the store of repositories, where a repository is now active.
/// A change of the active repository brings about a refresh.
pub open spec fn store_reported(
    state: PanelState,
    event: GitStoreEvent,
    active_repo: Option<RepositoryId>,
) -> (PanelState, Seq<EffectView>) {
    match event {
        GitStoreEvent::ActiveRepositoryChanged => refreshed(PanelState { active_repo, ..state }),
        GitStoreEvent::Other => (state, seq![]),
    }
}

/// The opening of the context menu of a branch, in place of the one that was
/// open.
pub open spec fn menu_opened(state: PanelState, branch: BranchView) -> (
    PanelState,
    Seq<EffectView>,
) {
    (
        PanelState { context_menu: Some(menu_of(branch, state.active_repo)), ..state },
        seq![EffectView::FocusMenu, EffectView::ObserveMenu, EffectView::Notify],
    )
}

/// The dismissal of a context menu.
pub open spec fn menu_dismissed(state: PanelState) -> (PanelState, Seq<EffectView>) {
    (PanelState { context_menu: None, ..state }, seq![EffectView::Notify])
}

/// What the choice of an entry of a context menu asks for. Without a repository
/// it asks for nothing.
pub open spec fn chosen(state: PanelState, action: MenuActionView) -> Seq<EffectView> {
    match action {
        MenuActionView::Checkout { name } => match state.active_repo {
            Some(repo) => seq![EffectView::ChangeBranch { repo, name }],
            None => seq![],
        },
        MenuActionView::Push => seq![],
        MenuActionView::Merge { repo, name } => match repo {
            Some(repo) => seq![EffectView::Merge { repo, name }],
            None => seq![],
        },
        MenuActionView::Rebase { repo, name } => match repo {
            Some(repo) => seq![EffectView::RebaseOnto { repo, name }],
            None => seq![],
        },
        MenuActionView::Delete { repo, is_remote, name } => match repo {
            Some(repo) => seq![EffectView::DeleteBranch { repo, is_remote, name, force: false }],
            None => seq![],
        },
    }
}

/// The end of an operation on a repository. A checkout and a deletion are
/// followed by a refresh whatever came of them; a merge and a rebase only where
/// they succeeded, and an error of theirs is logged.
pub open spec fn finished(
    state: PanelState,
    operation: Operation,
    outcome: OperationOutcomeView,
) -> (PanelState, Seq<EffectView>) {
    match operation {
        Operation::Checkout | Operation::Delete => refreshed(state),
        Operation::Merge => integrated(state, "merge failed: "@, outcome),
        Operation::Rebase => integrated(state, "rebase failed: "@, outcome),
    }
}

/// The end of a merge or a rebase, whose errors are logged behind a prefix.
pub open spec fn integrated(
    state: PanelState,
    prefix: Seq<char>,
    outcome: OperationOutcomeView,
) -> (PanelState, Seq<EffectView>) {
    match outcome {
        OperationOutcomeView::Done => refreshed(state),
        OperationOutcomeView::Failed { message } => (
            state,
            seq![EffectView::LogError { message: prefix + message }],
        ),
        OperationOutcomeView::Canceled => (state, seq![]),
    }
}

/// A click on the heading of the local branches.
pub open spec fn local_toggled(state: PanelState) -> (PanelState, Seq<EffectView>) {
    (
        PanelState { local_expanded: !state.local_expanded, ..state },
        seq![EffectView::Notify],
    )
}

/// A click on the heading of the remote branches.
pub open spec fn remote_toggled(state: PanelState) -> (PanelState, Seq<EffectView>) {
    (
        PanelState { remote_expanded: !state.remote_expanded, ..state },
        seq![EffectView::Notify],
    )
}

/// A click on a part of the panel.
pub open spec fn clicked(state: PanelState, click: Click) -> (PanelState, Seq<EffectView>) {
    match click {
        Click::Refresh => refreshed(state),
        Click::ToggleLocal => local_toggled(state),
        Click::ToggleRemote => remote_toggled(state),
    }
}

/// A button without a text.
#[derive(Debug)]
pub struct IconButton {
    pub id: String,
    pub icon: IconName,
    pub icon_size: IconSize,
    pub tooltip: String,
    pub on_click: Click,
}

/// What an `IconButton` stands for.
pub struct IconButtonView {
    pub id: Seq<char>,
    pub icon: IconName,
    pub icon_size: IconSize,
    pub tooltip: Seq<char>,
    pub on_click: Click,
}

impl View for IconButton {
    type V = IconButtonView;

    open spec fn view(&self) -> IconButtonView {
        IconButtonView {
            id: self.id@,
            icon: self.icon,
            icon_size: self.icon_size,
            tooltip: self.tooltip@,
            on_click: self.on_click,
        }
    }
}

/// The two lists of branches.
#[derive(Debug)]
pub struct Sections {
    pub local: Section,
    pub remote: Section,
}

/// What `Sections` stand for.
pub struct SectionsView {
    pub local: SectionView,
    pub remote: SectionView,
}

impl View for Sections {
    type V = SectionsView;

    open spec fn view(&self) -> SectionsView {
        SectionsView { local: self.local@, remote: self.remote@ }
    }
}

/// What the panel shows, from top to bottom, and the menu that floats above it.
#[derive(Debug)]
pub struct PanelLayout<'a> {
    pub title: Label,
    pub refresh: IconButton,
    pub loading: Option<Label>,
    pub error: Option<Label>,
    pub sections: Option<Sections>,
    pub context_menu: Option<&'a BranchContextMenu>,
}

/// What a `PanelLayout` stands for.
pub struct PanelLayoutView {
    pub title: LabelView,
    pub refresh: IconButtonView,
    pub loading: Option<LabelView>,
    pub error: Option<LabelView>,
    pub sections: Option<SectionsView>,
    pub context_menu: Option<BranchContextMenuView>,
}

impl<'a> View for PanelLayout<'a> {
    type V = PanelLayoutView;

    open spec fn view(&self) -> PanelLayoutView {
        PanelLayoutView {
            title: self.title@,
            refresh: self.refresh@,
            loading: view_option(self.loading),
            error: view_option(self.error),
            sections: view_option(self.sections),
            context_menu: view_option(self.context_menu),
        }
    }
}

/// The button that refreshes the panel.
pub open spec fn refresh_button() -> IconButtonView {
    IconButtonView {
        id: "refresh-branches"@,
        icon: IconName::ArrowCircle,
        icon_size: IconSize::Small,
        tooltip: "Refresh branches"@,
        on_click: Click::Refresh,
    }
}

/// The heading of a section: what it holds, and how much of it.
pub open spec fn section_heading(name: Seq<char>, count: nat) -> Seq<char> {
    name + " ("@ + decimal(count) + ")"@
}

/// Whether two sections are those of a state: the local branches and the remote
/// ones, each under a heading that counts them and that folds and unfolds them.
pub open spec fn are_sections_of(sections: SectionsView, state: PanelState) -> bool {
    let local = branches_where(state.branches, false);
    let remote = branches_where(state.branches, true);
    &&& is_section_of(
        sections.local,
        section_heading("Local"@, local.len()),
        state.local_expanded,
        local,
        Click::ToggleLocal,
    )
    &&& is_section_of(
        sections.remote,
        section_heading("Remote"@, remote.len()),
        state.remote_expanded,
        remote,
        Click::ToggleRemote,
    )
}

/// Whether a layout is that of a state. The branches are hidden while they are
/// being loaded; an error and an open menu are shown in any case.
pub open spec fn is_layout_of(layout: PanelLayoutView, state: PanelState) -> bool {
    &&& layout.title == small_label("Branches"@, Color::Default)
    &&& layout.refresh == refresh_button()
    &&& layout.loading == if state.is_loading {
        Some(small_label("Loading…"@, Color::Muted))
    } else {
        None
    }
    &&& layout.error == match state.error {
        Some(error) => Some(small_label(error, Color::Error)),
        None => None,
    }
    &&& layout.sections is Some <==> !state.is_loading
    &&& layout.sections matches Some(sections) ==> are_sections_of(sections, state)
    &&& layout.context_menu == state.context_menu
}

fn heading_text(name: &str, count: usize) -> (text: String)
    ensures
        text@ == section_heading(name@, count as nat),
{
    let mut text = join(name, " (");
    text.append(decimal_text(count as u64).as_str());
    text.append(")");
    text
}

fn one_effect(effect: Effect) -> (effects: Vec<Effect>)
    ensures
        effects@ == seq![effect],
        views(effects@) == seq![effect@],
{
    let mut effects: Vec<Effect> = Vec::new();
    effects.push(effect);
    assert(views(effects@) =~= seq![effect@]);
    effects
}

fn no_effects() -> (effects: Vec<Effect>)
    ensures
        views(effects@) == Seq::<EffectView>::empty(),
{
    let effects: Vec<Effect> = Vec::new();
    assert(views(effects@) =~= seq![]);
    effects
}

impl BranchPanel {
    /// Makes a panel while a repository is active, and refreshes it.
    pub fn new(active_repo: Option<RepositoryId>) -> (result: (BranchPanel, Vec<Effect>))
        ensures
            (result.0@, views(result.1@)) == made(active_repo),
    {
        let mut panel = BranchPanel {
            active_repo,
            branches: Vec::new(),
            error: None,
            is_loading: false,
            local_expanded: true,
            remote_expanded: true,
            context_menu: None,
        };
        assert(panel@.branches =~= seq![]);
        let mut effects = one_effect(Effect::ObserveStore);
        let mut refresh = panel.refresh_branches();
        let ghost refresh_views = views(refresh@);
        effects.append(&mut refresh);
        assert(views(effects@) =~= seq![EffectView::ObserveStore] + refresh_views);
        (panel, effects)
    }

    /// Takes note of a report of the store of repositories, in which a
    /// repository is now active.
    pub fn handle_git_store_event(
        &mut self,
        event: GitStoreEvent,
        active_repo: Option<RepositoryId>,
    ) -> (effects: Vec<Effect>)
        ensures
            (final(self)@, views(effects@)) == store_reported(old(self)@, event, active_repo),
    {
        match event {
            GitStoreEvent::ActiveRepositoryChanged => {
                self.active_repo = active_repo;
                self.refresh_branches()
            },
            GitStoreEvent::Other => no_effects(),
        }
    }

    /// Asks the active repository for its branches, or empties the list where
    /// there is none.
    pub fn refresh_branches(&mut self) -> (effects: Vec<Effect>)
        ensures
            (final(self)@, views(effects@)) == refreshed(old(self)@),
    {
        match self.active_repo {
            Some(repo) => {
                self.is_loading = true;
                let mut effects = one_effect(Effect::Notify);
                effects.push(Effect::LoadBranches { repo });
                assert(views(effects@) =~= refreshed(old(self)@).1);
                effects
            },
            None => {
                self.branches.clear();
                self.error = None;
                assert(self@.branches =~= seq![]);
                one_effect(Effect::Notify)
            },
        }
    }

    /// Takes note of the answer to a request for branches.
    pub fn branches_loaded(&mut self, outcome: LoadOutcome) -> (effects: Vec<Effect>)
        ensures
            (final(self)@, views(effects@)) == loaded(old(self)@, outcome@),
    {
        self.is_loading = false;
        match outcome {
            LoadOutcome::Scanned { branches, error } => {
                self.branches = branches;
                self.error = error;
            },
            LoadOutcome::Failed { message } => {
                self.error = Some(message);
            },
            LoadOutcome::Canceled => {
                self.error = Some("Failed to load branches".to_owned());
            },
        }
        one_effect(Effect::Notify)
    }

    /// Opens the context menu of a branch.
    pub fn deploy_branch_context_menu(&mut self, branch: &Branch) -> (effects: Vec<Effect>)
        ensures
            (final(self)@, views(effects@)) == menu_opened(old(self)@, branch@),
    {
        self.context_menu = Some(build_branch_context_menu(branch, self.active_repo));
        let mut effects = one_effect(Effect::FocusMenu);
        effects.push(Effect::ObserveMenu);
        effects.push(Effect::Notify);
        assert(views(effects@) =~= menu_opened(old(self)@, branch@).1);
        effects
    }

    /// Closes the context menu.
    pub fn dismiss_context_menu(&mut self) -> (effects: Vec<Effect>)
        ensures
            (final(self)@, views(effects@)) == menu_dismissed(old(self)@),
    {
        self.context_menu = None;
        one_effect(Effect::Notify)
    }

    /// The context menu that is open.
    pub fn context_menu(&self) -> (menu: Option<&BranchContextMenu>)
        ensures
            view_option(menu) == self@.context_menu,
    {
        self.context_menu.as_ref()
    }

    /// Tells what the choice of an entry of a context menu asks for.
    pub fn choose_menu_entry(&self, action: &MenuAction) -> (effects: Vec<Effect>)
        ensures
            views(effects@) == chosen(self@, action@),
    {
        match action {
            MenuAction::Checkout { name } => match self.active_repo {
                Some(repo) => one_effect(Effect::ChangeBranch { repo, name: name.clone() }),
                None => no_effects(),
            },
            MenuAction::Push => no_effects(),
            MenuAction::Merge { repo, name } => match *repo {
                Some(repo) => one_effect(Effect::Merge { repo, name: name.clone() }),
                None => no_effects(),
            },
            MenuAction::Rebase { repo, name } => match *repo {
                Some(repo) => one_effect(Effect::RebaseOnto { repo, name: name.clone() }),
                None => no_effects(),
            },
            MenuAction::Delete { repo, is_remote, name } => match *repo {
                Some(repo) => one_effect(
                    Effect::DeleteBranch {
                        repo,
                        is_remote: *is_remote,
                        name: name.clone(),
                        force: false,
                    },
                ),
                None => no_effects(),
            },
        }
    }

    /// Takes note of the end of an operation on a repository.
    pub fn operation_finished(&mut self, operation: Operation, outcome: OperationOutcome) -> (effects:
        Vec<Effect>)
        ensures
            (final(self)@, views(effects@)) == finished(old(self)@, operation, outcome@),
    {
        match operation {
            Operation::Checkout | Operation::Delete => self.refresh_branches(),
            Operation::Merge => self.integration_finished("merge failed: ", outcome),
            Operation::Rebase => self.integration_finished("rebase failed: ", outcome),
        }
    }

    fn integration_finished(&mut self, prefix: &str, outcome: OperationOutcome) -> (effects: Vec<
        Effect,
    >)
        ensures
            (final(self)@, views(effects@)) == integrated(old(self)@, prefix@, outcome@),
    {
        match outcome {
            OperationOutcome::Done => self.refresh_branches(),
            OperationOutcome::Failed { message } => one_effect(
                Effect::LogError { message: join(prefix, message.as_str()) },
            ),
            OperationOutcome::Canceled => no_effects(),
        }
    }

    /// Folds or unfolds the local branches.
    pub fn toggle_local(&mut self) -> (effects: Vec<Effect>)
        ensures
            (final(self)@, views(effects@)) == local_toggled(old(self)@),
    {
        self.local_expanded = !self.local_expanded;
        one_effect(Effect::Notify)
    }

    /// Folds or unfolds the remote branches.
    pub fn toggle_remote(&mut self) -> (effects: Vec<Effect>)
        ensures
            (final(self)@, views(effects@)) == remote_toggled(old(self)@),
    {
        self.remote_expanded = !self.remote_expanded;
        one_effect(Effect::Notify)
    }

    /// Does what a click on a part of the panel does.
    pub fn click(&mut self, click: Click) -> (effects: Vec<Effect>)
        ensures
            (final(self)@, views(effects@)) == clicked(old(self)@, click),
    {
        match click {
            Click::Refresh => self.refresh_branches(),
            Click::ToggleLocal => self.toggle_local(),
            Click::ToggleRemote => self.toggle_remote(),
        }
    }

    /// Lays out the panel.
    pub fn render(&self) -> (layout: PanelLayout<'_>)
        ensures
            is_layout_of(layout@, self@),
    {
        let local_branches = pick_branches(&self.branches, false);
        let remote_branches = pick_branches(&self.branches, true);
        PanelLayout {
            title: Label {
                text: "Branches".to_owned(),
                size: LabelSize::Small,
                color: Color::Default,
            },
            refresh: IconButton {
                id: "refresh-branches".to_owned(),
                icon: IconName::ArrowCircle,
                icon_size: IconSize::Small,
                tooltip: "Refresh branches".to_owned(),
                on_click: Click::Refresh,
            },
            loading: if self.is_loading {
                Some(
                    Label {
                        text: "Loading…".to_owned(),
                        size: LabelSize::Small,
                        color: Color::Muted,
                    },
                )
            } else {
                None
            },
            error: match clone_text(&self.error) {
                Some(text) => Some(Label { text, size: LabelSize::Small, color: Color::Error }),
                None => None,
            },
            sections: if !self.is_loading {
                Some(
                    Sections {
                        local: self.render_section(
                            heading_text("Local", local_branches.len()).as_str(),
                            self.local_expanded,
                            &local_branches,
                            Click::ToggleLocal,
                        ),
                        remote: self.render_section(
                            heading_text("Remote", remote_branches.len()).as_str(),
                            self.remote_expanded,
                            &remote_branches,
                            Click::ToggleRemote,
                        ),
                    },
                )
            } else {
                None
            },
            context_menu: self.context_menu(),
        }
    }
}

} // verus!
