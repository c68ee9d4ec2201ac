//! The rows of the panel, one for each branch, and the sections that hold them.

use vstd::prelude::*;

use crate::branch::{Branch, BranchView, CommitSummary, CommitSummaryView, Upstream, UpstreamTracking};
use crate::clock::{commit_age, commit_age_label, is_commit_age, is_instant};
use crate::effect::Click;
use crate::panel::BranchPanel;
use crate::text::{decimal, decimal_text, view_option, views};
use crate::widget::{Color, Icon, IconName, IconSize, Label, LabelSize, LabelView};

verus! {

/// The row of a branch.
#[derive(Debug)]
pub struct BranchRow {
    pub icon: Icon,
    pub name: Label,
    /// The distance to the upstream, where there is something to tell.
    pub tracking: Option<Label>,
    /// The age of the last commit, at the end of the row.
    pub age: Option<Label>,
    /// The branch whose context menu a right click on the row opens.
    pub branch: Branch,
}

/// What a `BranchRow` stands for.
pub struct BranchRowView {
    pub icon: Icon,
    pub name: LabelView,
    pub tracking: Option<LabelView>,
    pub age: Option<LabelView>,
    pub branch: BranchView,
}

impl View for BranchRow {
    type V = BranchRowView;

    open spec fn view(&self) -> BranchRowView {
        BranchRowView {
            icon: self.icon,
            name: self.name@,
            tracking: view_option(self.tracking),
            age: view_option(self.age),
            branch: self.branch@,
        }
    }
}

/// The icon of a branch: a check mark on the one that is checked out, else a
/// screen on a remote one and a branch on a local one.
pub open spec fn branch_icon(branch: BranchView) -> Icon {
    Icon {
        name: if branch.is_head {
            IconName::Check
        } else if branch.is_remote {
            IconName::Screen
        } else {
            IconName::GitBranch
        },
        size: IconSize::Small,
        color: if branch.is_head {
            Color::Accent
        } else {
            Color::Muted
        },
    }
}

/// What a row says of the upstream: how many commits the branch is ahead and
/// behind, unless it is neither, or that the upstream is gone.
pub open spec fn tracking_text(upstream: Option<Upstream>) -> Option<Seq<char>> {
    match upstream {
        None => None,
        Some(upstream) => match upstream.tracking {
            UpstreamTracking::Gone => Some("gone"@),
            UpstreamTracking::Existing(status) => if status.ahead == 0 && status.behind == 0 {
                None
            } else {
                Some(
                    "↑"@ + decimal(status.ahead as nat) + " ↓"@ + decimal(
                        status.behind as nat,
                    ),
                )
            },
        },
    }
}

/// A muted label in the smallest size.
pub open spec fn small_print(text: Seq<char>) -> LabelView {
    LabelView { text, size: LabelSize::XSmall, color: Color::Muted }
}

/// A small label.
pub open spec fn small_label(text: Seq<char>, color: Color) -> LabelView {
    LabelView { text, size: LabelSize::Small, color }
}

/// The row of a branch whose last commit, if it has one, is this old.
pub open spec fn row_of(branch: BranchView, age: Option<Seq<char>>) -> BranchRowView {
    BranchRowView {
        icon: branch_icon(branch),
        name: small_label(
            branch.name,
            if branch.is_head {
                Color::Default
            } else {
                Color::Muted
            },
        ),
        tracking: match tracking_text(branch.upstream) {
            Some(text) => Some(small_print(text)),
            None => None,
        },
        age: match age {
            Some(text) => Some(small_print(text)),
            None => None,
        },
        branch,
    }
}

/// The age that a row shows at an instant.
pub open spec fn age_text(commit: Option<CommitSummaryView>, now: int) -> Option<Seq<char>> {
    match commit {
        Some(commit) => Some(commit_age_label(commit.commit_timestamp, now)),
        None => None,
    }
}

/// The row of a branch at an instant.
pub open spec fn row_at(branch: BranchView, now: int) -> BranchRowView {
    row_of(branch, age_text(branch.most_recent_commit, now))
}

/// Whether a row is that of a branch, at whatever instant the clock showed.
pub open spec fn is_row_of(row: BranchRowView, branch: BranchView) -> bool {
    &&& exists|now: int| is_instant(now) && row == #[trigger] row_at(branch, now)
    &&& match branch.most_recent_commit {
        Some(commit) => row.age matches Some(label) && is_commit_age(
            label.text,
            commit.commit_timestamp,
        ),
        None => row.age is None,
    }
}

/// What a row says of the upstream.
pub fn tracking_label(branch: &Branch) -> (label: Option<String>)
    ensures
        view_option(label) == tracking_text(branch@.upstream),
{
    match &branch.upstream {
        None => None,
        Some(upstream) => match &upstream.tracking {
            UpstreamTracking::Existing(status) => {
                let ahead = status.ahead;
                let behind = status.behind;
                if ahead > 0 || behind > 0 {
                    let mut label = "↑".to_owned();
                    label.append(decimal_text(ahead as u64).as_str());
                    label.append(" ↓");
                    label.append(decimal_text(behind as u64).as_str());
                    Some(label)
                } else {
                    None
                }
            },
            UpstreamTracking::Gone => Some("gone".to_owned()),
        },
    }
}

/// The subject of a commit, and its age by the system clock.
pub fn last_commit(commit: &CommitSummary) -> (summary: (String, String))
    ensures
        summary.0@ == commit@.subject,
        is_commit_age(summary.1@, commit@.commit_timestamp),
{
    (commit.subject.clone(), commit_age(commit.commit_timestamp))
}

/// Lays out the row of a branch, given the subject and the age of its last
/// commit. The subject is not shown.
pub fn branch_row(branch: &Branch, last_commit: Option<(String, String)>) -> (row: BranchRow)
    ensures
        row@ == row_of(
            branch@,
            match last_commit {
                Some(summary) => Some(summary.1@),
                None => None,
            },
        ),
{
    let is_head = branch.is_head;
    let name = if is_head {
        IconName::Check
    } else if branch.is_remote {
        IconName::Screen
    } else {
        IconName::GitBranch
    };
    BranchRow {
        icon: Icon {
            name,
            size: IconSize::Small,
            color: if is_head {
                Color::Accent
            } else {
                Color::Muted
            },
        },
        name: Label {
            text: branch.name.clone(),
            size: LabelSize::Small,
            color: if is_head {
                Color::Default
            } else {
                Color::Muted
            },
        },
        tracking: match tracking_label(branch) {
            Some(text) => Some(Label { text, size: LabelSize::XSmall, color: Color::Muted }),
            None => None,
        },
        age: match last_commit {
            Some((_, text)) => Some(Label { text, size: LabelSize::XSmall, color: Color::Muted }),
            None => None,
        },
        branch: branch.clone(),
    }
}

/// A section of the panel: a heading that folds and unfolds it, and the rows of
/// its branches while it is unfolded.
#[derive(Debug)]
pub struct Section {
    pub icon: Icon,
    pub heading: Label,
    /// What a click on the heading does.
    pub on_click: Click,
    pub rows: Vec<BranchRow>,
}

/// What a `Section` stands for.
pub struct SectionView {
    pub icon: Icon,
    pub heading: LabelView,
    pub on_click: Click,
    pub rows: Seq<BranchRowView>,
}

impl View for Section {
    type V = SectionView;

    open spec fn view(&self) -> SectionView {
        SectionView {
            icon: self.icon,
            heading: self.heading@,
            on_click: self.on_click,
            rows: views(self.rows@),
        }
    }
}

/// The icon of the heading of a section.
pub open spec fn section_icon(expanded: bool) -> Icon {
    Icon {
        name: if expanded {
            IconName::ChevronDown
        } else {
            IconName::ChevronRight
        },
        size: IconSize::Small,
        color: Color::Muted,
    }
}

/// Whether a section has this heading, which does this when it is clicked, and
/// shows these branches in their order, or no row at all where it is folded.
pub open spec fn is_section_of(
    section: SectionView,
    heading: Seq<char>,
    expanded: bool,
    branches: Seq<BranchView>,
    on_click: Click,
) -> bool {
    &&& section.icon == section_icon(expanded)
    &&& section.heading == small_label(heading, Color::Muted)
    &&& section.on_click == on_click
    &&& section.rows.len() == if expanded {
        branches.len()
    } else {
        0
    }
    &&& forall|i: int|
        0 <= i < section.rows.len() ==> is_row_of(#[trigger] section.rows[i], branches[i])
}

impl BranchPanel {
    /// Lays out the row of a branch, with the age that its last commit has by the
    /// system clock.
    pub fn render_branch_row(&self, branch: &Branch) -> (row: BranchRow)
        ensures
            is_row_of(row@, branch@),
    {
        match &branch.most_recent_commit {
            Some(commit) => {
                let summary = last_commit(commit);
                let ghost now = choose|now: int|
                    is_instant(now) && summary.1@ == #[trigger] commit_age_label(
                        commit@.commit_timestamp,
                        now,
                    );
                let row = branch_row(branch, Some(summary));
                assert(row@ == row_at(branch@, now));
                row
            },
            None => {
                let row = branch_row(branch, None);
                assert(is_instant(0));
                assert(row@ == row_at(branch@, 0));
                row
            },
        }
    }

    /// Lays out a section.
    pub fn render_section(
        &self,
        label: &str,
        expanded: bool,
        branches: &Vec<&Branch>,
        toggle_action: Click,
    ) -> (section: Section)
        ensures
            is_section_of(section@, label@, expanded, views(branches@), toggle_action),
    {
        let mut rows: Vec<BranchRow> = Vec::new();
        if expanded {
            let mut i: usize = 0;
            while i < branches.len()
                invariant
                    i <= branches.len(),
                    rows.len() == i,
                    forall|j: int|
                        0 <= j < i ==> is_row_of(#[trigger] views(rows@)[j], views(branches@)[j]),
                decreases branches.len() - i,
            {
                let ghost before = rows@;
                rows.push(self.render_branch_row(branches[i]));
                assert forall|j: int| 0 <= j < i + 1 implies is_row_of(
                    #[trigger] views(rows@)[j],
                    views(branches@)[j],
                ) by {
                    if j < i {
                        assert(views(before)[j] == views(rows@)[j]);
                    }
                }
                i += 1;
            }
        }
        Section {
            icon: Icon {
                name: if expanded {
                    IconName::ChevronDown
                } else {
                    IconName::ChevronRight
                },
                size: IconSize::Small,
                color: Color::Muted,
            },
            heading: Label { text: label.to_owned(), size: LabelSize::Small, color: Color::Muted },
            on_click: toggle_action,
            rows,
        }
    }
}

} // verus!
