//! What the panel shows of its state.

use vstd::prelude::*;

use crate::branch::{branches_where, BranchView, UpstreamTracking};
use crate::clock::is_commit_age;
use crate::effect::Click;
use crate::panel::{is_layout_of, section_heading, PanelLayoutView, PanelState};
use crate::row::{
    age_text, is_row_of, is_section_of, row_at, row_of, tracking_text, BranchRowView, SectionView,
};
use crate::text::decimal;
use crate::widget::{Color, IconName, IconSize, LabelSize};

verus! {

/// The distance to the upstream is told where there is any, in numbers of
/// commits; an upstream that is gone is told as such; of anything else nothing is
/// told.
pub proof fn law_tracking_is_told(branch: BranchView)
    ensures
        match branch.upstream {
            Some(upstream) => match upstream.tracking {
                UpstreamTracking::Existing(status) => {
                    &&& status.ahead > 0 || status.behind > 0 ==> tracking_text(branch.upstream)
                        == Some(
                        "↑"@ + decimal(status.ahead as nat) + " ↓"@ + decimal(
                            status.behind as nat,
                        ),
                    )
                    &&& status.ahead == 0 && status.behind == 0 ==> tracking_text(
                        branch.upstream,
                    ) is None
                },
                UpstreamTracking::Gone => tracking_text(branch.upstream) == Some("gone"@),
            },
            None => tracking_text(branch.upstream) is None,
        },
{
}

/// A row shows its branch: the icon for the place of the branch, its name, the
/// distance to its upstream and the age that it is given.
pub proof fn law_row_shows_its_branch(branch: BranchView, age: Option<Seq<char>>)
    ensures
        ({
            let row = row_of(branch, age);
            &&& row.branch == branch
            &&& row.icon.size == IconSize::Small
            &&& row.icon.name == IconName::Check <==> branch.is_head
            &&& row.icon.name == IconName::Screen <==> !branch.is_head && branch.is_remote
            &&& row.icon.name == IconName::GitBranch <==> !branch.is_head && !branch.is_remote
            &&& row.icon.color == Color::Accent <==> branch.is_head
            &&& row.icon.color == Color::Muted <==> !branch.is_head
            &&& row.name.text == branch.name
            &&& row.name.size == LabelSize::Small
            &&& row.name.color == Color::Default <==> branch.is_head
            &&& row.name.color == Color::Muted <==> !branch.is_head
            &&& match age {
                Some(text) => row.age matches Some(label) && label.text == text && label.size
                    == LabelSize::XSmall && label.color == Color::Muted,
                None => row.age is None,
            }
        }),
{
}

/// The tracking label of a row: arrows and numbers of commits where the branch is
/// ahead or behind, a word where the upstream is gone, and none on any other
/// branch.
pub proof fn law_row_shows_the_tracking(branch: BranchView, age: Option<Seq<char>>)
    ensures
        ({
            let label = row_of(branch, age).tracking;
            &&& label matches Some(shown) ==> shown.size == LabelSize::XSmall && shown.color
                == Color::Muted
            &&& match branch.upstream {
                Some(upstream) => match upstream.tracking {
                    UpstreamTracking::Existing(status) => if status.ahead > 0 || status.behind > 0 {
                        label matches Some(shown) && shown.text == "↑"@ + decimal(
                            status.ahead as nat,
                        ) + " ↓"@ + decimal(status.behind as nat)
                    } else {
                        label is None
                    },
                    UpstreamTracking::Gone => label matches Some(shown) && shown.text == "gone"@,
                },
                None => label is None,
            }
        }),
{
}

/// The row that is drawn of a branch is the row of that branch, with the age that
/// its last commit had when the clock was read, or none where it has no commit.
pub proof fn law_drawn_row(row: BranchRowView, branch: BranchView)
    requires
        is_row_of(row, branch),
    ensures
        match branch.most_recent_commit {
            Some(commit) => exists|age: Seq<char>| #[trigger]
                is_commit_age(age, commit.commit_timestamp) && row == row_of(branch, Some(age)),
            None => row == row_of(branch, None),
        },
{
    let now = choose|now: int|
        crate::clock::is_instant(now) && row == #[trigger] row_at(branch, now);
    law_age_in_a_row(branch, now);
    if let Some(commit) = branch.most_recent_commit {
        assert(is_commit_age(row.age->0.text, commit.commit_timestamp));
        assert(row == row_of(branch, Some(row.age->0.text)));
    }
}

/// The age in the row of a branch at an instant is that of its last commit.
pub proof fn law_age_in_a_row(branch: BranchView, now: int)
    ensures
        row_at(branch, now) == row_of(branch, age_text(branch.most_recent_commit, now)),
        match branch.most_recent_commit {
            Some(commit) => age_text(branch.most_recent_commit, now) == Some(
                crate::clock::commit_age_label(commit.commit_timestamp, now),
            ),
            None => age_text(branch.most_recent_commit, now) is None,
        },
{
}

/// A section has a heading with its text and an arrow that tells whether it is
/// folded. Unfolded it has one row for each branch, in their order; folded it has
/// none.
pub proof fn law_section(
    section: SectionView,
    heading: Seq<char>,
    expanded: bool,
    branches: Seq<BranchView>,
    on_click: Click,
)
    requires
        is_section_of(section, heading, expanded, branches, on_click),
    ensures
        section.heading.text == heading,
        section.heading.size == LabelSize::Small,
        section.heading.color == Color::Muted,
        section.icon.name == IconName::ChevronDown <==> expanded,
        section.icon.name == IconName::ChevronRight <==> !expanded,
        section.icon.size == IconSize::Small,
        section.icon.color == Color::Muted,
        section.on_click == on_click,
        expanded ==> section.rows.len() == branches.len(),
        !expanded ==> section.rows.len() == 0,
        forall|i: int|
            0 <= i < section.rows.len() ==> is_row_of(#[trigger] section.rows[i], branches[i])
                && section.rows[i].branch == branches[i],
{
    assert forall|i: int| 0 <= i < section.rows.len() implies is_row_of(
        #[trigger] section.rows[i],
        branches[i],
    ) && section.rows[i].branch == branches[i] by {
        law_drawn_row(section.rows[i], branches[i]);
    }
}

/// The heading of a section ends with the number of its branches in brackets.
pub proof fn law_heading_counts(name: Seq<char>, count: nat)
    ensures
        section_heading(name, count) == name + " ("@ + decimal(count) + ")"@,
{
}

/// What is shown of a state, whatever it is: the title and the button, the note
/// and no list while it is loading, else the two lists, its error, and its menu.
pub proof fn law_layout(layout: PanelLayoutView, state: PanelState)
    requires
        is_layout_of(layout, state),
    ensures
        layout.title.text == "Branches"@,
        layout.title.size == LabelSize::Small,
        layout.title.color == Color::Default,
        layout.refresh.id == "refresh-branches"@,
        layout.refresh.icon == IconName::ArrowCircle,
        layout.refresh.icon_size == IconSize::Small,
        layout.refresh.tooltip == "Refresh branches"@,
        layout.refresh.on_click == Click::Refresh,
        state.is_loading ==> layout.sections is None,
        state.is_loading ==> (layout.loading matches Some(label) && label.text == "Loading…"@
            && label.size == LabelSize::Small && label.color == Color::Muted),
        !state.is_loading ==> layout.loading is None,
        !state.is_loading ==> (layout.sections matches Some(sections) && {
            let local = branches_where(state.branches, false);
            let remote = branches_where(state.branches, true);
            &&& is_section_of(
                sections.local,
                "Local"@ + " ("@ + decimal(local.len()) + ")"@,
                state.local_expanded,
                local,
                Click::ToggleLocal,
            )
            &&& is_section_of(
                sections.remote,
                "Remote"@ + " ("@ + decimal(remote.len()) + ")"@,
                state.remote_expanded,
                remote,
                Click::ToggleRemote,
            )
        }),
        match state.error {
            Some(message) => layout.error matches Some(label) && label.text == message && label.size
                == LabelSize::Small && label.color == Color::Error,
            None => layout.error is None,
        },
        layout.context_menu == state.context_menu,
{
}

/// The lists keep the order of the branches: the lists of two runs of branches,
/// one after the other, are the lists of both runs together, and a single branch
/// is in the list of its place and in no other.
pub proof fn law_lists_keep_the_order(
    first: Seq<BranchView>,
    second: Seq<BranchView>,
    branch: BranchView,
    is_remote: bool,
)
    ensures
        branches_where(first + second, is_remote) == branches_where(first, is_remote)
            + branches_where(second, is_remote),
        branch.is_remote == is_remote ==> branches_where(seq![branch], is_remote) == seq![branch],
        branch.is_remote != is_remote ==> branches_where(seq![branch], is_remote).len() == 0,
        branches_where(Seq::empty(), is_remote).len() == 0,
{
    let keep = |branch: BranchView| branch.is_remote == is_remote;
    Seq::filter_distributes_over_add(first, second, keep);
    reveal_with_fuel(Seq::filter, 2);
    assert(seq![branch].drop_last() =~= Seq::empty());
}

} // verus!
