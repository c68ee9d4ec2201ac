//! Branches of a repository, as far as the panel looks at them.

use vstd::prelude::*;

use crate::text::{view_option, views};

verus! {

/// How far a branch and its upstream are apart, in commits.
#[derive(Clone, Copy, Debug, PartialEq, Eq, Structural)]
pub struct UpstreamTrackingStatus {
    pub ahead: u32,
    pub behind: u32,
}

/// What is known of the upstream of a branch.
#[derive(Clone, Copy, Debug, PartialEq, Eq, Structural)]
pub enum UpstreamTracking {
    /// The upstream no longer exists.
    Gone,
    /// The upstream exists, at some distance.
    Existing(UpstreamTrackingStatus),
}

/// The branch that another one is set to follow.
#[derive(Clone, Copy, Debug, PartialEq, Eq, Structural)]
pub struct Upstream {
    pub tracking: UpstreamTracking,
}

/// A commit in short.
#[derive(Debug)]
pub struct CommitSummary {
    pub subject: String,
    /// When the commit was made, in seconds since the Unix epoch.
    pub commit_timestamp: i64,
}

/// What a `CommitSummary` stands for.
pub struct CommitSummaryView {
    pub subject: Seq<char>,
    pub commit_timestamp: int,
}

impl View for CommitSummary {
    type V = CommitSummaryView;

    open spec fn view(&self) -> CommitSummaryView {
        CommitSummaryView {
            subject: self.subject@,
            commit_timestamp: self.commit_timestamp as int,
        }
    }
}

impl Clone for CommitSummary {
    fn clone(&self) -> (copy: Self)
        ensures
            copy@ == self@,
    {
        CommitSummary { subject: self.subject.clone(), commit_timestamp: self.commit_timestamp }
    }
}

/// A branch.
#[derive(Debug)]
pub struct Branch {
    /// The name without the prefix that tells where the branch lives.
    pub name: String,
    /// Whether the branch belongs to a remote.
    pub is_remote: bool,
    /// Whether the branch is checked out.
    pub is_head: bool,
    pub upstream: Option<Upstream>,
    pub most_recent_commit: Option<CommitSummary>,
}

/// What a `Branch` stands for.
pub struct BranchView {
    pub name: Seq<char>,
    pub is_remote: bool,
    pub is_head: bool,
    pub upstream: Option<Upstream>,
    pub most_recent_commit: Option<CommitSummaryView>,
}

impl View for Branch {
    type V = BranchView;

    open spec fn view(&self) -> BranchView {
        BranchView {
            name: self.name@,
            is_remote: self.is_remote,
            is_head: self.is_head,
            upstream: self.upstream,
            most_recent_commit: view_option(self.most_recent_commit),
        }
    }
}

impl Clone for Branch {
    fn clone(&self) -> (copy: Self)
        ensures
            copy@ == self@,
    {
        Branch {
            name: self.name.clone(),
            is_remote: self.is_remote,
            is_head: self.is_head,
            upstream: self.upstream,
            most_recent_commit: match &self.most_recent_commit {
                Some(commit) => Some(commit.clone()),
                None => None,
            },
        }
    }
}

/// The branches that belong to a remote, or those that do not, in their order.
pub open spec fn branches_where(branches: Seq<BranchView>, is_remote: bool) -> Seq<BranchView> {
    branches.filter(|branch: BranchView| branch.is_remote == is_remote)
}

/// Picks the branches that belong to a remote, or those that do not.
pub fn pick_branches(branches: &Vec<Branch>, is_remote: bool) -> (picked: Vec<&Branch>)
    ensures
        views(picked@) == branches_where(views(branches@), is_remote),
{
    let mut picked: Vec<&Branch> = Vec::new();
    let mut i: usize = 0;
    let ghost all = views(branches@);
    proof {
        reveal(Seq::filter);
        assert(views(picked@) =~= branches_where(all.take(0), is_remote));
    }
    while i < branches.len()
        invariant
            i <= branches.len(),
            all == views(branches@),
            views(picked@) == branches_where(all.take(i as int), is_remote),
        decreases branches.len() - i,
    {
        let branch = &branches[i];
        let ghost before = picked@;
        if branch.is_remote == is_remote {
            picked.push(branch);
        }
        proof {
            reveal(Seq::filter);
            assert(all.take(i + 1).drop_last() =~= all.take(i as int));
            assert(all.take(i + 1).last() == branch@);
            assert(branch.is_remote == is_remote ==> views(picked@) =~= views(before).push(branch@));
        }
        i += 1;
    }
    proof {
        assert(all.take(i as int) =~= all);
    }
    picked
}

} // verus!
