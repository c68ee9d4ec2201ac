//! The place of the panel among the other panels of a window.

use vstd::prelude::*;

use crate::panel::BranchPanel;
use crate::widget::IconName;

verus! {

/// The key under which the panel is known.
pub const BRANCH_PANEL_KEY: &'static str = "BranchPanel";

/// The side of a window at which a panel is docked.
#[derive(Clone, Copy, Debug, PartialEq, Eq, Structural)]
pub enum DockPosition {
    Left,
    Bottom,
    Right,
}

/// Whether the panel can be docked at a side: at the left or at the right.
pub open spec fn is_valid_position(position: DockPosition) -> bool {
    position is Left || position is Right
}

impl BranchPanel {
    /// The name under which the panel is stored.
    pub fn persistent_name() -> (name: &'static str)
        ensures
            name@ == "BranchPanel"@,
    {
        "BranchPanel"
    }

    /// The key of the panel.
    pub fn panel_key() -> (key: &'static str)
        ensures
            key@ == "BranchPanel"@,
    {
        BRANCH_PANEL_KEY
    }

    /// The side at which the panel is docked, which is always the left.
    pub fn position(&self) -> (position: DockPosition)
        ensures
            position == DockPosition::Left,
            is_valid_position(position),
    {
        DockPosition::Left
    }

    /// Tells whether the panel can be docked at a side.
    pub fn position_is_valid(&self, position: DockPosition) -> (valid: bool)
        ensures
            valid == is_valid_position(position),
    {
        matches!(position, DockPosition::Left | DockPosition::Right)
    }

    /// Takes no notice of a wish to dock the panel elsewhere.
    pub fn set_position(&mut self, _position: DockPosition)
        ensures
            *final(self) == *old(self),
    {
    }

    /// The width that the panel has at first, in pixels.
    pub fn default_size(&self) -> (pixels: u32)
        ensures
            pixels == 240,
    {
        240
    }

    /// The icon of the panel.
    pub fn icon(&self) -> (icon: Option<IconName>)
        ensures
            icon == Some(IconName::GitBranch),
    {
        Some(IconName::GitBranch)
    }

    /// The text that explains the icon.
    pub fn icon_tooltip(&self) -> (tooltip: Option<&'static str>)
        ensures
            tooltip is Some,
            tooltip->0@ == "Branch Panel"@,
    {
        Some("Branch Panel")
    }

    /// The rank of the panel among those of its dock.
    pub fn activation_priority(&self) -> (priority: u32)
        ensures
            priority == 2,
    {
        2
    }
}

} // verus!
