//! The icons and labels that a layout is made of.

use vstd::prelude::*;

verus! {

#[derive(Clone, Copy, Debug, PartialEq, Eq, Structural)]
pub enum IconName {
    ArrowCircle,
    Check,
    ChevronDown,
    ChevronRight,
    GitBranch,
    Screen,
}

#[derive(Clone, Copy, Debug, PartialEq, Eq, Structural)]
pub enum IconSize {
    Small,
}

#[derive(Clone, Copy, Debug, PartialEq, Eq, Structural)]
pub enum LabelSize {
    XSmall,
    Small,
}

#[derive(Clone, Copy, Debug, PartialEq, Eq, Structural)]
pub enum Color {
    Accent,
    Default,
    Error,
    Muted,
}

#[derive(Clone, Copy, Debug, PartialEq, Eq, Structural)]
pub struct Icon {
    pub name: IconName,
    pub size: IconSize,
    pub color: Color,
}

#[derive(Debug)]
pub struct Label {
    pub text: String,
    pub size: LabelSize,
    pub color: Color,
}

/// What a `Label` stands for.
pub struct LabelView {
    pub text: Seq<char>,
    pub size: LabelSize,
    pub color: Color,
}

impl View for Label {
    type V = LabelView;

    open spec fn view(&self) -> LabelView {
        LabelView { text: self.text@, size: self.size, color: self.color }
    }
}

} // verus!
