//! The state and the layout of a panel that lists the branches of a git
//! repository.

pub mod age_laws;
pub mod branch;
pub mod clock;
pub mod dock;
pub mod effect;
pub mod event_laws;
pub mod laws;
pub mod layout_laws;
pub mod menu;
pub mod menu_laws;
pub mod panel;
pub mod row;
pub mod text;
pub mod view_laws;
pub mod widget;
