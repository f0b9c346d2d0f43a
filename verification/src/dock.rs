//! Where panels are docked, and what showing and hiding them means.

use crate::claude_code_panel::ClaudeCodePanel;
use crate::git_graph_panel::GitGraphPanel;
use vstd::prelude::*;

verus! {

/// A side of the window at which a panel can be docked.
#[derive(Clone, Copy, Debug, PartialEq, Eq, Structural)]
pub enum DockPosition {
    Left,
    Bottom,
    Right,
}

/// Whether a panel that was toggled is to be closed: `has_focus` tells whether the toggle has given
/// it the focus.
pub fn closes_on_toggle(has_focus: bool) -> (r: bool)
    ensures
        r == !has_focus,
{
    !has_focus
}

/// Whether a side of the window has room for a column.
fn is_lateral(position: DockPosition) -> (r: bool)
    ensures
        r == (position is Left || position is Right),
{
    match position {
        DockPosition::Left => true,
        DockPosition::Bottom => false,
        DockPosition::Right => true,
    }
}

impl ClaudeCodePanel {
    /// The name under which the panel's place is remembered.
    pub fn persistent_name() -> (r: &'static str)
        ensures
            r@ == "ClaudeCodePanel"@,
    {
        "ClaudeCodePanel"
    }

    /// The name under which the panel is registered.
    pub fn panel_key() -> (r: &'static str)
        ensures
            r@ == "ClaudeCodePanel"@,
    {
        "ClaudeCodePanel"
    }

    /// Where the panel is docked.
    pub fn position(&self) -> (r: DockPosition)
        ensures
            r is Right,
    {
        DockPosition::Right
    }

    /// Whether the panel can be docked there.
    pub fn position_is_valid(&self, position: DockPosition) -> (r: bool)
        ensures
            r == (position is Left || position is Right),
    {
        is_lateral(position)
    }

    /// What the panel's icon is explained with: the assistant's title.
    pub fn icon_tooltip(&self) -> (r: Option<&str>)
        ensures
            r is Some && r->0@ == self@.assistant.title,
    {
        Some(self.assistant().title.as_str())
    }

    /// The rank of the panel among those of its dock.
    pub fn activation_priority(&self) -> (r: u32)
        ensures
            r == 4,
    {
        4
    }
}

impl GitGraphPanel {
    /// The name under which the panel's place is remembered.
    pub fn persistent_name() -> (r: &'static str)
        ensures
            r@ == "GitGraphPanel"@,
    {
        "GitGraphPanel"
    }

    /// The name under which the panel is registered.
    pub fn panel_key() -> (r: &'static str)
        ensures
            r@ == "GitGraphPanel"@,
    {
        "GitGraphPanel"
    }

    /// Where the panel is docked.
    pub fn position(&self) -> (r: DockPosition)
        ensures
            r is Right,
    {
        DockPosition::Right
    }

    /// Whether the panel can be docked there.
    pub fn position_is_valid(&self, position: DockPosition) -> (r: bool)
        ensures
            r == (position is Left || position is Right),
    {
        is_lateral(position)
    }

    /// What the panel's icon is explained with.
    pub fn icon_tooltip(&self) -> (r: Option<&'static str>)
        ensures
            r is Some && r->0@ == "Git Graph Panel"@,
    {
        Some("Git Graph Panel")
    }

    /// The rank of the panel among those of its dock.
    pub fn activation_priority(&self) -> (r: u32)
        ensures
            r == 2,
    {
        2
    }
}

} // verus!
