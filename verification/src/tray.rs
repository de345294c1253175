//! The system tray: what the shell does when the tray icon or one of its menu
//! items is clicked, and what a click on a tray item tells the interface.

use vstd::prelude::*;
use crate::events::{emission_view, Channel, Emission};
use crate::text::same_text;

verus! {

/// Something that happened to the tray icon.
#[derive(Clone, Debug, PartialEq, Eq)]
pub enum TrayEvent {
    LeftClick,
    RightClick,
    DoubleClick,
    /// The item with this identifier was chosen from the tray's menu.
    MenuItemClick(String),
    /// Anything else that the windowing toolkit may report.
    Other,
}

/// What the shell does in answer to a tray event.
#[derive(Clone, Copy, Debug, PartialEq, Eq, Structural)]
pub enum TrayReaction {
    /// Show the main window and give it the focus.
    ShowWindow,
    /// End the application.
    Quit,
    /// Print a note that a right click arrived.
    NoteRightClick,
    /// Print a note that a double click arrived.
    NoteDoubleClick,
    /// Do nothing.
    Ignore,
}

/// The reaction to a click on the tray menu item `id`.
pub open spec fn item_reaction(id: Seq<char>) -> TrayReaction {
    if id == "quit"@ {
        TrayReaction::Quit
    } else if id == "show"@ {
        TrayReaction::ShowWindow
    } else {
        TrayReaction::Ignore
    }
}

/// The reaction to a tray event.
pub open spec fn reaction_to(event: TrayEvent) -> TrayReaction {
    match event {
        TrayEvent::LeftClick => TrayReaction::ShowWindow,
        TrayEvent::RightClick => TrayReaction::NoteRightClick,
        TrayEvent::DoubleClick => TrayReaction::NoteDoubleClick,
        TrayEvent::MenuItemClick(id) => item_reaction(id@),
        TrayEvent::Other => TrayReaction::Ignore,
    }
}

/// Decides what a click on the tray menu item `id` does.
pub fn tray_item_reaction(id: &str) -> (reaction: TrayReaction)
    ensures
        reaction == item_reaction(id@),
{
    if same_text(id, "quit") {
        TrayReaction::Quit
    } else if same_text(id, "show") {
        TrayReaction::ShowWindow
    } else {
        TrayReaction::Ignore
    }
}

/// Decides what the shell does in answer to `event`.
pub fn tray_reaction(event: &TrayEvent) -> (reaction: TrayReaction)
    ensures
        reaction == reaction_to(*event),
{
    match event {
        TrayEvent::LeftClick => TrayReaction::ShowWindow,
        TrayEvent::RightClick => TrayReaction::NoteRightClick,
        TrayEvent::DoubleClick => TrayReaction::NoteDoubleClick,
        TrayEvent::MenuItemClick(id) => tray_item_reaction(id.as_str()),
        TrayEvent::Other => TrayReaction::Ignore,
    }
}

impl TrayReaction {
    /// The note that the reaction prints, where it prints one.
    pub open spec fn notice_text(self) -> Option<Seq<char>> {
        match self {
            TrayReaction::NoteRightClick => Some("system tray received a right click"@),
            TrayReaction::NoteDoubleClick => Some("system tray received a double click"@),
            _ => None,
        }
    }

    pub fn notice(&self) -> (notice: Option<&'static str>)
        ensures
            match notice {
                Some(text) => self.notice_text() == Some(text@),
                None => self.notice_text() is None,
            },
    {
        match self {
            TrayReaction::NoteRightClick => Some("system tray received a right click"),
            TrayReaction::NoteDoubleClick => Some("system tray received a double click"),
            _ => None,
        }
    }
}

/// The label of the window that `TrayReaction::ShowWindow` brings up.
pub fn main_window_label() -> (label: &'static str)
    ensures
        label@ == "main"@,
{
    "main"
}

/// The two tray items do different things, and both do something: the
/// identifier of a tray item that is not ignored is settled by its reaction.
pub proof fn lemma_tray_items_are_one_to_one(a: Seq<char>, b: Seq<char>)
    requires
        item_reaction(a) != TrayReaction::Ignore,
        item_reaction(a) == item_reaction(b),
    ensures
        a == b,
        "quit"@ != "show"@,
{
    reveal_strlit("quit");
    reveal_strlit("show");
    assert("quit"@[0] == 'q' && "show"@[0] == 's');
}

/// The event that a click on the tray menu item `id` sends to the interface:
/// each tray item is forwarded on the action channel under its own name.
pub open spec fn tray_emission_for(id: Seq<char>) -> Option<(Channel, Seq<char>)> {
    if id == "show"@ || id == "quit"@ {
        Some((Channel::MenuAction, id))
    } else {
        None
    }
}

/// Decides what a click on the tray menu item `id` sends to the interface.
/// The event goes out before the shell reacts to the click.
pub fn tray_emission(id: &str) -> (e: Option<Emission>)
    ensures
        emission_view(e) == tray_emission_for(id@),
{
    if same_text(id, "show") || same_text(id, "quit") {
        Some(Emission { channel: Channel::MenuAction, payload: id.to_owned() })
    } else {
        None
    }
}

/// A tray item sends an event exactly when the shell reacts to it.
pub proof fn lemma_tray_items_send_and_react(id: Seq<char>)
    ensures
        tray_emission_for(id) is Some <==> item_reaction(id) != TrayReaction::Ignore,
{
}

/// Tray events are one-to-one: two identifiers that send the same event are
/// the same identifier.
pub proof fn lemma_tray_emission_is_one_to_one(a: Seq<char>, b: Seq<char>)
    requires
        tray_emission_for(a) is Some,
        tray_emission_for(a) == tray_emission_for(b),
    ensures
        a == b,
{
}

} // verus!
