//! Routing of menu clicks to the user interface's event bus.
//!
//! The interface listens on two channels. A click on a menu item is forwarded
//! as exactly one event on one of them, decided by the item's identifier
//! alone. Only a text that names no item of the menu bar sends nothing.

use vstd::prelude::*;
use crate::text::same_text;

verus! {

/// One of the two broadcast channels that the interface subscribes to.
#[derive(Clone, Copy, Debug, PartialEq, Eq, Structural)]
pub enum Channel {
    /// Generic application actions; the payload names the action.
    MenuAction,
    /// Navigation requests; the payload is the path to show.
    Navigate,
}

impl Channel {
    /// The event name under which the channel is known to the interface.
    pub open spec fn name_text(self) -> Seq<char> {
        match self {
            Channel::MenuAction => "menu_action"@,
            Channel::Navigate => "navigate"@,
        }
    }

    pub fn name(&self) -> (name: &'static str)
        ensures
            name@ == self.name_text(),
    {
        match self {
            Channel::MenuAction => "menu_action",
            Channel::Navigate => "navigate",
        }
    }
}

/// An event to be sent to the interface: the channel, and the text it carries.
#[derive(Clone, Debug, PartialEq, Eq)]
pub struct Emission {
    pub channel: Channel,
    pub payload: String,
}

impl View for Emission {
    type V = (Channel, Seq<char>);

    open spec fn view(&self) -> (Channel, Seq<char>) {
        (self.channel, self.payload@)
    }
}

/// Whether `id` names one of the application actions, which are forwarded
/// under their own name.
pub open spec fn is_action_id(id: Seq<char>) -> bool {
    ||| id == "new_project"@
    ||| id == "open_project"@
    ||| id == "save_project"@
    ||| id == "export_pdf"@
    ||| id == "about"@
    ||| id == "documentation"@
    ||| id == "support"@
}

/// The path that the view item `id` navigates to, if `id` names a view.
pub open spec fn view_path(id: Seq<char>) -> Option<Seq<char>> {
    if id == "input_view"@ {
        Some("/input"@)
    } else if id == "analysis_view"@ {
        Some("/analysis"@)
    } else if id == "pdf_view"@ {
        Some("/pdf"@)
    } else if id == "admin_view"@ {
        Some("/admin"@)
    } else if id == "crm_view"@ {
        Some("/crm"@)
    } else {
        None
    }
}

/// The event that a click on the menu item `id` sends, if any.
pub open spec fn emission_for(id: Seq<char>) -> Option<(Channel, Seq<char>)> {
    if is_action_id(id) {
        Some((Channel::MenuAction, id))
    } else if let Some(path) = view_path(id) {
        Some((Channel::Navigate, path))
    } else {
        None
    }
}

/// The view of an optional emission.
pub open spec fn emission_view(e: Option<Emission>) -> Option<(Channel, Seq<char>)> {
    match e {
        Some(e) => Some(e@),
        None => None,
    }
}

fn action(id: &str) -> (e: Option<Emission>)
    ensures
        emission_view(e) == Some((Channel::MenuAction, id@)),
{
    Some(Emission { channel: Channel::MenuAction, payload: id.to_owned() })
}

fn navigation(path: &str) -> (e: Option<Emission>)
    ensures
        emission_view(e) == Some((Channel::Navigate, path@)),
{
    Some(Emission { channel: Channel::Navigate, payload: path.to_owned() })
}

/// Decides what a click on the menu item `id` sends to the interface.
pub fn menu_emission(id: &str) -> (e: Option<Emission>)
    ensures
        emission_view(e) == emission_for(id@),
{
    if same_text(id, "new_project") || same_text(id, "open_project") || same_text(
        id,
        "save_project",
    ) || same_text(id, "export_pdf") || same_text(id, "about") || same_text(
        id,
        "documentation",
    ) || same_text(id, "support") {
        action(id)
    } else if same_text(id, "input_view") {
        navigation("/input")
    } else if same_text(id, "analysis_view") {
        navigation("/analysis")
    } else if same_text(id, "pdf_view") {
        navigation("/pdf")
    } else if same_text(id, "admin_view") {
        navigation("/admin")
    } else if same_text(id, "crm_view") {
        navigation("/crm")
    } else {
        None
    }
}

/// Makes the routed identifiers and the navigation paths known character by
/// character.
pub proof fn lemma_routing_texts()
    ensures
        "new_project"@ == seq!['n', 'e', 'w', '_', 'p', 'r', 'o', 'j', 'e', 'c', 't'],
        "open_project"@ == seq!['o', 'p', 'e', 'n', '_', 'p', 'r', 'o', 'j', 'e', 'c', 't'],
        "save_project"@ == seq!['s', 'a', 'v', 'e', '_', 'p', 'r', 'o', 'j', 'e', 'c', 't'],
        "export_pdf"@ == seq!['e', 'x', 'p', 'o', 'r', 't', '_', 'p', 'd', 'f'],
        "about"@ == seq!['a', 'b', 'o', 'u', 't'],
        "documentation"@ == seq!['d', 'o', 'c', 'u', 'm', 'e', 'n', 't', 'a', 't', 'i', 'o', 'n'],
        "support"@ == seq!['s', 'u', 'p', 'p', 'o', 'r', 't'],
        "input_view"@ == seq!['i', 'n', 'p', 'u', 't', '_', 'v', 'i', 'e', 'w'],
        "analysis_view"@ == seq!['a', 'n', 'a', 'l', 'y', 's', 'i', 's', '_', 'v', 'i', 'e', 'w'],
        "pdf_view"@ == seq!['p', 'd', 'f', '_', 'v', 'i', 'e', 'w'],
        "admin_view"@ == seq!['a', 'd', 'm', 'i', 'n', '_', 'v', 'i', 'e', 'w'],
        "crm_view"@ == seq!['c', 'r', 'm', '_', 'v', 'i', 'e', 'w'],
        "/input"@ == seq!['/', 'i', 'n', 'p', 'u', 't'],
        "/analysis"@ == seq!['/', 'a', 'n', 'a', 'l', 'y', 's', 'i', 's'],
        "/pdf"@ == seq!['/', 'p', 'd', 'f'],
        "/admin"@ == seq!['/', 'a', 'd', 'm', 'i', 'n'],
        "/crm"@ == seq!['/', 'c', 'r', 'm'],
{
    reveal_strlit("new_project");
    reveal_strlit("open_project");
    reveal_strlit("save_project");
    reveal_strlit("export_pdf");
    reveal_strlit("about");
    reveal_strlit("documentation");
    reveal_strlit("support");
    reveal_strlit("input_view");
    reveal_strlit("analysis_view");
    reveal_strlit("pdf_view");
    reveal_strlit("admin_view");
    reveal_strlit("crm_view");
    reveal_strlit("/input");
    reveal_strlit("/analysis");
    reveal_strlit("/pdf");
    reveal_strlit("/admin");
    reveal_strlit("/crm");
    assert("new_project"@ =~= seq!['n', 'e', 'w', '_', 'p', 'r', 'o', 'j', 'e', 'c', 't']);
    assert("open_project"@ =~= seq!['o', 'p', 'e', 'n', '_', 'p', 'r', 'o', 'j', 'e', 'c', 't']);
    assert("save_project"@ =~= seq!['s', 'a', 'v', 'e', '_', 'p', 'r', 'o', 'j', 'e', 'c', 't']);
    assert("export_pdf"@ =~= seq!['e', 'x', 'p', 'o', 'r', 't', '_', 'p', 'd', 'f']);
    assert("about"@ =~= seq!['a', 'b', 'o', 'u', 't']);
    assert("documentation"@ =~= seq![
        'd', 'o', 'c', 'u', 'm', 'e', 'n', 't', 'a', 't', 'i', 'o', 'n',
    ]);
    assert("support"@ =~= seq!['s', 'u', 'p', 'p', 'o', 'r', 't']);
    assert("input_view"@ =~= seq!['i', 'n', 'p', 'u', 't', '_', 'v', 'i', 'e', 'w']);
    assert("analysis_view"@ =~= seq![
        'a', 'n', 'a', 'l', 'y', 's', 'i', 's', '_', 'v', 'i', 'e', 'w',
    ]);
    assert("pdf_view"@ =~= seq!['p', 'd', 'f', '_', 'v', 'i', 'e', 'w']);
    assert("admin_view"@ =~= seq!['a', 'd', 'm', 'i', 'n', '_', 'v', 'i', 'e', 'w']);
    assert("crm_view"@ =~= seq!['c', 'r', 'm', '_', 'v', 'i', 'e', 'w']);
    assert("/input"@ =~= seq!['/', 'i', 'n', 'p', 'u', 't']);
    assert("/analysis"@ =~= seq!['/', 'a', 'n', 'a', 'l', 'y', 's', 'i', 's']);
    assert("/pdf"@ =~= seq!['/', 'p', 'd', 'f']);
    assert("/admin"@ =~= seq!['/', 'a', 'd', 'm', 'i', 'n']);
    assert("/crm"@ =~= seq!['/', 'c', 'r', 'm']);
}

/// Routing is one-to-one: two identifiers that send the same event are the
/// same identifier.
pub proof fn lemma_emission_is_one_to_one(a: Seq<char>, b: Seq<char>)
    requires
        emission_for(a) is Some,
        emission_for(a) == emission_for(b),
    ensures
        a == b,
{
    lemma_routing_texts();
}

/// An application action is forwarded on the action channel under its own
/// name, and never as a navigation request.
pub proof fn lemma_action_is_not_navigation(id: Seq<char>)
    requires
        is_action_id(id),
    ensures
        emission_for(id) == Some((Channel::MenuAction, id)),
        emission_for(id)->Some_0.0 != Channel::Navigate,
{
}

/// A view item is forwarded on the navigation channel, and carries a path that
/// starts with a slash.
pub proof fn lemma_view_navigates(id: Seq<char>)
    requires
        view_path(id) is Some,
    ensures
        emission_for(id) == Some((Channel::Navigate, view_path(id)->Some_0)),
        view_path(id)->Some_0.len() > 1,
        view_path(id)->Some_0[0] == '/',
{
    lemma_routing_texts();
}

/// The two channels have different names.
pub proof fn lemma_channel_names_differ()
    ensures
        Channel::MenuAction.name_text() != Channel::Navigate.name_text(),
{
    reveal_strlit("menu_action");
    reveal_strlit("navigate");
    assert("menu_action"@.len() == 11 && "navigate"@.len() == 8);
}

} // verus!
