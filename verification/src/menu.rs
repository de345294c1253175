//! The layout of the menu bar and of the tray menu, as plain data for the
//! shell to hand to the windowing toolkit.

use vstd::prelude::*;
use crate::events::{emission_for, lemma_routing_texts};
use crate::tray::{item_reaction, tray_emission_for, TrayReaction};

verus! {

/// An item that the platform supplies and handles by itself.
#[derive(Clone, Copy, Debug, PartialEq, Eq, Structural)]
pub enum NativeItem {
    About,
    Separator,
    Services,
    Hide,
    HideOthers,
    ShowAll,
    Quit,
    Undo,
    Redo,
    Cut,
    Copy,
    Paste,
    SelectAll,
}

/// One line of a menu.
#[derive(Clone, Debug, PartialEq, Eq)]
pub enum Entry {
    /// An item of the application: a click on it is reported under `id`.
    Custom { id: String, title: String },
    Native(NativeItem),
}

/// What an `Entry` stands for.
pub enum EntryText {
    Custom { id: Seq<char>, title: Seq<char> },
    Native(NativeItem),
}

impl View for Entry {
    type V = EntryText;

    open spec fn view(&self) -> EntryText {
        match self {
            Entry::Custom { id, title } => EntryText::Custom { id: id@, title: title@ },
            Entry::Native(item) => EntryText::Native(*item),
        }
    }
}

/// The views of a sequence of entries, in the same order.
pub open spec fn entry_texts(entries: Seq<Entry>) -> Seq<EntryText> {
    Seq::new(entries.len(), |i: int| entries[i]@)
}

/// A titled menu of the menu bar.
#[derive(Clone, Debug, PartialEq, Eq)]
pub struct Submenu {
    pub title: String,
    pub entries: Vec<Entry>,
}

/// What a `Submenu` stands for.
pub struct SubmenuText {
    pub title: Seq<char>,
    pub entries: Seq<EntryText>,
}

impl View for Submenu {
    type V = SubmenuText;

    open spec fn view(&self) -> SubmenuText {
        SubmenuText { title: self.title@, entries: entry_texts(self.entries@) }
    }
}

/// The views of a sequence of menus, in the same order.
pub open spec fn submenu_texts(menus: Seq<Submenu>) -> Seq<SubmenuText> {
    Seq::new(menus.len(), |i: int| menus[i]@)
}

pub open spec fn custom_text(id: Seq<char>, title: Seq<char>) -> EntryText {
    EntryText::Custom { id, title }
}

pub open spec fn native_text(item: NativeItem) -> EntryText {
    EntryText::Native(item)
}

fn custom(id: &str, title: &str) -> (entry: Entry)
    ensures
        entry@ == custom_text(id@, title@),
{
    Entry::Custom { id: id.to_owned(), title: title.to_owned() }
}

fn native(item: NativeItem) -> (entry: Entry)
    ensures
        entry@ == native_text(item),
{
    Entry::Native(item)
}

fn submenu(title: &str, entries: Vec<Entry>) -> (menu: Submenu)
    ensures
        menu@ == (SubmenuText { title: title@, entries: entry_texts(entries@) }),
{
    Submenu { title: title.to_owned(), entries }
}

/// The application's name, as the menu bar and the about item show it.
pub open spec fn app_name_text() -> Seq<char> {
    "Solar Configurator"@
}

pub fn app_name() -> (name: &'static str)
    ensures
        name@ == app_name_text(),
{
    "Solar Configurator"
}

/// The application menu: platform items only.
pub open spec fn app_menu_text() -> SubmenuText {
    SubmenuText {
        title: app_name_text(),
        entries: seq![
            native_text(NativeItem::About),
            native_text(NativeItem::Separator),
            native_text(NativeItem::Services),
            native_text(NativeItem::Separator),
            native_text(NativeItem::Hide),
            native_text(NativeItem::HideOthers),
            native_text(NativeItem::ShowAll),
            native_text(NativeItem::Separator),
            native_text(NativeItem::Quit),
        ],
    }
}

/// The file menu: the project commands and the export.
pub open spec fn file_menu_text() -> SubmenuText {
    SubmenuText {
        title: "Datei"@,
        entries: seq![
            custom_text("new_project"@, "Neues Projekt"@),
            custom_text("open_project"@, "Projekt \u{f6}ffnen"@),
            custom_text("save_project"@, "Projekt speichern"@),
            native_text(NativeItem::Separator),
            custom_text("export_pdf"@, "PDF exportieren"@),
            native_text(NativeItem::Separator),
            native_text(NativeItem::Quit),
        ],
    }
}

/// The edit menu: platform items only.
pub open spec fn edit_menu_text() -> SubmenuText {
    SubmenuText {
        title: "Bearbeiten"@,
        entries: seq![
            native_text(NativeItem::Undo),
            native_text(NativeItem::Redo),
            native_text(NativeItem::Separator),
            native_text(NativeItem::Cut),
            native_text(NativeItem::Copy),
            native_text(NativeItem::Paste),
            native_text(NativeItem::SelectAll),
        ],
    }
}

/// The view menu: one item for each view of the interface.
pub open spec fn view_menu_text() -> SubmenuText {
    SubmenuText {
        title: "Ansicht"@,
        entries: seq![
            custom_text("input_view"@, "Eingabe"@),
            custom_text("analysis_view"@, "Analyse"@),
            custom_text("pdf_view"@, "PDF-Generierung"@),
            custom_text("admin_view"@, "Administration"@),
            custom_text("crm_view"@, "CRM"@),
        ],
    }
}

/// The help menu.
pub open spec fn help_menu_text() -> SubmenuText {
    SubmenuText {
        title: "Hilfe"@,
        entries: seq![
            custom_text("about"@, "\u{dc}ber Solar Configurator"@),
            custom_text("documentation"@, "Dokumentation"@),
            custom_text("support"@, "Support"@),
        ],
    }
}

/// The menu bar, from left to right.
pub open spec fn menu_bar_text() -> Seq<SubmenuText> {
    seq![
        app_menu_text(),
        file_menu_text(),
        edit_menu_text(),
        view_menu_text(),
        help_menu_text(),
    ]
}

/// The tray menu, from top to bottom.
pub open spec fn tray_menu_text() -> Seq<EntryText> {
    seq![
        custom_text("show"@, "Anzeigen"@),
        native_text(NativeItem::Separator),
        custom_text("quit"@, "Beenden"@),
    ]
}

fn app_menu() -> (menu: Submenu)
    ensures
        menu@ == app_menu_text(),
{
    let entries: Vec<Entry> = vec![
        native(NativeItem::About),
        native(NativeItem::Separator),
        native(NativeItem::Services),
        native(NativeItem::Separator),
        native(NativeItem::Hide),
        native(NativeItem::HideOthers),
        native(NativeItem::ShowAll),
        native(NativeItem::Separator),
        native(NativeItem::Quit),
    ];
    assert(entry_texts(entries@) =~= app_menu_text().entries);
    submenu(app_name(), entries)
}

fn file_menu() -> (menu: Submenu)
    ensures
        menu@ == file_menu_text(),
{
    let entries: Vec<Entry> = vec![
        custom("new_project", "Neues Projekt"),
        custom("open_project", "Projekt \u{f6}ffnen"),
        custom("save_project", "Projekt speichern"),
        native(NativeItem::Separator),
        custom("export_pdf", "PDF exportieren"),
        native(NativeItem::Separator),
        native(NativeItem::Quit),
    ];
    assert(entry_texts(entries@) =~= file_menu_text().entries);
    submenu("Datei", entries)
}

fn edit_menu() -> (menu: Submenu)
    ensures
        menu@ == edit_menu_text(),
{
    let entries: Vec<Entry> = vec![
        native(NativeItem::Undo),
        native(NativeItem::Redo),
        native(NativeItem::Separator),
        native(NativeItem::Cut),
        native(NativeItem::Copy),
        native(NativeItem::Paste),
        native(NativeItem::SelectAll),
    ];
    assert(entry_texts(entries@) =~= edit_menu_text().entries);
    submenu("Bearbeiten", entries)
}

fn view_menu() -> (menu: Submenu)
    ensures
        menu@ == view_menu_text(),
{
    let entries: Vec<Entry> = vec![
        custom("input_view", "Eingabe"),
        custom("analysis_view", "Analyse"),
        custom("pdf_view", "PDF-Generierung"),
        custom("admin_view", "Administration"),
        custom("crm_view", "CRM"),
    ];
    assert(entry_texts(entries@) =~= view_menu_text().entries);
    submenu("Ansicht", entries)
}

fn help_menu() -> (menu: Submenu)
    ensures
        menu@ == help_menu_text(),
{
    let entries: Vec<Entry> = vec![
        custom("about", "\u{dc}ber Solar Configurator"),
        custom("documentation", "Dokumentation"),
        custom("support", "Support"),
    ];
    assert(entry_texts(entries@) =~= help_menu_text().entries);
    submenu("Hilfe", entries)
}

/// Lays out the menu bar.
pub fn menu_bar() -> (menus: Vec<Submenu>)
    ensures
        submenu_texts(menus@) == menu_bar_text(),
{
    let menus: Vec<Submenu> = vec![app_menu(), file_menu(), edit_menu(), view_menu(), help_menu()];
    assert(submenu_texts(menus@) =~= menu_bar_text());
    menus
}

/// Lays out the tray menu.
pub fn tray_menu() -> (entries: Vec<Entry>)
    ensures
        entry_texts(entries@) == tray_menu_text(),
{
    let entries: Vec<Entry> = vec![
        custom("show", "Anzeigen"),
        native(NativeItem::Separator),
        custom("quit", "Beenden"),
    ];
    assert(entry_texts(entries@) =~= tray_menu_text());
    entries
}

/// Whether `entries` holds an application item with the identifier `id` at
/// position `at`.
pub open spec fn is_item_at(entries: Seq<EntryText>, at: int, id: Seq<char>) -> bool {
    &&& 0 <= at < entries.len()
    &&& entries[at] matches EntryText::Custom { id: found, .. }
    &&& found == id
}

/// Whether the menu bar holds an application item with the identifier `id`.
pub open spec fn bar_has_item(id: Seq<char>) -> bool {
    exists|menu: int, at: int|
        0 <= menu < menu_bar_text().len() && #[trigger] is_item_at(
            menu_bar_text()[menu].entries,
            at,
            id,
        )
}

/// Whether the tray menu holds an application item with the identifier `id`.
pub open spec fn tray_has_item(id: Seq<char>) -> bool {
    exists|at: int| #[trigger] is_item_at(tray_menu_text(), at, id)
}

/// Every identifier that is routed to the interface belongs to an item of the
/// menu bar.
pub proof fn lemma_routed_items_are_on_the_bar(id: Seq<char>)
    requires
        emission_for(id) is Some,
    ensures
        bar_has_item(id),
{
    let bar = menu_bar_text();
    if id == "new_project"@ {
        assert(is_item_at(bar[1].entries, 0, id));
    } else if id == "open_project"@ {
        assert(is_item_at(bar[1].entries, 1, id));
    } else if id == "save_project"@ {
        assert(is_item_at(bar[1].entries, 2, id));
    } else if id == "export_pdf"@ {
        assert(is_item_at(bar[1].entries, 4, id));
    } else if id == "about"@ {
        assert(is_item_at(bar[4].entries, 0, id));
    } else if id == "input_view"@ {
        assert(is_item_at(bar[3].entries, 0, id));
    } else if id == "analysis_view"@ {
        assert(is_item_at(bar[3].entries, 1, id));
    } else if id == "pdf_view"@ {
        assert(is_item_at(bar[3].entries, 2, id));
    } else if id == "admin_view"@ {
        assert(is_item_at(bar[3].entries, 3, id));
    } else if id == "crm_view"@ {
        assert(is_item_at(bar[3].entries, 4, id));
    } else if id == "documentation"@ {
        assert(is_item_at(bar[4].entries, 1, id));
    } else {
        assert(id == "support"@);
        assert(is_item_at(bar[4].entries, 2, id));
    }
}

/// Every item of the menu bar is routed to the interface: a click on it sends
/// an event.
pub proof fn lemma_bar_items_are_routed(id: Seq<char>)
    requires
        bar_has_item(id),
    ensures
        emission_for(id) is Some,
{
    let (menu, at) = choose|menu: int, at: int|
        0 <= menu < menu_bar_text().len() && #[trigger] is_item_at(
            menu_bar_text()[menu].entries,
            at,
            id,
        );
    let entries = menu_bar_text()[menu].entries;
    assert(is_item_at(entries, at, id));
}

/// No identifier is used twice on the menu bar: an identifier settles the
/// menu and the position of its item.
pub proof fn lemma_bar_items_are_distinct(
    id: Seq<char>,
    menu: int,
    at: int,
    other_menu: int,
    other_at: int,
)
    requires
        0 <= menu < menu_bar_text().len(),
        0 <= other_menu < menu_bar_text().len(),
        is_item_at(menu_bar_text()[menu].entries, at, id),
        is_item_at(menu_bar_text()[other_menu].entries, other_at, id),
    ensures
        menu == other_menu,
        at == other_at,
{
    lemma_routing_texts();
    assert("documentation"@[0] == 'd' && "support"@[1] == 'u');
    assert("new_project"@[0] == 'n' && "open_project"@[0] == 'o' && "save_project"@[0] == 's');
    assert("export_pdf"@[0] == 'e' && "about"@[1] == 'b');
    assert("input_view"@[0] == 'i' && "analysis_view"@[1] == 'n' && "pdf_view"@[0] == 'p');
    assert("admin_view"@[1] == 'd' && "crm_view"@[0] == 'c');
}

/// The tray menu holds exactly the items that send an event, and exactly the
/// items that the shell reacts to.
pub proof fn lemma_tray_items_react(id: Seq<char>)
    ensures
        tray_has_item(id) <==> tray_emission_for(id) is Some,
        tray_has_item(id) <==> item_reaction(id) != TrayReaction::Ignore,
{
    if item_reaction(id) != TrayReaction::Ignore {
        if id == "quit"@ {
            assert(is_item_at(tray_menu_text(), 2, id));
        } else {
            assert(is_item_at(tray_menu_text(), 0, id));
        }
    }
}

} // verus!
