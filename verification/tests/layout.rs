use solar_configurator::events::menu_emission;
use solar_configurator::menu::{app_name, menu_bar, tray_menu, Entry, NativeItem};
use solar_configurator::tray::{tray_emission, tray_item_reaction, TrayReaction};

fn custom(id: &str, title: &str) -> Entry {
    Entry::Custom { id: id.to_string(), title: title.to_string() }
}

fn bar_ids() -> Vec<String> {
    let mut ids = Vec::new();
    for menu in menu_bar() {
        for entry in menu.entries {
            if let Entry::Custom { id, .. } = entry {
                ids.push(id);
            }
        }
    }
    ids
}

#[test]
fn menu_bar_titles() {
    let titles: Vec<String> = menu_bar().into_iter().map(|menu| menu.title).collect();
    assert_eq!(titles, vec!["Solar Configurator", "Datei", "Bearbeiten", "Ansicht", "Hilfe"]);
    assert_eq!(app_name(), "Solar Configurator");
}

#[test]
fn application_menu_entries() {
    let bar = menu_bar();
    assert_eq!(
        bar[0].entries,
        vec![
            Entry::Native(NativeItem::About),
            Entry::Native(NativeItem::Separator),
            Entry::Native(NativeItem::Services),
            Entry::Native(NativeItem::Separator),
            Entry::Native(NativeItem::Hide),
            Entry::Native(NativeItem::HideOthers),
            Entry::Native(NativeItem::ShowAll),
            Entry::Native(NativeItem::Separator),
            Entry::Native(NativeItem::Quit),
        ]
    );
}

#[test]
fn file_menu_entries() {
    let bar = menu_bar();
    assert_eq!(
        bar[1].entries,
        vec![
            custom("new_project", "Neues Projekt"),
            custom("open_project", "Projekt \u{f6}ffnen"),
            custom("save_project", "Projekt speichern"),
            Entry::Native(NativeItem::Separator),
            custom("export_pdf", "PDF exportieren"),
            Entry::Native(NativeItem::Separator),
            Entry::Native(NativeItem::Quit),
        ]
    );
}

#[test]
fn edit_menu_entries() {
    let bar = menu_bar();
    assert_eq!(
        bar[2].entries,
        vec![
            Entry::Native(NativeItem::Undo),
            Entry::Native(NativeItem::Redo),
            Entry::Native(NativeItem::Separator),
            Entry::Native(NativeItem::Cut),
            Entry::Native(NativeItem::Copy),
            Entry::Native(NativeItem::Paste),
            Entry::Native(NativeItem::SelectAll),
        ]
    );
}

#[test]
fn view_menu_entries() {
    let bar = menu_bar();
    assert_eq!(
        bar[3].entries,
        vec![
            custom("input_view", "Eingabe"),
            custom("analysis_view", "Analyse"),
            custom("pdf_view", "PDF-Generierung"),
            custom("admin_view", "Administration"),
            custom("crm_view", "CRM"),
        ]
    );
}

#[test]
fn help_menu_entries() {
    let bar = menu_bar();
    assert_eq!(
        bar[4].entries,
        vec![
            custom("about", "\u{dc}ber Solar Configurator"),
            custom("documentation", "Dokumentation"),
            custom("support", "Support"),
        ]
    );
}

#[test]
fn tray_menu_entries() {
    assert_eq!(
        tray_menu(),
        vec![
            custom("show", "Anzeigen"),
            Entry::Native(NativeItem::Separator),
            custom("quit", "Beenden"),
        ]
    );
}

#[test]
fn no_identifier_is_used_twice_on_the_bar() {
    let ids = bar_ids();
    assert_eq!(ids.len(), 12);
    for (i, a) in ids.iter().enumerate() {
        for (j, b) in ids.iter().enumerate() {
            assert_eq!(a == b, i == j);
        }
    }
}

#[test]
fn every_bar_item_is_routed() {
    let unrouted: Vec<String> =
        bar_ids().into_iter().filter(|id| menu_emission(id).is_none()).collect();
    assert_eq!(unrouted, Vec::<String>::new());
}

#[test]
fn the_tray_reacts_to_each_of_its_items() {
    for entry in tray_menu() {
        if let Entry::Custom { id, .. } = entry {
            assert_ne!(tray_item_reaction(&id), TrayReaction::Ignore);
            assert!(tray_emission(&id).is_some());
        }
    }
}
