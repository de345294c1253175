use solar_configurator::events::{menu_emission, Channel, Emission};
use solar_configurator::text::same_text;
use solar_configurator::tray::{
    main_window_label, tray_emission, tray_item_reaction, tray_reaction, TrayEvent, TrayReaction,
};

fn sent(id: &str) -> (Channel, String) {
    match menu_emission(id) {
        Some(Emission { channel, payload }) => (channel, payload),
        None => panic!("no event for {}", id),
    }
}

#[test]
fn same_text_compares_contents() {
    assert!(same_text("", ""));
    assert!(same_text("about", "about"));
    assert!(!same_text("about", "abouT"));
    assert!(!same_text("about", "about "));
    assert!(!same_text("pdf", "pdf_view"));
    assert!(same_text("Projekt \u{f6}ffnen", "Projekt \u{f6}ffnen"));
    assert!(!same_text("\u{f6}", "o"));
}

#[test]
fn project_commands_are_sent_as_actions() {
    assert_eq!(sent("new_project"), (Channel::MenuAction, "new_project".to_string()));
    assert_eq!(sent("open_project"), (Channel::MenuAction, "open_project".to_string()));
    assert_eq!(sent("save_project"), (Channel::MenuAction, "save_project".to_string()));
    assert_eq!(sent("about"), (Channel::MenuAction, "about".to_string()));
}

#[test]
fn export_pdf_is_an_action_and_no_navigation() {
    let (channel, payload) = sent("export_pdf");
    assert_eq!(channel, Channel::MenuAction);
    assert_ne!(channel, Channel::Navigate);
    assert_eq!(payload, "export_pdf");
    assert_eq!(channel.name(), "menu_action");
}

#[test]
fn view_items_navigate_to_their_paths() {
    assert_eq!(sent("input_view"), (Channel::Navigate, "/input".to_string()));
    assert_eq!(sent("analysis_view"), (Channel::Navigate, "/analysis".to_string()));
    assert_eq!(sent("pdf_view"), (Channel::Navigate, "/pdf".to_string()));
    assert_eq!(sent("admin_view"), (Channel::Navigate, "/admin".to_string()));
    assert_eq!(sent("crm_view"), (Channel::Navigate, "/crm".to_string()));
}

#[test]
fn help_items_are_sent_as_actions() {
    assert_eq!(sent("documentation"), (Channel::MenuAction, "documentation".to_string()));
    assert_eq!(sent("support"), (Channel::MenuAction, "support".to_string()));
}

#[test]
fn texts_that_name_no_item_send_nothing() {
    assert_eq!(menu_emission(""), None);
    assert_eq!(menu_emission("Documentation"), None);
    assert_eq!(menu_emission("support "), None);
    assert_eq!(menu_emission("quit"), None);
    assert_eq!(menu_emission("show"), None);
    assert_eq!(menu_emission("Export_pdf"), None);
    assert_eq!(menu_emission("export_pdf "), None);
    assert_eq!(menu_emission("/input"), None);
    assert_eq!(menu_emission("input"), None);
}

#[test]
fn channel_names() {
    assert_eq!(Channel::MenuAction.name(), "menu_action");
    assert_eq!(Channel::Navigate.name(), "navigate");
}

#[test]
fn routing_is_one_to_one() {
    let ids = vec![
        "new_project",
        "open_project",
        "save_project",
        "export_pdf",
        "about",
        "documentation",
        "support",
        "input_view",
        "analysis_view",
        "pdf_view",
        "admin_view",
        "crm_view",
    ];
    for (i, a) in ids.iter().enumerate() {
        for (j, b) in ids.iter().enumerate() {
            assert_eq!(sent(a) == sent(b), i == j);
        }
    }
}

#[test]
fn routing_is_fixed() {
    assert_eq!(menu_emission("pdf_view"), menu_emission("pdf_view"));
    assert_eq!(menu_emission("about"), menu_emission("about"));
}

#[test]
fn tray_items() {
    assert_eq!(tray_item_reaction("quit"), TrayReaction::Quit);
    assert_eq!(tray_item_reaction("show"), TrayReaction::ShowWindow);
    assert_eq!(tray_item_reaction("hide"), TrayReaction::Ignore);
    assert_eq!(tray_item_reaction(""), TrayReaction::Ignore);
    assert_eq!(tray_item_reaction("Quit"), TrayReaction::Ignore);
    assert_eq!(tray_item_reaction("export_pdf"), TrayReaction::Ignore);
}

#[test]
fn tray_items_send_one_event_each() {
    assert_eq!(
        tray_emission("show"),
        Some(Emission { channel: Channel::MenuAction, payload: "show".to_string() })
    );
    assert_eq!(
        tray_emission("quit"),
        Some(Emission { channel: Channel::MenuAction, payload: "quit".to_string() })
    );
    assert_ne!(tray_emission("show"), tray_emission("quit"));
    assert_eq!(tray_emission("show"), tray_emission("show"));
}

#[test]
fn texts_that_name_no_tray_item_send_nothing() {
    assert_eq!(tray_emission(""), None);
    assert_eq!(tray_emission("Show"), None);
    assert_eq!(tray_emission("quit "), None);
    assert_eq!(tray_emission("about"), None);
    assert_eq!(tray_emission("export_pdf"), None);
}

#[test]
fn tray_events() {
    assert_eq!(tray_reaction(&TrayEvent::LeftClick), TrayReaction::ShowWindow);
    assert_eq!(tray_reaction(&TrayEvent::RightClick), TrayReaction::NoteRightClick);
    assert_eq!(tray_reaction(&TrayEvent::DoubleClick), TrayReaction::NoteDoubleClick);
    assert_eq!(tray_reaction(&TrayEvent::Other), TrayReaction::Ignore);
    assert_eq!(tray_reaction(&TrayEvent::MenuItemClick("quit".to_string())), TrayReaction::Quit);
    assert_eq!(
        tray_reaction(&TrayEvent::MenuItemClick("show".to_string())),
        TrayReaction::ShowWindow
    );
    assert_eq!(
        tray_reaction(&TrayEvent::MenuItemClick("about".to_string())),
        TrayReaction::Ignore
    );
}

#[test]
fn tray_notices() {
    assert_eq!(TrayReaction::NoteRightClick.notice(), Some("system tray received a right click"));
    assert_eq!(
        TrayReaction::NoteDoubleClick.notice(),
        Some("system tray received a double click")
    );
    assert_eq!(TrayReaction::ShowWindow.notice(), None);
    assert_eq!(TrayReaction::Quit.notice(), None);
    assert_eq!(TrayReaction::Ignore.notice(), None);
    assert_eq!(main_window_label(), "main");
}
