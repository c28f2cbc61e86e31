use mymc_gtk::bridge::SaveEntry;
use mymc_gtk::jobs::{Job, UiEvent};
use mymc_gtk::window::{selected_directory, Action, Column, Input, Window};

fn entry(dir: &str, size: i64, modified: i64) -> SaveEntry {
    SaveEntry {
        directory: dir.to_string(),
        size,
        modified,
        description: format!("{} description", dir),
        protection: "0x8427".to_string(),
    }
}

const NONE_SELECTED: u32 = u32::MAX;

fn loaded_window(card: &str) -> Window {
    let mut w = Window::new();
    let a = w.handle(Input::CardChosen { path: Some(card.to_string()), position: NONE_SELECTED });
    assert!(matches!(a, Action::Start(Job::Load { card: c }) if c == card));
    let a = w.handle(Input::Received(UiEvent::Loaded {
        entries: vec![entry("BASLUS-20001", 8192, 10), entry("BESLES-50002", 1023, 20)],
        free_space: 123456,
    }));
    assert!(matches!(a, Action::ShowEntries));
    w
}

fn consistent(w: &Window) -> bool {
    w.import_enabled() == w.current_card().is_some()
        && w.export_enabled() == w.delete_enabled()
        && (!w.export_enabled() || w.current_card().is_some())
}

#[test]
fn new_window_asks_for_a_card() {
    let w = Window::new();
    assert_eq!(w.status(), "Open a memory card image.");
    assert!(w.current_card().is_none());
    assert!(!w.import_enabled() && !w.export_enabled() && !w.delete_enabled());
    assert!(w.entries().is_empty());
}

#[test]
fn open_button_opens_the_card_dialog() {
    let mut w = Window::new();
    assert!(matches!(w.handle(Input::OpenClicked), Action::ChooseCard));
}

#[test]
fn choosing_a_card_enables_import_and_loads_it() {
    let mut w = Window::new();
    let a = w.handle(Input::CardChosen { path: Some("/cards/a.ps2".to_string()), position: NONE_SELECTED });
    assert!(matches!(a, Action::Start(Job::Load { card }) if card == "/cards/a.ps2"));
    assert_eq!(w.current_card(), Some("/cards/a.ps2".to_string()));
    assert!(w.import_enabled());
    assert!(!w.export_enabled() && !w.delete_enabled());
}

#[test]
fn a_card_without_local_path_is_ignored() {
    let mut w = Window::new();
    assert!(matches!(w.handle(Input::CardChosen { path: None, position: 0 }), Action::Nothing));
    assert!(w.current_card().is_none());
}

#[test]
fn import_without_card_asks_to_open_one() {
    let mut w = Window::new();
    let a = w.handle(Input::ImportClicked);
    assert!(matches!(a, Action::Notify(UiEvent::Info(m)) if m == "Open a card first."));
}

#[test]
fn import_after_opening_targets_the_open_card() {
    let mut w = loaded_window("/cards/b.ps2");
    let a = w.handle(Input::ImportClicked);
    assert!(matches!(a, Action::ChooseSaveFile { card } if card == "/cards/b.ps2"));
    let a = w.handle(Input::SaveFileChosen {
        card: "/cards/b.ps2".to_string(),
        path: Some("/saves/x.psu".to_string()),
    });
    assert!(matches!(a, Action::Start(Job::Import { card, save_path })
        if card == "/cards/b.ps2" && save_path == "/saves/x.psu"));
    let a = w.handle(Input::SaveFileChosen { card: "/cards/b.ps2".to_string(), path: None });
    assert!(matches!(a, Action::Nothing));
}

#[test]
fn loaded_card_shows_saves_and_free_space() {
    let w = loaded_window("/cards/c.ps2");
    assert_eq!(w.status(), "Free space: 123456 bytes");
    assert_eq!(w.entries().len(), 2);
    assert_eq!(w.entries()[1].directory, "BESLES-50002");
}

#[test]
fn selection_enables_export_and_delete() {
    let mut w = loaded_window("/cards/d.ps2");
    assert!(matches!(w.handle(Input::SelectionChanged { position: 1 }), Action::Nothing));
    assert!(w.export_enabled() && w.delete_enabled());
    w.handle(Input::SelectionChanged { position: NONE_SELECTED });
    assert!(!w.export_enabled() && !w.delete_enabled());
    w.handle(Input::SelectionChanged { position: 2 });
    assert!(!w.export_enabled());
}

#[test]
fn selection_without_card_enables_nothing() {
    let mut w = Window::new();
    w.handle(Input::SelectionChanged { position: 0 });
    assert!(!w.export_enabled() && !w.delete_enabled());
}

#[test]
fn export_proposes_the_save_name_with_psu() {
    let mut w = loaded_window("/cards/e.ps2");
    let a = w.handle(Input::ExportClicked { position: 0 });
    assert!(matches!(a, Action::ChooseExportTarget { card, dirname, suggested_name }
        if card == "/cards/e.ps2" && dirname == "BASLUS-20001" && suggested_name == "BASLUS-20001.psu"));
    let a = w.handle(Input::ExportTargetChosen {
        card: "/cards/e.ps2".to_string(),
        dirname: "BASLUS-20001".to_string(),
        path: Some("/out/x.psu".to_string()),
    });
    assert!(matches!(a, Action::Start(Job::Export { card, dirname, output })
        if card == "/cards/e.ps2" && dirname == "BASLUS-20001" && output == "/out/x.psu"));
}

#[test]
fn export_and_delete_need_a_selection() {
    let mut w = loaded_window("/cards/f.ps2");
    let a = w.handle(Input::ExportClicked { position: NONE_SELECTED });
    assert!(matches!(a, Action::Notify(UiEvent::Info(m)) if m == "Select a save first."));
    let a = w.handle(Input::DeleteClicked { position: 5 });
    assert!(matches!(a, Action::Notify(UiEvent::Info(m)) if m == "Select a save first."));
}

#[test]
fn export_and_delete_without_card_do_nothing() {
    let mut w = Window::new();
    assert!(matches!(w.handle(Input::ExportClicked { position: 0 }), Action::Nothing));
    assert!(matches!(w.handle(Input::DeleteClicked { position: 0 }), Action::Nothing));
}

#[test]
fn delete_targets_the_selected_save_of_the_open_card() {
    let mut w = loaded_window("/cards/g.ps2");
    let a = w.handle(Input::DeleteClicked { position: 1 });
    assert!(matches!(a, Action::Start(Job::Delete { card, dirname })
        if card == "/cards/g.ps2" && dirname == "BESLES-50002"));
}

#[test]
fn job_events_set_the_status_line() {
    let mut w = loaded_window("/cards/h.ps2");
    w.handle(Input::Received(UiEvent::Busy("Importing save...".to_string())));
    assert_eq!(w.status(), "Importing save...");
    w.handle(Input::Received(UiEvent::Info("Import completed.".to_string())));
    assert_eq!(w.status(), "Import completed.");
    let a = w.handle(Input::Received(UiEvent::Error("card is full".to_string())));
    assert!(matches!(a, Action::Nothing));
    assert_eq!(w.status(), "Error: card is full");
    assert_eq!(w.entries().len(), 2);
    assert_eq!(w.current_card(), Some("/cards/h.ps2".to_string()));
}

#[test]
fn dialog_failures_are_reported_as_errors() {
    let mut w = Window::new();
    let a = w.handle(Input::DialogFailed { message: "Dismissed by user".to_string() });
    assert!(matches!(a, Action::Notify(UiEvent::Error(m)) if m == "Dismissed by user"));
}

#[test]
fn buttons_stay_consistent_through_a_session() {
    let mut w = Window::new();
    let inputs = vec![
        Input::SelectionChanged { position: 0 },
        Input::ImportClicked,
        Input::CardChosen { path: Some("/c1.ps2".to_string()), position: NONE_SELECTED },
        Input::Received(UiEvent::Loaded { entries: vec![entry("A", 1, 1)], free_space: 0 }),
        Input::SelectionChanged { position: 0 },
        Input::Received(UiEvent::Busy("Deleting A...".to_string())),
        Input::CardChosen { path: Some("/c2.ps2".to_string()), position: NONE_SELECTED },
        Input::SelectionChanged { position: 3 },
        Input::DeleteClicked { position: 0 },
    ];
    assert!(consistent(&w));
    for input in inputs {
        w.handle(input);
        assert!(consistent(&w));
    }
    assert_eq!(w.current_card(), Some("/c2.ps2".to_string()));
}

#[test]
fn selected_directory_reads_the_list() {
    let entries = vec![entry("A", 0, 0), entry("B", 0, 0)];
    assert_eq!(selected_directory(&entries, 1), Some("B".to_string()));
    assert_eq!(selected_directory(&entries, 2), None);
    assert_eq!(selected_directory(&entries, u32::MAX), None);
}

#[test]
fn columns_render_the_fields() {
    let e = entry("BASLUS-20001", 8192, 1700000000);
    let titles: Vec<&str> = Column::all().into_iter().map(|c| c.title()).collect();
    assert_eq!(titles, vec!["Directory", "Size", "Modified", "Description", "Protection"]);
    assert_eq!(Column::Directory.text(&e), "BASLUS-20001");
    assert_eq!(Column::Size.text(&e), "8 KB");
    assert_eq!(Column::Modified.text(&e), "1700000000");
    assert_eq!(Column::Description.text(&e), "BASLUS-20001 description");
    assert_eq!(Column::Protection.text(&e), "0x8427");
    assert_eq!(Column::Size.text(&entry("X", 1023, 0)), "0 KB");
    assert_eq!(Column::Size.text(&entry("X", -4096, -7)), "-4 KB");
    assert_eq!(Column::Modified.text(&entry("X", 0, -7)), "-7");
}
