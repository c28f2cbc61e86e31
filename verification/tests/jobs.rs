use mymc_gtk::bridge::{BridgeError, SaveEntry};
use mymc_gtk::jobs::{delete_outcome, export_outcome, import_outcome, load_outcome, Job, UiEvent};

fn entry(dir: &str) -> SaveEntry {
    SaveEntry {
        directory: dir.to_string(),
        size: 8192,
        modified: 1,
        description: "d".to_string(),
        protection: "p".to_string(),
    }
}

fn is_load_of(job: &Option<Job>, card: &str) -> bool {
    matches!(job, Some(Job::Load { card: c }) if c == card)
}

#[test]
fn busy_messages_name_the_work() {
    let load = Job::Load { card: "/tmp/a.ps2".to_string() };
    assert!(matches!(load.busy_event(), UiEvent::Busy(m) if m == "Loading /tmp/a.ps2..."));
    let import = Job::Import { card: "c".to_string(), save_path: "s.psu".to_string() };
    assert!(matches!(import.busy_event(), UiEvent::Busy(m) if m == "Importing save..."));
    let export = Job::Export { card: "c".to_string(), dirname: "D".to_string(), output: "o".to_string() };
    assert!(matches!(export.busy_event(), UiEvent::Busy(m) if m == "Exporting save..."));
    let delete = Job::Delete { card: "c".to_string(), dirname: "BESLES-1".to_string() };
    assert!(matches!(delete.busy_event(), UiEvent::Busy(m) if m == "Deleting BESLES-1..."));
}

#[test]
fn load_reports_saves_and_free_space() {
    let out = load_outcome(Ok(vec![entry("A"), entry("B")]), Ok(4096));
    assert!(out.next.is_none());
    match out.event {
        UiEvent::Loaded { entries, free_space } => {
            assert_eq!(free_space, 4096);
            assert_eq!(entries.len(), 2);
            assert_eq!(entries[0].directory, "A");
            assert_eq!(entries[1].directory, "B");
        }
        other => panic!("unexpected {:?}", other),
    }
}

#[test]
fn load_reports_the_listing_error_first() {
    let out = load_outcome(
        Err(BridgeError::Python("list failed".to_string())),
        Err(BridgeError::Python("free failed".to_string())),
    );
    assert!(matches!(out.event, UiEvent::Error(m) if m == "list failed"));
    let out = load_outcome(Ok(vec![]), Err(BridgeError::System("free failed".to_string())));
    assert!(matches!(out.event, UiEvent::Error(m) if m == "free failed"));
    assert!(out.next.is_none());
}

#[test]
fn successful_import_reloads_the_card() {
    let card = "/cards/one.ps2".to_string();
    let out = import_outcome(&card, Ok(()));
    assert!(matches!(&out.event, UiEvent::Info(m) if m == "Import completed."));
    assert!(is_load_of(&out.next, "/cards/one.ps2"));
    let out = import_outcome(&card, Err(BridgeError::Python("exists".to_string())));
    assert!(matches!(&out.event, UiEvent::Error(m) if m == "exists"));
    assert!(out.next.is_none());
}

#[test]
fn successful_delete_reloads_the_card() {
    let card = "/cards/two.ps2".to_string();
    let out = delete_outcome(&card, Ok(()));
    assert!(matches!(&out.event, UiEvent::Info(m) if m == "Delete completed."));
    assert!(is_load_of(&out.next, "/cards/two.ps2"));
    let out = delete_outcome(&card, Err(BridgeError::Python("no such save".to_string())));
    assert!(matches!(&out.event, UiEvent::Error(m) if m == "no such save"));
    assert!(out.next.is_none());
}

#[test]
fn export_names_the_written_file() {
    let out = export_outcome(Ok("/home/u/SAVE.psu".to_string()));
    assert!(matches!(&out.event, UiEvent::Info(m) if m == "Exported to /home/u/SAVE.psu"));
    assert!(out.next.is_none());
    let out = export_outcome(Err(BridgeError::Python("disk full".to_string())));
    assert!(matches!(&out.event, UiEvent::Error(m) if m == "disk full"));
}

#[test]
fn unreachable_bridge_fails_the_job() {
    let job = Job::Import { card: "c".to_string(), save_path: "s".to_string() };
    let out = job.failed(&BridgeError::System("No such file or directory".to_string()));
    assert!(matches!(&out.event, UiEvent::Error(m) if m == "No such file or directory"));
    assert!(out.next.is_none());
}
