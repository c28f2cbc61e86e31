use mymc_gtk::bridge::{
    delete_save, export_save, field_value, get_free_space, import_save, list_saves,
    missing_key_error, path_lists, BridgeError, FieldLookup, SaveEntry,
};
use mymc_gtk::jobs::{Job, UiEvent};
use pyo3::types::PyAnyMethods;
use pyo3::Python;

const WORKDIR: &str = "/nonexistent/mymc-bridge-tests";

/// Registers a stand-in for `python_core.api` in `sys.modules`, with a few
/// cards whose names choose how the functions behave.
fn install_fake_api() {
    Python::attach(|py| {
        py.run(
            c"
import sys, types
if 'python_core.api' not in sys.modules:
    pkg = types.ModuleType('python_core')
    pkg.__path__ = []
    api = types.ModuleType('python_core.api')
    code = '''
CARDS = {
    'empty.ps2': [],
    'two.ps2': [
        {'directory': 'BASLUS-20001', 'size': 8192, 'modified': 1700000000,
         'description': 'Game One', 'protection': 'none'},
        {'directory': 'BESLES-50002', 'size': -2048, 'modified': -5,
         'description': 'Game Two', 'protection': 'copy'},
    ],
    'missing.ps2': [{'directory': 'X', 'size': 1, 'modified': 2, 'description': 'd'}],
    'badsize.ps2': [{'directory': 'X', 'size': 'big', 'modified': 2, 'description': 'd', 'protection': 'p'}],
    'notdict.ps2': [5],
}
CALLS = []
def list_saves(card):
    if card == 'notalist.ps2':
        return 7
    if card not in CARDS:
        raise FileNotFoundError('no card ' + card)
    return CARDS[card]
def get_free_space(card):
    if card == 'badfree.ps2':
        return 'lots'
    if card not in CARDS:
        raise FileNotFoundError('no card ' + card)
    return 1048576
def import_save(card, save, dest, ignore):
    CALLS.append(('import', card, save, dest, ignore))
    if save == 'broken.psu':
        raise ValueError('bad save file')
def export_save(card, dirname, out, fmt):
    CALLS.append(('export', card, dirname, out, fmt))
    if dirname == 'ABSENT':
        raise KeyError(dirname)
    return out if out is not None else dirname + '.' + fmt
def delete_save(card, dirname):
    CALLS.append(('delete', card, dirname))
    if dirname == 'ABSENT':
        raise KeyError(dirname)
'''
    exec(code, api.__dict__)
    pkg.api = api
    sys.modules['python_core'] = pkg
    sys.modules['python_core.api'] = api
",
            None,
            None,
        )
        .unwrap();
    });
}

fn python_text(r: &BridgeError) -> String {
    match r {
        BridgeError::Python(m) => m.clone(),
        BridgeError::System(m) => panic!("unexpected system error {}", m),
    }
}

fn recorded_calls() -> String {
    Python::attach(|py| {
        let api = py.import("python_core.api").unwrap();
        let calls = api.getattr("CALLS").unwrap();
        calls.repr().unwrap().extract::<String>().unwrap()
    })
}

#[test]
fn lists_no_saves_of_an_empty_card() {
    install_fake_api();
    let list = list_saves("empty.ps2", WORKDIR).expect("list saves");
    assert!(list.is_empty());
}

#[test]
fn lists_every_row_in_order() {
    install_fake_api();
    let list: Vec<SaveEntry> = list_saves("two.ps2", WORKDIR).unwrap();
    assert_eq!(list.len(), 2);
    assert_eq!(list[0].directory, "BASLUS-20001");
    assert_eq!(list[0].size, 8192);
    assert_eq!(list[0].modified, 1700000000);
    assert_eq!(list[0].description, "Game One");
    assert_eq!(list[0].protection, "none");
    assert_eq!(list[1].directory, "BESLES-50002");
    assert_eq!(list[1].size, -2048);
    assert_eq!(list[1].modified, -5);
    assert_eq!(list[1].protection, "copy");
}

#[test]
fn a_row_without_a_key_is_refused() {
    install_fake_api();
    let err = list_saves("missing.ps2", WORKDIR).unwrap_err();
    assert_eq!(python_text(&err), "missing key: protection");
}

#[test]
fn a_field_of_the_wrong_type_is_a_python_error() {
    install_fake_api();
    let err = list_saves("badsize.ps2", WORKDIR).unwrap_err();
    assert!(!python_text(&err).is_empty());
    let err = list_saves("notdict.ps2", WORKDIR).unwrap_err();
    assert!(!python_text(&err).is_empty());
    let err = list_saves("notalist.ps2", WORKDIR).unwrap_err();
    assert!(!python_text(&err).is_empty());
}

#[test]
fn python_exceptions_come_back_with_their_text() {
    install_fake_api();
    let err = list_saves("absent.ps2", WORKDIR).unwrap_err();
    assert_eq!(python_text(&err), "no card absent.ps2");
    let err = get_free_space("absent.ps2", WORKDIR).unwrap_err();
    assert_eq!(python_text(&err), "no card absent.ps2");
}

#[test]
fn reads_the_free_space() {
    install_fake_api();
    assert_eq!(get_free_space("two.ps2", WORKDIR).unwrap(), 1048576);
    assert!(get_free_space("badfree.ps2", WORKDIR).is_err());
}

#[test]
fn working_dir_is_put_on_sys_path_once() {
    install_fake_api();
    let dir = "/nonexistent/mymc-path-check";
    list_saves("empty.ps2", dir).unwrap();
    get_free_space("empty.ps2", dir).unwrap();
    let count = Python::attach(|py| {
        let path: Vec<String> = py.import("sys").unwrap().getattr("path").unwrap().extract().unwrap();
        path.iter().filter(|p| p.as_str() == dir).count()
    });
    assert_eq!(count, 1);
}

#[test]
fn import_hands_on_its_arguments() {
    install_fake_api();
    import_save("two.ps2", "/saves/a.psu", Some("DEST"), true, WORKDIR).unwrap();
    assert!(recorded_calls().contains("('import', 'two.ps2', '/saves/a.psu', 'DEST', True)"));
    let err = import_save("two.ps2", "broken.psu", None, false, WORKDIR).unwrap_err();
    assert_eq!(python_text(&err), "bad save file");
}

#[test]
fn export_returns_the_written_path() {
    install_fake_api();
    assert_eq!(export_save("two.ps2", "BASLUS-20001", Some("/out/x.psu"), "psu", WORKDIR).unwrap(), "/out/x.psu");
    assert!(recorded_calls().contains("('export', 'two.ps2', 'BASLUS-20001', '/out/x.psu', 'psu')"));
    assert_eq!(export_save("two.ps2", "BASLUS-20001", None, "psu", WORKDIR).unwrap(), "BASLUS-20001.psu");
    let err = export_save("two.ps2", "ABSENT", None, "psu", WORKDIR).unwrap_err();
    assert_eq!(python_text(&err), "'ABSENT'");
}

#[test]
fn delete_reports_python_failures() {
    install_fake_api();
    delete_save("two.ps2", "BASLUS-20001", WORKDIR).unwrap();
    let err = delete_save("two.ps2", "ABSENT", WORKDIR).unwrap_err();
    assert_eq!(python_text(&err), "'ABSENT'");
}

#[test]
fn jobs_run_through_the_bridge() {
    install_fake_api();
    let out = Job::Load { card: "two.ps2".to_string() }.run(WORKDIR);
    assert!(matches!(&out.event, UiEvent::Loaded { entries, free_space }
        if entries.len() == 2 && *free_space == 1048576));
    let out = Job::Load { card: "absent.ps2".to_string() }.run(WORKDIR);
    assert!(matches!(&out.event, UiEvent::Error(m) if m == "no card absent.ps2"));
    let out = Job::Delete { card: "two.ps2".to_string(), dirname: "BASLUS-20001".to_string() }.run(WORKDIR);
    assert!(matches!(&out.event, UiEvent::Info(m) if m == "Delete completed."));
    assert!(matches!(&out.next, Some(Job::Load { card }) if card == "two.ps2"));
    let out = Job::Export {
        card: "two.ps2".to_string(),
        dirname: "BASLUS-20001".to_string(),
        output: "/out/y.psu".to_string(),
    }
    .run(WORKDIR);
    assert!(matches!(&out.event, UiEvent::Info(m) if m == "Exported to /out/y.psu"));
    assert!(recorded_calls().contains("('export', 'two.ps2', 'BASLUS-20001', '/out/y.psu', 'psu')"));
    assert!(recorded_calls().contains("('delete', 'two.ps2', 'BASLUS-20001')"));
    let out = Job::Import { card: "two.ps2".to_string(), save_path: "broken.psu".to_string() }.run(WORKDIR);
    assert!(matches!(&out.event, UiEvent::Error(m) if m == "bad save file"));
    assert!(out.next.is_none());
}

#[test]
fn job_import_uses_no_destination_and_keeps_existing() {
    install_fake_api();
    let out = Job::Import { card: "two.ps2".to_string(), save_path: "/saves/b.psu".to_string() }.run(WORKDIR);
    assert!(matches!(&out.event, UiEvent::Info(m) if m == "Import completed."));
    assert!(recorded_calls().contains("('import', 'two.ps2', '/saves/b.psu', None, False)"));
}

#[test]
fn field_lookups_decide_the_error() {
    assert!(matches!(field_value::<i64>("size", FieldLookup::Present(3)), Ok(3)));
    assert_eq!(python_text(&field_value::<i64>("size", FieldLookup::Absent).unwrap_err()), "missing key: size");
    assert_eq!(
        python_text(&field_value::<String>("d", FieldLookup::LookupFailed("boom".to_string())).unwrap_err()),
        "boom"
    );
    assert_eq!(
        python_text(&field_value::<String>("d", FieldLookup::Unconvertible("not a str".to_string())).unwrap_err()),
        "not a str"
    );
    assert_eq!(python_text(&missing_key_error("directory")), "missing key: directory");
}

#[test]
fn path_check_matches_whole_entries() {
    let items = vec![Some("/a".to_string()), None, Some("/b/c".to_string())];
    assert!(path_lists(&items, "/b/c"));
    assert!(!path_lists(&items, "/b"));
    assert!(!path_lists(&vec![], "/a"));
}

#[test]
fn error_message_is_the_bare_text() {
    assert_eq!(BridgeError::Python("x".to_string()).message(), "x");
    assert_eq!(BridgeError::System("y".to_string()).message(), "y");
}
