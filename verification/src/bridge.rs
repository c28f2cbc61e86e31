//! The bridge to the Python module `python_core.api`, which does the work on
//! memory-card images: listing saves, reading the free space, importing,
//! exporting and deleting saves.
//!
//! Each public operation attaches to the interpreter, puts the working
//! directory on `sys.path` when it is not there yet, imports the module, calls
//! the module's function of the same name and converts what it returns. Every
//! failure on the Python side comes back as `BridgeError::Python`.
use vstd::prelude::*;
use pyo3::types::{PyAny, PyDict, PyList, PyModule};
use pyo3::{Bound, PyErr, Python};
use crate::python::{
    call_api, cast_to, dict_get, error_display, exception_str, exception_value,
    extract_i64, extract_string, import_module, list_insert_str, list_items, module_attr,
    string_lossy, with_python,
};
use crate::text::join2;

verus! {

/// One save on a memory card, as `python_core.api.list_saves` describes it.
#[derive(Clone, Debug)]
pub struct SaveEntry {
    pub directory: String,
    pub size: i64,
    pub modified: i64,
    pub description: String,
    pub protection: String,
}

/// A save as the contracts see it.
pub struct SaveEntryView {
    pub directory: Seq<char>,
    pub size: i64,
    pub modified: i64,
    pub description: Seq<char>,
    pub protection: Seq<char>,
}

impl View for SaveEntry {
    type V = SaveEntryView;

    open spec fn view(&self) -> SaveEntryView {
        SaveEntryView {
            directory: self.directory@,
            size: self.size,
            modified: self.modified,
            description: self.description@,
            protection: self.protection@,
        }
    }
}

impl Default for SaveEntry {
    fn default() -> (e: SaveEntry)
        ensures
            e@ == (SaveEntryView {
                directory: Seq::empty(),
                size: 0,
                modified: 0,
                description: Seq::empty(),
                protection: Seq::empty(),
            }),
    {
        SaveEntry {
            directory: String::new(),
            size: 0,
            modified: 0,
            description: String::new(),
            protection: String::new(),
        }
    }
}

/// The sequence of views of a list of saves.
pub open spec fn entries_view(entries: Seq<SaveEntry>) -> Seq<SaveEntryView> {
    entries.map_values(|e: SaveEntry| e@)
}

/// Why an operation on a card failed.
#[derive(Debug)]
pub enum BridgeError {
    /// Python raised an exception, or returned something of the wrong shape;
    /// the text is the exception's message.
    Python(String),
    /// The operating system refused something the bridge needed.
    System(String),
}

impl BridgeError {
    /// The text the error is shown with.
    pub open spec fn text(&self) -> Seq<char> {
        match self {
            BridgeError::Python(m) => m@,
            BridgeError::System(m) => m@,
        }
    }

    /// The text the error is shown with: its message, with nothing around it.
    pub fn message(&self) -> (m: String)
        ensures
            m@ == self.text(),
    {
        match self {
            BridgeError::Python(m) => m.clone(),
            BridgeError::System(m) => m.clone(),
        }
    }
}

/// What looking a key up in a row of `list_saves` gave.
pub enum FieldLookup<T> {
    /// The lookup itself raised; the exception's text.
    LookupFailed(String),
    /// The row has no such key.
    Absent,
    /// The key is there but its value is not of the wanted type; the text of
    /// the conversion's exception.
    Unconvertible(String),
    /// The key is there with a value of the wanted type.
    Present(T),
}

/// The error for a row of `list_saves` that lacks `key`.
pub fn missing_key_error(key: &str) -> (e: BridgeError)
    ensures
        e matches BridgeError::Python(m) && m@ == "missing key: "@ + key@,
{
    BridgeError::Python(join2("missing key: ", key))
}

/// The value of one field of a row, or the error that reading it gives.
pub fn field_value<T>(key: &str, lookup: FieldLookup<T>) -> (r: Result<T, BridgeError>)
    ensures
        match lookup {
            FieldLookup::Present(v) => r == Ok::<T, BridgeError>(v),
            FieldLookup::Absent => r matches Err(BridgeError::Python(m)) && m@
                == "missing key: "@ + key@,
            FieldLookup::LookupFailed(m) => r matches Err(BridgeError::Python(t)) && t@ == m@,
            FieldLookup::Unconvertible(m) => r matches Err(BridgeError::Python(t)) && t@ == m@,
        },
{
    match lookup {
        FieldLookup::Present(v) => Ok(v),
        FieldLookup::Absent => Err(missing_key_error(key)),
        FieldLookup::LookupFailed(m) => Err(BridgeError::Python(m)),
        FieldLookup::Unconvertible(m) => Err(BridgeError::Python(m)),
    }
}

/// Whether an entry of `sys.path`, read as a string when it is one, is `dir`.
pub open spec fn entry_is(item: Option<String>, dir: Seq<char>) -> bool {
    match item {
        Some(s) => s@ == dir,
        None => false,
    }
}

/// Whether `dir` is one of the texts of `sys.path` (items that are not
/// strings are `None` and match nothing).
pub fn path_lists(items: &Vec<Option<String>>, dir: &str) -> (found: bool)
    ensures
        found == exists|i: int| 0 <= i < items@.len() && entry_is(#[trigger] items@[i], dir@),
{
    let wanted = dir.to_owned();
    let mut i: usize = 0;
    while i < items.len()
        invariant
            i <= items@.len(),
            wanted@ == dir@,
            forall|j: int| 0 <= j < i ==> !entry_is(#[trigger] items@[j], dir@),
        decreases items@.len() - i,
    {
        match &items[i] {
            Some(s) => {
                if *s == wanted {
                    return true;
                }
            },
            None => {},
        }
        i = i + 1;
    }
    false
}

/// Where `sys.path` gets `dir` from `ensure_sys_path`: nowhere when some entry
/// already is that text, else at the front.
pub open spec fn insertion_for(items: Seq<Option<String>>, dir: Seq<char>) -> Option<(usize, Seq<char>)> {
    if exists|i: int| 0 <= i < items.len() && entry_is(#[trigger] items[i], dir) {
        None
    } else {
        Some((0usize, dir))
    }
}

/// The insertion `ensure_sys_path` makes into `sys.path`, given the entries it
/// read (as texts where they are strings): none when `dir` is already there,
/// else `dir` at index 0.
pub fn sys_path_insertion(items: &Vec<Option<String>>, dir: &str) -> (ins: Option<(usize, String)>)
    ensures
        match ins {
            None => insertion_for(items@, dir@) is None,
            Some((index, text)) => insertion_for(items@, dir@) == Some((index, text@)),
        },
{
    if path_lists(items, dir) {
        None
    } else {
        Some((0, dir.to_owned()))
    }
}

/// The text of an exception: the `str()` of its value when that worked
/// (`Ok`), else pyo3's rendering of the error (`Err`), which is only made when
/// it is needed.
pub fn error_text(described: Result<String, String>) -> (t: String)
    ensures
        t@ == match described {
            Ok(s) => s@,
            Err(rendered) => rendered@,
        },
{
    match described {
        Ok(s) => s,
        Err(rendered) => rendered,
    }
}

/// The error for a failure on the Python side with the given text.
pub fn python_failure(text: String) -> (e: BridgeError)
    ensures
        e == BridgeError::Python(text),
{
    BridgeError::Python(text)
}

/// A value that came back from Python, or the text of the exception that
/// reading it raised, as a bridge result.
pub fn reply_value<T>(reply: Result<T, String>) -> (r: Result<T, BridgeError>)
    ensures
        match reply {
            Ok(v) => r == Ok::<T, BridgeError>(v),
            Err(m) => r == Err::<T, BridgeError>(BridgeError::Python(m)),
        },
{
    match reply {
        Ok(v) => Ok(v),
        Err(m) => Err(python_failure(m)),
    }
}

/// The fields of a row of `list_saves`, in the order they are read.
#[derive(Clone, Copy, Debug, PartialEq, Eq)]
pub enum Field {
    Directory,
    Size,
    Modified,
    Description,
    Protection,
}

/// The dict key each field is read from.
pub open spec fn field_key_spec(field: Field) -> Seq<char> {
    match field {
        Field::Directory => "directory"@,
        Field::Size => "size"@,
        Field::Modified => "modified"@,
        Field::Description => "description"@,
        Field::Protection => "protection"@,
    }
}

/// The dict key a field is read from.
pub fn field_key(field: Field) -> (k: &'static str)
    ensures
        k@ == field_key_spec(field),
{
    match field {
        Field::Directory => "directory",
        Field::Size => "size",
        Field::Modified => "modified",
        Field::Description => "description",
        Field::Protection => "protection",
    }
}

/// The fields of a row, in the order `list_saves` reads them.
pub open spec fn field_order() -> Seq<Field> {
    seq![Field::Directory, Field::Size, Field::Modified, Field::Description, Field::Protection]
}

/// The fields of a row, in the order they are read.
pub fn fields_in_order() -> (v: Vec<Field>)
    ensures
        v@ == field_order(),
{
    vec![Field::Directory, Field::Size, Field::Modified, Field::Description, Field::Protection]
}

/// Whether a field holds text (the others hold integers).
pub open spec fn is_text_field(field: Field) -> bool {
    !(field is Size || field is Modified)
}

/// Whether a field holds text (the others hold integers).
pub fn field_is_text(field: Field) -> (t: bool)
    ensures
        t == is_text_field(field),
{
    match field {
        Field::Size | Field::Modified => false,
        _ => true,
    }
}

/// A value read for a field of a row.
#[derive(Debug)]
pub enum FieldValue {
    Text(String),
    Int(i64),
}

/// The save `e` with `field` set to `value`; a value of the other kind than
/// the field's leaves `e` as it is.
pub open spec fn with_field(e: SaveEntryView, field: Field, value: FieldValue) -> SaveEntryView {
    match (field, value) {
        (Field::Directory, FieldValue::Text(s)) => SaveEntryView { directory: s@, ..e },
        (Field::Size, FieldValue::Int(n)) => SaveEntryView { size: n, ..e },
        (Field::Modified, FieldValue::Int(n)) => SaveEntryView { modified: n, ..e },
        (Field::Description, FieldValue::Text(s)) => SaveEntryView { description: s@, ..e },
        (Field::Protection, FieldValue::Text(s)) => SaveEntryView { protection: s@, ..e },
        _ => e,
    }
}

/// Whether `value` is of the kind `field` holds.
pub open spec fn value_fits(field: Field, value: FieldValue) -> bool {
    value is Text <==> is_text_field(field)
}

/// Whether `values` has one value per field of `field_order`, each of its
/// field's kind.
pub open spec fn row_values_fit(values: Seq<FieldValue>) -> bool {
    &&& values.len() == field_order().len()
    &&& forall|j: int| 0 <= j < values.len() ==> value_fits(#[trigger] field_order()[j], values[j])
}

/// A save with every text empty and every number zero.
pub open spec fn empty_save() -> SaveEntryView {
    SaveEntryView {
        directory: Seq::empty(),
        size: 0,
        modified: 0,
        description: Seq::empty(),
        protection: Seq::empty(),
    }
}

/// The save that setting, from `empty_save`, each of `fields` in turn to the
/// value at the same place of `values` gives.
pub open spec fn filled(fields: Seq<Field>, values: Seq<FieldValue>) -> SaveEntryView
    decreases fields.len(),
{
    if fields.len() == 0 || values.len() == 0 {
        empty_save()
    } else {
        with_field(filled(fields.drop_last(), values.drop_last()), fields.last(), values.last())
    }
}

/// The text a value holds (empty for a number).
pub open spec fn text_of(value: FieldValue) -> Seq<char> {
    match value {
        FieldValue::Text(s) => s@,
        FieldValue::Int(_) => Seq::empty(),
    }
}

/// The number a value holds (zero for a text).
pub open spec fn int_of(value: FieldValue) -> i64 {
    match value {
        FieldValue::Int(n) => n,
        FieldValue::Text(_) => 0,
    }
}

/// Stores a value read for `field` into its place in `entry`.
pub fn set_field(entry: &mut SaveEntry, field: Field, value: FieldValue)
    ensures
        final(entry)@ == with_field(old(entry)@, field, value),
{
    match (field, value) {
        (Field::Directory, FieldValue::Text(s)) => entry.directory = s,
        (Field::Size, FieldValue::Int(n)) => entry.size = n,
        (Field::Modified, FieldValue::Int(n)) => entry.modified = n,
        (Field::Description, FieldValue::Text(s)) => entry.description = s,
        (Field::Protection, FieldValue::Text(s)) => entry.protection = s,
        _ => {},
    }
}

/// Setting the fields in `field_order`, each to a value of its kind, gives
/// the save made of exactly those values, whatever the save held before: no
/// two fields share a place and every place is filled.
pub proof fn fields_in_order_fill_the_save(
    e: SaveEntryView,
    directory: String,
    size: i64,
    modified: i64,
    description: String,
    protection: String,
)
    ensures
        ({
            let o = field_order();
            with_field(
                with_field(
                    with_field(
                        with_field(with_field(e, o[0], FieldValue::Text(directory)), o[1], FieldValue::Int(size)),
                        o[2],
                        FieldValue::Int(modified),
                    ),
                    o[3],
                    FieldValue::Text(description),
                ),
                o[4],
                FieldValue::Text(protection),
            )
        }) == (SaveEntryView {
            directory: directory@,
            size,
            modified,
            description: description@,
            protection: protection@,
        }),
{
}

/// The values read from a row, one of its kind for each field of
/// `field_order`, fill a save whose every field is the value read for it: the
/// directory is the first value (read from key "directory"), the size the
/// second ("size"), the modification time the third ("modified"), the
/// description the fourth ("description") and the protection the fifth
/// ("protection"), each whole.
pub proof fn filled_save_holds_each_value(values: Seq<FieldValue>)
    requires
        row_values_fit(values),
    ensures
        filled(field_order(), values) == (SaveEntryView {
            directory: text_of(values[0]),
            size: int_of(values[1]),
            modified: int_of(values[2]),
            description: text_of(values[3]),
            protection: text_of(values[4]),
        }),
        field_key_spec(field_order()[0]) == "directory"@,
        field_key_spec(field_order()[1]) == "size"@,
        field_key_spec(field_order()[2]) == "modified"@,
        field_key_spec(field_order()[3]) == "description"@,
        field_key_spec(field_order()[4]) == "protection"@,
{
    let o = field_order();
    assert(value_fits(o[0], values[0]));
    assert(value_fits(o[1], values[1]));
    assert(value_fits(o[2], values[2]));
    assert(value_fits(o[3], values[3]));
    assert(value_fits(o[4], values[4]));
    let v1 = values.take(1);
    let v2 = values.take(2);
    let v3 = values.take(3);
    let v4 = values.take(4);
    assert(v1.drop_last() =~= Seq::<FieldValue>::empty());
    assert(v2.drop_last() =~= v1);
    assert(v3.drop_last() =~= v2);
    assert(v4.drop_last() =~= v3);
    assert(values.drop_last() =~= v4);
    assert(o.take(1).drop_last() =~= Seq::<Field>::empty());
    assert(o.take(2).drop_last() =~= o.take(1));
    assert(o.take(3).drop_last() =~= o.take(2));
    assert(o.take(4).drop_last() =~= o.take(3));
    assert(o.drop_last() =~= o.take(4));
    assert(filled(Seq::<Field>::empty(), Seq::<FieldValue>::empty()) == empty_save());
    let e1 = filled(o.take(1), v1);
    assert(e1 == with_field(empty_save(), o[0], values[0]));
    let e2 = filled(o.take(2), v2);
    assert(e2 == with_field(e1, o[1], values[1]));
    let e3 = filled(o.take(3), v3);
    assert(e3 == with_field(e2, o[2], values[2]));
    let e4 = filled(o.take(4), v4);
    assert(e4 == with_field(e3, o[3], values[3]));
    assert(filled(o, values) == with_field(e4, o[4], values[4]));
}

/// What looking a key up gave, classed: the lookup raised (`Err`, with the
/// exception's text), the key is absent (`Ok(None)`), or it is there and its
/// value converted (`Ok(Some(Ok(v)))`) or did not (`Ok(Some(Err(text)))`).
pub fn field_lookup<T>(got: Result<Option<Result<T, String>>, String>) -> (l: FieldLookup<T>)
    ensures
        match got {
            Err(m) => l == FieldLookup::<T>::LookupFailed(m),
            Ok(None) => l == FieldLookup::<T>::Absent,
            Ok(Some(Ok(v))) => l == FieldLookup::<T>::Present(v),
            Ok(Some(Err(m))) => l == FieldLookup::<T>::Unconvertible(m),
        },
{
    match got {
        Err(m) => FieldLookup::LookupFailed(m),
        Ok(None) => FieldLookup::Absent,
        Ok(Some(Ok(v))) => FieldLookup::Present(v),
        Ok(Some(Err(m))) => FieldLookup::Unconvertible(m),
    }
}

/// Adds the save of a converted row to `saves`; a row that failed leaves
/// `saves` as it was and gives its error, which ends the listing.
pub fn add_row(saves: &mut Vec<SaveEntry>, row: Result<SaveEntry, BridgeError>) -> (stop: Option<BridgeError>)
    ensures
        match row {
            Ok(e) => stop is None && final(saves)@ == old(saves)@.push(e),
            Err(err) => stop == Some(err) && final(saves)@ == old(saves)@,
        },
{
    match row {
        Ok(e) => {
            saves.push(e);
            None
        },
        Err(err) => Some(err),
    }
}

/// The text an entry of `sys.path` is compared by: its string when it
/// converted to one, `None` otherwise.
pub fn path_entry_text<E>(extracted: Result<String, E>) -> (t: Option<String>)
    ensures
        t == match extracted {
            Ok(s) => Some(s),
            Err(_) => None::<String>,
        },
{
    match extracted {
        Ok(s) => Some(s),
        Err(_) => None,
    }
}

/// The module the card work is done by.
pub fn api_module_name() -> (n: &'static str)
    ensures
        n@ == "python_core.api"@,
{
    "python_core.api"
}

/// The module whose `path` lists where modules are imported from.
pub fn sys_module_name() -> (n: &'static str)
    ensures
        n@ == "sys"@,
{
    "sys"
}

/// The attribute of `sys` that lists where modules are imported from.
pub fn sys_path_attr() -> (n: &'static str)
    ensures
        n@ == "path"@,
{
    "path"
}

/// A call of a function of `python_core.api`: its name and its positional
/// arguments, as a tuple.
pub struct ApiCall<A> {
    pub function: &'static str,
    pub args: A,
}

/// The call that lists the saves of a card: `list_saves(card_path)`.
pub fn list_saves_call<'a>(card_path: &'a str) -> (c: ApiCall<(&'a str,)>)
    ensures
        c.function@ == "list_saves"@,
        c.args == (card_path,),
{
    ApiCall { function: "list_saves", args: (card_path,) }
}

/// The call that reads the free space of a card: `get_free_space(card_path)`.
pub fn free_space_call<'a>(card_path: &'a str) -> (c: ApiCall<(&'a str,)>)
    ensures
        c.function@ == "get_free_space"@,
        c.args == (card_path,),
{
    ApiCall { function: "get_free_space", args: (card_path,) }
}

/// The call that imports a save file:
/// `import_save(card_path, save_path, dest_dir, ignore_existing)`.
pub fn import_call<'a>(
    card_path: &'a str,
    save_path: &'a str,
    dest_dir: Option<&'a str>,
    ignore_existing: bool,
) -> (c: ApiCall<(&'a str, &'a str, Option<&'a str>, bool)>)
    ensures
        c.function@ == "import_save"@,
        c.args == (card_path, save_path, dest_dir, ignore_existing),
{
    ApiCall { function: "import_save", args: (card_path, save_path, dest_dir, ignore_existing) }
}

/// The call that exports a save:
/// `export_save(card_path, dirname, output_path, fmt)`.
pub fn export_call<'a>(
    card_path: &'a str,
    dirname: &'a str,
    output_path: Option<&'a str>,
    fmt: &'a str,
) -> (c: ApiCall<(&'a str, &'a str, Option<&'a str>, &'a str)>)
    ensures
        c.function@ == "export_save"@,
        c.args == (card_path, dirname, output_path, fmt),
{
    ApiCall { function: "export_save", args: (card_path, dirname, output_path, fmt) }
}

/// The call that deletes a save: `delete_save(card_path, dirname)`.
pub fn delete_call<'a>(card_path: &'a str, dirname: &'a str) -> (c: ApiCall<(&'a str, &'a str)>)
    ensures
        c.function@ == "delete_save"@,
        c.args == (card_path, dirname),
{
    ApiCall { function: "delete_save", args: (card_path, dirname) }
}

/// The text of a Python exception: `str()` of its value, or pyo3's rendering
/// of the error when `str()` itself raises.
fn py_err_to_string<'py>(py: Python<'py>, err: PyErr) -> String {
    let value = exception_value(&err, py);
    let described = match exception_str(value) {
        Ok(s) => Ok(string_lossy(&s)),
        Err(_) => Err(error_display(&err)),
    };
    error_text(described)
}

/// An outcome of a Python call, with its exception, if any, turned into the
/// exception's text.
fn outcome<'py, T>(py: Python<'py>, got: Result<T, PyErr>) -> (r: Result<T, String>)
    ensures
        got matches Ok(v) ==> r == Ok::<T, String>(v),
        got is Err ==> r is Err,
{
    match got {
        Ok(v) => Ok(v),
        Err(e) => Err(py_err_to_string(py, e)),
    }
}

/// An outcome of a Python call as a bridge result: the value itself, or a
/// `Python` error with the exception's text.
fn bridge_result<'py, T>(py: Python<'py>, got: Result<T, PyErr>) -> (r: Result<T, BridgeError>)
    ensures
        got matches Ok(v) ==> r == Ok::<T, BridgeError>(v),
        got is Err ==> r matches Err(BridgeError::Python(_)),
{
    reply_value(outcome(py, got))
}

/// Puts `working_dir` at the front of `sys.path` unless some entry of it is
/// already that text, so that `python_core` can be imported from there.
fn ensure_sys_path<'py>(py: Python<'py>, working_dir: &str) -> (r: Result<(), BridgeError>)
    ensures
        r matches Err(e) ==> e is Python,
{
    let sys = bridge_result(py, import_module(py, sys_module_name()))?;
    let path_obj = bridge_result(py, module_attr(&sys, sys_path_attr()))?;
    let path = bridge_result(py, cast_to::<PyList>(&path_obj))?;
    let items = list_items(&path);
    let mut texts: Vec<Option<String>> = Vec::new();
    let ghost mut extracted: Seq<Result<String, PyErr>> = Seq::empty();
    let mut i: usize = 0;
    while i < items.len()
        invariant
            i <= items@.len(),
            texts@.len() == i,
            extracted.len() == i,
            forall|j: int| 0 <= j < i ==> #[trigger] texts@[j] == match extracted[j] {
                Ok(s) => Some(s),
                Err(_) => None::<String>,
            },
        decreases items@.len() - i,
    {
        let got = extract_string(&items[i]);
        let ghost g = got;
        texts.push(path_entry_text(got));
        proof {
            extracted = extracted.push(g);
        }
        i = i + 1;
    }
    match sys_path_insertion(&texts, working_dir) {
        None => Ok(()),
        Some((index, text)) => bridge_result(py, list_insert_str(&path, index, text.as_str())),
    }
}

/// The module `python_core.api`, imported with `working_dir` on `sys.path`.
fn api_module<'py>(py: Python<'py>, working_dir: &str) -> (r: Result<Bound<'py, PyModule>, BridgeError>)
    ensures
        r matches Err(e) ==> e is Python,
{
    ensure_sys_path(py, working_dir)?;
    bridge_result(py, import_module(py, api_module_name()))
}

/// Classes what looking a text field up gave: the lookup raised, the key is
/// absent, or the value found is converted to a `String`. The ghost result is
/// what that conversion gave, when it was made.
fn text_lookup<'py>(py: Python<'py>, got: Result<Option<Bound<'py, PyAny>>, PyErr>) -> (r: (
    FieldLookup<String>,
    Ghost<Option<Result<String, PyErr>>>,
))
    ensures
        got is Err ==> r.0 is LookupFailed && r.1@ is None,
        got matches Ok(None) ==> r.0 is Absent && r.1@ is None,
        got matches Ok(Some(_)) ==> r.1@ matches Some(x) && match x {
            Ok(s) => r.0 == FieldLookup::<String>::Present(s),
            Err(_) => r.0 is Unconvertible,
        },
{
    let ghost mut converted: Option<Result<String, PyErr>> = None;
    let classed = match got {
        Err(e) => Err(py_err_to_string(py, e)),
        Ok(None) => Ok(None),
        Ok(Some(item)) => {
            let x = extract_string(&item);
            proof {
                converted = Some(x);
            }
            Ok(Some(outcome(py, x)))
        },
    };
    (field_lookup(classed), Ghost(converted))
}

/// Classes what looking an integer field up gave: the lookup raised, the key
/// is absent, or the value found is converted to an `i64`. The ghost result
/// is what that conversion gave, when it was made.
fn int_lookup<'py>(py: Python<'py>, got: Result<Option<Bound<'py, PyAny>>, PyErr>) -> (r: (
    FieldLookup<i64>,
    Ghost<Option<Result<i64, PyErr>>>,
))
    ensures
        got is Err ==> r.0 is LookupFailed && r.1@ is None,
        got matches Ok(None) ==> r.0 is Absent && r.1@ is None,
        got matches Ok(Some(_)) ==> r.1@ matches Some(x) && match x {
            Ok(n) => r.0 == FieldLookup::<i64>::Present(n),
            Err(_) => r.0 is Unconvertible,
        },
{
    let ghost mut converted: Option<Result<i64, PyErr>> = None;
    let classed = match got {
        Err(e) => Err(py_err_to_string(py, e)),
        Ok(None) => Ok(None),
        Ok(Some(item)) => {
            let x = extract_i64(&item);
            proof {
                converted = Some(x);
            }
            Ok(Some(outcome(py, x)))
        },
    };
    (field_lookup(classed), Ghost(converted))
}

/// Reads `field` from a row: looks its `field_key` up and converts the value
/// to the field's type. The value read is exactly what the conversion gave.
fn read_field<'py>(py: Python<'py>, row: &Bound<'py, PyDict>, field: Field) -> (r: (
    Result<FieldValue, BridgeError>,
    Ghost<Option<Result<FieldValue, PyErr>>>,
))
    ensures
        r.0 matches Ok(v) ==> value_fits(field, v) && r.1@ == Some(Ok::<FieldValue, PyErr>(v)),
        r.0 matches Err(e) ==> e is Python,
{
    let key = field_key(field);
    if field_is_text(field) {
        let (lookup, converted) = text_lookup(py, dict_get(row, key));
        let ghost read: Option<Result<FieldValue, PyErr>> = match converted@ {
            Some(Ok(s)) => Some(Ok(FieldValue::Text(s))),
            Some(Err(e)) => Some(Err(e)),
            None => None,
        };
        match field_value(key, lookup) {
            Ok(s) => (Ok(FieldValue::Text(s)), Ghost(read)),
            Err(e) => (Err(e), Ghost(read)),
        }
    } else {
        let (lookup, converted) = int_lookup(py, dict_get(row, key));
        let ghost read: Option<Result<FieldValue, PyErr>> = match converted@ {
            Some(Ok(n)) => Some(Ok(FieldValue::Int(n))),
            Some(Err(e)) => Some(Err(e)),
            None => None,
        };
        match field_value(key, lookup) {
            Ok(n) => (Ok(FieldValue::Int(n)), Ghost(read)),
            Err(e) => (Err(e), Ghost(read)),
        }
    }
}

/// Builds a save from one row of `list_saves`: the row must be a dict, and its
/// fields are read in `field_order`, each into its place by `set_field`,
/// stopping at the first that fails. The ghost result holds the values read,
/// one per field: the save is the one they fill, and each is exactly what
/// converting the value of that field's key gave.
fn entry_from_row<'py>(py: Python<'py>, row: &Bound<'py, PyAny>) -> (r: (
    Result<SaveEntry, BridgeError>,
    Ghost<Seq<FieldValue>>,
))
    ensures
        r.0 matches Err(e) ==> e is Python,
        r.0 matches Ok(e) ==> row_values_fit(r.1@) && e@ == filled(field_order(), r.1@),
{
    let dict = match bridge_result(py, cast_to::<PyDict>(row)) {
        Ok(d) => d,
        Err(e) => return (Err(e), Ghost(Seq::empty())),
    };
    let order = fields_in_order();
    let mut entry = SaveEntry::default();
    let ghost mut values: Seq<FieldValue> = Seq::empty();
    let mut k: usize = 0;
    while k < order.len()
        invariant
            k <= order@.len(),
            order@ == field_order(),
            values.len() == k,
            forall|j: int| 0 <= j < k ==> value_fits(#[trigger] field_order()[j], values[j]),
            entry@ == filled(field_order().take(k as int), values),
        decreases order@.len() - k,
    {
        let (got, read) = read_field(py, &dict, order[k]);
        let value = match got {
            Ok(v) => v,
            Err(e) => return (Err(e), Ghost(values)),
        };
        proof {
            let ghost before = values;
            values = values.push(value);
            assert(values.drop_last() =~= before);
            assert(field_order().take(k + 1).drop_last() =~= field_order().take(k as int));
        }
        set_field(&mut entry, order[k], value);
        k = k + 1;
    }
    proof {
        assert(field_order().take(5) =~= field_order());
    }
    (Ok(entry), Ghost(values))
}

/// `list_saves` once attached to the interpreter: the rows are converted in
/// order, and the first that fails ends the listing with its error. The ghost
/// result holds the values read from each row: save `i` is the one the values
/// of row `i` fill.
fn list_saves_attached<'py>(py: Python<'py>, card_path: &str, working_dir: &str) -> (r: (
    Result<Vec<SaveEntry>, BridgeError>,
    Ghost<Seq<Seq<FieldValue>>>,
))
    ensures
        r.0 matches Err(e) ==> e is Python,
        r.0 matches Ok(v) ==> v@.len() == r.1@.len() && forall|i: int|
            0 <= i < v@.len() ==> row_values_fit(#[trigger] r.1@[i]) && v@[i]@ == filled(
                field_order(),
                r.1@[i],
            ),
{
    let api = match api_module(py, working_dir) {
        Ok(m) => m,
        Err(e) => return (Err(e), Ghost(Seq::empty())),
    };
    let rows_obj = match bridge_result(py, call_api(&api, list_saves_call(card_path))) {
        Ok(o) => o,
        Err(e) => return (Err(e), Ghost(Seq::empty())),
    };
    let rows = match bridge_result(py, cast_to::<PyList>(&rows_obj)) {
        Ok(l) => l,
        Err(e) => return (Err(e), Ghost(Seq::empty())),
    };
    let items = list_items(&rows);
    let mut saves: Vec<SaveEntry> = Vec::new();
    let ghost mut read: Seq<Seq<FieldValue>> = Seq::empty();
    let mut i: usize = 0;
    while i < items.len()
        invariant
            i <= items@.len(),
            saves@.len() == i,
            read.len() == i,
            forall|j: int|
                0 <= j < i ==> row_values_fit(#[trigger] read[j]) && saves@[j]@ == filled(
                    field_order(),
                    read[j],
                ),
        decreases items@.len() - i,
    {
        let (row, values) = entry_from_row(py, &items[i]);
        if let Some(e) = add_row(&mut saves, row) {
            return (Err(e), Ghost(read));
        }
        proof {
            read = read.push(values@);
        }
        i = i + 1;
    }
    (Ok(saves), Ghost(read))
}

/// Lists the saves on the card image at `card_path`, one per row that
/// `python_core.api.list_saves` returns, in its order. `working_dir` is the
/// directory `python_core` is imported from.
pub fn list_saves(card_path: &str, working_dir: &str) -> (r: Result<Vec<SaveEntry>, BridgeError>)
    ensures
        r matches Err(e) ==> e is Python,
{
    with_python(
        (|py: Python| -> (r: Result<Vec<SaveEntry>, BridgeError>)
            ensures
                r matches Err(e) ==> e is Python,
            { list_saves_attached(py, card_path, working_dir).0 }),
    )
}

/// `get_free_space` once attached to the interpreter.
fn free_space_attached<'py>(py: Python<'py>, card_path: &str, working_dir: &str) -> (r: Result<i64, BridgeError>)
    ensures
        r matches Err(e) ==> e is Python,
{
    let api = api_module(py, working_dir)?;
    let value = bridge_result(py, call_api(&api, free_space_call(card_path)))?;
    bridge_result(py, extract_i64(&value))
}

/// The free space, in bytes, that `python_core.api.get_free_space` reports
/// for the card image at `card_path`.
pub fn get_free_space(card_path: &str, working_dir: &str) -> (r: Result<i64, BridgeError>)
    ensures
        r matches Err(e) ==> e is Python,
{
    with_python(
        (|py: Python| -> (r: Result<i64, BridgeError>)
            ensures
                r matches Err(e) ==> e is Python,
            { free_space_attached(py, card_path, working_dir) }),
    )
}

/// `import_save` once attached to the interpreter.
fn import_save_attached<'py>(
    py: Python<'py>,
    card_path: &str,
    save_path: &str,
    dest_dir: Option<&str>,
    ignore_existing: bool,
    working_dir: &str,
) -> (r: Result<(), BridgeError>)
    ensures
        r matches Err(e) ==> e is Python,
{
    let api = api_module(py, working_dir)?;
    bridge_result(py, call_api(&api, import_call(card_path, save_path, dest_dir, ignore_existing)))?;
    Ok(())
}

/// Imports the save file at `save_path` into the card image at `card_path`
/// through `python_core.api.import_save`, into `dest_dir` when one is given;
/// `ignore_existing` is handed on as the module's flag of that name.
pub fn import_save(
    card_path: &str,
    save_path: &str,
    dest_dir: Option<&str>,
    ignore_existing: bool,
    working_dir: &str,
) -> (r: Result<(), BridgeError>)
    ensures
        r matches Err(e) ==> e is Python,
{
    with_python(
        (|py: Python| -> (r: Result<(), BridgeError>)
            ensures
                r matches Err(e) ==> e is Python,
            { import_save_attached(py, card_path, save_path, dest_dir, ignore_existing, working_dir) }),
    )
}

/// `export_save` once attached to the interpreter.
fn export_save_attached<'py>(
    py: Python<'py>,
    card_path: &str,
    dirname: &str,
    output_path: Option<&str>,
    fmt: &str,
    working_dir: &str,
) -> (r: Result<String, BridgeError>)
    ensures
        r matches Err(e) ==> e is Python,
{
    let api = api_module(py, working_dir)?;
    let out = bridge_result(py, call_api(&api, export_call(card_path, dirname, output_path, fmt)))?;
    bridge_result(py, extract_string(&out))
}

/// Exports the save `dirname` of the card image at `card_path` in format `fmt`
/// through `python_core.api.export_save`, to `output_path` when one is given,
/// and returns the path the module reports it wrote.
pub fn export_save(
    card_path: &str,
    dirname: &str,
    output_path: Option<&str>,
    fmt: &str,
    working_dir: &str,
) -> (r: Result<String, BridgeError>)
    ensures
        r matches Err(e) ==> e is Python,
{
    with_python(
        (|py: Python| -> (r: Result<String, BridgeError>)
            ensures
                r matches Err(e) ==> e is Python,
            { export_save_attached(py, card_path, dirname, output_path, fmt, working_dir) }),
    )
}

/// `delete_save` once attached to the interpreter.
fn delete_save_attached<'py>(py: Python<'py>, card_path: &str, dirname: &str, working_dir: &str) -> (r: Result<(), BridgeError>)
    ensures
        r matches Err(e) ==> e is Python,
{
    let api = api_module(py, working_dir)?;
    bridge_result(py, call_api(&api, delete_call(card_path, dirname)))?;
    Ok(())
}

/// Deletes the save `dirname` from the card image at `card_path` through
/// `python_core.api.delete_save`.
pub fn delete_save(card_path: &str, dirname: &str, working_dir: &str) -> (r: Result<(), BridgeError>)
    ensures
        r matches Err(e) ==> e is Python,
{
    with_python(
        (|py: Python| -> (r: Result<(), BridgeError>)
            ensures
                r matches Err(e) ==> e is Python,
            { delete_save_attached(py, card_path, dirname, working_dir) }),
    )
}

} // verus!
