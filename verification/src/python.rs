//! The calls this library makes into the Python interpreter through pyo3.
//!
//! Every item here is taken on trust: its contract is believed, its body is
//! not checked. What a Python call gives back depends on the interpreter's state (the
//! modules on `sys.path`, the files on disk, the objects a call returns), so no
//! wrapper names its result or promises success: the verified callers state
//! what holds whatever comes back.
use vstd::prelude::*;
use pyo3::call::PyCallArgs;
use pyo3::exceptions::PyBaseException;
use pyo3::types::{
    PyAny, PyAnyMethods, PyDict, PyDictMethods, PyList, PyListMethods, PyModule, PyString,
    PyStringMethods,
};
use pyo3::{Bound, PyErr, PyTypeCheck, Python};
use crate::bridge::ApiCall;

verus! {

/// The token that shows the current thread is attached to the interpreter.
#[verifier::external_type_specification]
#[verifier::external_body]
pub struct ExPython<'py>(Python<'py>);

/// An owned reference to a Python object of type `T`.
#[verifier::external_type_specification]
#[verifier::external_body]
#[verifier::reject_recursive_types(T)]
pub struct ExBound<'py, T>(Bound<'py, T>);

/// A raised Python exception.
#[verifier::external_type_specification]
#[verifier::external_body]
pub struct ExPyErr(PyErr);

/// Any Python object.
#[verifier::external_type_specification]
#[verifier::external_body]
pub struct ExPyAny(PyAny);

/// A Python `list`.
#[verifier::external_type_specification]
#[verifier::external_body]
pub struct ExPyList(PyList);

/// A Python `dict`.
#[verifier::external_type_specification]
#[verifier::external_body]
pub struct ExPyDict(PyDict);

/// A Python module.
#[verifier::external_type_specification]
#[verifier::external_body]
pub struct ExPyModule(PyModule);

/// A Python `str`.
#[verifier::external_type_specification]
#[verifier::external_body]
pub struct ExPyString(PyString);

/// The Python `BaseException` type.
#[verifier::external_type_specification]
#[verifier::external_body]
pub struct ExPyBaseException(PyBaseException);

/// `Python::attach`: attaches the thread to the interpreter (starting it on
/// first use), runs `f` once with the token and hands back what `f` returned.
/// Claimed: the result is one that `f` can return for some token. Not stated:
/// `attach` panics when the interpreter is shutting down or the thread is in a
/// garbage-collection traversal, which no argument decides.
#[verifier::external_body]
pub(crate) fn with_python<R, F>(f: F) -> (r: R)
    where
        F: for<'py> FnOnce(Python<'py>) -> R,
    requires
        forall|py: Python| f.requires((py,)),
    ensures
        exists|py: Python| f.ensures((py,), r),
{
    Python::attach(f)
}

/// `Python::import`: imports the module of the given dotted name.
/// Nothing is claimed of the outcome.
#[verifier::external_body]
pub(crate) fn import_module<'py>(py: Python<'py>, name: &str) -> (r: Result<Bound<'py, PyModule>, PyErr>) {
    py.import(name)
}

/// `PyAnyMethods::getattr` on a module: reads the attribute of the given name.
/// Nothing is claimed of the outcome.
#[verifier::external_body]
pub(crate) fn module_attr<'py>(module: &Bound<'py, PyModule>, name: &str) -> (r: Result<Bound<'py, PyAny>, PyErr>) {
    module.getattr(name)
}

/// `PyAnyMethods::call_method1`: calls the module's function `call.function`
/// with the positional arguments `call.args`. Nothing is claimed of the
/// outcome.
#[verifier::external_body]
pub(crate) fn call_api<'py, A: PyCallArgs<'py>>(
    module: &Bound<'py, PyModule>,
    call: ApiCall<A>,
) -> (r: Result<Bound<'py, PyAny>, PyErr>) {
    module.call_method1(call.function, call.args)
}

/// `Bound::cast`: views the object as one of type `U` (a `list` or a `dict`
/// here), failing with a `TypeError` (pyo3's `From` turns the cast error into
/// a `PyErr`) when it is not one; the view is returned as a new reference.
/// Nothing is claimed of the outcome.
#[verifier::external_body]
pub(crate) fn cast_to<'py, U: PyTypeCheck>(obj: &Bound<'py, PyAny>) -> (r: Result<Bound<'py, U>, PyErr>) {
    obj.cast::<U>().map(Bound::clone).map_err(PyErr::from)
}

/// `PyListMethods::iter`: the items of the list, in order, collected into a
/// `Vec`. Nothing is claimed of them: the list belongs to the interpreter.
#[verifier::external_body]
pub(crate) fn list_items<'py>(list: &Bound<'py, PyList>) -> (items: Vec<Bound<'py, PyAny>>) {
    list.iter().collect()
}

/// `PyListMethods::insert`: inserts the string `item` at `index` of the list.
/// Nothing is claimed of the outcome.
#[verifier::external_body]
pub(crate) fn list_insert_str<'py>(list: &Bound<'py, PyList>, index: usize, item: &str) -> (r: Result<(), PyErr>) {
    list.insert(index, item)
}

/// `PyDictMethods::get_item`: looks the string key up in the dict; `Ok(None)`
/// when the key is absent. Nothing is claimed of the outcome.
#[verifier::external_body]
pub(crate) fn dict_get<'py>(dict: &Bound<'py, PyDict>, key: &str) -> (r: Result<Option<Bound<'py, PyAny>>, PyErr>) {
    dict.get_item(key)
}

/// `PyAnyMethods::extract::<String>`: the object's text when it is a `str`.
/// Nothing is claimed of the outcome.
#[verifier::external_body]
pub(crate) fn extract_string<'py>(obj: &Bound<'py, PyAny>) -> (r: Result<String, PyErr>) {
    obj.extract::<String>()
}

/// `PyAnyMethods::extract::<i64>`: the object's value when it is an `int`
/// that fits in 64 bits. Nothing is claimed of the outcome.
#[verifier::external_body]
pub(crate) fn extract_i64<'py>(obj: &Bound<'py, PyAny>) -> (r: Result<i64, PyErr>) {
    obj.extract::<i64>()
}

/// `PyErr::value`: the exception object that the error carries.
#[verifier::external_body]
pub(crate) fn exception_value<'a, 'py>(err: &'a PyErr, py: Python<'py>) -> (r: &'a Bound<'py, PyBaseException>) {
    err.value(py)
}

/// `PyAnyMethods::str` on an exception: Python's `str(exc)`.
/// Nothing is claimed of the outcome.
#[verifier::external_body]
pub(crate) fn exception_str<'py>(exc: &Bound<'py, PyBaseException>) -> (r: Result<Bound<'py, PyString>, PyErr>) {
    exc.str()
}

/// `PyStringMethods::to_string_lossy`: the string's text, with unpaired
/// surrogates replaced, as an owned `String`.
#[verifier::external_body]
pub(crate) fn string_lossy<'py>(s: &Bound<'py, PyString>) -> (r: String) {
    s.to_string_lossy().into_owned()
}

/// `PyErr`'s `Display`: the error's type and message as pyo3 prints them.
#[verifier::external_body]
pub(crate) fn error_display(err: &PyErr) -> (r: String) {
    format!("{}", err)
}

} // verus!
