# mymc_gtk

The verified core of a GTK front end for the PlayStation 2 memory-card tool
`mymc`, whose card work is done by the Python module `python_core.api`.

- `src/text.rs` — decimal rendering of integers and joining of texts.
- `src/python.rs` — the trusted calls into the Python interpreter (pyo3).
- `src/bridge.rs` — the bridge operations (`list_saves`, `get_free_space`,
  `import_save`, `export_save`, `delete_save`) and the row conversion.
- `src/jobs.rs` — the background jobs: their busy messages, how their results
  become window events, and the reload that follows an import or a delete.
- `src/window.rs` — the window as a state machine (`Window::handle`, specified
  by `next`), the list columns, and the laws proved over `next`.
- `app/` — the GTK program: widgets, dialogs, threads and the channel.
