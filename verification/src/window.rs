//! The decisions of the main window: which buttons are enabled, what the
//! status line says, which saves the list shows, and what to do when the user
//! clicks or a background job reports back.
//!
//! The window is a state machine: `Window::handle` takes one input and gives
//! the action for the toolkit to carry out. `next` states it as a function on
//! views, and the laws at the end of the file are proved over `next`.
use vstd::prelude::*;
use crate::bridge::{entries_view, SaveEntry, SaveEntryView};
use crate::jobs::{Job, JobView, UiEvent, UiEventView};
use crate::text::{
    digits_value, div_toward_zero, i64_text, int_text, join2, join3, nat_text, nat_text_reads_back,
    quotient_text,
};

verus! {

/// The columns of the list of saves.
#[derive(Clone, Copy, Debug, PartialEq, Eq)]
pub enum Column {
    Directory,
    Size,
    Modified,
    Description,
    Protection,
}

/// The heading of a column.
pub open spec fn column_title_spec(column: Column) -> Seq<char> {
    match column {
        Column::Directory => "Directory"@,
        Column::Size => "Size"@,
        Column::Modified => "Modified"@,
        Column::Description => "Description"@,
        Column::Protection => "Protection"@,
    }
}

/// What a column shows for a save: the size in whole kilobytes (rounded
/// toward zero) followed by " KB", the modification time as a decimal
/// number, the other fields as they are.
pub open spec fn column_text_spec(column: Column, entry: SaveEntryView) -> Seq<char> {
    match column {
        Column::Directory => entry.directory,
        Column::Size => int_text(div_toward_zero(entry.size as int, 1024)) + " KB"@,
        Column::Modified => int_text(entry.modified as int),
        Column::Description => entry.description,
        Column::Protection => entry.protection,
    }
}

impl Column {
    /// The columns, left to right.
    pub fn all() -> (columns: Vec<Column>)
        ensures
            columns@ == seq![
                Column::Directory,
                Column::Size,
                Column::Modified,
                Column::Description,
                Column::Protection,
            ],
    {
        let mut columns: Vec<Column> = Vec::new();
        columns.push(Column::Directory);
        columns.push(Column::Size);
        columns.push(Column::Modified);
        columns.push(Column::Description);
        columns.push(Column::Protection);
        columns
    }

    /// The heading of the column.
    pub fn title(self) -> (t: &'static str)
        ensures
            t@ == column_title_spec(self),
    {
        match self {
            Column::Directory => "Directory",
            Column::Size => "Size",
            Column::Modified => "Modified",
            Column::Description => "Description",
            Column::Protection => "Protection",
        }
    }

    /// What the column shows for `entry`.
    pub fn text(self, entry: &SaveEntry) -> (s: String)
        ensures
            s@ == column_text_spec(self, entry@),
    {
        match self {
            Column::Directory => entry.directory.clone(),
            Column::Size => {
                let mut s = quotient_text(entry.size, 1024);
                s.append(" KB");
                s
            },
            Column::Modified => i64_text(entry.modified),
            Column::Description => entry.description.clone(),
            Column::Protection => entry.protection.clone(),
        }
    }
}

/// The directory of the save at `position` of the list, if there is one
/// there (the toolkit reports "nothing selected" as a position past the end).
pub open spec fn selected_dir(entries: Seq<SaveEntryView>, position: u32) -> Option<Seq<char>> {
    if position < entries.len() {
        Some(entries[position as int].directory)
    } else {
        None
    }
}

/// The directory of the selected save.
pub fn selected_directory(entries: &Vec<SaveEntry>, position: u32) -> (d: Option<String>)
    ensures
        match d {
            Some(s) => selected_dir(entries_view(entries@), position) == Some(s@),
            None => selected_dir(entries_view(entries@), position) is None,
        },
{
    let i = position as usize;
    if i < entries.len() {
        Some(entries[i].directory.clone())
    } else {
        None
    }
}

/// Something the user did, or a report from a background job.
pub enum Input {
    /// The selection of the list moved to `position`.
    SelectionChanged { position: u32 },
    /// The "Open" button was clicked.
    OpenClicked,
    /// The card dialog closed with a file (`path` is `None` when the file has
    /// no local path); `position` is the list's selection at that time.
    CardChosen { path: Option<String>, position: u32 },
    /// A file dialog failed; the toolkit's message.
    DialogFailed { message: String },
    /// The "Import" button was clicked.
    ImportClicked,
    /// The import dialog, opened for `card`, closed with a file.
    SaveFileChosen { card: String, path: Option<String> },
    /// The "Export" button was clicked while the list's selection was at `position`.
    ExportClicked { position: u32 },
    /// The export dialog, opened for the save `dirname` of `card`, closed with a file.
    ExportTargetChosen { card: String, dirname: String, path: Option<String> },
    /// The "Delete" button was clicked while the list's selection was at `position`.
    DeleteClicked { position: u32 },
    /// A background job sent an event.
    Received(UiEvent),
}

/// An input as the contracts see it.
pub enum InputView {
    SelectionChanged { position: u32 },
    OpenClicked,
    CardChosen { path: Option<Seq<char>>, position: u32 },
    DialogFailed { message: Seq<char> },
    ImportClicked,
    SaveFileChosen { card: Seq<char>, path: Option<Seq<char>> },
    ExportClicked { position: u32 },
    ExportTargetChosen { card: Seq<char>, dirname: Seq<char>, path: Option<Seq<char>> },
    DeleteClicked { position: u32 },
    Received(UiEventView),
}

/// The view of an optional text.
pub open spec fn opt_text(o: Option<String>) -> Option<Seq<char>> {
    match o {
        Some(s) => Some(s@),
        None => None,
    }
}

impl View for Input {
    type V = InputView;

    open spec fn view(&self) -> InputView {
        match self {
            Input::SelectionChanged { position } => InputView::SelectionChanged { position: *position },
            Input::OpenClicked => InputView::OpenClicked,
            Input::CardChosen { path, position } => InputView::CardChosen {
                path: opt_text(*path),
                position: *position,
            },
            Input::DialogFailed { message } => InputView::DialogFailed { message: message@ },
            Input::ImportClicked => InputView::ImportClicked,
            Input::SaveFileChosen { card, path } => InputView::SaveFileChosen {
                card: card@,
                path: opt_text(*path),
            },
            Input::ExportClicked { position } => InputView::ExportClicked { position: *position },
            Input::ExportTargetChosen { card, dirname, path } => InputView::ExportTargetChosen {
                card: card@,
                dirname: dirname@,
                path: opt_text(*path),
            },
            Input::DeleteClicked { position } => InputView::DeleteClicked { position: *position },
            Input::Received(e) => InputView::Received(e@),
        }
    }
}

/// What the toolkit is to do after an input.
pub enum Action {
    /// Nothing.
    Nothing,
    /// Send this event to the window's own channel.
    Notify(UiEvent),
    /// Show the dialog that picks a card image.
    ChooseCard,
    /// Show the dialog that picks a save file to import into `card`.
    ChooseSaveFile { card: String },
    /// Show the dialog that picks where to export the save `dirname` of
    /// `card`, proposing the file name `suggested_name`.
    ChooseExportTarget { card: String, dirname: String, suggested_name: String },
    /// Run the job in the background.
    Start(Job),
    /// Show the window's list of saves anew.
    ShowEntries,
}

/// An action as the contracts see it.
pub enum ActionView {
    Nothing,
    Notify(UiEventView),
    ChooseCard,
    ChooseSaveFile { card: Seq<char> },
    ChooseExportTarget { card: Seq<char>, dirname: Seq<char>, suggested_name: Seq<char> },
    Start(JobView),
    ShowEntries,
}

impl View for Action {
    type V = ActionView;

    open spec fn view(&self) -> ActionView {
        match self {
            Action::Nothing => ActionView::Nothing,
            Action::Notify(e) => ActionView::Notify(e@),
            Action::ChooseCard => ActionView::ChooseCard,
            Action::ChooseSaveFile { card } => ActionView::ChooseSaveFile { card: card@ },
            Action::ChooseExportTarget { card, dirname, suggested_name } => ActionView::ChooseExportTarget {
                card: card@,
                dirname: dirname@,
                suggested_name: suggested_name@,
            },
            Action::Start(j) => ActionView::Start(j@),
            Action::ShowEntries => ActionView::ShowEntries,
        }
    }
}

/// The state of the window.
pub struct Window {
    current_card: Option<String>,
    entries: Vec<SaveEntry>,
    import_enabled: bool,
    export_enabled: bool,
    delete_enabled: bool,
    status: String,
}

/// The window's state as the contracts see it.
pub struct WindowView {
    /// The card image the window works on, once one was opened.
    pub current_card: Option<Seq<char>>,
    /// The saves the list shows.
    pub entries: Seq<SaveEntryView>,
    pub import_enabled: bool,
    pub export_enabled: bool,
    pub delete_enabled: bool,
    /// The status line.
    pub status: Seq<char>,
}

impl View for Window {
    type V = WindowView;

    closed spec fn view(&self) -> WindowView {
        WindowView {
            current_card: opt_text(self.current_card),
            entries: entries_view(self.entries@),
            import_enabled: self.import_enabled,
            export_enabled: self.export_enabled,
            delete_enabled: self.delete_enabled,
            status: self.status@,
        }
    }
}

/// The window as it opens: no card, no saves, only "Open" enabled.
pub open spec fn initial_window() -> WindowView {
    WindowView {
        current_card: None,
        entries: Seq::empty(),
        import_enabled: false,
        export_enabled: false,
        delete_enabled: false,
        status: "Open a memory card image."@,
    }
}

/// The status line for a card with `free_space` bytes free.
pub open spec fn free_space_text(free_space: i64) -> Seq<char> {
    "Free space: "@ + int_text(free_space as int) + " bytes"@
}

/// The window after a background job's event.
pub open spec fn apply_event(s: WindowView, event: UiEventView) -> WindowView {
    match event {
        UiEventView::Busy(m) => WindowView { status: m, ..s },
        UiEventView::Loaded { entries, free_space } => WindowView {
            entries,
            status: free_space_text(free_space),
            ..s
        },
        UiEventView::Info(m) => WindowView { status: m, ..s },
        UiEventView::Error(m) => WindowView { status: "Error: "@ + m, ..s },
    }
}

/// The window after an input, and what the toolkit is to do.
pub open spec fn next(s: WindowView, input: InputView) -> (WindowView, ActionView) {
    match input {
        InputView::SelectionChanged { position } => {
            let enabled = s.current_card is Some && selected_dir(s.entries, position) is Some;
            (WindowView { export_enabled: enabled, delete_enabled: enabled, ..s }, ActionView::Nothing)
        },
        InputView::OpenClicked => (s, ActionView::ChooseCard),
        InputView::CardChosen { path, position } => match path {
            None => (s, ActionView::Nothing),
            Some(card) => {
                let selected = selected_dir(s.entries, position) is Some;
                (
                    WindowView {
                        current_card: Some(card),
                        import_enabled: true,
                        export_enabled: selected,
                        delete_enabled: selected,
                        ..s
                    },
                    ActionView::Start(JobView::Load { card }),
                )
            },
        },
        InputView::DialogFailed { message } => (s, ActionView::Notify(UiEventView::Error(message))),
        InputView::ImportClicked => match s.current_card {
            None => (s, ActionView::Notify(UiEventView::Info("Open a card first."@))),
            Some(card) => (s, ActionView::ChooseSaveFile { card }),
        },
        InputView::SaveFileChosen { card, path } => match path {
            None => (s, ActionView::Nothing),
            Some(save_path) => (s, ActionView::Start(JobView::Import { card, save_path })),
        },
        InputView::ExportClicked { position } => match s.current_card {
            None => (s, ActionView::Nothing),
            Some(card) => match selected_dir(s.entries, position) {
                None => (s, ActionView::Notify(UiEventView::Info("Select a save first."@))),
                Some(dirname) => (
                    s,
                    ActionView::ChooseExportTarget { card, dirname, suggested_name: dirname + ".psu"@ },
                ),
            },
        },
        InputView::ExportTargetChosen { card, dirname, path } => match path {
            None => (s, ActionView::Nothing),
            Some(output) => (s, ActionView::Start(JobView::Export { card, dirname, output })),
        },
        InputView::DeleteClicked { position } => match s.current_card {
            None => (s, ActionView::Nothing),
            Some(card) => match selected_dir(s.entries, position) {
                None => (s, ActionView::Notify(UiEventView::Info("Select a save first."@))),
                Some(dirname) => (s, ActionView::Start(JobView::Delete { card, dirname })),
            },
        },
        InputView::Received(event) => (
            apply_event(s, event),
            if event is Loaded { ActionView::ShowEntries } else { ActionView::Nothing },
        ),
    }
}

impl Window {
    /// A new window.
    pub fn new() -> (w: Window)
        ensures
            w@ == initial_window(),
    {
        let w = Window {
            current_card: None,
            entries: Vec::new(),
            import_enabled: false,
            export_enabled: false,
            delete_enabled: false,
            status: "Open a memory card image.".to_owned(),
        };
        assert(w@.entries =~= Seq::<SaveEntryView>::empty());
        w
    }

    /// The card image the window works on.
    pub fn current_card(&self) -> (c: Option<String>)
        ensures
            opt_text(c) == self@.current_card,
    {
        match &self.current_card {
            Some(c) => Some(c.clone()),
            None => None,
        }
    }

    /// The saves the list shows.
    pub fn entries(&self) -> (e: &Vec<SaveEntry>)
        ensures
            entries_view(e@) == self@.entries,
    {
        &self.entries
    }

    /// Whether "Import" is enabled.
    pub fn import_enabled(&self) -> (b: bool)
        ensures
            b == self@.import_enabled,
    {
        self.import_enabled
    }

    /// Whether "Export" is enabled.
    pub fn export_enabled(&self) -> (b: bool)
        ensures
            b == self@.export_enabled,
    {
        self.export_enabled
    }

    /// Whether "Delete" is enabled.
    pub fn delete_enabled(&self) -> (b: bool)
        ensures
            b == self@.delete_enabled,
    {
        self.delete_enabled
    }

    /// The status line.
    pub fn status(&self) -> (s: &String)
        ensures
            s@ == self@.status,
    {
        &self.status
    }

    /// Takes in a background job's event.
    fn apply(&mut self, event: UiEvent)
        ensures
            final(self)@ == apply_event(old(self)@, event@),
    {
        match event {
            UiEvent::Busy(m) => {
                self.status = m;
            },
            UiEvent::Loaded { entries, free_space } => {
                self.entries = entries;
                self.status = join3("Free space: ", i64_text(free_space).as_str(), " bytes");
            },
            UiEvent::Info(m) => {
                self.status = m;
            },
            UiEvent::Error(m) => {
                self.status = join2("Error: ", m.as_str());
            },
        }
    }

    /// Takes in one input and says what the toolkit is to do.
    pub fn handle(&mut self, input: Input) -> (a: Action)
        ensures
            (final(self)@, a@) == next(old(self)@, input@),
    {
        match input {
            Input::SelectionChanged { position } => {
                let enabled = self.current_card.is_some() && (position as usize) < self.entries.len();
                self.export_enabled = enabled;
                self.delete_enabled = enabled;
                Action::Nothing
            },
            Input::OpenClicked => Action::ChooseCard,
            Input::CardChosen { path, position } => match path {
                None => Action::Nothing,
                Some(card) => {
                    let selected = (position as usize) < self.entries.len();
                    let job = Job::Load { card: card.clone() };
                    self.current_card = Some(card);
                    self.import_enabled = true;
                    self.export_enabled = selected;
                    self.delete_enabled = selected;
                    Action::Start(job)
                },
            },
            Input::DialogFailed { message } => Action::Notify(UiEvent::Error(message)),
            Input::ImportClicked => match &self.current_card {
                None => Action::Notify(UiEvent::Info("Open a card first.".to_owned())),
                Some(card) => Action::ChooseSaveFile { card: card.clone() },
            },
            Input::SaveFileChosen { card, path } => match path {
                None => Action::Nothing,
                Some(save_path) => Action::Start(Job::Import { card, save_path }),
            },
            Input::ExportClicked { position } => match &self.current_card {
                None => Action::Nothing,
                Some(card) => match selected_directory(&self.entries, position) {
                    None => Action::Notify(UiEvent::Info("Select a save first.".to_owned())),
                    Some(dirname) => {
                        let suggested_name = join2(dirname.as_str(), ".psu");
                        Action::ChooseExportTarget { card: card.clone(), dirname, suggested_name }
                    },
                },
            },
            Input::ExportTargetChosen { card, dirname, path } => match path {
                None => Action::Nothing,
                Some(output) => Action::Start(Job::Export { card, dirname, output }),
            },
            Input::DeleteClicked { position } => match &self.current_card {
                None => Action::Nothing,
                Some(card) => match selected_directory(&self.entries, position) {
                    None => Action::Notify(UiEvent::Info("Select a save first.".to_owned())),
                    Some(dirname) => Action::Start(Job::Delete { card: card.clone(), dirname }),
                },
            },
            Input::Received(event) => {
                let loaded = match &event {
                    UiEvent::Loaded { .. } => true,
                    _ => false,
                };
                self.apply(event);
                if loaded {
                    Action::ShowEntries
                } else {
                    Action::Nothing
                }
            },
        }
    }
}


/// The buttons agree with each other and with the open card: "Import" is
/// enabled exactly when a card is open, "Export" and "Delete" are enabled
/// together, and only when a card is open.
pub open spec fn buttons_consistent(s: WindowView) -> bool {
    &&& s.import_enabled == (s.current_card is Some)
    &&& s.export_enabled == s.delete_enabled
    &&& s.export_enabled ==> s.current_card is Some
}

/// A new window's buttons are consistent.
pub proof fn new_window_buttons_consistent()
    ensures
        buttons_consistent(initial_window()),
{
}

/// Every input keeps the buttons consistent.
pub proof fn inputs_keep_buttons_consistent(s: WindowView, input: InputView)
    requires
        buttons_consistent(s),
    ensures
        buttons_consistent(next(s, input).0),
{
}

/// Once a card is open the window always has one, and the card changes only
/// when the card dialog picks a file with a path, to that path.
pub proof fn card_changes_only_by_choosing(s: WindowView, input: InputView)
    ensures
        s.current_card is Some ==> next(s, input).0.current_card is Some,
        next(s, input).0.current_card != s.current_card ==> (input matches InputView::CardChosen {
            path: Some(p),
            ..
        } && next(s, input).0.current_card == Some(p)),
{
}

/// The dialogs for importing and exporting, and a delete, are for the open
/// card; what is exported or deleted is a save the list shows; and a load
/// starts only for the card just chosen.
pub proof fn card_work_targets_open_card(s: WindowView, input: InputView)
    ensures
        match next(s, input).1 {
            ActionView::ChooseSaveFile { card } => s.current_card == Some(card),
            ActionView::ChooseExportTarget { card, dirname, suggested_name } => {
                &&& s.current_card == Some(card)
                &&& exists|k: int| 0 <= k < s.entries.len() && s.entries[k].directory == dirname
                &&& suggested_name == dirname + ".psu"@
            },
            ActionView::Start(JobView::Delete { card, dirname }) => {
                &&& s.current_card == Some(card)
                &&& exists|k: int| 0 <= k < s.entries.len() && s.entries[k].directory == dirname
            },
            ActionView::Start(JobView::Load { card }) => input matches InputView::CardChosen {
                path: Some(p),
                ..
            } && p == card,
            _ => true,
        },
{
    match input {
        InputView::ExportClicked { position } => {
            if position < s.entries.len() {
                assert(selected_dir(s.entries, position) == Some(s.entries[position as int].directory));
            }
        },
        InputView::DeleteClicked { position } => {
            if position < s.entries.len() {
                assert(selected_dir(s.entries, position) == Some(s.entries[position as int].directory));
            }
        },
        _ => {},
    }
}

/// Without an open card no dialog for a card opens and nothing is deleted;
/// clicking "Import" only says that a card must be opened first.
pub proof fn nothing_happens_to_a_card_before_one_is_open(s: WindowView, input: InputView)
    requires
        s.current_card is None,
    ensures
        !(next(s, input).1 is ChooseSaveFile),
        !(next(s, input).1 is ChooseExportTarget),
        !(next(s, input).1 matches ActionView::Start(JobView::Delete { .. })),
        input is ImportClicked ==> next(s, input).1 == ActionView::Notify(
            UiEventView::Info("Open a card first."@),
        ),
{
}

/// A job's events change only the status line and the list, never the open
/// card or the buttons; a load shows its saves and the free space.
pub proof fn job_events_change_only_status_and_list(s: WindowView, event: UiEventView)
    ensures
        next(s, InputView::Received(event)).0.current_card == s.current_card,
        next(s, InputView::Received(event)).0.import_enabled == s.import_enabled,
        next(s, InputView::Received(event)).0.export_enabled == s.export_enabled,
        next(s, InputView::Received(event)).0.delete_enabled == s.delete_enabled,
        event matches UiEventView::Loaded { entries, free_space } ==> {
            &&& next(s, InputView::Received(event)).0.entries == entries
            &&& next(s, InputView::Received(event)).0.status == free_space_text(free_space)
            &&& next(s, InputView::Received(event)).1 == ActionView::ShowEntries
        },
        !(event is Loaded) ==> next(s, InputView::Received(event)).0.entries == s.entries,
{
}

/// After a card is chosen, "Import" opens the import dialog for that card.
pub proof fn choosing_a_card_then_importing_targets_it(s: WindowView, card: Seq<char>, position: u32)
    ensures
        ({
            let opened = next(s, InputView::CardChosen { path: Some(card), position }).0;
            &&& opened.import_enabled
            &&& next(opened, InputView::ImportClicked).1 == ActionView::ChooseSaveFile { card }
        }),
{
}

/// When a save is selected at the moment a card is opened (or later), both
/// "Export" and "Delete" are enabled, and exporting it proposes its name with
/// the extension ".psu".
pub proof fn selecting_a_save_enables_export(s: WindowView, position: u32)
    requires
        s.current_card is Some,
        position < s.entries.len(),
    ensures
        ({
            let t = next(s, InputView::SelectionChanged { position }).0;
            &&& t.export_enabled && t.delete_enabled
            &&& next(t, InputView::ExportClicked { position }).1 == ActionView::ChooseExportTarget {
                card: s.current_card->0,
                dirname: s.entries[position as int].directory,
                suggested_name: s.entries[position as int].directory + ".psu"@,
            }
        }),
{
}

/// With a card open and the selection at a save of the list, "Delete" starts
/// deleting exactly that save from the open card and changes nothing else.
pub proof fn delete_targets_the_selected_save(s: WindowView, position: u32)
    requires
        s.current_card is Some,
        position < s.entries.len(),
    ensures
        next(s, InputView::DeleteClicked { position }) == (s, ActionView::Start(
            JobView::Delete { card: s.current_card->0, dirname: s.entries[position as int].directory },
        )),
{
}

/// Closing the export dialog with a file starts exporting exactly the save of
/// the card that the dialog was opened for, to that file, whatever the window
/// holds; closing it without a file does nothing. Neither changes the window.
pub proof fn export_writes_the_save_the_dialog_was_opened_for(
    s: WindowView,
    card: Seq<char>,
    dirname: Seq<char>,
    path: Option<Seq<char>>,
)
    ensures
        next(s, InputView::ExportTargetChosen { card, dirname, path }) == (s, match path {
            Some(output) => ActionView::Start(JobView::Export { card, dirname, output }),
            None => ActionView::Nothing,
        }),
{
}

/// The size column shows the number of whole kilobytes in the size, rounded
/// toward zero, followed by " KB": `kb` is that number when the size less
/// `kb * 1024` is under 1024 in magnitude and of the size's sign. For a size
/// that is not negative the digits before " KB" read back as `kb`.
pub proof fn size_column_shows_whole_kilobytes(entry: SaveEntryView, kb: int)
    requires
        0 <= entry.size ==> 0 <= entry.size - kb * 1024 < 1024,
        entry.size < 0 ==> -1024 < entry.size - kb * 1024 <= 0,
    ensures
        column_text_spec(Column::Size, entry) == int_text(kb) + " KB"@,
        0 <= entry.size ==> digits_value(
            column_text_spec(Column::Size, entry).subrange(
                0,
                column_text_spec(Column::Size, entry).len() - 3,
            ),
        ) == kb,
{
    let a = entry.size as int;
    if a >= 0 {
        assert(a / 1024 == kb) by (nonlinear_arith)
            requires
                0 <= a - kb * 1024 < 1024,
        ;
    } else {
        assert((-a) / 1024 == -kb) by (nonlinear_arith)
            requires
                0 <= (-a) - (-kb) * 1024 < 1024,
        ;
    }
    assert(div_toward_zero(a, 1024) == kb);
    if a >= 0 {
        assert(kb >= 0);
        let t = column_text_spec(Column::Size, entry);
        kb_suffix_len();
        assert(t.subrange(0, t.len() - 3) =~= nat_text(kb as nat));
        nat_text_reads_back(kb as nat);
    }
}

/// The length of " KB".
proof fn kb_suffix_len()
    ensures
        " KB"@.len() == 3,
{
    reveal_strlit(" KB");
}

/// After a load reports back, the list shows exactly the saves loaded and the
/// status line is "Free space: ", the decimal text of the free space
/// reported, and " bytes", whatever the amount; for an amount that is not
/// negative the digits between read back as that amount.
pub proof fn loading_shows_the_free_space(s: WindowView, entries: Seq<SaveEntryView>, free_space: i64)
    ensures
        ({
            let t = next(s, InputView::Received(UiEventView::Loaded { entries, free_space })).0;
            &&& t.entries == entries
            &&& t.status == "Free space: "@ + int_text(free_space as int) + " bytes"@
            &&& 0 <= free_space ==> digits_value(t.status.subrange(12, t.status.len() - 6))
                == free_space
        }),
{
    reveal_strlit("Free space: ");
    reveal_strlit(" bytes");
    let t = next(s, InputView::Received(UiEventView::Loaded { entries, free_space })).0;
    if 0 <= free_space {
        assert(t.status.subrange(12, t.status.len() - 6) =~= nat_text(free_space as nat));
        nat_text_reads_back(free_space as nat);
    }
}

/// The text columns show their field whole, and the modification time column
/// shows the time's decimal text, which for a time that is not negative reads
/// back as the time.
pub proof fn columns_show_their_fields(entry: SaveEntryView)
    ensures
        column_text_spec(Column::Directory, entry) == entry.directory,
        column_text_spec(Column::Description, entry) == entry.description,
        column_text_spec(Column::Protection, entry) == entry.protection,
        column_text_spec(Column::Modified, entry) == int_text(entry.modified as int),
        0 <= entry.modified ==> digits_value(column_text_spec(Column::Modified, entry))
            == entry.modified,
{
    if 0 <= entry.modified {
        nat_text_reads_back(entry.modified as nat);
    }
}

} // verus!
