//! The work the window hands to background threads: loading a card, importing,
//! exporting and deleting a save. Each job announces itself with a busy
//! message, calls the bridge, and reports back with one event; a successful
//! import or delete is followed by loading the card again.
use vstd::prelude::*;
use crate::bridge::{
    delete_save, entries_view, export_save, get_free_space, import_save, list_saves,
    BridgeError, SaveEntry, SaveEntryView,
};
use crate::text::join3;

verus! {

/// What a background job tells the window.
#[derive(Clone, Debug)]
pub enum UiEvent {
    /// Work has started; the text to show meanwhile.
    Busy(String),
    /// A card was read: its saves and its free space in bytes.
    Loaded { entries: Vec<SaveEntry>, free_space: i64 },
    /// Work has finished; the text to show.
    Info(String),
    /// Work has failed; the error's text.
    Error(String),
}

/// An event as the contracts see it.
pub enum UiEventView {
    Busy(Seq<char>),
    Loaded { entries: Seq<SaveEntryView>, free_space: i64 },
    Info(Seq<char>),
    Error(Seq<char>),
}

impl View for UiEvent {
    type V = UiEventView;

    open spec fn view(&self) -> UiEventView {
        match self {
            UiEvent::Busy(m) => UiEventView::Busy(m@),
            UiEvent::Loaded { entries, free_space } => UiEventView::Loaded {
                entries: entries_view(entries@),
                free_space: *free_space,
            },
            UiEvent::Info(m) => UiEventView::Info(m@),
            UiEvent::Error(m) => UiEventView::Error(m@),
        }
    }
}

/// A piece of work on the open card.
#[derive(Clone, Debug)]
pub enum Job {
    /// Read the saves and the free space of the card.
    Load { card: String },
    /// Import the save file at `save_path` into the card.
    Import { card: String, save_path: String },
    /// Export the save `dirname` of the card to the file `output`.
    Export { card: String, dirname: String, output: String },
    /// Delete the save `dirname` from the card.
    Delete { card: String, dirname: String },
}

/// A job as the contracts see it.
pub enum JobView {
    Load { card: Seq<char> },
    Import { card: Seq<char>, save_path: Seq<char> },
    Export { card: Seq<char>, dirname: Seq<char>, output: Seq<char> },
    Delete { card: Seq<char>, dirname: Seq<char> },
}

impl View for Job {
    type V = JobView;

    open spec fn view(&self) -> JobView {
        match self {
            Job::Load { card } => JobView::Load { card: card@ },
            Job::Import { card, save_path } => JobView::Import { card: card@, save_path: save_path@ },
            Job::Export { card, dirname, output } => JobView::Export {
                card: card@,
                dirname: dirname@,
                output: output@,
            },
            Job::Delete { card, dirname } => JobView::Delete { card: card@, dirname: dirname@ },
        }
    }
}

/// How a job ended: the event to send, and the job to start next, if any.
pub struct JobOutcome {
    pub event: UiEvent,
    pub next: Option<Job>,
}

/// An outcome as the contracts see it.
pub struct JobOutcomeView {
    pub event: UiEventView,
    pub next: Option<JobView>,
}

impl View for JobOutcome {
    type V = JobOutcomeView;

    open spec fn view(&self) -> JobOutcomeView {
        JobOutcomeView {
            event: self.event@,
            next: match self.next {
                Some(j) => Some(j@),
                None => None,
            },
        }
    }
}

/// The message shown while a job runs.
pub open spec fn busy_text(job: JobView) -> Seq<char> {
    match job {
        JobView::Load { card } => "Loading "@ + card + "..."@,
        JobView::Import { .. } => "Importing save..."@,
        JobView::Export { .. } => "Exporting save..."@,
        JobView::Delete { dirname, .. } => "Deleting "@ + dirname + "..."@,
    }
}

/// The event that ends a load, from what listing the saves and reading the
/// free space gave: the saves and the free space when both worked, else the
/// first error (the listing's before the free space's).
pub open spec fn load_event(
    listed: Result<Vec<SaveEntry>, BridgeError>,
    free: Result<i64, BridgeError>,
) -> UiEventView {
    match listed {
        Err(e) => UiEventView::Error(e.text()),
        Ok(entries) => match free {
            Err(e) => UiEventView::Error(e.text()),
            Ok(n) => UiEventView::Loaded { entries: entries_view(entries@), free_space: n },
        },
    }
}

/// The outcome of an import or a delete on `card` with the given result: on
/// success the message `done` and a reload of the card, else the error.
pub open spec fn change_outcome(card: Seq<char>, done: Seq<char>, result: Result<(), BridgeError>) -> JobOutcomeView {
    match result {
        Ok(()) => JobOutcomeView {
            event: UiEventView::Info(done),
            next: Some(JobView::Load { card }),
        },
        Err(e) => JobOutcomeView { event: UiEventView::Error(e.text()), next: None },
    }
}

/// The outcome of an export with the given result.
pub open spec fn export_outcome_spec(result: Result<String, BridgeError>) -> JobOutcomeView {
    match result {
        Ok(path) => JobOutcomeView { event: UiEventView::Info("Exported to "@ + path@), next: None },
        Err(e) => JobOutcomeView { event: UiEventView::Error(e.text()), next: None },
    }
}

/// What a run of `job` can end with, whatever the Python side does.
pub open spec fn possible_outcome(job: JobView, o: JobOutcomeView) -> bool {
    match job {
        JobView::Load { .. } => o.next is None && (o.event is Loaded || o.event is Error),
        JobView::Import { card, .. } => (o.event == UiEventView::Info("Import completed."@)
            && o.next == Some(JobView::Load { card })) || (o.event is Error && o.next is None),
        JobView::Export { .. } => o.next is None && ((exists|p: Seq<char>|
            o.event == UiEventView::Info("Exported to "@ + p)) || o.event is Error),
        JobView::Delete { card, .. } => (o.event == UiEventView::Info("Delete completed."@)
            && o.next == Some(JobView::Load { card })) || (o.event is Error && o.next is None),
    }
}

/// The event that ends a load.
pub fn load_outcome(
    listed: Result<Vec<SaveEntry>, BridgeError>,
    free: Result<i64, BridgeError>,
) -> (o: JobOutcome)
    ensures
        o@ == (JobOutcomeView { event: load_event(listed, free), next: None }),
{
    let event = match listed {
        Err(e) => UiEvent::Error(e.message()),
        Ok(entries) => match free {
            Err(e) => UiEvent::Error(e.message()),
            Ok(n) => UiEvent::Loaded { entries, free_space: n },
        },
    };
    JobOutcome { event, next: None }
}

/// The outcome of importing into `card`.
pub fn import_outcome(card: &String, result: Result<(), BridgeError>) -> (o: JobOutcome)
    ensures
        o@ == change_outcome(card@, "Import completed."@, result),
{
    match result {
        Ok(()) => JobOutcome {
            event: UiEvent::Info("Import completed.".to_owned()),
            next: Some(Job::Load { card: card.clone() }),
        },
        Err(e) => JobOutcome { event: UiEvent::Error(e.message()), next: None },
    }
}

/// The outcome of deleting from `card`.
pub fn delete_outcome(card: &String, result: Result<(), BridgeError>) -> (o: JobOutcome)
    ensures
        o@ == change_outcome(card@, "Delete completed."@, result),
{
    match result {
        Ok(()) => JobOutcome {
            event: UiEvent::Info("Delete completed.".to_owned()),
            next: Some(Job::Load { card: card.clone() }),
        },
        Err(e) => JobOutcome { event: UiEvent::Error(e.message()), next: None },
    }
}

/// The outcome of an export.
pub fn export_outcome(result: Result<String, BridgeError>) -> (o: JobOutcome)
    ensures
        o@ == export_outcome_spec(result),
{
    match result {
        Ok(path) => {
            let mut text = "Exported to ".to_owned();
            text.append(path.as_str());
            JobOutcome { event: UiEvent::Info(text), next: None }
        },
        Err(e) => JobOutcome { event: UiEvent::Error(e.message()), next: None },
    }
}

/// A call of the bridge: which operation, with which arguments.
pub enum BridgeCall {
    /// `list_saves(card)` and then `get_free_space(card)`.
    ListAndMeasure { card: String },
    /// `import_save(card, save_path, dest_dir, ignore_existing)`.
    Import { card: String, save_path: String, dest_dir: Option<String>, ignore_existing: bool },
    /// `export_save(card, dirname, output_path, fmt)`.
    Export { card: String, dirname: String, output_path: Option<String>, fmt: String },
    /// `delete_save(card, dirname)`.
    Delete { card: String, dirname: String },
}

/// A bridge call as the contracts see it.
pub enum BridgeCallView {
    ListAndMeasure { card: Seq<char> },
    Import { card: Seq<char>, save_path: Seq<char>, dest_dir: Option<Seq<char>>, ignore_existing: bool },
    Export { card: Seq<char>, dirname: Seq<char>, output_path: Option<Seq<char>>, fmt: Seq<char> },
    Delete { card: Seq<char>, dirname: Seq<char> },
}

/// The view of an optional text.
pub open spec fn opt_seq(o: Option<String>) -> Option<Seq<char>> {
    match o {
        Some(s) => Some(s@),
        None => None,
    }
}

impl View for BridgeCall {
    type V = BridgeCallView;

    open spec fn view(&self) -> BridgeCallView {
        match self {
            BridgeCall::ListAndMeasure { card } => BridgeCallView::ListAndMeasure { card: card@ },
            BridgeCall::Import { card, save_path, dest_dir, ignore_existing } => BridgeCallView::Import {
                card: card@,
                save_path: save_path@,
                dest_dir: opt_seq(*dest_dir),
                ignore_existing: *ignore_existing,
            },
            BridgeCall::Export { card, dirname, output_path, fmt } => BridgeCallView::Export {
                card: card@,
                dirname: dirname@,
                output_path: opt_seq(*output_path),
                fmt: fmt@,
            },
            BridgeCall::Delete { card, dirname } => BridgeCallView::Delete { card: card@, dirname: dirname@ },
        }
    }
}

/// The bridge call of each job.
pub open spec fn job_call(job: JobView) -> BridgeCallView {
    match job {
        JobView::Load { card } => BridgeCallView::ListAndMeasure { card },
        JobView::Import { card, save_path } => BridgeCallView::Import {
            card,
            save_path,
            dest_dir: None,
            ignore_existing: false,
        },
        JobView::Export { card, dirname, output } => BridgeCallView::Export {
            card,
            dirname,
            output_path: Some(output),
            fmt: "psu"@,
        },
        JobView::Delete { card, dirname } => BridgeCallView::Delete { card, dirname },
    }
}

/// What a bridge call gave back.
pub enum BridgeReply {
    Listed { saves: Result<Vec<SaveEntry>, BridgeError>, free: Result<i64, BridgeError> },
    Imported(Result<(), BridgeError>),
    Exported(Result<String, BridgeError>),
    Deleted(Result<(), BridgeError>),
}

/// A bridge result whose error, if any, is a Python error.
pub open spec fn python_only<T>(r: Result<T, BridgeError>) -> bool {
    match r {
        Ok(_) => true,
        Err(e) => e is Python,
    }
}

/// Whether a reply is one the call can give: of the call's kind, with only
/// Python errors.
pub open spec fn reply_fits(call: BridgeCallView, reply: BridgeReply) -> bool {
    match call {
        BridgeCallView::ListAndMeasure { .. } => match reply {
            BridgeReply::Listed { saves, free } => python_only(saves) && python_only(free),
            _ => false,
        },
        BridgeCallView::Import { .. } => match reply {
            BridgeReply::Imported(r) => python_only(r),
            _ => false,
        },
        BridgeCallView::Export { .. } => match reply {
            BridgeReply::Exported(r) => python_only(r),
            _ => false,
        },
        BridgeCallView::Delete { .. } => match reply {
            BridgeReply::Deleted(r) => python_only(r),
            _ => false,
        },
    }
}

/// How a job ends for what its bridge call gave back.
pub open spec fn finish_spec(job: JobView, reply: BridgeReply) -> JobOutcomeView {
    match reply {
        BridgeReply::Listed { saves, free } => JobOutcomeView { event: load_event(saves, free), next: None },
        BridgeReply::Imported(r) => change_outcome(job_card(job), "Import completed."@, r),
        BridgeReply::Exported(r) => export_outcome_spec(r),
        BridgeReply::Deleted(r) => change_outcome(job_card(job), "Delete completed."@, r),
    }
}

impl BridgeCall {
    /// Makes the call through the bridge, importing `python_core` from
    /// `working_dir`, with exactly the call's arguments.
    pub fn perform(&self, working_dir: &str) -> (r: BridgeReply)
        ensures
            reply_fits(self@, r),
    {
        match self {
            BridgeCall::ListAndMeasure { card } => {
                let saves = list_saves(card.as_str(), working_dir);
                let free = get_free_space(card.as_str(), working_dir);
                BridgeReply::Listed { saves, free }
            },
            BridgeCall::Import { card, save_path, dest_dir, ignore_existing } => {
                let dest = match dest_dir {
                    Some(d) => Some(d.as_str()),
                    None => None,
                };
                BridgeReply::Imported(
                    import_save(card.as_str(), save_path.as_str(), dest, *ignore_existing, working_dir),
                )
            },
            BridgeCall::Export { card, dirname, output_path, fmt } => {
                let output = match output_path {
                    Some(p) => Some(p.as_str()),
                    None => None,
                };
                BridgeReply::Exported(
                    export_save(card.as_str(), dirname.as_str(), output, fmt.as_str(), working_dir),
                )
            },
            BridgeCall::Delete { card, dirname } => {
                BridgeReply::Deleted(delete_save(card.as_str(), dirname.as_str(), working_dir))
            },
        }
    }
}

impl Job {
    /// The event that announces the job.
    pub fn busy_event(&self) -> (e: UiEvent)
        ensures
            e@ == UiEventView::Busy(busy_text(self@)),
    {
        match self {
            Job::Load { card } => UiEvent::Busy(join3("Loading ", card.as_str(), "...")),
            Job::Import { .. } => UiEvent::Busy("Importing save...".to_owned()),
            Job::Export { .. } => UiEvent::Busy("Exporting save...".to_owned()),
            Job::Delete { dirname, .. } => UiEvent::Busy(join3("Deleting ", dirname.as_str(), "...")),
        }
    }

    /// The outcome of the job when the bridge could not be reached at all
    /// (for instance when the working directory cannot be read).
    pub fn failed(&self, error: &BridgeError) -> (o: JobOutcome)
        ensures
            o@ == (JobOutcomeView { event: UiEventView::Error(error.text()), next: None }),
    {
        JobOutcome { event: UiEvent::Error(error.message()), next: None }
    }

    /// The bridge call the job makes: a load lists the saves and reads the
    /// free space of its card; an import brings its file into its card with
    /// no destination directory and without ignoring an existing save; an
    /// export writes its save to its output file in the `psu` format; a delete
    /// removes its save from its card.
    pub fn bridge_call(&self) -> (c: BridgeCall)
        ensures
            c@ == job_call(self@),
    {
        match self {
            Job::Load { card } => BridgeCall::ListAndMeasure { card: card.clone() },
            Job::Import { card, save_path } => BridgeCall::Import {
                card: card.clone(),
                save_path: save_path.clone(),
                dest_dir: None,
                ignore_existing: false,
            },
            Job::Export { card, dirname, output } => BridgeCall::Export {
                card: card.clone(),
                dirname: dirname.clone(),
                output_path: Some(output.clone()),
                fmt: "psu".to_owned(),
            },
            Job::Delete { card, dirname } => BridgeCall::Delete {
                card: card.clone(),
                dirname: dirname.clone(),
            },
        }
    }

    /// How the job ended, given what its bridge call gave back.
    pub fn finish(&self, reply: BridgeReply) -> (o: JobOutcome)
        ensures
            o@ == finish_spec(self@, reply),
    {
        match reply {
            BridgeReply::Listed { saves, free } => load_outcome(saves, free),
            BridgeReply::Imported(result) => import_outcome(self.card(), result),
            BridgeReply::Exported(result) => export_outcome(result),
            BridgeReply::Deleted(result) => delete_outcome(self.card(), result),
        }
    }

    /// The card the job works on.
    pub fn card(&self) -> (c: &String)
        ensures
            c@ == job_card(self@),
    {
        match self {
            Job::Load { card } => card,
            Job::Import { card, .. } => card,
            Job::Export { card, .. } => card,
            Job::Delete { card, .. } => card,
        }
    }

    /// Does the job through the bridge, importing `python_core` from
    /// `working_dir`: makes exactly the call `bridge_call` gives and ends as
    /// `finish` says for what came back.
    pub fn run(&self, working_dir: &str) -> (o: JobOutcome)
        ensures
            exists|reply: BridgeReply|
                reply_fits(job_call(self@), reply) && o@ == #[trigger] finish_spec(self@, reply),
            possible_outcome(self@, o@),
    {
        let call = self.bridge_call();
        let reply = call.perform(working_dir);
        let ghost given = reply;
        let o = self.finish(reply);
        proof {
            if let BridgeReply::Exported(Ok(p)) = given {
                assert(o@.event == UiEventView::Info("Exported to "@ + p@));
            }
        }
        o
    }
}


/// The card a job works on.
pub open spec fn job_card(job: JobView) -> Seq<char> {
    match job {
        JobView::Load { card } => card,
        JobView::Import { card, .. } => card,
        JobView::Export { card, .. } => card,
        JobView::Delete { card, .. } => card,
    }
}

/// Whatever the Python side does, a job is followed by another only after an
/// import or a delete that worked, and the job that follows loads the same
/// card again; a job that fails starts nothing.
pub proof fn only_successful_changes_reload(job: JobView, o: JobOutcomeView)
    requires
        possible_outcome(job, o),
    ensures
        o.next matches Some(n) ==> {
            &&& n == JobView::Load { card: job_card(job) }
            &&& o.event is Info
            &&& (job is Import || job is Delete)
        },
        o.event is Error ==> o.next is None,
{
}

/// A job's bridge call works on the job's own card and save: a load lists and
/// measures its card; an import brings its own file into its card, with no
/// destination directory and without ignoring an existing save; an export
/// writes its own save to its own output file in the "psu" format; a delete
/// removes its own save from its card.
pub proof fn bridge_calls_carry_the_job(job: JobView)
    ensures
        job_call(job) == (match job {
            JobView::Load { card } => BridgeCallView::ListAndMeasure { card },
            JobView::Import { card, save_path } => BridgeCallView::Import {
                card,
                save_path,
                dest_dir: None,
                ignore_existing: false,
            },
            JobView::Export { card, dirname, output } => BridgeCallView::Export {
                card,
                dirname,
                output_path: Some(output),
                fmt: "psu"@,
            },
            JobView::Delete { card, dirname } => BridgeCallView::Delete { card, dirname },
        }),
{
}

/// A job announces itself with the card a load reads, or the save a delete
/// removes, between "Loading " or "Deleting " and "...".
pub proof fn busy_texts_name_the_job(job: JobView)
    ensures
        busy_text(job) == (match job {
            JobView::Load { card } => "Loading "@ + card + "..."@,
            JobView::Import { .. } => "Importing save..."@,
            JobView::Export { .. } => "Exporting save..."@,
            JobView::Delete { dirname, .. } => "Deleting "@ + dirname + "..."@,
        }),
{
}

/// A job reports exactly what its bridge call gave back: a load shows every
/// save listed and the free space measured, or the first error (the listing's
/// before the measuring's); an import or delete that worked says so and loads
/// the job's card again; an export that worked names the file written; any
/// error is shown with its text and starts nothing.
pub proof fn jobs_report_what_came_back(job: JobView, reply: BridgeReply)
    ensures
        finish_spec(job, reply) == (match reply {
            BridgeReply::Listed { saves: Err(e), .. } => JobOutcomeView {
                event: UiEventView::Error(e.text()),
                next: None,
            },
            BridgeReply::Listed { saves: Ok(_), free: Err(e) } => JobOutcomeView {
                event: UiEventView::Error(e.text()),
                next: None,
            },
            BridgeReply::Listed { saves: Ok(v), free: Ok(n) } => JobOutcomeView {
                event: UiEventView::Loaded { entries: entries_view(v@), free_space: n },
                next: None,
            },
            BridgeReply::Imported(Ok(_)) => JobOutcomeView {
                event: UiEventView::Info("Import completed."@),
                next: Some(JobView::Load { card: job_card(job) }),
            },
            BridgeReply::Deleted(Ok(_)) => JobOutcomeView {
                event: UiEventView::Info("Delete completed."@),
                next: Some(JobView::Load { card: job_card(job) }),
            },
            BridgeReply::Exported(Ok(p)) => JobOutcomeView {
                event: UiEventView::Info("Exported to "@ + p@),
                next: None,
            },
            BridgeReply::Imported(Err(e)) => JobOutcomeView { event: UiEventView::Error(e.text()), next: None },
            BridgeReply::Exported(Err(e)) => JobOutcomeView { event: UiEventView::Error(e.text()), next: None },
            BridgeReply::Deleted(Err(e)) => JobOutcomeView { event: UiEventView::Error(e.text()), next: None },
        }),
{
}

} // verus!
