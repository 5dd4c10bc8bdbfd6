//! The rename pass over one folder, as a machine that is told what happened
//! and answers with what to log and what to do next. The caller lists the
//! folder, renames the files and waits for key presses; every decision of the
//! pass is taken here.

use vstd::prelude::*;
use crate::config::RunConfig;
use crate::extension::{has_extension, matches_extension};
use crate::logging::{entries, Entry, Level, LogRecord};
use crate::messages::{
    argument_read_failed, argument_read_failed_text, entry_failed, entry_failed_text, finished,
    finished_text, folder_missing, folder_missing_text, input_read_failed,
    input_read_failed_text, logger_failed, logger_failed_text, processed, processed_text, prompt,
    prompt_text, rename_failed, rename_failed_text, renamed, renamed_text,
};
use crate::sanitize::{char_replace, sanitized};
use crate::text::text_of;

verus! {

/// How far a pass has come.
#[derive(Clone, Copy, Debug, PartialEq, Eq, Structural)]
pub enum Phase {
    /// The outcome of setting up the logger is awaited.
    Starting,
    /// The logger is set up; whether the folder is there is awaited.
    Unchecked,
    /// The folder is missing, and the key press that follows the report is
    /// awaited.
    AwaitingKey,
    /// The next entry of the folder is awaited.
    Listing,
    /// The outcome of a rename is awaited.
    Renaming,
    /// The listing is exhausted, and the last key press is awaited.
    Closing,
    /// The pass is over.
    Finished,
}

/// Where a prompt is shown.
#[derive(Clone, Copy, Debug, PartialEq, Eq, Structural)]
pub enum Channel {
    Stdout,
    Stderr,
}

/// What the caller reports to the pass.
#[derive(Debug)]
pub enum Event {
    /// The logger was set up; `failure` says why it could not be, if it could
    /// not.
    LoggerReady { failure: Option<String> },
    /// Whether the folder of the run is there.
    FolderChecked { exists: bool },
    /// A key press was awaited; `failure` says why it could not be read, if
    /// it could not.
    KeyRead { failure: Option<String> },
    /// The listing gave an entry with this file name and this path.
    EntryFound { file_name: String, path: String },
    /// The listing could not read an entry.
    EntryFailed { error: String },
    /// The rename that was asked for is done; the file is now at `new_path`.
    Renamed { new_path: String },
    /// The rename that was asked for was refused.
    RenameFailed { error: String },
    /// The listing has no more entries.
    ListingEnded,
}

/// What the caller is to do next.
#[derive(Debug)]
pub enum Action {
    /// Look whether the folder of the run is there.
    CheckFolder,
    /// Show `text` on the standard error stream and leave, with no entry
    /// touched.
    Abort { text: String },
    /// Show `text` on `channel` and wait for a key press.
    Prompt { channel: Channel, text: String },
    /// Take the next entry of the listing, opening the listing first if it is
    /// not open yet.
    NextEntry,
    /// Rename the entry that was reported last from the file name `from` to
    /// the file name `to`, in the same folder.
    Rename { from: String, to: String },
    /// Leave.
    Exit,
}

/// The answer of the pass to one event.
#[derive(Debug)]
pub struct Step {
    /// What to log, in this order.
    pub logs: Vec<LogRecord>,
    /// What to do after that.
    pub action: Action,
}

/// An event that was not taken: it cannot follow what the pass asked for
/// last.
#[derive(Clone, Copy, Debug, PartialEq, Eq, Structural)]
pub struct UnexpectedEvent {
    /// The phase in which the event came.
    pub phase: Phase,
}

/// An event with its texts as sequences of characters.
pub enum EventView {
    LoggerReady { failure: Option<Seq<char>> },
    FolderChecked { exists: bool },
    KeyRead { failure: Option<Seq<char>> },
    EntryFound { file_name: Seq<char>, path: Seq<char> },
    EntryFailed { error: Seq<char> },
    Renamed { new_path: Seq<char> },
    RenameFailed { error: Seq<char> },
    ListingEnded,
}

/// An action with its texts as sequences of characters.
pub enum ActionView {
    CheckFolder,
    Abort { text: Seq<char> },
    Prompt { channel: Channel, text: Seq<char> },
    NextEntry,
    Rename { from: Seq<char>, to: Seq<char> },
    Exit,
}

/// An answer with its texts as sequences of characters.
pub struct StepView {
    pub logs: Seq<Entry>,
    pub action: ActionView,
}

impl View for Event {
    type V = EventView;

    open spec fn view(&self) -> EventView {
        match *self {
            Event::LoggerReady { failure } => EventView::LoggerReady { failure: text_of(failure) },
            Event::FolderChecked { exists } => EventView::FolderChecked { exists },
            Event::KeyRead { failure } => EventView::KeyRead { failure: text_of(failure) },
            Event::EntryFound { file_name, path } => EventView::EntryFound {
                file_name: file_name@,
                path: path@,
            },
            Event::EntryFailed { error } => EventView::EntryFailed { error: error@ },
            Event::Renamed { new_path } => EventView::Renamed { new_path: new_path@ },
            Event::RenameFailed { error } => EventView::RenameFailed { error: error@ },
            Event::ListingEnded => EventView::ListingEnded,
        }
    }
}

impl View for Action {
    type V = ActionView;

    open spec fn view(&self) -> ActionView {
        match *self {
            Action::CheckFolder => ActionView::CheckFolder,
            Action::Abort { text } => ActionView::Abort { text: text@ },
            Action::Prompt { channel, text } => ActionView::Prompt { channel, text: text@ },
            Action::NextEntry => ActionView::NextEntry,
            Action::Rename { from, to } => ActionView::Rename { from: from@, to: to@ },
            Action::Exit => ActionView::Exit,
        }
    }
}

impl View for Step {
    type V = StepView;

    open spec fn view(&self) -> StepView {
        StepView { logs: entries(self.logs@), action: self.action@ }
    }
}

/// The rename that a pass is waiting for.
pub struct PendingRename {
    /// The file name of the entry.
    pub name: Seq<char>,
    /// The file name that it is to have.
    pub new_name: Seq<char>,
    /// The path of the entry.
    pub path: Seq<char>,
}

/// What a pass knows between two events.
pub struct PassState {
    /// The folder of the run.
    pub folder: Seq<char>,
    /// The extension by which entries are chosen.
    pub ext: Seq<char>,
    pub phase: Phase,
    /// How many entries were chosen so far, the pending one included, whether
    /// their renames were done or refused.
    pub matched: nat,
    /// The rename that is waited for, in the phase `Renaming` and in no other.
    pub pending: Option<PendingRename>,
}

/// A state with what follows it: the logs and the action of the step.
pub struct Outcome {
    pub state: PassState,
    pub logs: Seq<Entry>,
    pub action: ActionView,
}

/// The greatest count of chosen entries that a pass can hold. The count
/// stays there once it is reached.
pub open spec fn counter_limit() -> nat {
    0xffff_ffff_ffff_ffff
}

/// The count after one more entry was chosen.
pub open spec fn counted_up(count: nat) -> nat {
    if count < counter_limit() {
        count + 1
    } else {
        count
    }
}

/// The state in which a pass over `folder` for the extension `ext` begins.
pub open spec fn initial_state(folder: Seq<char>, ext: Seq<char>) -> PassState {
    PassState { folder, ext, phase: Phase::Starting, matched: 0, pending: None }
}

/// The records for a key press: none where it was read, one error where it
/// was not.
pub open spec fn key_logs(failure: Option<Seq<char>>, before_listing: bool) -> Seq<Entry> {
    match failure {
        Some(e) => seq![
            Entry {
                level: Level::Error,
                text: if before_listing {
                    argument_read_failed_text(e)
                } else {
                    input_read_failed_text(e)
                },
            },
        ],
        None => Seq::empty(),
    }
}

/// The records for a rename that was done, as the `count`-th chosen entry:
/// the two file names, the two paths, and after every tenth entry the progress
/// marker.
pub open spec fn renamed_logs(pending: PendingRename, new_path: Seq<char>, count: nat) -> Seq<
    Entry,
> {
    let done = seq![
        Entry { level: Level::Info, text: renamed_text(pending.name, pending.new_name) },
        Entry { level: Level::Info, text: renamed_text(pending.path, new_path) },
    ];
    if count % 10 == 0 {
        done.push(Entry { level: Level::Trace, text: processed_text(count) })
    } else {
        done
    }
}

/// What follows from `event` in `state`: the next state, what is logged, and
/// what the caller is to do; or why the event is not taken.
pub open spec fn transition(state: PassState, event: EventView) -> Result<
    Outcome,
    UnexpectedEvent,
> {
    match (state.phase, event) {
        (Phase::Starting, EventView::LoggerReady { failure }) => match failure {
            None => Ok(
                Outcome {
                    state: PassState { phase: Phase::Unchecked, ..state },
                    logs: Seq::empty(),
                    action: ActionView::CheckFolder,
                },
            ),
            Some(e) => Ok(
                Outcome {
                    state: PassState { phase: Phase::Finished, ..state },
                    logs: Seq::empty(),
                    action: ActionView::Abort { text: logger_failed_text(e) },
                },
            ),
        },
        (Phase::Unchecked, EventView::FolderChecked { exists }) => if exists {
            Ok(
                Outcome {
                    state: PassState { phase: Phase::Listing, ..state },
                    logs: Seq::empty(),
                    action: ActionView::NextEntry,
                },
            )
        } else {
            Ok(
                Outcome {
                    state: PassState { phase: Phase::AwaitingKey, ..state },
                    logs: seq![
                        Entry { level: Level::Error, text: folder_missing_text(state.folder) },
                    ],
                    action: ActionView::Prompt { channel: Channel::Stderr, text: prompt_text() },
                },
            )
        },
        (Phase::AwaitingKey, EventView::KeyRead { failure }) => Ok(
            Outcome {
                state: PassState { phase: Phase::Listing, ..state },
                logs: key_logs(failure, true),
                action: ActionView::NextEntry,
            },
        ),
        (Phase::Listing, EventView::EntryFailed { error }) => Ok(
            Outcome {
                state,
                logs: seq![Entry { level: Level::Error, text: entry_failed_text(error) }],
                action: ActionView::NextEntry,
            },
        ),
        (Phase::Listing, EventView::EntryFound { file_name, path }) => if !has_extension(
            file_name,
            state.ext,
        ) {
            Ok(Outcome { state, logs: Seq::empty(), action: ActionView::NextEntry })
        } else {
            Ok(
                Outcome {
                    state: PassState {
                        phase: Phase::Renaming,
                        matched: counted_up(state.matched),
                        pending: Some(
                            PendingRename { name: file_name, new_name: sanitized(file_name), path },
                        ),
                        ..state
                    },
                    logs: Seq::empty(),
                    action: ActionView::Rename { from: file_name, to: sanitized(file_name) },
                },
            )
        },
        (Phase::Listing, EventView::ListingEnded) => Ok(
            Outcome {
                state: PassState { phase: Phase::Closing, ..state },
                logs: seq![Entry { level: Level::Info, text: finished_text() }],
                action: ActionView::Prompt { channel: Channel::Stdout, text: prompt_text() },
            },
        ),
        (Phase::Renaming, EventView::Renamed { new_path }) => match state.pending {
            Some(pending) => Ok(
                Outcome {
                    state: PassState { phase: Phase::Listing, pending: None, ..state },
                    logs: renamed_logs(pending, new_path, state.matched),
                    action: ActionView::NextEntry,
                },
            ),
            None => Err(UnexpectedEvent { phase: state.phase }),
        },
        (Phase::Renaming, EventView::RenameFailed { error }) => match state.pending {
            Some(pending) => Ok(
                Outcome {
                    state: PassState { phase: Phase::Listing, pending: None, ..state },
                    logs: seq![
                        Entry {
                            level: Level::Warn,
                            text: rename_failed_text(pending.path, error),
                        },
                    ],
                    action: ActionView::NextEntry,
                },
            ),
            None => Err(UnexpectedEvent { phase: state.phase }),
        },
        (Phase::Closing, EventView::KeyRead { failure }) => Ok(
            Outcome {
                state: PassState { phase: Phase::Finished, ..state },
                logs: key_logs(failure, false),
                action: ActionView::Exit,
            },
        ),
        _ => Err(UnexpectedEvent { phase: state.phase }),
    }
}

/// Whether `event` reports an entry whose extension is `ext`.
pub open spec fn is_chosen(event: EventView, ext: Seq<char>) -> bool {
    event matches EventView::EntryFound { file_name, .. } && has_extension(file_name, ext)
}

/// How many of `events` report an entry whose extension is `ext`.
pub open spec fn chosen_count(events: Seq<EventView>, ext: Seq<char>) -> nat
    decreases events.len(),
{
    if events.len() == 0 {
        0
    } else if is_chosen(events.last(), ext) {
        chosen_count(events.drop_last(), ext) + 1
    } else {
        chosen_count(events.drop_last(), ext)
    }
}

/// The state after `events`, one after the other, from `state`; `None` where
/// one of them is refused.
pub open spec fn run(state: PassState, events: Seq<EventView>) -> Option<PassState>
    decreases events.len(),
{
    if events.len() == 0 {
        Some(state)
    } else {
        match run(state, events.drop_last()) {
            Some(before) => match transition(before, events.last()) {
                Ok(out) => Some(out.state),
                Err(_) => None,
            },
            None => None,
        }
    }
}

/// A rename is asked for only while the folder is listed, only for an entry
/// whose extension is exactly the one of the run, and then from the entry's
/// file name to the sanitized file name. Any other entry is passed over: the
/// state stays as it is, nothing is logged, and the next entry is asked for.
pub proof fn lemma_only_chosen_entries_renamed(state: PassState, event: EventView)
    ensures
        match transition(state, event) {
            Ok(out) => out.action is Rename ==> {
                &&& state.phase == Phase::Listing
                &&& is_chosen(event, state.ext)
                &&& event matches EventView::EntryFound { file_name, .. } && out.action == (
                ActionView::Rename { from: file_name, to: sanitized(file_name) })
            },
            Err(_) => true,
        },
        state.phase == Phase::Listing && event is EntryFound && !is_chosen(event, state.ext)
            ==> transition(state, event) == Ok::<Outcome, UnexpectedEvent>(
            Outcome { state, logs: Seq::empty(), action: ActionView::NextEntry },
        ),
{
}

/// The progress marker is logged after a rename that was done exactly if the
/// count of chosen entries is then a multiple of ten, as the last record and
/// with that count; no other step logs at the level of the marker.
pub proof fn lemma_progress_marker(state: PassState, event: EventView)
    ensures
        match transition(state, event) {
            Ok(out) => {
                &&& (exists|i: int| 0 <= i < out.logs.len() && out.logs[i].level == Level::Trace)
                    <==> (event is Renamed && state.matched % 10 == 0)
                &&& event is Renamed && state.matched % 10 == 0 ==> out.logs.last() == (Entry {
                    level: Level::Trace,
                    text: processed_text(state.matched),
                })
            },
            Err(_) => true,
        },
{
    if let Ok(out) = transition(state, event) {
        if event is Renamed && state.matched % 10 == 0 {
            assert(out.logs[2].level == Level::Trace);
        }
    }
}

/// A pass that begins over `folder` for `ext` and takes `events` keeps its
/// folder and its extension, has counted exactly the entries with that
/// extension, however many others were passed over (up to the greatest count
/// it can hold), and waits for a rename exactly in the phase `Renaming`.
pub proof fn lemma_run_counts_chosen(folder: Seq<char>, ext: Seq<char>, events: Seq<EventView>)
    ensures
        match run(initial_state(folder, ext), events) {
            Some(state) => {
                &&& state.folder == folder
                &&& state.ext == ext
                &&& state.matched == if chosen_count(events, ext) <= counter_limit() {
                    chosen_count(events, ext)
                } else {
                    counter_limit()
                }
                &&& state.pending is Some <==> state.phase == Phase::Renaming
            },
            None => true,
        },
    decreases events.len(),
{
    if events.len() > 0 {
        lemma_run_counts_chosen(folder, ext, events.drop_last());
    }
}

/// A pass that has finished takes no further event.
pub proof fn lemma_finished_is_final(state: PassState, event: EventView)
    requires
        state.phase == Phase::Finished,
    ensures
        transition(state, event) == Err::<Outcome, UnexpectedEvent>(UnexpectedEvent { phase: Phase::Finished }),
{
}

/// A rename pass over one folder.
#[derive(Debug)]
pub struct RenamePass {
    folder: String,
    ext: String,
    phase: Phase,
    matched: u64,
    pending_name: String,
    pending_new: String,
    pending_path: String,
}

impl View for RenamePass {
    type V = PassState;

    closed spec fn view(&self) -> PassState {
        PassState {
            folder: self.folder@,
            ext: self.ext@,
            phase: self.phase,
            matched: self.matched as nat,
            pending: if self.phase == Phase::Renaming {
                Some(
                    PendingRename {
                        name: self.pending_name@,
                        new_name: self.pending_new@,
                        path: self.pending_path@,
                    },
                )
            } else {
                None
            },
        }
    }
}

fn one_record(level: Level, message: String) -> (res: Vec<LogRecord>)
    ensures
        entries(res@) == seq![Entry { level, text: message@ }],
{
    let mut res: Vec<LogRecord> = Vec::new();
    res.push(LogRecord { level, message });
    assert(entries(res@) =~= seq![Entry { level, text: message@ }]);
    res
}

fn no_record() -> (res: Vec<LogRecord>)
    ensures
        entries(res@) == Seq::<Entry>::empty(),
{
    let res: Vec<LogRecord> = Vec::new();
    assert(entries(res@) =~= Seq::<Entry>::empty());
    res
}

impl RenamePass {
    /// A pass over the folder of `config` for its extension, with nothing done
    /// yet: it waits to hear whether the logger could be set up.
    pub fn new(config: &RunConfig) -> (res: RenamePass)
        ensures
            res@ == initial_state(config.folder@, config.ext@),
    {
        RenamePass {
            folder: config.folder.clone(),
            ext: config.ext.clone(),
            phase: Phase::Starting,
            matched: 0,
            pending_name: String::new(),
            pending_new: String::new(),
            pending_path: String::new(),
        }
    }

    /// How far the pass has come.
    pub fn phase(&self) -> (res: Phase)
        ensures
            res == self@.phase,
    {
        self.phase
    }

    /// How many entries were chosen so far.
    pub fn matched(&self) -> (res: u64)
        ensures
            res == self@.matched,
    {
        self.matched
    }

    fn key_read(&mut self, failure: Option<String>) -> (res: Step)
        requires
            old(self).phase == Phase::AwaitingKey || old(self).phase == Phase::Closing,
        ensures
            transition(old(self)@, EventView::KeyRead { failure: text_of(failure) })
                matches Ok(out) && final(self)@ == out.state && res@ == (StepView {
                logs: out.logs,
                action: out.action,
            }),
    {
        let before_listing = self.phase == Phase::AwaitingKey;
        let logs = match failure {
            Some(e) => {
                let message = if before_listing {
                    argument_read_failed(e.as_str())
                } else {
                    input_read_failed(e.as_str())
                };
                one_record(Level::Error, message)
            },
            None => no_record(),
        };
        if before_listing {
            self.phase = Phase::Listing;
            Step { logs, action: Action::NextEntry }
        } else {
            self.phase = Phase::Finished;
            Step { logs, action: Action::Exit }
        }
    }

    fn entry_found(&mut self, file_name: String, path: String) -> (res: Step)
        requires
            old(self).phase == Phase::Listing,
        ensures
            transition(old(self)@, EventView::EntryFound { file_name: file_name@, path: path@ })
                matches Ok(out) && final(self)@ == out.state && res@ == (StepView {
                logs: out.logs,
                action: out.action,
            }),
    {
        if !matches_extension(file_name.as_str(), &self.ext) {
            Step { logs: no_record(), action: Action::NextEntry }
        } else {
            let new_name = char_replace(file_name.as_str());
            if self.matched < u64::MAX {
                self.matched = self.matched + 1;
            }
            self.pending_name = file_name.clone();
            self.pending_new = new_name.clone();
            self.pending_path = path;
            self.phase = Phase::Renaming;
            Step { logs: no_record(), action: Action::Rename { from: file_name, to: new_name } }
        }
    }

    fn rename_done(&mut self, new_path: String) -> (res: Step)
        requires
            old(self).phase == Phase::Renaming,
        ensures
            transition(old(self)@, EventView::Renamed { new_path: new_path@ }) matches Ok(out)
                && final(self)@ == out.state && res@ == (StepView {
                logs: out.logs,
                action: out.action,
            }),
    {
        let mut logs: Vec<LogRecord> = Vec::new();
        logs.push(
            LogRecord {
                level: Level::Info,
                message: renamed(self.pending_name.as_str(), self.pending_new.as_str()),
            },
        );
        logs.push(
            LogRecord {
                level: Level::Info,
                message: renamed(self.pending_path.as_str(), new_path.as_str()),
            },
        );
        if self.matched % 10 == 0 {
            logs.push(LogRecord { level: Level::Trace, message: processed(self.matched) });
        }
        assert(entries(logs@) =~= renamed_logs(
            old(self)@.pending->0,
            new_path@,
            old(self)@.matched,
        ));
        self.phase = Phase::Listing;
        Step { logs, action: Action::NextEntry }
    }

    /// Takes one event: moves the pass on and says what to log and what to do
    /// next. An event that cannot follow what the pass asked for last is
    /// refused and leaves the pass as it was.
    pub fn step(&mut self, event: Event) -> (res: Result<Step, UnexpectedEvent>)
        ensures
            match transition(old(self)@, event@) {
                Ok(out) => res matches Ok(step) && step@ == (StepView {
                    logs: out.logs,
                    action: out.action,
                }) && final(self)@ == out.state,
                Err(e) => res matches Err(found) && found == e && final(self)@ == old(self)@,
            },
    {
        match event {
            Event::LoggerReady { failure } => {
                if self.phase != Phase::Starting {
                    Err(UnexpectedEvent { phase: self.phase })
                } else {
                    match failure {
                        None => {
                            self.phase = Phase::Unchecked;
                            Ok(Step { logs: no_record(), action: Action::CheckFolder })
                        },
                        Some(e) => {
                            self.phase = Phase::Finished;
                            Ok(
                                Step {
                                    logs: no_record(),
                                    action: Action::Abort { text: logger_failed(e.as_str()) },
                                },
                            )
                        },
                    }
                }
            },
            Event::FolderChecked { exists } => {
                if self.phase != Phase::Unchecked {
                    Err(UnexpectedEvent { phase: self.phase })
                } else if exists {
                    self.phase = Phase::Listing;
                    Ok(Step { logs: no_record(), action: Action::NextEntry })
                } else {
                    self.phase = Phase::AwaitingKey;
                    Ok(
                        Step {
                            logs: one_record(Level::Error, folder_missing(self.folder.as_str())),
                            action: Action::Prompt { channel: Channel::Stderr, text: prompt() },
                        },
                    )
                }
            },
            Event::KeyRead { failure } => {
                if self.phase == Phase::AwaitingKey || self.phase == Phase::Closing {
                    Ok(self.key_read(failure))
                } else {
                    Err(UnexpectedEvent { phase: self.phase })
                }
            },
            Event::EntryFound { file_name, path } => {
                if self.phase == Phase::Listing {
                    Ok(self.entry_found(file_name, path))
                } else {
                    Err(UnexpectedEvent { phase: self.phase })
                }
            },
            Event::EntryFailed { error } => {
                if self.phase == Phase::Listing {
                    Ok(
                        Step {
                            logs: one_record(Level::Error, entry_failed(error.as_str())),
                            action: Action::NextEntry,
                        },
                    )
                } else {
                    Err(UnexpectedEvent { phase: self.phase })
                }
            },
            Event::Renamed { new_path } => {
                if self.phase == Phase::Renaming {
                    Ok(self.rename_done(new_path))
                } else {
                    Err(UnexpectedEvent { phase: self.phase })
                }
            },
            Event::RenameFailed { error } => {
                if self.phase == Phase::Renaming {
                    let logs = one_record(
                        Level::Warn,
                        rename_failed(self.pending_path.as_str(), error.as_str()),
                    );
                    self.phase = Phase::Listing;
                    Ok(Step { logs, action: Action::NextEntry })
                } else {
                    Err(UnexpectedEvent { phase: self.phase })
                }
            },
            Event::ListingEnded => {
                if self.phase == Phase::Listing {
                    self.phase = Phase::Closing;
                    Ok(
                        Step {
                            logs: one_record(Level::Info, finished()),
                            action: Action::Prompt { channel: Channel::Stdout, text: prompt() },
                        },
                    )
                } else {
                    Err(UnexpectedEvent { phase: self.phase })
                }
            },
        }
    }
}

} // verus!
