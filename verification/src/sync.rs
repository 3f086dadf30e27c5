//! One pass over a listing: what to do for each file, in turn.
//!
//! The driver does no work on the network or on disk. It hands out one
//! [`Action`] at a time; its caller performs the action and hands back the
//! [`Event`] that tells how it went.

use crate::stats::{Transfer, TransferStats};
use crate::text::{split, split_at, texts, trim_end, trim_end_matches};
use crate::wft::{entry_views, total_size, Directory, Entry, EntryView, Error, ErrorView};
use vstd::prelude::*;
use vstd::string::*;

verus! {

/// How a local file stands to the remote file of the same name.
#[derive(Debug, Clone, Copy, PartialEq, Eq, Structural)]
pub enum FileStatus {
    /// There is no local file.
    Missing,
    /// The local file is as long as the remote one.
    UpToDate,
    /// The local file is there, with another length.
    Outdated,
}

/// The status of a local file of `local_size` bytes, `None` where there is no
/// such file, beside a remote file of `remote_size` bytes.
pub open spec fn status_of(local_size: Option<u64>, remote_size: u64) -> FileStatus {
    match local_size {
        None => FileStatus::Missing,
        Some(size) => if size == remote_size {
            FileStatus::UpToDate
        } else {
            FileStatus::Outdated
        },
    }
}

/// Compares a local file with the remote one. `local_size` is the length of
/// the local file, `None` where there is none. When the remote file was last
/// changed does not count.
pub fn file_status(local_size: Option<u64>, remote_size: u64, remote_mtime: u64) -> (status:
    FileStatus)
    ensures
        status == status_of(local_size, remote_size),
{
    match local_size {
        Some(size) => {
            if size == remote_size {
                FileStatus::UpToDate
            } else {
                FileStatus::Outdated
            }
        },
        None => FileStatus::Missing,
    }
}

/// The remote path of the file `name` in `remote_directory`: the directory
/// without the separators at its end, one separator, and the name.
pub open spec fn remote_path(remote_directory: Seq<char>, name: Seq<char>) -> Seq<char> {
    trim_end(remote_directory, '/') + "/"@ + name
}

/// The remote path of the file `name` in `remote_directory`.
pub fn remote_file_path(remote_directory: &str, name: &str) -> (path: String)
    ensures
        path@ == remote_path(remote_directory@, name@),
{
    trim_end_matches(remote_directory, '/').to_owned().concat("/").concat(name)
}

/// The segments of `remote_directory`, to be joined below the local output
/// root one after another: the directory cut at each separator.
pub fn local_segments(remote_directory: &str) -> (segments: Vec<String>)
    ensures
        texts(segments@) == split_at(remote_directory@, '/'),
{
    split(remote_directory, '/')
}

/// What the caller reports back to the driver.
#[derive(Debug, Clone, PartialEq, Eq)]
pub enum Event {
    /// The local file was looked at: its length, `None` where there is none.
    Inspected { local_size: Option<u64> },
    /// The remote file came: its bytes.
    Fetched { bytes: Vec<u8> },
    /// The remote file did not come.
    FetchFailed { error: Error },
    /// The bytes were written to the local file.
    Stored,
    /// The bytes could not be written to the local file at `path`.
    StoreFailed { path: String, reason: String },
    /// The progress was reported.
    Reported,
}

/// What an [`Event`] stands for.
pub ghost enum EventView {
    Inspected { local_size: Option<u64> },
    Fetched { bytes: Seq<u8> },
    FetchFailed { error: ErrorView },
    Stored,
    StoreFailed { path: Seq<char>, reason: Seq<char> },
    Reported,
}

impl View for Event {
    type V = EventView;

    open spec fn view(&self) -> EventView {
        match self {
            Event::Inspected { local_size } => EventView::Inspected { local_size: *local_size },
            Event::Fetched { bytes } => EventView::Fetched { bytes: bytes@ },
            Event::FetchFailed { error } => EventView::FetchFailed { error: error@ },
            Event::Stored => EventView::Stored,
            Event::StoreFailed { path, reason } => EventView::StoreFailed {
                path: path@,
                reason: reason@,
            },
            Event::Reported => EventView::Reported,
        }
    }
}

/// What the driver asks its caller to do next.
#[derive(Debug, Clone, PartialEq, Eq)]
pub enum Action {
    /// Look at the local file `name` in the output directory.
    Inspect { name: String },
    /// Download the remote file at `remote_path`.
    Fetch { remote_path: String },
    /// Write `bytes` to the local file `name` in the output directory.
    Store { name: String, bytes: Vec<u8> },
    /// Report the progress, now that the file `name` is done.
    Report { name: String },
    /// Nothing is left to do: the run has succeeded.
    Finish,
    /// Nothing more is to be done: the run has failed with `error`.
    Abort { error: Error },
}

/// What an [`Action`] stands for.
pub ghost enum ActionView {
    Inspect { name: Seq<char> },
    Fetch { remote_path: Seq<char> },
    Store { name: Seq<char>, bytes: Seq<u8> },
    Report { name: Seq<char> },
    Finish,
    Abort { error: ErrorView },
}

impl View for Action {
    type V = ActionView;

    open spec fn view(&self) -> ActionView {
        match self {
            Action::Inspect { name } => ActionView::Inspect { name: name@ },
            Action::Fetch { remote_path } => ActionView::Fetch { remote_path: remote_path@ },
            Action::Store { name, bytes } => ActionView::Store { name: name@, bytes: bytes@ },
            Action::Report { name } => ActionView::Report { name: name@ },
            Action::Finish => ActionView::Finish,
            Action::Abort { error } => ActionView::Abort { error: error@ },
        }
    }
}

/// Where a run stands with the file that it is at.
#[derive(Debug, Clone, Copy, PartialEq, Eq, Structural)]
pub enum Phase {
    /// The local file is being looked at.
    Inspecting,
    /// The remote file is being downloaded.
    Fetching,
    /// The `length` bytes that came are being written.
    Storing { length: u64 },
    /// The progress is being reported.
    Reporting,
    /// Every file has been visited.
    Finished,
    /// The run has failed.
    Aborted,
}

/// What a [`SyncDriver`] stands for.
pub ghost struct SyncState {
    /// The remote directory that is mirrored.
    pub remote_directory: Seq<char>,
    /// The files of its listing, in the listing's order.
    pub files: Seq<EntryView>,
    /// How many files the run has left behind.
    pub position: nat,
    /// Where the run stands with the file at `position`.
    pub phase: Phase,
    /// The account of what has been downloaded.
    pub stats: Transfer,
}

impl SyncState {
    /// Whether the run is at a file, with work on it under way.
    pub open spec fn busy(self) -> bool {
        self.phase is Inspecting || self.phase is Fetching || self.phase is Storing
            || self.phase is Reporting
    }

    /// What holds of every run: it is at a file while work is under way and
    /// behind the last when it has finished, and the bytes that are being
    /// written can still be counted.
    pub open spec fn wf(self) -> bool {
        &&& self.position <= self.files.len()
        &&& self.busy() ==> self.position < self.files.len()
        &&& self.phase is Finished ==> self.position == self.files.len()
        &&& self.phase matches Phase::Storing { length } ==> self.stats.downloaded + length
            <= u64::MAX
        &&& self.stats.total_bytes == total_size(self.files)
    }

    /// The file that the run is at.
    pub open spec fn current(self) -> EntryView {
        self.files[self.position as int]
    }

    /// Whether `event` answers the action that the run is waiting for. Bytes
    /// that came are taken only while the count of all that came stays below
    /// 2^64.
    pub open spec fn accepts(self, event: EventView) -> bool {
        match (self.phase, event) {
            (Phase::Inspecting, EventView::Inspected { .. }) => true,
            (Phase::Fetching, EventView::Fetched { bytes }) => self.stats.downloaded + bytes.len()
                <= u64::MAX,
            (Phase::Fetching, EventView::FetchFailed { .. }) => true,
            (Phase::Storing { .. }, EventView::Stored) => true,
            (Phase::Storing { .. }, EventView::StoreFailed { .. }) => true,
            (Phase::Reporting, EventView::Reported) => true,
            _ => false,
        }
    }

    /// The run as it begins at the file `position`, with the action that
    /// begins it: to look at that file, or to finish where no file is left.
    pub open spec fn arrive(self, position: nat) -> (SyncState, ActionView) {
        if position < self.files.len() {
            (
                SyncState { position, phase: Phase::Inspecting, ..self },
                ActionView::Inspect { name: self.files[position as int].name },
            )
        } else {
            (SyncState { position, phase: Phase::Finished, ..self }, ActionView::Finish)
        }
    }

    /// The run of `files` of `remote_directory` as it starts, with its first
    /// action.
    pub open spec fn start(remote_directory: Seq<char>, files: Seq<EntryView>) -> (
        SyncState,
        ActionView,
    ) {
        (SyncState {
            remote_directory,
            files,
            position: 0,
            phase: Phase::Inspecting,
            stats: Transfer { total_bytes: total_size(files), downloaded: 0 },
        }).arrive(0)
    }

    /// The run after `event`, with the action that it asks for next.
    ///
    /// A local file that is up to date is passed over. Any other is
    /// downloaded, written and counted, and the progress reported, before the
    /// run goes on. A download or a write that fails ends the run. Of an event
    /// that the run does not accept nothing is said.
    pub open spec fn step(self, event: EventView) -> (SyncState, ActionView) {
        match (self.phase, event) {
            (Phase::Inspecting, EventView::Inspected { local_size }) => {
                if status_of(local_size, self.current().size) is UpToDate {
                    self.arrive(self.position + 1)
                } else {
                    (
                        SyncState { phase: Phase::Fetching, ..self },
                        ActionView::Fetch {
                            remote_path: remote_path(self.remote_directory, self.current().name),
                        },
                    )
                }
            },
            (Phase::Fetching, EventView::Fetched { bytes }) => (
                SyncState { phase: Phase::Storing { length: bytes.len() as u64 }, ..self },
                ActionView::Store { name: self.current().name, bytes },
            ),
            (Phase::Fetching, EventView::FetchFailed { error }) => (
                SyncState { phase: Phase::Aborted, ..self },
                ActionView::Abort { error },
            ),
            (Phase::Storing { length }, EventView::Stored) => (
                SyncState {
                    phase: Phase::Reporting,
                    stats: self.stats.update(length as nat),
                    ..self
                },
                ActionView::Report { name: self.current().name },
            ),
            (Phase::Storing { .. }, EventView::StoreFailed { path, reason }) => (
                SyncState { phase: Phase::Aborted, ..self },
                ActionView::Abort { error: ErrorView::LocalWriteFailure { path, reason } },
            ),
            (Phase::Reporting, EventView::Reported) => self.arrive(self.position + 1),
            _ => arbitrary(),
        }
    }
}

/// Drives one pass over the files of a listing.
pub struct SyncDriver {
    remote_directory: String,
    files: Vec<Entry>,
    position: usize,
    phase: Phase,
    stats: TransferStats,
}

impl View for SyncDriver {
    type V = SyncState;

    closed spec fn view(&self) -> SyncState {
        SyncState {
            remote_directory: self.remote_directory@,
            files: entry_views(self.files@),
            position: self.position as nat,
            phase: self.phase,
            stats: self.stats@,
        }
    }
}

impl SyncDriver {
    #[verifier::type_invariant]
    spec fn well_formed(self) -> bool {
        self@.wf()
    }

    /// Begins the run at the file `position`.
    fn arrive(&mut self, position: usize) -> (action: Action)
        requires
            position <= old(self).files.len(),
            !(old(self).phase is Finished),
        ensures
            (final(self)@, action@) == old(self)@.arrive(position as nat),
    {
        proof {
            use_type_invariant(&*self);
        }
        if position < self.files.len() {
            self.position = position;
            self.phase = Phase::Inspecting;
            Action::Inspect { name: self.files[position].name.clone() }
        } else {
            // The run is well formed after each assignment only if it is in
            // neither phase while the position moves behind the last file.
            self.phase = Phase::Aborted;
            self.position = position;
            self.phase = Phase::Finished;
            Action::Finish
        }
    }

    /// Starts a run over the files of `directory`, the listing of
    /// `remote_directory`, and gives its first action.
    pub fn start(remote_directory: String, directory: Directory) -> (r: (SyncDriver, Action))
        requires
            directory@.total_size() <= u64::MAX,
        ensures
            (r.0@, r.1@) == SyncState::start(remote_directory@, directory@.files),
            r.0@.wf(),
    {
        let total = directory.total_size();
        // The phase is set by `arrive`: with no file there is none to look at.
        let mut driver = SyncDriver {
            remote_directory,
            files: directory.files,
            position: 0,
            phase: Phase::Aborted,
            stats: TransferStats::new(total),
        };
        let action = driver.arrive(0);
        proof {
            use_type_invariant(&driver);
        }
        (driver, action)
    }

    /// The account of what has been downloaded.
    pub fn stats(&self) -> (stats: &TransferStats)
        ensures
            stats@ == self@.stats,
    {
        &self.stats
    }

    /// Where the run stands.
    pub fn phase(&self) -> (phase: Phase)
        ensures
            phase == self@.phase,
    {
        self.phase
    }

    /// Whether `event` answers the action that the run is waiting for.
    pub fn accepts(&self, event: &Event) -> (r: bool)
        ensures
            r == self@.accepts(event@),
    {
        match (self.phase, event) {
            (Phase::Inspecting, Event::Inspected { .. }) => true,
            (Phase::Fetching, Event::Fetched { bytes }) => {
                bytes.len() as u64 <= u64::MAX - self.stats.downloaded
            },
            (Phase::Fetching, Event::FetchFailed { .. }) => true,
            (Phase::Storing { .. }, Event::Stored) => true,
            (Phase::Storing { .. }, Event::StoreFailed { .. }) => true,
            (Phase::Reporting, Event::Reported) => true,
            _ => false,
        }
    }

    /// Takes the event that answers the last action, and gives the next
    /// action.
    pub fn step(&mut self, event: Event) -> (action: Action)
        requires
            old(self)@.accepts(event@),
        ensures
            (final(self)@, action@) == old(self)@.step(event@),
            final(self)@.wf(),
    {
        proof {
            use_type_invariant(&*self);
        }
        assert(self.position < self.files.len());
        let action = match event {
            Event::Inspected { local_size } => {
                let entry = &self.files[self.position];
                match file_status(local_size, entry.size, entry.modified) {
                    FileStatus::UpToDate => {
                        let next = self.position + 1;
                        self.arrive(next)
                    },
                    _ => {
                        let remote_path = remote_file_path(
                            self.remote_directory.as_str(),
                            entry.name.as_str(),
                        );
                        self.phase = Phase::Fetching;
                        Action::Fetch { remote_path }
                    },
                }
            },
            Event::Fetched { bytes } => {
                let name = self.files[self.position].name.clone();
                self.phase = Phase::Storing { length: bytes.len() as u64 };
                Action::Store { name, bytes }
            },
            Event::FetchFailed { error } => {
                self.phase = Phase::Aborted;
                Action::Abort { error }
            },
            Event::Stored => {
                let length = match self.phase {
                    Phase::Storing { length } => length,
                    _ => unreached(),
                };
                let name = self.files[self.position].name.clone();
                self.phase = Phase::Reporting;
                self.stats.update(length);
                Action::Report { name }
            },
            Event::StoreFailed { path, reason } => {
                self.phase = Phase::Aborted;
                Action::Abort { error: Error::LocalWriteFailure { path, reason } }
            },
            Event::Reported => {
                let next = self.position + 1;
                self.arrive(next)
            },
        };
        proof {
            use_type_invariant(&*self);
        }
        action
    }
}

impl SyncState {
    /// The run after `events`, each answered in turn, with the actions that
    /// it asked for on the way.
    pub open spec fn run(self, events: Seq<EventView>) -> (SyncState, Seq<ActionView>)
        decreases events.len(),
    {
        if events.len() == 0 {
            (self, Seq::empty())
        } else {
            let (next, action) = self.step(events[0]);
            let (last, actions) = next.run(events.drop_first());
            (last, seq![action] + actions)
        }
    }

    /// Whether each of `events` answers the action that the run is waiting
    /// for when it comes.
    pub open spec fn accepts_all(self, events: Seq<EventView>) -> bool
        decreases events.len(),
    {
        events.len() == 0 || (self.accepts(events[0]) && self.step(events[0]).0.accepts_all(
            events.drop_first(),
        ))
    }

    /// The file that the run looks at next: the one it is at while it has
    /// not looked at it, else the one after it.
    pub open spec fn next_inspected(self) -> nat {
        if self.phase is Inspecting || self.phase is Finished || self.phase is Aborted {
            self.position
        } else {
            self.position + 1
        }
    }
}

/// What `events` tell of the local files that were looked at, in order.
pub open spec fn inspections(events: Seq<EventView>) -> Seq<Option<u64>>
    decreases events.len(),
{
    if events.len() == 0 {
        Seq::empty()
    } else {
        match events[0] {
            EventView::Inspected { local_size } => seq![local_size] + inspections(
                events.drop_first(),
            ),
            _ => inspections(events.drop_first()),
        }
    }
}

/// The remote paths that `actions` ask to download, in order.
pub open spec fn fetches(actions: Seq<ActionView>) -> Seq<Seq<char>>
    decreases actions.len(),
{
    if actions.len() == 0 {
        Seq::empty()
    } else {
        match actions[0] {
            ActionView::Fetch { remote_path } => seq![remote_path] + fetches(
                actions.drop_first(),
            ),
            _ => fetches(actions.drop_first()),
        }
    }
}

/// The remote paths of the files that are not up to date, among those of
/// `files` from `from` on whose local files have the lengths `local`.
pub open spec fn stale(
    remote_directory: Seq<char>,
    files: Seq<EntryView>,
    from: nat,
    local: Seq<Option<u64>>,
) -> Seq<Seq<char>>
    decreases local.len(),
{
    if local.len() == 0 || from >= files.len() {
        Seq::empty()
    } else {
        let rest = stale(remote_directory, files, from + 1, local.drop_first());
        if status_of(local[0], files[from as int].size) is UpToDate {
            rest
        } else {
            seq![remote_path(remote_directory, files[from as int].name)] + rest
        }
    }
}

/// Every step of a run leaves it well formed.
pub proof fn law_step_keeps_well_formed(state: SyncState, event: EventView)
    requires
        state.wf(),
        state.accepts(event),
    ensures
        state.step(event).0.wf(),
{
}

/// A run downloads the files that are not up to date, each once and in the
/// listing's order, and no other: whatever the events, the downloads that it
/// asks for are those of the files that it has looked at and found missing or
/// of another length. The files are looked at in the listing's order, each at
/// most once, and a run that has finished has looked at every one.
pub proof fn law_one_download_per_stale_file(state: SyncState, events: Seq<EventView>)
    requires
        state.wf(),
        state.accepts_all(events),
    ensures
        state.run(events).0.wf(),
        fetches(state.run(events).1) == stale(
            state.remote_directory,
            state.files,
            state.next_inspected(),
            inspections(events),
        ),
        state.next_inspected() + inspections(events).len() <= state.files.len(),
        !(state.run(events).0.phase is Aborted) ==> state.next_inspected() + inspections(
            events,
        ).len() == state.run(events).0.next_inspected(),
        state.run(events).0.phase is Finished ==> state.next_inspected() + inspections(
            events,
        ).len() == state.files.len(),
    decreases events.len(),
{
    if events.len() > 0 {
        let (next, action) = state.step(events[0]);
        let rest = events.drop_first();
        law_one_download_per_stale_file(next, rest);
        let actions = next.run(rest).1;
        assert((seq![action] + actions).drop_first() == actions);
        if let EventView::Inspected { local_size } = events[0] {
            assert((seq![local_size] + inspections(rest)).drop_first() == inspections(rest));
        } else if next.phase is Aborted {
            // A run that has failed accepts no event.
            assert(next.accepts_all(rest));
            assert(rest.len() == 0);
        }
    }
}

} // verus!
