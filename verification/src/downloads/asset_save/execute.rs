//! Saving one asset: what to do next, and what to report.

use vstd::prelude::*;
use crate::json::{self, Json, JsonModel, JsonObject, NumberModel};
use crate::locator;
use crate::text;
use crate::web;
use super::paths;
use super::paths::{
    OutputPathModel,
    SavedAssetOutputPathState,
    SavedAssetStatus,
    reserve_reconciled_output_path,
    saved_asset_output_path_state,
    set_tracked_output_path,
    set_tracked_temp_path,
    take_tracked_temp_path,
    tracked_output_path,
};
use super::request::{AssetSource, SourceModel};

verus! {

/// What is reported of one asset.
#[derive(Debug)]
pub struct SavedAssetEntry {
    pub index: u32,
    pub url: String,
    pub status: SavedAssetStatus,
    pub output_path: String,
    pub output_path_state: Option<SavedAssetOutputPathState>,
    pub source_name: Option<String>,
    pub bytes_written: Option<u64>,
    pub durability_confirmed: Option<bool>,
    pub error: Option<String>,
}

/// What is reported of one asset, over texts.
#[verifier::ext_equal]
pub struct EntryModel {
    pub index: u32,
    pub url: Seq<char>,
    pub status: SavedAssetStatus,
    pub output_path: Seq<char>,
    pub output_path_state: Option<OutputPathModel>,
    pub source_name: Option<Seq<char>>,
    pub bytes_written: Option<u64>,
    pub durability_confirmed: Option<bool>,
    pub error: Option<Seq<char>>,
}

pub open spec fn opt_state(o: Option<SavedAssetOutputPathState>) -> Option<OutputPathModel> {
    match o {
        Some(s) => Some(s@),
        None => None,
    }
}

impl View for SavedAssetEntry {
    type V = EntryModel;

    open spec fn view(&self) -> EntryModel {
        EntryModel {
            index: self.index,
            url: self.url@,
            status: self.status,
            output_path: self.output_path@,
            output_path_state: opt_state(self.output_path_state),
            source_name: text::opt_text(self.source_name),
            bytes_written: self.bytes_written,
            durability_confirmed: self.durability_confirmed,
            error: text::opt_text(self.error),
        }
    }
}

pub open spec fn entry_models(v: Seq<SavedAssetEntry>) -> Seq<EntryModel> {
    Seq::new(v.len(), |i: int| v[i]@)
}

/// The report on an asset that ended with a status.
pub open spec fn entry_of(
    source: SourceModel,
    status: SavedAssetStatus,
    output_path: Seq<char>,
    bytes_written: Option<u64>,
    confirmed: Option<bool>,
    error: Option<Seq<char>>,
) -> EntryModel {
    EntryModel {
        index: source.index,
        url: source.url,
        status,
        output_path,
        output_path_state: Some(paths::output_state(status, confirmed)),
        source_name: source.source_name,
        bytes_written,
        durability_confirmed: if confirmed == Some(false) {
            Some(false)
        } else {
            None
        },
        error,
    }
}

fn entry_value(
    source: &AssetSource,
    status: SavedAssetStatus,
    output_path: String,
    bytes_written: Option<u64>,
    confirmed: Option<bool>,
    error: Option<String>,
) -> (r: SavedAssetEntry)
    ensures
        r@ == entry_of(
            source@,
            status,
            output_path@,
            bytes_written,
            confirmed,
            text::opt_text(error),
        ),
{
    SavedAssetEntry {
        index: source.index,
        url: source.url.clone(),
        status,
        output_path,
        output_path_state: Some(saved_asset_output_path_state(status, confirmed)),
        source_name: text::clone_opt(&source.source_name),
        bytes_written,
        durability_confirmed: match confirmed {
            Some(false) => Some(false),
            _ => None,
        },
        error,
    }
}

/// The report on an asset that ran out of time.
pub open spec fn timed_out(
    source: SourceModel,
    output_path: Option<Seq<char>>,
    reason: Seq<char>,
) -> EntryModel {
    entry_of(
        source,
        SavedAssetStatus::TimedOut,
        match output_path {
            Some(path) => path,
            None => source.output_path,
        },
        None,
        None,
        Some(reason),
    )
}

pub fn timeout_entry(source: &AssetSource, output_path: Option<String>, reason: &str) -> (r:
    SavedAssetEntry)
    ensures
        r@ == timed_out(source@, text::opt_text(output_path), reason@),
{
    let path = match output_path {
        Some(path) => path,
        None => source.output_path.clone(),
    };
    entry_value(source, SavedAssetStatus::TimedOut, path, None, None, Some(reason.to_owned()))
}

/// How far saving an asset has come.
#[derive(Clone, Copy, Debug, PartialEq, Eq, Structural)]
pub enum SavePhase {
    Idle,
    Requested,
    Headed,
    Reserved,
    Writing,
    Prepared,
    Committing,
    Finished,
}

/// The saving of one asset.
#[derive(Debug)]
pub struct AssetSave {
    pub source: AssetSource,
    pub overwrite: bool,
    /// Where the asset goes, once that is settled.
    pub output_slot: Option<String>,
    /// The unfinished file, while there is one.
    pub temp_slot: Option<String>,
    pub bytes_written: u64,
    pub phase: SavePhase,
}

/// The saving of one asset, over texts.
#[verifier::ext_equal]
pub struct SaveModel {
    pub source: SourceModel,
    pub overwrite: bool,
    pub output: Option<Seq<char>>,
    pub temp: Option<Seq<char>>,
    pub bytes_written: u64,
    pub phase: SavePhase,
}

impl View for AssetSave {
    type V = SaveModel;

    open spec fn view(&self) -> SaveModel {
        SaveModel {
            source: self.source@,
            overwrite: self.overwrite,
            output: text::opt_text(self.output_slot),
            temp: text::opt_text(self.temp_slot),
            bytes_written: self.bytes_written,
            phase: self.phase,
        }
    }
}

/// Whether what is remembered fits how far saving has come.
pub open spec fn save_wf(m: SaveModel) -> bool {
    &&& (m.phase == SavePhase::Reserved || m.phase == SavePhase::Writing || m.phase
        == SavePhase::Prepared || m.phase == SavePhase::Committing) ==> m.output is Some
    &&& (m.phase == SavePhase::Writing || m.phase == SavePhase::Prepared || m.phase
        == SavePhase::Committing) <==> m.temp is Some
}

/// What happened to an asset that is being saved.
#[derive(Debug)]
pub enum SaveEvent {
    /// Saving was asked for.
    Begin { deadline_passed: bool },
    /// The server answered.
    Response { status: u16 },
    /// Whether the output file is there was looked up; the path is that of the
    /// unfinished file.
    Checked { exists: bool, temp_path: String },
    /// A piece of the asset was written.
    Written { len: u64 },
    /// The whole asset was written.
    Flushed,
    /// The clock was read before the commit.
    Deadline { passed: bool },
    Committed { durability_confirmed: bool },
    CommitFailed { already_exists: bool, cause: String },
    /// The request or a file operation failed.
    Failed { error: String },
    /// The time for the request is over.
    TimedOut,
}

/// What happened, over texts.
#[verifier::ext_equal]
pub enum EventModel {
    Begin(bool),
    Response(u16),
    Checked(bool, Seq<char>),
    Written(u64),
    Flushed,
    Deadline(bool),
    Committed(bool),
    CommitFailed(bool, Seq<char>),
    Failed(Seq<char>),
    TimedOut,
}

impl View for SaveEvent {
    type V = EventModel;

    open spec fn view(&self) -> EventModel {
        match self {
            SaveEvent::Begin { deadline_passed } => EventModel::Begin(*deadline_passed),
            SaveEvent::Response { status } => EventModel::Response(*status),
            SaveEvent::Checked { exists, temp_path } => EventModel::Checked(*exists, temp_path@),
            SaveEvent::Written { len } => EventModel::Written(*len),
            SaveEvent::Flushed => EventModel::Flushed,
            SaveEvent::Deadline { passed } => EventModel::Deadline(*passed),
            SaveEvent::Committed { durability_confirmed } => EventModel::Committed(
                *durability_confirmed,
            ),
            SaveEvent::CommitFailed { already_exists, cause } => EventModel::CommitFailed(
                *already_exists,
                cause@,
            ),
            SaveEvent::Failed { error } => EventModel::Failed(error@),
            SaveEvent::TimedOut => EventModel::TimedOut,
        }
    }
}

/// What to do next for an asset.
#[derive(Debug)]
pub enum SaveAction {
    Nothing,
    SendRequest,
    ReadFirstChunk,
    CheckExisting { path: String },
    /// Make the unfinished file, and write the first piece to it.
    OpenTemp { path: String },
    ReadChunk,
    CheckDeadline,
    Commit { temp: String, output: String, overwrite: bool },
    /// Remove the unfinished file, where one is named, and report the entry.
    Finish { entry: SavedAssetEntry, remove: Option<String> },
}

/// What to do next, over texts.
#[verifier::ext_equal]
pub enum ActionModel {
    Nothing,
    SendRequest,
    ReadFirstChunk,
    CheckExisting(Seq<char>),
    OpenTemp(Seq<char>),
    ReadChunk,
    CheckDeadline,
    Commit(Seq<char>, Seq<char>, bool),
    Finish(EntryModel, Option<Seq<char>>),
}

impl View for SaveAction {
    type V = ActionModel;

    open spec fn view(&self) -> ActionModel {
        match self {
            SaveAction::Nothing => ActionModel::Nothing,
            SaveAction::SendRequest => ActionModel::SendRequest,
            SaveAction::ReadFirstChunk => ActionModel::ReadFirstChunk,
            SaveAction::CheckExisting { path } => ActionModel::CheckExisting(path@),
            SaveAction::OpenTemp { path } => ActionModel::OpenTemp(path@),
            SaveAction::ReadChunk => ActionModel::ReadChunk,
            SaveAction::CheckDeadline => ActionModel::CheckDeadline,
            SaveAction::Commit { temp, output, overwrite } => ActionModel::Commit(
                temp@,
                output@,
                *overwrite,
            ),
            SaveAction::Finish { entry, remove } => ActionModel::Finish(
                entry@,
                text::opt_text(*remove),
            ),
        }
    }
}

/// Saving that has ended: nothing is left to remove later.
pub open spec fn ended(m: SaveModel) -> SaveModel {
    SaveModel { temp: None, phase: SavePhase::Finished, ..m }
}

/// Ends saving with a report, and removes the unfinished file.
pub open spec fn ends(m: SaveModel, entry: EntryModel) -> (SaveModel, ActionModel) {
    (ended(m), ActionModel::Finish(entry, m.temp))
}

/// Where the asset goes as far as is known.
pub open spec fn path_so_far(m: SaveModel) -> Seq<char> {
    match m.output {
        Some(path) => path,
        None => m.source.output_path,
    }
}

pub open spec fn failed(m: SaveModel, cause: Seq<char>) -> EntryModel {
    entry_of(m.source, SavedAssetStatus::Failed, path_so_far(m), None, None, Some(cause))
}

pub open spec fn skipped(m: SaveModel) -> EntryModel {
    entry_of(m.source, SavedAssetStatus::SkippedExisting, path_so_far(m), None, None, None)
}

/// Whether the request of an asset is under way.
pub open spec fn in_request(phase: SavePhase) -> bool {
    phase == SavePhase::Requested || phase == SavePhase::Headed || phase == SavePhase::Reserved
        || phase == SavePhase::Writing
}

/// The sum, or the largest number where it is larger.
pub open spec fn capped_sum(a: u64, b: u64) -> u64 {
    if a + b > u64::MAX {
        u64::MAX
    } else {
        (a + b) as u64
    }
}

/// What an event leads to: the next state, and what to do. An event that does
/// not fit changes nothing.
pub open spec fn advanced(m: SaveModel, e: EventModel) -> (SaveModel, ActionModel) {
    match e {
        EventModel::Begin(deadline_passed) => if m.phase != SavePhase::Idle {
            (m, ActionModel::Nothing)
        } else if deadline_passed {
            ends(
                m,
                timed_out(m.source, None, "asset_request_timed_out_before_download_started"@),
            )
        } else {
            (SaveModel { phase: SavePhase::Requested, ..m }, ActionModel::SendRequest)
        },
        EventModel::Response(status) => if m.phase != SavePhase::Requested {
            (m, ActionModel::Nothing)
        } else if status != 200 {
            ends(m, failed(m, "http_status:"@ + web::status_words(status)))
        } else {
            (SaveModel { phase: SavePhase::Headed, ..m }, ActionModel::ReadFirstChunk)
        },
        EventModel::Checked(exists, temp_path) => if m.phase != SavePhase::Reserved {
            (m, ActionModel::Nothing)
        } else if exists && !m.overwrite {
            ends(m, skipped(m))
        } else {
            (
                SaveModel { temp: Some(temp_path), phase: SavePhase::Writing, ..m },
                ActionModel::OpenTemp(temp_path),
            )
        },
        EventModel::Written(len) => if m.phase != SavePhase::Writing {
            (m, ActionModel::Nothing)
        } else {
            (
                SaveModel { bytes_written: capped_sum(m.bytes_written, len), ..m },
                ActionModel::ReadChunk,
            )
        },
        EventModel::Flushed => if m.phase != SavePhase::Writing {
            (m, ActionModel::Nothing)
        } else {
            (SaveModel { phase: SavePhase::Prepared, ..m }, ActionModel::CheckDeadline)
        },
        EventModel::Deadline(passed) => if m.phase != SavePhase::Prepared {
            (m, ActionModel::Nothing)
        } else if passed {
            ends(
                m,
                timed_out(m.source, m.output, "asset_commit_deadline_exceeded_before_commit"@),
            )
        } else {
            (
                SaveModel { phase: SavePhase::Committing, ..m },
                ActionModel::Commit(m.temp->0, m.output->0, m.overwrite),
            )
        },
        EventModel::Committed(confirmed) => if m.phase != SavePhase::Committing {
            (m, ActionModel::Nothing)
        } else {
            (
                ended(m),
                ActionModel::Finish(
                    entry_of(
                        m.source,
                        SavedAssetStatus::Saved,
                        path_so_far(m),
                        Some(m.bytes_written),
                        Some(confirmed),
                        None,
                    ),
                    None,
                ),
            )
        },
        EventModel::CommitFailed(already_exists, cause) => if m.phase != SavePhase::Committing {
            (m, ActionModel::Nothing)
        } else if already_exists {
            ends(m, skipped(m))
        } else {
            ends(m, failed(m, cause))
        },
        EventModel::Failed(cause) => if !in_request(m.phase) {
            (m, ActionModel::Nothing)
        } else {
            ends(m, failed(m, cause))
        },
        EventModel::TimedOut => if !in_request(m.phase) {
            (m, ActionModel::Nothing)
        } else {
            ends(m, timed_out(m.source, m.output, "asset_request_timed_out"@))
        },
    }
}

impl AssetSave {
    /// Starts the saving of an asset.
    pub fn new(source: AssetSource, overwrite: bool) -> (r: AssetSave)
        ensures
            save_wf(r@),
            r@ == (SaveModel {
                source: source@,
                overwrite,
                output: None,
                temp: None,
                bytes_written: 0,
                phase: SavePhase::Idle,
            }),
    {
        AssetSave {
            source,
            overwrite,
            output_slot: None,
            temp_slot: None,
            bytes_written: 0,
            phase: SavePhase::Idle,
        }
    }

    fn end(&mut self, entry: SavedAssetEntry) -> (r: SaveAction)
        ensures
            (final(self)@, r@) == ends(old(self)@, entry@),
    {
        let remove = take_tracked_temp_path(&mut self.temp_slot);
        self.phase = SavePhase::Finished;
        SaveAction::Finish { entry, remove }
    }

    fn path_known(&self) -> (r: String)
        ensures
            r@ == path_so_far(self@),
    {
        match tracked_output_path(&self.output_slot) {
            Some(path) => path,
            None => self.source.output_path.clone(),
        }
    }

    fn fail(&mut self, cause: &str) -> (r: SaveAction)
        ensures
            (final(self)@, r@) == ends(old(self)@, failed(old(self)@, cause@)),
    {
        let entry = entry_value(
            &self.source,
            SavedAssetStatus::Failed,
            self.path_known(),
            None,
            None,
            Some(cause.to_owned()),
        );
        self.end(entry)
    }

    fn skip(&mut self) -> (r: SaveAction)
        ensures
            (final(self)@, r@) == ends(old(self)@, skipped(old(self)@)),
    {
        let entry = entry_value(
            &self.source,
            SavedAssetStatus::SkippedExisting,
            self.path_known(),
            None,
            None,
            None,
        );
        self.end(entry)
    }

    fn time_out(&mut self, reason: &str) -> (r: SaveAction)
        ensures
            (final(self)@, r@) == ends(
                old(self)@,
                timed_out(old(self)@.source, old(self)@.output, reason@),
            ),
    {
        let entry = timeout_entry(&self.source, tracked_output_path(&self.output_slot), reason);
        self.end(entry)
    }

    fn is_in_request(&self) -> (r: bool)
        ensures
            r == in_request(self@.phase),
    {
        matches!(
            self.phase,
            SavePhase::Requested | SavePhase::Headed | SavePhase::Reserved | SavePhase::Writing
        )
    }

    /// Settles where the asset goes, once the head of the answer and its first
    /// piece are there.
    pub fn reserve_output(
        &mut self,
        content_type: Option<&[u8]>,
        first_chunk: Option<&[u8]>,
        reserved_output_paths: &mut Vec<String>,
    ) -> (r: SaveAction)
        requires
            save_wf(old(self)@),
            old(reserved_output_paths)@.len() + 2 < u64::MAX,
        ensures
            save_wf(final(self)@),
            old(self)@.phase != SavePhase::Headed ==> final(self)@ == old(self)@ && r@
                == ActionModel::Nothing && text::texts(final(reserved_output_paths)@)
                == text::texts(old(reserved_output_paths)@),
            old(self)@.phase == SavePhase::Headed ==> {
                let others = paths::without(
                    text::texts(old(reserved_output_paths)@),
                    old(self)@.source.output_path,
                );
                &&& r@ is CheckExisting
                &&& paths::assigned(
                    others,
                    paths::reconciled_with_bytes(
                        old(self)@.source.output_path,
                        paths::opt_bytes(content_type),
                        paths::opt_bytes(first_chunk),
                    ),
                    r@->CheckExisting_0,
                )
                &&& text::texts(final(reserved_output_paths)@) == others.push(
                    r@->CheckExisting_0,
                )
                &&& final(self)@ == (SaveModel {
                    output: Some(r@->CheckExisting_0),
                    phase: SavePhase::Reserved,
                    ..old(self)@
                })
            },
    {
        if !matches!(self.phase, SavePhase::Headed) {
            return SaveAction::Nothing;
        }
        let path = reserve_reconciled_output_path(
            self.source.output_path.as_str(),
            content_type,
            first_chunk,
            reserved_output_paths,
        );
        set_tracked_output_path(&mut self.output_slot, Some(path.clone()));
        self.phase = SavePhase::Reserved;
        SaveAction::CheckExisting { path }
    }

    /// Takes in an event, and says what to do next.
    pub fn advance(&mut self, event: SaveEvent) -> (r: SaveAction)
        requires
            save_wf(old(self)@),
        ensures
            save_wf(final(self)@),
            (final(self)@, r@) == advanced(old(self)@, event@),
    {
        match event {
            SaveEvent::Begin { deadline_passed } => {
                if !matches!(self.phase, SavePhase::Idle) {
                    return SaveAction::Nothing;
                }
                if deadline_passed {
                    let entry = timeout_entry(
                        &self.source,
                        None,
                        "asset_request_timed_out_before_download_started",
                    );
                    return self.end(entry);
                }
                self.phase = SavePhase::Requested;
                SaveAction::SendRequest
            },
            SaveEvent::Response { status } => {
                if !matches!(self.phase, SavePhase::Requested) {
                    return SaveAction::Nothing;
                }
                if status != 200 {
                    let words = web::status_text(status);
                    let cause = text::cat2("http_status:", words.as_str());
                    return self.fail(cause.as_str());
                }
                self.phase = SavePhase::Headed;
                SaveAction::ReadFirstChunk
            },
            SaveEvent::Checked { exists, temp_path } => {
                if !matches!(self.phase, SavePhase::Reserved) {
                    return SaveAction::Nothing;
                }
                if exists && !self.overwrite {
                    return self.skip();
                }
                set_tracked_temp_path(&mut self.temp_slot, Some(temp_path.clone()));
                self.phase = SavePhase::Writing;
                SaveAction::OpenTemp { path: temp_path }
            },
            SaveEvent::Written { len } => {
                if !matches!(self.phase, SavePhase::Writing) {
                    return SaveAction::Nothing;
                }
                self.bytes_written = if len > u64::MAX - self.bytes_written {
                    u64::MAX
                } else {
                    self.bytes_written + len
                };
                SaveAction::ReadChunk
            },
            SaveEvent::Flushed => {
                if !matches!(self.phase, SavePhase::Writing) {
                    return SaveAction::Nothing;
                }
                self.phase = SavePhase::Prepared;
                SaveAction::CheckDeadline
            },
            SaveEvent::Deadline { passed } => {
                if !matches!(self.phase, SavePhase::Prepared) {
                    return SaveAction::Nothing;
                }
                if passed {
                    return self.time_out("asset_commit_deadline_exceeded_before_commit");
                }
                let temp = text::clone_opt(&self.temp_slot);
                let output = text::clone_opt(&self.output_slot);
                match (temp, output) {
                    (Some(temp), Some(output)) => {
                        self.phase = SavePhase::Committing;
                        SaveAction::Commit { temp, output, overwrite: self.overwrite }
                    },
                    _ => {
                        assert(false);
                        SaveAction::Nothing
                    },
                }
            },
            SaveEvent::Committed { durability_confirmed } => {
                if !matches!(self.phase, SavePhase::Committing) {
                    return SaveAction::Nothing;
                }
                set_tracked_temp_path(&mut self.temp_slot, None);
                let entry = entry_value(
                    &self.source,
                    SavedAssetStatus::Saved,
                    self.path_known(),
                    Some(self.bytes_written),
                    Some(durability_confirmed),
                    None,
                );
                self.phase = SavePhase::Finished;
                SaveAction::Finish { entry, remove: None }
            },
            SaveEvent::CommitFailed { already_exists, cause } => {
                if !matches!(self.phase, SavePhase::Committing) {
                    return SaveAction::Nothing;
                }
                if already_exists {
                    return self.skip();
                }
                self.fail(cause.as_str())
            },
            SaveEvent::Failed { error } => {
                if !self.is_in_request() {
                    return SaveAction::Nothing;
                }
                self.fail(error.as_str())
            },
            SaveEvent::TimedOut => {
                if !self.is_in_request() {
                    return SaveAction::Nothing;
                }
                self.time_out("asset_request_timed_out")
            },
        }
    }
}

/// A report is always about the asset it was made for, and saving is over once
/// it is made.
pub proof fn report_is_about_its_source(m: SaveModel, e: EventModel)
    requires
        save_wf(m),
        advanced(m, e).1 is Finish,
    ensures
        ({
            let entry = advanced(m, e).1->Finish_0;
            &&& entry.index == m.source.index
            &&& entry.url == m.source.url
            &&& entry.source_name == m.source.source_name
            &&& advanced(m, e).0.phase == SavePhase::Finished
        }),
{
}

/// No unfinished file is left behind: a report that says anything but saved
/// comes with the removal of the unfinished file, and a saved one had its file
/// committed.
pub proof fn no_unfinished_file_is_left(m: SaveModel, e: EventModel)
    requires
        save_wf(m),
        advanced(m, e).1 is Finish,
    ensures
        advanced(m, e).0.temp is None,
        advanced(m, e).1->Finish_0.status != SavedAssetStatus::Saved
            ==> advanced(m, e).1->Finish_1 == m.temp,
        advanced(m, e).1->Finish_0.status == SavedAssetStatus::Saved ==> m.phase
            == SavePhase::Committing && e is Committed && advanced(m, e).1->Finish_1 is None,
{
}

/// Where existing files are kept, the commit is told so, and a file that is
/// there ends saving; with overwriting, a file that is there never does.
pub proof fn existing_files_are_respected(m: SaveModel, temp_path: Seq<char>)
    requires
        save_wf(m),
        m.phase == SavePhase::Reserved,
    ensures
        !m.overwrite ==> advanced(m, EventModel::Checked(true, temp_path)) == ends(m, skipped(m)),
        m.overwrite ==> advanced(m, EventModel::Checked(true, temp_path)).1
            == ActionModel::OpenTemp(temp_path),
{
}

/// Once the time of a request is over before its asset is written, nothing is
/// committed.
pub proof fn timed_out_assets_are_not_committed(m: SaveModel)
    requires
        save_wf(m),
        in_request(m.phase),
    ensures
        advanced(m, EventModel::TimedOut).1 is Finish,
        advanced(m, EventModel::TimedOut).1->Finish_0.status == SavedAssetStatus::TimedOut,
        advanced(m, EventModel::TimedOut).1->Finish_0.error == Some("asset_request_timed_out"@),
{
}

pub open spec fn status_name(status: SavedAssetStatus) -> Seq<char> {
    match status {
        SavedAssetStatus::Saved => "saved"@,
        SavedAssetStatus::SkippedExisting => "skipped_existing"@,
        SavedAssetStatus::Failed => "failed"@,
        SavedAssetStatus::TimedOut => "timed_out"@,
    }
}

fn status_str(status: SavedAssetStatus) -> (r: &'static str)
    ensures
        r@ == status_name(status),
{
    match status {
        SavedAssetStatus::Saved => "saved",
        SavedAssetStatus::SkippedExisting => "skipped_existing",
        SavedAssetStatus::Failed => "failed",
        SavedAssetStatus::TimedOut => "timed_out",
    }
}

pub open spec fn output_state_json(s: OutputPathModel) -> JsonModel {
    JsonModel::Object(
        Map::<Seq<char>, JsonModel>::empty().insert(
            "path_kind"@,
            JsonModel::Text(s.path_kind),
        ).insert("path_authority"@, JsonModel::Text(s.path_authority)).insert(
            "upstream_truth"@,
            JsonModel::Text(s.upstream_truth),
        ).insert("control_role"@, JsonModel::Text(s.control_role)).insert(
            "durability"@,
            JsonModel::Text(s.durability),
        ),
    )
}

/// The report on an asset as a client reads it; what is not known is left out.
pub open spec fn entry_json(e: EntryModel) -> JsonModel {
    let base = Map::<Seq<char>, JsonModel>::empty().insert(
        "index"@,
        JsonModel::Number(NumberModel::Int(e.index as int)),
    ).insert("url"@, JsonModel::Text(e.url)).insert(
        "status"@,
        JsonModel::Text(status_name(e.status)),
    ).insert("output_path"@, JsonModel::Text(e.output_path));
    let stated = match e.output_path_state {
        Some(s) => base.insert("output_path_state"@, output_state_json(s)),
        None => base,
    };
    let named = locator::text_if(stated, "source_name"@, e.source_name);
    let counted = match e.bytes_written {
        Some(n) => named.insert(
            "bytes_written"@,
            JsonModel::Number(NumberModel::Int(n as int)),
        ),
        None => named,
    };
    let confirmed = match e.durability_confirmed {
        Some(b) => counted.insert("durability_confirmed"@, JsonModel::Bool(b)),
        None => counted,
    };
    JsonModel::Object(locator::text_if(confirmed, "error"@, e.error))
}

/// The report on an asset as a client reads it.
pub fn entry_json_value(e: &SavedAssetEntry) -> (r: Json)
    ensures
        r@ == entry_json(e@),
{
    let mut o = JsonObject::new().with("index", json::uint_value(e.index as u64)).with(
        "url",
        json::text_value(e.url.as_str()),
    ).with("status", json::text_value(status_str(e.status))).with(
        "output_path",
        json::text_value(e.output_path.as_str()),
    );
    if let Some(s) = &e.output_path_state {
        let state = JsonObject::new().with("path_kind", json::text_value(s.path_kind.as_str())).with(
            "path_authority",
            json::text_value(s.path_authority.as_str()),
        ).with("upstream_truth", json::text_value(s.upstream_truth.as_str())).with(
            "control_role",
            json::text_value(s.control_role.as_str()),
        ).with("durability", json::text_value(s.durability.as_str()));
        o.insert("output_path_state", Json::Object(state));
    }
    if let Some(name) = &e.source_name {
        o.insert("source_name", json::text_value(name.as_str()));
    }
    if let Some(n) = e.bytes_written {
        o.insert("bytes_written", json::uint_value(n));
    }
    if let Some(b) = e.durability_confirmed {
        o.insert("durability_confirmed", Json::Bool(b));
    }
    if let Some(error) = &e.error {
        o.insert("error", json::text_value(error.as_str()));
    }
    Json::Object(o)
}

/// Each event is taken in exactly one phase, and leads to exactly one action: the
/// request is sent once, its answer is read only where it is good, a file that is there
/// is kept unless it may be overwritten, and the file is committed only once it is
/// whole and its time is not over.
pub proof fn saving_goes_step_by_step(m: SaveModel, e: EventModel)
    ensures
        ({
            let (next, action) = advanced(m, e);
            &&& action is SendRequest <==> m.phase == SavePhase::Idle && e == EventModel::Begin(
                false,
            )
            &&& action is SendRequest ==> next.phase == SavePhase::Requested
            &&& action is ReadFirstChunk <==> m.phase == SavePhase::Requested && e
                == EventModel::Response(200)
            &&& action is ReadFirstChunk ==> next.phase == SavePhase::Headed
            &&& action is OpenTemp <==> m.phase == SavePhase::Reserved && (e matches
                EventModel::Checked(exists, _) && (exists ==> m.overwrite))
            &&& action matches ActionModel::OpenTemp(temp) ==> (e matches EventModel::Checked(
                _,
                path,
            ) && path == temp && next.temp == Some(path) && next.phase == SavePhase::Writing)
            &&& action is ReadChunk <==> m.phase == SavePhase::Writing && e is Written
            &&& action is ReadChunk ==> next.phase == SavePhase::Writing
            &&& action is CheckDeadline <==> m.phase == SavePhase::Writing && e is Flushed
            &&& action is CheckDeadline ==> next.phase == SavePhase::Prepared
            &&& action is Commit <==> m.phase == SavePhase::Prepared && e == EventModel::Deadline(
                false,
            )
            &&& action matches ActionModel::Commit(temp, output, overwrite) ==> temp == m.temp->0
                && output == m.output->0 && overwrite == m.overwrite && next.phase
                == SavePhase::Committing
            &&& !(action is CheckExisting)
            &&& action is Nothing ==> next == m
            &&& m.phase == SavePhase::Finished ==> action is Nothing
        }),
{
}

/// What a report says came of an asset, and when: it is saved exactly where its file
/// was committed, skipped where a file was in its way, out of time where a deadline
/// passed before the commit, and failed where the answer, the request or the commit
/// failed.
pub proof fn reports_say_what_came_of_it(m: SaveModel, e: EventModel)
    ensures
        ({
            let (next, action) = advanced(m, e);
            let under_way = m.phase == SavePhase::Requested || m.phase == SavePhase::Headed
                || m.phase == SavePhase::Reserved || m.phase == SavePhase::Writing;
            let saved = m.phase == SavePhase::Committing && e is Committed;
            let skipped = (m.phase == SavePhase::Reserved && !m.overwrite && (e matches
                EventModel::Checked(exists, _) && exists)) || (m.phase == SavePhase::Committing && (
            e matches EventModel::CommitFailed(there, _) && there));
            let timed_out = (m.phase == SavePhase::Idle && e == EventModel::Begin(true)) || (m.phase
                == SavePhase::Prepared && e == EventModel::Deadline(true)) || (under_way && e
                is TimedOut);
            let failed = (m.phase == SavePhase::Requested && (e matches EventModel::Response(status)
                && status != 200)) || (m.phase == SavePhase::Committing && (e matches
                EventModel::CommitFailed(there, _) && !there)) || (under_way && e is Failed);
            &&& action is Finish <==> saved || skipped || timed_out || failed
            &&& action matches ActionModel::Finish(entry, _) ==> {
                &&& entry.status == SavedAssetStatus::Saved <==> saved
                &&& entry.status == SavedAssetStatus::SkippedExisting <==> skipped
                &&& entry.status == SavedAssetStatus::TimedOut <==> timed_out
                &&& entry.status == SavedAssetStatus::Failed <==> failed
                &&& entry.error is Some <==> timed_out || failed
                &&& saved ==> entry.bytes_written == Some(m.bytes_written)
                &&& !saved ==> entry.bytes_written is None
                &&& (e matches EventModel::Committed(confirmed) && !confirmed)
                    <==> entry.durability_confirmed == Some(false)
                &&& entry.durability_confirmed is None || entry.durability_confirmed == Some(false)
                &&& m.output is Some ==> e is Begin || entry.output_path == m.output->0
                &&& m.output is None ==> entry.output_path == m.source.output_path
                &&& e matches EventModel::Failed(cause) ==> entry.error == Some(cause)
                &&& e matches EventModel::CommitFailed(there, cause) ==> (!there ==> entry.error
                    == Some(cause))
            }
        }),
{
}

/// The bytes of an asset are those of the pieces that were written, added up; no other
/// event changes their number, nor where the asset goes.
pub proof fn written_bytes_add_up(m: SaveModel, e: EventModel)
    ensures
        ({
            let next = advanced(m, e).0;
            &&& m.phase == SavePhase::Writing ==> (e matches EventModel::Written(len) ==> (
            m.bytes_written + len <= u64::MAX ==> next.bytes_written == m.bytes_written + len))
            &&& !(e is Written) ==> next.bytes_written == m.bytes_written
            &&& next.bytes_written >= m.bytes_written
            &&& next.output == m.output
            &&& next.source == m.source
            &&& next.overwrite == m.overwrite
        }),
{
}

/// Reports go by different names for different ends.
pub proof fn ends_are_told_apart(a: SavedAssetStatus, b: SavedAssetStatus)
    ensures
        status_name(a) == status_name(b) <==> a == b,
{
    reveal_strlit("saved");
    reveal_strlit("skipped_existing");
    reveal_strlit("failed");
    reveal_strlit("timed_out");
    assert("saved"@.len() != "skipped_existing"@.len());
    assert("saved"@.len() != "failed"@.len());
    assert("saved"@.len() != "timed_out"@.len());
    assert("skipped_existing"@.len() != "failed"@.len());
    assert("skipped_existing"@.len() != "timed_out"@.len());
    assert("failed"@.len() != "timed_out"@.len());
}

/// A report shows the number, the URL, the end and the path of its asset, and the name,
/// the bytes and the error exactly where it has them.
pub proof fn reports_are_shown_as_they_are(e: EntryModel)
    ensures
        ({
            let j = entry_json(e);
            &&& json::member(j, "index"@) == Some(json::number(e.index as int))
            &&& json::member(j, "url"@) == Some(JsonModel::Text(e.url))
            &&& json::member(j, "status"@) == Some(JsonModel::Text(status_name(e.status)))
            &&& json::member(j, "output_path"@) == Some(JsonModel::Text(e.output_path))
            &&& match e.source_name {
                Some(name) => json::member(j, "source_name"@) == Some(JsonModel::Text(name)),
                None => json::member(j, "source_name"@) is None,
            }
            &&& match e.bytes_written {
                Some(n) => json::member(j, "bytes_written"@) == Some(json::number(n as int)),
                None => json::member(j, "bytes_written"@) is None,
            }
            &&& match e.durability_confirmed {
                Some(b) => json::member(j, "durability_confirmed"@) == Some(JsonModel::Bool(b)),
                None => json::member(j, "durability_confirmed"@) is None,
            }
            &&& match e.error {
                Some(cause) => json::member(j, "error"@) == Some(JsonModel::Text(cause)),
                None => json::member(j, "error"@) is None,
            }
        }),
{
    reveal_strlit("index");
    reveal_strlit("url");
    reveal_strlit("status");
    reveal_strlit("output_path");
    reveal_strlit("output_path_state");
    reveal_strlit("source_name");
    reveal_strlit("bytes_written");
    reveal_strlit("durability_confirmed");
    reveal_strlit("error");
    assert("index"@.len() != "url"@.len());
    assert("index"@.len() != "status"@.len());
    assert("index"@.len() != "output_path"@.len());
    assert("index"@.len() != "output_path_state"@.len());
    assert("index"@.len() != "source_name"@.len());
    assert("index"@.len() != "bytes_written"@.len());
    assert("index"@.len() != "durability_confirmed"@.len());
    assert("index"@[0] != "error"@[0]);
    assert("url"@.len() != "status"@.len());
    assert("url"@.len() != "output_path"@.len());
    assert("url"@.len() != "output_path_state"@.len());
    assert("url"@.len() != "source_name"@.len());
    assert("url"@.len() != "bytes_written"@.len());
    assert("url"@.len() != "durability_confirmed"@.len());
    assert("url"@.len() != "error"@.len());
    assert("status"@.len() != "output_path"@.len());
    assert("status"@.len() != "output_path_state"@.len());
    assert("status"@.len() != "source_name"@.len());
    assert("status"@.len() != "bytes_written"@.len());
    assert("status"@.len() != "durability_confirmed"@.len());
    assert("status"@.len() != "error"@.len());
    assert("output_path"@.len() != "output_path_state"@.len());
    assert("output_path"@[0] != "source_name"@[0]);
    assert("output_path"@.len() != "bytes_written"@.len());
    assert("output_path"@.len() != "durability_confirmed"@.len());
    assert("output_path"@.len() != "error"@.len());
    assert("output_path_state"@.len() != "source_name"@.len());
    assert("output_path_state"@.len() != "bytes_written"@.len());
    assert("output_path_state"@.len() != "durability_confirmed"@.len());
    assert("output_path_state"@.len() != "error"@.len());
    assert("source_name"@.len() != "bytes_written"@.len());
    assert("source_name"@.len() != "durability_confirmed"@.len());
    assert("source_name"@.len() != "error"@.len());
    assert("bytes_written"@.len() != "durability_confirmed"@.len());
    assert("bytes_written"@.len() != "error"@.len());
    assert("durability_confirmed"@.len() != "error"@.len());
}

/// Sums stay at the largest number, and are sums below it.
pub proof fn sums_stay_at_the_largest_number(a: u64, b: u64)
    ensures
        a + b <= u64::MAX ==> capped_sum(a, b) == a + b,
        a + b > u64::MAX ==> capped_sum(a, b) == u64::MAX,
        capped_sum(a, b) == capped_sum(b, a),
{
}

/// What is known of an output path is shown under its own names.
pub proof fn output_states_are_shown_as_they_are(s: OutputPathModel)
    ensures
        ({
            let j = output_state_json(s);
            &&& json::member(j, "path_kind"@) == Some(JsonModel::Text(s.path_kind))
            &&& json::member(j, "path_authority"@) == Some(JsonModel::Text(s.path_authority))
            &&& json::member(j, "upstream_truth"@) == Some(JsonModel::Text(s.upstream_truth))
            &&& json::member(j, "control_role"@) == Some(JsonModel::Text(s.control_role))
            &&& json::member(j, "durability"@) == Some(JsonModel::Text(s.durability))
        }),
{
    reveal_strlit("path_kind");
    reveal_strlit("path_authority");
    reveal_strlit("upstream_truth");
    reveal_strlit("control_role");
    reveal_strlit("durability");
    assert("path_kind"@.len() != "path_authority"@.len());
    assert("path_kind"@.len() != "upstream_truth"@.len());
    assert("path_kind"@.len() != "control_role"@.len());
    assert("path_kind"@.len() != "durability"@.len());
    assert("path_authority"@[0] != "upstream_truth"@[0]);
    assert("path_authority"@.len() != "control_role"@.len());
    assert("path_authority"@.len() != "durability"@.len());
    assert("upstream_truth"@.len() != "control_role"@.len());
    assert("upstream_truth"@.len() != "durability"@.len());
    assert("control_role"@.len() != "durability"@.len());
}

/// Each end of a save goes by its own name.
pub proof fn ends_go_by_their_names(x: SavedAssetStatus)
    ensures
        x == SavedAssetStatus::Saved <==> status_name(x) == "saved"@,
        x == SavedAssetStatus::SkippedExisting <==> status_name(x) == "skipped_existing"@,
        x == SavedAssetStatus::Failed <==> status_name(x) == "failed"@,
        x == SavedAssetStatus::TimedOut <==> status_name(x) == "timed_out"@,
{
    reveal_strlit("saved");
    reveal_strlit("skipped_existing");
    reveal_strlit("failed");
    reveal_strlit("timed_out");
    assert("saved"@.len() != "skipped_existing"@.len());
    assert("saved"@.len() != "failed"@.len());
    assert("saved"@.len() != "timed_out"@.len());
    assert("skipped_existing"@.len() != "failed"@.len());
    assert("skipped_existing"@.len() != "timed_out"@.len());
    assert("failed"@.len() != "timed_out"@.len());
}

} // verus!
