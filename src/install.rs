use vstd::prelude::*;
use crate::catalog::{AppMetadata, text_or};
use crate::constants::DEFAULT_PLATFORM;
use crate::paths::{join, join_path, same_text};
use crate::types::{DownloadStage, InstallOption, InstalledApp, InstalledAppView};

verus! {

/// Errors that an install reports to its caller before any work starts.
#[derive(Debug, Clone)]
pub enum InstallError {
    /// No scanned root holds the app.
    NotFound { app_id: String },
    /// The descriptor is missing, or lacks the named required field.
    InvalidMetadata { app_id: String, field: String },
    /// An install of this app is already running.
    AlreadyInProgress { app_id: String },
}

/// Everything an install needs, worked out before any byte is transferred.
#[derive(Debug, Clone)]
pub struct InstallPlan {
    pub app_id: String,
    pub version: String,
    /// Where the app is unpacked: the app id below the destination root.
    pub path: String,
    pub archive_file_name: String,
    /// Where the downloaded archive is written, inside `path`.
    pub archive_path: String,
    pub total_size: u64,
    pub os: String,
    /// The record persisted before the transfer starts.
    pub record: InstalledApp,
}

/// Required descriptor field that is absent, the first in the order
/// download size, disk size, version, archive file name.
pub open spec fn missing_field(m: AppMetadata) -> Option<Seq<char>> {
    if m.download_size is None {
        Some("download_size"@)
    } else if m.disk_size is None {
        Some("disk_size"@)
    } else if m.version is None {
        Some("version"@)
    } else if m.file_name is None {
        Some("file_name"@)
    } else {
        None
    }
}

/// The record of an install that has been requested and not yet transferred.
pub open spec fn pending_record(
    app_id: Seq<char>,
    path: Seq<char>,
    m: AppMetadata,
    options: InstallOption,
) -> InstalledAppView {
    InstalledAppView {
        app_id,
        installed_path: path,
        downloaded_bytes: 0,
        total_download_size: m.download_size->Some_0,
        disk_size: m.disk_size->Some_0,
        version: m.version->Some_0@,
        latest_version: m.version->Some_0@,
        update_pending: false,
        os: text_or(options.os, DEFAULT_PLATFORM@),
        language: text_or(options.language, seq![]),
        disabled_dlc: seq![],
    }
}

fn copy_or(t: &Option<String>, default: &str) -> (r: String)
    ensures
        r@ == text_or(*t, default@),
{
    match t {
        Some(s) => s.clone(),
        None => String::from_str(default),
    }
}

fn field_error(app_id: &str, field: &str) -> (r: InstallError)
    ensures
        r is InvalidMetadata,
        r->InvalidMetadata_app_id@ == app_id@,
        r->InvalidMetadata_field@ == field@,
{
    InstallError::InvalidMetadata { app_id: String::from_str(app_id), field: String::from_str(field) }
}

/// Works out the install of `app_id` below `dest_root`; the path is joined
/// as text (see `join`), so it stays below `dest_root` for any id that names
/// a directory entry. Fails with
/// `InvalidMetadata` naming the first required field that `meta` lacks; a
/// missing platform option falls back to the default platform.
pub fn plan_install(app_id: &str, dest_root: &str, meta: &AppMetadata, options: &InstallOption) -> (r:
    Result<InstallPlan, InstallError>)
    ensures
        missing_field(*meta) is None <==> r is Ok,
        r is Err ==> r->Err_0 is InvalidMetadata && r->Err_0->InvalidMetadata_app_id@ == app_id@
            && Some(r->Err_0->InvalidMetadata_field@) == missing_field(*meta),
        r is Ok ==> {
            let p = r->Ok_0;
            let path = join_path(dest_root@, app_id@);
            &&& p.app_id@ == app_id@
            &&& p.version@ == meta.version->Some_0@
            &&& p.path@ == path
            &&& p.archive_file_name@ == meta.file_name->Some_0@
            &&& p.archive_path@ == join_path(path, meta.file_name->Some_0@)
            &&& p.total_size == meta.download_size->Some_0
            &&& p.os@ == text_or(options.os, DEFAULT_PLATFORM@)
            &&& p.record@ == pending_record(app_id@, path, *meta, *options)
        },
{
    proof {
        reveal_strlit("download_size");
        reveal_strlit("disk_size");
        reveal_strlit("version");
        reveal_strlit("file_name");
    }
    let total_size = match meta.download_size {
        Some(n) => n,
        None => {
            return Err(field_error(app_id, "download_size"));
        },
    };
    let disk_size = match meta.disk_size {
        Some(n) => n,
        None => {
            return Err(field_error(app_id, "disk_size"));
        },
    };
    let version = match &meta.version {
        Some(v) => v,
        None => {
            return Err(field_error(app_id, "version"));
        },
    };
    let file_name = match &meta.file_name {
        Some(f) => f,
        None => {
            return Err(field_error(app_id, "file_name"));
        },
    };
    let path = join(dest_root, app_id);
    let archive_path = join(path.as_str(), file_name.as_str());
    let record = InstalledApp {
        app_id: String::from_str(app_id),
        installed_path: path.clone(),
        downloaded_bytes: 0,
        total_download_size: total_size,
        disk_size,
        version: version.clone(),
        latest_version: version.clone(),
        update_pending: false,
        os: copy_or(&options.os, DEFAULT_PLATFORM),
        language: copy_or(&options.language, ""),
        disabled_dlc: Vec::new(),
    };
    proof {
        reveal_strlit("");
        assert(""@ =~= Seq::<char>::empty());
    }
    assert(record@.language == text_or(options.language, seq![]));
    assert(record@.disabled_dlc =~= Seq::<Seq<char>>::empty());
    Ok(InstallPlan {
        app_id: String::from_str(app_id),
        version: version.clone(),
        path,
        archive_file_name: file_name.clone(),
        archive_path,
        total_size,
        os: copy_or(&options.os, DEFAULT_PLATFORM),
        record,
    })
}

/// Stage of a running install. The install is resolved and its record
/// persisted before a session exists; the session then downloads, extracts,
/// and ends completed or failed.
#[derive(Debug, Clone, Copy, PartialEq, Eq, Structural)]
pub enum SessionStage {
    Downloading,
    Extracting,
    Completed,
    Failed,
}

/// What the work driving a session reports back to it.
#[derive(Debug, Clone)]
pub enum InstallEvent {
    /// A chunk of `len` bytes of the archive was written.
    ChunkReceived { len: u64 },
    /// The whole archive has been transferred.
    TransferFinished,
    /// The transfer broke off.
    TransferFailed { reason: String },
    /// The archive was unpacked and removed.
    ExtractionFinished,
    /// The archive could not be opened or unpacked.
    ExtractionFailed { reason: String },
}

/// What a session asks the driving work to do next.
#[derive(Debug, Clone)]
pub enum InstallAction {
    /// Notify callers of transfer progress.
    Progress { app_id: String, stage: DownloadStage, downloaded: u64, total: u64 },
    /// Unpack the archive into the destination, then remove the archive.
    Extract { archive_path: String, destination: String },
    /// Notify callers that the install completed.
    Completed { app_id: String },
    /// Notify callers that the install failed; no further work is done.
    Failed { app_id: String, reason: String },
    /// Nothing to do: the event does not apply in this stage.
    Nothing,
}

/// The part of a session that decides what happens next.
pub struct SessionState {
    pub stage: SessionStage,
    pub downloaded: u64,
    pub total: u64,
}

/// The kind of an action, with the byte counts of a progress notice.
pub enum Notice {
    Progress { downloaded: u64, total: u64 },
    Extract,
    Completed,
    Failed,
    Nothing,
}

pub open spec fn is_terminal(stage: SessionStage) -> bool {
    stage == SessionStage::Completed || stage == SessionStage::Failed
}

/// Bytes transferred after a chunk of `len` bytes: the sum, clamped to the
/// declared total.
pub open spec fn clamped_add(downloaded: u64, len: u64, total: u64) -> u64 {
    if downloaded + len >= total {
        total
    } else {
        (downloaded + len) as u64
    }
}

pub open spec fn next_state(st: SessionState, e: InstallEvent) -> SessionState {
    match (st.stage, e) {
        (SessionStage::Downloading, InstallEvent::ChunkReceived { len }) => SessionState {
            downloaded: clamped_add(st.downloaded, len, st.total),
            ..st
        },
        (SessionStage::Downloading, InstallEvent::TransferFinished) => SessionState {
            stage: SessionStage::Extracting,
            ..st
        },
        (SessionStage::Downloading, InstallEvent::TransferFailed { .. }) => SessionState {
            stage: SessionStage::Failed,
            ..st
        },
        (SessionStage::Extracting, InstallEvent::ExtractionFinished) => SessionState {
            stage: SessionStage::Completed,
            ..st
        },
        (SessionStage::Extracting, InstallEvent::ExtractionFailed { .. }) => SessionState {
            stage: SessionStage::Failed,
            ..st
        },
        _ => st,
    }
}

pub open spec fn next_notice(st: SessionState, e: InstallEvent) -> Notice {
    match (st.stage, e) {
        (SessionStage::Downloading, InstallEvent::ChunkReceived { len }) => Notice::Progress {
            downloaded: clamped_add(st.downloaded, len, st.total),
            total: st.total,
        },
        (SessionStage::Downloading, InstallEvent::TransferFinished) => Notice::Extract,
        (SessionStage::Downloading, InstallEvent::TransferFailed { .. }) => Notice::Failed,
        (SessionStage::Extracting, InstallEvent::ExtractionFinished) => Notice::Completed,
        (SessionStage::Extracting, InstallEvent::ExtractionFailed { .. }) => Notice::Failed,
        _ => Notice::Nothing,
    }
}

/// The notices a session emits for a run of events.
pub open spec fn run(st: SessionState, events: Seq<InstallEvent>) -> Seq<Notice>
    decreases events.len(),
{
    if events.len() == 0 {
        seq![]
    } else {
        seq![next_notice(st, events[0])] + run(next_state(st, events[0]), events.drop_first())
    }
}

impl InstallAction {
    pub open spec fn notice(self) -> Notice {
        match self {
            InstallAction::Progress { downloaded, total, .. } => Notice::Progress { downloaded, total },
            InstallAction::Extract { .. } => Notice::Extract,
            InstallAction::Completed { .. } => Notice::Completed,
            InstallAction::Failed { .. } => Notice::Failed,
            InstallAction::Nothing => Notice::Nothing,
        }
    }
}

/// The diagnostic of a failure: the reported reason, or `fallback` where the
/// reason is empty.
pub open spec fn diagnostic_text(reason: Seq<char>, fallback: Seq<char>) -> Seq<char> {
    if reason.len() > 0 {
        reason
    } else {
        fallback
    }
}

fn diagnostic(reason: String, fallback: &str) -> (r: String)
    ensures
        r@ == diagnostic_text(reason@, fallback@),
{
    if reason.as_str().unicode_len() > 0 {
        reason
    } else {
        String::from_str(fallback)
    }
}

/// One in-flight install, owned by the work that drives it.
#[derive(Debug)]
pub struct InstallSession {
    pub app_id: String,
    pub path: String,
    pub archive_path: String,
    pub total_size: u64,
    pub downloaded: u64,
    pub stage: SessionStage,
}

impl InstallSession {
    pub open spec fn state(&self) -> SessionState {
        SessionState { stage: self.stage, downloaded: self.downloaded, total: self.total_size }
    }

    /// Never more bytes counted than the archive declares.
    pub open spec fn wf(&self) -> bool {
        self.downloaded <= self.total_size
    }

    /// A session for `plan`, about to download.
    pub fn new(plan: &InstallPlan) -> (r: InstallSession)
        ensures
            r.wf(),
            r.app_id@ == plan.app_id@,
            r.path@ == plan.path@,
            r.archive_path@ == plan.archive_path@,
            r.total_size == plan.total_size,
            r.downloaded == 0,
            r.stage == SessionStage::Downloading,
    {
        InstallSession {
            app_id: plan.app_id.clone(),
            path: plan.path.clone(),
            archive_path: plan.archive_path.clone(),
            total_size: plan.total_size,
            downloaded: 0,
            stage: SessionStage::Downloading,
        }
    }

    /// Whether the session has ended, completed or failed.
    pub fn is_finished(&self) -> (r: bool)
        ensures
            r == is_terminal(self.stage),
    {
        self.stage == SessionStage::Completed || self.stage == SessionStage::Failed
    }

    /// Takes in what the driving work reports and says what it does next.
    /// A chunk adds to the byte count, clamped to the declared total, and is
    /// reported as progress; a failure ends the session; events that do not
    /// apply to the current stage change nothing.
    pub fn step(&mut self, event: InstallEvent) -> (r: InstallAction)
        requires
            old(self).wf(),
        ensures
            final(self).wf(),
            final(self).state() == next_state(old(self).state(), event),
            r.notice() == next_notice(old(self).state(), event),
            final(self).app_id == old(self).app_id,
            final(self).path == old(self).path,
            final(self).archive_path == old(self).archive_path,
            r is Progress ==> r->Progress_app_id@ == old(self).app_id@ && r->Progress_stage
                == DownloadStage::Downloading,
            r is Extract ==> r->archive_path@ == old(self).archive_path@ && r->destination@ == old(
                self,
            ).path@,
            r is Completed ==> r->Completed_app_id@ == old(self).app_id@,
            r is Failed ==> r->Failed_reason@.len() > 0,
            r is Failed ==> r->Failed_app_id@ == old(self).app_id@ && (match event {
                InstallEvent::TransferFailed { reason } => r->Failed_reason@ == diagnostic_text(
                    reason@,
                    "transfer failed"@,
                ),
                InstallEvent::ExtractionFailed { reason } => r->Failed_reason@ == diagnostic_text(
                    reason@,
                    "extraction failed"@,
                ),
                _ => false,
            }),
    {
        proof {
            reveal_strlit("transfer failed");
            reveal_strlit("extraction failed");
        }
        match (self.stage, event) {
            (SessionStage::Downloading, InstallEvent::ChunkReceived { len }) => {
                if len >= self.total_size - self.downloaded {
                    self.downloaded = self.total_size;
                } else {
                    self.downloaded = self.downloaded + len;
                }
                InstallAction::Progress {
                    app_id: self.app_id.clone(),
                    stage: DownloadStage::Downloading,
                    downloaded: self.downloaded,
                    total: self.total_size,
                }
            },
            (SessionStage::Downloading, InstallEvent::TransferFinished) => {
                self.stage = SessionStage::Extracting;
                InstallAction::Extract {
                    archive_path: self.archive_path.clone(),
                    destination: self.path.clone(),
                }
            },
            (SessionStage::Downloading, InstallEvent::TransferFailed { reason }) => {
                self.stage = SessionStage::Failed;
                InstallAction::Failed { app_id: self.app_id.clone(), reason: diagnostic(reason, "transfer failed") }
            },
            (SessionStage::Extracting, InstallEvent::ExtractionFinished) => {
                self.stage = SessionStage::Completed;
                InstallAction::Completed { app_id: self.app_id.clone() }
            },
            (SessionStage::Extracting, InstallEvent::ExtractionFailed { reason }) => {
                self.stage = SessionStage::Failed;
                InstallAction::Failed { app_id: self.app_id.clone(), reason: diagnostic(reason, "extraction failed") }
            },
            _ => InstallAction::Nothing,
        }
    }
}

/// Share of the transfer done, in hundredths of a percent (rounded down):
/// `downloaded / total * 100`, times 100. An empty transfer counts as done.
pub open spec fn spec_percent_hundredths(downloaded: u64, total: u64) -> u64 {
    if total == 0 {
        10000
    } else {
        (downloaded as int * 10000 / total as int) as u64
    }
}

/// Share of the transfer done, in hundredths of a percent, rounded down.
pub fn percent_hundredths(downloaded: u64, total: u64) -> (r: u64)
    requires
        downloaded <= total,
    ensures
        r == spec_percent_hundredths(downloaded, total),
        r <= 10000,
{
    if total == 0 {
        return 10000;
    }
    let d = downloaded as u128;
    let t = total as u128;
    proof {
        let di = d as int;
        let ti = t as int;
        assert(di * 10000 <= ti * 10000) by (nonlinear_arith)
            requires di <= ti;
        assert(di * 10000 / ti <= 10000) by (nonlinear_arith)
            requires di <= ti, ti > 0, di * 10000 <= ti * 10000;
        assert(di * 10000 <= u64::MAX as int * 10000) by (nonlinear_arith)
            requires di <= u64::MAX as int;
    }
    ((d * 10000) / t) as u64
}

proof fn lemma_run_bounds(st: SessionState, events: Seq<InstallEvent>)
    requires
        st.downloaded <= st.total,
    ensures
        forall|k: int|
            0 <= k < run(st, events).len() && (#[trigger] run(st, events)[k]) is Progress ==> st.downloaded
                <= run(st, events)[k]->Progress_downloaded <= st.total && run(st, events)[k]->Progress_total
                == st.total,
        is_terminal(st.stage) ==> forall|k: int|
            0 <= k < run(st, events).len() ==> (#[trigger] run(st, events)[k]) is Nothing,
    decreases events.len(),
{
    if events.len() > 0 {
        let nx = next_state(st, events[0]);
        let rest = events.drop_first();
        lemma_run_bounds(nx, rest);
        assert forall|k: int| 1 <= k < run(st, events).len() implies #[trigger] run(st, events)[k] == run(
            nx,
            rest,
        )[k - 1] by {}
    }
}

/// Progress notices of an install never count more bytes than the archive
/// declares, never go backwards, and none comes after the install completed
/// or failed: after a terminal notice, nothing more is emitted.
pub proof fn lemma_progress_clamped_and_monotonic(st: SessionState, events: Seq<InstallEvent>)
    requires
        st.downloaded <= st.total,
    ensures
        forall|k: int|
            0 <= k < run(st, events).len() && (#[trigger] run(st, events)[k]) is Progress
                ==> run(st, events)[k]->Progress_downloaded <= run(st, events)[k]->Progress_total
                == st.total,
        forall|k1: int, k2: int|
            0 <= k1 < k2 < run(st, events).len() && (#[trigger] run(st, events)[k1]) is Progress && (
            #[trigger] run(st, events)[k2]) is Progress ==> run(st, events)[k1]->Progress_downloaded
                <= run(st, events)[k2]->Progress_downloaded,
        forall|k1: int, k2: int|
            0 <= k1 < k2 < run(st, events).len() && ((#[trigger] run(st, events)[k1]) is Completed
                || run(st, events)[k1] is Failed) ==> (#[trigger] run(st, events)[k2]) is Nothing,
    decreases events.len(),
{
    lemma_run_bounds(st, events);
    if events.len() > 0 {
        let nx = next_state(st, events[0]);
        let rest = events.drop_first();
        let all = run(st, events);
        lemma_run_bounds(nx, rest);
        lemma_progress_clamped_and_monotonic(nx, rest);
        assert forall|k: int| 1 <= k < all.len() implies #[trigger] all[k] == run(nx, rest)[k - 1] by {}
        assert forall|k1: int, k2: int|
            0 <= k1 < k2 < all.len() && (#[trigger] all[k1]) is Progress && (#[trigger] all[k2]) is Progress
                implies all[k1]->Progress_downloaded <= all[k2]->Progress_downloaded by {
            assert(all[k2] == run(nx, rest)[k2 - 1]);
            if k1 > 0 {
                assert(all[k1] == run(nx, rest)[k1 - 1]);
            }
        }
        assert forall|k1: int, k2: int|
            0 <= k1 < k2 < all.len() && ((#[trigger] all[k1]) is Completed || all[k1] is Failed)
                implies (#[trigger] all[k2]) is Nothing by {
            assert(all[k2] == run(nx, rest)[k2 - 1]);
            if k1 > 0 {
                assert(all[k1] == run(nx, rest)[k1 - 1]);
            }
        }
    }
}

/// `ids` without any occurrence of `id`, order kept.
pub open spec fn without(ids: Seq<Seq<char>>, id: Seq<char>) -> Seq<Seq<char>>
    decreases ids.len(),
{
    if ids.len() == 0 {
        seq![]
    } else {
        without(ids.drop_last(), id) + if ids.last() == id {
            seq![]
        } else {
            seq![ids.last()]
        }
    }
}

/// The apps whose install is running; at most one install per app.
#[derive(Debug)]
pub struct InstallRegistry {
    active: Vec<String>,
}

impl View for InstallRegistry {
    type V = Seq<Seq<char>>;

    closed spec fn view(&self) -> Seq<Seq<char>> {
        self.active@.map_values(|s: String| s@)
    }
}

impl InstallRegistry {
    pub fn new() -> (r: InstallRegistry)
        ensures
            r@ == Seq::<Seq<char>>::empty(),
    {
        let r = InstallRegistry { active: Vec::new() };
        assert(r@ =~= Seq::<Seq<char>>::empty());
        r
    }

    /// Whether an install of `app_id` is running.
    pub fn is_active(&self, app_id: &str) -> (r: bool)
        ensures
            r == self@.contains(app_id@),
    {
        let mut i: usize = 0;
        while i < self.active.len()
            invariant
                i <= self.active@.len(),
                self@ == self.active@.map_values(|s: String| s@),
                forall|k: int| 0 <= k < i ==> self@[k] != app_id@,
            decreases self.active@.len() - i,
        {
            if same_text(self.active[i].as_str(), app_id) {
                assert(self@[i as int] == app_id@);
                return true;
            }
            i = i + 1;
        }
        false
    }

    /// Registers an install of `app_id`; fails with `AlreadyInProgress`, and
    /// changes nothing, where one is running already.
    pub fn begin(&mut self, app_id: &str) -> (r: Result<(), InstallError>)
        ensures
            old(self)@.contains(app_id@) <==> r is Err,
            r is Err ==> final(self)@ == old(self)@ && r->Err_0 is AlreadyInProgress
                && r->Err_0->AlreadyInProgress_app_id@ == app_id@,
            r is Ok ==> final(self)@ == old(self)@.push(app_id@),
    {
        if self.is_active(app_id) {
            return Err(InstallError::AlreadyInProgress { app_id: String::from_str(app_id) });
        }
        self.active.push(String::from_str(app_id));
        assert(self@ =~= old(self)@.push(app_id@));
        Ok(())
    }

    /// Ends the install of `app_id`, if one is running.
    pub fn finish(&mut self, app_id: &str)
        ensures
            final(self)@ == without(old(self)@, app_id@),
    {
        let ghost before = self@;
        let mut kept: Vec<String> = Vec::new();
        let mut i: usize = 0;
        while i < self.active.len()
            invariant
                i <= self.active@.len(),
                before == self.active@.map_values(|s: String| s@),
                kept@.map_values(|s: String| s@) == without(before.subrange(0, i as int), app_id@),
            decreases self.active@.len() - i,
        {
            let ghost prev = kept@;
            proof {
                assert(before.subrange(0, i + 1).drop_last() =~= before.subrange(0, i as int));
                assert(before.subrange(0, i + 1).last() == self.active@[i as int]@);
            }
            if !same_text(self.active[i].as_str(), app_id) {
                kept.push(self.active[i].clone());
                assert(kept@.map_values(|s: String| s@) =~= prev.map_values(|s: String| s@).push(self.active@[i as int]@));
            }
            assert(kept@.map_values(|s: String| s@) =~= without(before.subrange(0, i + 1), app_id@));
            i = i + 1;
        }
        assert(before.subrange(0, before.len() as int) =~= before);
        self.active = kept;
    }
}

} // verus!
