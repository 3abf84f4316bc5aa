use vstd::prelude::*;
use crate::constants::{DEFAULT_PLATFORM, DEFAULT_SIZE, DEFAULT_VERSION, LIBRARY_SUBDIR};
use crate::disks::{get_mount_points, is_removable_mount};
use crate::paths::{join, join_path, same_text};
use crate::types::{InstalledApp, InstalledAppView};

verus! {

/// What a directory entry below a library root is.
#[derive(Debug, Clone, Copy, PartialEq, Eq, Structural)]
pub enum EntryKind {
    Directory,
    Symlink,
    File,
}

/// The per-app descriptor, as read from the bundle's descriptor file. A key
/// that is absent, or holds a value of another type, reads as `None`.
#[derive(Debug, Clone, Default)]
pub struct AppMetadata {
    pub name: Option<String>,
    pub executable: Option<String>,
    pub os: Option<String>,
    pub image: Option<String>,
    pub website: Option<String>,
    pub runtime: Option<bool>,
    pub download_size: Option<u64>,
    pub disk_size: Option<u64>,
    pub version: Option<String>,
    pub file_name: Option<String>,
    pub download_url: Option<String>,
}

/// One child of a library root. `descriptor` is the bundle's parsed
/// descriptor, `None` where the file is missing or does not parse.
#[derive(Debug, Clone)]
pub struct LibraryEntry {
    pub name: String,
    pub kind: EntryKind,
    pub descriptor: Option<AppMetadata>,
}

/// A scanned library root and its children, in the order they were listed.
#[derive(Debug, Clone)]
pub struct LibraryRoot {
    pub path: String,
    pub entries: Vec<LibraryEntry>,
}

/// The catalog over the scanned library roots.
#[derive(Debug, Clone, Copy)]
pub struct LocalConnector;

/// The persisted account slot.
#[derive(Debug, Clone)]
pub struct AccountInfo {
    pub account: Option<String>,
}

/// Errors of catalog operations.
#[derive(Debug, Clone)]
pub enum CatalogError {
    /// The per-user data directory is unknown.
    NoDataDir,
    /// No library root holds an app with this id.
    MetadataNotFound { app_id: String },
    /// The app's descriptor is missing or does not parse.
    MetadataUnreadable { app_id: String },
    /// Removing the app's tree failed; the catalog is left as it was.
    UninstallFailed { app_id: String, cause: String },
}

/// What `uninstall` asks of the file system.
#[derive(Debug, Clone)]
pub enum UninstallStep {
    /// The app is not present: nothing is to be removed.
    AlreadyAbsent,
    /// Remove this directory tree.
    RemoveTree { path: String },
}

/// Files cannot hold an application tree; directories and symlinks can.
pub open spec fn is_app_entry(e: LibraryEntry) -> bool {
    e.kind != EntryKind::File
}

pub open spec fn entry_matches(e: LibraryEntry, id: Seq<char>) -> bool {
    is_app_entry(e) && e.name@ == id
}

/// Index of the first entry, from `j` on, that is an app named `id`.
pub open spec fn first_match_from(entries: Seq<LibraryEntry>, id: Seq<char>, j: nat) -> Option<int>
    decreases entries.len() - j,
{
    if j >= entries.len() {
        None
    } else if entry_matches(entries[j as int], id) {
        Some(j as int)
    } else {
        first_match_from(entries, id, j + 1)
    }
}

/// Root and entry index of the first app named `id`, searching the roots
/// from `i` on, in scan order.
pub open spec fn locate_from(roots: Seq<LibraryRoot>, id: Seq<char>, i: nat) -> Option<(int, int)>
    decreases roots.len() - i,
{
    if i >= roots.len() {
        None
    } else {
        match first_match_from(roots[i as int].entries@, id, 0) {
            Some(j) => Some((i as int, j)),
            None => locate_from(roots, id, i + 1),
        }
    }
}

pub open spec fn locate(roots: Seq<LibraryRoot>, id: Seq<char>) -> Option<(int, int)> {
    locate_from(roots, id, 0)
}

/// The path of the app `id`: below the first root, in scan order, that
/// holds it. Names compare exactly.
pub open spec fn spec_find_app(roots: Seq<LibraryRoot>, id: Seq<char>) -> Option<Seq<char>> {
    match locate(roots, id) {
        Some((i, j)) => Some(join_path(roots[i].path@, id)),
        None => None,
    }
}

/// The descriptor of the app `id`, as `find_app` resolves it.
pub open spec fn spec_metadata(roots: Seq<LibraryRoot>, id: Seq<char>) -> Option<AppMetadata> {
    match locate(roots, id) {
        Some((i, j)) => roots[i].entries@[j].descriptor,
        None => None,
    }
}

/// The ids of the app entries of one root, in order.
pub open spec fn entry_ids(entries: Seq<LibraryEntry>) -> Seq<Seq<char>>
    decreases entries.len(),
{
    if entries.len() == 0 {
        seq![]
    } else {
        entry_ids(entries.drop_last()) + if is_app_entry(entries.last()) {
            seq![entries.last().name@]
        } else {
            seq![]
        }
    }
}

/// The ids of the app entries of all roots, root by root.
pub open spec fn app_ids(roots: Seq<LibraryRoot>) -> Seq<Seq<char>>
    decreases roots.len(),
{
    if roots.len() == 0 {
        seq![]
    } else {
        app_ids(roots.drop_last()) + entry_ids(roots.last().entries@)
    }
}

pub open spec fn text_or(t: Option<String>, default: Seq<char>) -> Seq<char> {
    match t {
        Some(s) => s@,
        None => default,
    }
}

/// The record of an app that is present on disk at `path`. A directory
/// found on disk carries no install bookkeeping, so its sizes and versions
/// are the fixed placeholders; only the platform comes from its descriptor.
pub open spec fn present_app(id: Seq<char>, path: Seq<char>, m: AppMetadata) -> InstalledAppView {
    InstalledAppView {
        app_id: id,
        installed_path: path,
        downloaded_bytes: DEFAULT_SIZE,
        total_download_size: DEFAULT_SIZE,
        disk_size: DEFAULT_SIZE,
        version: DEFAULT_VERSION@,
        latest_version: DEFAULT_VERSION@,
        update_pending: false,
        os: text_or(m.os, DEFAULT_PLATFORM@),
        language: seq![],
        disabled_dlc: seq![],
    }
}

/// The records of the app entries of `root` whose descriptor loads; the
/// others are left out.
pub open spec fn installed_in_root(
    roots: Seq<LibraryRoot>,
    base: Seq<char>,
    entries: Seq<LibraryEntry>,
) -> Seq<InstalledAppView>
    decreases entries.len(),
{
    if entries.len() == 0 {
        seq![]
    } else {
        let e = entries.last();
        installed_in_root(roots, base, entries.drop_last()) + if is_app_entry(e) && spec_metadata(
            roots,
            e.name@,
        ) is Some {
            seq![present_app(e.name@, join_path(base, e.name@), spec_metadata(roots, e.name@).unwrap())]
        } else {
            seq![]
        }
    }
}

/// The records of all roots up to `n`, root by root.
pub open spec fn installed_upto(roots: Seq<LibraryRoot>, n: nat) -> Seq<InstalledAppView>
    decreases n,
{
    if n == 0 || n > roots.len() {
        seq![]
    } else {
        installed_upto(roots, (n - 1) as nat) + installed_in_root(
            roots,
            roots[n - 1].path@,
            roots[n - 1].entries@,
        )
    }
}

pub open spec fn installed_apps(roots: Seq<LibraryRoot>) -> Seq<InstalledAppView> {
    installed_upto(roots, roots.len())
}

/// The library roots to scan, before checking which exist: the per-user one
/// below `data_dir` first, then one below each mount point, in order.
pub open spec fn root_candidates(data_dir: Seq<char>, mounts: Seq<Seq<char>>) -> Seq<Seq<char>> {
    seq![join_path(data_dir, LIBRARY_SUBDIR@)] + mounts.map_values(|m: Seq<char>| join_path(m, LIBRARY_SUBDIR@))
}

/// The elements of `c` whose flag in `f` is set, in order.
pub open spec fn keep_flagged(c: Seq<Seq<char>>, f: Seq<bool>) -> Seq<Seq<char>>
    decreases c.len(),
{
    if c.len() == 0 || f.len() == 0 {
        seq![]
    } else {
        keep_flagged(c.drop_last(), f.drop_last()) + if f.last() {
            seq![c.last()]
        } else {
            seq![]
        }
    }
}

/// No more elements are kept than there are candidates.
pub proof fn lemma_keep_flagged_len(c: Seq<Seq<char>>, f: Seq<bool>)
    ensures
        keep_flagged(c, f).len() <= c.len(),
    decreases c.len(),
{
    if c.len() > 0 && f.len() > 0 {
        lemma_keep_flagged_len(c.drop_last(), f.drop_last());
    }
}

/// Relies on `dirs::data_dir`: the per-user data directory, if the platform
/// has one. It depends on the environment, so nothing is promised of it.
#[verifier::external_body]
fn user_data_dir() -> (r: Option<String>) {
    dirs::data_dir().map(|p| p.to_string_lossy().into_owned())
}

/// Relies on `std::path::Path::exists`: whether something is at `path` now.
#[verifier::external_body]
fn path_exists(path: &str) -> (r: bool) {
    std::path::Path::new(path).exists()
}

/// Copy of `t`'s text, or `default` where `t` is `None`.
fn text_or_default(t: &Option<String>, default: &str) -> (r: String)
    ensures
        r@ == text_or(*t, default@),
{
    match t {
        Some(s) => s.clone(),
        None => String::from_str(default),
    }
}

/// The record of an app present at `path`, described by `m`.
pub fn present_app_record(app_id: &str, path: String, m: &AppMetadata) -> (r: InstalledApp)
    ensures
        r@ == present_app(app_id@, path@, *m),
{
    let os = text_or_default(&m.os, DEFAULT_PLATFORM);
    let r = InstalledApp {
        app_id: String::from_str(app_id),
        installed_path: path,
        downloaded_bytes: DEFAULT_SIZE,
        total_download_size: DEFAULT_SIZE,
        disk_size: DEFAULT_SIZE,
        version: String::from_str(DEFAULT_VERSION),
        latest_version: String::from_str(DEFAULT_VERSION),
        update_pending: false,
        os,
        language: String::new(),
        disabled_dlc: Vec::new(),
    };
    assert(r@.disabled_dlc =~= Seq::<Seq<char>>::empty());
    assert(r@.language =~= Seq::<char>::empty());
    r
}

/// The roots to scan, before checking which exist: the per-user library
/// root first, then one on each mount point, in order.
pub fn library_root_candidates(data_dir: Option<String>, mounts: &Vec<String>) -> (r: Result<
    Vec<String>,
    CatalogError,
>)
    ensures
        data_dir is None <==> r is Err,
        r is Err ==> r->Err_0 is NoDataDir,
        r is Ok ==> {
            let c = r->Ok_0@;
            &&& c.len() == mounts@.len() + 1
            &&& c[0]@ == join_path(data_dir->Some_0@, LIBRARY_SUBDIR@)
            &&& forall|k: int|
                0 <= k < mounts@.len() ==> #[trigger] c[k + 1]@ == join_path(
                    mounts@[k]@,
                    LIBRARY_SUBDIR@,
                )
        },
{
    let dir = match data_dir {
        Some(d) => d,
        None => {
            return Err(CatalogError::NoDataDir);
        },
    };
    let mut out: Vec<String> = Vec::new();
    out.push(join(dir.as_str(), LIBRARY_SUBDIR));
    let mut i: usize = 0;
    while i < mounts.len()
        invariant
            i <= mounts@.len(),
            out@.len() == i + 1,
            out@[0]@ == join_path(dir@, LIBRARY_SUBDIR@),
            forall|k: int| 0 <= k < i ==> #[trigger] out@[k + 1]@ == join_path(mounts@[k]@, LIBRARY_SUBDIR@),
        decreases mounts@.len() - i,
    {
        let ghost prev = out@;
        out.push(join(mounts[i].as_str(), LIBRARY_SUBDIR));
        assert forall|k: int| 0 <= k < i + 1 implies #[trigger] out@[k + 1]@ == join_path(mounts@[k]@, LIBRARY_SUBDIR@) by {
            if k < i {
                assert(out@[k + 1] == prev[k + 1]);
            }
        }
        i = i + 1;
    }
    Ok(out)
}

/// The candidates whose flag in `exists` is set, in order.
pub fn existing_roots(candidates: &Vec<String>, exists: &Vec<bool>) -> (r: Vec<String>)
    requires
        exists@.len() == candidates@.len(),
    ensures
        r@.map_values(|s: String| s@) == keep_flagged(candidates@.map_values(|s: String| s@), exists@),
{
    let ghost cs = candidates@.map_values(|s: String| s@);
    let mut out: Vec<String> = Vec::new();
    let mut i: usize = 0;
    while i < candidates.len()
        invariant
            i <= candidates@.len(),
            exists@.len() == candidates@.len(),
            cs == candidates@.map_values(|s: String| s@),
            out@.map_values(|s: String| s@) == keep_flagged(cs.subrange(0, i as int), exists@.subrange(0, i as int)),
        decreases candidates@.len() - i,
    {
        let ghost prev = out@;
        proof {
            assert(cs.subrange(0, i + 1).drop_last() =~= cs.subrange(0, i as int));
            assert(exists@.subrange(0, i + 1).drop_last() =~= exists@.subrange(0, i as int));
            assert(cs.subrange(0, i + 1).last() == candidates@[i as int]@);
            assert(exists@.subrange(0, i + 1).last() == exists@[i as int]);
        }
        if exists[i] {
            out.push(candidates[i].clone());
            assert(out@.map_values(|s: String| s@) =~= prev.map_values(|s: String| s@).push(candidates@[i as int]@));
        }
        assert(out@.map_values(|s: String| s@) =~= keep_flagged(cs.subrange(0, i + 1), exists@.subrange(0, i + 1)));
        i = i + 1;
    }
    assert(cs.subrange(0, candidates@.len() as int) =~= cs);
    assert(exists@.subrange(0, candidates@.len() as int) =~= exists@);
    out
}

impl LocalConnector {
    /// The library roots that exist now: the per-user one first, then one on
    /// each removable mount point, in mount order, skipping those that do not
    /// exist. Fails, with `NoDataDir`, only where there is no per-user data
    /// directory. Which mounts and roots exist depends on the machine.
    pub fn get_library_paths(&self) -> (r: Result<Vec<String>, CatalogError>)
        ensures
            r is Err ==> r->Err_0 is NoDataDir,
            r is Ok ==> exists|d: Seq<char>, ms: Seq<Seq<char>>, f: Seq<bool>|
                {
                    &&& f.len() == ms.len() + 1
                    &&& r->Ok_0@.len() <= ms.len() + 1
                    &&& (forall|k: int| 0 <= k < ms.len() ==> is_removable_mount(#[trigger] ms[k]))
                    &&& r->Ok_0@.map_values(|s: String| s@) == #[trigger] keep_flagged(root_candidates(d, ms), f)
                },
    {
        let mounts = get_mount_points();
        let data_dir = user_data_dir();
        let ghost d = data_dir->Some_0@;
        let candidates = library_root_candidates(data_dir, &mounts)?;
        let mut exists: Vec<bool> = Vec::new();
        let mut i: usize = 0;
        while i < candidates.len()
            invariant
                i <= candidates@.len(),
                exists@.len() == i,
            decreases candidates@.len() - i,
        {
            exists.push(path_exists(candidates[i].as_str()));
            i = i + 1;
        }
        let r = existing_roots(&candidates, &exists);
        proof {
            let ms = mounts@.map_values(|s: String| s@);
            let cs = candidates@.map_values(|s: String| s@);
            assert forall|k: int| 0 <= k < cs.len() implies cs[k] == root_candidates(d, ms)[k] by {
                if k > 0 {
                    assert(candidates@[(k - 1) + 1]@ == join_path(mounts@[k - 1]@, LIBRARY_SUBDIR@));
                }
            }
            assert(cs =~= root_candidates(d, ms));
            assert forall|k: int| 0 <= k < ms.len() implies is_removable_mount(#[trigger] ms[k]) by {
                assert(ms[k] == mounts@[k]@);
            }
            assert(r@.map_values(|s: String| s@) == keep_flagged(root_candidates(d, ms), exists@));
            lemma_keep_flagged_len(root_candidates(d, ms), exists@);
            assert(r@.len() == r@.map_values(|s: String| s@).len());
        }
        Ok(r)
    }

    /// Root and entry index of the first app named `app_id`, in scan order.
    pub fn locate_app(&self, roots: &Vec<LibraryRoot>, app_id: &str) -> (r: Option<(usize, usize)>)
        ensures
            r is None <==> locate(roots@, app_id@) is None,
            r is Some ==> locate(roots@, app_id@) == Some((r->Some_0.0 as int, r->Some_0.1 as int)),
            r is Some ==> r->Some_0.0 < roots@.len() && r->Some_0.1 < roots@[r->Some_0.0 as int].entries@.len(),
    {
        let mut i: usize = 0;
        while i < roots.len()
            invariant
                i <= roots@.len(),
                locate(roots@, app_id@) == locate_from(roots@, app_id@, i as nat),
            decreases roots@.len() - i,
        {
            let entries = &roots[i].entries;
            let mut j: usize = 0;
            while j < entries.len()
                invariant
                    i < roots@.len(),
                    *entries == roots@[i as int].entries,
                    j <= entries@.len(),
                    first_match_from(entries@, app_id@, 0) == first_match_from(entries@, app_id@, j as nat),
                    locate(roots@, app_id@) == locate_from(roots@, app_id@, i as nat),
                decreases entries@.len() - j,
            {
                let e = &entries[j];
                if e.kind != EntryKind::File && same_text(e.name.as_str(), app_id) {
                    assert(first_match_from(entries@, app_id@, j as nat) == Some(j as int));
                    assert(locate_from(roots@, app_id@, i as nat) == Some((i as int, j as int)));
                    return Some((i, j));
                }
                j = j + 1;
            }
            assert(first_match_from(entries@, app_id@, j as nat) is None);
            assert(locate_from(roots@, app_id@, i as nat) == locate_from(roots@, app_id@, (i + 1) as nat));
            i = i + 1;
        }
        None
    }

    /// The path of `app_id`: below the first root, in scan order, that has a
    /// directory (or symlink) of exactly that name.
    pub fn find_app(&self, roots: &Vec<LibraryRoot>, app_id: &str) -> (r: Option<String>)
        ensures
            r is None <==> spec_find_app(roots@, app_id@) is None,
            r is Some ==> spec_find_app(roots@, app_id@) == Some(r->Some_0@),
    {
        match self.locate_app(roots, app_id) {
            Some((i, _j)) => Some(join(roots[i].path.as_str(), app_id)),
            None => None,
        }
    }

    /// The descriptor of `app_id`. Fails with `MetadataNotFound` where no root
    /// holds the app, and with `MetadataUnreadable` where its descriptor is
    /// missing or does not parse.
    pub fn load_metadata<'a>(&self, roots: &'a Vec<LibraryRoot>, app_id: &str) -> (r: Result<
        &'a AppMetadata,
        CatalogError,
    >)
        ensures
            locate(roots@, app_id@) is None <==> (r is Err && r->Err_0 is MetadataNotFound),
            spec_metadata(roots@, app_id@) is Some <==> r is Ok,
            r is Ok ==> spec_metadata(roots@, app_id@) == Some(*r->Ok_0),
            r is Err ==> (r->Err_0 is MetadataNotFound && r->Err_0->MetadataNotFound_app_id@ == app_id@)
                || (r->Err_0 is MetadataUnreadable && r->Err_0->MetadataUnreadable_app_id@ == app_id@),
    {
        match self.locate_app(roots, app_id) {
            Some((i, j)) => match &roots[i].entries[j].descriptor {
                Some(m) => Ok(m),
                None => Err(CatalogError::MetadataUnreadable { app_id: String::from_str(app_id) }),
            },
            None => Err(CatalogError::MetadataNotFound { app_id: String::from_str(app_id) }),
        }
    }

    /// The ids of all app entries (directories and symlinks; files are left
    /// out), root by root in scan order. Ids found under two roots appear twice.
    pub fn list_apps(&self, roots: &Vec<LibraryRoot>) -> (r: Vec<String>)
        ensures
            r@.map_values(|s: String| s@) == app_ids(roots@),
    {
        let mut out: Vec<String> = Vec::new();
        let mut i: usize = 0;
        while i < roots.len()
            invariant
                i <= roots@.len(),
                out@.map_values(|s: String| s@) == app_ids(roots@.subrange(0, i as int)),
            decreases roots@.len() - i,
        {
            let entries = &roots[i].entries;
            let ghost before = out@.map_values(|s: String| s@);
            let mut j: usize = 0;
            while j < entries.len()
                invariant
                    i < roots@.len(),
                    *entries == roots@[i as int].entries,
                    j <= entries@.len(),
                    out@.map_values(|s: String| s@) == before + entry_ids(entries@.subrange(0, j as int)),
                decreases entries@.len() - j,
            {
                let e = &entries[j];
                proof {
                    assert(entries@.subrange(0, j + 1).drop_last() =~= entries@.subrange(0, j as int));
                }
                let ghost prev = out@;
                assert(entries@.subrange(0, j + 1).last() == *e);
                if e.kind != EntryKind::File {
                    out.push(e.name.clone());
                    assert(out@.map_values(|s: String| s@) =~= prev.map_values(|s: String| s@).push(e.name@));
                } else {
                    assert(out@ == prev);
                }
                assert(out@.map_values(|s: String| s@) =~= before + entry_ids(entries@.subrange(0, j + 1)));
                j = j + 1;
            }
            proof {
                assert(entries@.subrange(0, entries@.len() as int) =~= entries@);
                assert(roots@.subrange(0, i + 1).drop_last() =~= roots@.subrange(0, i as int));
            }
            i = i + 1;
        }
        assert(roots@.subrange(0, roots@.len() as int) =~= roots@);
        out
    }

    /// The installed apps: one record for each app entry of each root, in
    /// scan order, whose descriptor loads. An entry whose descriptor is
    /// missing or malformed is left out; it never fails the whole listing.
    pub fn list_installed_apps(&self, roots: &Vec<LibraryRoot>) -> (r: Vec<InstalledApp>)
        ensures
            r@.map_values(|a: InstalledApp| a@) == installed_apps(roots@),
    {
        let mut out: Vec<InstalledApp> = Vec::new();
        let mut i: usize = 0;
        while i < roots.len()
            invariant
                i <= roots@.len(),
                out@.map_values(|a: InstalledApp| a@) == installed_upto(roots@, i as nat),
            decreases roots@.len() - i,
        {
            let root = &roots[i];
            let ghost before = out@.map_values(|a: InstalledApp| a@);
            let mut j: usize = 0;
            while j < root.entries.len()
                invariant
                    i < roots@.len(),
                    *root == roots@[i as int],
                    j <= root.entries@.len(),
                    out@.map_values(|a: InstalledApp| a@) == before + installed_in_root(
                        roots@,
                        root.path@,
                        root.entries@.subrange(0, j as int),
                    ),
                decreases root.entries@.len() - j,
            {
                let e = &root.entries[j];
                proof {
                    assert(root.entries@.subrange(0, j + 1).drop_last() =~= root.entries@.subrange(0, j as int));
                }
                let ghost prev = out@;
                assert(root.entries@.subrange(0, j + 1).last() == *e);
                if e.kind != EntryKind::File {
                    match self.load_metadata(roots, e.name.as_str()) {
                        Ok(m) => {
                            let path = join(root.path.as_str(), e.name.as_str());
                            let app = present_app_record(e.name.as_str(), path, m);
                            out.push(app);
                            assert(out@.map_values(|a: InstalledApp| a@) =~= prev.map_values(|a: InstalledApp| a@).push(app@));
                        },
                        Err(_) => {},
                    }
                }
                assert(out@.map_values(|a: InstalledApp| a@) =~= before + installed_in_root(
                    roots@,
                    root.path@,
                    root.entries@.subrange(0, j + 1),
                ));
                j = j + 1;
            }
            proof {
                assert(root.entries@.subrange(0, root.entries@.len() as int) =~= root.entries@);
            }
            i = i + 1;
        }
        out
    }

    /// What removing `app_id` takes: nothing where the app is not present
    /// (uninstalling is idempotent), else the removal of its tree.
    pub fn uninstall(&self, roots: &Vec<LibraryRoot>, app_id: &str) -> (r: UninstallStep)
        ensures
            spec_find_app(roots@, app_id@) is None <==> r is AlreadyAbsent,
            r is RemoveTree ==> spec_find_app(roots@, app_id@) == Some(r->path@),
    {
        match self.find_app(roots, app_id) {
            Some(path) => UninstallStep::RemoveTree { path },
            None => UninstallStep::AlreadyAbsent,
        }
    }
}

/// The outcome of an uninstall of `app_id`, given how removing its tree went
/// (`None` where nothing was to be removed).
pub fn uninstall_outcome(app_id: &str, removal: Option<Result<(), String>>) -> (r: Result<(), CatalogError>)
    ensures
        r is Ok <==> (removal is None || removal->Some_0 is Ok),
        r is Err ==> removal is Some && removal->Some_0 is Err && r->Err_0 is UninstallFailed
            && r->Err_0->UninstallFailed_app_id@ == app_id@
            && r->Err_0->UninstallFailed_cause@ == removal->Some_0->Err_0@,
{
    match removal {
        None => Ok(()),
        Some(Ok(())) => Ok(()),
        Some(Err(cause)) => Err(CatalogError::UninstallFailed { app_id: String::from_str(app_id), cause }),
    }
}
}

