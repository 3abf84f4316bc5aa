use vstd::prelude::*;
use crate::auth::{is_property_change, AuthError, AuthEvent, PasswordFlow, User, UserProperty};
use crate::catalog::{
    app_ids, locate, spec_find_app, spec_metadata, text_or, AppMetadata, CatalogError,
    LibraryRoot, LocalConnector, UninstallStep,
};
use crate::constants::{DEFAULT_PLATFORM, LIBRARY_PROVIDER_ID};
use crate::install::{
    missing_field, pending_record, plan_install, InstallError, InstallPlan, InstallRegistry,
    InstallSession, SessionStage, without,
};
use crate::keys::{exported_pem, pem_header, KeyError, KeyIdentity, KEY_BITS};
use crate::paths::{join_path, starts_with};
use crate::types::{
    AppType, CloudPath, EulaEntry, InstallOption, InstalledApp, ItemMetadata, LaunchOption,
    LaunchType, PlaytronAppType, PlaytronImage, PlaytronProvider, ProviderItem,
};

verus! {

/// The mathematical value of a `ProviderItem`.
pub struct ProviderItemView {
    pub id: Seq<char>,
    pub name: Seq<char>,
    pub provider: Seq<char>,
    pub app_type: AppType,
}

impl View for ProviderItem {
    type V = ProviderItemView;

    open spec fn view(&self) -> ProviderItemView {
        ProviderItemView { id: self.id@, name: self.name@, provider: self.provider@, app_type: self.app_type }
    }
}

/// The catalog entry for `id`, described by `m`: named by its descriptor,
/// or by its id where the descriptor names nothing.
pub open spec fn provider_item_of(id: Seq<char>, m: AppMetadata) -> ProviderItemView {
    ProviderItemView {
        id,
        name: text_or(m.name, id),
        provider: LIBRARY_PROVIDER_ID@,
        app_type: AppType::Game,
    }
}

/// The catalog entries of `ids` whose descriptor loads, in order.
pub open spec fn provider_items_of(roots: Seq<LibraryRoot>, ids: Seq<Seq<char>>) -> Seq<ProviderItemView>
    decreases ids.len(),
{
    if ids.len() == 0 {
        seq![]
    } else {
        let id = ids.last();
        provider_items_of(roots, ids.drop_last()) + match spec_metadata(roots, id) {
            Some(m) => seq![provider_item_of(id, m)],
            None => seq![],
        }
    }
}

/// Whether the app runs in the container runtime: unless its descriptor
/// turns that off.
pub open spec fn uses_container_runtime(m: AppMetadata) -> bool {
    match m.runtime {
        Some(b) => b,
        None => true,
    }
}

fn name_or_id(m: &AppMetadata, app_id: &str) -> (r: String)
    ensures
        r@ == text_or(m.name, app_id@),
{
    match &m.name {
        Some(n) => n.clone(),
        None => String::from_str(app_id),
    }
}

/// The process-wide context: key pair, catalog, account slot and running
/// installs, owned in one place and handed to every operation.
pub struct LocalService {
    pub key: KeyIdentity,
    pub connector: LocalConnector,
    pub user: User,
    pub installs: InstallRegistry,
}

impl LocalService {
    /// A context with a fresh key pair, nobody signed in and no install
    /// running. Fails only where no key pair can be made.
    pub fn new() -> (r: Result<LocalService, KeyError>)
        ensures
            r is Ok ==> r->Ok_0.user@ is None && r->Ok_0.installs@ == Seq::<Seq<char>>::empty(),
            r is Ok ==> r->Ok_0.key.bits() == KEY_BITS,
    {
        let key = KeyIdentity::generate()?;
        Ok(LocalService::with_key(key))
    }

    /// A context around `key`, with nobody signed in and no install running.
    pub fn with_key(key: KeyIdentity) -> (r: LocalService)
        ensures
            r.key == key,
            r.user@ is None,
            r.installs@ == Seq::<Seq<char>>::empty(),
    {
        LocalService { key, connector: LocalConnector, user: User::new(), installs: InstallRegistry::new() }
    }

    /// The public key, PEM-encoded; empty where encoding failed. The same
    /// key gives the same text on every call.
    pub fn get_public_key(&self) -> (r: String)
        ensures
            r@ == exported_pem(self.key.public_der()),
            r@.len() == 0 || starts_with(r@, pem_header()),
    {
        self.key.export_public_pem()
    }

    /// The catalog entry of `app_id`; fails as `load_metadata` does.
    pub fn get_provider_item(&self, roots: &Vec<LibraryRoot>, app_id: &str) -> (r: Result<
        ProviderItem,
        CatalogError,
    >)
        ensures
            r is Ok <==> spec_metadata(roots@, app_id@) is Some,
            r is Ok ==> r->Ok_0@ == provider_item_of(app_id@, spec_metadata(roots@, app_id@)->Some_0),
    {
        let m = self.connector.load_metadata(roots, app_id)?;
        Ok(ProviderItem {
            id: String::from_str(app_id),
            name: name_or_id(m, app_id),
            provider: String::from_str(LIBRARY_PROVIDER_ID),
            app_type: AppType::Game,
        })
    }

    /// The catalog entries of all apps found, in scan order; apps whose
    /// descriptor does not load are left out.
    pub fn get_provider_items(&self, roots: &Vec<LibraryRoot>) -> (r: Vec<ProviderItem>)
        ensures
            r@.map_values(|p: ProviderItem| p@) == provider_items_of(roots@, app_ids(roots@)),
    {
        let ids = self.connector.list_apps(roots);
        let ghost idv = ids@.map_values(|s: String| s@);
        let mut out: Vec<ProviderItem> = Vec::new();
        let mut i: usize = 0;
        while i < ids.len()
            invariant
                i <= ids@.len(),
                idv == ids@.map_values(|s: String| s@),
                out@.map_values(|p: ProviderItem| p@) == provider_items_of(roots@, idv.subrange(0, i as int)),
            decreases ids@.len() - i,
        {
            let ghost prev = out@;
            proof {
                assert(idv.subrange(0, i + 1).drop_last() =~= idv.subrange(0, i as int));
                assert(idv.subrange(0, i + 1).last() == ids@[i as int]@);
            }
            match self.get_provider_item(roots, ids[i].as_str()) {
                Ok(item) => {
                    out.push(item);
                    assert(out@.map_values(|p: ProviderItem| p@) =~= prev.map_values(|p: ProviderItem| p@).push(item@));
                },
                Err(_) => {},
            }
            assert(out@.map_values(|p: ProviderItem| p@) =~= provider_items_of(roots@, idv.subrange(0, i + 1)));
            i = i + 1;
        }
        assert(idv.subrange(0, ids@.len() as int) =~= idv);
        out
    }

    /// The artwork of an app: one landscape image where its descriptor
    /// names an image, else none.
    pub fn get_images(&self, metadata: &AppMetadata) -> (r: Vec<PlaytronImage>)
        ensures
            metadata.image is None ==> r@.len() == 0,
            metadata.image is Some ==> r@.len() == 1 && r@[0].url@ == metadata.image->Some_0@
                && r@[0].image_type@ == "landscape"@ && r@[0].source@ == "local"@ && r@[0].alt@.len() == 0,
    {
        let mut images: Vec<PlaytronImage> = Vec::new();
        match &metadata.image {
            Some(url) => {
                images.push(PlaytronImage {
                    image_type: String::from_str("landscape"),
                    url: url.clone(),
                    source: String::from_str("local"),
                    alt: String::new(),
                });
            },
            None => {},
        }
        images
    }

    /// The document describing `app_id` to callers; fails as
    /// `load_metadata` does.
    pub fn get_item_metadata(&self, roots: &Vec<LibraryRoot>, app_id: &str) -> (r: Result<
        ItemMetadata,
        CatalogError,
    >)
        ensures
            r is Ok <==> spec_metadata(roots@, app_id@) is Some,
            r is Ok ==> {
                let d = r->Ok_0;
                let m = spec_metadata(roots@, app_id@)->Some_0;
                &&& d.id@ == app_id@
                &&& d.name@ == text_or(m.name, app_id@)
                &&& d.slug@ == app_id@
                &&& d.app_type == PlaytronAppType::Game
                &&& d.use_container_runtime == uses_container_runtime(m)
                &&& d.summary@.len() == 0
                &&& d.description@.len() == 0
                &&& d.tags@.len() == 0
                &&& d.developers@.len() == 0
                &&& d.publishers@.len() == 0
                &&& d.providers@.len() == 1
                &&& d.providers@[0].provider@ == LIBRARY_PROVIDER_ID@
                &&& d.providers@[0].namespace@ == LIBRARY_PROVIDER_ID@
                &&& d.providers@[0].provider_app_id@ == app_id@
                &&& d.providers@[0].store_id@ == app_id@
                &&& d.providers@[0].product_store_link@.len() == 0
                &&& d.providers@[0].parent_store_id is None
                &&& d.providers@[0].last_imported_timestamp is None
                &&& d.providers@[0].known_dlc_store_ids@.len() == 0
                &&& (m.image is None ==> d.images@.len() == 0)
                &&& (m.image is Some ==> {
                    &&& d.images@.len() == 1
                    &&& d.images@[0].url@ == m.image->Some_0@
                    &&& d.images@[0].image_type@ == "landscape"@
                    &&& d.images@[0].source@ == "local"@
                    &&& d.images@[0].alt@.len() == 0
                })
            },
    {
        let m = self.connector.load_metadata(roots, app_id)?;
        let mut providers: Vec<PlaytronProvider> = Vec::new();
        providers.push(
            PlaytronProvider {
                namespace: String::from_str(LIBRARY_PROVIDER_ID),
                provider: String::from_str(LIBRARY_PROVIDER_ID),
                provider_app_id: String::from_str(app_id),
                store_id: String::from_str(app_id),
                product_store_link: String::new(),
                parent_store_id: None,
                last_imported_timestamp: None,
                known_dlc_store_ids: Vec::new(),
            },
        );
        let use_container_runtime = match m.runtime {
            Some(b) => b,
            None => true,
        };
        Ok(ItemMetadata {
            id: String::from_str(app_id),
            name: name_or_id(m, app_id),
            app_type: PlaytronAppType::Game,
            providers,
            summary: String::new(),
            description: String::new(),
            slug: String::from_str(app_id),
            developers: Vec::new(),
            publishers: Vec::new(),
            tags: Vec::new(),
            use_container_runtime,
            images: self.get_images(m),
        })
    }

    /// The installed apps, as the catalog lists them.
    pub fn get_installed_apps(&self, roots: &Vec<LibraryRoot>) -> (r: Vec<InstalledApp>)
        ensures
            r@.map_values(|a: InstalledApp| a@) == crate::catalog::installed_apps(roots@),
    {
        self.connector.list_installed_apps(roots)
    }

    /// How `app_id` can be launched: one option running the descriptor's
    /// executable, or none where it names no executable. Fails as
    /// `load_metadata` does.
    pub fn get_launch_options(&self, roots: &Vec<LibraryRoot>, app_id: &str) -> (r: Result<
        Vec<LaunchOption>,
        CatalogError,
    >)
        ensures
            r is Ok <==> spec_metadata(roots@, app_id@) is Some,
            r is Ok ==> {
                let m = spec_metadata(roots@, app_id@)->Some_0;
                let v = r->Ok_0@;
                &&& (m.executable is None ==> v.len() == 0)
                &&& (m.executable is Some ==> v.len() == 1 && v[0].executable@ == m.executable->Some_0@
                    && v[0].description@ == "Launch"@ && v[0].launch_type == LaunchType::Game
                    && v[0].arguments@.len() == 0 && v[0].working_directory@.len() == 0
                    && v[0].environment@.len() == 0 && v[0].hardware_tags@.len() == 0)
            },
    {
        let m = self.connector.load_metadata(roots, app_id)?;
        let mut options: Vec<LaunchOption> = Vec::new();
        match &m.executable {
            Some(exe) => {
                options.push(
                    LaunchOption {
                        description: String::from_str("Launch"),
                        executable: exe.clone(),
                        working_directory: String::new(),
                        environment: Vec::new(),
                        arguments: String::new(),
                        hardware_tags: Vec::new(),
                        launch_type: LaunchType::Game,
                    },
                );
            },
            None => {},
        }
        Ok(options)
    }

    /// The licence agreements of an app; this provider has none.
    pub fn get_eulas(&self, app_id: &str, country: &str, locale: &str) -> (r: Vec<EulaEntry>)
        ensures
            r@.len() == 0,
    {
        Vec::new()
    }

    /// The steps to run after an install, as a JSON list; this provider has none.
    pub fn get_post_install_steps(&self, app_id: &str) -> (r: String)
        ensures
            r@ == "[]"@,
    {
        String::from_str("[]")
    }

    /// Work to do before a launch; this provider has none.
    pub fn pre_launch_hook(&self, app_id: &str, using_offline_mode: bool) -> (r: Vec<String>)
        ensures
            r@.len() == 0,
    {
        Vec::new()
    }

    /// Where an app keeps its saves; this provider syncs none.
    pub fn get_save_path_patterns(&self, app_id: &str, platform: &str) -> (r: Vec<CloudPath>)
        ensures
            r@.len() == 0,
    {
        Vec::new()
    }

    /// What uninstalling `app_id` takes: nothing where it is absent, else
    /// the removal of its tree.
    pub fn uninstall(&self, roots: &Vec<LibraryRoot>, app_id: &str) -> (r: UninstallStep)
        ensures
            spec_find_app(roots@, app_id@) is None <==> r is AlreadyAbsent,
            r is RemoveTree ==> spec_find_app(roots@, app_id@) == Some(r->path@),
    {
        self.connector.uninstall(roots, app_id)
    }

    /// Accepts an install of `app_id` below `dest_root`: resolves its
    /// descriptor, works out the plan and registers the install, before any
    /// byte is transferred. Fails with `NotFound` where no root holds the
    /// app, `InvalidMetadata` where its descriptor is unreadable or lacks a
    /// required field, and `AlreadyInProgress` where it is being installed.
    pub fn install(
        &mut self,
        roots: &Vec<LibraryRoot>,
        app_id: &str,
        dest_root: &str,
        options: &InstallOption,
    ) -> (r: Result<(InstallPlan, InstallSession), InstallError>)
        ensures
            r is Ok <==> (spec_metadata(roots@, app_id@) is Some && missing_field(
                spec_metadata(roots@, app_id@)->Some_0,
            ) is None && !old(self).installs@.contains(app_id@)),
            r is Ok ==> {
                let (plan, session) = r->Ok_0;
                let m = spec_metadata(roots@, app_id@)->Some_0;
                &&& final(self).installs@ == old(self).installs@.push(app_id@)
                &&& plan.app_id@ == app_id@
                &&& plan.version@ == m.version->Some_0@
                &&& plan.path@ == join_path(dest_root@, app_id@)
                &&& plan.archive_file_name@ == m.file_name->Some_0@
                &&& plan.archive_path@ == join_path(plan.path@, m.file_name->Some_0@)
                &&& plan.os@ == text_or(options.os, DEFAULT_PLATFORM@)
                &&& plan.record@ == pending_record(app_id@, plan.path@, m, *options)
                &&& plan.total_size == m.download_size->Some_0
                &&& session.wf()
                &&& session.stage == SessionStage::Downloading
                &&& session.app_id@ == app_id@
                &&& session.path@ == plan.path@
                &&& session.archive_path@ == plan.archive_path@
                &&& session.total_size == plan.total_size
                &&& session.downloaded == 0
            },
            r is Err ==> final(self).installs@ == old(self).installs@,
            (r is Err && r->Err_0 is NotFound) <==> locate(roots@, app_id@) is None,
            (r is Err && r->Err_0 is InvalidMetadata) <==> (locate(roots@, app_id@) is Some && (spec_metadata(
                roots@,
                app_id@,
            ) is None || missing_field(spec_metadata(roots@, app_id@)->Some_0) is Some)),
            (r is Err && r->Err_0 is AlreadyInProgress) <==> (spec_metadata(roots@, app_id@) is Some
                && missing_field(spec_metadata(roots@, app_id@)->Some_0) is None && old(
                self,
            ).installs@.contains(app_id@)),
            final(self).user@ == old(self).user@,
    {
        let m = match self.connector.load_metadata(roots, app_id) {
            Ok(m) => m,
            Err(CatalogError::MetadataNotFound { .. }) => {
                return Err(InstallError::NotFound { app_id: String::from_str(app_id) });
            },
            Err(_) => {
                return Err(
                    InstallError::InvalidMetadata {
                        app_id: String::from_str(app_id),
                        field: String::from_str("descriptor"),
                    },
                );
            },
        };
        let plan = plan_install(app_id, dest_root, m, options)?;
        self.installs.begin(app_id)?;
        let session = InstallSession::new(&plan);
        Ok((plan, session))
    }

    /// Ends the install of `app_id`, once its session finished.
    pub fn finish_install(&mut self, app_id: &str)
        ensures
            final(self).installs@ == without(old(self).installs@, app_id@),
            final(self).user@ == old(self).user@,
    {
        self.installs.finish(app_id);
    }

    /// Finishes a login of `name` given the identity backend's verdict.
    pub fn login(&mut self, name: &str, verdict: Result<(), String>) -> (r: (Result<(), AuthError>, Vec<AuthEvent>))
        ensures
            verdict is Ok ==> {
                &&& r.0 is Ok
                &&& final(self).user@ == Some(name@)
                &&& r.1@.len() == 4
                &&& is_property_change(r.1@[0], UserProperty::Avatar)
                &&& is_property_change(r.1@[1], UserProperty::Username)
                &&& is_property_change(r.1@[2], UserProperty::Identifier)
                &&& is_property_change(r.1@[3], UserProperty::Status)
            },
            verdict is Err ==> {
                &&& r.0 is Err
                &&& r.0->Err_0->Failed_cause@ == verdict->Err_0@
                &&& final(self).user@ == old(self).user@
                &&& r.1@.len() == 1
                &&& r.1@[0] is AuthError
                &&& r.1@[0]->message@ == verdict->Err_0@
            },
            final(self).installs@ == old(self).installs@,
    {
        PasswordFlow::new().login(&mut self.user, name, verdict)
    }

    /// The signed-in account, if any.
    pub fn get_account(&self) -> (r: Option<String>)
        ensures
            r is None <==> self.user@ is None,
            r is Some ==> self.user@ == Some(r->Some_0@),
    {
        self.user.account()
    }
}

} // verus!
