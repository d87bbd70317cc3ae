//! The package manager: dependencies are git repositories on the permitted
//! host, fetched once into a cache slot named after their package identity.

use vstd::prelude::*;

use crate::config::{texts, url_fault, Config, ConfigError, ConfigFault, ConfigModel};
use crate::pipeline::{join_sources, unit_of};
use crate::text::{concat, same_text};

pub use crate::config::validate_dependency;

verus! {

/// Why a dependency could not be resolved.
#[derive(Debug)]
pub enum DepError {
    /// The dependency's URL is refused.
    Config(ConfigError),
    /// The repository of dependency `name` could not be cloned.
    Clone { name: String, url: String, reason: String },
    /// The dependency's own description is missing, malformed or invalid.
    Nested { name: String, error: ConfigError },
    /// The dependency's description declares no package identity.
    NoPackage { name: String },
    /// A file operation on the cache failed.
    Io { path: String, reason: String },
    /// A fetch was handed an event it did not ask for.
    OutOfOrder,
}

/// The model of a [`DepError`].
pub enum DepFault {
    Config(ConfigFault),
    Clone(Seq<char>, Seq<char>, Seq<char>),
    Nested(Seq<char>, ConfigFault),
    NoPackage(Seq<char>),
    Io(Seq<char>, Seq<char>),
    OutOfOrder,
}

impl View for DepError {
    type V = DepFault;

    open spec fn view(&self) -> DepFault {
        match self {
            DepError::Config(e) => DepFault::Config(e@),
            DepError::Clone { name, url, reason } => DepFault::Clone(name@, url@, reason@),
            DepError::Nested { name, error } => DepFault::Nested(name@, error@),
            DepError::NoPackage { name } => DepFault::NoPackage(name@),
            DepError::Io { path, reason } => DepFault::Io(path@, reason@),
            DepError::OutOfOrder => DepFault::OutOfOrder,
        }
    }
}

/// The scratch directory a dependency is cloned into before its identity
/// is known.
pub open spec fn scratch_dir(root: Seq<char>) -> Seq<char> {
    root + "/temp"@
}

/// The description file of a package checked out at `dir`.
pub open spec fn config_file_in(dir: Seq<char>) -> Seq<char> {
    dir + "/Config.toml"@
}

/// The name of the cache slot of a package: its name and version.
pub open spec fn slot_name(package: (Seq<char>, Seq<char>)) -> Seq<char> {
    package.0 + "-"@ + package.1
}

/// The directory of the cache slot of a package.
pub open spec fn slot_dir(root: Seq<char>, package: (Seq<char>, Seq<char>)) -> Seq<char> {
    root + "/"@ + slot_name(package)
}

/// The scratch directory under cache root `root`.
pub fn scratch_path(root: &str) -> (r: String)
    ensures
        r@ == scratch_dir(root@),
{
    concat(root, "/temp")
}

/// The description file of a package checked out at `dir`.
pub fn config_path(dir: &str) -> (r: String)
    ensures
        r@ == config_file_in(dir@),
{
    concat(dir, "/Config.toml")
}

/// The cache slot directory, under `root`, of the package `name`-`version`.
pub fn slot_path(root: &str, name: &str, version: &str) -> (r: String)
    ensures
        r@ == slot_dir(root@, (name@, version@)),
{
    let mut r = concat(root, "/");
    r.append(name);
    r.append("-");
    r.append(version);
    proof {
        assert(r@ =~= slot_dir(root@, (name@, version@)));
    }
    r
}

/// The cache's record of a dependency: the URL it was fetched from and the
/// package identity found there.
pub struct CacheRecord {
    pub url: String,
    pub name: String,
    pub version: String,
}

impl View for CacheRecord {
    type V = (Seq<char>, Seq<char>, Seq<char>);

    open spec fn view(&self) -> (Seq<char>, Seq<char>, Seq<char>) {
        (self.url@, self.name@, self.version@)
    }
}

/// Where the cache records the dependency declared under `name`.
pub open spec fn record_file(root: Seq<char>, name: Seq<char>) -> Seq<char> {
    root + "/records/"@ + name
}

/// Where the cache under `root` records the dependency declared as `name`.
pub fn record_path(root: &str, name: &str) -> (r: String)
    ensures
        r@ == record_file(root@, name@),
{
    let mut r = concat(root, "/records/");
    r.append(name);
    r
}

/// Where the fetch of a dependency stands.
#[derive(PartialEq, Eq, Structural, Clone, Copy, Debug)]
pub enum FetchStage {
    /// Looking up what the cache records of the dependency.
    Looking,
    /// Asking whether the recorded slot is still there.
    Reprobing,
    /// Cloning into the scratch directory.
    Cloning,
    /// Reading the clone's description to learn its identity.
    Reading,
    /// Asking whether the identity's cache slot exists.
    Probing,
    /// Discarding the clone, the slot being taken already.
    Discarding,
    /// Moving the clone into its cache slot.
    Moving,
    /// Recording the identity; `true` where the slot was there already.
    Recording(bool),
    Done,
    Failed,
}

/// A dependency placed in the cache.
pub struct ResolvedDependency {
    /// The name it was declared under.
    pub name: String,
    pub url: String,
    /// Its package identity, `name-version`.
    pub package: String,
    /// Its cache slot.
    pub local_path: String,
}

/// The model of a [`ResolvedDependency`].
pub struct ResolvedModel {
    pub name: Seq<char>,
    pub url: Seq<char>,
    pub package: Seq<char>,
    pub local_path: Seq<char>,
}

impl View for ResolvedDependency {
    type V = ResolvedModel;

    open spec fn view(&self) -> ResolvedModel {
        ResolvedModel {
            name: self.name@,
            url: self.url@,
            package: self.package@,
            local_path: self.local_path@,
        }
    }
}

/// What the driver reports back to a fetch.
pub enum FetchEvent {
    /// What the cache records of the dependency, if anything.
    Looked(Option<CacheRecord>),
    /// Whether the clone succeeded.
    Cloned(Result<(), String>),
    /// The clone's description, loaded and validated, or why it is not usable.
    ConfigRead(Result<Config, ConfigError>),
    /// Whether the asked-for directory exists.
    Probed(bool),
    /// Whether the scratch directory was removed.
    Removed(Result<(), String>),
    /// Whether the clone was moved into its slot.
    Moved(Result<(), String>),
    /// Whether the record was written.
    Recorded(Result<(), String>),
}

/// The model of a [`FetchEvent`].
pub enum FetchEventModel {
    Looked(Option<(Seq<char>, Seq<char>, Seq<char>)>),
    Cloned(Result<(), Seq<char>>),
    ConfigRead(Result<ConfigModel, ConfigFault>),
    Probed(bool),
    Removed(Result<(), Seq<char>>),
    Moved(Result<(), Seq<char>>),
    Recorded(Result<(), Seq<char>>),
}

/// The model of a reported outcome.
pub open spec fn done_view(r: Result<(), String>) -> Result<(), Seq<char>> {
    match r {
        Ok(_) => Ok(()),
        Err(e) => Err(e@),
    }
}

impl View for FetchEvent {
    type V = FetchEventModel;

    open spec fn view(&self) -> FetchEventModel {
        match self {
            FetchEvent::Looked(Some(rec)) => FetchEventModel::Looked(Some(rec@)),
            FetchEvent::Looked(None) => FetchEventModel::Looked(None),
            FetchEvent::Cloned(r) => FetchEventModel::Cloned(done_view(*r)),
            FetchEvent::ConfigRead(Ok(c)) => FetchEventModel::ConfigRead(Ok(c@)),
            FetchEvent::ConfigRead(Err(e)) => FetchEventModel::ConfigRead(Err(e@)),
            FetchEvent::Probed(b) => FetchEventModel::Probed(*b),
            FetchEvent::Removed(r) => FetchEventModel::Removed(done_view(*r)),
            FetchEvent::Moved(r) => FetchEventModel::Moved(done_view(*r)),
            FetchEvent::Recorded(r) => FetchEventModel::Recorded(done_view(*r)),
        }
    }
}

/// What a fetch asks the driver to do next.
pub enum FetchAction {
    /// Read the record at `path`, if there is one.
    Lookup { path: String },
    /// Clone the repository at `url` into `dest`.
    Clone { url: String, dest: String },
    /// Load and validate the description file at `path`.
    ReadConfig { path: String },
    /// Tell whether `path` exists.
    Probe { path: String },
    /// Remove the directory `path`.
    Remove { path: String },
    /// Rename directory `from` to `to`.
    Move { from: String, to: String },
    /// Write `record` at `path`, replacing what is there.
    Record { path: String, record: CacheRecord },
    /// The dependency is in the cache; `reused` says it was there already.
    Finish { resolved: ResolvedDependency, reused: bool },
    /// The fetch failed.
    Fail(DepError),
}

/// The model of a [`FetchAction`].
pub enum FetchActionModel {
    Lookup(Seq<char>),
    Clone(Seq<char>, Seq<char>),
    ReadConfig(Seq<char>),
    Probe(Seq<char>),
    Remove(Seq<char>),
    Move(Seq<char>, Seq<char>),
    Record(Seq<char>, (Seq<char>, Seq<char>, Seq<char>)),
    Finish(ResolvedModel, bool),
    Fail(DepFault),
}

impl View for FetchAction {
    type V = FetchActionModel;

    open spec fn view(&self) -> FetchActionModel {
        match self {
            FetchAction::Lookup { path } => FetchActionModel::Lookup(path@),
            FetchAction::Clone { url, dest } => FetchActionModel::Clone(url@, dest@),
            FetchAction::ReadConfig { path } => FetchActionModel::ReadConfig(path@),
            FetchAction::Probe { path } => FetchActionModel::Probe(path@),
            FetchAction::Remove { path } => FetchActionModel::Remove(path@),
            FetchAction::Move { from, to } => FetchActionModel::Move(from@, to@),
            FetchAction::Record { path, record } => FetchActionModel::Record(path@, record@),
            FetchAction::Finish { resolved, reused } => FetchActionModel::Finish(resolved@, *reused),
            FetchAction::Fail(e) => FetchActionModel::Fail(e@),
        }
    }
}

/// The model of a fetch.
pub struct FetchModel {
    /// The name the dependency was declared under.
    pub name: Seq<char>,
    pub url: Seq<char>,
    /// The cache root.
    pub root: Seq<char>,
    pub stage: FetchStage,
    /// The package identity, once it is known.
    pub package: (Seq<char>, Seq<char>),
}

/// The dependency a finished fetch has placed.
pub open spec fn resolved_of(m: FetchModel) -> ResolvedModel {
    ResolvedModel {
        name: m.name,
        url: m.url,
        package: slot_name(m.package),
        local_path: slot_dir(m.root, m.package),
    }
}

/// The record a fetch leaves of its dependency.
pub open spec fn record_of(m: FetchModel) -> (Seq<char>, Seq<char>, Seq<char>) {
    (m.url, m.package.0, m.package.1)
}

/// How a fetch starts: a refused URL fails at once, before anything is
/// fetched; otherwise the cache's record of the dependency is looked up.
pub open spec fn fetch_start(name: Seq<char>, url: Seq<char>, root: Seq<char>) -> Result<
    (FetchModel, FetchActionModel),
    DepFault,
> {
    match url_fault(url, crate::config::parsed_host(url)) {
        Some(f) => Err(DepFault::Config(f)),
        None => Ok(
            (
                FetchModel {
                    name,
                    url,
                    root,
                    stage: FetchStage::Looking,
                    package: (Seq::empty(), Seq::empty()),
                },
                FetchActionModel::Lookup(record_file(root, name)),
            ),
        ),
    }
}

/// A fetch handed an event it did not ask for stops.
pub open spec fn fetch_out_of_order(m: FetchModel) -> (FetchModel, FetchActionModel) {
    (FetchModel { stage: FetchStage::Failed, ..m }, FetchActionModel::Fail(DepFault::OutOfOrder))
}

/// Cloning into the scratch directory.
pub open spec fn start_clone(m: FetchModel) -> (FetchModel, FetchActionModel) {
    (FetchModel { stage: FetchStage::Cloning, ..m }, FetchActionModel::Clone(m.url, scratch_dir(m.root)))
}

/// How a fetch answers an event: its next state and request. A dependency
/// recorded as fetched from the same URL, whose slot is still there, is
/// reused without a clone; otherwise it is cloned, identified, placed in
/// its slot (or the clone discarded where the slot is taken), and recorded.
pub open spec fn fetch_step(m: FetchModel, e: FetchEventModel) -> (FetchModel, FetchActionModel) {
    let failed = FetchModel { stage: FetchStage::Failed, ..m };
    match (m.stage, e) {
        (FetchStage::Looking, FetchEventModel::Looked(Some(rec))) => if rec.0 == m.url {
            (
                FetchModel { stage: FetchStage::Reprobing, package: (rec.1, rec.2), ..m },
                FetchActionModel::Probe(slot_dir(m.root, (rec.1, rec.2))),
            )
        } else {
            start_clone(m)
        },
        (FetchStage::Looking, FetchEventModel::Looked(None)) => start_clone(m),
        (FetchStage::Reprobing, FetchEventModel::Probed(true)) => (
            FetchModel { stage: FetchStage::Done, ..m },
            FetchActionModel::Finish(resolved_of(m), true),
        ),
        (FetchStage::Reprobing, FetchEventModel::Probed(false)) => start_clone(m),
        (FetchStage::Cloning, FetchEventModel::Cloned(Err(r))) => (
            failed,
            FetchActionModel::Fail(DepFault::Clone(m.name, m.url, r)),
        ),
        (FetchStage::Cloning, FetchEventModel::Cloned(Ok(_))) => (
            FetchModel { stage: FetchStage::Reading, ..m },
            FetchActionModel::ReadConfig(config_file_in(scratch_dir(m.root))),
        ),
        (FetchStage::Reading, FetchEventModel::ConfigRead(Err(c))) => (
            failed,
            FetchActionModel::Fail(DepFault::Nested(m.name, c)),
        ),
        (FetchStage::Reading, FetchEventModel::ConfigRead(Ok(c))) => match c.package {
            None => (failed, FetchActionModel::Fail(DepFault::NoPackage(m.name))),
            Some(p) => (
                FetchModel { stage: FetchStage::Probing, package: p, ..m },
                FetchActionModel::Probe(slot_dir(m.root, p)),
            ),
        },
        (FetchStage::Probing, FetchEventModel::Probed(true)) => (
            FetchModel { stage: FetchStage::Discarding, ..m },
            FetchActionModel::Remove(scratch_dir(m.root)),
        ),
        (FetchStage::Probing, FetchEventModel::Probed(false)) => (
            FetchModel { stage: FetchStage::Moving, ..m },
            FetchActionModel::Move(scratch_dir(m.root), slot_dir(m.root, m.package)),
        ),
        (FetchStage::Discarding, FetchEventModel::Removed(Err(r))) => (
            failed,
            FetchActionModel::Fail(DepFault::Io(scratch_dir(m.root), r)),
        ),
        (FetchStage::Discarding, FetchEventModel::Removed(Ok(_))) => (
            FetchModel { stage: FetchStage::Recording(true), ..m },
            FetchActionModel::Record(record_file(m.root, m.name), record_of(m)),
        ),
        (FetchStage::Moving, FetchEventModel::Moved(Err(r))) => (
            failed,
            FetchActionModel::Fail(DepFault::Io(slot_dir(m.root, m.package), r)),
        ),
        (FetchStage::Moving, FetchEventModel::Moved(Ok(_))) => (
            FetchModel { stage: FetchStage::Recording(false), ..m },
            FetchActionModel::Record(record_file(m.root, m.name), record_of(m)),
        ),
        (FetchStage::Recording(_), FetchEventModel::Recorded(Err(r))) => (
            failed,
            FetchActionModel::Fail(DepFault::Io(record_file(m.root, m.name), r)),
        ),
        (FetchStage::Recording(reused), FetchEventModel::Recorded(Ok(_))) => (
            FetchModel { stage: FetchStage::Done, ..m },
            FetchActionModel::Finish(resolved_of(m), reused),
        ),
        _ => fetch_out_of_order(m),
    }
}

/// The fetch of one dependency into the cache. Where the cache records the
/// dependency as fetched from the same URL and its slot is still there, the
/// slot is reused and nothing is cloned. Otherwise the repository is cloned
/// into a scratch directory, its description names its package identity,
/// the clone is moved into the slot of that identity, or discarded where
/// the slot exists already, and the identity is recorded.
pub struct FetchSession {
    name: String,
    url: String,
    root: String,
    stage: FetchStage,
    package_name: String,
    package_version: String,
}

impl View for FetchSession {
    type V = FetchModel;

    closed spec fn view(&self) -> FetchModel {
        FetchModel {
            name: self.name@,
            url: self.url@,
            root: self.root@,
            stage: self.stage,
            package: (self.package_name@, self.package_version@),
        }
    }
}

/// Starts the fetch of dependency `name` from `url` into the cache at
/// `cache_root`, and says what to do first.
pub fn add_dependency(name: String, url: String, cache_root: String) -> (r: Result<
    (FetchSession, FetchAction),
    DepError,
>)
    ensures
        match (r, fetch_start(name@, url@, cache_root@)) {
            (Ok((s, a)), Ok((m, am))) => s@ == m && a@ == am,
            (Err(e), Err(f)) => e@ == f,
            _ => false,
        },
{
    match validate_dependency(url.clone()) {
        Err(e) => Err(DepError::Config(e)),
        Ok(()) => {
            let path = record_path(cache_root.as_str(), name.as_str());
            let session = FetchSession {
                name,
                url,
                root: cache_root,
                stage: FetchStage::Looking,
                package_name: String::new(),
                package_version: String::new(),
            };
            Ok((session, FetchAction::Lookup { path }))
        },
    }
}

impl FetchSession {
    fn fail(&mut self, e: DepError) -> (a: FetchAction)
        ensures
            final(self)@ == (FetchModel { stage: FetchStage::Failed, ..old(self)@ }),
            a@ == FetchActionModel::Fail(e@),
    {
        self.stage = FetchStage::Failed;
        FetchAction::Fail(e)
    }

    fn resolved(&self) -> (r: ResolvedDependency)
        ensures
            r@ == resolved_of(self@),
    {
        let mut package = self.package_name.clone();
        package.append("-");
        package.append(self.package_version.as_str());
        let local_path = self.slot();
        ResolvedDependency {
            name: self.name.clone(),
            url: self.url.clone(),
            package,
            local_path,
        }
    }

    fn slot(&self) -> (r: String)
        ensures
            r@ == slot_dir(self@.root, self@.package),
    {
        slot_path(self.root.as_str(), self.package_name.as_str(), self.package_version.as_str())
    }

    fn start_clone(&mut self) -> (a: FetchAction)
        ensures
            (final(self)@, a@) == start_clone(old(self)@),
    {
        self.stage = FetchStage::Cloning;
        FetchAction::Clone { url: self.url.clone(), dest: scratch_path(self.root.as_str()) }
    }

    fn record(&mut self, reused: bool) -> (a: FetchAction)
        ensures
            final(self)@ == (FetchModel { stage: FetchStage::Recording(reused), ..old(self)@ }),
            a@ == FetchActionModel::Record(record_file(old(self)@.root, old(self)@.name), record_of(old(self)@)),
    {
        self.stage = FetchStage::Recording(reused);
        let record = CacheRecord {
            url: self.url.clone(),
            name: self.package_name.clone(),
            version: self.package_version.clone(),
        };
        FetchAction::Record { path: record_path(self.root.as_str(), self.name.as_str()), record }
    }

    /// Answers an event and says what to do next.
    pub fn step(&mut self, e: FetchEvent) -> (a: FetchAction)
        ensures
            (final(self)@, a@) == fetch_step(old(self)@, e@),
    {
        match (self.stage, e) {
            (FetchStage::Looking, FetchEvent::Looked(Some(rec))) => {
                if same_text(rec.url.as_str(), self.url.as_str()) {
                    self.stage = FetchStage::Reprobing;
                    self.package_name = rec.name;
                    self.package_version = rec.version;
                    FetchAction::Probe { path: self.slot() }
                } else {
                    self.start_clone()
                }
            },
            (FetchStage::Looking, FetchEvent::Looked(None)) => self.start_clone(),
            (FetchStage::Reprobing, FetchEvent::Probed(true)) => {
                self.stage = FetchStage::Done;
                FetchAction::Finish { resolved: self.resolved(), reused: true }
            },
            (FetchStage::Reprobing, FetchEvent::Probed(false)) => self.start_clone(),
            (FetchStage::Cloning, FetchEvent::Cloned(Err(r))) => {
                let name = self.name.clone();
                let url = self.url.clone();
                self.fail(DepError::Clone { name, url, reason: r })
            },
            (FetchStage::Cloning, FetchEvent::Cloned(Ok(()))) => {
                self.stage = FetchStage::Reading;
                let scratch = scratch_path(self.root.as_str());
                FetchAction::ReadConfig { path: config_path(scratch.as_str()) }
            },
            (FetchStage::Reading, FetchEvent::ConfigRead(Err(c))) => {
                let name = self.name.clone();
                self.fail(DepError::Nested { name, error: c })
            },
            (FetchStage::Reading, FetchEvent::ConfigRead(Ok(c))) => match c.package {
                None => {
                    let name = self.name.clone();
                    self.fail(DepError::NoPackage { name })
                },
                Some(p) => {
                    self.stage = FetchStage::Probing;
                    self.package_name = p.name;
                    self.package_version = p.version;
                    FetchAction::Probe { path: self.slot() }
                },
            },
            (FetchStage::Probing, FetchEvent::Probed(true)) => {
                self.stage = FetchStage::Discarding;
                FetchAction::Remove { path: scratch_path(self.root.as_str()) }
            },
            (FetchStage::Probing, FetchEvent::Probed(false)) => {
                self.stage = FetchStage::Moving;
                let from = scratch_path(self.root.as_str());
                FetchAction::Move { from, to: self.slot() }
            },
            (FetchStage::Discarding, FetchEvent::Removed(Err(r))) => {
                let path = scratch_path(self.root.as_str());
                self.fail(DepError::Io { path, reason: r })
            },
            (FetchStage::Discarding, FetchEvent::Removed(Ok(()))) => self.record(true),
            (FetchStage::Moving, FetchEvent::Moved(Err(r))) => {
                let path = self.slot();
                self.fail(DepError::Io { path, reason: r })
            },
            (FetchStage::Moving, FetchEvent::Moved(Ok(()))) => self.record(false),
            (FetchStage::Recording(_), FetchEvent::Recorded(Err(r))) => {
                let path = record_path(self.root.as_str(), self.name.as_str());
                self.fail(DepError::Io { path, reason: r })
            },
            (FetchStage::Recording(reused), FetchEvent::Recorded(Ok(()))) => {
                self.stage = FetchStage::Done;
                FetchAction::Finish { resolved: self.resolved(), reused }
            },
            _ => self.fail(DepError::OutOfOrder),
        }
    }
}

/// A dependency is cloned at most once per cache: a first fetch, finding
/// no record, clones it, places it in the slot of its identity and records
/// that identity; a second fetch of the same name and URL, reading that
/// record while the slot is there, asks for no clone, touches nothing, and
/// resolves to the same slot.
pub proof fn lemma_second_fetch_reuses_slot(
    name: Seq<char>,
    url: Seq<char>,
    root: Seq<char>,
    nested: ConfigModel,
)
    requires
        url_fault(url, crate::config::parsed_host(url)) is None,
        nested.package is Some,
    ensures
        ({
            let slot = slot_dir(root, nested.package->0);
            let (m0, a0) = fetch_start(name, url, root)->Ok_0;
            let (m1, a1) = fetch_step(m0, FetchEventModel::Looked(None));
            let (m2, a2) = fetch_step(m1, FetchEventModel::Cloned(Ok(())));
            let (m3, a3) = fetch_step(m2, FetchEventModel::ConfigRead(Ok(nested)));
            let (m4, a4) = fetch_step(m3, FetchEventModel::Probed(false));
            let (m5, a5) = fetch_step(m4, FetchEventModel::Moved(Ok(())));
            let (m6, a6) = fetch_step(m5, FetchEventModel::Recorded(Ok(())));
            let (n1, b1) = fetch_step(m0, FetchEventModel::Looked(Some(a5->Record_1)));
            let (n2, b2) = fetch_step(n1, FetchEventModel::Probed(true));
            &&& a0 == FetchActionModel::Lookup(record_file(root, name))
            &&& a1 == FetchActionModel::Clone(url, scratch_dir(root))
            &&& a3 == FetchActionModel::Probe(slot)
            &&& a4 == FetchActionModel::Move(scratch_dir(root), slot)
            &&& a5 matches FetchActionModel::Record(path, _) && path == record_file(root, name)
            &&& a6 matches FetchActionModel::Finish(r, false) && r.local_path == slot
            &&& b1 == FetchActionModel::Probe(slot)
            &&& b2 matches FetchActionModel::Finish(r2, true) && r2 == a6->Finish_0
            &&& n2.stage == FetchStage::Done
        }),
{
}

/// The source text of a cached dependency, from its description `cfg` and
/// the texts of the files it declares, `contents`, in its declared order:
/// each preceded by one line break. A description without a package
/// identity cannot stand in the cache.
pub fn get_dependency_source_code(name: &str, cfg: &Config, contents: &Vec<String>) -> (r: Result<
    String,
    DepError,
>)
    requires
        contents.len() == cfg.build.infiles.len(),
    ensures
        match r {
            Ok(s) => cfg.package is Some && s@ == unit_of(texts(contents@)),
            Err(e) => cfg.package is None && e@ == DepFault::NoPackage(name@),
        },
{
    match &cfg.package {
        None => Err(DepError::NoPackage { name: name.to_owned() }),
        Some(_) => Ok(join_sources(contents)),
    }
}

/// The files a cached dependency declares, as paths inside its slot
/// `dir`, in its declared order.
pub fn dependency_files(dir: &str, cfg: &Config) -> (r: Vec<String>)
    ensures
        r@.len() == cfg.build.infiles@.len(),
        forall|i: int|
            0 <= i < r@.len() ==> #[trigger] r@[i]@ == dir@ + "/"@ + cfg.build.infiles@[i]@,
{
    let mut r: Vec<String> = Vec::new();
    let n = cfg.build.infiles.len();
    let mut i: usize = 0;
    while i < n
        invariant
            n == cfg.build.infiles.len(),
            i <= n,
            r@.len() == i,
            forall|j: int|
                0 <= j < i ==> #[trigger] r@[j]@ == dir@ + "/"@ + cfg.build.infiles@[j]@,
        decreases n - i,
    {
        let mut p = concat(dir, "/");
        p.append(cfg.build.infiles[i].as_str());
        r.push(p);
        i += 1;
    }
    r
}

} // verus!
