//! The project description and the rules that make it valid.

use vstd::prelude::*;

use crate::cli::{is_selection, Source};
use crate::paths::{classify, is_doc_file, is_doc_path, path_kind, FileKind};
use crate::text::{opt_view, same_text};

verus! {

/// The `build` section of a project description.
pub struct Build {
    /// The project's own source files, in the order they are joined.
    pub infiles: Vec<String>,
    /// Where a built module is written.
    pub outfile: String,
    /// Where generated documentation is written, if anywhere.
    pub docfile: Option<String>,
}

/// The identity of a project that others fetch as a dependency.
pub struct Package {
    pub name: String,
    pub version: String,
}

/// A named dependency and the URL of its repository.
pub struct Dependency {
    pub name: String,
    pub url: String,
}

/// A whole project description.
pub struct Config {
    pub build: Build,
    /// The declared dependencies, in declaration order.
    pub dependencies: Vec<Dependency>,
    pub package: Option<Package>,
}

/// The mathematical model of a project description.
pub struct ConfigModel {
    pub infiles: Seq<Seq<char>>,
    pub outfile: Seq<char>,
    pub docfile: Option<Seq<char>>,
    /// Pairs of dependency name and URL.
    pub dependencies: Seq<(Seq<char>, Seq<char>)>,
    /// Package name and version.
    pub package: Option<(Seq<char>, Seq<char>)>,
}

/// The views of a sequence of strings.
pub open spec fn texts(v: Seq<String>) -> Seq<Seq<char>> {
    v.map_values(|s: String| s@)
}

impl View for Dependency {
    type V = (Seq<char>, Seq<char>);

    open spec fn view(&self) -> (Seq<char>, Seq<char>) {
        (self.name@, self.url@)
    }
}

impl View for Package {
    type V = (Seq<char>, Seq<char>);

    open spec fn view(&self) -> (Seq<char>, Seq<char>) {
        (self.name@, self.version@)
    }
}

impl View for Config {
    type V = ConfigModel;

    open spec fn view(&self) -> ConfigModel {
        ConfigModel {
            infiles: texts(self.build.infiles@),
            outfile: self.build.outfile@,
            docfile: opt_view(self.build.docfile),
            dependencies: self.dependencies@.map_values(|d: Dependency| d@),
            package: match self.package {
                Some(p) => Some(p@),
                None => None,
            },
        }
    }
}

/// Why a project description was refused.
#[derive(Debug)]
pub enum ConfigError {
    /// An input file that does not exist.
    MissingInputFile { path: String },
    /// An input file that is neither Halcyon source nor a WebAssembly module.
    InvalidInputFile { path: String },
    /// No output file was named.
    NoOutputFile,
    /// An output file without the `.wasm` extension.
    InvalidOutputFile { path: String },
    /// No input file was named.
    NoInputFiles,
    /// A documentation file without the `.md` extension.
    InvalidDocFile { path: String },
    /// A dependency URL that does not parse as an absolute URL.
    UnparsableUrl { url: String },
    /// A dependency URL without a host.
    UrlWithoutHost { url: String },
    /// A dependency URL on a host other than the permitted one.
    ForeignHost { url: String },
    /// Two dependencies declared under the same name.
    DuplicateDependency { name: String },
    /// A description file that could not be read.
    Unreadable { path: String, reason: String },
    /// A description file that is not a well-formed description.
    Malformed { path: String, reason: String },
}

/// The model of a [`ConfigError`].
pub enum ConfigFault {
    MissingInputFile(Seq<char>),
    InvalidInputFile(Seq<char>),
    NoOutputFile,
    InvalidOutputFile(Seq<char>),
    NoInputFiles,
    InvalidDocFile(Seq<char>),
    UnparsableUrl(Seq<char>),
    UrlWithoutHost(Seq<char>),
    ForeignHost(Seq<char>),
    DuplicateDependency(Seq<char>),
    Unreadable(Seq<char>, Seq<char>),
    Malformed(Seq<char>, Seq<char>),
}

impl View for ConfigError {
    type V = ConfigFault;

    open spec fn view(&self) -> ConfigFault {
        match self {
            ConfigError::MissingInputFile { path } => ConfigFault::MissingInputFile(path@),
            ConfigError::InvalidInputFile { path } => ConfigFault::InvalidInputFile(path@),
            ConfigError::NoOutputFile => ConfigFault::NoOutputFile,
            ConfigError::InvalidOutputFile { path } => ConfigFault::InvalidOutputFile(path@),
            ConfigError::NoInputFiles => ConfigFault::NoInputFiles,
            ConfigError::InvalidDocFile { path } => ConfigFault::InvalidDocFile(path@),
            ConfigError::UnparsableUrl { url } => ConfigFault::UnparsableUrl(url@),
            ConfigError::UrlWithoutHost { url } => ConfigFault::UrlWithoutHost(url@),
            ConfigError::ForeignHost { url } => ConfigFault::ForeignHost(url@),
            ConfigError::DuplicateDependency { name } => ConfigFault::DuplicateDependency(name@),
            ConfigError::Unreadable { path, reason } => ConfigFault::Unreadable(path@, reason@),
            ConfigError::Malformed { path, reason } => ConfigFault::Malformed(path@, reason@),
        }
    }
}

/// The model of the outcome of a check that yields nothing on success.
pub open spec fn outcome(r: Result<(), ConfigError>) -> Option<ConfigFault> {
    match r {
        Ok(_) => None,
        Err(e) => Some(e@),
    }
}

/// The error of `url::Url::parse`, carried through opaque.
#[verifier::external_type_specification]
#[verifier::external_body]
pub struct ExUrlParseError(url::ParseError);

/// What `url::Url::parse` makes of a string: `None` where it refuses it,
/// else the host that `url::Url::host_str` reports for the parsed URL.
pub uninterp spec fn parsed_host(s: Seq<char>) -> Option<Option<Seq<char>>>;

/// Relies on `url::Url::parse` and `url::Url::host_str`: parses `s` as an
/// absolute URL and hands back its host, if it has one.
#[verifier::external_body]
fn url_host(s: &str) -> (r: Result<Option<String>, url::ParseError>)
    ensures
        r is Err <==> parsed_host(s@) is None,
        r matches Ok(h) ==> parsed_host(s@) == Some(opt_view(h)),
{
    match url::Url::parse(s) {
        Ok(u) => Ok(u.host_str().map(|h| h.to_string())),
        Err(e) => Err(e),
    }
}

/// The one host that dependencies may be fetched from.
pub open spec fn permitted_host() -> Seq<char> {
    "github.com"@
}

/// What is wrong with a dependency URL, given what parsing it found:
/// `None` where it could not be parsed, else the host it names, if any.
pub open spec fn url_fault(url: Seq<char>, parsed: Option<Option<Seq<char>>>) -> Option<ConfigFault> {
    match parsed {
        None => Some(ConfigFault::UnparsableUrl(url)),
        Some(None) => Some(ConfigFault::UrlWithoutHost(url)),
        Some(Some(h)) => if h == permitted_host() {
            None
        } else {
            Some(ConfigFault::ForeignHost(url))
        },
    }
}

/// Judges a dependency URL by what parsing it found: `parsed` is `None`
/// where it could not be parsed, else the host the URL names, if any.
pub fn judge_dependency_url(url: &str, parsed: Option<Option<String>>) -> (r: Result<(), ConfigError>)
    ensures
        outcome(r) == url_fault(
            url@,
            match parsed {
                Some(h) => Some(opt_view(h)),
                None => None,
            },
        ),
{
    match parsed {
        None => Err(ConfigError::UnparsableUrl { url: url.to_owned() }),
        Some(None) => Err(ConfigError::UrlWithoutHost { url: url.to_owned() }),
        Some(Some(h)) => {
            if same_text(h.as_str(), "github.com") {
                Ok(())
            } else {
                Err(ConfigError::ForeignHost { url: url.to_owned() })
            }
        },
    }
}

/// Accepts a dependency URL only where it parses as an absolute URL whose
/// host is the permitted hosting service. Nothing is fetched.
pub fn validate_dependency(url: String) -> (r: Result<(), ConfigError>)
    ensures
        outcome(r) == url_fault(url@, parsed_host(url@)),
        r is Ok <==> parsed_host(url@) == Some(Some(permitted_host())),
{
    let parsed = match url_host(url.as_str()) {
        Ok(h) => Some(h),
        Err(_) => None,
    };
    judge_dependency_url(url.as_str(), parsed)
}

/// What is wrong with one input file, given whether it exists.
pub open spec fn infile_fault(f: Seq<char>, present: bool) -> Option<ConfigFault> {
    if !present {
        Some(ConfigFault::MissingInputFile(f))
    } else if path_kind(f) == FileKind::Invalid {
        Some(ConfigFault::InvalidInputFile(f))
    } else {
        None
    }
}

/// The fault of the first faulty input file; `present[i]` tells whether
/// `files[i]` exists.
pub open spec fn first_infile_fault(files: Seq<Seq<char>>, present: Seq<bool>) -> Option<ConfigFault>
    decreases files.len(),
{
    if files.len() == 0 {
        None
    } else {
        match infile_fault(files[0], present[0]) {
            Some(e) => Some(e),
            None => first_infile_fault(files.drop_first(), present.drop_first()),
        }
    }
}

/// The fault of the first dependency whose URL is refused.
pub open spec fn first_url_fault(deps: Seq<(Seq<char>, Seq<char>)>) -> Option<ConfigFault>
    decreases deps.len(),
{
    if deps.len() == 0 {
        None
    } else {
        match url_fault(deps[0].1, parsed_host(deps[0].1)) {
            Some(e) => Some(e),
            None => first_url_fault(deps.drop_first()),
        }
    }
}

/// Whether no two dependencies share a name.
pub open spec fn names_unique(deps: Seq<(Seq<char>, Seq<char>)>) -> bool {
    forall|i: int, j: int| 0 <= i < j < deps.len() ==> deps[i].0 != deps[j].0
}

/// The first name, in declaration order, that an earlier dependency
/// already has.
pub open spec fn duplicate_name(deps: Seq<(Seq<char>, Seq<char>)>) -> Option<Seq<char>>
    decreases deps.len(),
{
    if deps.len() == 0 {
        None
    } else if duplicate_name(deps.drop_last()) is Some {
        duplicate_name(deps.drop_last())
    } else if exists|i: int| 0 <= i < deps.len() - 1 && deps[i].0 == deps.last().0 {
        Some(deps.last().0)
    } else {
        None
    }
}

/// A list of dependencies has no repeated name exactly when no duplicate
/// name is found in it.
pub proof fn lemma_no_duplicate_means_unique(deps: Seq<(Seq<char>, Seq<char>)>)
    ensures
        duplicate_name(deps) is None <==> names_unique(deps),
    decreases deps.len(),
{
    if deps.len() > 0 {
        let init = deps.drop_last();
        lemma_no_duplicate_means_unique(init);
        if names_unique(deps) {
            assert(names_unique(init)) by {
                assert forall|i: int, j: int| 0 <= i < j < init.len() implies init[i].0 != init[j].0 by {
                    assert(init[i] == deps[i] && init[j] == deps[j]);
                }
            }
            assert(!exists|i: int| 0 <= i < deps.len() - 1 && deps[i].0 == deps.last().0);
        }
        if duplicate_name(deps) is None {
            assert forall|i: int, j: int| 0 <= i < j < deps.len() implies deps[i].0 != deps[j].0 by {
                if j < deps.len() - 1 {
                    assert(init[i] == deps[i] && init[j] == deps[j]);
                } else {
                    assert(!(0 <= i < deps.len() - 1 && deps[i].0 == deps.last().0));
                }
            }
        }
    }
}

/// The first rule that a project description breaks, checked in a fixed
/// order: each input file, the output file, the presence of input files,
/// the documentation file, each dependency URL, then the uniqueness of
/// dependency names. `present[i]` tells
/// whether the `i`-th input file exists.
pub open spec fn config_fault(c: ConfigModel, present: Seq<bool>) -> Option<ConfigFault> {
    if first_infile_fault(c.infiles, present) is Some {
        first_infile_fault(c.infiles, present)
    } else if c.outfile.len() == 0 {
        Some(ConfigFault::NoOutputFile)
    } else if path_kind(c.outfile) != FileKind::PrebuiltModule {
        Some(ConfigFault::InvalidOutputFile(c.outfile))
    } else if c.infiles.len() == 0 {
        Some(ConfigFault::NoInputFiles)
    } else if c.docfile is Some && !is_doc_path(c.docfile->0) {
        Some(ConfigFault::InvalidDocFile(c.docfile->0))
    } else {
        match first_url_fault(c.dependencies) {
            Some(e) => Some(e),
            None => match duplicate_name(c.dependencies) {
                Some(n) => Some(ConfigFault::DuplicateDependency(n)),
                None => None,
            },
        }
    }
}

fn check_infiles(files: &Vec<String>, present: &Vec<bool>) -> (r: Result<(), ConfigError>)
    requires
        present.len() == files.len(),
    ensures
        outcome(r) == first_infile_fault(texts(files@), present@),
{
    let n = files.len();
    let mut i: usize = 0;
    proof {
        assert(texts(files@).skip(0) =~= texts(files@));
        assert(present@.skip(0) =~= present@);
    }
    while i < n
        invariant
            n == files.len(),
            present.len() == n,
            i <= n,
            first_infile_fault(texts(files@), present@) == first_infile_fault(
                texts(files@).skip(i as int),
                present@.skip(i as int),
            ),
        decreases n - i,
    {
        proof {
            assert(texts(files@).skip(i as int).drop_first() =~= texts(files@).skip(i + 1));
            assert(present@.skip(i as int).drop_first() =~= present@.skip(i + 1));
        }
        let f = &files[i];
        if !present[i] {
            return Err(ConfigError::MissingInputFile { path: f.clone() });
        }
        if classify(f.as_str()) == FileKind::Invalid {
            return Err(ConfigError::InvalidInputFile { path: f.clone() });
        }
        i += 1;
    }
    proof {
        assert(texts(files@).skip(i as int).len() == 0);
    }
    Ok(())
}

fn check_dependencies(deps: &Vec<Dependency>) -> (r: Result<(), ConfigError>)
    ensures
        outcome(r) == first_url_fault(deps@.map_values(|d: Dependency| d@)),
{
    let ghost model = deps@.map_values(|d: Dependency| d@);
    let n = deps.len();
    let mut i: usize = 0;
    proof {
        assert(model.skip(0) =~= model);
    }
    while i < n
        invariant
            n == deps.len(),
            model == deps@.map_values(|d: Dependency| d@),
            i <= n,
            first_url_fault(model) == first_url_fault(model.skip(i as int)),
        decreases n - i,
    {
        proof {
            assert(model.skip(i as int).drop_first() =~= model.skip(i + 1));
        }
        let checked = validate_dependency(deps[i].url.clone());
        if checked.is_err() {
            return checked;
        }
        i += 1;
    }
    proof {
        assert(model.skip(i as int).len() == 0);
    }
    Ok(())
}

proof fn lemma_duplicate_in_prefix(deps: Seq<(Seq<char>, Seq<char>)>, k: int)
    requires
        0 <= k <= deps.len(),
        duplicate_name(deps.take(k)) is Some,
    ensures
        duplicate_name(deps) == duplicate_name(deps.take(k)),
    decreases deps.len(),
{
    if deps.len() == k {
        assert(deps.take(k) =~= deps);
    } else {
        assert(deps.drop_last().take(k) =~= deps.take(k));
        lemma_duplicate_in_prefix(deps.drop_last(), k);
    }
}

fn check_names(deps: &Vec<Dependency>) -> (r: Result<(), ConfigError>)
    ensures
        outcome(r) == match duplicate_name(deps@.map_values(|d: Dependency| d@)) {
            Some(n) => Some(ConfigFault::DuplicateDependency(n)),
            None => None,
        },
{
    let ghost model = deps@.map_values(|d: Dependency| d@);
    let n = deps.len();
    let mut j: usize = 0;
    proof {
        assert(model.take(0) =~= Seq::<(Seq<char>, Seq<char>)>::empty());
    }
    while j < n
        invariant
            n == deps.len(),
            model == deps@.map_values(|d: Dependency| d@),
            j <= n,
            duplicate_name(model.take(j as int)) is None,
        decreases n - j,
    {
        let ghost prefix = model.take(j + 1);
        proof {
            assert(prefix.drop_last() =~= model.take(j as int));
        }
        let mut i: usize = 0;
        while i < j
            invariant
                n == deps.len(),
                model == deps@.map_values(|d: Dependency| d@),
                i <= j < n,
                prefix == model.take(j + 1),
                duplicate_name(prefix.drop_last()) is None,
                forall|k: int| 0 <= k < i ==> prefix[k].0 != prefix.last().0,
            decreases j - i,
        {
            if same_text(deps[i].name.as_str(), deps[j].name.as_str()) {
                proof {
                    assert(prefix[i as int].0 == prefix.last().0);
                    assert(0 <= i < prefix.len() - 1);
                    assert(duplicate_name(prefix) == Some(prefix.last().0));
                    lemma_duplicate_in_prefix(model, j + 1);
                }
                return Err(ConfigError::DuplicateDependency { name: deps[j].name.clone() });
            }
            i += 1;
        }
        j += 1;
    }
    proof {
        assert(model.take(n as int) =~= model);
    }
    Ok(())
}

/// Checks a project description against every rule, in a fixed order, and
/// reports the first rule broken. `present[i]` tells whether the `i`-th
/// input file exists.
pub fn validate_config(cfg: &Config, present: &Vec<bool>) -> (r: Result<(), ConfigError>)
    requires
        present.len() == cfg.build.infiles.len(),
    ensures
        outcome(r) == config_fault(cfg@, present@),
        r is Ok ==> names_unique(cfg@.dependencies),
{
    proof {
        lemma_no_duplicate_means_unique(cfg@.dependencies);
    }
    let files = check_infiles(&cfg.build.infiles, present);
    if files.is_err() {
        return files;
    }
    if cfg.build.outfile.as_str().is_empty() {
        return Err(ConfigError::NoOutputFile);
    }
    if classify(cfg.build.outfile.as_str()) != FileKind::PrebuiltModule {
        return Err(ConfigError::InvalidOutputFile { path: cfg.build.outfile.clone() });
    }
    if cfg.build.infiles.len() == 0 {
        return Err(ConfigError::NoInputFiles);
    }
    match &cfg.build.docfile {
        Some(d) => {
            if !is_doc_file(d.as_str()) {
                return Err(ConfigError::InvalidDocFile { path: d.clone() });
            }
        },
        None => {},
    }
    let urls = check_dependencies(&cfg.dependencies);
    if urls.is_err() {
        return urls;
    }
    check_names(&cfg.dependencies)
}

/// The model of a description assembled from its parts, with no package.
pub open spec fn assembled(
    ins: Seq<String>,
    out: String,
    dfile: Option<String>,
    deps: Seq<Dependency>,
) -> ConfigModel {
    ConfigModel {
        infiles: texts(ins),
        outfile: out@,
        docfile: opt_view(dfile),
        dependencies: deps.map_values(|d: Dependency| d@),
        package: None,
    }
}

/// Assembles a project description from its parts and validates it.
/// `present[i]` tells whether `ins[i]` exists.
pub fn create_config(
    ins: Vec<String>,
    out: String,
    dfile: Option<String>,
    deps: Vec<Dependency>,
    present: &Vec<bool>,
) -> (r: Result<Config, ConfigError>)
    requires
        present.len() == ins.len(),
    ensures
        match r {
            Ok(c) => c@ == assembled(ins@, out, dfile, deps@) && config_fault(c@, present@) is None,
            Err(e) => config_fault(assembled(ins@, out, dfile, deps@), present@) == Some(e@),
        },
{
    let cfg = Config {
        build: Build { infiles: ins, outfile: out, docfile: dfile },
        dependencies: deps,
        package: None,
    };
    match validate_config(&cfg, present) {
        Ok(()) => Ok(cfg),
        Err(e) => Err(e),
    }
}

/// The output file of a project named by a single input file, where none
/// is given.
pub open spec fn default_outfile() -> Seq<char> {
    "./a.wasm"@
}

/// The project made of the single input file `p`, with the output file
/// given or the default one.
pub open spec fn single_file_project(
    p: Seq<char>,
    output: Option<Seq<char>>,
    docs: Option<Seq<char>>,
) -> ConfigModel {
    ConfigModel {
        infiles: seq![p],
        outfile: match output {
            Some(o) => o,
            None => default_outfile(),
        },
        docfile: docs,
        dependencies: Seq::empty(),
        package: None,
    }
}

/// A loaded description with each override that is given in place of its
/// field.
pub open spec fn with_overrides(
    loaded: ConfigModel,
    output: Option<Seq<char>>,
    docs: Option<Seq<char>>,
) -> ConfigModel {
    ConfigModel {
        outfile: match output {
            Some(o) => o,
            None => loaded.outfile,
        },
        docfile: match docs {
            Some(d) => Some(d),
            None => loaded.docfile,
        },
        ..loaded
    }
}

/// The description a command line selects, before validation: a project
/// made of its single input file, or the loaded description with the
/// overrides given.
pub open spec fn selected(
    source: Source,
    output: Option<Seq<char>>,
    docs: Option<Seq<char>>,
    loaded: Option<Config>,
) -> ConfigModel {
    match source.input_path {
        Some(p) => single_file_project(p@, output, docs),
        None => with_overrides(loaded->0@, output, docs),
    }
}

/// Selects the project description of a command line, without validating
/// it: the loaded description file with the overrides given, or a project
/// made of one input file.
pub fn select_config(
    source: Source,
    output: Option<String>,
    docs: Option<String>,
    loaded: Option<Config>,
) -> (r: Config)
    requires
        is_selection(source),
        source.config_file is Some ==> loaded is Some,
    ensures
        source.input_path matches Some(p) ==> r@ == single_file_project(
            p@,
            opt_view(output),
            opt_view(docs),
        ),
        source.config_file is Some ==> r@ == with_overrides(
            loaded->0@,
            opt_view(output),
            opt_view(docs),
        ),
{
    match source.input_path {
        Some(p) => {
            let out = match output {
                Some(o) => o,
                None => "./a.wasm".to_owned(),
            };
            let cfg = Config {
                build: Build { infiles: vec![p], outfile: out, docfile: docs },
                dependencies: Vec::new(),
                package: None,
            };
            proof {
                assert(cfg@.infiles =~= seq![source.input_path->0@]);
                assert(cfg@.dependencies =~= Seq::empty());
            }
            cfg
        },
        None => {
            let mut cfg = loaded.unwrap();
            match output {
                Some(o) => {
                    cfg.build.outfile = o;
                },
                None => {},
            }
            match docs {
                Some(d) => {
                    cfg.build.docfile = Some(d);
                },
                None => {},
            }
            cfg
        },
    }
}

/// The input files of the description a command line selects, so that
/// their existence can be looked up before it is resolved.
pub fn selected_infiles(source: &Source, loaded: &Option<Config>) -> (r: Vec<String>)
    requires
        is_selection(*source),
        source.config_file is Some ==> loaded is Some,
    ensures
        texts(r@) == selected(*source, None, None, *loaded).infiles,
{
    match &source.input_path {
        Some(p) => {
            let r = vec![p.clone()];
            proof {
                assert(texts(r@) =~= seq![p@]);
            }
            r
        },
        None => {
            let files = &loaded.as_ref().unwrap().build.infiles;
            let mut r: Vec<String> = Vec::new();
            let n = files.len();
            let mut i: usize = 0;
            while i < n
                invariant
                    n == files.len(),
                    i <= n,
                    r.len() == i,
                    texts(r@) == texts(files@).take(i as int),
                decreases n - i,
            {
                r.push(files[i].clone());
                proof {
                    assert(texts(r@) =~= texts(files@).take(i + 1));
                }
                i += 1;
            }
            proof {
                assert(texts(files@).take(n as int) =~= texts(files@));
            }
            r
        },
    }
}

/// Resolves the project description of a command line and validates it:
/// the loaded description file with the overrides given, or a project made
/// of one input file. `present[i]` tells whether the `i`-th input file of
/// the selected description exists (see [`selected_infiles`]).
pub fn resolve_config(
    source: Source,
    output: Option<String>,
    docs: Option<String>,
    loaded: Option<Config>,
    present: &Vec<bool>,
) -> (r: Result<Config, ConfigError>)
    requires
        is_selection(source),
        source.config_file is Some ==> loaded is Some,
        present.len() == selected(source, None, None, loaded).infiles.len(),
    ensures
        match r {
            Ok(c) => c@ == selected(source, opt_view(output), opt_view(docs), loaded)
                && config_fault(c@, present@) is None,
            Err(e) => config_fault(
                selected(source, opt_view(output), opt_view(docs), loaded),
                present@,
            ) == Some(e@),
        },
{
    let cfg = select_config(source, output, docs, loaded);
    match validate_config(&cfg, present) {
        Ok(()) => Ok(cfg),
        Err(e) => Err(e),
    }
}

} // verus!
