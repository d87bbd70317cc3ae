//! The build pipeline: which inputs are compiled, the compilation unit they
//! form, and the session that checks, compiles and persists a project.

use vstd::prelude::*;

use crate::config::{texts, ConfigError, ConfigFault};
use crate::paths::{classify, path_kind, FileKind};

verus! {

/// The compilation unit of a list of source texts: each text, in order,
/// preceded by one line break.
pub open spec fn unit_of(sources: Seq<Seq<char>>) -> Seq<char>
    decreases sources.len(),
{
    if sources.len() == 0 {
        Seq::empty()
    } else {
        unit_of(sources.drop_last()) + seq!['\n'] + sources.last()
    }
}

/// Joining two lists of sources gives the join of the first followed by the
/// join of the second: the order of the sources is kept, and each is preceded
/// by exactly one line break however many there are.
pub proof fn lemma_unit_concat(a: Seq<Seq<char>>, b: Seq<Seq<char>>)
    ensures
        unit_of(a + b) == unit_of(a) + unit_of(b),
    decreases b.len(),
{
    if b.len() == 0 {
        assert(a + b =~= a);
        assert(unit_of(a) + unit_of(b) =~= unit_of(a));
    } else {
        lemma_unit_concat(a, b.drop_last());
        assert((a + b).drop_last() =~= a + b.drop_last());
        assert(unit_of(a + b) =~= unit_of(a) + unit_of(b));
    }
}

/// A single source joins to one line break followed by its text.
pub proof fn lemma_unit_single(s: Seq<char>)
    ensures
        unit_of(seq![s]) == seq!['\n'] + s,
{
    let one = seq![s];
    assert(one.drop_last() =~= Seq::<Seq<char>>::empty());
    assert(one.last() == s);
    assert(unit_of(one.drop_last()) + seq!['\n'] + s =~= seq!['\n'] + s);
}

/// Where the line break before the `i`-th source stands in the unit.
pub open spec fn unit_offset(sources: Seq<Seq<char>>, i: int) -> int {
    unit_of(sources.take(i)).len() as int
}

/// In the unit of `sources`, the `i`-th source follows a single line break
/// that comes right after the sources before it, and the next source's line
/// break comes right after it.
pub proof fn lemma_unit_layout(sources: Seq<Seq<char>>, i: int)
    requires
        0 <= i < sources.len(),
    ensures
        unit_of(sources)[unit_offset(sources, i)] == '\n',
        unit_of(sources).subrange(
            unit_offset(sources, i) + 1,
            unit_offset(sources, i) + 1 + sources[i].len(),
        ) == sources[i],
        unit_offset(sources, i + 1) == unit_offset(sources, i) + 1 + sources[i].len(),
{
    let head = sources.take(i + 1);
    let tail = sources.skip(i + 1);
    assert(head + tail =~= sources);
    lemma_unit_concat(head, tail);
    assert(head.drop_last() =~= sources.take(i));
    assert(head.last() == sources[i]);
    let k = unit_offset(sources, i);
    assert(unit_of(head) == unit_of(sources.take(i)) + seq!['\n'] + sources[i]);
    assert(unit_of(sources)[k] == unit_of(head)[k]);
    assert(unit_of(sources).subrange(k + 1, k + 1 + sources[i].len()) =~= sources[i]);
}

/// Appends `unit_of(sources)` to `out`.
fn append_sources(out: &mut String, sources: &Vec<String>)
    ensures
        final(out)@ == old(out)@ + unit_of(texts(sources@)),
{
    let n = sources.len();
    let mut i: usize = 0;
    while i < n
        invariant
            n == sources.len(),
            i <= n,
            out@ == old(out)@ + unit_of(texts(sources@).take(i as int)),
        decreases n - i,
    {
        proof {
            reveal_strlit("\n");
            assert(texts(sources@).take(i + 1).drop_last() =~= texts(sources@).take(i as int));
            assert(texts(sources@).take(i + 1).last() == sources@[i as int]@);
        }
        out.append("\n");
        out.append(sources[i].as_str());
        i += 1;
    }
    proof {
        assert(texts(sources@).take(n as int) =~= texts(sources@));
    }
}

/// Joins source texts into one: each, in order, preceded by one line break.
pub fn join_sources(sources: &Vec<String>) -> (r: String)
    ensures
        r@ == unit_of(texts(sources@)),
{
    let mut r = String::new();
    append_sources(&mut r, sources);
    r
}

/// Texts joined with nothing between them.
pub open spec fn concat_all(parts: Seq<Seq<char>>) -> Seq<char>
    decreases parts.len(),
{
    if parts.len() == 0 {
        Seq::empty()
    } else {
        concat_all(parts.drop_last()) + parts.last()
    }
}

/// The compilation unit of a project: the dependencies' source texts, each
/// already the join of its package's files, in declared order, then the
/// project's own sources, each preceded by one line break.
pub open spec fn project_unit(dep_sources: Seq<Seq<char>>, sources: Seq<Seq<char>>) -> Seq<char> {
    concat_all(dep_sources) + unit_of(sources)
}

/// Where each dependency's source text is the join of its files, the
/// project's unit is the join of all dependency files, then its own.
pub proof fn lemma_project_unit_joins_all(files: Seq<Seq<Seq<char>>>, sources: Seq<Seq<char>>)
    ensures
        project_unit(files.map_values(|f: Seq<Seq<char>>| unit_of(f)), sources) == unit_of(
            files.flatten() + sources,
        ),
    decreases files.len(),
{
    let deps = files.map_values(|f: Seq<Seq<char>>| unit_of(f));
    if files.len() == 0 {
        assert(files.flatten() =~= Seq::<Seq<char>>::empty());
        assert(files.flatten() + sources =~= sources);
        assert(project_unit(deps, sources) =~= unit_of(sources));
    } else {
        let init = files.drop_last();
        lemma_project_unit_joins_all(init, Seq::empty());
        assert(deps.drop_last() =~= init.map_values(|f: Seq<Seq<char>>| unit_of(f)));
        assert(files.flatten() =~= init.flatten() + files.last()) by {
            files.lemma_flatten_and_flatten_alt_are_equivalent();
            init.lemma_flatten_and_flatten_alt_are_equivalent();
        }
        assert(init.flatten() + Seq::<Seq<char>>::empty() =~= init.flatten());
        lemma_unit_concat(init.flatten(), files.last());
        lemma_unit_concat(files.flatten(), sources);
        assert(project_unit(deps, sources) =~= unit_of(files.flatten() + sources));
    }
}

/// The compilation unit of a project: the dependencies' source texts in
/// order, then the project's own sources, each preceded by one line break.
pub fn compilation_unit(dep_sources: &Vec<String>, sources: &Vec<String>) -> (r: String)
    ensures
        r@ == project_unit(texts(dep_sources@), texts(sources@)),
{
    let mut r = String::new();
    let n = dep_sources.len();
    let mut i: usize = 0;
    while i < n
        invariant
            n == dep_sources.len(),
            i <= n,
            r@ == concat_all(texts(dep_sources@).take(i as int)),
        decreases n - i,
    {
        proof {
            assert(texts(dep_sources@).take(i + 1).drop_last() =~= texts(dep_sources@).take(i as int));
        }
        r.append(dep_sources[i].as_str());
        i += 1;
    }
    proof {
        assert(texts(dep_sources@).take(n as int) =~= texts(dep_sources@));
    }
    append_sources(&mut r, sources);
    r
}

/// Why a build failed.
#[derive(Debug)]
pub enum BuildError {
    /// The project description breaks a rule.
    Config(ConfigError),
    /// An input file that is neither Halcyon source nor a WebAssembly module.
    InvalidInput { path: String },
    /// An input file that could not be read.
    Unreadable { path: String, reason: String },
    /// A source file that does not compile on its own.
    Check { file: String, diagnostics: String },
    /// The compilation unit does not compile.
    Compile { diagnostics: String },
    /// The module could not be written to the output file.
    Write { path: String, reason: String },
    /// Prebuilt modules and sources were to be written as one output file,
    /// which would take linking them; that is not supported yet.
    LinkUnsupported,
    /// A session was handed an event it did not ask for.
    OutOfOrder,
}

/// The model of a [`BuildError`].
pub enum BuildFault {
    Config(ConfigFault),
    InvalidInput(Seq<char>),
    Unreadable(Seq<char>, Seq<char>),
    Check(Seq<char>, Seq<char>),
    Compile(Seq<char>),
    Write(Seq<char>, Seq<char>),
    LinkUnsupported,
    OutOfOrder,
}

impl View for BuildError {
    type V = BuildFault;

    open spec fn view(&self) -> BuildFault {
        match self {
            BuildError::Config(e) => BuildFault::Config(e@),
            BuildError::InvalidInput { path } => BuildFault::InvalidInput(path@),
            BuildError::Unreadable { path, reason } => BuildFault::Unreadable(path@, reason@),
            BuildError::Check { file, diagnostics } => BuildFault::Check(file@, diagnostics@),
            BuildError::Compile { diagnostics } => BuildFault::Compile(diagnostics@),
            BuildError::Write { path, reason } => BuildFault::Write(path@, reason@),
            BuildError::LinkUnsupported => BuildFault::LinkUnsupported,
            BuildError::OutOfOrder => BuildFault::OutOfOrder,
        }
    }
}

/// The source files among `files`, in their order.
pub open spec fn sources_in(files: Seq<Seq<char>>) -> Seq<Seq<char>> {
    files.filter(|p: Seq<char>| path_kind(p) == FileKind::SourceFile)
}

/// The prebuilt modules among `files`, in their order.
pub open spec fn modules_in(files: Seq<Seq<char>>) -> Seq<Seq<char>> {
    files.filter(|p: Seq<char>| path_kind(p) == FileKind::PrebuiltModule)
}

/// The first of `files` that is neither source nor module.
pub open spec fn first_invalid(files: Seq<Seq<char>>) -> Option<Seq<char>>
    decreases files.len(),
{
    if files.len() == 0 {
        None
    } else if path_kind(files[0]) == FileKind::Invalid {
        Some(files[0])
    } else {
        first_invalid(files.drop_first())
    }
}

/// The input files of a build, split by kind, each list in declared order.
pub struct InputPlan {
    pub sources: Vec<String>,
    pub modules: Vec<String>,
}

/// Splits the input files into source files and prebuilt modules, keeping
/// their order; the first file of neither kind is an error.
pub fn plan_inputs(infiles: &Vec<String>) -> (r: Result<InputPlan, BuildError>)
    ensures
        match r {
            Ok(plan) => {
                &&& first_invalid(texts(infiles@)) is None
                &&& texts(plan.sources@) == sources_in(texts(infiles@))
                &&& texts(plan.modules@) == modules_in(texts(infiles@))
            },
            Err(e) => first_invalid(texts(infiles@)) matches Some(p) && e@ == BuildFault::InvalidInput(p),
        },
{
    let ghost all = texts(infiles@);
    let mut sources: Vec<String> = Vec::new();
    let mut modules: Vec<String> = Vec::new();
    let n = infiles.len();
    let mut i: usize = 0;
    proof {
        assert(all.skip(0) =~= all);
        assert(all.take(0) =~= Seq::<Seq<char>>::empty());
        reveal(Seq::filter);
    }
    while i < n
        invariant
            n == infiles.len(),
            all == texts(infiles@),
            i <= n,
            first_invalid(all) == first_invalid(all.skip(i as int)),
            texts(sources@) == sources_in(all.take(i as int)),
            texts(modules@) == modules_in(all.take(i as int)),
        decreases n - i,
    {
        proof {
            assert(all.skip(i as int).drop_first() =~= all.skip(i + 1));
            assert(all.take(i + 1).drop_last() =~= all.take(i as int));
            reveal(Seq::filter);
        }
        let f = &infiles[i];
        let kind = classify(f.as_str());
        if kind == FileKind::Invalid {
            return Err(BuildError::InvalidInput { path: f.clone() });
        }
        if kind == FileKind::SourceFile {
            sources.push(f.clone());
        } else {
            modules.push(f.clone());
        }
        proof {
            assert(texts(sources@) =~= sources_in(all.take(i + 1)));
            assert(texts(modules@) =~= modules_in(all.take(i + 1)));
        }
        i += 1;
    }
    proof {
        assert(all.take(n as int) =~= all);
        assert(all.skip(n as int).len() == 0);
    }
    Ok(InputPlan { sources, modules })
}

/// Where a build session stands.
#[derive(PartialEq, Eq, Structural, Clone, Copy, Debug)]
pub enum Stage {
    /// Compiling each source file alone.
    Checking,
    /// Compiling the whole compilation unit.
    Compiling,
    /// Writing the module to the output file.
    Persisting,
    /// Finished with the modules handed out.
    Done,
    /// Stopped at the first failure.
    Failed,
}

/// What the driver reports back to a build session.
pub enum BuildEvent {
    /// The compiler's answer: a module, or its diagnostics.
    Compiled(Result<Vec<u8>, String>),
    /// Whether the output file was written, and why not.
    Written(Result<(), String>),
}

/// What a build session asks the driver to do next.
pub enum BuildAction {
    /// Compile one source file on its own.
    CompileFile { file: String, source: String },
    /// Compile the whole compilation unit.
    CompileUnit { source: String },
    /// Write the module to the output file, replacing what is there.
    WriteOutput { path: String, bytes: Vec<u8> },
    /// The build is complete: one module per prebuilt input, then the module
    /// compiled from source, if any. `no_output` says that an output file was
    /// asked for while there was no source to build it from.
    Finish { binaries: Vec<Vec<u8>>, no_output: bool },
    /// The build failed.
    Fail(BuildError),
}

/// The model of a [`BuildEvent`].
pub enum EventModel {
    Compiled(Result<Seq<u8>, Seq<char>>),
    Written(Result<(), Seq<char>>),
}

/// The model of a [`BuildAction`].
pub enum ActionModel {
    CompileFile(Seq<char>, Seq<char>),
    CompileUnit(Seq<char>),
    WriteOutput(Seq<char>, Seq<u8>),
    Finish(Seq<Seq<u8>>, bool),
    Fail(BuildFault),
}

/// The contents of a list of modules.
pub open spec fn bins(v: Seq<Vec<u8>>) -> Seq<Seq<u8>> {
    v.map_values(|b: Vec<u8>| b@)
}

impl View for BuildEvent {
    type V = EventModel;

    open spec fn view(&self) -> EventModel {
        match self {
            BuildEvent::Compiled(Ok(b)) => EventModel::Compiled(Ok(b@)),
            BuildEvent::Compiled(Err(d)) => EventModel::Compiled(Err(d@)),
            BuildEvent::Written(Ok(())) => EventModel::Written(Ok(())),
            BuildEvent::Written(Err(r)) => EventModel::Written(Err(r@)),
        }
    }
}

impl View for BuildAction {
    type V = ActionModel;

    open spec fn view(&self) -> ActionModel {
        match self {
            BuildAction::CompileFile { file, source } => ActionModel::CompileFile(file@, source@),
            BuildAction::CompileUnit { source } => ActionModel::CompileUnit(source@),
            BuildAction::WriteOutput { path, bytes } => ActionModel::WriteOutput(path@, bytes@),
            BuildAction::Finish { binaries, no_output } => ActionModel::Finish(
                bins(binaries@),
                *no_output,
            ),
            BuildAction::Fail(e) => ActionModel::Fail(e@),
        }
    }
}

/// The model of a build session.
pub struct SessionModel {
    /// Paths of the source files, in declared order.
    pub files: Seq<Seq<char>>,
    /// Their texts.
    pub sources: Seq<Seq<char>>,
    /// The dependencies' source texts, in order.
    pub dep_sources: Seq<Seq<char>>,
    /// Where the module is written, when it is.
    pub outfile: Option<Seq<char>>,
    pub stage: Stage,
    /// The next source file to check.
    pub next: nat,
    /// Modules gathered so far.
    pub binaries: Seq<Seq<u8>>,
    /// The module being written.
    pub pending: Seq<u8>,
}

/// The invariant of a build session.
pub open spec fn session_wf(m: SessionModel) -> bool {
    &&& m.files.len() == m.sources.len()
    &&& m.stage == Stage::Checking ==> m.next < m.files.len()
    &&& m.stage == Stage::Persisting ==> m.outfile is Some
}

/// The session that starts a build, and its first request. Without source
/// files there is nothing to compile, and the prebuilt modules are the result.
/// Prebuilt modules and sources cannot be written as one output file: that
/// would take linking them, so such a build fails at once.
pub open spec fn start_model(
    files: Seq<Seq<char>>,
    sources: Seq<Seq<char>>,
    modules: Seq<Seq<u8>>,
    dep_sources: Seq<Seq<char>>,
    outfile: Option<Seq<char>>,
) -> (SessionModel, ActionModel) {
    let m = SessionModel {
        files,
        sources,
        dep_sources,
        outfile,
        stage: Stage::Checking,
        next: 0,
        binaries: modules,
        pending: Seq::empty(),
    };
    if files.len() > 0 && modules.len() > 0 && outfile is Some {
        (
            SessionModel { stage: Stage::Failed, ..m },
            ActionModel::Fail(BuildFault::LinkUnsupported),
        )
    } else if files.len() > 0 {
        (m, ActionModel::CompileFile(files[0], sources[0]))
    } else {
        (
            SessionModel { stage: Stage::Done, binaries: Seq::empty(), ..m },
            ActionModel::Finish(modules, outfile is Some),
        )
    }
}

/// A session handed an event it did not ask for stops.
pub open spec fn out_of_order(m: SessionModel) -> (SessionModel, ActionModel) {
    (SessionModel { stage: Stage::Failed, ..m }, ActionModel::Fail(BuildFault::OutOfOrder))
}

/// How a build session answers an event: its next state and request.
pub open spec fn step_model(m: SessionModel, e: EventModel) -> (SessionModel, ActionModel) {
    match m.stage {
        Stage::Checking => match e {
            EventModel::Compiled(Err(d)) => (
                SessionModel { stage: Stage::Failed, ..m },
                ActionModel::Fail(BuildFault::Check(m.files[m.next as int], d)),
            ),
            EventModel::Compiled(Ok(_)) => if m.next + 1 < m.files.len() {
                (
                    SessionModel { next: m.next + 1, ..m },
                    ActionModel::CompileFile(
                        m.files[m.next + 1int],
                        m.sources[m.next + 1int],
                    ),
                )
            } else {
                (
                    SessionModel { stage: Stage::Compiling, ..m },
                    ActionModel::CompileUnit(project_unit(m.dep_sources, m.sources)),
                )
            },
            EventModel::Written(_) => out_of_order(m),
        },
        Stage::Compiling => match e {
            EventModel::Compiled(Err(d)) => (
                SessionModel { stage: Stage::Failed, ..m },
                ActionModel::Fail(BuildFault::Compile(d)),
            ),
            EventModel::Compiled(Ok(b)) => match m.outfile {
                Some(p) => (
                    SessionModel { stage: Stage::Persisting, pending: b, ..m },
                    ActionModel::WriteOutput(p, b),
                ),
                None => (
                    SessionModel { stage: Stage::Done, binaries: Seq::empty(), ..m },
                    ActionModel::Finish(m.binaries.push(b), false),
                ),
            },
            EventModel::Written(_) => out_of_order(m),
        },
        Stage::Persisting => match e {
            EventModel::Written(Err(r)) => (
                SessionModel { stage: Stage::Failed, ..m },
                ActionModel::Fail(BuildFault::Write(m.outfile->0, r)),
            ),
            EventModel::Written(Ok(_)) => (
                SessionModel {
                    stage: Stage::Done,
                    binaries: Seq::empty(),
                    pending: Seq::empty(),
                    ..m
                },
                ActionModel::Finish(m.binaries.push(m.pending), false),
            ),
            EventModel::Compiled(_) => out_of_order(m),
        },
        _ => out_of_order(m),
    }
}

/// One build of a project, driven by events: first each source file is
/// compiled alone, stopping at the first that fails; then the compilation
/// unit (the dependencies' sources, then the project's own) is compiled once;
/// then, if asked, the module is written to the output file.
pub struct BuildSession {
    files: Vec<String>,
    sources: Vec<String>,
    dep_sources: Vec<String>,
    outfile: Option<String>,
    stage: Stage,
    next: usize,
    binaries: Vec<Vec<u8>>,
    pending: Vec<u8>,
}

impl View for BuildSession {
    type V = SessionModel;

    closed spec fn view(&self) -> SessionModel {
        SessionModel {
            files: texts(self.files@),
            sources: texts(self.sources@),
            dep_sources: texts(self.dep_sources@),
            outfile: crate::text::opt_view(self.outfile),
            stage: self.stage,
            next: self.next as nat,
            binaries: bins(self.binaries@),
            pending: self.pending@,
        }
    }
}

impl BuildSession {
    /// Whether the session is in a consistent state.
    pub open spec fn wf(&self) -> bool {
        session_wf(self@)
    }

    /// Starts a build of the source files `files`, whose texts are
    /// `sources`, with the prebuilt `modules`, the dependencies' source texts
    /// `dep_sources`, and the output file, if the module is to be written.
    pub fn start(
        files: Vec<String>,
        sources: Vec<String>,
        modules: Vec<Vec<u8>>,
        dep_sources: Vec<String>,
        outfile: Option<String>,
    ) -> (r: (BuildSession, BuildAction))
        requires
            files.len() == sources.len(),
        ensures
            r.0.wf(),
            (r.0@, r.1@) == start_model(
                texts(files@),
                texts(sources@),
                bins(modules@),
                texts(dep_sources@),
                crate::text::opt_view(outfile),
            ),
    {
        let ghost mods = bins(modules@);
        let ghost out = crate::text::opt_view(outfile);
        let no_output = outfile.is_some();
        if files.len() > 0 && modules.len() > 0 && no_output {
            let session = BuildSession {
                files,
                sources,
                dep_sources,
                outfile,
                stage: Stage::Failed,
                next: 0,
                binaries: modules,
                pending: Vec::new(),
            };
            return (session, BuildAction::Fail(BuildError::LinkUnsupported));
        }
        if files.len() > 0 {
            let file = files[0].clone();
            let source = sources[0].clone();
            let session = BuildSession {
                files,
                sources,
                dep_sources,
                outfile,
                stage: Stage::Checking,
                next: 0,
                binaries: modules,
                pending: Vec::new(),
            };
            (session, BuildAction::CompileFile { file, source })
        } else {
            let session = BuildSession {
                files,
                sources,
                dep_sources,
                outfile,
                stage: Stage::Done,
                next: 0,
                binaries: Vec::new(),
                pending: Vec::new(),
            };
            proof {
                assert(bins(session.binaries@) =~= Seq::<Seq<u8>>::empty());
            }
            (session, BuildAction::Finish { binaries: modules, no_output })
        }
    }

    fn fail(&mut self, e: BuildError) -> (a: BuildAction)
        ensures
            final(self)@ == (SessionModel { stage: Stage::Failed, ..old(self)@ }),
            a@ == ActionModel::Fail(e@),
    {
        self.stage = Stage::Failed;
        BuildAction::Fail(e)
    }

    fn finish(&mut self, b: Vec<u8>) -> (a: BuildAction)
        ensures
            final(self)@ == (SessionModel { stage: Stage::Done, binaries: Seq::empty(), ..old(self)@ }),
            a@ == ActionModel::Finish(old(self)@.binaries.push(b@), false),
    {
        let mut out: Vec<Vec<u8>> = Vec::new();
        std::mem::swap(&mut out, &mut self.binaries);
        out.push(b);
        self.stage = Stage::Done;
        proof {
            assert(bins(out@) =~= old(self)@.binaries.push(b@));
            assert(bins(self.binaries@) =~= Seq::<Seq<u8>>::empty());
        }
        BuildAction::Finish { binaries: out, no_output: false }
    }

    fn on_checked(&mut self, e: BuildEvent) -> (a: BuildAction)
        requires
            old(self).wf(),
            old(self).stage == Stage::Checking,
        ensures
            final(self).wf(),
            (final(self)@, a@) == step_model(old(self)@, e@),
    {
        match e {
            BuildEvent::Compiled(Err(d)) => {
                let file = self.files[self.next].clone();
                self.fail(BuildError::Check { file, diagnostics: d })
            },
            BuildEvent::Compiled(Ok(_)) => {
                if self.next < self.files.len() - 1 {
                    self.next = self.next + 1;
                    let file = self.files[self.next].clone();
                    let source = self.sources[self.next].clone();
                    BuildAction::CompileFile { file, source }
                } else {
                    self.stage = Stage::Compiling;
                    let source = compilation_unit(&self.dep_sources, &self.sources);
                    BuildAction::CompileUnit { source }
                }
            },
            BuildEvent::Written(_) => self.fail(BuildError::OutOfOrder),
        }
    }

    fn on_compiled(&mut self, e: BuildEvent) -> (a: BuildAction)
        requires
            old(self).wf(),
            old(self).stage == Stage::Compiling,
        ensures
            final(self).wf(),
            (final(self)@, a@) == step_model(old(self)@, e@),
    {
        match e {
            BuildEvent::Compiled(Err(d)) => self.fail(BuildError::Compile { diagnostics: d }),
            BuildEvent::Compiled(Ok(b)) => {
                match &self.outfile {
                    Some(p) => {
                        let path = p.clone();
                        let bytes = b.clone();
                        proof {
                            assert(bytes@ =~= b@);
                        }
                        self.pending = b;
                        self.stage = Stage::Persisting;
                        BuildAction::WriteOutput { path, bytes }
                    },
                    None => self.finish(b),
                }
            },
            BuildEvent::Written(_) => self.fail(BuildError::OutOfOrder),
        }
    }

    fn on_written(&mut self, e: BuildEvent) -> (a: BuildAction)
        requires
            old(self).wf(),
            old(self).stage == Stage::Persisting,
        ensures
            final(self).wf(),
            (final(self)@, a@) == step_model(old(self)@, e@),
    {
        match e {
            BuildEvent::Written(Err(r)) => {
                let path = match &self.outfile {
                    Some(p) => p.clone(),
                    None => String::new(),
                };
                self.fail(BuildError::Write { path, reason: r })
            },
            BuildEvent::Written(Ok(())) => {
                let mut b: Vec<u8> = Vec::new();
                std::mem::swap(&mut b, &mut self.pending);
                self.finish(b)
            },
            BuildEvent::Compiled(_) => self.fail(BuildError::OutOfOrder),
        }
    }

    /// Answers an event and says what to do next.
    pub fn step(&mut self, e: BuildEvent) -> (a: BuildAction)
        requires
            old(self).wf(),
        ensures
            final(self).wf(),
            (final(self)@, a@) == step_model(old(self)@, e@),
    {
        match self.stage {
            Stage::Checking => self.on_checked(e),
            Stage::Compiling => self.on_compiled(e),
            Stage::Persisting => self.on_written(e),
            _ => self.fail(BuildError::OutOfOrder),
        }
    }
}

/// What a build writes to its output file is exactly the module it hands
/// back: once the unit compiles to `b` with an output file set, the session
/// asks for `b` to be written there, and when that succeeds it finishes with
/// `b` as its last module.
pub proof fn lemma_written_module_is_returned(m: SessionModel, b: Seq<u8>)
    requires
        session_wf(m),
        m.stage == Stage::Compiling,
        m.outfile is Some,
    ensures
        ({
            let (m1, a1) = step_model(m, EventModel::Compiled(Ok(b)));
            let (m2, a2) = step_model(m1, EventModel::Written(Ok(())));
            &&& a1 == ActionModel::WriteOutput(m.outfile->0, b)
            &&& a2 matches ActionModel::Finish(out, _) && out.len() > 0 && out.last() == b
            &&& m2.stage == Stage::Done
        }),
{
}

/// The session and request after the first `k` source files, `k >= 1`,
/// each compiled alone without error.
pub open spec fn after_checks(m: SessionModel, k: nat) -> (SessionModel, ActionModel)
    decreases k,
{
    if k <= 1 {
        step_model(m, EventModel::Compiled(Ok(Seq::empty())))
    } else {
        step_model(after_checks(m, (k - 1) as nat).0, EventModel::Compiled(Ok(Seq::empty())))
    }
}

proof fn lemma_checks_advance(m: SessionModel, k: nat)
    requires
        session_wf(m),
        m.stage == Stage::Checking,
        m.next == 0,
        1 <= k < m.files.len(),
    ensures
        after_checks(m, k) == (
            SessionModel { next: k, ..m },
            ActionModel::CompileFile(m.files[k as int], m.sources[k as int]),
        ),
    decreases k,
{
    if k > 1 {
        lemma_checks_advance(m, (k - 1) as nat);
    }
}

/// Once every source file has compiled alone, a build compiles exactly one
/// unit: the dependencies' sources, then the project's own in declared
/// order, each preceded by one line break, however many files there are.
pub proof fn lemma_build_compiles_joined_unit(
    files: Seq<Seq<char>>,
    sources: Seq<Seq<char>>,
    modules: Seq<Seq<u8>>,
    dep_sources: Seq<Seq<char>>,
    outfile: Option<Seq<char>>,
)
    requires
        files.len() == sources.len(),
        files.len() >= 1,
        modules.len() == 0 || outfile is None,
    ensures
        ({
            let (m0, a0) = start_model(files, sources, modules, dep_sources, outfile);
            let (m, a) = after_checks(m0, files.len());
            &&& a0 == ActionModel::CompileFile(files[0], sources[0])
            &&& a == ActionModel::CompileUnit(project_unit(dep_sources, sources))
            &&& m.stage == Stage::Compiling
        }),
{
    let m0 = start_model(files, sources, modules, dep_sources, outfile).0;
    if files.len() > 1 {
        lemma_checks_advance(m0, (files.len() - 1) as nat);
    }
}

/// A persisted build writes exactly the module it returns: from its start,
/// once every source file has compiled alone and the unit compiles to `b`,
/// the session asks for `b` to be written to the output file, and when that
/// succeeds it finishes with `b` as its one module.
pub proof fn lemma_build_round_trip(
    files: Seq<Seq<char>>,
    sources: Seq<Seq<char>>,
    dep_sources: Seq<Seq<char>>,
    outfile: Seq<char>,
    b: Seq<u8>,
)
    requires
        files.len() == sources.len(),
        files.len() >= 1,
    ensures
        ({
            let m0 = start_model(files, sources, Seq::empty(), dep_sources, Some(outfile)).0;
            let m1 = after_checks(m0, files.len()).0;
            let (m2, a2) = step_model(m1, EventModel::Compiled(Ok(b)));
            let (m3, a3) = step_model(m2, EventModel::Written(Ok(())));
            &&& a2 == ActionModel::WriteOutput(outfile, b)
            &&& a3 == ActionModel::Finish(seq![b], false)
            &&& m3.stage == Stage::Done
        }),
{
    let m0 = start_model(files, sources, Seq::empty(), dep_sources, Some(outfile)).0;
    lemma_build_compiles_joined_unit(files, sources, Seq::empty(), dep_sources, Some(outfile));
    if files.len() > 1 {
        lemma_checks_advance(m0, (files.len() - 1) as nat);
    }
    let m1 = after_checks(m0, files.len()).0;
    lemma_written_module_is_returned(m1, b);
    assert(m1.binaries.push(b) =~= seq![b]);
}

} // verus!
