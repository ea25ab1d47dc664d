use vstd::prelude::*;

use crate::config::{AccountAddress, Config, DevTransaction, InitPlan};
use crate::paths::{join_path, joined};
use crate::report::TestReport;
use crate::runner::{
    artifacts_view, deps_present, module_artifacts, script_artifacts, Artifact, CompiledModule, CompiledScript, MoveRunner,
    RunnerError,
};
use crate::store::{apply_ops, WriteSet};

verus! {

/// A command as the user gave it.
#[derive(Clone, Debug)]
pub enum Parameter {
    /// Create a project named `name` under `home`.
    New { home: String, name: String },
    /// Compile every module, then every script, of the project.
    Build { home: String },
    /// Compile the modules, then run the script at `source_path`.
    Run { home: String, source_path: String, type_args: Vec<String>, args: Vec<String> },
    /// Compile the one file at `source_path`, as a module or as a script.
    Compile { home: String, source_path: String, module: bool },
    /// Compile the modules, then compile and run each test script.
    Test { home: String },
}

impl Parameter {
    pub open spec fn home_of(&self) -> String {
        match self {
            Parameter::New { home, .. } => *home,
            Parameter::Build { home } => *home,
            Parameter::Run { home, .. } => *home,
            Parameter::Compile { home, .. } => *home,
            Parameter::Test { home } => *home,
        }
    }

    /// The project's home directory.
    pub fn home(&self) -> (r: &String)
        ensures
            *r == self.home_of(),
    {
        match self {
            Parameter::New { home, .. } => home,
            Parameter::Build { home } => home,
            Parameter::Run { home, .. } => home,
            Parameter::Compile { home, .. } => home,
            Parameter::Test { home } => home,
        }
    }
}

/// Why a command stopped.
#[derive(Clone, Debug)]
pub enum SessionError {
    /// The configuration could not be read, with the message.
    Config(String),
    /// A file or a directory could not be read or written, with the message.
    Io(String),
    /// A source file did not compile.
    Runner(RunnerError),
    /// The genesis snapshot could not be read, with the message.
    Genesis(String),
    /// An event that the current step does not wait for.
    UnexpectedEvent,
}

/// How a command ended.
#[derive(Clone, Debug)]
pub enum Outcome {
    /// A project was created, with its name.
    Created(String),
    /// Every module and script compiled.
    Built,
    /// The one file compiled.
    Compiled,
    /// The script ran, with the write set that it produced.
    Ran(WriteSet),
    /// The virtual machine stopped the script, with its message.
    ExecutionFailed(String),
    /// Every test script was compiled and run.
    Tested(TestReport),
    /// The command stopped on an error.
    Failed(SessionError),
}

/// What the caller does next, then reports with an `Event`.
#[derive(Clone, Debug)]
pub enum Request {
    /// Generate a key pair and report the identity (`Identity`).
    GenerateIdentity,
    /// Create the plan's directories and write the configuration to its file (`Done`).
    InitProject(InitPlan, Config),
    /// Write the genesis snapshot of the new project (`Done`).
    WriteGenesis(Config),
    /// Read the configuration under the home and the standard library (`ConfigLoaded`).
    LoadConfig(String),
    /// List the source files under the directory, recursively, in traversal order (`Listed`).
    ListSources(String),
    /// Tell whether a file exists at the path (`Exists`).
    CheckExists(String),
    /// Compile the module at the path against the runner's library, with the
    /// sender's address, linking the standard library unless the flag says to
    /// skip it (`ModuleCompiled`).
    CompileModule(String, AccountAddress, bool),
    /// Compile the script at the path against the runner's library, with the
    /// sender's address and the same flag (`ScriptCompiled`).
    CompileScript(String, AccountAddress, bool),
    /// Read the genesis snapshot under the home (`GenesisLoaded`).
    LoadGenesis(String),
    /// Run the script with the sender, the type arguments and the arguments
    /// against the runner's data store (`Executed`).
    Execute(Vec<u8>, AccountAddress, Vec<String>, Vec<String>),
    /// Save the write set of a run into the genesis snapshot under the home (`Done`).
    SaveGenesis(String, WriteSet),
    /// The command is over.
    Finish(Outcome),
}

/// What the caller reports back.
#[derive(Debug)]
pub enum Event {
    Identity(DevTransaction),
    Done(Result<(), String>),
    ConfigLoaded(Result<(Config, Vec<CompiledModule>), String>),
    Listed(Result<Vec<String>, String>),
    Exists(bool),
    ModuleCompiled(Result<CompiledModule, String>),
    ScriptCompiled(Result<CompiledScript, String>),
    GenesisLoaded(Result<WriteSet, String>),
    Executed(Result<WriteSet, String>),
}

/// The files to write, then the request to carry out.
#[derive(Clone, Debug)]
pub struct Action {
    pub writes: Vec<Artifact>,
    pub request: Request,
}

/// Where a command stands.
pub enum Phase {
    AwaitIdentity,
    AwaitInit(Config),
    AwaitGenesisWritten(Config),
    AwaitConfig,
    AwaitModuleList,
    /// Compiling `paths[next]`, a module.
    CompilingModules(Vec<String>, usize),
    /// Resolving the path of the target file.
    AwaitExists(String),
    /// Compiling the target file.
    AwaitTarget(String),
    AwaitScriptList,
    /// Compiling `paths[next]`, a script.
    CompilingScripts(Vec<String>, usize),
    /// Seeding the data store; the compiled script of `Run` waits to be run.
    AwaitGenesis(Vec<u8>),
    AwaitExecution,
    /// Saving the write set of the run into the genesis snapshot.
    AwaitSaved(WriteSet),
    AwaitTestList,
    /// Compiling `paths[next]`, a test script.
    CompilingTests(Vec<String>, usize),
    /// Running `paths[next]`, a test script.
    RunningTests(Vec<String>, usize),
    Finished,
}

/// One command invocation, as a machine from events to requests.
pub struct Session {
    pub params: Parameter,
    pub phase: Phase,
    pub runner: Option<MoveRunner>,
    pub report: TestReport,
}

/// Both hold a runner, with the same configuration, library and data store.
pub open spec fn unchanged_runner(a: Option<MoveRunner>, b: Option<MoveRunner>) -> bool {
    a matches Some(r0) && b matches Some(r1) && r0.cfg == r1.cfg && r0.library@ == r1.library@
        && r0.datastore == r1.datastore
}

/// Both hold a runner; the second's data store is the first's with the write set applied.
pub open spec fn applied(a: Option<MoveRunner>, b: Option<MoveRunner>, ws: WriteSet) -> bool {
    a matches Some(r0) && b matches Some(r1) && r0.cfg == r1.cfg && r0.library@ == r1.library@
        && r1.datastore@ == apply_ops(r0.datastore@, ws.ops@)
}

/// The action ends the command on an error, writes nothing, and the session is over.
pub open spec fn fails(s: Session, a: Action) -> bool {
    &&& failed(a)
    &&& a.writes@.len() == 0
    &&& s.phase is Finished
}

/// The action ends the command on an error.
pub open spec fn failed(a: Action) -> bool {
    a.request matches Request::Finish(Outcome::Failed(_))
}

/// The action compiles the module at `path` with the runner's sender and
/// standard-library flag.
pub open spec fn compiles_module(a: Action, path: Seq<char>, r: Option<MoveRunner>) -> bool {
    r matches Some(x) && a.request matches Request::CompileModule(q, s, k) && q@ == path && s
        == x.cfg.tx.address && k == x.cfg.compile.skip_stdlib
}

/// The action compiles the script at `path` with the runner's sender and
/// standard-library flag.
pub open spec fn compiles_script(a: Action, path: Seq<char>, r: Option<MoveRunner>) -> bool {
    r matches Some(x) && a.request matches Request::CompileScript(q, s, k) && q@ == path && s
        == x.cfg.tx.address && k == x.cfg.compile.skip_stdlib
}

/// The action lists the sources under `dir`.
pub open spec fn lists(a: Action, dir: Seq<char>) -> bool {
    a.request matches Request::ListSources(d) && d@ == dir
}

/// The action ends a run that produced the write set `ws`.
pub open spec fn ran_with(a: Action, ws: WriteSet) -> bool {
    a.request matches Request::Finish(Outcome::Ran(w)) && w == ws
}

/// The action ends a test run with a report that holds `results`.
pub open spec fn tested_with(a: Action, results: Seq<(String, bool)>) -> bool {
    a.request matches Request::Finish(Outcome::Tested(rep)) && rep.results@ == results
}

/// A runner with the configuration `cfg` under the home `home`, the library
/// `stdlib` and an empty data store.
pub open spec fn fresh_runner(r: Option<MoveRunner>, cfg: Config, stdlib: Seq<CompiledModule>, home: String) -> bool {
    r matches Some(x) && x.cfg == (Config { home, ..cfg }) && x.library@ == stdlib
        && x.datastore@ == Map::<(u128, Seq<u8>), Seq<u8>>::empty()
}

/// The configuration holds the defaults of a new project.
pub open spec fn has_defaults(cfg: Config) -> bool {
    &&& cfg.workspace.script_dir@ == "src/scripts"@
    &&& cfg.workspace.module_dir@ == "src/modules"@
    &&& cfg.workspace.target_dir@ == "target"@
    &&& cfg.workspace.test_dir@ == "test"@
    &&& cfg.compile.output_source_map
    &&& cfg.compile.output_move_bytecode
    &&& !cfg.compile.skip_stdlib
    &&& !cfg.compile.custom_stdlib
    &&& cfg.compile.custom_stdlib_path@ == "src/stdlib"@
    &&& !cfg.storage.load_state_from_genesis
    &&& !cfg.storage.save_writeset_to_genesis
}

/// The plan creates the project's home and its four directories, then writes
/// the configuration file.
pub open spec fn plans_project(plan: InitPlan, cfg: Config) -> bool {
    &&& plan.dirs@.len() == 5
    &&& plan.dirs@[0]@ == cfg.home@
    &&& plan.dirs@[1]@ == cfg.module_dir_of()
    &&& plan.dirs@[2]@ == cfg.script_dir_of()
    &&& plan.dirs@[3]@ == cfg.target_dir_of()
    &&& plan.dirs@[4]@ == cfg.test_dir_of()
    &&& plan.config_file@ == cfg.config_file_of()
}

/// The new project `name` under `home`, with the identity `tx` and the default
/// configuration, is initialised, and its configuration awaits the genesis step.
pub open spec fn inits_project(s: Session, a: Action, home: String, name: String, tx: DevTransaction) -> bool {
    &&& a.request matches Request::InitProject(plan, cfg) && cfg.home == home && cfg.project_name == name
        && cfg.tx == tx && has_defaults(cfg) && plans_project(plan, cfg) && s.phase == Phase::AwaitInit(cfg)
    &&& a.writes@.len() == 0
}

/// What follows the last module: the scripts of `Build`, the target script of
/// `Run`, the test scripts of `Test`.
pub open spec fn after_modules_step(s: Session, a: Action) -> bool {
    s.runner matches Some(x) && match s.params {
        Parameter::Build { .. } => s.phase is AwaitScriptList && lists(a, x.cfg.script_dir_of()),
        Parameter::Run { source_path, .. } => s.phase == Phase::AwaitExists(source_path) && a.request
            == Request::CheckExists(source_path),
        Parameter::Test { .. } => s.phase is AwaitTestList && lists(a, x.cfg.test_dir_of()),
        _ => fails(s, a),
    }
}

/// What follows module `n` of `paths`: the next module, or what follows the modules.
pub open spec fn module_next(s: Session, paths: Vec<String>, n: int, a: Action) -> bool {
    if n + 1 < paths@.len() {
        s.phase == Phase::CompilingModules(paths, (n + 1) as usize) && compiles_module(
            a,
            paths@[n + 1]@,
            s.runner,
        )
    } else {
        after_modules_step(s, a)
    }
}

/// Compiling module `n` of `paths` ended with `compiled`: a module whose
/// dependencies the library holds joins the library, is published in the data
/// store, leaves its artifacts, and the next module follows; anything else ends
/// the command, writes nothing and changes nothing.
pub open spec fn module_step(
    r0: Option<MoveRunner>,
    s: Session,
    paths: Vec<String>,
    n: int,
    compiled: Result<CompiledModule, String>,
    a: Action,
) -> bool {
    r0 matches Some(x) && s.runner matches Some(y) && y.cfg == x.cfg && match compiled {
        Ok(m) => if deps_present(x.library_view(), m.deps@) {
            &&& y.library@ == x.library@.push(m)
            &&& y.datastore@ == x.datastore@.insert(m.code_path.key(), m.bytecode@)
            &&& artifacts_view(a.writes@) == module_artifacts(x.cfg, paths@[n]@, m)
            &&& module_next(s, paths, n, a)
        } else {
            fails(s, a) && unchanged_runner(r0, s.runner)
        },
        Err(_) => fails(s, a) && unchanged_runner(r0, s.runner),
    }
}

/// The listed modules are compiled from the first on; with none, what follows
/// the modules comes at once.
pub open spec fn modules_listed(s: Session, ps: Vec<String>, a: Action) -> bool {
    if ps@.len() > 0 {
        s.phase == Phase::CompilingModules(ps, 0) && compiles_module(a, ps@[0]@, s.runner) && a.writes@.len()
            == 0
    } else {
        after_modules_step(s, a)
    }
}

/// Whether the target file of the command is compiled as a module.
pub open spec fn target_is_module(params: Parameter) -> bool {
    params matches Parameter::Compile { module, .. } && module
}

/// The path of the target file: as given when a file exists there, otherwise
/// under the module directory (a module) or the script directory.
pub open spec fn resolved_target(params: Parameter, cfg: Config, path: Seq<char>, exists: bool) -> Seq<char> {
    if exists {
        path
    } else if target_is_module(params) {
        joined(cfg.module_dir_of(), path)
    } else {
        joined(cfg.script_dir_of(), path)
    }
}

/// The target file at `path` is compiled, as a module or as a script, and
/// awaited in phase `AwaitTarget`.
pub open spec fn compiles_target(s: Session, a: Action, path: Seq<char>) -> bool {
    &&& s.phase matches Phase::AwaitTarget(q) && q@ == path
    &&& a.writes@.len() == 0
    &&& if target_is_module(s.params) {
        compiles_module(a, path, s.runner)
    } else {
        compiles_script(a, path, s.runner)
    }
}

/// The action runs the compiled `script` of `Run`, with the command's type
/// arguments and arguments, sent by `sender`.
pub open spec fn executes(a: Action, params: Parameter, script: Seq<u8>, sender: AccountAddress) -> bool {
    params matches Parameter::Run { type_args, args, .. } && a.request matches Request::Execute(
        code,
        s,
        t,
        g,
    ) && code@ == script && s == sender && t@ == type_args@ && g@ == args@
}

/// What follows the compiled script of `Run`: the genesis snapshot where the
/// storage policy seeds from it (the script waiting in the phase), else its execution.
pub open spec fn before_run(s: Session, a: Action, cfg: Config, script: Seq<u8>) -> bool {
    if cfg.storage.load_state_from_genesis {
        s.phase matches Phase::AwaitGenesis(g) && g@ == script && a.request == Request::LoadGenesis(cfg.home)
    } else {
        s.phase is AwaitExecution && executes(a, s.params, script, cfg.tx.address)
    }
}

/// Compiling the target file of `Compile` or `Run` at `path` ended with
/// `event`: a unit whose dependencies the library holds leaves its artifacts
/// (a module also joins the library) and ends `Compile` or goes on to run the
/// script of `Run`; anything else ends the command and changes nothing.
pub open spec fn target_step(r0: Option<MoveRunner>, s: Session, path: String, event: Event, a: Action) -> bool {
    r0 matches Some(x) && s.runner matches Some(y) && match event {
        Event::ModuleCompiled(Ok(m)) => if deps_present(x.library_view(), m.deps@) {
            &&& artifacts_view(a.writes@) == module_artifacts(x.cfg, path@, m)
            &&& a.request == Request::Finish(Outcome::Compiled)
            &&& s.phase is Finished
            &&& y.cfg == x.cfg && y.library@ == x.library@.push(m) && y.datastore == x.datastore
        } else {
            fails(s, a) && unchanged_runner(r0, s.runner)
        },
        Event::ScriptCompiled(Ok(sc)) => if deps_present(x.library_view(), sc.deps@) {
            &&& artifacts_view(a.writes@) == script_artifacts(x.cfg, path@, sc)
            &&& unchanged_runner(r0, s.runner)
            &&& s.params is Run ==> before_run(s, a, x.cfg, sc.bytecode@)
            &&& !(s.params is Run) ==> a.request == Request::Finish(Outcome::Compiled) && s.phase is Finished
        } else {
            fails(s, a) && unchanged_runner(r0, s.runner)
        },
        _ => fails(s, a) && unchanged_runner(r0, s.runner),
    }
}

/// What follows the configuration: `Compile` resolves its target file, `Test`
/// seeds from the genesis snapshot where the storage policy says so, and
/// otherwise the module sources are listed.
pub open spec fn after_config(s: Session, a: Action) -> bool {
    &&& a.writes@.len() == 0
    &&& s.runner matches Some(x) && match s.params {
        Parameter::Compile { source_path, .. } => s.phase == Phase::AwaitExists(source_path) && a.request
            == Request::CheckExists(source_path),
        Parameter::Test { .. } => if x.cfg.storage.load_state_from_genesis {
            s.phase matches Phase::AwaitGenesis(g) && g@.len() == 0 && a.request == Request::LoadGenesis(
                x.cfg.home,
            )
        } else {
            s.phase is AwaitModuleList && lists(a, x.cfg.module_dir_of())
        },
        _ => s.phase is AwaitModuleList && lists(a, x.cfg.module_dir_of()),
    }
}

/// The genesis snapshot was read: its write set seeds the data store, then
/// `Run` executes the waiting script and `Test` lists the modules.
pub open spec fn genesis_step(r0: Option<MoveRunner>, s: Session, script: Seq<u8>, loaded: Result<WriteSet, String>, a: Action) -> bool {
    match loaded {
        Ok(ws) => {
            &&& applied(r0, s.runner, ws)
            &&& a.writes@.len() == 0
            &&& r0 matches Some(x) && (s.params is Run ==> s.phase is AwaitExecution && executes(
                a,
                s.params,
                script,
                x.cfg.tx.address,
            )) && (s.params is Test ==> s.phase is AwaitModuleList && lists(a, x.cfg.module_dir_of()))
        },
        Err(_) => fails(s, a) && unchanged_runner(r0, s.runner),
    }
}

/// The script of `Run` ran with `result`: a write set is applied to the data
/// store, saved into the genesis snapshot where the storage policy says so, and
/// reported; an error of the virtual machine is reported and changes nothing.
pub open spec fn executed_step(r0: Option<MoveRunner>, s: Session, result: Result<WriteSet, String>, a: Action) -> bool {
    a.writes@.len() == 0 && match result {
        Ok(ws) => applied(r0, s.runner, ws) && (r0 matches Some(x) && if x.cfg.storage.save_writeset_to_genesis {
            s.phase == Phase::AwaitSaved(ws) && saves(a, x.cfg.home, ws)
        } else {
            ran_with(a, ws) && s.phase is Finished
        }),
        Err(m) => a.request == Request::Finish(Outcome::ExecutionFailed(m)) && unchanged_runner(r0, s.runner)
            && s.phase is Finished,
    }
}

/// The action saves a copy of `ws` into the genesis snapshot under `home`.
pub open spec fn saves(a: Action, home: String, ws: WriteSet) -> bool {
    a.request matches Request::SaveGenesis(h, c) && h == home && c.view_ops() == ws.view_ops()
}

/// The sources listed for `Build` are compiled from the first on; with none the build is over.
pub open spec fn scripts_listed(s: Session, ps: Vec<String>, a: Action) -> bool {
    &&& a.writes@.len() == 0
    &&& if ps@.len() > 0 {
        s.phase == Phase::CompilingScripts(ps, 0) && compiles_script(a, ps@[0]@, s.runner)
    } else {
        a.request == Request::Finish(Outcome::Built) && s.phase is Finished
    }
}

/// Compiling script `n` of `paths` for `Build` ended with `compiled`: a
/// script whose dependencies the library holds leaves its artifacts and the
/// next script follows, or the build ends; anything else ends the command.
pub open spec fn script_step(r0: Option<MoveRunner>, s: Session, paths: Vec<String>, n: int, compiled: Result<CompiledScript, String>, a: Action) -> bool {
    r0 matches Some(x) && match compiled {
        Ok(sc) => if deps_present(x.library_view(), sc.deps@) {
            &&& artifacts_view(a.writes@) == script_artifacts(x.cfg, paths@[n]@, sc)
            &&& n + 1 < paths@.len() ==> s.phase == Phase::CompilingScripts(paths, (n + 1) as usize)
                && compiles_script(a, paths@[n + 1]@, s.runner)
            &&& n + 1 == paths@.len() ==> a.request == Request::Finish(Outcome::Built) && s.phase is Finished
        } else {
            fails(s, a)
        },
        Err(_) => fails(s, a),
    }
}

/// The listed test scripts are compiled from the first on; with none the report is empty.
pub open spec fn tests_listed(s: Session, ps: Vec<String>, a: Action) -> bool {
    &&& a.writes@.len() == 0
    &&& if ps@.len() > 0 {
        s.phase == Phase::CompilingTests(ps, 0) && compiles_script(a, ps@[0]@, s.runner)
    } else {
        tested_with(a, Seq::empty()) && s.phase is Finished
    }
}

/// What follows test script `n` of `paths`, passed or failed: the next
/// test script, or the report of them all.
pub open spec fn test_next(s: Session, paths: Vec<String>, n: int, a: Action) -> bool {
    &&& n + 1 < paths@.len() ==> s.phase == Phase::CompilingTests(paths, (n + 1) as usize) && compiles_script(
        a,
        paths@[n + 1]@,
        s.runner,
    )
    &&& n + 1 == paths@.len() ==> s.phase is Finished && tested_with(a, s.report.results@)
}

/// The action runs a test script's `code` with no arguments, sent by `sender`.
pub open spec fn runs_test(a: Action, code: Seq<u8>, sender: AccountAddress) -> bool {
    a.request matches Request::Execute(c, s, t, g) && c@ == code && s == sender && t@.len() == 0 && g@.len()
        == 0
}

/// A test script that did not compile is recorded as failed and the next one follows.
pub open spec fn test_refused(before: Seq<(String, bool)>, s: Session, paths: Vec<String>, n: int, a: Action) -> bool {
    &&& s.report.results@ == before.push((paths@[n], false))
    &&& a.writes@.len() == 0
    &&& test_next(s, paths, n, a)
}

/// Compiling test script `n` of `paths` ended with `compiled`: one whose
/// dependencies the library holds is run with no arguments by the developer
/// identity; any other is recorded as failed and the next one follows.
pub open spec fn test_compiled_step(r0: Option<MoveRunner>, before: Seq<(String, bool)>, s: Session, paths: Vec<String>, n: int, compiled: Result<CompiledScript, String>, a: Action) -> bool {
    r0 matches Some(x) && match compiled {
        Ok(sc) => if deps_present(x.library_view(), sc.deps@) {
            &&& s.report.results@ == before
            &&& s.phase == Phase::RunningTests(paths, n as usize)
            &&& runs_test(a, sc.bytecode@, x.cfg.tx.address)
        } else {
            test_refused(before, s, paths, n, a)
        },
        Err(_) => test_refused(before, s, paths, n, a),
    }
}

/// The whole effect of one step: from session `s0`, the event `e` leads to
/// session `s1` and the action `a`. Outside the test phases the report stays
/// as it was; an event that the phase does not wait for ends the command.
pub open spec fn stepped(s0: Session, e: Event, s1: Session, a: Action) -> bool {
    &&& s1.params == s0.params
    &&& failed(a) ==> a.writes@.len() == 0 && s1.phase is Finished
    &&& a.request is Finish ==> s1.phase is Finished
    &&& !(s0.phase is CompilingTests || s0.phase is RunningTests) ==> s1.report == s0.report
    &&& match s0.phase {
        Phase::AwaitIdentity => match e {
            Event::Identity(tx) => s0.params matches Parameter::New { home, name } && inits_project(
                s1,
                a,
                home,
                name,
                tx,
            ),
            _ => fails(s1, a),
        },
        Phase::AwaitInit(c) => match e {
            Event::Done(Ok(_)) => a.request == Request::WriteGenesis(c) && s1.phase
                == Phase::AwaitGenesisWritten(c) && a.writes@.len() == 0,
            _ => fails(s1, a),
        },
        Phase::AwaitGenesisWritten(c) => match e {
            Event::Done(Ok(_)) => a.request == Request::Finish(Outcome::Created(c.project_name))
                && a.writes@.len() == 0,
            _ => fails(s1, a),
        },
        Phase::AwaitConfig => match e {
            Event::ConfigLoaded(Ok(c)) => fresh_runner(s1.runner, c.0, c.1@, s0.params.home_of())
                && after_config(s1, a),
            _ => fails(s1, a),
        },
        Phase::AwaitModuleList => match e {
            Event::Listed(Ok(ps)) => s1.runner == s0.runner && modules_listed(s1, ps, a),
            _ => fails(s1, a),
        },
        Phase::CompilingModules(p, n) => match e {
            Event::ModuleCompiled(c) => module_step(s0.runner, s1, p, n as int, c, a),
            _ => fails(s1, a),
        },
        Phase::AwaitExists(p) => match e {
            Event::Exists(b) => s1.runner == s0.runner && (s0.runner matches Some(r) && compiles_target(
                s1,
                a,
                resolved_target(s0.params, r.cfg, p@, b),
            )),
            _ => fails(s1, a),
        },
        Phase::AwaitTarget(p) => target_step(s0.runner, s1, p, e, a),
        Phase::AwaitScriptList => match e {
            Event::Listed(Ok(ps)) => s1.runner == s0.runner && scripts_listed(s1, ps, a),
            _ => fails(s1, a),
        },
        Phase::CompilingScripts(p, n) => s1.runner == s0.runner && match e {
            Event::ScriptCompiled(c) => script_step(s0.runner, s1, p, n as int, c, a),
            _ => fails(s1, a),
        },
        Phase::AwaitGenesis(g) => match e {
            Event::GenesisLoaded(l) => genesis_step(s0.runner, s1, g@, l, a),
            _ => fails(s1, a),
        },
        Phase::AwaitExecution => match e {
            Event::Executed(r) => executed_step(s0.runner, s1, r, a),
            _ => fails(s1, a),
        },
        Phase::AwaitSaved(ws) => match e {
            Event::Done(Ok(_)) => ran_with(a, ws) && a.writes@.len() == 0,
            _ => fails(s1, a),
        },
        Phase::AwaitTestList => match e {
            Event::Listed(Ok(ps)) => s1.runner == s0.runner && tests_listed(s1, ps, a),
            _ => fails(s1, a),
        },
        Phase::CompilingTests(p, n) => s1.runner == s0.runner && match e {
            Event::ScriptCompiled(c) => test_compiled_step(
                s0.runner,
                s0.report.results@,
                s1,
                p,
                n as int,
                c,
                a,
            ),
            _ => fails(s1, a),
        },
        Phase::RunningTests(p, n) => s1.runner == s0.runner && match e {
            Event::Executed(r) => {
                &&& s1.report.results@ == s0.report.results@.push((p@[n as int], r is Ok))
                &&& a.writes@.len() == 0
                &&& test_next(s1, p, n as int, a)
            },
            _ => fails(s1, a),
        },
        Phase::Finished => fails(s1, a),
    }
}

fn stop(error: SessionError) -> (a: Action)
    ensures
        a.request == Request::Finish(Outcome::Failed(error)),
        a.writes@.len() == 0,
{
    Action { writes: Vec::new(), request: Request::Finish(Outcome::Failed(error)) }
}

fn ask(request: Request) -> (a: Action)
    ensures
        a.request == request,
        a.writes@.len() == 0,
{
    Action { writes: Vec::new(), request }
}

/// The command compiles the project's modules: `Build`, `Run` and `Test`.
pub open spec fn lists_modules(params: Parameter) -> bool {
    params is Build || params is Run || params is Test
}

/// A failing action writes nothing, and an action that ends the command
/// leaves the session over.
pub open spec fn closes(s: Session, a: Action) -> bool {
    &&& failed(a) ==> a.writes@.len() == 0 && s.phase is Finished
    &&& a.request is Finish ==> s.phase is Finished
}

impl Session {
    /// The phases after the configuration is loaded hold a runner whose data
    /// store is well formed; each list position lies within its list, and the
    /// report holds one result for each test script handled so far.
    pub open spec fn well_formed(&self) -> bool {
        &&& match self.phase {
            Phase::AwaitIdentity | Phase::AwaitInit(_) | Phase::AwaitGenesisWritten(_)
            | Phase::AwaitConfig | Phase::Finished => true,
            _ => self.runner matches Some(r) && r.well_formed(),
        }
        &&& match self.phase {
            Phase::CompilingModules(p, n) => n < p@.len() && self.report.results@.len() == 0,
            Phase::CompilingScripts(p, n) => n < p@.len() && self.report.results@.len() == 0,
            Phase::CompilingTests(p, n) => n < p@.len() && self.report.results@.len() == n,
            Phase::RunningTests(p, n) => n < p@.len() && self.report.results@.len() == n,
            Phase::Finished => true,
            _ => self.report.results@.len() == 0,
        }
        &&& self.phase is AwaitIdentity ==> self.params is New
        &&& self.phase is AwaitConfig ==> !(self.params is New)
        &&& (self.phase is AwaitModuleList || self.phase is CompilingModules) ==> lists_modules(self.params)
    }

    /// The session of a command, and its first request.
    pub fn start(params: Parameter) -> (r: (Session, Action))
        ensures
            r.0.well_formed(),
            r.0.params == params,
            r.0.runner is None,
            r.0.report.results@.len() == 0,
            params is New ==> r.0.phase is AwaitIdentity && r.1.request is GenerateIdentity,
            !(params is New) ==> r.0.phase is AwaitConfig && r.1.request == Request::LoadConfig(
                params.home_of(),
            ),
    {
        let is_new = match &params {
            Parameter::New { .. } => true,
            _ => false,
        };
        if is_new {
            let s = Session {
                params,
                phase: Phase::AwaitIdentity,
                runner: None,
                report: TestReport::new(),
            };
            (s, ask(Request::GenerateIdentity))
        } else {
            let home = params.home().clone();
            let s = Session { params, phase: Phase::AwaitConfig, runner: None, report: TestReport::new() };
            (s, ask(Request::LoadConfig(home)))
        }
    }

    /// The sender's address and the standard-library flag of the runner's configuration.
    fn flags(&self) -> (f: (AccountAddress, bool))
        requires
            self.runner is Some,
        ensures
            self.runner matches Some(r) && f.0 == r.cfg.tx.address && f.1 == r.cfg.compile.skip_stdlib,
    {
        match &self.runner {
            Some(r) => (r.cfg.address(), r.cfg.compile.skip_stdlib),
            None => (AccountAddress { value: 0 }, false),
        }
    }

    /// The request that follows the modules: the scripts for `Build`, the
    /// target script for `Run`, the test scripts for `Test`.
    fn after_modules(&mut self, writes: Vec<Artifact>) -> (a: Action)
        requires
            lists_modules(old(self).params),
            old(self).runner matches Some(r) && r.well_formed(),
            old(self).report.results@.len() == 0,
        ensures
            final(self).well_formed(),
            final(self).runner == old(self).runner,
            final(self).params == old(self).params,
            final(self).report == old(self).report,
            after_modules_step(*final(self), a),
            closes(*final(self), a),
            a.writes == writes,
    {
        let cfg_dirs = match &self.runner {
            Some(r) => (r.cfg.script_dir(), r.cfg.test_dir()),
            None => (String::new(), String::new()),
        };
        match &self.params {
            Parameter::Build { .. } => {
                self.phase = Phase::AwaitScriptList;
                Action { writes, request: Request::ListSources(cfg_dirs.0) }
            },
            Parameter::Run { source_path, .. } => {
                let p = source_path.clone();
                self.phase = Phase::AwaitExists(p.clone());
                Action { writes, request: Request::CheckExists(p) }
            },
            Parameter::Test { .. } => {
                self.phase = Phase::AwaitTestList;
                Action { writes, request: Request::ListSources(cfg_dirs.1) }
            },
            _ => {
                self.phase = Phase::Finished;
                stop(SessionError::UnexpectedEvent)
            },
        }
    }

    /// The request that compiles the first module of `paths`, or what follows
    /// the modules when there is none.
    fn begin_modules(&mut self, paths: Vec<String>) -> (a: Action)
        requires
            lists_modules(old(self).params),
            old(self).runner matches Some(r) && r.well_formed(),
            old(self).report.results@.len() == 0,
        ensures
            final(self).well_formed(),
            final(self).runner == old(self).runner,
            final(self).params == old(self).params,
            final(self).report == old(self).report,
            modules_listed(*final(self), paths, a),
            closes(*final(self), a),
    {
        if paths.len() > 0 {
            let first = paths[0].clone();
            let (sender, skip) = self.flags();
            self.phase = Phase::CompilingModules(paths, 0);
            ask(Request::CompileModule(first, sender, skip))
        } else {
            self.after_modules(Vec::new())
        }
    }

    /// Handles the outcome of compiling `paths[next]`, a module: a failure ends
    /// the command; a module that compiled joins the library, is published in
    /// the data store, and the next module is compiled.
    fn on_module(&mut self, paths: Vec<String>, next: usize, compiled: Result<CompiledModule, String>) -> (a:
        Action)
        requires
            lists_modules(old(self).params),
            old(self).runner matches Some(r) && r.well_formed(),
            old(self).report.results@.len() == 0,
            next < paths@.len(),
        ensures
            final(self).well_formed(),
            final(self).params == old(self).params,
            final(self).report == old(self).report,
            module_step(old(self).runner, *final(self), paths, next as int, compiled, a),
            closes(*final(self), a),
    {
        let mut runner = match self.runner.take() {
            Some(r) => r,
            None => {
                self.phase = Phase::Finished;
                return stop(SessionError::UnexpectedEvent);
            },
        };
        let result = runner.complie_module(&paths[next], compiled);
        match result {
            Err(e) => {
                self.runner = Some(runner);
                self.phase = Phase::Finished;
                stop(SessionError::Runner(e))
            },
            Ok(writes) => {
                runner.publish_last();
                self.runner = Some(runner);
                if next < paths.len() - 1 {
                    let p = paths[next + 1].clone();
                    let (sender, skip) = self.flags();
                    self.phase = Phase::CompilingModules(paths, next + 1);
                    Action { writes, request: Request::CompileModule(p, sender, skip) }
                } else {
                    self.after_modules(writes)
                }
            },
        }
    }

    /// Records whether `paths[next]`, a test script, passed, and compiles the
    /// next test script, whether this one passed or not; after the last one
    /// the report ends the command.
    fn next_test(&mut self, paths: Vec<String>, next: usize, passed: bool) -> (a: Action)
        requires
            old(self).runner matches Some(r) && r.well_formed(),
            old(self).report.results@.len() == next,
            next < paths@.len(),
        ensures
            final(self).well_formed(),
            final(self).params == old(self).params,
            final(self).runner == old(self).runner,
            final(self).report.results@ == old(self).report.results@.push((paths@[next as int], passed)),
            a.writes@.len() == 0,
            test_next(*final(self), paths, next as int, a),
            closes(*final(self), a),
    {
        self.report.record(paths[next].clone(), passed);
        if next < paths.len() - 1 {
            let p = paths[next + 1].clone();
            let (sender, skip) = self.flags();
            self.phase = Phase::CompilingTests(paths, next + 1);
            ask(Request::CompileScript(p, sender, skip))
        } else {
            self.phase = Phase::Finished;
            let report = self.report.copy();
            ask(Request::Finish(Outcome::Tested(report)))
        }
    }

    /// The request after the configuration was read: the target file of
    /// `Compile`, the genesis snapshot of `Test` where the storage policy seeds
    /// from it, the module sources otherwise.
    fn on_config(&mut self, cfg: Config, stdlib: Vec<CompiledModule>) -> (a: Action)
        requires
            !(old(self).params is New),
            old(self).report.results@.len() == 0,
        ensures
            final(self).well_formed(),
            final(self).params == old(self).params,
            final(self).report == old(self).report,
            fresh_runner(final(self).runner, cfg, stdlib@, old(self).params.home_of()),
            after_config(*final(self), a),
            closes(*final(self), a),
    {
        let home = self.params.home().clone();
        let cfg = Config::load_config(cfg, home);
        let genesis = cfg.storage.load_state_from_genesis;
        let module_dir = cfg.module_dir();
        let home2 = cfg.home.clone();
        self.runner = Some(MoveRunner::new(cfg, stdlib));
        match &self.params {
            Parameter::Compile { source_path, .. } => {
                let p = source_path.clone();
                self.phase = Phase::AwaitExists(p.clone());
                ask(Request::CheckExists(p))
            },
            Parameter::Test { .. } => {
                if genesis {
                    self.phase = Phase::AwaitGenesis(Vec::new());
                    ask(Request::LoadGenesis(home2))
                } else {
                    self.phase = Phase::AwaitModuleList;
                    ask(Request::ListSources(module_dir))
                }
            },
            _ => {
                self.phase = Phase::AwaitModuleList;
                ask(Request::ListSources(module_dir))
            },
        }
    }

    /// The request after the target file's path was resolved: a path that
    /// does not exist as given is taken under the module directory (a module of
    /// `Compile`) or the script directory.
    fn on_exists(&mut self, path: String, exists: bool) -> (a: Action)
        requires
            old(self).report.results@.len() == 0,
            old(self).runner matches Some(r) && r.well_formed(),
        ensures
            final(self).well_formed(),
            final(self).params == old(self).params,
            final(self).runner == old(self).runner,
            final(self).report == old(self).report,
            old(self).runner matches Some(r) && compiles_target(
                *final(self),
                a,
                resolved_target(old(self).params, r.cfg, path@, exists),
            ),
            closes(*final(self), a),
    {
        let as_module = match &self.params {
            Parameter::Compile { module, .. } => *module,
            _ => false,
        };
        let resolved = if exists {
            path
        } else {
            let dir = match &self.runner {
                Some(r) => if as_module {
                    r.cfg.module_dir()
                } else {
                    r.cfg.script_dir()
                },
                None => String::new(),
            };
            join_path(dir.as_str(), path.as_str())
        };
        let (sender, skip) = self.flags();
        self.phase = Phase::AwaitTarget(resolved.clone());
        if as_module {
            ask(Request::CompileModule(resolved, sender, skip))
        } else {
            ask(Request::CompileScript(resolved, sender, skip))
        }
    }

    /// The request after the target script of `Run` compiled: the genesis
    /// snapshot where the storage policy seeds from it, else the execution.
    fn before_execution(&mut self, script: Vec<u8>, writes: Vec<Artifact>) -> (a: Action)
        requires
            old(self).report.results@.len() == 0,
            old(self).runner matches Some(r) && r.well_formed(),
            old(self).params is Run,
        ensures
            final(self).well_formed(),
            final(self).params == old(self).params,
            final(self).runner == old(self).runner,
            final(self).report == old(self).report,
            a.writes == writes,
            old(self).runner matches Some(r) && before_run(*final(self), a, r.cfg, script@),
            closes(*final(self), a),
    {
        let (genesis, home, sender) = match &self.runner {
            Some(r) => (r.cfg.storage.load_state_from_genesis, r.cfg.home.clone(), r.cfg.address()),
            None => (false, String::new(), AccountAddress { value: 0 }),
        };
        if genesis {
            self.phase = Phase::AwaitGenesis(script);
            Action { writes, request: Request::LoadGenesis(home) }
        } else {
            self.execute_request(script, sender, writes)
        }
    }

    /// The request that runs the script of `Run` with its arguments.
    fn execute_request(&mut self, script: Vec<u8>, sender: AccountAddress, writes: Vec<Artifact>) -> (a:
        Action)
        requires
            old(self).report.results@.len() == 0,
            old(self).runner matches Some(r) && r.well_formed(),
        ensures
            final(self).well_formed(),
            final(self).params == old(self).params,
            final(self).runner == old(self).runner,
            final(self).report == old(self).report,
            old(self).params is Run ==> a.writes == writes && final(self).phase is AwaitExecution && executes(
                a,
                old(self).params,
                script@,
                sender,
            ),
            !(old(self).params is Run) ==> failed(a),
            closes(*final(self), a),
    {
        match &self.params {
            Parameter::Run { type_args, args, .. } => {
                let t = type_args.clone();
                let g = args.clone();
                self.phase = Phase::AwaitExecution;
                Action { writes, request: Request::Execute(script, sender, t, g) }
            },
            _ => {
                self.phase = Phase::Finished;
                stop(SessionError::UnexpectedEvent)
            },
        }
    }

    /// Handles the outcome of compiling the target file of `Compile` or `Run`.
    fn on_target(&mut self, path: String, event: Event) -> (a: Action)
        requires
            old(self).report.results@.len() == 0,
            old(self).runner matches Some(r) && r.well_formed(),
        ensures
            final(self).well_formed(),
            final(self).params == old(self).params,
            final(self).report == old(self).report,
            target_step(old(self).runner, *final(self), path, event, a),
            closes(*final(self), a),
    {
        let mut runner = match self.runner.take() {
            Some(r) => r,
            None => {
                self.phase = Phase::Finished;
                return stop(SessionError::UnexpectedEvent);
            },
        };
        match event {
            Event::ModuleCompiled(compiled) => {
                let r = runner.complie_module(&path, compiled);
                self.runner = Some(runner);
                self.phase = Phase::Finished;
                match r {
                    Ok(writes) => Action { writes, request: Request::Finish(Outcome::Compiled) },
                    Err(e) => stop(SessionError::Runner(e)),
                }
            },
            Event::ScriptCompiled(compiled) => {
                let r = runner.complie_script(&path, compiled);
                self.runner = Some(runner);
                match r {
                    Ok(out) => {
                        let is_run = match &self.params {
                            Parameter::Run { .. } => true,
                            _ => false,
                        };
                        if is_run {
                            self.before_execution(out.bytecode, out.artifacts)
                        } else {
                            self.phase = Phase::Finished;
                            Action { writes: out.artifacts, request: Request::Finish(Outcome::Compiled) }
                        }
                    },
                    Err(e) => {
                        self.phase = Phase::Finished;
                        stop(SessionError::Runner(e))
                    },
                }
            },
            _ => {
                self.runner = Some(runner);
                self.phase = Phase::Finished;
                stop(SessionError::UnexpectedEvent)
            },
        }
    }

    /// Handles the outcome of compiling `paths[next]`, a script of `Build`.
    fn on_script(&mut self, paths: Vec<String>, next: usize, compiled: Result<CompiledScript, String>) -> (a:
        Action)
        requires
            old(self).report.results@.len() == 0,
            old(self).runner matches Some(r) && r.well_formed(),
            next < paths@.len(),
        ensures
            final(self).well_formed(),
            final(self).params == old(self).params,
            final(self).runner == old(self).runner,
            final(self).report == old(self).report,
            script_step(old(self).runner, *final(self), paths, next as int, compiled, a),
            closes(*final(self), a),
    {
        let r = match &self.runner {
            Some(runner) => runner.complie_script(&paths[next], compiled),
            None => {
                self.phase = Phase::Finished;
                return stop(SessionError::UnexpectedEvent);
            },
        };
        match r {
            Err(e) => {
                self.phase = Phase::Finished;
                stop(SessionError::Runner(e))
            },
            Ok(out) => {
                if next < paths.len() - 1 {
                    let p = paths[next + 1].clone();
                    let (sender, skip) = self.flags();
                    self.phase = Phase::CompilingScripts(paths, next + 1);
                    Action { writes: out.artifacts, request: Request::CompileScript(p, sender, skip) }
                } else {
                    self.phase = Phase::Finished;
                    Action { writes: out.artifacts, request: Request::Finish(Outcome::Built) }
                }
            },
        }
    }

    /// Handles the genesis snapshot: its write set is applied to the data
    /// store, then `Run` executes its script and `Test` lists the modules.
    fn on_genesis(&mut self, script: Vec<u8>, loaded: Result<WriteSet, String>) -> (a: Action)
        requires
            old(self).runner matches Some(r) && r.well_formed(),
            old(self).report.results@.len() == 0,
        ensures
            final(self).well_formed(),
            final(self).params == old(self).params,
            final(self).report == old(self).report,
            genesis_step(old(self).runner, *final(self), script@, loaded, a),
            closes(*final(self), a),
    {
        let ws = match loaded {
            Err(m) => {
                self.phase = Phase::Finished;
                return stop(SessionError::Genesis(m));
            },
            Ok(ws) => ws,
        };
        let mut runner = match self.runner.take() {
            Some(r) => r,
            None => {
                self.phase = Phase::Finished;
                return stop(SessionError::UnexpectedEvent);
            },
        };
        runner.datastore.add_write_set(&ws);
        let sender = runner.cfg.address();
        let module_dir = runner.cfg.module_dir();
        self.runner = Some(runner);
        let is_test = match &self.params {
            Parameter::Test { .. } => true,
            _ => false,
        };
        if is_test {
            self.phase = Phase::AwaitModuleList;
            ask(Request::ListSources(module_dir))
        } else {
            self.execute_request(script, sender, Vec::new())
        }
    }

    /// Handles the outcome of running the script of `Run`: its write set is
    /// applied to the data store, saved into the genesis snapshot where the
    /// storage policy says so, and reported; a failure of the virtual machine
    /// is reported.
    fn on_executed(&mut self, result: Result<WriteSet, String>) -> (a: Action)
        requires
            old(self).runner matches Some(r) && r.well_formed(),
            old(self).report.results@.len() == 0,
        ensures
            final(self).well_formed(),
            final(self).params == old(self).params,
            final(self).report == old(self).report,
            executed_step(old(self).runner, *final(self), result, a),
            closes(*final(self), a),
    {
        self.phase = Phase::Finished;
        match result {
            Err(m) => ask(Request::Finish(Outcome::ExecutionFailed(m))),
            Ok(ws) => {
                let mut runner = match self.runner.take() {
                    Some(r) => r,
                    None => {
                        return stop(SessionError::UnexpectedEvent);
                    },
                };
                runner.datastore.add_write_set(&ws);
                let save = runner.cfg.storage.save_writeset_to_genesis;
                let home = runner.cfg.home.clone();
                self.runner = Some(runner);
                if save {
                    let saved = ws.copy();
                    self.phase = Phase::AwaitSaved(ws);
                    ask(Request::SaveGenesis(home, saved))
                } else {
                    ask(Request::Finish(Outcome::Ran(ws)))
                }
            },
        }
    }

    /// Handles the outcome of compiling `paths[next]`, a test script: one that
    /// compiled is run; one that did not is recorded as failed.
    fn on_test_compiled(&mut self, paths: Vec<String>, next: usize, compiled: Result<CompiledScript, String>)
        -> (a: Action)
        requires
            old(self).runner matches Some(r) && r.well_formed(),
            old(self).report.results@.len() == next,
            next < paths@.len(),
        ensures
            final(self).well_formed(),
            final(self).params == old(self).params,
            final(self).runner == old(self).runner,
            test_compiled_step(
                old(self).runner,
                old(self).report.results@,
                *final(self),
                paths,
                next as int,
                compiled,
                a,
            ),
            closes(*final(self), a),
    {
        let (r, sender) = match &self.runner {
            Some(runner) => (runner.complie_script(&paths[next], compiled), runner.cfg.address()),
            None => {
                self.phase = Phase::Finished;
                return stop(SessionError::UnexpectedEvent);
            },
        };
        match r {
            Err(_) => self.next_test(paths, next, false),
            Ok(out) => {
                self.phase = Phase::RunningTests(paths, next);
                Action {
                    writes: out.artifacts,
                    request: Request::Execute(out.bytecode, sender, Vec::new(), Vec::new()),
                }
            },
        }
    }

    /// Hands the session one event and returns what to do next; `stepped`
    /// states the whole effect, phase by phase.
    pub fn step(&mut self, event: Event) -> (a: Action)
        requires
            old(self).well_formed(),
        ensures
            final(self).well_formed(),
            stepped(*old(self), event, *final(self), a),
    {
        let mut phase = Phase::Finished;
        std::mem::swap(&mut phase, &mut self.phase);
        match phase {
            Phase::AwaitIdentity => match event {
                Event::Identity(tx) => {
                    let (home, name) = match &self.params {
                        Parameter::New { home, name } => (home.clone(), name.clone()),
                        _ => (String::new(), String::new()),
                    };
                    let cfg = Config::new(name, home, tx);
                    let plan = cfg.initial();
                    self.phase = Phase::AwaitInit(cfg.copy());
                    ask(Request::InitProject(plan, cfg))
                },
                _ => stop(SessionError::UnexpectedEvent),
            },
            Phase::AwaitInit(cfg) => match event {
                Event::Done(Ok(())) => {
                    self.phase = Phase::AwaitGenesisWritten(cfg.copy());
                    ask(Request::WriteGenesis(cfg))
                },
                Event::Done(Err(m)) => stop(SessionError::Io(m)),
                _ => stop(SessionError::UnexpectedEvent),
            },
            Phase::AwaitGenesisWritten(cfg) => match event {
                Event::Done(Ok(())) => ask(Request::Finish(Outcome::Created(cfg.project_name))),
                Event::Done(Err(m)) => stop(SessionError::Io(m)),
                _ => stop(SessionError::UnexpectedEvent),
            },
            Phase::AwaitConfig => match event {
                Event::ConfigLoaded(Ok((cfg, stdlib))) => self.on_config(cfg, stdlib),
                Event::ConfigLoaded(Err(m)) => stop(SessionError::Config(m)),
                _ => stop(SessionError::UnexpectedEvent),
            },
            Phase::AwaitModuleList => match event {
                Event::Listed(Ok(paths)) => self.begin_modules(paths),
                Event::Listed(Err(m)) => stop(SessionError::Io(m)),
                _ => stop(SessionError::UnexpectedEvent),
            },
            Phase::CompilingModules(paths, next) => match event {
                Event::ModuleCompiled(compiled) => self.on_module(paths, next, compiled),
                _ => stop(SessionError::UnexpectedEvent),
            },
            Phase::AwaitExists(path) => match event {
                Event::Exists(exists) => self.on_exists(path, exists),
                _ => stop(SessionError::UnexpectedEvent),
            },
            Phase::AwaitTarget(path) => self.on_target(path, event),
            Phase::AwaitScriptList => match event {
                Event::Listed(Ok(paths)) => {
                    if paths.len() > 0 {
                        let first = paths[0].clone();
                        let (sender, skip) = self.flags();
                        self.phase = Phase::CompilingScripts(paths, 0);
                        ask(Request::CompileScript(first, sender, skip))
                    } else {
                        ask(Request::Finish(Outcome::Built))
                    }
                },
                Event::Listed(Err(m)) => stop(SessionError::Io(m)),
                _ => stop(SessionError::UnexpectedEvent),
            },
            Phase::CompilingScripts(paths, next) => match event {
                Event::ScriptCompiled(compiled) => self.on_script(paths, next, compiled),
                _ => stop(SessionError::UnexpectedEvent),
            },
            Phase::AwaitGenesis(script) => match event {
                Event::GenesisLoaded(loaded) => self.on_genesis(script, loaded),
                _ => stop(SessionError::UnexpectedEvent),
            },
            Phase::AwaitExecution => match event {
                Event::Executed(result) => self.on_executed(result),
                _ => stop(SessionError::UnexpectedEvent),
            },
            Phase::AwaitSaved(ws) => match event {
                Event::Done(Ok(())) => ask(Request::Finish(Outcome::Ran(ws))),
                Event::Done(Err(m)) => stop(SessionError::Io(m)),
                _ => stop(SessionError::UnexpectedEvent),
            },
            Phase::AwaitTestList => match event {
                Event::Listed(Ok(paths)) => {
                    if paths.len() > 0 {
                        let first = paths[0].clone();
                        let (sender, skip) = self.flags();
                        self.phase = Phase::CompilingTests(paths, 0);
                        ask(Request::CompileScript(first, sender, skip))
                    } else {
                        assert(self.report.results@ =~= Seq::<(String, bool)>::empty());
                        ask(Request::Finish(Outcome::Tested(self.report.copy())))
                    }
                },
                Event::Listed(Err(m)) => stop(SessionError::Io(m)),
                _ => stop(SessionError::UnexpectedEvent),
            },
            Phase::CompilingTests(paths, next) => match event {
                Event::ScriptCompiled(compiled) => self.on_test_compiled(paths, next, compiled),
                _ => stop(SessionError::UnexpectedEvent),
            },
            Phase::RunningTests(paths, next) => match event {
                Event::Executed(result) => {
                    let passed = match &result {
                        Ok(_) => true,
                        Err(_) => false,
                    };
                    self.next_test(paths, next, passed)
                },
                _ => stop(SessionError::UnexpectedEvent),
            },
            Phase::Finished => stop(SessionError::UnexpectedEvent),
        }
    }
}

} // verus!
