use move_cli::commands::{build_command, execute, new_command, Command};
use move_cli::config::{AccountAddress, Config, DevTransaction};
use move_cli::runner::{CompiledModule, CompiledScript, ModuleId};
use move_cli::session::{Event, Outcome, Parameter, Request, Session, SessionError};
use move_cli::store::{AccessPath, WriteOp, WriteSet};

fn identity() -> DevTransaction {
    DevTransaction::new(AccountAddress { value: 0xa }, "sk".to_string(), "pk".to_string())
}

fn stored_config() -> Config {
    Config::new("demo".to_string(), "/somewhere/else".to_string(), identity())
}

fn id(name: &str) -> ModuleId {
    ModuleId { address: AccountAddress { value: 1 }, name: name.to_string() }
}

fn module(name: &str, deps: &[&str]) -> CompiledModule {
    CompiledModule {
        id: id(name),
        deps: deps.iter().map(|d| id(d)).collect(),
        bytecode: name.as_bytes().to_vec(),
        code_path: AccessPath { address: AccountAddress { value: 1 }, path: name.as_bytes().to_vec() },
    }
}

fn script(deps: &[&str]) -> CompiledScript {
    CompiledScript { deps: deps.iter().map(|d| id(d)).collect(), bytecode: vec![9], source_map: vec![] }
}

fn strings(v: &[&str]) -> Vec<String> {
    v.iter().map(|s| s.to_string()).collect()
}

fn loaded(session: &mut Session) -> Request {
    session.step(Event::ConfigLoaded(Ok((stored_config(), vec![module("Std", &[])])))).request
}

#[test]
fn new_project_creates_layout() {
    let params = Parameter::New { home: "/tmp/proj".to_string(), name: "demo".to_string() };
    let (mut s, a) = new_command().execute(params);
    assert!(matches!(a.request, Request::GenerateIdentity));
    match s.step(Event::Identity(identity())).request {
        Request::InitProject(plan, cfg) => {
            assert_eq!(plan.config_file, "/tmp/proj/Move.toml");
            assert!(plan.dirs.contains(&"/tmp/proj/src/modules".to_string()));
            assert!(plan.dirs.contains(&"/tmp/proj/src/scripts".to_string()));
            assert!(plan.dirs.contains(&"/tmp/proj/target".to_string()));
            assert_eq!(cfg.project_name, "demo");
            assert_eq!(cfg.home, "/tmp/proj");
        }
        other => panic!("unexpected {:?}", other),
    }
    assert!(matches!(s.step(Event::Done(Ok(()))).request, Request::WriteGenesis(_)));
    match s.step(Event::Done(Ok(()))).request {
        Request::Finish(Outcome::Created(name)) => assert_eq!(name, "demo"),
        other => panic!("unexpected {:?}", other),
    }
}

#[test]
fn wrong_command_is_refused() {
    let (_, a) = build_command().execute(Parameter::Test { home: ".".to_string() });
    assert!(matches!(a.request, Request::Finish(Outcome::Failed(SessionError::UnexpectedEvent))));
}

#[test]
fn build_compiles_modules_then_scripts() {
    let (mut s, a) = execute(Parameter::Build { home: "/p".to_string() });
    match a.request {
        Request::LoadConfig(home) => assert_eq!(home, "/p"),
        other => panic!("unexpected {:?}", other),
    }
    match loaded(&mut s) {
        Request::ListSources(dir) => assert_eq!(dir, "/p/src/modules"),
        other => panic!("unexpected {:?}", other),
    }
    assert_eq!(s.runner.as_ref().unwrap().cfg.home, "/p");
    let a = s.step(Event::Listed(Ok(strings(&["/p/src/modules/a.mvir", "/p/src/modules/b.mvir"]))));
    assert!(matches!(a.request, Request::CompileModule(ref p, _, _) if p == "/p/src/modules/a.mvir"));
    let a = s.step(Event::ModuleCompiled(Ok(module("A", &["Std"]))));
    assert_eq!(a.writes.len(), 1);
    assert_eq!(a.writes[0].path, "/p/target/a.mv");
    assert!(matches!(a.request, Request::CompileModule(ref p, _, _) if p == "/p/src/modules/b.mvir"));
    let a = s.step(Event::ModuleCompiled(Ok(module("B", &["A"]))));
    assert!(matches!(a.request, Request::ListSources(ref d) if d == "/p/src/scripts"));
    let stored = s.runner.as_ref().unwrap().datastore.get(&AccessPath {
        address: AccountAddress { value: 1 },
        path: b"B".to_vec(),
    });
    assert_eq!(stored, Some(b"B".to_vec()));
    let a = s.step(Event::Listed(Ok(strings(&["/p/src/scripts/main.mvir"]))));
    assert!(matches!(a.request, Request::CompileScript(..)));
    let a = s.step(Event::ScriptCompiled(Ok(script(&["B"]))));
    assert_eq!(a.writes.len(), 2);
    assert!(matches!(a.request, Request::Finish(Outcome::Built)));
}

#[test]
fn build_stops_at_forward_reference() {
    let (mut s, _) = execute(Parameter::Build { home: "/p".to_string() });
    loaded(&mut s);
    s.step(Event::Listed(Ok(strings(&["a.mvir", "b.mvir"]))));
    // a uses b, which comes later in the listing
    let a = s.step(Event::ModuleCompiled(Ok(module("A", &["B"]))));
    assert!(matches!(
        a.request,
        Request::Finish(Outcome::Failed(SessionError::Runner(move_cli::runner::RunnerError::MissingDependency(_))))
    ));
    assert_eq!(s.runner.as_ref().unwrap().library.len(), 1);
}

#[test]
fn run_aborts_on_module_compile_error() {
    let params = Parameter::Run {
        home: "/p".to_string(),
        source_path: "main.mvir".to_string(),
        type_args: vec![],
        args: vec![],
    };
    let (mut s, _) = execute(params);
    loaded(&mut s);
    s.step(Event::Listed(Ok(strings(&["/p/src/modules/foo.move"]))));
    let a = s.step(Event::ModuleCompiled(Err("unexpected token".to_string())));
    match a.request {
        Request::Finish(Outcome::Failed(SessionError::Runner(_))) => {}
        other => panic!("unexpected {:?}", other),
    }
    let store = &s.runner.as_ref().unwrap().datastore;
    assert_eq!(store.get(&AccessPath { address: AccountAddress { value: 1 }, path: b"Foo".to_vec() }), None);
    // nothing else follows
    let a = s.step(Event::ScriptCompiled(Ok(script(&[]))));
    assert!(matches!(a.request, Request::Finish(Outcome::Failed(SessionError::UnexpectedEvent))));
}

#[test]
fn run_resolves_script_and_executes() {
    let params = Parameter::Run {
        home: "/p".to_string(),
        source_path: "main.mvir".to_string(),
        type_args: strings(&["U64"]),
        args: strings(&["7"]),
    };
    let (mut s, _) = execute(params);
    loaded(&mut s);
    let a = s.step(Event::Listed(Ok(vec![])));
    assert!(matches!(a.request, Request::CheckExists(ref p) if p == "main.mvir"));
    let a = s.step(Event::Exists(false));
    assert!(matches!(a.request, Request::CompileScript(ref p, _, _) if p == "/p/src/scripts/main.mvir"));
    let a = s.step(Event::ScriptCompiled(Ok(script(&["Std"]))));
    match a.request {
        Request::Execute(code, sender, tys, args) => {
            assert_eq!(code, vec![9]);
            assert_eq!(sender, AccountAddress { value: 0xa });
            assert_eq!(tys, strings(&["U64"]));
            assert_eq!(args, strings(&["7"]));
        }
        other => panic!("unexpected {:?}", other),
    }
    let key = AccessPath { address: AccountAddress { value: 0xa }, path: vec![1] };
    let ws = WriteSet { ops: vec![(key.clone(), WriteOp::Value(vec![3]))] };
    match s.step(Event::Executed(Ok(ws))).request {
        Request::Finish(Outcome::Ran(w)) => assert_eq!(w.ops.len(), 1),
        other => panic!("unexpected {:?}", other),
    }
    assert_eq!(s.runner.as_ref().unwrap().datastore.get(&key), Some(vec![3]));
}

#[test]
fn run_reports_execution_error() {
    let params = Parameter::Run {
        home: "/p".to_string(),
        source_path: "/p/main.mvir".to_string(),
        type_args: vec![],
        args: vec![],
    };
    let (mut s, _) = execute(params);
    loaded(&mut s);
    s.step(Event::Listed(Ok(vec![])));
    let a = s.step(Event::Exists(true));
    assert!(matches!(a.request, Request::CompileScript(ref p, _, _) if p == "/p/main.mvir"));
    s.step(Event::ScriptCompiled(Ok(script(&[]))));
    match s.step(Event::Executed(Err("ABORTED".to_string()))).request {
        Request::Finish(Outcome::ExecutionFailed(m)) => assert_eq!(m, "ABORTED"),
        other => panic!("unexpected {:?}", other),
    }
}

#[test]
fn compile_module_resolves_under_module_dir() {
    let params = Parameter::Compile { home: "/p".to_string(), source_path: "foo.mvir".to_string(), module: true };
    let (mut s, _) = execute(params);
    let a = loaded(&mut s);
    assert!(matches!(a, Request::CheckExists(_)));
    let a = s.step(Event::Exists(false));
    assert!(matches!(a.request, Request::CompileModule(ref p, _, _) if p == "/p/src/modules/foo.mvir"));
    let a = s.step(Event::ModuleCompiled(Ok(module("Foo", &["Std"]))));
    assert_eq!(a.writes[0].path, "/p/target/foo.mv");
    assert!(matches!(a.request, Request::Finish(Outcome::Compiled)));
}

#[test]
fn test_command_counts_failures_and_runs_all() {
    let (mut s, _) = execute(Parameter::Test { home: "/p".to_string() });
    loaded(&mut s);
    let a = s.step(Event::Listed(Ok(vec![])));
    assert!(matches!(a.request, Request::ListSources(ref d) if d == "/p/test"));
    let a = s.step(Event::Listed(Ok(strings(&["t1", "t2", "t3", "t4"]))));
    assert!(matches!(a.request, Request::CompileScript(ref p, _, _) if p == "t1"));
    // t1 passes
    let a = s.step(Event::ScriptCompiled(Ok(script(&[]))));
    match a.request {
        Request::Execute(_, _, tys, args) => {
            assert!(tys.is_empty());
            assert!(args.is_empty());
        }
        other => panic!("unexpected {:?}", other),
    }
    let a = s.step(Event::Executed(Ok(WriteSet { ops: vec![] })));
    assert!(matches!(a.request, Request::CompileScript(ref p, _, _) if p == "t2"));
    // t2 fails to run
    s.step(Event::ScriptCompiled(Ok(script(&[]))));
    let a = s.step(Event::Executed(Err("boom".to_string())));
    assert!(matches!(a.request, Request::CompileScript(ref p, _, _) if p == "t3"));
    // t3 does not compile
    let a = s.step(Event::ScriptCompiled(Err("bad".to_string())));
    assert!(matches!(a.request, Request::CompileScript(ref p, _, _) if p == "t4"));
    // t4 passes
    s.step(Event::ScriptCompiled(Ok(script(&["Std"]))));
    match s.step(Event::Executed(Ok(WriteSet { ops: vec![] }))).request {
        Request::Finish(Outcome::Tested(report)) => {
            assert_eq!(report.results.len(), 4);
            assert_eq!(report.failures(), 2);
            assert_eq!(report.passes(), 2);
            assert_eq!(report.results[1], ("t2".to_string(), false));
            assert_eq!(report.results[2], ("t3".to_string(), false));
        }
        other => panic!("unexpected {:?}", other),
    }
}

#[test]
fn test_command_seeds_from_genesis_when_configured() {
    let (mut s, _) = execute(Parameter::Test { home: "/p".to_string() });
    let mut cfg = stored_config();
    cfg.storage.load_state_from_genesis = true;
    let a = s.step(Event::ConfigLoaded(Ok((cfg, vec![]))));
    assert!(matches!(a.request, Request::LoadGenesis(ref h) if h == "/p"));
    let key = AccessPath { address: AccountAddress { value: 0 }, path: vec![0] };
    let a = s.step(Event::GenesisLoaded(Ok(WriteSet { ops: vec![(key.clone(), WriteOp::Value(vec![1]))] })));
    assert!(matches!(a.request, Request::ListSources(ref d) if d == "/p/src/modules"));
    assert_eq!(s.runner.as_ref().unwrap().datastore.get(&key), Some(vec![1]));
}

#[test]
fn config_error_stops_command() {
    let (mut s, _) = execute(Parameter::Build { home: "/p".to_string() });
    match s.step(Event::ConfigLoaded(Err("missing Move.toml".to_string()))).request {
        Request::Finish(Outcome::Failed(SessionError::Config(m))) => assert_eq!(m, "missing Move.toml"),
        other => panic!("unexpected {:?}", other),
    }
}

/// The writes of a whole build of modules `a`, `b` given in `order`.
fn build_writes(order: &[(&str, &str, &[&str])]) -> Vec<(String, Vec<u8>)> {
    let (mut s, _) = execute(Parameter::Build { home: "/p".to_string() });
    loaded(&mut s);
    let paths: Vec<&str> = order.iter().map(|(p, _, _)| *p).collect();
    let mut a = s.step(Event::Listed(Ok(strings(&paths))));
    let mut out = vec![];
    for (_, name, deps) in order {
        a = s.step(Event::ModuleCompiled(Ok(module(name, deps))));
        for w in &a.writes {
            out.push((w.path.clone(), w.bytes.clone()));
        }
    }
    assert!(matches!(a.request, Request::ListSources(_)));
    out.sort();
    out
}

#[test]
fn any_dependency_order_gives_same_artifacts() {
    // C uses A and B; A and B are independent
    let first = build_writes(&[("a.mvir", "A", &["Std"]), ("b.mvir", "B", &[]), ("c.mvir", "C", &["A", "B"])]);
    let second = build_writes(&[("b.mvir", "B", &[]), ("a.mvir", "A", &["Std"]), ("c.mvir", "C", &["A", "B"])]);
    assert_eq!(first.len(), 3);
    assert_eq!(first, second);
}

#[test]
fn building_twice_gives_same_artifacts() {
    let order: &[(&str, &str, &[&str])] = &[("a.mvir", "A", &[]), ("b.mvir", "B", &["A"])];
    assert_eq!(build_writes(order), build_writes(order));
}

#[test]
fn io_error_stops_new_project() {
    let (mut s, _) = execute(Parameter::New { home: "/p".to_string(), name: "x".to_string() });
    s.step(Event::Identity(identity()));
    match s.step(Event::Done(Err("permission denied".to_string()))).request {
        Request::Finish(Outcome::Failed(SessionError::Io(m))) => assert_eq!(m, "permission denied"),
        other => panic!("unexpected {:?}", other),
    }
}

#[test]
fn listing_error_stops_build() {
    let (mut s, _) = execute(Parameter::Build { home: "/p".to_string() });
    loaded(&mut s);
    let a = s.step(Event::Listed(Err("bad pattern".to_string())));
    assert!(matches!(a.request, Request::Finish(Outcome::Failed(SessionError::Io(_)))));
}

#[test]
fn genesis_error_stops_run() {
    let params = Parameter::Run {
        home: "/p".to_string(),
        source_path: "/p/main.mvir".to_string(),
        type_args: vec![],
        args: vec![],
    };
    let (mut s, _) = execute(params);
    let mut cfg = stored_config();
    cfg.storage.load_state_from_genesis = true;
    s.step(Event::ConfigLoaded(Ok((cfg, vec![]))));
    s.step(Event::Listed(Ok(vec![])));
    s.step(Event::Exists(true));
    let a = s.step(Event::ScriptCompiled(Ok(script(&[]))));
    assert!(matches!(a.request, Request::LoadGenesis(ref h) if h == "/p"));
    let a = s.step(Event::GenesisLoaded(Err("truncated".to_string())));
    assert!(matches!(a.request, Request::Finish(Outcome::Failed(SessionError::Genesis(_)))));
}

#[test]
fn empty_test_directory_reports_nothing() {
    let (mut s, _) = execute(Parameter::Test { home: "/p".to_string() });
    loaded(&mut s);
    s.step(Event::Listed(Ok(vec![])));
    match s.step(Event::Listed(Ok(vec![]))).request {
        Request::Finish(Outcome::Tested(report)) => {
            assert!(report.results.is_empty());
            assert_eq!(report.failures(), 0);
        }
        other => panic!("unexpected {:?}", other),
    }
}

#[test]
fn compile_requests_carry_sender_and_stdlib_flag() {
    let (mut s, _) = execute(Parameter::Build { home: "/p".to_string() });
    let mut cfg = stored_config();
    cfg.compile.skip_stdlib = true;
    s.step(Event::ConfigLoaded(Ok((cfg, vec![]))));
    match s.step(Event::Listed(Ok(strings(&["a.mvir"])))).request {
        Request::CompileModule(p, sender, skip) => {
            assert_eq!(p, "a.mvir");
            assert_eq!(sender, AccountAddress { value: 0xa });
            assert!(skip);
        }
        other => panic!("unexpected {:?}", other),
    }
    let a = s.step(Event::ModuleCompiled(Ok(module("A", &[]))));
    assert!(matches!(a.request, Request::ListSources(_)));
    match s.step(Event::Listed(Ok(strings(&["m.mvir"])))).request {
        Request::CompileScript(p, sender, skip) => {
            assert_eq!(p, "m.mvir");
            assert_eq!(sender, AccountAddress { value: 0xa });
            assert!(skip);
        }
        other => panic!("unexpected {:?}", other),
    }
}

#[test]
fn run_saves_write_set_when_configured() {
    let params = Parameter::Run {
        home: "/p".to_string(),
        source_path: "/p/main.mvir".to_string(),
        type_args: vec![],
        args: vec![],
    };
    let (mut s, _) = execute(params);
    let mut cfg = stored_config();
    cfg.storage.save_writeset_to_genesis = true;
    s.step(Event::ConfigLoaded(Ok((cfg, vec![]))));
    s.step(Event::Listed(Ok(vec![])));
    s.step(Event::Exists(true));
    s.step(Event::ScriptCompiled(Ok(script(&[]))));
    let key = AccessPath { address: AccountAddress { value: 0xa }, path: vec![2] };
    let ws = WriteSet { ops: vec![(key.clone(), WriteOp::Value(vec![5])), (key.clone(), WriteOp::Deletion)] };
    match s.step(Event::Executed(Ok(ws))).request {
        Request::SaveGenesis(home, saved) => {
            assert_eq!(home, "/p");
            assert_eq!(saved.ops.len(), 2);
            assert!(matches!(saved.ops[1].1, WriteOp::Deletion));
        }
        other => panic!("unexpected {:?}", other),
    }
    match s.step(Event::Done(Ok(()))).request {
        Request::Finish(Outcome::Ran(w)) => assert_eq!(w.ops.len(), 2),
        other => panic!("unexpected {:?}", other),
    }
}

#[test]
fn test_scripts_run_against_unchanged_store() {
    let (mut s, _) = execute(Parameter::Test { home: "/p".to_string() });
    loaded(&mut s);
    s.step(Event::Listed(Ok(vec![])));
    s.step(Event::Listed(Ok(strings(&["t1", "t2"]))));
    s.step(Event::ScriptCompiled(Ok(script(&[]))));
    let key = AccessPath { address: AccountAddress { value: 0xa }, path: vec![7] };
    let ws = WriteSet { ops: vec![(key.clone(), WriteOp::Value(vec![1]))] };
    s.step(Event::Executed(Ok(ws)));
    assert_eq!(s.runner.as_ref().unwrap().datastore.get(&key), None);
}
