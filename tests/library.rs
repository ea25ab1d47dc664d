use move_cli::config::{AccountAddress, Config, DevTransaction};
use move_cli::paths::{artifact_path, file_name, file_stem, join_path};
use move_cli::report::TestReport;
use move_cli::runner::{CompiledModule, CompiledScript, ModuleId, MoveRunner, RunnerError};
use move_cli::store::{AccessPath, DataStore, WriteOp, WriteSet};

fn identity() -> DevTransaction {
    DevTransaction::new(
        AccountAddress { value: 0xabcd },
        "private".to_string(),
        "public".to_string(),
    )
}

fn config(home: &str) -> Config {
    Config::new("demo".to_string(), home.to_string(), identity())
}

fn id(name: &str) -> ModuleId {
    ModuleId { address: AccountAddress { value: 1 }, name: name.to_string() }
}

fn module(name: &str, deps: &[&str], code: &[u8]) -> CompiledModule {
    CompiledModule {
        id: id(name),
        deps: deps.iter().map(|d| id(d)).collect(),
        bytecode: code.to_vec(),
        code_path: AccessPath { address: AccountAddress { value: 1 }, path: name.as_bytes().to_vec() },
    }
}

fn path(p: &[u8]) -> AccessPath {
    AccessPath { address: AccountAddress { value: 7 }, path: p.to_vec() }
}

#[test]
fn join_inserts_one_separator() {
    assert_eq!(join_path("/tmp/proj", "src/modules"), "/tmp/proj/src/modules");
    assert_eq!(join_path("/tmp/proj/", "target"), "/tmp/proj/target");
    assert_eq!(join_path("/tmp/proj", "/abs/dir"), "/abs/dir");
    assert_eq!(join_path("", "test"), "test");
}

#[test]
fn file_name_and_stem() {
    assert_eq!(file_name("/a/b/foo.mvir"), "foo.mvir");
    assert_eq!(file_name("foo.mvir"), "foo.mvir");
    assert_eq!(file_stem("foo.mvir"), "foo");
    assert_eq!(file_stem("archive.tar.gz"), "archive.tar");
    assert_eq!(file_stem(".hidden"), ".hidden");
    assert_eq!(file_stem("plain"), "plain");
}

#[test]
fn artifact_named_after_source() {
    assert_eq!(artifact_path("/p/target", "/p/src/modules/foo.mvir", "mv"), "/p/target/foo.mv");
    assert_eq!(artifact_path("/p/target", "script", "mvsm"), "/p/target/script.mvsm");
}

#[test]
fn new_config_has_default_layout() {
    let cfg = config("/tmp/proj");
    assert_eq!(cfg.project_name, "demo");
    assert_eq!(cfg.module_dir(), "/tmp/proj/src/modules");
    assert_eq!(cfg.script_dir(), "/tmp/proj/src/scripts");
    assert_eq!(cfg.test_dir(), "/tmp/proj/test");
    assert_eq!(cfg.target_dir(), "/tmp/proj/target");
    assert_eq!(cfg.address(), AccountAddress { value: 0xabcd });
    assert_eq!(cfg.tx.sequence_number, 0);
    assert!(cfg.compile.output_source_map);
    assert!(cfg.compile.output_move_bytecode);
    assert!(!cfg.storage.load_state_from_genesis);
}

#[test]
fn load_config_takes_home_from_argument() {
    let stored = config("/old/place");
    let cfg = Config::load_config(stored, "/new/place".to_string());
    assert_eq!(cfg.home, "/new/place");
    assert_eq!(cfg.project_name, "demo");
    assert_eq!(cfg.module_dir(), "/new/place/src/modules");
}

#[test]
fn initial_lists_directories_and_config_file() {
    let plan = config("/tmp/proj").initial();
    assert_eq!(
        plan.dirs,
        vec![
            "/tmp/proj".to_string(),
            "/tmp/proj/src/modules".to_string(),
            "/tmp/proj/src/scripts".to_string(),
            "/tmp/proj/target".to_string(),
            "/tmp/proj/test".to_string(),
        ]
    );
    assert_eq!(plan.config_file, "/tmp/proj/Move.toml");
}

#[test]
fn store_set_get_remove() {
    let mut s = DataStore::new();
    assert_eq!(s.get(&path(b"a")), None);
    s.set(&path(b"a"), &vec![1, 2]);
    s.set(&path(b"b"), &vec![3]);
    s.set(&path(b"a"), &vec![9]);
    assert_eq!(s.get(&path(b"a")), Some(vec![9]));
    assert_eq!(s.get(&path(b"b")), Some(vec![3]));
    s.remove(&path(b"a"));
    assert_eq!(s.get(&path(b"a")), None);
    assert_eq!(s.get(&path(b"b")), Some(vec![3]));
}

#[test]
fn write_set_applies_in_order() {
    let mut s = DataStore::new();
    s.set(&path(b"gone"), &vec![5]);
    let ws = WriteSet {
        ops: vec![
            (path(b"x"), WriteOp::Value(vec![1])),
            (path(b"x"), WriteOp::Value(vec![2])),
            (path(b"gone"), WriteOp::Deletion),
            (path(b"y"), WriteOp::Value(vec![3])),
            (path(b"y"), WriteOp::Deletion),
        ],
    };
    s.add_write_set(&ws);
    assert_eq!(s.get(&path(b"x")), Some(vec![2]));
    assert_eq!(s.get(&path(b"gone")), None);
    assert_eq!(s.get(&path(b"y")), None);
}

#[test]
fn write_set_replay_on_same_seed_gives_same_state() {
    let seed = |s: &mut DataStore| {
        s.set(&path(b"seed"), &vec![42]);
        s.set(&path(b"x"), &vec![0]);
    };
    let ws = WriteSet {
        ops: vec![(path(b"x"), WriteOp::Value(vec![1])), (path(b"z"), WriteOp::Value(vec![2]))],
    };
    let mut a = DataStore::new();
    let mut b = DataStore::new();
    seed(&mut a);
    seed(&mut b);
    a.add_write_set(&ws);
    b.add_write_set(&ws);
    for p in [b"seed".as_slice(), b"x", b"z", b"w"] {
        assert_eq!(a.get(&path(p)), b.get(&path(p)));
    }
    assert_eq!(a.get(&path(b"x")), Some(vec![1]));
    assert_eq!(a.get(&path(b"seed")), Some(vec![42]));
}

#[test]
fn module_joins_library_and_leaves_bytecode() {
    let mut r = MoveRunner::new(config("/p"), vec![module("Std", &[], &[0])]);
    let out = r.complie_module(&"/p/src/modules/foo.mvir".to_string(), Ok(module("Foo", &["Std"], &[1, 2, 3])));
    let arts = out.ok().unwrap();
    assert_eq!(arts.len(), 1);
    assert_eq!(arts[0].path, "/p/target/foo.mv");
    assert_eq!(arts[0].bytes, vec![1, 2, 3]);
    assert_eq!(r.library.len(), 2);
    assert!(r.has_module(&id("Foo")));
}

#[test]
fn module_with_missing_dependency_is_refused() {
    let mut r = MoveRunner::new(config("/p"), vec![module("Std", &[], &[0])]);
    let out = r.complie_module(&"bar.mvir".to_string(), Ok(module("Bar", &["Std", "Foo"], &[1])));
    match out {
        Err(RunnerError::MissingDependency(d)) => assert_eq!(d.name, "Foo"),
        other => panic!("unexpected {:?}", other),
    }
    assert_eq!(r.library.len(), 1);
    // once Foo is compiled, Bar compiles
    assert!(r.complie_module(&"foo.mvir".to_string(), Ok(module("Foo", &["Std"], &[2]))).is_ok());
    assert!(r.complie_module(&"bar.mvir".to_string(), Ok(module("Bar", &["Std", "Foo"], &[1]))).is_ok());
    assert_eq!(r.library.len(), 3);
}

#[test]
fn compile_error_is_reported() {
    let mut r = MoveRunner::new(config("/p"), vec![]);
    match r.complie_module(&"foo.mvir".to_string(), Err("syntax".to_string())) {
        Err(RunnerError::Compile(m)) => assert_eq!(m, "syntax"),
        other => panic!("unexpected {:?}", other),
    }
    assert_eq!(r.library.len(), 0);
}

#[test]
fn bytecode_artifact_only_when_enabled() {
    let mut cfg = config("/p");
    cfg.compile.output_move_bytecode = false;
    let mut r = MoveRunner::new(cfg, vec![]);
    let arts = r.complie_module(&"foo.mvir".to_string(), Ok(module("Foo", &[], &[1]))).ok().unwrap();
    assert!(arts.is_empty());
    assert_eq!(r.library.len(), 1);
}

#[test]
fn script_leaves_source_map_then_bytecode() {
    let r = MoveRunner::new(config("/p"), vec![module("Std", &[], &[0])]);
    let s = CompiledScript { deps: vec![id("Std")], bytecode: vec![7, 7], source_map: vec![b'{', b'}'] };
    let out = r.complie_script(&"/p/src/scripts/main.mvir".to_string(), Ok(s)).ok().unwrap();
    assert_eq!(out.bytecode, vec![7, 7]);
    assert_eq!(out.artifacts.len(), 2);
    assert_eq!(out.artifacts[0].path, "/p/target/main.mvsm");
    assert_eq!(out.artifacts[0].bytes, vec![b'{', b'}']);
    assert_eq!(out.artifacts[1].path, "/p/target/main.mv");
    assert_eq!(r.library.len(), 1);
}

#[test]
fn script_with_missing_dependency_is_refused() {
    let r = MoveRunner::new(config("/p"), vec![]);
    let s = CompiledScript { deps: vec![id("Foo")], bytecode: vec![1], source_map: vec![] };
    assert!(matches!(r.complie_script(&"main.mvir".to_string(), Ok(s)), Err(RunnerError::MissingDependency(_))));
}

#[test]
fn publish_puts_module_in_store() {
    let mut r = MoveRunner::new(config("/p"), vec![]);
    r.complie_module(&"foo.mvir".to_string(), Ok(module("Foo", &[], &[4, 5]))).ok().unwrap();
    r.publish_last();
    let key = AccessPath { address: AccountAddress { value: 1 }, path: b"Foo".to_vec() };
    assert_eq!(r.datastore.get(&key), Some(vec![4, 5]));
}

#[test]
fn report_counts() {
    let mut rep = TestReport::new();
    rep.record("a".to_string(), true);
    rep.record("b".to_string(), false);
    rep.record("c".to_string(), false);
    rep.record("d".to_string(), true);
    rep.record("e".to_string(), true);
    assert_eq!(rep.failures(), 2);
    assert_eq!(rep.passes(), 3);
    assert_eq!(TestReport::new().failures(), 0);
}
