use vstd::prelude::*;

use crate::config::{AccountAddress, Config};
use crate::paths::{artifact_path, artifact_path_of};
use crate::store::{copy_bytes, AccessPath, DataStore};

verus! {

/// A module's identity: the account that publishes it and its name.
#[derive(Clone, Debug)]
pub struct ModuleId {
    pub address: AccountAddress,
    pub name: String,
}

/// The key of a module identity in the models.
pub type ModuleKey = (u128, Seq<char>);

impl ModuleId {
    pub open spec fn key(&self) -> ModuleKey {
        (self.address.value, self.name@)
    }
}

/// A copy of a module identity.
pub fn copy_id(id: &ModuleId) -> (r: ModuleId)
    ensures
        r.key() == id.key(),
{
    ModuleId { address: id.address, name: id.name.clone() }
}

/// A module as the compiler and the bytecode verifier hand it back.
#[derive(Clone, Debug)]
pub struct CompiledModule {
    pub id: ModuleId,
    /// The modules that it uses.
    pub deps: Vec<ModuleId>,
    /// Its serialized bytecode.
    pub bytecode: Vec<u8>,
    /// Where it is published in ledger state.
    pub code_path: AccessPath,
}

/// A script as the compiler and the bytecode verifier hand it back.
#[derive(Clone, Debug)]
pub struct CompiledScript {
    /// The modules that it uses.
    pub deps: Vec<ModuleId>,
    /// Its serialized bytecode.
    pub bytecode: Vec<u8>,
    /// Its source map, serialized.
    pub source_map: Vec<u8>,
}

/// A file that compilation leaves in the target directory.
#[derive(Clone, Debug)]
pub struct Artifact {
    pub path: String,
    pub bytes: Vec<u8>,
}

impl Artifact {
    pub open spec fn view_pair(&self) -> (Seq<char>, Seq<u8>) {
        (self.path@, self.bytes@)
    }
}

/// The files of a list of artifacts, as paths and contents.
pub open spec fn artifacts_view(v: Seq<Artifact>) -> Seq<(Seq<char>, Seq<u8>)> {
    v.map_values(|a: Artifact| a.view_pair())
}

/// Why compiling a source file failed.
#[derive(Clone, Debug)]
pub enum RunnerError {
    /// The compiler or the bytecode verifier refused the source, with its message.
    Compile(String),
    /// The unit uses a module that the library does not hold yet.
    MissingDependency(ModuleId),
}

/// A compiled script and the files that its compilation leaves.
#[derive(Clone, Debug)]
pub struct ScriptOutput {
    pub bytecode: Vec<u8>,
    pub artifacts: Vec<Artifact>,
}

pub open spec fn mv_ext() -> Seq<char> {
    seq!['m', 'v']
}

pub open spec fn mvsm_ext() -> Seq<char> {
    seq!['m', 'v', 's', 'm']
}

/// The keys of the modules of a library, in order.
pub open spec fn library_keys(lib: Seq<CompiledModule>) -> Seq<ModuleKey> {
    lib.map_values(|m: CompiledModule| m.id.key())
}

/// Position of the first module of `deps` that the library does not hold, or -1.
pub open spec fn first_missing(lib: Seq<ModuleKey>, deps: Seq<ModuleId>) -> int
    decreases deps.len(),
{
    if deps.len() == 0 {
        -1
    } else if !lib.contains(deps[0].key()) {
        0
    } else {
        let r = first_missing(lib, deps.drop_first());
        if r < 0 {
            -1
        } else {
            r + 1
        }
    }
}

/// Every module of `deps` is in the library.
pub open spec fn deps_present(lib: Seq<ModuleKey>, deps: Seq<ModuleId>) -> bool {
    forall|i: int| 0 <= i < deps.len() ==> lib.contains(#[trigger] deps[i].key())
}

/// The files that compiling the module at `path` leaves.
pub open spec fn module_artifacts(cfg: Config, path: Seq<char>, m: CompiledModule) -> Seq<
    (Seq<char>, Seq<u8>),
> {
    if cfg.compile.output_move_bytecode {
        seq![(artifact_path_of(cfg.target_dir_of(), path, mv_ext()), m.bytecode@)]
    } else {
        seq![]
    }
}

/// The files that compiling the script at `path` leaves: the source map, then the bytecode.
pub open spec fn script_artifacts(cfg: Config, path: Seq<char>, s: CompiledScript) -> Seq<
    (Seq<char>, Seq<u8>),
> {
    let sm: Seq<(Seq<char>, Seq<u8>)> = if cfg.compile.output_source_map {
        seq![(artifact_path_of(cfg.target_dir_of(), path, mvsm_ext()), s.source_map@)]
    } else {
        seq![]
    };
    let bc: Seq<(Seq<char>, Seq<u8>)> = if cfg.compile.output_move_bytecode {
        seq![(artifact_path_of(cfg.target_dir_of(), path, mv_ext()), s.bytecode@)]
    } else {
        seq![]
    };
    sm + bc
}

pub(crate) proof fn lemma_first_missing(lib: Seq<ModuleKey>, deps: Seq<ModuleId>)
    ensures
        -1 <= first_missing(lib, deps) < deps.len(),
        first_missing(lib, deps) == -1 <==> deps_present(lib, deps),
        first_missing(lib, deps) >= 0 ==> !lib.contains(deps[first_missing(lib, deps)].key()),
        forall|j: int| 0 <= j < first_missing(lib, deps) ==> lib.contains(#[trigger] deps[j].key()),
    decreases deps.len(),
{
    if deps.len() > 0 {
        let rest = deps.drop_first();
        lemma_first_missing(lib, rest);
        assert forall|j: int| 0 < j < deps.len() implies #[trigger] deps[j] == rest[j - 1] by {}
        if lib.contains(deps[0].key()) {
            if deps_present(lib, rest) {
                assert forall|i: int| 0 <= i < deps.len() implies lib.contains(#[trigger] deps[i].key()) by {
                    if i > 0 {
                        assert(deps[i] == rest[i - 1]);
                    }
                }
            } else {
                let k = first_missing(lib, rest);
                assert(deps[k + 1] == rest[k]);
                assert forall|j: int| 0 <= j < k + 1 implies lib.contains(#[trigger] deps[j].key()) by {
                    if j > 0 {
                        assert(deps[j] == rest[j - 1]);
                    }
                }
            }
        }
    }
}

/// Compiles source files against an append-only library of modules, seeded with
/// the standard library, and owns the data store of one command invocation.
pub struct MoveRunner {
    pub cfg: Config,
    pub library: Vec<CompiledModule>,
    pub datastore: DataStore,
}

impl MoveRunner {
    pub open spec fn well_formed(&self) -> bool {
        self.datastore.well_formed()
    }

    /// The keys of the modules that later units may use.
    pub open spec fn library_view(&self) -> Seq<ModuleKey> {
        library_keys(self.library@)
    }

    /// A runner whose library holds the standard library and whose data store is empty.
    pub fn new(cfg: Config, stdlib: Vec<CompiledModule>) -> (r: MoveRunner)
        ensures
            r.well_formed(),
            r.cfg == cfg,
            r.library@ == stdlib@,
            r.datastore@ == Map::<(u128, Seq<u8>), Seq<u8>>::empty(),
    {
        MoveRunner { cfg, library: stdlib, datastore: DataStore::new() }
    }

    /// Whether the library holds a module with the identity `id`.
    pub fn has_module(&self, id: &ModuleId) -> (r: bool)
        ensures
            r == self.library_view().contains(id.key()),
    {
        let mut i: usize = 0;
        while i < self.library.len()
            invariant
                i <= self.library@.len(),
                forall|j: int| 0 <= j < i ==> #[trigger] self.library@[j].id.key() != id.key(),
            decreases self.library@.len() - i,
        {
            let m = &self.library[i];
            if m.id.address == id.address && m.id.name == id.name {
                assert(self.library_view()[i as int] == id.key());
                return true;
            }
            i = i + 1;
        }
        assert forall|j: int| 0 <= j < self.library_view().len() implies self.library_view()[j]
            != id.key() by {
            assert(self.library_view()[j] == self.library@[j].id.key());
        }
        false
    }

    /// Position of the first module of `deps` that the library does not hold.
    pub fn missing_dependency(&self, deps: &Vec<ModuleId>) -> (r: Option<usize>)
        ensures
            match r {
                Some(i) => i as int == first_missing(self.library_view(), deps@),
                None => first_missing(self.library_view(), deps@) == -1,
            },
            r is None <==> deps_present(self.library_view(), deps@),
    {
        proof {
            lemma_first_missing(self.library_view(), deps@);
        }
        let mut i: usize = 0;
        while i < deps.len()
            invariant
                i <= deps@.len(),
                forall|j: int| 0 <= j < i ==> self.library_view().contains(#[trigger] deps@[j].key()),
                -1 <= first_missing(self.library_view(), deps@) < deps@.len(),
                first_missing(self.library_view(), deps@) == -1 <==> deps_present(
                    self.library_view(),
                    deps@,
                ),
                first_missing(self.library_view(), deps@) >= 0 ==> !self.library_view().contains(
                    deps@[first_missing(self.library_view(), deps@)].key(),
                ),
                forall|j: int|
                    0 <= j < first_missing(self.library_view(), deps@) ==> self.library_view().contains(
                        #[trigger] deps@[j].key(),
                    ),
            decreases deps@.len() - i,
        {
            if !self.has_module(&deps[i]) {
                proof {
                    let lib = self.library_view();
                    let k = first_missing(lib, deps@);
                    if k == -1 {
                        assert(lib.contains(deps@[i as int].key()));
                    } else if k < i {
                        assert(lib.contains(deps@[k].key()));
                    } else if k > i {
                        assert(lib.contains(deps@[i as int].key()));
                    }
                }
                return Some(i);
            }
            i = i + 1;
        }
        None
    }

    /// Checks a compiled module against the library and, when every module it
    /// uses is there, appends it to the library; returns the files to write.
    pub fn complie_module(&mut self, path: &String, compiled: Result<CompiledModule, String>) -> (r:
        Result<Vec<Artifact>, RunnerError>)
        ensures
            final(self).cfg == old(self).cfg,
            final(self).datastore == old(self).datastore,
            match compiled {
                Err(msg) => r == Err::<Vec<Artifact>, RunnerError>(RunnerError::Compile(msg)),
                Ok(m) => {
                    let k = first_missing(old(self).library_view(), m.deps@);
                    if k >= 0 {
                        &&& r matches Err(RunnerError::MissingDependency(d))
                        &&& d.key() == m.deps@[k].key()
                    } else {
                        r matches Ok(_)
                    }
                },
            },
            r is Ok <==> (compiled matches Ok(m) && deps_present(old(self).library_view(), m.deps@)),
            r matches Ok(a) ==> (compiled matches Ok(m) && final(self).library@ == old(self).library@.push(m)
                && artifacts_view(a@) == module_artifacts(old(self).cfg, path@, m)),
            r is Err ==> final(self).library@ == old(self).library@,
    {
        let m = match compiled {
            Err(msg) => return Err(RunnerError::Compile(msg)),
            Ok(m) => m,
        };
        match self.missing_dependency(&m.deps) {
            Some(i) => {
                proof {
                    lemma_first_missing(self.library_view(), m.deps@);
                }
                return Err(RunnerError::MissingDependency(copy_id(&m.deps[i])));
            },
            None => {},
        }
        let mut artifacts: Vec<Artifact> = Vec::new();
        if self.cfg.compile.output_move_bytecode {
            let target = self.cfg.target_dir();
            let out = artifact_path(target.as_str(), path.as_str(), "mv");
            proof {
                reveal_strlit("mv");
                assert("mv"@ =~= mv_ext());
            }
            artifacts.push(Artifact { path: out, bytes: copy_bytes(&m.bytecode) });
        }
        let ghost a = artifacts@;
        proof {
            assert(artifacts_view(a) =~= module_artifacts(self.cfg, path@, m));
        }
        self.library.push(m);
        Ok(artifacts)
    }

    /// Checks a compiled script against the library, which it leaves as it is;
    /// returns the script's bytecode and the files to write.
    pub fn complie_script(&self, path: &String, compiled: Result<CompiledScript, String>) -> (r:
        Result<ScriptOutput, RunnerError>)
        ensures
            match compiled {
                Err(msg) => r == Err::<ScriptOutput, RunnerError>(RunnerError::Compile(msg)),
                Ok(s) => {
                    let k = first_missing(self.library_view(), s.deps@);
                    if k >= 0 {
                        &&& r matches Err(RunnerError::MissingDependency(d))
                        &&& d.key() == s.deps@[k].key()
                    } else {
                        &&& r matches Ok(out)
                        &&& out.bytecode@ == s.bytecode@
                        &&& artifacts_view(out.artifacts@) == script_artifacts(self.cfg, path@, s)
                    }
                },
            },
            r is Ok <==> (compiled matches Ok(s) && deps_present(self.library_view(), s.deps@)),
    {
        let s = match compiled {
            Err(msg) => return Err(RunnerError::Compile(msg)),
            Ok(s) => s,
        };
        proof {
            lemma_first_missing(self.library_view(), s.deps@);
        }
        match self.missing_dependency(&s.deps) {
            Some(i) => {
                return Err(RunnerError::MissingDependency(copy_id(&s.deps[i])));
            },
            None => {},
        }
        let mut artifacts: Vec<Artifact> = Vec::new();
        let target = self.cfg.target_dir();
        if self.cfg.compile.output_source_map {
            let out = artifact_path(target.as_str(), path.as_str(), "mvsm");
            proof {
                reveal_strlit("mvsm");
                assert("mvsm"@ =~= mvsm_ext());
            }
            artifacts.push(Artifact { path: out, bytes: copy_bytes(&s.source_map) });
        }
        if self.cfg.compile.output_move_bytecode {
            let out = artifact_path(target.as_str(), path.as_str(), "mv");
            proof {
                reveal_strlit("mv");
                assert("mv"@ =~= mv_ext());
            }
            artifacts.push(Artifact { path: out, bytes: copy_bytes(&s.bytecode) });
        }
        proof {
            assert(artifacts_view(artifacts@) =~= script_artifacts(self.cfg, path@, s));
        }
        Ok(ScriptOutput { bytecode: s.bytecode, artifacts })
    }

    /// Publishes the most recently compiled module of the library into the data store.
    pub fn publish_last(&mut self)
        requires
            old(self).well_formed(),
            old(self).library@.len() > 0,
        ensures
            final(self).well_formed(),
            final(self).cfg == old(self).cfg,
            final(self).library == old(self).library,
            final(self).datastore@ == old(self).datastore@.insert(
                old(self).library@.last().code_path.key(),
                old(self).library@.last().bytecode@,
            ),
    {
        let n = self.library.len();
        let m = &self.library[n - 1];
        self.datastore.add_module(&m.code_path, &m.bytecode);
    }
}

} // verus!
