use vstd::prelude::*;

use crate::paths::{join_path, joined};

verus! {

/// The name of the configuration file under a project's home.
pub open spec fn config_file_name() -> Seq<char> {
    seq!['M', 'o', 'v', 'e', '.', 't', 'o', 'm', 'l']
}

/// An account address: its sixteen bytes read as one big-endian number.
#[derive(Clone, Copy, Debug, PartialEq, Eq, Structural)]
pub struct AccountAddress {
    pub value: u128,
}

/// Directories of a project, relative to its home.
#[derive(Clone, Debug)]
pub struct Workspace {
    pub script_dir: String,
    pub module_dir: String,
    pub target_dir: String,
    pub test_dir: String,
}

impl Default for Workspace {
    fn default() -> (r: Workspace)
        ensures
            r.script_dir@ == "src/scripts"@,
            r.module_dir@ == "src/modules"@,
            r.target_dir@ == "target"@,
            r.test_dir@ == "test"@,
    {
        Workspace {
            script_dir: String::from_str("src/scripts"),
            module_dir: String::from_str("src/modules"),
            target_dir: String::from_str("target"),
            test_dir: String::from_str("test"),
        }
    }
}

/// Options of the compilation.
#[derive(Clone, Debug)]
pub struct Compile {
    pub output_source_map: bool,
    pub output_move_bytecode: bool,
    pub skip_stdlib: bool,
    pub custom_stdlib: bool,
    pub custom_stdlib_path: String,
}

impl Default for Compile {
    fn default() -> (r: Compile)
        ensures
            r.output_source_map,
            r.output_move_bytecode,
            !r.skip_stdlib,
            !r.custom_stdlib,
            r.custom_stdlib_path@ == "src/stdlib"@,
    {
        Compile {
            output_source_map: true,
            output_move_bytecode: true,
            skip_stdlib: false,
            custom_stdlib: false,
            custom_stdlib_path: String::from_str("src/stdlib"),
        }
    }
}

/// The developer identity that sends every executed script.
#[derive(Clone, Debug)]
pub struct DevTransaction {
    pub address: AccountAddress,
    /// The private key, encoded as text.
    pub keypair_private_key: String,
    /// The public key, encoded as text.
    pub keypair_public_key: String,
    pub sequence_number: u64,
}

impl DevTransaction {
    /// A fresh identity from a generated key pair and the address derived from it.
    pub fn new(address: AccountAddress, keypair_private_key: String, keypair_public_key: String) -> (r:
        DevTransaction)
        ensures
            r.address == address,
            r.keypair_private_key == keypair_private_key,
            r.keypair_public_key == keypair_public_key,
            r.sequence_number == 0,
    {
        DevTransaction { address, keypair_private_key, keypair_public_key, sequence_number: 0 }
    }
}

/// Whether the data store is seeded from, and saved to, the genesis snapshot.
#[derive(Clone, Debug)]
pub struct Storage {
    pub load_state_from_genesis: bool,
    pub save_writeset_to_genesis: bool,
}

impl Default for Storage {
    fn default() -> (r: Storage)
        ensures
            !r.load_state_from_genesis,
            !r.save_writeset_to_genesis,
    {
        Storage { load_state_from_genesis: false, save_writeset_to_genesis: false }
    }
}

/// A project's configuration.
#[derive(Clone, Debug)]
pub struct Config {
    pub project_name: String,
    pub home: String,
    pub workspace: Workspace,
    pub compile: Compile,
    pub tx: DevTransaction,
    pub storage: Storage,
}

/// What initialising a project on disk does: the directories to create, in
/// order, and the file that receives the configuration.
#[derive(Clone, Debug)]
pub struct InitPlan {
    pub dirs: Vec<String>,
    pub config_file: String,
}

impl Config {
    pub open spec fn module_dir_of(&self) -> Seq<char> {
        joined(self.home@, self.workspace.module_dir@)
    }

    pub open spec fn script_dir_of(&self) -> Seq<char> {
        joined(self.home@, self.workspace.script_dir@)
    }

    pub open spec fn test_dir_of(&self) -> Seq<char> {
        joined(self.home@, self.workspace.test_dir@)
    }

    pub open spec fn target_dir_of(&self) -> Seq<char> {
        joined(self.home@, self.workspace.target_dir@)
    }

    pub open spec fn config_file_of(&self) -> Seq<char> {
        joined(self.home@, config_file_name())
    }

    /// A copy of the configuration.
    pub fn copy(&self) -> (r: Config)
        ensures
            r == *self,
    {
        Config {
            project_name: self.project_name.clone(),
            home: self.home.clone(),
            workspace: Workspace {
                script_dir: self.workspace.script_dir.clone(),
                module_dir: self.workspace.module_dir.clone(),
                target_dir: self.workspace.target_dir.clone(),
                test_dir: self.workspace.test_dir.clone(),
            },
            compile: Compile {
                output_source_map: self.compile.output_source_map,
                output_move_bytecode: self.compile.output_move_bytecode,
                skip_stdlib: self.compile.skip_stdlib,
                custom_stdlib: self.compile.custom_stdlib,
                custom_stdlib_path: self.compile.custom_stdlib_path.clone(),
            },
            tx: DevTransaction {
                address: self.tx.address,
                keypair_private_key: self.tx.keypair_private_key.clone(),
                keypair_public_key: self.tx.keypair_public_key.clone(),
                sequence_number: self.tx.sequence_number,
            },
            storage: Storage {
                load_state_from_genesis: self.storage.load_state_from_genesis,
                save_writeset_to_genesis: self.storage.save_writeset_to_genesis,
            },
        }
    }

    /// A configuration with the default layout and options for a new project.
    pub fn new(name: String, home: String, tx: DevTransaction) -> (r: Config)
        ensures
            r.project_name == name,
            r.home == home,
            r.tx == tx,
            r.workspace.script_dir@ == "src/scripts"@,
            r.workspace.module_dir@ == "src/modules"@,
            r.workspace.target_dir@ == "target"@,
            r.workspace.test_dir@ == "test"@,
            r.compile.output_source_map,
            r.compile.output_move_bytecode,
            !r.compile.skip_stdlib,
            !r.compile.custom_stdlib,
            r.compile.custom_stdlib_path@ == "src/stdlib"@,
            !r.storage.load_state_from_genesis,
            !r.storage.save_writeset_to_genesis,
    {
        Config {
            project_name: name,
            home,
            workspace: Workspace::default(),
            compile: Compile::default(),
            tx,
            storage: Storage::default(),
        }
    }

    /// The configuration read from the file under `home`, with its home replaced
    /// by `home`: the path stored in the file is not trusted once a project moves.
    pub fn load_config(stored: Config, home: String) -> (r: Config)
        ensures
            r.home == home,
            r == (Config { home, ..stored }),
    {
        let mut cfg = stored;
        cfg.home = home;
        cfg
    }

    /// The directories that initialising the project creates (home, modules,
    /// scripts, target, tests) and the file that receives the configuration.
    pub fn initial(&self) -> (r: InitPlan)
        ensures
            r.dirs@.len() == 5,
            r.dirs@[0]@ == self.home@,
            r.dirs@[1]@ == self.module_dir_of(),
            r.dirs@[2]@ == self.script_dir_of(),
            r.dirs@[3]@ == self.target_dir_of(),
            r.dirs@[4]@ == self.test_dir_of(),
            r.config_file@ == self.config_file_of(),
    {
        let mut dirs: Vec<String> = Vec::new();
        dirs.push(self.home.clone());
        dirs.push(self.module_dir());
        dirs.push(self.script_dir());
        dirs.push(self.target_dir());
        dirs.push(self.test_dir());
        let config_file = join_path(self.home.as_str(), "Move.toml");
        proof {
            reveal_strlit("Move.toml");
        }
        InitPlan { dirs, config_file }
    }

    pub fn module_dir(&self) -> (r: String)
        ensures
            r@ == self.module_dir_of(),
    {
        join_path(self.home.as_str(), self.workspace.module_dir.as_str())
    }

    pub fn script_dir(&self) -> (r: String)
        ensures
            r@ == self.script_dir_of(),
    {
        join_path(self.home.as_str(), self.workspace.script_dir.as_str())
    }

    pub fn test_dir(&self) -> (r: String)
        ensures
            r@ == self.test_dir_of(),
    {
        join_path(self.home.as_str(), self.workspace.test_dir.as_str())
    }

    pub fn target_dir(&self) -> (r: String)
        ensures
            r@ == self.target_dir_of(),
    {
        join_path(self.home.as_str(), self.workspace.target_dir.as_str())
    }

    pub fn address(&self) -> (r: AccountAddress)
        ensures
            r == self.tx.address,
    {
        self.tx.address
    }
}

} // verus!
