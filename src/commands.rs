use vstd::prelude::*;

use crate::report::TestReport;
use crate::session::{failed, Action, Outcome, Parameter, Phase, Request, Session, SessionError};

verus! {

/// The session began as `Session::start` begins it.
pub open spec fn started(params: Parameter, r: (Session, Action)) -> bool {
    &&& r.0.well_formed()
    &&& r.0.params == params
    &&& r.0.runner is None
    &&& r.0.report.results@.len() == 0
    &&& params is New ==> r.0.phase is AwaitIdentity && r.1.request is GenerateIdentity
    &&& !(params is New) ==> r.0.phase is AwaitConfig && r.1.request == Request::LoadConfig(
        params.home_of(),
    )
}

/// One of the five commands.
pub trait Command {
    /// The parameters that this command carries out.
    spec fn accepts(&self, params: Parameter) -> bool;

    /// Begins the command's session on `params`; parameters of another command
    /// give a session that is over at once.
    fn execute(&self, params: Parameter) -> (r: (Session, Action))
        ensures
            r.0.well_formed(),
            r.0.params == params,
            self.accepts(params) ==> started(params, r),
            !self.accepts(params) ==> r.0.phase is Finished && failed(r.1) && r.1.writes@.len() == 0,
    ;
}

/// A session that is over because the parameters belong to another command.
fn refused(params: Parameter) -> (r: (Session, Action))
    ensures
        r.0.well_formed(),
        r.0.params == params,
        r.0.phase is Finished,
        failed(r.1),
        r.1.writes@.len() == 0,
{
    let s = Session { params, phase: Phase::Finished, runner: None, report: TestReport::new() };
    (s, Action { writes: Vec::new(), request: Request::Finish(Outcome::Failed(SessionError::UnexpectedEvent)) })
}

pub struct NewCommand {}

pub struct BuildCommand {}

pub struct CompileCommand {}

pub struct RunCommand {}

pub struct TestCommand {}

impl Command for NewCommand {
    open spec fn accepts(&self, params: Parameter) -> bool {
        params is New
    }

    fn execute(&self, params: Parameter) -> (r: (Session, Action)) {
        if let Parameter::New { .. } = &params {
            Session::start(params)
        } else {
            refused(params)
        }
    }
}

impl Command for BuildCommand {
    open spec fn accepts(&self, params: Parameter) -> bool {
        params is Build
    }

    fn execute(&self, params: Parameter) -> (r: (Session, Action)) {
        if let Parameter::Build { .. } = &params {
            Session::start(params)
        } else {
            refused(params)
        }
    }
}

impl Command for CompileCommand {
    open spec fn accepts(&self, params: Parameter) -> bool {
        params is Compile
    }

    fn execute(&self, params: Parameter) -> (r: (Session, Action)) {
        if let Parameter::Compile { .. } = &params {
            Session::start(params)
        } else {
            refused(params)
        }
    }
}

impl Command for RunCommand {
    open spec fn accepts(&self, params: Parameter) -> bool {
        params is Run
    }

    fn execute(&self, params: Parameter) -> (r: (Session, Action)) {
        if let Parameter::Run { .. } = &params {
            Session::start(params)
        } else {
            refused(params)
        }
    }
}

impl Command for TestCommand {
    open spec fn accepts(&self, params: Parameter) -> bool {
        params is Test
    }

    fn execute(&self, params: Parameter) -> (r: (Session, Action)) {
        if let Parameter::Test { .. } = &params {
            Session::start(params)
        } else {
            refused(params)
        }
    }
}

pub fn new_command() -> (r: NewCommand) {
    NewCommand {}
}

pub fn compile_command() -> (r: CompileCommand) {
    CompileCommand {}
}

pub fn build_command() -> (r: BuildCommand) {
    BuildCommand {}
}

pub fn run_command() -> (r: RunCommand) {
    RunCommand {}
}

pub fn test_command() -> (r: TestCommand) {
    TestCommand {}
}

/// Hands the parameters to the command that they name and begins its session.
pub fn execute(params: Parameter) -> (r: (Session, Action))
    ensures
        started(params, r),
{
    match &params {
        Parameter::Build { .. } => build_command().execute(params),
        Parameter::Run { .. } => run_command().execute(params),
        Parameter::Compile { .. } => compile_command().execute(params),
        Parameter::New { .. } => new_command().execute(params),
        Parameter::Test { .. } => test_command().execute(params),
    }
}

} // verus!
