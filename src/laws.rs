use vstd::prelude::*;

use crate::config::Config;
use crate::runner::{
    artifacts_view, deps_present, first_missing, library_keys, CompiledModule, ModuleKey, MoveRunner,
};
use crate::session::{after_modules_step, fails, fresh_runner, unchanged_runner, module_step, stepped, Action, Event, Phase, Session};
use crate::store::{apply_op, apply_ops, AccessPath, StateKey, WriteOp};

verus! {

/// Each module of `us` uses only modules of `lib` or modules that come before it in `us`.
pub open spec fn dependency_ordered(lib: Seq<ModuleKey>, us: Seq<CompiledModule>) -> bool {
    forall|i: int, k: int|
        0 <= i < us.len() && 0 <= k < us[i].deps@.len() ==> lib.contains(#[trigger] us[i].deps@[k].key())
            || exists|j: int| 0 <= j < i && #[trigger] us[j].id.key() == us[i].deps@[k].key()
}

/// Compiling modules in an order in which each one's dependencies come first
/// (or are in the library from the start) accepts every module: when a module's
/// turn comes, the library holds everything it uses.
pub proof fn dependency_order_compiles(lib: Seq<ModuleKey>, us: Seq<CompiledModule>)
    requires
        dependency_ordered(lib, us),
    ensures
        forall|i: int|
            0 <= i < us.len() ==> deps_present(
                lib + library_keys(#[trigger] us.subrange(0, i)),
                us[i].deps@,
            ),
{
    assert forall|i: int| 0 <= i < us.len() implies deps_present(
        lib + library_keys(#[trigger] us.subrange(0, i)),
        us[i].deps@,
    ) by {
        let acc = lib + library_keys(us.subrange(0, i));
        assert forall|k: int| 0 <= k < us[i].deps@.len() implies acc.contains(
            #[trigger] us[i].deps@[k].key(),
        ) by {
            let d = us[i].deps@[k].key();
            if lib.contains(d) {
                let p = choose|p: int| 0 <= p < lib.len() && lib[p] == d;
                assert(acc[p] == d);
            } else {
                let j = choose|j: int| 0 <= j < i && #[trigger] us[j].id.key() == d;
                assert(library_keys(us.subrange(0, i))[j] == us[j].id.key());
                assert(acc[lib.len() + j] == d);
            }
        }
    }
}

/// A module that uses a module the library does not hold is refused, whatever
/// comes after it: the check looks only at what was compiled before.
pub proof fn forward_reference_fails(lib: Seq<CompiledModule>, m: CompiledModule, k: int)
    requires
        0 <= k < m.deps@.len(),
        !library_keys(lib).contains(m.deps@[k].key()),
    ensures
        first_missing(library_keys(lib), m.deps@) >= 0,
        !deps_present(library_keys(lib), m.deps@),
{
    crate::runner::lemma_first_missing(library_keys(lib), m.deps@);
}

/// The write set writes or deletes the state at `k`.
pub open spec fn touches(ops: Seq<(AccessPath, WriteOp)>, k: StateKey) -> bool {
    exists|i: int| 0 <= i < ops.len() && #[trigger] ops[i].0.key() == k
}

proof fn lemma_untouched(m: Map<StateKey, Seq<u8>>, ops: Seq<(AccessPath, WriteOp)>, k: StateKey)
    requires
        !touches(ops, k),
    ensures
        apply_ops(m, ops).contains_key(k) == m.contains_key(k),
        m.contains_key(k) ==> apply_ops(m, ops)[k] == m[k],
    decreases ops.len(),
{
    if ops.len() > 0 {
        let rest = ops.drop_last();
        assert(!touches(rest, k)) by {
            if touches(rest, k) {
                let i = choose|i: int| 0 <= i < rest.len() && #[trigger] rest[i].0.key() == k;
                assert(ops[i] == rest[i]);
            }
        }
        lemma_untouched(m, rest, k);
        assert(ops.last().0.key() != k) by {
            if ops.last().0.key() == k {
                assert(ops[ops.len() - 1].0.key() == k);
            }
        }
    }
}

proof fn lemma_touched(
    m1: Map<StateKey, Seq<u8>>,
    m2: Map<StateKey, Seq<u8>>,
    ops: Seq<(AccessPath, WriteOp)>,
    k: StateKey,
)
    requires
        touches(ops, k),
    ensures
        apply_ops(m1, ops).contains_key(k) == apply_ops(m2, ops).contains_key(k),
        apply_ops(m1, ops).contains_key(k) ==> apply_ops(m1, ops)[k] == apply_ops(m2, ops)[k],
    decreases ops.len(),
{
    let rest = ops.drop_last();
    let last = ops.last();
    if last.0.key() != k {
        assert(touches(rest, k)) by {
            let i = choose|i: int| 0 <= i < ops.len() && #[trigger] ops[i].0.key() == k;
            assert(i != ops.len() - 1);
            assert(rest[i] == ops[i]);
        }
        lemma_touched(m1, m2, rest, k);
    }
}

/// Replaying a write set: on two stores that agree everywhere the write set
/// does not reach (two stores seeded the same way, in particular), it leaves
/// the same contents.
pub proof fn write_set_replay(m1: Map<StateKey, Seq<u8>>, m2: Map<StateKey, Seq<u8>>, ops: Seq<(AccessPath, WriteOp)>)
    requires
        forall|k: StateKey|
            !touches(ops, k) ==> (#[trigger] m1.contains_key(k) == m2.contains_key(k) && (m1.contains_key(k)
                ==> m1[k] == m2[k])),
    ensures
        apply_ops(m1, ops) == apply_ops(m2, ops),
{
    let a = apply_ops(m1, ops);
    let b = apply_ops(m2, ops);
    assert forall|k: StateKey| #[trigger] a.contains_key(k) == b.contains_key(k) && (a.contains_key(k) ==> a[k]
        == b[k]) by {
        if touches(ops, k) {
            lemma_touched(m1, m2, ops, k);
        } else {
            lemma_untouched(m1, ops, k);
            lemma_untouched(m2, ops, k);
            assert(m1.contains_key(k) == m2.contains_key(k));
        }
    }
    assert(a =~= b);
}

/// Two invocations on the same configuration file and standard library start
/// from the same runner state.
pub proof fn invocations_start_alike(
    r1: Option<MoveRunner>,
    r2: Option<MoveRunner>,
    cfg: Config,
    stdlib: Seq<CompiledModule>,
    home: String,
)
    requires
        fresh_runner(r1, cfg, stdlib, home),
        fresh_runner(r2, cfg, stdlib, home),
    ensures
        r1 matches Some(x) && r2 matches Some(y) && x.cfg == y.cfg && x.library@ == y.library@
            && x.datastore@ == y.datastore@,
{
}

/// From the same runner state, compiling the same module at the same listing
/// position writes the same artifacts and leads to the same state and the same
/// next phase again: a build run twice on an unchanged tree writes the same files.
pub proof fn module_step_repeats(
    before1: Option<MoveRunner>,
    before2: Option<MoveRunner>,
    after1: Session,
    after2: Session,
    paths: Vec<String>,
    n: int,
    compiled: Result<CompiledModule, String>,
    a1: Action,
    a2: Action,
)
    requires
        before1 matches Some(x) && before2 matches Some(y) && x.cfg == y.cfg && x.library@ == y.library@
            && x.datastore@ == y.datastore@,
        after1.params == after2.params,
        module_step(before1, after1, paths, n, compiled, a1),
        module_step(before2, after2, paths, n, compiled, a2),
    ensures
        artifacts_view(a1.writes@) == artifacts_view(a2.writes@),
        after1.runner matches Some(x) && after2.runner matches Some(y) && x.cfg == y.cfg && x.library@
            == y.library@ && x.datastore@ == y.datastore@,
        after1.phase is CompilingModules ==> after1.phase == after2.phase,
{
}

/// Where a test run over `paths` can stand: compiling or running script `n`
/// with one result recorded for each earlier script, or over with one result
/// for every script; the results name the scripts in listing order, and while
/// the run lasts the runner (library and data store) is the one it began with.
pub open spec fn test_run_state(s: Session, paths: Vec<String>, runner: Option<MoveRunner>) -> bool {
    &&& match s.phase {
        Phase::CompilingTests(p, n) => p == paths && n < paths@.len() && s.report.results@.len() == n
            && s.runner == runner,
        Phase::RunningTests(p, n) => p == paths && n < paths@.len() && s.report.results@.len() == n
            && s.runner == runner,
        Phase::Finished => s.report.results@.len() == paths@.len(),
        _ => false,
    }
    &&& forall|j: int| 0 <= j < s.report.results@.len() ==> (#[trigger] s.report.results@[j]).0 == paths@[j]
}

/// A test run: from the first test script on, each step hands the session the
/// outcome it waits for (a compilation while compiling, an execution while
/// running). However many scripts fail to compile or to run, the run never
/// stops early: it is over only once every script has a result, recorded in
/// listing order, and every script runs against the same data store.
pub proof fn test_run_covers_all(ss: Seq<Session>, es: Seq<Event>, acts: Seq<Action>, paths: Vec<String>)
    requires
        ss.len() == es.len() + 1,
        acts.len() == es.len(),
        ss[0].well_formed(),
        ss[0].phase == Phase::CompilingTests(paths, 0),
        forall|i: int| 0 <= i < es.len() ==> #[trigger] stepped(ss[i], es[i], ss[i + 1], acts[i]),
        forall|i: int|
            0 <= i < es.len() ==> (ss[i].phase is CompilingTests ==> #[trigger] es[i] is ScriptCompiled) && (
            ss[i].phase is RunningTests ==> es[i] is Executed),
    ensures
        forall|i: int| 0 <= i < ss.len() ==> test_run_state(#[trigger] ss[i], paths, ss[0].runner),
{
    let r0 = ss[0].runner;
    assert forall|i: int| 0 <= i < ss.len() implies test_run_state(#[trigger] ss[i], paths, r0) by {
        lemma_test_run_prefix(ss, es, acts, paths, i);
    }
}

proof fn lemma_test_run_prefix(ss: Seq<Session>, es: Seq<Event>, acts: Seq<Action>, paths: Vec<String>, i: int)
    requires
        ss.len() == es.len() + 1,
        acts.len() == es.len(),
        ss[0].well_formed(),
        ss[0].phase == Phase::CompilingTests(paths, 0),
        forall|k: int| 0 <= k < es.len() ==> #[trigger] stepped(ss[k], es[k], ss[k + 1], acts[k]),
        forall|k: int|
            0 <= k < es.len() ==> (ss[k].phase is CompilingTests ==> #[trigger] es[k] is ScriptCompiled) && (
            ss[k].phase is RunningTests ==> es[k] is Executed),
        0 <= i < ss.len(),
    ensures
        test_run_state(ss[i], paths, ss[0].runner),
    decreases i,
{
    assert(paths@.len() == paths.len());
    if i == 0 {
        assert(ss[0].report.results@.len() == 0);
    } else {
        lemma_test_run_prefix(ss, es, acts, paths, i - 1);
        let k = i - 1;
        assert(stepped(ss[k], es[k], ss[k + 1], acts[k]));
        assert(k + 1 == i);
        let s0 = ss[k];
        let s1 = ss[i];
        let before = s0.report.results@;
        let after = s1.report.results@;
        match s0.phase {
            Phase::CompilingTests(p, n) => {
                assert(es[i - 1] is ScriptCompiled);
                if after.len() != before.len() {
                    assert(after == before.push((paths@[n as int], false)));
                    assert forall|j: int| 0 <= j < after.len() implies (#[trigger] after[j]).0 == paths@[j] by {
                        if j < before.len() {
                            assert(after[j] == before[j]);
                        }
                    }
                }
            },
            Phase::RunningTests(p, n) => {
                assert(es[i - 1] is Executed);
                let ok = es[i - 1]->Executed_0 is Ok;
                assert(after == before.push((paths@[n as int], ok)));
                assert forall|j: int| 0 <= j < after.len() implies (#[trigger] after[j]).0 == paths@[j] by {
                    if j < before.len() {
                        assert(after[j] == before[j]);
                    }
                }
            },
            _ => {},
        }
    }
}

/// After `i` steps of a build over `paths`: the library is `lib` followed by
/// the first `i` compiled modules, and until the last the next module of the
/// listing is being compiled.
pub open spec fn build_state(s: Session, paths: Vec<String>, lib: Seq<CompiledModule>, ms: Seq<CompiledModule>, i: int) -> bool {
    &&& s.runner matches Some(y) && y.library@ == lib + ms.subrange(0, i)
    &&& i < paths@.len() ==> s.phase == Phase::CompilingModules(paths, i as usize)
}

/// A build's modules, listed as `paths` and compiled to `ms`, come in an order
/// in which each one's dependencies come first (or are in the library `lib`
/// from the start), and each step hands the session the next compiled module.
/// Then every module compiles, in listing order: after `i` steps the library
/// is `lib` followed by the first `i` modules and, until the last, the next
/// module of the listing is compiled; after the last, what follows the modules
/// comes.
pub proof fn ordered_build_compiles_all(
    ss: Seq<Session>,
    es: Seq<Event>,
    acts: Seq<Action>,
    paths: Vec<String>,
    lib: Seq<CompiledModule>,
    ms: Seq<CompiledModule>,
)
    requires
        ss.len() == es.len() + 1,
        acts.len() == es.len(),
        ms.len() == paths@.len(),
        es.len() <= paths@.len(),
        ss[0].phase == Phase::CompilingModules(paths, 0),
        ss[0].runner matches Some(x) && x.library@ == lib,
        dependency_ordered(library_keys(lib), ms),
        forall|i: int| 0 <= i < es.len() ==> #[trigger] stepped(ss[i], es[i], ss[i + 1], acts[i]),
        forall|i: int| 0 <= i < es.len() ==> #[trigger] es[i] == Event::ModuleCompiled(Ok(ms[i])),
    ensures
        forall|i: int| 0 <= i < ss.len() ==> build_state(#[trigger] ss[i], paths, lib, ms, i),
        es.len() == paths@.len() && es.len() > 0 ==> after_modules_step(ss[es.len() as int], acts[es.len() - 1]),
{
    dependency_order_compiles(library_keys(lib), ms);
    assert(paths@.len() == paths.len());
    assert forall|i: int| 0 <= i < ss.len() implies build_state(#[trigger] ss[i], paths, lib, ms, i) by {
        lemma_build_prefix(ss, es, acts, paths, lib, ms, i);
    }
    if es.len() == paths@.len() && es.len() > 0 {
        let k = es.len() - 1;
        lemma_build_prefix(ss, es, acts, paths, lib, ms, k);
        assert(stepped(ss[k], es[k], ss[k + 1], acts[k]));
        lemma_keys_concat(lib, ms.subrange(0, k));
        assert(ss[k].phase == Phase::CompilingModules(paths, k as usize));
    }
}

proof fn lemma_keys_concat(a: Seq<CompiledModule>, b: Seq<CompiledModule>)
    ensures
        library_keys(a + b) == library_keys(a) + library_keys(b),
{
    assert(library_keys(a + b) =~= library_keys(a) + library_keys(b));
}

proof fn lemma_build_prefix(
    ss: Seq<Session>,
    es: Seq<Event>,
    acts: Seq<Action>,
    paths: Vec<String>,
    lib: Seq<CompiledModule>,
    ms: Seq<CompiledModule>,
    i: int,
)
    requires
        ss.len() == es.len() + 1,
        acts.len() == es.len(),
        ms.len() == paths@.len(),
        es.len() <= paths@.len(),
        ss[0].phase == Phase::CompilingModules(paths, 0),
        ss[0].runner matches Some(x) && x.library@ == lib,
        forall|k: int|
            0 <= k < ms.len() ==> deps_present(
                library_keys(lib) + library_keys(#[trigger] ms.subrange(0, k)),
                ms[k].deps@,
            ),
        forall|k: int| 0 <= k < es.len() ==> #[trigger] stepped(ss[k], es[k], ss[k + 1], acts[k]),
        forall|k: int| 0 <= k < es.len() ==> #[trigger] es[k] == Event::ModuleCompiled(Ok(ms[k])),
        0 <= i < ss.len(),
    ensures
        build_state(ss[i], paths, lib, ms, i),
    decreases i,
{
    assert(paths@.len() == paths.len());
    if i == 0 {
        assert(lib + ms.subrange(0, 0) =~= lib);
    } else {
        let k = i - 1;
        lemma_build_prefix(ss, es, acts, paths, lib, ms, k);
        assert(stepped(ss[k], es[k], ss[k + 1], acts[k]));
        assert(es[k] == Event::ModuleCompiled(Ok(ms[k])));
        lemma_keys_concat(lib, ms.subrange(0, k));
        assert(deps_present(library_keys(lib) + library_keys(ms.subrange(0, k)), ms[k].deps@));
        assert((lib + ms.subrange(0, k)).push(ms[k]) =~= lib + ms.subrange(0, i));
    }
}

/// During a build, a module that uses a module the library does not hold yet
/// ends the command at that file: nothing more is compiled, nothing is written,
/// and the library and the data store stay as they were, whatever comes later
/// in the listing.
pub proof fn build_stops_at_forward_reference(s0: Session, s1: Session, a: Action, m: CompiledModule, k: int)
    requires
        s0.phase is CompilingModules,
        s0.runner matches Some(x) && 0 <= k < m.deps@.len() && !x.library_view().contains(m.deps@[k].key()),
        stepped(s0, Event::ModuleCompiled(Ok(m)), s1, a),
    ensures
        fails(s1, a),
        unchanged_runner(s0.runner, s1.runner),
{
    let x = s0.runner->Some_0;
    forward_reference_fails(x.library@, m, k);
}

} // verus!
