use vstd::prelude::*;

use crate::config::AccountAddress;

verus! {

/// Where a value lives in ledger state: an account and a path under it.
#[derive(Clone, Debug)]
pub struct AccessPath {
    pub address: AccountAddress,
    pub path: Vec<u8>,
}

/// The key of an access path in the model of the store.
pub type StateKey = (u128, Seq<u8>);

impl AccessPath {
    pub open spec fn key(&self) -> StateKey {
        (self.address.value, self.path@)
    }
}

/// What one entry of a write set does to the state at its path.
#[derive(Clone, Debug)]
pub enum WriteOp {
    Deletion,
    Value(Vec<u8>),
}

/// The ordered state changes of one execution.
#[derive(Clone, Debug)]
pub struct WriteSet {
    pub ops: Vec<(AccessPath, WriteOp)>,
}

/// What a write operation leaves at its path: nothing, or the bytes.
pub open spec fn op_view(op: WriteOp) -> Option<Seq<u8>> {
    match op {
        WriteOp::Deletion => None,
        WriteOp::Value(v) => Some(v@),
    }
}

impl WriteSet {
    /// The operations, as keys and what each leaves.
    pub open spec fn view_ops(&self) -> Seq<(StateKey, Option<Seq<u8>>)> {
        self.ops@.map_values(|e: (AccessPath, WriteOp)| (e.0.key(), op_view(e.1)))
    }

    /// A copy of the write set.
    pub fn copy(&self) -> (r: WriteSet)
        ensures
            r.view_ops() == self.view_ops(),
    {
        let mut ops: Vec<(AccessPath, WriteOp)> = Vec::new();
        let mut i: usize = 0;
        while i < self.ops.len()
            invariant
                i <= self.ops@.len(),
                ops@.len() == i,
                forall|j: int|
                    0 <= j < i ==> (#[trigger] ops@[j]).0.key() == self.ops@[j].0.key() && op_view(ops@[j].1)
                        == op_view(self.ops@[j].1),
            decreases self.ops@.len() - i,
        {
            let e = &self.ops[i];
            let op = match &e.1 {
                WriteOp::Deletion => WriteOp::Deletion,
                WriteOp::Value(v) => WriteOp::Value(copy_bytes(v)),
            };
            ops.push((copy_path(&e.0), op));
            i = i + 1;
        }
        let r = WriteSet { ops };
        assert(r.view_ops() =~= self.view_ops());
        r
    }
}

/// State after one write operation.
pub open spec fn apply_op(m: Map<StateKey, Seq<u8>>, k: StateKey, op: WriteOp) -> Map<StateKey, Seq<u8>> {
    match op {
        WriteOp::Deletion => m.remove(k),
        WriteOp::Value(v) => m.insert(k, v@),
    }
}

/// State after the operations of `ops`, applied in order.
pub open spec fn apply_ops(m: Map<StateKey, Seq<u8>>, ops: Seq<(AccessPath, WriteOp)>) -> Map<StateKey, Seq<u8>>
    decreases ops.len(),
{
    if ops.len() == 0 {
        m
    } else {
        let last = ops.last();
        apply_op(apply_ops(m, ops.drop_last()), last.0.key(), last.1)
    }
}

/// Two sequences of bytes hold the same bytes.
pub fn bytes_equal(a: &Vec<u8>, b: &Vec<u8>) -> (r: bool)
    ensures
        r == (a@ == b@),
{
    if a.len() != b.len() {
        return false;
    }
    let mut i: usize = 0;
    while i < a.len()
        invariant
            a@.len() == b@.len(),
            i <= a@.len(),
            forall|j: int| 0 <= j < i ==> a@[j] == b@[j],
        decreases a@.len() - i,
    {
        if a[i] != b[i] {
            return false;
        }
        i = i + 1;
    }
    assert(a@ =~= b@);
    true
}

/// A copy of a sequence of bytes.
pub fn copy_bytes(a: &Vec<u8>) -> (r: Vec<u8>)
    ensures
        r@ == a@,
{
    let mut r: Vec<u8> = Vec::new();
    let mut i: usize = 0;
    while i < a.len()
        invariant
            i <= a@.len(),
            r@ == a@.subrange(0, i as int),
        decreases a@.len() - i,
    {
        r.push(a[i]);
        i = i + 1;
    }
    assert(r@ =~= a@);
    r
}

/// A copy of an access path.
pub fn copy_path(p: &AccessPath) -> (r: AccessPath)
    ensures
        r.key() == p.key(),
{
    AccessPath { address: p.address, path: copy_bytes(&p.path) }
}

/// No two entries share an access path.
pub open spec fn unique_keys(es: Seq<(AccessPath, Vec<u8>)>) -> bool {
    forall|i: int, j: int|
        0 <= i < j < es.len() ==> #[trigger] es[i].0.key() != #[trigger] es[j].0.key()
}

/// The state that a list of entries holds.
pub open spec fn entries_map(es: Seq<(AccessPath, Vec<u8>)>) -> Map<StateKey, Seq<u8>> {
    Map::new(
        |k: StateKey| exists|i: int| 0 <= i < es.len() && #[trigger] es[i].0.key() == k,
        |k: StateKey| es[choose|i: int| 0 <= i < es.len() && #[trigger] es[i].0.key() == k].1@,
    )
}

proof fn lemma_entries_at(es: Seq<(AccessPath, Vec<u8>)>, i: int)
    requires
        unique_keys(es),
        0 <= i < es.len(),
    ensures
        entries_map(es).contains_key(es[i].0.key()),
        entries_map(es)[es[i].0.key()] == es[i].1@,
{
    let k = es[i].0.key();
    assert(exists|j: int| 0 <= j < es.len() && #[trigger] es[j].0.key() == k);
    let c = choose|j: int| 0 <= j < es.len() && #[trigger] es[j].0.key() == k;
    if c < i {
        assert(es[c].0.key() != es[i].0.key());
    } else if c > i {
        assert(es[i].0.key() != es[c].0.key());
    }
}

/// The entries after position `i` is given `e`, whose key is that of the entry it replaces
/// or of none.
proof fn lemma_entries_update(es: Seq<(AccessPath, Vec<u8>)>, ns: Seq<(AccessPath, Vec<u8>)>, i: int)
    requires
        unique_keys(es),
        0 <= i < ns.len(),
        ns.len() == es.len() || ns.len() == es.len() + 1,
        ns.len() == es.len() ==> es[i].0.key() == ns[i].0.key(),
        ns.len() == es.len() + 1 ==> i == es.len() && !entries_map(es).contains_key(ns[i].0.key()),
        forall|j: int| 0 <= j < es.len() && j != i ==> ns[j] == es[j],
    ensures
        unique_keys(ns),
        entries_map(ns) == entries_map(es).insert(ns[i].0.key(), ns[i].1@),
{
    let k = ns[i].0.key();
    assert forall|a: int, b: int| 0 <= a < b < ns.len() implies #[trigger] ns[a].0.key()
        != #[trigger] ns[b].0.key() by {
        if a != i && b != i {
            assert(es[a].0.key() != es[b].0.key());
        } else if a == i {
            assert(ns[b] == es[b]);
            if ns.len() == es.len() {
                assert(es[a].0.key() != es[b].0.key());
            }
        } else {
            assert(ns[a] == es[a]);
            if ns.len() == es.len() {
                assert(es[a].0.key() != es[b].0.key());
            } else {
                assert(es[a].0.key() == ns[a].0.key());
                if ns[a].0.key() == k {
                    assert(entries_map(es).contains_key(k));
                }
            }
        }
    }
    let m = entries_map(es).insert(k, ns[i].1@);
    assert forall|q: StateKey| #[trigger] entries_map(ns).contains_key(q) <==> m.contains_key(q) by {
        if entries_map(ns).contains_key(q) {
            let j = choose|j: int| 0 <= j < ns.len() && #[trigger] ns[j].0.key() == q;
            if j != i {
                assert(es[j].0.key() == q);
            }
        }
        if entries_map(es).contains_key(q) {
            let j = choose|j: int| 0 <= j < es.len() && #[trigger] es[j].0.key() == q;
            if j != i {
                assert(ns[j].0.key() == q);
            } else {
                assert(ns[i].0.key() == q);
            }
        }
        if q == k {
            assert(ns[i].0.key() == q);
        }
    }
    assert forall|q: StateKey| #[trigger] entries_map(ns).contains_key(q) implies entries_map(ns)[q]
        == m[q] by {
        let j = choose|j: int| 0 <= j < ns.len() && #[trigger] ns[j].0.key() == q;
        lemma_entries_at(ns, j);
        if j != i {
            assert(ns[j] == es[j]);
            lemma_entries_at(es, j);
        }
    }
    assert(entries_map(ns) =~= m);
}

/// The entries with the one at position `i` taken out.
proof fn lemma_entries_remove(es: Seq<(AccessPath, Vec<u8>)>, i: int)
    requires
        unique_keys(es),
        0 <= i < es.len(),
    ensures
        unique_keys(es.remove(i)),
        entries_map(es.remove(i)) == entries_map(es).remove(es[i].0.key()),
{
    let ns = es.remove(i);
    let k = es[i].0.key();
    assert forall|a: int, b: int| 0 <= a < b < ns.len() implies #[trigger] ns[a].0.key()
        != #[trigger] ns[b].0.key() by {
        let a2 = if a < i { a } else { a + 1 };
        let b2 = if b < i { b } else { b + 1 };
        assert(ns[a] == es[a2] && ns[b] == es[b2]);
        assert(es[a2].0.key() != es[b2].0.key());
    }
    let m = entries_map(es).remove(k);
    assert forall|q: StateKey| #[trigger] entries_map(ns).contains_key(q) <==> m.contains_key(q) by {
        if entries_map(ns).contains_key(q) {
            let j = choose|j: int| 0 <= j < ns.len() && #[trigger] ns[j].0.key() == q;
            let j2 = if j < i { j } else { j + 1 };
            assert(es[j2].0.key() == q);
            assert(es[j2].0.key() != k) by {
                if j2 < i {
                    assert(es[j2].0.key() != es[i].0.key());
                } else {
                    assert(es[i].0.key() != es[j2].0.key());
                }
            }
        }
        if m.contains_key(q) {
            let j = choose|j: int| 0 <= j < es.len() && #[trigger] es[j].0.key() == q;
            assert(j != i);
            let j2 = if j < i { j } else { j - 1 };
            assert(ns[j2].0.key() == q);
        }
    }
    assert forall|q: StateKey| #[trigger] entries_map(ns).contains_key(q) implies entries_map(ns)[q]
        == m[q] by {
        let j = choose|j: int| 0 <= j < ns.len() && #[trigger] ns[j].0.key() == q;
        lemma_entries_at(ns, j);
        let j2 = if j < i { j } else { j + 1 };
        assert(ns[j] == es[j2]);
        lemma_entries_at(es, j2);
    }
    assert(entries_map(ns) =~= m);
}

/// The simulated ledger state of one command invocation: at most one value
/// per access path.
#[derive(Clone, Debug)]
pub struct DataStore {
    entries: Vec<(AccessPath, Vec<u8>)>,
}

impl View for DataStore {
    type V = Map<StateKey, Seq<u8>>;

    closed spec fn view(&self) -> Map<StateKey, Seq<u8>> {
        entries_map(self.entries@)
    }
}

impl DataStore {
    /// No two entries share an access path.
    pub closed spec fn well_formed(&self) -> bool {
        unique_keys(self.entries@)
    }

    /// An empty store.
    pub fn new() -> (r: DataStore)
        ensures
            r.well_formed(),
            r@ == Map::<StateKey, Seq<u8>>::empty(),
    {
        let r = DataStore { entries: Vec::new() };
        assert(r@ =~= Map::<StateKey, Seq<u8>>::empty());
        r
    }

    /// Position of the entry at `p`, if any.
    fn find(&self, p: &AccessPath) -> (r: Option<usize>)
        requires
            self.well_formed(),
        ensures
            match r {
                Some(i) => i < self.entries@.len() && self.entries@[i as int].0.key() == p.key(),
                None => !self@.contains_key(p.key()),
            },
    {
        let mut i: usize = 0;
        while i < self.entries.len()
            invariant
                i <= self.entries@.len(),
                forall|j: int| 0 <= j < i ==> #[trigger] self.entries@[j].0.key() != p.key(),
            decreases self.entries@.len() - i,
        {
            let e = &self.entries[i];
            if e.0.address == p.address && bytes_equal(&e.0.path, &p.path) {
                return Some(i);
            }
            i = i + 1;
        }
        None
    }

    /// The value stored at `p`.
    pub fn get(&self, p: &AccessPath) -> (r: Option<Vec<u8>>)
        requires
            self.well_formed(),
        ensures
            match r {
                Some(v) => self@.contains_key(p.key()) && self@[p.key()] == v@,
                None => !self@.contains_key(p.key()),
            },
    {
        match self.find(p) {
            Some(i) => {
                proof {
                    lemma_entries_at(self.entries@, i as int);
                }
                Some(copy_bytes(&self.entries[i].1))
            },
            None => None,
        }
    }

    /// Stores `value` at `p`, replacing what was there.
    pub fn set(&mut self, p: &AccessPath, value: &Vec<u8>)
        requires
            old(self).well_formed(),
        ensures
            final(self).well_formed(),
            final(self)@ == old(self)@.insert(p.key(), value@),
    {
        let ghost before = self.entries@;
        match self.find(p) {
            Some(i) => {
                self.entries.set(i, (copy_path(p), copy_bytes(value)));
                proof {
                    lemma_entries_update(before, self.entries@, i as int);
                }
            },
            None => {
                self.entries.push((copy_path(p), copy_bytes(value)));
                proof {
                    lemma_entries_update(before, self.entries@, before.len() as int);
                }
            },
        }
    }

    /// Removes what is stored at `p`, if anything.
    pub fn remove(&mut self, p: &AccessPath)
        requires
            old(self).well_formed(),
        ensures
            final(self).well_formed(),
            final(self)@ == old(self)@.remove(p.key()),
    {
        let ghost before = self.entries@;
        match self.find(p) {
            Some(i) => {
                self.entries.remove(i);
                proof {
                    lemma_entries_remove(before, i as int);
                }
            },
            None => {
                assert(before == self.entries@);
                assert(self@ =~= entries_map(before).remove(p.key()));
            },
        }
    }

    /// Applies one write operation.
    pub fn apply(&mut self, p: &AccessPath, op: &WriteOp)
        requires
            old(self).well_formed(),
        ensures
            final(self).well_formed(),
            final(self)@ == apply_op(old(self)@, p.key(), *op),
    {
        match op {
            WriteOp::Deletion => self.remove(p),
            WriteOp::Value(v) => self.set(p, v),
        }
    }

    /// Applies the operations of a write set, in order.
    pub fn add_write_set(&mut self, ws: &WriteSet)
        requires
            old(self).well_formed(),
        ensures
            final(self).well_formed(),
            final(self)@ == apply_ops(old(self)@, ws.ops@),
    {
        let ghost start = self@;
        let mut i: usize = 0;
        while i < ws.ops.len()
            invariant
                self.well_formed(),
                i <= ws.ops@.len(),
                self@ == apply_ops(start, ws.ops@.subrange(0, i as int)),
            decreases ws.ops@.len() - i,
        {
            let e = &ws.ops[i];
            self.apply(&e.0, &e.1);
            proof {
                let s = ws.ops@.subrange(0, i + 1);
                assert(s.drop_last() =~= ws.ops@.subrange(0, i as int));
            }
            i = i + 1;
        }
        assert(ws.ops@.subrange(0, ws.ops@.len() as int) =~= ws.ops@);
    }

    /// Publishes a module's code at its access path.
    pub fn add_module(&mut self, code_path: &AccessPath, bytecode: &Vec<u8>)
        requires
            old(self).well_formed(),
        ensures
            final(self).well_formed(),
            final(self)@ == old(self)@.insert(code_path.key(), bytecode@),
    {
        self.set(code_path, bytecode)
    }
}

} // verus!
