//! Functions of a module: their names, the variables they access, the
//! functions they call and their execution modes.
use vstd::prelude::*;

use std::collections::{HashMap, HashSet};

use crate::constant::Constant;
use crate::error::Error;
use crate::ids::{increasing, sort_ids};
use crate::ty::copy::ty_same;
use vstd::std_specs::hash::{spec_hash_keys_iter, spec_keys_iter, spec_values_iter};
use vstd::std_specs::iter::IteratorSpec;
use vstd::multiset::Multiset;

verus! {

broadcast use vstd::std_specs::hash::group_hash_axioms;

/// SPIR-V execution mode.
#[derive(Debug)]
pub struct ExecutionMode {
    /// The execution mode, by its SPIR-V enumerant value.
    pub exec_mode: u32,
    pub operands: Vec<Constant>,
}

/// Function reflection intermediate.
#[derive(Debug)]
pub struct Function {
    pub name: Option<String>,
    pub accessed_vars: HashSet<u32>,
    pub callees: HashSet<u32>,
    pub exec_modes: Vec<ExecutionMode>,
}

/// Two constants hold the same thing: the type compared node by node, the
/// value by what it denotes.
pub open spec fn constant_same(a: Constant, b: Constant) -> bool {
    &&& a.name == b.name
    &&& ty_same(a.ty, b.ty)
    &&& a.value@ == b.value@
    &&& a.spec_id == b.spec_id
}

/// Two execution modes are the same mode with the same operands.
pub open spec fn exec_mode_same(a: ExecutionMode, b: ExecutionMode) -> bool {
    &&& a.exec_mode == b.exec_mode
    &&& a.operands@.len() == b.operands@.len()
    &&& forall|i: int|
        0 <= i < a.operands@.len() ==> constant_same(#[trigger] a.operands@[i], b.operands@[i])
}

/// Two functions record the same name, variables, callees and modes.
pub open spec fn function_same(a: Function, b: Function) -> bool {
    &&& a.name == b.name
    &&& a.accessed_vars@ == b.accessed_vars@
    &&& a.callees@ == b.callees@
    &&& a.exec_modes@.len() == b.exec_modes@.len()
    &&& forall|i: int|
        0 <= i < a.exec_modes@.len() ==> exec_mode_same(
            #[trigger] a.exec_modes@[i],
            b.exec_modes@[i],
        )
}

impl Clone for ExecutionMode {
    fn clone(&self) -> (r: ExecutionMode)
        ensures
            exec_mode_same(r, *self),
    {
        let mut operands: Vec<Constant> = Vec::new();
        let mut i: usize = 0;
        while i < self.operands.len()
            invariant
                i <= self.operands@.len(),
                operands@.len() == i,
                forall|j: int|
                    0 <= j < i ==> constant_same(#[trigger] operands@[j], self.operands@[j]),
            decreases self.operands@.len() - i,
        {
            operands.push(self.operands[i].clone());
            i = i + 1;
        }
        ExecutionMode { exec_mode: self.exec_mode, operands }
    }
}

/// A copy of a set of ids.
fn copy_ids(s: &HashSet<u32>) -> (r: HashSet<u32>)
    ensures
        r@ == s@,
{
    let mut r: HashSet<u32> = HashSet::new();
    let ghost items = spec_hash_keys_iter(s).remaining();
    for x in it: s.iter()
        invariant
            it.seq() == items,
            items.unref().to_set() == s@,
            r@ == it.seq().take(it.index() as int).unref().to_set(),
    {
        let ghost k = it.index();
        let ghost before = it.seq().take(k as int).unref();
        assert(it.seq().take(k + 1).unref() == before.push(*x));
        r.insert(*x);
        assert(before.push(*x).to_set() =~= before.to_set().insert(*x)) by {
            assert forall|y: u32| before.push(*x).contains(y) implies before.contains(y) || y == *x by {
                let j = choose|j: int| 0 <= j < before.len() + 1 && before.push(*x)[j] == y;
                if j < before.len() {
                    assert(before[j] == y);
                }
            }
            assert(before.push(*x)[before.len() as int] == *x);
            assert forall|y: u32| before.contains(y) implies before.push(*x).contains(y) by {
                let j = choose|j: int| 0 <= j < before.len() && before[j] == y;
                assert(before.push(*x)[j] == y);
            }
        }
    }
    assert(items.take(items.len() as int) == items);
    r
}

impl Clone for Function {
    fn clone(&self) -> (r: Function)
        ensures
            function_same(r, *self),
    {
        let name = match &self.name {
            Some(n) => Some(n.clone()),
            None => None,
        };
        let mut exec_modes: Vec<ExecutionMode> = Vec::new();
        let mut i: usize = 0;
        while i < self.exec_modes.len()
            invariant
                i <= self.exec_modes@.len(),
                exec_modes@.len() == i,
                forall|j: int|
                    0 <= j < i ==> exec_mode_same(#[trigger] exec_modes@[j], self.exec_modes@[j]),
            decreases self.exec_modes@.len() - i,
        {
            exec_modes.push(self.exec_modes[i].clone());
            i = i + 1;
        }
        Function {
            name,
            accessed_vars: copy_ids(&self.accessed_vars),
            callees: copy_ids(&self.callees),
            exec_modes,
        }
    }
}

impl Default for Function {
    fn default() -> (r: Function)
        ensures
            r.name is None,
            r.accessed_vars@ == Set::<u32>::empty(),
            r.callees@ == Set::<u32>::empty(),
            r.exec_modes@.len() == 0,
    {
        Function {
            name: None,
            accessed_vars: HashSet::new(),
            callees: HashSet::new(),
            exec_modes: Vec::new(),
        }
    }
}

/// The sum of `w` over the ids of `q`, in order.
pub open spec fn seq_sum(q: Seq<u32>, w: spec_fn(u32) -> Multiset<u32>) -> Multiset<u32>
    decreases q.len(),
{
    if q.len() == 0 {
        Multiset::empty()
    } else {
        seq_sum(q.drop_last(), w).add(w(q.last()))
    }
}

/// The sum of `w` over the ids of the finite set `s`.
pub open spec fn set_sum(s: Set<u32>, w: spec_fn(u32) -> Multiset<u32>) -> Multiset<u32>
    decreases s.len(),
    when s.finite()
{
    if s.len() == 0 {
        Multiset::empty()
    } else {
        w(s.choose()).add(set_sum(s.remove(s.choose()), w))
    }
}

/// What `collect_fn_vars` gathers from the function `func`, counted with
/// repetition: each variable that `func` accesses once, then what is gathered
/// from each function that it calls. Calls are followed to a depth of `depth`
/// functions; nothing is gathered from an id with no function.
pub open spec fn fn_vars(m: Map<u32, Function>, func: u32, depth: nat) -> Multiset<u32>
    decreases depth, 0nat,
{
    if depth == 0 || !m.contains_key(func) {
        Multiset::empty()
    } else {
        set_sum(m[func].accessed_vars@, |v: u32| Multiset::singleton(v)).add(
            callees_vars(m, m[func].callees@, (depth - 1) as nat),
        )
    }
}

/// What is gathered from each function of `callees`, to a depth of `depth`.
pub open spec fn callees_vars(m: Map<u32, Function>, callees: Set<u32>, depth: nat) -> Multiset<
    u32,
>
    decreases depth, callees.len(),
    when callees.finite()
{
    if callees.len() == 0 {
        Multiset::empty()
    } else {
        let c = callees.choose();
        fn_vars(m, c, depth).add(callees_vars(m, callees.remove(c), depth))
    }
}

proof fn lemma_seq_sum_remove(q: Seq<u32>, w: spec_fn(u32) -> Multiset<u32>, j: int)
    requires
        0 <= j < q.len(),
    ensures
        seq_sum(q, w) =~= seq_sum(q.remove(j), w).add(w(q[j])),
    decreases q.len(),
{
    broadcast use vstd::multiset::group_multiset_axioms;

    if j == q.len() - 1 {
        assert(q.remove(j) =~= q.drop_last());
    } else {
        lemma_seq_sum_remove(q.drop_last(), w, j);
        assert(q.remove(j).drop_last() =~= q.drop_last().remove(j));
        assert(q.remove(j).last() == q.last());
    }
}

proof fn lemma_seq_sum_set(q: Seq<u32>, w: spec_fn(u32) -> Multiset<u32>)
    requires
        q.no_duplicates(),
    ensures
        seq_sum(q, w) =~= set_sum(q.to_set(), w),
    decreases q.len(),
{
    broadcast use vstd::multiset::group_multiset_axioms;

    let s = q.to_set();
    q.unique_seq_to_set();
    if q.len() == 0 {
    } else {
        let c = s.choose();
        assert(s.contains(c));
        let j = choose|j: int| 0 <= j < q.len() && q[j] == c;
        let r = q.remove(j);
        assert(r.no_duplicates()) by {
            assert forall|a: int, b: int| 0 <= a < b < r.len() implies r[a] != r[b] by {
                let qa = if a < j { a } else { a + 1 };
                let qb = if b < j { b } else { b + 1 };
                assert(r[a] == q[qa] && r[b] == q[qb]);
            }
        }
        assert(r.to_set() =~= s.remove(c)) by {
            assert forall|x: u32| r.to_set().contains(x) <==> s.remove(c).contains(x) by {
                if r.contains(x) {
                    let a = choose|a: int| 0 <= a < r.len() && r[a] == x;
                    let qa = if a < j { a } else { a + 1 };
                    assert(q[qa] == x);
                }
                if s.remove(c).contains(x) {
                    let b = choose|b: int| 0 <= b < q.len() && q[b] == x;
                    assert(b != j);
                    let rb = if b < j { b } else { b - 1 };
                    assert(r[rb] == x);
                }
            }
        }
        lemma_seq_sum_remove(q, w, j);
        lemma_seq_sum_set(r, w);
    }
}

proof fn lemma_callees_vars_sum(m: Map<u32, Function>, callees: Set<u32>, depth: nat)
    requires
        callees.finite(),
    ensures
        callees_vars(m, callees, depth) == set_sum(callees, |c: u32| fn_vars(m, c, depth)),
    decreases callees.len(),
{
    if callees.len() != 0 {
        let c = callees.choose();
        lemma_callees_vars_sum(m, callees.remove(c), depth);
    }
}

proof fn lemma_seq_singletons(q: Seq<u32>)
    ensures
        q.to_multiset() =~= seq_sum(q, |v: u32| Multiset::singleton(v)),
    decreases q.len(),
{
    broadcast use vstd::multiset::group_multiset_axioms;
    broadcast use vstd::seq_lib::group_to_multiset_ensures;

    if q.len() != 0 {
        lemma_seq_singletons(q.drop_last());
        assert(q.drop_last().push(q.last()) =~= q);
    }
}

/// `rank` orders the call graph of `m`: every function calls only functions
/// of lower rank, so no chain of calls returns to a function it has left.
pub open spec fn ranked(m: Map<u32, Function>, rank: spec_fn(u32) -> nat) -> bool {
    forall|f: u32, c: u32|
        #![trigger m[f].callees@.contains(c), m.contains_key(c)]
        m.contains_key(f) && m[f].callees@.contains(c) && m.contains_key(c) ==> rank(c) < rank(f)
}

proof fn lemma_ids_finite(s: HashSet<u32>)
    ensures
        s@.finite(),
{
    let q = spec_hash_keys_iter(&s).remaining().unref();
    assert(q.to_set() == s@);
    vstd::seq_lib::seq_to_set_is_finite(q);
}

proof fn lemma_fn_vars_stable(
    m: Map<u32, Function>,
    rank: spec_fn(u32) -> nat,
    f: u32,
    d1: nat,
    d2: nat,
)
    requires
        ranked(m, rank),
        m.contains_key(f),
        rank(f) < d1,
        rank(f) < d2,
    ensures
        fn_vars(m, f, d1) == fn_vars(m, f, d2),
    decreases rank(f) + 1, 0nat,
{
    lemma_ids_finite(m[f].callees);
    lemma_callees_vars_stable(m, rank, m[f].callees@, (d1 - 1) as nat, (d2 - 1) as nat, f);
}

proof fn lemma_callees_vars_stable(
    m: Map<u32, Function>,
    rank: spec_fn(u32) -> nat,
    s: Set<u32>,
    d1: nat,
    d2: nat,
    caller: u32,
)
    requires
        ranked(m, rank),
        m.contains_key(caller),
        s.finite(),
        s.subset_of(m[caller].callees@),
        rank(caller) <= d1,
        rank(caller) <= d2,
    ensures
        callees_vars(m, s, d1) == callees_vars(m, s, d2),
    decreases rank(caller), s.len(),
{
    if s.len() != 0 {
        let c = s.choose();
        assert(s.contains(c));
        if m.contains_key(c) {
            assert(m[caller].callees@.contains(c));
            lemma_fn_vars_stable(m, rank, c, d1, d2);
        }
        lemma_callees_vars_stable(m, rank, s.remove(c), d1, d2, caller);
    }
}

/// On a registry whose call graph has no cycles, which a ranking below the
/// number of functions witnesses, following calls deeper than the number of
/// functions gathers nothing more: `collect_fn_vars` takes in every chain.
pub proof fn lemma_fn_vars_depth_suffices(
    m: Map<u32, Function>,
    rank: spec_fn(u32) -> nat,
    func: u32,
    depth: nat,
)
    requires
        ranked(m, rank),
        forall|f: u32| #[trigger] m.contains_key(f) ==> rank(f) < m.len(),
        depth >= m.len(),
    ensures
        fn_vars(m, func, m.len()) == fn_vars(m, func, depth),
{
    if m.contains_key(func) {
        lemma_fn_vars_stable(m, rank, func, m.len(), depth);
    }
}

/// The functions of a module, keyed by their ids.
pub struct FunctionRegistry {
    func_map: HashMap<u32, Function>,
}

impl View for FunctionRegistry {
    type V = Map<u32, Function>;

    closed spec fn view(&self) -> Map<u32, Function> {
        self.func_map@
    }
}

impl Default for FunctionRegistry {
    fn default() -> (r: FunctionRegistry)
        ensures
            r@ == Map::<u32, Function>::empty(),
    {
        FunctionRegistry { func_map: HashMap::new() }
    }
}

impl FunctionRegistry {
    /// Register `func` under `id`; an id can be registered once.
    pub fn set(&mut self, id: u32, func: Function) -> (r: Result<(), Error>)
        ensures
            r is Ok <==> !old(self)@.contains_key(id),
            r is Ok ==> final(self)@ == old(self)@.insert(id, func),
            r is Err ==> r == Err::<(), Error>(Error::FunctionCollision(id)) && final(self)@ == old(
                self,
            )@,
    {
        if self.func_map.contains_key(&id) {
            Err(Error::FunctionCollision(id))
        } else {
            self.func_map.insert(id, func);
            Ok(())
        }
    }

    /// The function registered under `id`.
    pub fn get(&self, id: u32) -> (r: Result<&Function, Error>)
        ensures
            match r {
                Ok(f) => self@.contains_key(id) && *f == self@[id],
                Err(e) => !self@.contains_key(id) && e == Error::MissingFunction(id),
            },
    {
        match self.func_map.get(&id) {
            Some(f) => Ok(f),
            None => Err(Error::MissingFunction(id)),
        }
    }

    /// The function registered under `id`, to be changed in place.
    pub fn get_mut(&mut self, id: u32) -> (r: Result<&mut Function, Error>)
        ensures
            match r {
                Ok(f) => {
                    &&& old(self)@.contains_key(id)
                    &&& *f == old(self)@[id]
                    &&& final(self)@ == old(self)@.insert(id, *final(f))
                },
                Err(e) => {
                    &&& !old(self)@.contains_key(id)
                    &&& e == Error::MissingFunction(id)
                    &&& final(self)@ == old(self)@
                },
            },
    {
        match self.func_map.entry(id) {
            std::collections::hash_map::Entry::Occupied(e) => Ok(e.into_mut()),
            std::collections::hash_map::Entry::Vacant(_) => Err(Error::MissingFunction(id)),
        }
    }

    /// A function registered under the name `name`; which one, where several
    /// have that name, depends on the order in which the map is walked.
    pub fn get_by_name(&self, name: &str) -> (r: Result<&Function, Error>)
        ensures
            match r {
                Ok(f) => {
                    &&& f.name matches Some(n) && n@ == name@
                    &&& exists|id: u32| #[trigger] self@.contains_key(id) && self@[id] == *f
                },
                Err(e) => {
                    &&& e == Error::MissingNamedFunction
                    &&& forall|id: u32| #[trigger]
                        self@.contains_key(id) ==> !(self@[id].name matches Some(n) && n@
                            == name@)
                },
            },
    {
        let target = name.to_owned();
        let ghost items = spec_values_iter(&self.func_map).remaining();
        for f in it: self.func_map.values()
            invariant
                it.seq() == items,
                items.unref().to_set() == self@.values(),
                target@ == name@,
                forall|j: int|
                    0 <= j < it.index() ==> !(#[trigger] items[j].name matches Some(n) && n@
                        == name@),
        {
            let found = match &f.name {
                Some(n) => *n == target,
                None => false,
            };
            if found {
                proof {
                    let k = it.index();
                    assert(items.unref()[k as int] == *f);
                    assert(self@.values().contains(*f));
                }
                return Ok(f);
            }
        }
        proof {
            assert forall|id: u32| #[trigger]
                self@.contains_key(id) implies !(self@[id].name matches Some(n) && n@
                == name@) by {
                assert(self@.values().contains(self@[id]));
                assert(items.unref().to_set().contains(self@[id]));
                let j = choose|j: int| 0 <= j < items.len() && items.unref()[j] == self@[id];
                assert(*items[j] == self@[id]);
            }
        }
        Err(Error::MissingNamedFunction)
    }

    /// Copies of all functions, ordered by their ids.
    pub fn collect_ordered(&self) -> (r: Vec<Function>)
        ensures
            r@.len() == self@.dom().len(),
            exists|ids: Seq<u32>|
                {
                    &&& ids.len() == r@.len()
                    &&& increasing(ids)
                    &&& forall|k: u32| self@.contains_key(k) <==> ids.contains(k)
                    &&& forall|i: int|
                        0 <= i < ids.len() ==> function_same(
                            r@[i],
                            self@[#[trigger] ids[i]],
                        )
                },
    {
        let mut keys: Vec<u32> = Vec::new();
        let ghost items = spec_keys_iter(&self.func_map).remaining();
        for k in it: self.func_map.keys()
            invariant
                it.seq() == items,
                items.unref().to_set() == self@.dom(),
                items.no_duplicates(),
                keys@ == it.seq().take(it.index() as int).unref(),
        {
            let ghost j = it.index();
            assert(it.seq().take(j + 1).unref() == it.seq().take(j as int).unref().push(*k));
            keys.push(*k);
        }
        proof {
            assert(items.take(items.len() as int) == items);
            assert forall|a: int, b: int| 0 <= a < b < keys@.len() implies keys@[a] != keys@[b] by {
                assert(items[a] != items[b]);
            }
        }
        let ids = sort_ids(&keys);
        let mut out: Vec<Function> = Vec::new();
        let mut j: usize = 0;
        while j < ids.len()
            invariant
                j <= ids@.len(),
                out@.len() == j,
                forall|k: u32| ids@.contains(k) ==> self@.contains_key(k),
                forall|q: int| 0 <= q < j ==> function_same(out@[q], self@[#[trigger] ids@[q]]),
            decreases ids@.len() - j,
        {
            assert(ids@.contains(ids@[j as int]));
            match self.func_map.get(&ids[j]) {
                Some(f) => out.push(f.clone()),
                None => return out,
            }
            j = j + 1;
        }
        proof {
            assert forall|k: u32| self@.contains_key(k) <==> ids@.contains(k) by {
                if self@.contains_key(k) {
                    assert(items.unref().to_set().contains(k));
                    let e = choose|e: int| 0 <= e < items.len() && items.unref()[e] == k;
                    assert(keys@[e] == k);
                }
            }
            assert(ids@.to_set() =~= self@.dom());
            ids@.unique_seq_to_set();
        }
        out
    }
    fn collect_fn_vars_impl(&self, func: u32, depth: usize, vars: &mut Vec<u32>)
        ensures
            final(vars)@.to_multiset() == old(vars)@.to_multiset().add(
                fn_vars(self@, func, depth as nat),
            ),
        decreases depth,
    {
        broadcast use vstd::multiset::group_multiset_axioms;
        broadcast use vstd::seq_lib::group_to_multiset_ensures;

        if depth == 0 {
            assert(vars@.to_multiset() =~= vars@.to_multiset().add(Multiset::empty()));
            return ;
        }
        match self.func_map.get(&func) {
            None => {
                assert(vars@.to_multiset() =~= vars@.to_multiset().add(Multiset::empty()));
            },
            Some(f) => {
                let ghost start = vars@;
                let ghost acc = spec_hash_keys_iter(&f.accessed_vars).remaining();
                for v in it: f.accessed_vars.iter()
                    invariant
                        it.seq() == acc,
                        vars@ == start + acc.take(it.index() as int).unref(),
                {
                    let ghost k = it.index();
                    assert(acc.take(k + 1).unref() == acc.take(k as int).unref().push(*v));
                    vars.push(*v);
                }
                let ghost mid = vars@;
                let ghost w = |c: u32| fn_vars(self@, c, (depth - 1) as nat);
                let ghost cs = spec_hash_keys_iter(&f.callees).remaining();
                for c in it: f.callees.iter()
                    invariant
                        it.seq() == cs,
                        depth > 0,
                        w == (|c: u32| fn_vars(self@, c, (depth - 1) as nat)),
                        vars@.to_multiset() == mid.to_multiset().add(
                            seq_sum(cs.take(it.index() as int).unref(), w),
                        ),
                {
                    let ghost k = it.index();
                    let ghost before = vars@;
                    self.collect_fn_vars_impl(*c, depth - 1, vars);
                    proof {
                        let t1 = cs.take(k + 1).unref();
                        assert(t1.drop_last() == cs.take(k as int).unref());
                        assert(t1.last() == *c);
                        assert(seq_sum(t1, w) == seq_sum(cs.take(k as int).unref(), w).add(w(*c)));
                        assert(vars@.to_multiset() =~= mid.to_multiset().add(seq_sum(t1, w)));
                    }
                }
                proof {
                    assert(acc.take(acc.len() as int) == acc);
                    assert(cs.take(cs.len() as int) == cs);
                    let single = |v: u32| Multiset::singleton(v);
                    vstd::seq_lib::lemma_multiset_commutative(start, acc.unref());
                    lemma_seq_singletons(acc.unref());
                    assert(acc.unref().no_duplicates()) by {
                        assert forall|a: int, b: int| 0 <= a < b < acc.len() implies acc.unref()[a]
                            != acc.unref()[b] by {
                            assert(acc[a] != acc[b]);
                        }
                    }
                    lemma_seq_sum_set(acc.unref(), single);
                    assert(cs.unref().no_duplicates()) by {
                        assert forall|a: int, b: int| 0 <= a < b < cs.len() implies cs.unref()[a]
                            != cs.unref()[b] by {
                            assert(cs[a] != cs[b]);
                        }
                    }
                    lemma_seq_sum_set(cs.unref(), w);
                    lemma_callees_vars_sum(self@, f.callees@, (depth - 1) as nat);
                    assert(vars@.to_multiset() =~= start.to_multiset().add(
                        fn_vars(self@, func, depth as nat),
                    ));
                }
            },
        }
    }

    /// The variables accessed by `func` and, transitively, by the functions
    /// it calls: each function's variables are gathered once per call chain
    /// that reaches it, in no particular order. Chains are followed through as
    /// many functions as the registry holds, which takes in every chain of a
    /// registry without call cycles.
    pub fn collect_fn_vars(&self, func: u32) -> (r: Vec<u32>)
        ensures
            r@.to_multiset() == fn_vars(self@, func, self@.len()),
    {
        broadcast use vstd::multiset::group_multiset_axioms;
        broadcast use vstd::seq_lib::group_to_multiset_ensures;

        let mut accessed_vars: Vec<u32> = Vec::new();
        self.collect_fn_vars_impl(func, self.func_map.len(), &mut accessed_vars);
        assert(Seq::<u32>::empty().to_multiset() =~= Multiset::empty());
        assert(accessed_vars@.to_multiset() =~= fn_vars(self@, func, self@.len()));
        accessed_vars
    }
}

} // verus!
