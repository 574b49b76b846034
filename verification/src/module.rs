//! A module that a component holds itself, and the resources that one
//! instance of it takes.

use crate::code::CodeObject;
use crate::info::{ModulePlans, PlansView};
use crate::resources::{larger, Demand, ResourcesRequired};
use std::sync::Arc;
use vstd::prelude::*;

verus! {

/// The largest of the sizes in `s`, or `None` where there is none.
pub open spec fn largest(s: Seq<nat>) -> Option<nat>
    decreases s.len(),
{
    if s.len() == 0 {
        None
    } else {
        larger(largest(s.drop_last()), Some(s.last()))
    }
}

/// `largest` is `None` exactly on the empty sequence, and otherwise an element
/// that no other element exceeds.
pub proof fn lemma_largest_is_maximum(s: Seq<nat>)
    ensures
        largest(s).is_none() <==> s.len() == 0,
        largest(s) matches Some(m) ==> s.contains(m) && forall|i: int|
            0 <= i < s.len() ==> s[i] <= m,
    decreases s.len(),
{
    if s.len() > 0 {
        let front = s.drop_last();
        lemma_largest_is_maximum(front);
        let m = largest(s).unwrap();
        if largest(front) == Some(m) {
            let k = choose|k: int| 0 <= k < front.len() && front[k] == m;
            assert(s[k] == m);
        } else {
            assert(s[s.len() - 1] == m);
        }
        assert forall|i: int| 0 <= i < s.len() implies s[i] <= m by {
            if i < front.len() {
                assert(front[i] == s[i]);
            }
        }
    }
}

/// The sizes in `s` from position `from` on, as numbers.
pub open spec fn sizes_u64(s: Seq<u64>, from: int) -> Seq<nat> {
    Seq::new((s.len() - from) as nat, |i: int| s[from + i] as nat)
}

/// The sizes in `s` from position `from` on, as numbers.
pub open spec fn sizes_u32(s: Seq<u32>, from: int) -> Seq<nat> {
    Seq::new((s.len() - from) as nat, |i: int| s[from + i] as nat)
}

impl PlansView {
    /// Whether no more memories and tables are counted as imported than there
    /// are.
    pub open spec fn consistent(self) -> bool {
        &&& self.num_imported_memories <= self.memory_minimums.len()
        &&& self.num_imported_tables <= self.table_minimums.len()
    }

    /// The initial sizes of the memories that the module defines itself.
    pub open spec fn defined_memories(self) -> Seq<nat> {
        sizes_u64(self.memory_minimums, self.num_imported_memories as int)
    }

    /// The initial sizes of the tables that the module defines itself.
    pub open spec fn defined_tables(self) -> Seq<nat> {
        sizes_u32(self.table_minimums, self.num_imported_tables as int)
    }

    /// What one instance of the module takes: the memories and tables that it
    /// defines itself, and the largest initial size among each.
    pub open spec fn demand(self) -> Demand {
        Demand {
            memories: self.defined_memories().len(),
            largest_memory: largest(self.defined_memories()),
            tables: self.defined_tables().len(),
            largest_table: largest(self.defined_tables()),
        }
    }

    /// Whether `resources_required` can be asked of a module with these plans:
    /// they are consistent, and the numbers of memories and of tables that the
    /// module defines fit in `u32`.
    pub open spec fn countable(self) -> bool {
        &&& self.consistent()
        &&& self.memory_minimums.len() - self.num_imported_memories <= u32::MAX
        &&& self.table_minimums.len() - self.num_imported_tables <= u32::MAX
    }

    /// The demand of countable plans fits, and the other way round.
    pub proof fn lemma_countable_fits(self)
        requires
            self.consistent(),
        ensures
            self.countable() <==> self.demand().fits(),
    {
        let mems = self.defined_memories();
        let tabs = self.defined_tables();
        lemma_largest_is_maximum(mems);
        lemma_largest_is_maximum(tabs);
        if let Some(m) = largest(mems) {
            let k = choose|k: int| 0 <= k < mems.len() && mems[k] == m;
            assert(mems[k] <= u64::MAX);
        }
        if let Some(t) = largest(tabs) {
            let k = choose|k: int| 0 <= k < tabs.len() && tabs[k] == t;
            assert(tabs[k] <= u32::MAX);
        }
    }
}

impl ModulePlans {
    /// Tests whether the plans are countable.
    pub fn is_countable(&self) -> (ok: bool)
        ensures
            ok == self@.countable(),
    {
        self.num_imported_memories <= self.memory_minimums.len() && self.num_imported_tables
            <= self.table_minimums.len() && self.memory_minimums.len()
            - self.num_imported_memories <= 0xffff_ffff && self.table_minimums.len()
            - self.num_imported_tables <= 0xffff_ffff
    }
}

/// The largest of the sizes in `v` from position `from` on.
fn largest_u64(v: &Vec<u64>, from: usize) -> (r: Option<u64>)
    requires
        from <= v@.len(),
    ensures
        (match r {
            Some(m) => Some(m as nat),
            None => None,
        }) == largest(sizes_u64(v@, from as int)),
{
    let mut best: Option<u64> = None;
    let mut i: usize = from;
    while i < v.len()
        invariant
            from <= i <= v@.len(),
            (match best {
                Some(m) => Some(m as nat),
                None => None,
            }) == largest(sizes_u64(v@, from as int).take(i - from)),
        decreases v@.len() - i,
    {
        let size = v[i];
        proof {
            let all = sizes_u64(v@, from as int);
            assert(all.take(i + 1 - from).drop_last() =~= all.take(i - from));
        }
        best =
        match best {
            None => Some(size),
            Some(m) => if m >= size {
                Some(m)
            } else {
                Some(size)
            },
        };
        i = i + 1;
    }
    assert(sizes_u64(v@, from as int).take(i - from) =~= sizes_u64(v@, from as int));
    best
}

/// The largest of the sizes in `v` from position `from` on.
fn largest_u32(v: &Vec<u32>, from: usize) -> (r: Option<u32>)
    requires
        from <= v@.len(),
    ensures
        (match r {
            Some(m) => Some(m as nat),
            None => None,
        }) == largest(sizes_u32(v@, from as int)),
{
    let mut best: Option<u32> = None;
    let mut i: usize = from;
    while i < v.len()
        invariant
            from <= i <= v@.len(),
            (match best {
                Some(m) => Some(m as nat),
                None => None,
            }) == largest(sizes_u32(v@, from as int).take(i - from)),
        decreases v@.len() - i,
    {
        let size = v[i];
        proof {
            let all = sizes_u32(v@, from as int);
            assert(all.take(i + 1 - from).drop_last() =~= all.take(i - from));
        }
        best =
        match best {
            None => Some(size),
            Some(m) => if m >= size {
                Some(m)
            } else {
                Some(size)
            },
        };
        i = i + 1;
    }
    assert(sizes_u32(v@, from as int).take(i - from) =~= sizes_u32(v@, from as int));
    best
}

/// A module that a component holds itself. It shares the mapped code of the
/// component.
pub struct Module {
    code: Arc<CodeObject>,
    plans: ModulePlans,
}

impl Module {
    /// The code that the module shares with its component.
    pub closed spec fn code(&self) -> CodeObject {
        *self.code
    }

    /// The memories and tables that the module declares.
    pub closed spec fn plans(&self) -> ModulePlans {
        self.plans
    }

    /// Makes the module with the given plans out of shared code.
    pub fn from_parts_raw(code: Arc<CodeObject>, plans: ModulePlans) -> (r: Module)
        ensures
            r.code() == *code,
            r.plans() == plans,
    {
        Module { code, plans }
    }

    /// The code that the module shares with its component.
    pub fn code_object(&self) -> (r: &Arc<CodeObject>)
        ensures
            **r == self.code(),
    {
        &self.code
    }

    /// The memories and tables that the module declares.
    pub fn env_module(&self) -> (r: &ModulePlans)
        ensures
            *r == self.plans(),
    {
        &self.plans
    }

    /// The resources that one instance of the module takes: the number of
    /// memories and tables that it defines itself, and the largest initial
    /// size among each.
    pub fn resources_required(&self) -> (r: ResourcesRequired)
        requires
            self.plans()@.countable(),
        ensures
            r@ == self.plans()@.demand(),
    {
        let plans = &self.plans;
        let num_memories = plans.memory_minimums.len() - plans.num_imported_memories;
        let num_tables = plans.table_minimums.len() - plans.num_imported_tables;
        ResourcesRequired {
            num_memories: num_memories as u32,
            max_initial_memory_size: largest_u64(
                &plans.memory_minimums,
                plans.num_imported_memories,
            ),
            num_tables: num_tables as u32,
            max_initial_table_size: largest_u32(&plans.table_minimums, plans.num_imported_tables),
        }
    }
}

} // verus!
