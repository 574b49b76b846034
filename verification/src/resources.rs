//! The resources that instantiating a unit of code will take, and how two such
//! demands add up.

use vstd::prelude::*;

verus! {

/// A demand for resources as a mathematical value: how many linear memories
/// and tables are needed, and the largest initial size seen of each. A size of
/// `None` means that no memory (or table) has been seen yet.
pub struct Demand {
    pub memories: nat,
    pub largest_memory: Option<nat>,
    pub tables: nat,
    pub largest_table: Option<nat>,
}

/// The larger of two optional sizes, where `None` is below every size.
pub open spec fn larger(a: Option<nat>, b: Option<nat>) -> Option<nat> {
    match (a, b) {
        (None, _) => b,
        (_, None) => a,
        (Some(x), Some(y)) => if x >= y { a } else { b },
    }
}

impl Demand {
    /// The demand of a unit that needs nothing.
    pub open spec fn empty() -> Demand {
        Demand { memories: 0, largest_memory: None, tables: 0, largest_table: None }
    }

    /// Both demands together: counts add up, sizes take the larger one.
    pub open spec fn combine(self, other: Demand) -> Demand {
        Demand {
            memories: self.memories + other.memories,
            largest_memory: larger(self.largest_memory, other.largest_memory),
            tables: self.tables + other.tables,
            largest_table: larger(self.largest_table, other.largest_table),
        }
    }

    /// Whether the demand can be written down in a `ResourcesRequired`.
    pub open spec fn fits(self) -> bool {
        &&& self.memories <= u32::MAX
        &&& self.tables <= u32::MAX
        &&& (self.largest_memory matches Some(m) ==> m <= u64::MAX)
        &&& (self.largest_table matches Some(t) ==> t <= u32::MAX)
    }

    /// Whether `self` asks for no more than `other` does, field by field.
    pub open spec fn within(self, other: Demand) -> bool {
        &&& self.memories <= other.memories
        &&& self.tables <= other.tables
        &&& larger(self.largest_memory, other.largest_memory) == other.largest_memory
        &&& larger(self.largest_table, other.largest_table) == other.largest_table
    }
}

/// The empty demand is a neutral element of `combine` on both sides.
pub proof fn lemma_combine_empty(a: Demand)
    ensures
        Demand::empty().combine(a) == a,
        a.combine(Demand::empty()) == a,
{
}

/// `combine` is associative.
pub proof fn lemma_combine_associative(a: Demand, b: Demand, c: Demand)
    ensures
        a.combine(b).combine(c) == a.combine(b.combine(c)),
{
}

/// `combine` is commutative.
pub proof fn lemma_combine_commutative(a: Demand, b: Demand)
    ensures
        a.combine(b) == b.combine(a),
{
}

/// Each operand of `combine` is within the result, so a demand that fits has
/// operands that fit.
pub proof fn lemma_combine_grows(a: Demand, b: Demand)
    ensures
        a.within(a.combine(b)),
        b.within(a.combine(b)),
        a.combine(b).fits() ==> a.fits() && b.fits(),
{
}

/// `within` is transitive, and what lies within a demand that fits, fits.
pub proof fn lemma_within_transitive(a: Demand, b: Demand, c: Demand)
    requires
        a.within(b),
        b.within(c),
    ensures
        a.within(c),
        c.fits() ==> a.fits(),
{
}

/// A summary of the resources needed to instantiate a unit of code.
#[derive(Clone, Copy, Debug, PartialEq, Eq)]
pub struct ResourcesRequired {
    /// The number of memories that are required.
    pub num_memories: u32,
    /// The maximum initial size required by any memory, in pages.
    pub max_initial_memory_size: Option<u64>,
    /// The number of tables that are required.
    pub num_tables: u32,
    /// The maximum initial size required by any table.
    pub max_initial_table_size: Option<u32>,
}

impl View for ResourcesRequired {
    type V = Demand;

    open spec fn view(&self) -> Demand {
        Demand {
            memories: self.num_memories as nat,
            largest_memory: match self.max_initial_memory_size {
                Some(m) => Some(m as nat),
                None => None,
            },
            tables: self.num_tables as nat,
            largest_table: match self.max_initial_table_size {
                Some(t) => Some(t as nat),
                None => None,
            },
        }
    }
}

/// The larger of two optional memory sizes.
fn larger_u64(a: Option<u64>, b: Option<u64>) -> (r: Option<u64>)
    ensures
        r == match (a, b) {
            (None, _) => b,
            (_, None) => a,
            (Some(x), Some(y)) => if x >= y { a } else { b },
        },
{
    match (a, b) {
        (None, _) => b,
        (_, None) => a,
        (Some(x), Some(y)) => if x >= y { a } else { b },
    }
}

/// The larger of two optional table sizes.
fn larger_u32(a: Option<u32>, b: Option<u32>) -> (r: Option<u32>)
    ensures
        r == match (a, b) {
            (None, _) => b,
            (_, None) => a,
            (Some(x), Some(y)) => if x >= y { a } else { b },
        },
{
    match (a, b) {
        (None, _) => b,
        (_, None) => a,
        (Some(x), Some(y)) => if x >= y { a } else { b },
    }
}

impl ResourcesRequired {
    /// The summary of a unit that needs nothing.
    pub fn none() -> (r: ResourcesRequired)
        ensures
            r@ == Demand::empty(),
            r.num_memories == 0,
            r.max_initial_memory_size.is_none(),
            r.num_tables == 0,
            r.max_initial_table_size.is_none(),
    {
        ResourcesRequired {
            num_memories: 0,
            max_initial_memory_size: None,
            num_tables: 0,
            max_initial_table_size: None,
        }
    }

    /// Whether `add` can take `other` without a count leaving `u32`.
    pub fn can_add(&self, other: &ResourcesRequired) -> (ok: bool)
        ensures
            ok == self@.combine(other@).fits(),
    {
        other.num_memories <= u32::MAX - self.num_memories && other.num_tables <= u32::MAX
            - self.num_tables
    }

    /// Adds the demand of `other` to this one.
    pub fn add(&mut self, other: &ResourcesRequired)
        requires
            old(self)@.combine(other@).fits(),
        ensures
            final(self)@ == old(self)@.combine(other@),
    {
        self.num_memories = self.num_memories + other.num_memories;
        self.max_initial_memory_size =
        larger_u64(self.max_initial_memory_size, other.max_initial_memory_size);
        self.num_tables = self.num_tables + other.num_tables;
        self.max_initial_table_size =
        larger_u32(self.max_initial_table_size, other.max_initial_table_size);
    }
}

} // verus!
