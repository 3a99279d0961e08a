use crate::error::{Error, SQLITE_ERROR, SQLITE_MISUSE};
use crate::value::ValueRef;
use vstd::prelude::*;

verus! {

/// The item is not found.
pub const SQLITE_NOTFOUND: i32 = 12;
/// An index is out of range.
pub const SQLITE_RANGE: i32 = 25;
/// The first engine version that can report a constraint's right-hand value.
pub const RHS_VERSION: i32 = 3038000;

/// How the query needs distinct rows handled.
#[derive(Clone, Copy, Debug, PartialEq, Eq)]
pub enum DistinctMode {
    /// Rows must come out in the requested order; no distinctness is needed.
    Ordered,
    /// Rows with equal values must be adjacent.
    Grouped,
    /// Duplicate rows may be dropped; order does not matter.
    Distinct,
    /// Duplicate rows may be dropped and the rest must be ordered.
    DistinctOrdered,
}

impl DistinctMode {
    /// The mode for the engine's code: 0 ordered, 1 grouped, 2 distinct, 3 distinct
    /// and ordered; `None` for any other code.
    pub fn from_code(code: i32) -> (r: Option<DistinctMode>)
        ensures
            r == match code {
                0 => Some(DistinctMode::Ordered),
                1 => Some(DistinctMode::Grouped),
                2 => Some(DistinctMode::Distinct),
                3 => Some(DistinctMode::DistinctOrdered),
                _ => None,
            },
    {
        match code {
            0 => Some(DistinctMode::Ordered),
            1 => Some(DistinctMode::Grouped),
            2 => Some(DistinctMode::Distinct),
            3 => Some(DistinctMode::DistinctOrdered),
            _ => None,
        }
    }
}

/// The operator of a constraint.
#[derive(Clone, Copy, Debug, PartialEq, Eq)]
pub enum ConstraintOp {
    Eq,
    Gt,
    Le,
    Lt,
    Ge,
    Match,
    Like,
    Glob,
    Regexp,
    Ne,
    IsNot,
    IsNotNull,
    IsNull,
    Is,
    Limit,
    Offset,
    Function,
}

/// One constraint offered by the query planner.
#[derive(Debug)]
pub struct IndexInfoConstraint {
    /// The constrained column.
    pub column: i32,
    pub op: ConstraintOp,
    /// Whether the right-hand value will be known when the scan starts.
    pub usable: bool,
    /// The right-hand value, when the planner knows it already.
    pub rhs: Option<ValueRef>,
}

/// `argv` gives each constraint at most one slot, slots below `n`, no slot twice.
pub open spec fn argv_valid(argv: Seq<Option<u32>>, n: int) -> bool {
    &&& forall|j: int| 0 <= j < argv.len() && argv[j] is Some ==> argv[j].unwrap() < n
    &&& forall|i: int, j: int|
        0 <= i < argv.len() && 0 <= j < argv.len() && i != j && argv[i] is Some ==> argv[i]
            != argv[j]
}

/// `a` is the slot `k`.
pub open spec fn holds_slot(a: Option<u32>, k: int) -> bool {
    a matches Some(x) && x as int == k
}

/// `order` lists, slot by slot, the constraint whose value the scan receives there,
/// and covers every assigned slot.
pub open spec fn delivers(argv: Seq<Option<u32>>, order: Seq<usize>) -> bool {
    &&& forall|k: int|
        0 <= k < order.len() ==> order[k] < argv.len() && holds_slot(argv[order[k] as int], k)
    &&& forall|j: int| 0 <= j < argv.len() && argv[j] is Some ==> argv[j].unwrap() < order.len()
}

/// With valid slots, the list of delivered constraints is unique, and each constraint
/// that holds a slot is delivered exactly once: at its slot, and nowhere else.
pub proof fn lemma_selected_constraint_delivered_once(
    argv: Seq<Option<u32>>,
    order: Seq<usize>,
)
    requires
        argv_valid(argv, argv.len() as int),
        delivers(argv, order),
    ensures
        forall|j: int|
            #![trigger argv[j]]
            0 <= j < argv.len() && argv[j] is Some ==> order[argv[j].unwrap() as int] == j,
        forall|k1: int, k2: int|
            0 <= k1 < order.len() && 0 <= k2 < order.len() && order[k1] == order[k2] ==> k1 == k2,
        forall|other: Seq<usize>| delivers(argv, other) ==> other == order,
{
    assert forall|j: int| 0 <= j < argv.len() && argv[j] is Some implies order[argv[j].unwrap() as int]
        == j by {
        let s = argv[j].unwrap() as int;
        assert(holds_slot(argv[order[s] as int], s));
        if order[s] as int != j {
            assert(argv[order[s] as int] != argv[j]);
        }
    }
    assert forall|k1: int, k2: int|
        0 <= k1 < order.len() && 0 <= k2 < order.len() && order[k1] == order[k2] implies k1
        == k2 by {
        assert(holds_slot(argv[order[k1] as int], k1));
        assert(holds_slot(argv[order[k2] as int], k2));
    }
    assert forall|other: Seq<usize>| delivers(argv, other) implies other == order by {
        if other.len() < order.len() {
            let k = other.len() as int;
            assert(holds_slot(argv[order[k] as int], k));
        } else if order.len() < other.len() {
            let k = order.len() as int;
            assert(holds_slot(argv[other[k] as int], k));
        }
        assert forall|k: int| 0 <= k < order.len() implies other[k] == order[k] by {
            assert(holds_slot(argv[order[k] as int], k));
            assert(holds_slot(argv[other[k] as int], k));
            if other[k] != order[k] {
                assert(argv[other[k] as int] != argv[order[k] as int]);
            }
        }
        assert(other =~= order);
    }
}

/// One consultation of the query planner for a candidate scan: the constraints it
/// offers, in its own order, and what the implementation answers.
#[derive(Debug)]
pub struct IndexInfo {
    constraints: Vec<IndexInfoConstraint>,
    argv: Vec<Option<u32>>,
    distinct: DistinctMode,
    estimated_cost: u64,
    estimated_rows: i64,
    order_by_consumed: bool,
    engine_version: i32,
}

impl IndexInfo {
    /// The constraints, in the planner's order.
    pub closed spec fn spec_constraints(&self) -> Seq<IndexInfoConstraint> {
        self.constraints@
    }

    /// The argv slot chosen for each constraint.
    pub closed spec fn spec_argv(&self) -> Seq<Option<u32>> {
        self.argv@
    }

    pub closed spec fn spec_distinct(&self) -> DistinctMode {
        self.distinct
    }

    pub closed spec fn spec_cost(&self) -> u64 {
        self.estimated_cost
    }

    pub closed spec fn spec_rows(&self) -> i64 {
        self.estimated_rows
    }

    pub closed spec fn spec_order_by_consumed(&self) -> bool {
        self.order_by_consumed
    }

    /// The version number of the running engine.
    pub closed spec fn spec_version(&self) -> i32 {
        self.engine_version
    }

    /// One argv entry per constraint, and the slots are valid.
    pub closed spec fn wf(&self) -> bool {
        &&& self.argv@.len() == self.constraints@.len()
        &&& argv_valid(self.argv@, self.constraints@.len() as int)
    }

    /// A consultation offering `constraints`, with no slot chosen, the largest cost
    /// and the engine's default row estimate of 25.
    pub fn new(
        constraints: Vec<IndexInfoConstraint>,
        distinct: DistinctMode,
        engine_version: i32,
    ) -> (r: IndexInfo)
        ensures
            r.wf(),
            r.spec_constraints() == constraints@,
            r.spec_argv() == Seq::new(constraints@.len(), |j: int| None::<u32>),
            r.spec_distinct() == distinct,
            r.spec_cost() == u64::MAX,
            r.spec_rows() == 25,
            !r.spec_order_by_consumed(),
            r.spec_version() == engine_version,
    {
        let mut argv: Vec<Option<u32>> = Vec::new();
        let n = constraints.len();
        let mut i: usize = 0;
        while i < n
            invariant
                i <= n,
                argv@ == Seq::new(i as nat, |j: int| None::<u32>),
            decreases n - i,
        {
            argv.push(None);
            i = i + 1;
        }
        IndexInfo {
            constraints,
            argv,
            distinct,
            estimated_cost: u64::MAX,
            estimated_rows: 25,
            order_by_consumed: false,
            engine_version,
        }
    }

    /// The number of constraints.
    pub fn constraint_count(&self) -> (r: usize)
        ensures
            r == self.spec_constraints().len(),
    {
        self.constraints.len()
    }

    /// The constraint at position `i`, in the planner's order.
    pub fn constraint(&self, i: usize) -> (r: &IndexInfoConstraint)
        requires
            i < self.spec_constraints().len(),
        ensures
            *r == self.spec_constraints()[i as int],
    {
        &self.constraints[i]
    }

    /// Whether the right-hand value of constraint `i` is knowable when the scan starts.
    pub fn usable(&self, i: usize) -> (r: bool)
        requires
            i < self.spec_constraints().len(),
        ensures
            r == self.spec_constraints()[i as int].usable,
    {
        self.constraints[i].usable
    }

    /// The right-hand value of constraint `i`. Fails with `VersionNotSatisfied` on
    /// engines that predate the feature, and with `SQLITE_NOTFOUND` when the planner
    /// does not know the value.
    pub fn rhs(&self, i: usize) -> (r: Result<&ValueRef, Error>)
        requires
            i < self.spec_constraints().len(),
        ensures
            self.spec_version() < RHS_VERSION ==> r == Err::<&ValueRef, Error>(
                Error::VersionNotSatisfied(RHS_VERSION),
            ),
            self.spec_version() >= RHS_VERSION ==> match self.spec_constraints()[i as int].rhs {
                Some(v) => r == Ok::<&ValueRef, Error>(&v),
                None => r == Err::<&ValueRef, Error>(Error::Sqlite(SQLITE_NOTFOUND)),
            },
    {
        if self.engine_version < RHS_VERSION {
            return Err(Error::VersionNotSatisfied(RHS_VERSION));
        }
        match &self.constraints[i].rhs {
            Some(v) => Ok(v),
            None => Err(Error::Sqlite(SQLITE_NOTFOUND)),
        }
    }

    /// The argv slot chosen for constraint `i`, if any.
    pub fn argv_index(&self, i: usize) -> (r: Option<u32>)
        requires
            i < self.spec_constraints().len(),
            self.wf(),
        ensures
            r == self.spec_argv()[i as int],
    {
        self.argv[i]
    }

    /// Chooses the argv slot at which the scan receives the value of constraint `i`,
    /// or, with `None`, leaves the constraint to be rechecked by the engine. A slot
    /// must be below the number of constraints (else `SQLITE_RANGE`) and not held by
    /// another constraint (else `SQLITE_MISUSE`); on failure nothing changes.
    pub fn set_argv_index(&mut self, i: usize, slot: Option<u32>) -> (r: Result<(), Error>)
        requires
            i < old(self).spec_constraints().len(),
            old(self).wf(),
        ensures
            final(self).wf(),
            final(self).spec_constraints() == old(self).spec_constraints(),
            final(self).spec_distinct() == old(self).spec_distinct(),
            final(self).spec_cost() == old(self).spec_cost(),
            final(self).spec_rows() == old(self).spec_rows(),
            final(self).spec_order_by_consumed() == old(self).spec_order_by_consumed(),
            final(self).spec_version() == old(self).spec_version(),
            match slot {
                None => r is Ok,
                Some(k) => if k >= old(self).spec_constraints().len() {
                    r == Err::<(), Error>(Error::Sqlite(SQLITE_RANGE))
                } else if exists|j: int|
                    0 <= j < old(self).spec_argv().len() && j != i && old(self).spec_argv()[j]
                        == Some(k) {
                    r == Err::<(), Error>(Error::Sqlite(SQLITE_MISUSE))
                } else {
                    r is Ok
                },
            },
            r is Ok ==> final(self).spec_argv() == old(self).spec_argv().update(i as int, slot),
            r is Err ==> final(self).spec_argv() == old(self).spec_argv(),
    {
        if let Some(k) = slot {
            if k as usize >= self.constraints.len() {
                return Err(Error::Sqlite(SQLITE_RANGE));
            }
            let mut j: usize = 0;
            while j < self.argv.len()
                invariant
                    *self == *old(self),
                    slot == Some(k),
                    (k as int) < self.constraints@.len(),
                    self.wf(),
                    i < self.argv@.len(),
                    j <= self.argv@.len(),
                    forall|m: int| 0 <= m < j && m != i ==> self.argv@[m] != Some(k),
                decreases self.argv@.len() - j,
            {
                let taken = match self.argv[j] {
                    Some(x) => x == k,
                    None => false,
                };
                if j != i && taken {
                    assert(self.argv@[j as int] == Some(k));
                    return Err(Error::Sqlite(SQLITE_MISUSE));
                }
                j = j + 1;
            }
        }
        self.argv.set(i, slot);
        Ok(())
    }

    /// How the query needs distinct rows handled.
    pub fn distinct_mode(&self) -> (r: DistinctMode)
        ensures
            r == self.spec_distinct(),
    {
        self.distinct
    }

    /// Sets the estimated cost of the scan.
    pub fn set_estimated_cost(&mut self, cost: u64)
        ensures
            final(self).spec_cost() == cost,
            final(self).spec_constraints() == old(self).spec_constraints(),
            final(self).spec_argv() == old(self).spec_argv(),
            final(self).spec_distinct() == old(self).spec_distinct(),
            final(self).spec_rows() == old(self).spec_rows(),
            final(self).spec_order_by_consumed() == old(self).spec_order_by_consumed(),
            final(self).spec_version() == old(self).spec_version(),
            old(self).wf() ==> final(self).wf(),
    {
        self.estimated_cost = cost;
    }

    /// The estimated cost of the scan.
    pub fn estimated_cost(&self) -> (r: u64)
        ensures
            r == self.spec_cost(),
    {
        self.estimated_cost
    }

    /// Sets the estimated number of rows of the scan.
    pub fn set_estimated_rows(&mut self, rows: i64)
        ensures
            final(self).spec_rows() == rows,
            final(self).spec_constraints() == old(self).spec_constraints(),
            final(self).spec_argv() == old(self).spec_argv(),
            final(self).spec_distinct() == old(self).spec_distinct(),
            final(self).spec_cost() == old(self).spec_cost(),
            final(self).spec_order_by_consumed() == old(self).spec_order_by_consumed(),
            final(self).spec_version() == old(self).spec_version(),
            old(self).wf() ==> final(self).wf(),
    {
        self.estimated_rows = rows;
    }

    /// The estimated number of rows of the scan.
    pub fn estimated_rows(&self) -> (r: i64)
        ensures
            r == self.spec_rows(),
    {
        self.estimated_rows
    }

    /// Declares whether the scan already yields rows in the requested order.
    pub fn set_order_by_consumed(&mut self, consumed: bool)
        ensures
            final(self).spec_order_by_consumed() == consumed,
            final(self).spec_constraints() == old(self).spec_constraints(),
            final(self).spec_argv() == old(self).spec_argv(),
            final(self).spec_distinct() == old(self).spec_distinct(),
            final(self).spec_cost() == old(self).spec_cost(),
            final(self).spec_rows() == old(self).spec_rows(),
            final(self).spec_version() == old(self).spec_version(),
            old(self).wf() ==> final(self).wf(),
    {
        self.order_by_consumed = consumed;
    }

    /// Whether the scan already yields rows in the requested order.
    pub fn order_by_consumed(&self) -> (r: bool)
        ensures
            r == self.spec_order_by_consumed(),
    {
        self.order_by_consumed
    }

    /// The constraint whose slot is `k`, if any.
    fn constraint_at_slot(&self, k: usize) -> (r: Option<usize>)
        requires
            self.wf(),
        ensures
            r matches Some(j) ==> j < self.argv@.len() && holds_slot(self.argv@[j as int], k as int),
            r is None ==> forall|j: int|
                0 <= j < self.argv@.len() ==> !holds_slot(self.argv@[j], k as int),
    {
        let n = self.argv.len();
        let mut j: usize = 0;
        while j < n
            invariant
                n == self.argv@.len(),
                j <= n,
                forall|m: int| 0 <= m < j ==> !holds_slot(self.argv@[m], k as int),
            decreases n - j,
        {
            if let Some(x) = self.argv[j] {
                if x as usize == k {
                    return Some(j);
                }
            }
            j = j + 1;
        }
        None
    }

    /// The constraints whose values the scan's filter step receives, slot by slot:
    /// entry `k` is the constraint whose argv slot is `k`. Fails with `SQLITE_ERROR`
    /// when the chosen slots leave a gap, so that no such list exists.
    pub fn filter_arguments(&self) -> (r: Result<Vec<usize>, Error>)
        requires
            self.wf(),
        ensures
            r is Ok ==> delivers(self.spec_argv(), r.unwrap()@),
            r is Err ==> r == Err::<Vec<usize>, Error>(Error::Sqlite(SQLITE_ERROR)) && forall|
                o: Seq<usize>,
            | !delivers(self.spec_argv(), o),
    {
        let n = self.argv.len();
        let mut order: Vec<usize> = Vec::new();
        let mut done = false;
        while !done
            invariant
                self.wf(),
                n == self.argv@.len(),
                order@.len() <= n,
                forall|k: int|
                    0 <= k < order@.len() ==> order@[k] < n && holds_slot(
                        self.argv@[order@[k] as int],
                        k,
                    ),
                done ==> forall|j: int| 0 <= j < n ==> !holds_slot(self.argv@[j], order@.len() as int),
            decreases n - order@.len() + if done { 0int } else { 1int },
        {
            match self.constraint_at_slot(order.len()) {
                Some(j) => {
                    order.push(j);
                },
                None => {
                    done = true;
                },
            }
        }
        let m = order.len();
        let mut j: usize = 0;
        while j < n
            invariant
                n == self.argv@.len(),
                m == order@.len(),
                j <= n,
                forall|i: int| 0 <= i < n ==> !holds_slot(self.argv@[i], m as int),
                forall|k: int|
                    0 <= k < order@.len() ==> order@[k] < n && holds_slot(
                        self.argv@[order@[k] as int],
                        k,
                    ),
                forall|i: int| 0 <= i < j && self.argv@[i] is Some ==> self.argv@[i].unwrap() < m,
            decreases n - j,
        {
            if let Some(x) = self.argv[j] {
                if x as usize >= m {
                    proof {
                        assert forall|o: Seq<usize>| !delivers(self.argv@, o) by {
                            if delivers(self.argv@, o) {
                                assert(x < o.len());
                                let q = o[m as int];
                                assert(holds_slot(self.argv@[q as int], m as int));
                                assert(!holds_slot(self.argv@[q as int], order@.len() as int));
                            }
                        }
                    }
                    return Err(Error::Sqlite(SQLITE_ERROR));
                }
            }
            j = j + 1;
        }
        Ok(order)
    }
}

} // verus!
