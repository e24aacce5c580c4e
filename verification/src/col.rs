//! Columns of the LP relaxation, as views into the engine context.

use std::rc::Rc;
use vstd::prelude::*;
use vstd::std_specs::cmp::PartialEqSpec;
use vstd::std_specs::cmp::PartialEqSpecImpl;
use crate::double::Double;
use crate::engine::ColData;
use crate::engine::Context;
use crate::engine::col_ok;
use crate::engine::native_bool;
use crate::engine::well_formed;
use crate::row::BasisStatus;
use crate::row::Row;
use crate::variable::Variable;

verus! {

/// The value that the engine counts, or none where the engine reports a
/// negative number in its place.
pub open spec fn present(n: i32) -> Option<usize> {
    if n < 0 {
        None
    } else {
        Some(n as usize)
    }
}

/// A column: a place among the columns of an engine context, and a share in
/// that context.
#[derive(Debug)]
pub struct Col {
    slot: usize,
    scip: Rc<Context>,
}

impl Col {
    #[verifier::type_invariant]
    spec fn inv(self) -> bool {
        self.slot < self.scip.cols().len()
    }

    /// The place of the column among the columns of its context.
    pub closed spec fn slot(&self) -> usize {
        self.slot
    }

    /// The context that the column lives in.
    pub closed spec fn context(&self) -> Context {
        *self.scip
    }

    /// What the engine reports of the column.
    pub open spec fn data(&self) -> ColData {
        self.context().cols()[self.slot() as int]
    }

    /// The column has a record, and every record of its context can be read.
    /// It holds of every column that this library hands out.
    pub open spec fn wf(&self) -> bool {
        &&& self.slot() < self.context().cols().len()
        &&& well_formed(self.context().vars(), self.context().cols())
    }

    /// The column at `slot` of the context `scip`, if the context has so many
    /// columns.
    pub fn new(scip: &Rc<Context>, slot: usize) -> (col: Option<Col>)
        ensures
            col.is_some() <==> slot < scip.cols().len(),
            col matches Some(c) ==> c.wf() && c.slot() == slot && c.context() == **scip,
    {
        if slot < scip.n_cols() {
            Some(Col::at(Rc::clone(scip), slot))
        } else {
            None
        }
    }

    /// The column at `slot`, which the context has.
    pub(crate) fn at(scip: Rc<Context>, slot: usize) -> (col: Col)
        requires
            slot < scip.cols().len(),
        ensures
            col.wf(),
            col.slot() == slot,
            col.context() == *scip,
    {
        let _ = scip.col_data(slot);
        Col { slot, scip }
    }

    /// The record of the column, with what holds of every record.
    fn record(&self) -> (c: &ColData)
        ensures
            *c == self.data(),
            col_ok(*c, self.context().vars().len() as int),
            self.wf(),
    {
        proof {
            use_type_invariant(self);
        }
        self.scip.col_data(self.slot)
    }

    /// The engine's address of the column.
    pub fn inner(&self) -> (raw: usize)
        ensures
            raw == self.data().raw,
    {
        self.record().raw
    }

    /// The index of the column.
    pub fn index(&self) -> (id: usize)
        ensures
            id == self.data().index,
    {
        let id: i32 = self.record().index;
        id as usize
    }

    /// The objective coefficient of the column.
    pub fn obj(&self) -> (value: Double)
        ensures
            value == self.data().obj,
    {
        self.record().obj
    }

    /// The lower bound of the column.
    pub fn lb(&self) -> (value: Double)
        ensures
            value == self.data().lb,
    {
        self.record().lb
    }

    /// The upper bound of the column.
    pub fn ub(&self) -> (value: Double)
        ensures
            value == self.data().ub,
    {
        self.record().ub
    }

    /// The better of the two bounds with respect to the objective.
    pub fn best_bound(&self) -> (value: Double)
        ensures
            value == self.data().best_bound,
    {
        self.record().best_bound
    }

    /// The variable of the column, in the same context.
    pub fn var(&self) -> (var: Variable)
        ensures
            self.wf(),
            var.wf(),
            var.slot() == self.data().var,
            var.context() == self.context(),
    {
        let slot: usize = self.record().var;
        Variable::at(Rc::clone(&self.scip), slot)
    }

    /// The primal LP solution of the column.
    pub fn primal_sol(&self) -> (value: Double)
        ensures
            value == self.data().primal_sol,
    {
        self.record().primal_sol
    }

    /// The least LP solution value that the column ever had.
    pub fn min_primal_sol(&self) -> (value: Double)
        ensures
            value == self.data().min_primal_sol,
    {
        self.record().min_primal_sol
    }

    /// The greatest LP solution value that the column ever had.
    pub fn max_primal_sol(&self) -> (value: Double)
        ensures
            value == self.data().max_primal_sol,
    {
        self.record().max_primal_sol
    }

    /// The basis status of the column in the LP solution.
    pub fn basis_status(&self) -> (status: BasisStatus)
        ensures
            status.code() == self.data().basis_status,
    {
        BasisStatus::from_code(self.record().basis_status)
    }

    /// The position of the column's variable in the problem; none while the
    /// variable is not active.
    pub fn var_probindex(&self) -> (pos: Option<usize>)
        ensures
            pos == present(self.data().var_probindex),
    {
        let probindex: i32 = self.record().var_probindex;
        if probindex < 0 {
            None
        } else {
            Some(probindex as usize)
        }
    }

    /// Whether the column's variable is of integral type.
    pub fn is_integral(&self) -> (yes: bool)
        ensures
            yes == (self.data().integral != 0),
    {
        native_bool(self.record().integral)
    }

    /// Whether the column may be removed from the LP.
    pub fn is_removable(&self) -> (yes: bool)
        ensures
            yes == (self.data().removable != 0),
    {
        native_bool(self.record().removable)
    }

    /// The position of the column in the current LP; none while it is not in
    /// it.
    pub fn lp_pos(&self) -> (pos: Option<usize>)
        ensures
            pos == present(self.data().lp_pos),
    {
        let pos: i32 = self.record().lp_pos;
        if pos < 0 {
            None
        } else {
            Some(pos as usize)
        }
    }

    /// The depth in the tree at which the column entered the LP; none while
    /// it is not in it.
    pub fn lp_depth(&self) -> (depth: Option<usize>)
        ensures
            depth == present(self.data().lp_depth),
    {
        let depth: i32 = self.record().lp_depth;
        if depth < 0 {
            None
        } else {
            Some(depth as usize)
        }
    }

    /// Whether the column is in the current LP.
    pub fn is_in_lp(&self) -> (yes: bool)
        ensures
            yes == (self.data().in_lp != 0),
    {
        native_bool(self.record().in_lp)
    }

    /// The number of non-zero entries.
    pub fn n_non_zeros(&self) -> (n: usize)
        ensures
            n == self.data().n_non_zeros,
            n == self.data().rows@.len(),
            n == self.data().vals@.len(),
    {
        let n: i32 = self.record().n_non_zeros;
        n as usize
    }

    /// The number of non-zero entries in rows of the current LP.
    pub fn n_lp_non_zeros(&self) -> (n: usize)
        ensures
            n == self.data().n_lp_non_zeros,
    {
        let n: i32 = self.record().n_lp_non_zeros;
        n as usize
    }

    /// The rows of the non-zero entries, in the engine's order and in the
    /// same context.
    pub fn rows(&self) -> (rows: Vec<Row>)
        ensures
            rows@.len() == self.data().n_non_zeros,
            forall|i: int|
                0 <= i < rows@.len() ==> {
                    &&& (#[trigger] rows@[i]).addr() == self.data().rows@[i]
                    &&& rows@[i].context() == self.context()
                },
    {
        let n: usize = self.n_non_zeros();
        let addrs = &self.record().rows;
        let mut rows: Vec<Row> = Vec::with_capacity(n);
        let mut i: usize = 0;
        while i < n
            invariant
                i <= n,
                n == addrs@.len(),
                addrs@ == self.data().rows@,
                rows@.len() == i,
                forall|k: int|
                    0 <= k < i ==> {
                        &&& (#[trigger] rows@[k]).addr() == addrs@[k]
                        &&& rows@[k].context() == self.context()
                    },
            decreases n - i,
        {
            rows.push(Row::new(&self.scip, addrs[i]));
            i += 1;
        }
        rows
    }

    /// The coefficients of the non-zero entries, in the engine's order.
    pub fn vals(&self) -> (vals: Vec<Double>)
        ensures
            vals@ == self.data().vals@,
    {
        let n: usize = self.n_non_zeros();
        let src = &self.record().vals;
        let mut vals: Vec<Double> = Vec::with_capacity(n);
        let mut i: usize = 0;
        while i < n
            invariant
                i <= n,
                n == src@.len(),
                src@ == self.data().vals@,
                vals@ == src@.subrange(0, i as int),
            decreases n - i,
        {
            vals.push(src[i]);
            i += 1;
            assert(vals@ == src@.subrange(0, i as int));
        }
        assert(src@.subrange(0, n as int) == src@);
        vals
    }

    /// The number of the last node of this run at which strong branching was
    /// used on the column; none if it never was.
    pub fn strong_branching_node(&self) -> (node: Option<i64>)
        ensures
            node == (if self.data().strong_branching_node < 0 {
                None
            } else {
                Some(self.data().strong_branching_node)
            }),
    {
        let node: i64 = self.record().strong_branching_node;
        if node < 0 {
            None
        } else {
            Some(node)
        }
    }

    /// How often strong branching was applied to the column in this run.
    pub fn n_strong_branches(&self) -> (n: usize)
        ensures
            n == self.data().n_strong_branches,
    {
        let n: i32 = self.record().n_strong_branches;
        n as usize
    }

    /// How many times in a row the column was in the LP at value zero.
    pub fn age(&self) -> (age: usize)
        ensures
            age == self.data().age,
    {
        let age: i32 = self.record().age;
        age as usize
    }
}

/// Two views of one place in one context report the same record, and with
/// it the same index, whatever was asked of either in between.
pub proof fn lemma_same_place_same_record(a: Col, b: Col)
    requires
        a.slot() == b.slot(),
        a.context() == b.context(),
    ensures
        a.data() == b.data(),
        a.data().index == b.data().index,
{
}

/// The variable of a column is a variable of the same context, and a column
/// has as many rows and coefficients as it counts non-zero entries.
pub proof fn lemma_column_record(col: Col)
    requires
        col.wf(),
    ensures
        col.data().var < col.context().vars().len(),
        col.data().rows@.len() == col.data().n_non_zeros,
        col.data().vals@.len() == col.data().n_non_zeros,
{
    assert(col_ok(col.data(), col.context().vars().len() as int));
}

impl Clone for Col {
    fn clone(&self) -> (copy: Col)
        ensures
            copy == *self,
    {
        proof {
            use_type_invariant(self);
        }
        Col { slot: self.slot, scip: Rc::clone(&self.scip) }
    }
}

/// Two columns are equal when the engine has them at one address, whatever
/// else their records hold.
impl PartialEq for Col {
    fn eq(&self, other: &Col) -> (same: bool) {
        self.inner() == other.inner()
    }
}

impl PartialEqSpecImpl for Col {
    open spec fn obeys_eq_spec() -> bool {
        true
    }

    open spec fn eq_spec(&self, other: &Col) -> bool {
        self.data().raw == other.data().raw
    }
}

/// Equality of columns is identity of the engine's address: it holds of a
/// column and itself, it does not depend on the order of the two, and it
/// carries over from one pair to the next.
pub proof fn lemma_column_eq_is_identity(a: Col, b: Col, c: Col)
    ensures
        PartialEqSpec::eq_spec(&a, &b) <==> a.data().raw == b.data().raw,
        PartialEqSpec::eq_spec(&a, &a),
        PartialEqSpec::eq_spec(&a, &b) ==> PartialEqSpec::eq_spec(&b, &a),
        PartialEqSpec::eq_spec(&a, &b) && PartialEqSpec::eq_spec(&b, &c) ==> PartialEqSpec::eq_spec(&a, &c),
{
}

} // verus!
