//! The engine context: what the native engine reports of its variables and
//! columns, held as plain records that the views read.

use vstd::prelude::*;
use crate::double::Double;

verus! {

/// The truth value of a flag of the engine: every value but zero is true.
pub fn native_bool(flag: u32) -> (yes: bool)
    ensures
        yes == (flag != 0),
{
    flag != 0
}

/// What the engine reports of one variable.
#[derive(Debug)]
pub struct VarData {
    /// The engine's address of the variable.
    pub raw: usize,
    /// The unique index of the variable.
    pub index: i32,
    /// The name of the variable.
    pub name: String,
    /// The objective coefficient.
    pub obj: Double,
    /// The local lower bound.
    pub lb_local: Double,
    /// The local upper bound.
    pub ub_local: Double,
    /// The solution value in the current node.
    pub sol_val: Double,
    /// The engine's code of the variable's type.
    pub var_type: u32,
    /// The engine's code of the variable's status.
    pub status: u32,
    /// Non-zero when the variable is a column of the current LP relaxation.
    pub in_lp: u32,
    /// The place of the variable's column among the context's columns. It is
    /// followed only while `in_lp` is non-zero.
    pub col: Option<usize>,
    /// Non-zero when the variable was deleted.
    pub deleted: u32,
    /// Non-zero when the variable belongs to the transformed problem.
    pub transformed: u32,
    /// Non-zero when the variable belongs to the original problem.
    pub original: u32,
    /// Non-zero when the variable is the negation of another.
    pub negated: u32,
    /// Non-zero when the variable may be removed from the LP by aging.
    pub removable: u32,
    /// Non-zero when the variable is the direct counterpart of an original one.
    pub trans_from_orig: u32,
    /// Non-zero when the variable is neither fixed nor aggregated.
    pub active: u32,
}

/// What the engine reports of one column of the LP relaxation.
#[derive(Debug)]
pub struct ColData {
    /// The engine's address of the column.
    pub raw: usize,
    /// The unique index of the column.
    pub index: i32,
    /// The objective coefficient.
    pub obj: Double,
    /// The lower bound.
    pub lb: Double,
    /// The upper bound.
    pub ub: Double,
    /// The better of the two bounds with respect to the objective.
    pub best_bound: Double,
    /// The primal LP solution.
    pub primal_sol: Double,
    /// The least LP solution value the column ever had.
    pub min_primal_sol: Double,
    /// The greatest LP solution value the column ever had.
    pub max_primal_sol: Double,
    /// The engine's code of the basis status.
    pub basis_status: u32,
    /// The position of the column's variable in the problem, negative when
    /// the variable is not active.
    pub var_probindex: i32,
    /// Non-zero when the column's variable is of integral type.
    pub integral: u32,
    /// Non-zero when the column may be removed from the LP.
    pub removable: u32,
    /// The position in the current LP, negative when the column is not in it.
    pub lp_pos: i32,
    /// The depth in the tree at which the column entered the LP, negative
    /// when it is not in it.
    pub lp_depth: i32,
    /// Non-zero when the column is in the current LP.
    pub in_lp: u32,
    /// The number of non-zero entries.
    pub n_non_zeros: i32,
    /// The number of non-zero entries in rows of the current LP.
    pub n_lp_non_zeros: i32,
    /// The engine's addresses of the rows of the non-zero entries.
    pub rows: Vec<usize>,
    /// The coefficients of the non-zero entries.
    pub vals: Vec<Double>,
    /// The number of the last node at which strong branching was used on the
    /// column, negative when it never was.
    pub strong_branching_node: i64,
    /// How often strong branching was applied to the column in this run.
    pub n_strong_branches: i32,
    /// How many times in a row the column was in the LP at value zero.
    pub age: i32,
    /// The place of the column's variable among the context's variables.
    pub var: usize,
}

/// A column record that the views can read: its counts are not negative,
/// its basis status is a known code, it has as many rows and coefficients as
/// it counts non-zero entries, and its variable is one of `n_vars`.
pub open spec fn col_ok(c: ColData, n_vars: int) -> bool {
    &&& c.index >= 0
    &&& c.basis_status <= 3
    &&& c.n_non_zeros >= 0
    &&& c.n_lp_non_zeros >= 0
    &&& c.n_strong_branches >= 0
    &&& c.age >= 0
    &&& c.rows@.len() == c.n_non_zeros
    &&& c.vals@.len() == c.n_non_zeros
    &&& c.var < n_vars
}

/// A variable record at place `i` that the views can read: its index is not
/// negative, its type and status are known codes, and while it is in the LP
/// its column is one of `cols` and leads back to place `i`.
pub open spec fn var_ok(v: VarData, i: int, cols: Seq<ColData>) -> bool {
    &&& v.index >= 0
    &&& v.var_type <= 3
    &&& v.status <= 6
    &&& v.in_lp != 0 ==> (v.col matches Some(c) && c < cols.len() && cols[c as int].var == i)
}

/// Every record can be read by the views.
pub open spec fn well_formed(vars: Seq<VarData>, cols: Seq<ColData>) -> bool {
    &&& forall|i: int| 0 <= i < vars.len() ==> var_ok(#[trigger] vars[i], i, cols)
    &&& forall|j: int| 0 <= j < cols.len() ==> col_ok(#[trigger] cols[j], vars.len() as int)
}

/// Why a set of records was not accepted as an engine context.
#[derive(Debug, Clone, Copy, PartialEq, Eq, Structural)]
pub enum ContextError {
    /// The variable record at this place cannot be read; those before it can.
    Variable(usize),
    /// Every variable record can be read, the column record at this place
    /// cannot; those before it can.
    Column(usize),
}

/// Whether a column record can be read.
fn check_col(c: &ColData, n_vars: usize) -> (ok: bool)
    ensures
        ok == col_ok(*c, n_vars as int),
{
    if c.index < 0 || c.basis_status > 3 || c.n_non_zeros < 0 || c.n_lp_non_zeros < 0
        || c.n_strong_branches < 0 || c.age < 0 {
        return false;
    }
    let n: usize = c.n_non_zeros as usize;
    c.rows.len() == n && c.vals.len() == n && c.var < n_vars
}

/// Whether the variable record at place `i` can be read.
fn check_var(v: &VarData, i: usize, cols: &Vec<ColData>) -> (ok: bool)
    ensures
        ok == var_ok(*v, i as int, cols@),
{
    if v.index < 0 || v.var_type > 3 || v.status > 6 {
        return false;
    }
    if !native_bool(v.in_lp) {
        return true;
    }
    match v.col {
        Some(c) => c < cols.len() && cols[c].var == i,
        None => false,
    }
}

/// The engine context: the records of its variables and columns, each one
/// readable by the views.
#[derive(Debug)]
pub struct Context {
    raw: usize,
    vars: Vec<VarData>,
    cols: Vec<ColData>,
}

impl Context {
    #[verifier::type_invariant]
    spec fn inv(self) -> bool {
        well_formed(self.vars@, self.cols@)
    }

    /// The engine's address of the context.
    pub closed spec fn addr(&self) -> usize {
        self.raw
    }

    /// The variable records, in their places.
    pub closed spec fn vars(&self) -> Seq<VarData> {
        self.vars@
    }

    /// The column records, in their places.
    pub closed spec fn cols(&self) -> Seq<ColData> {
        self.cols@
    }

    /// Accepts the records as an engine context if every one of them can be
    /// read, and else names the first that cannot: a variable before any
    /// column.
    pub fn new(raw: usize, vars: Vec<VarData>, cols: Vec<ColData>) -> (made: Result<
        Context,
        ContextError,
    >)
        ensures
            match made {
                Ok(ctx) => {
                    &&& well_formed(vars@, cols@)
                    &&& ctx.addr() == raw
                    &&& ctx.vars() == vars@
                    &&& ctx.cols() == cols@
                },
                Err(ContextError::Variable(i)) => {
                    &&& i < vars@.len()
                    &&& !var_ok(vars@[i as int], i as int, cols@)
                    &&& forall|k: int| 0 <= k < i ==> var_ok(#[trigger] vars@[k], k, cols@)
                },
                Err(ContextError::Column(j)) => {
                    &&& forall|k: int|
                        0 <= k < vars@.len() ==> var_ok(#[trigger] vars@[k], k, cols@)
                    &&& j < cols@.len()
                    &&& !col_ok(cols@[j as int], vars@.len() as int)
                    &&& forall|k: int|
                        0 <= k < j ==> col_ok(#[trigger] cols@[k], vars@.len() as int)
                },
            },
    {
        let mut i: usize = 0;
        while i < vars.len()
            invariant
                i <= vars@.len(),
                forall|k: int| 0 <= k < i ==> var_ok(#[trigger] vars@[k], k, cols@),
            decreases vars@.len() - i,
        {
            if !check_var(&vars[i], i, &cols) {
                return Err(ContextError::Variable(i));
            }
            i += 1;
        }
        let n_vars: usize = vars.len();
        let mut j: usize = 0;
        while j < cols.len()
            invariant
                j <= cols@.len(),
                n_vars == vars@.len(),
                forall|k: int| 0 <= k < vars@.len() ==> var_ok(#[trigger] vars@[k], k, cols@),
                forall|k: int| 0 <= k < j ==> col_ok(#[trigger] cols@[k], n_vars as int),
            decreases cols@.len() - j,
        {
            if !check_col(&cols[j], n_vars) {
                return Err(ContextError::Column(j));
            }
            j += 1;
        }
        Ok(Context { raw, vars, cols })
    }

    /// The engine's address of the context.
    pub fn inner(&self) -> (raw: usize)
        ensures
            raw == self.addr(),
    {
        self.raw
    }

    /// The number of variable records.
    pub fn n_vars(&self) -> (n: usize)
        ensures
            n == self.vars().len(),
    {
        self.vars.len()
    }

    /// The number of column records.
    pub fn n_cols(&self) -> (n: usize)
        ensures
            n == self.cols().len(),
    {
        self.cols.len()
    }

    /// The variable record at `slot`, with what holds of every record.
    pub(crate) fn var_data(&self, slot: usize) -> (v: &VarData)
        requires
            slot < self.vars().len(),
        ensures
            *v == self.vars()[slot as int],
            var_ok(*v, slot as int, self.cols()),
            well_formed(self.vars(), self.cols()),
    {
        proof {
            use_type_invariant(self);
        }
        &self.vars[slot]
    }

    /// The column record at `slot`, with what holds of every record.
    pub(crate) fn col_data(&self, slot: usize) -> (c: &ColData)
        requires
            slot < self.cols().len(),
        ensures
            *c == self.cols()[slot as int],
            col_ok(*c, self.vars().len() as int),
            well_formed(self.vars(), self.cols()),
    {
        proof {
            use_type_invariant(self);
        }
        &self.cols[slot]
    }
}

} // verus!
