//! Variables of the problem, as views into the engine context.

use std::rc::Rc;
use vstd::prelude::*;
use vstd::std_specs::cmp::PartialEqSpec;
use vstd::std_specs::cmp::PartialEqSpecImpl;
use vstd::std_specs::convert::FromSpecImpl;
use crate::col::Col;
use crate::double::Double;
use crate::engine::Context;
use crate::engine::VarData;
use crate::engine::var_ok;
use crate::engine::native_bool;
use crate::engine::well_formed;

verus! {

/// The kind of values that a variable may take.
#[derive(Debug, PartialEq, Eq, Structural, Clone, Copy)]
pub enum VarType {
    /// Any real value.
    Continuous,
    /// Integer values.
    Integer,
    /// Zero or one.
    Binary,
    /// Integer values, implied by the constraints rather than demanded.
    ImplInt,
}

impl VarType {
    /// The engine's code of the type.
    pub open spec fn code(self) -> u32 {
        match self {
            VarType::Binary => 0u32,
            VarType::Integer => 1u32,
            VarType::ImplInt => 2u32,
            VarType::Continuous => 3u32,
        }
    }

    /// The type that the engine's code stands for, if it stands for one.
    pub open spec fn decode(code: u32) -> Option<VarType> {
        if code == 0 {
            Some(VarType::Binary)
        } else if code == 1 {
            Some(VarType::Integer)
        } else if code == 2 {
            Some(VarType::ImplInt)
        } else if code == 3 {
            Some(VarType::Continuous)
        } else {
            None
        }
    }

    /// The type that the engine's code stands for; none for a code that the
    /// engine does not define.
    pub fn from_native(code: u32) -> (var_type: Option<VarType>)
        ensures
            var_type == VarType::decode(code),
    {
        match code {
            0 => Some(VarType::Binary),
            1 => Some(VarType::Integer),
            2 => Some(VarType::ImplInt),
            3 => Some(VarType::Continuous),
            _ => None,
        }
    }

    /// The type that the engine's code stands for, for a code that the engine
    /// defines.
    pub fn from_code(code: u32) -> (var_type: VarType)
        requires
            code <= 3,
        ensures
            var_type.code() == code,
            VarType::decode(code) == Some(var_type),
    {
        VarType::from_native(code).unwrap()
    }
}

impl From<VarType> for u32 {
    fn from(var_type: VarType) -> (code: u32) {
        match var_type {
            VarType::Continuous => 3,
            VarType::Integer => 1,
            VarType::Binary => 0,
            VarType::ImplInt => 2,
        }
    }
}

impl FromSpecImpl<VarType> for u32 {
    open spec fn obeys_from_spec() -> bool {
        true
    }

    open spec fn from_spec(var_type: VarType) -> u32 {
        var_type.code()
    }
}

/// Each type is found again from its code, and a code that stands for a type
/// is the code of that type.
pub proof fn lemma_var_type_codes(var_type: VarType, code: u32)
    ensures
        VarType::decode(var_type.code()) == Some(var_type),
        VarType::decode(code) == Some(var_type) <==> code == var_type.code(),
        VarType::decode(code).is_some() <==> code <= 3,
{
}

/// The standing of a variable in the engine.
#[derive(Debug, PartialEq, Eq, Structural, Clone, Copy)]
pub enum VarStatus {
    /// A variable of the original problem.
    Original,
    /// A loose variable of the transformed problem.
    Loose,
    /// A column of the transformed problem.
    Column,
    /// A fixed variable of the transformed problem.
    Fixed,
    /// An aggregated variable of the transformed problem.
    Aggregated,
    /// A multi-aggregated variable of the transformed problem.
    MultiAggregated,
    /// The negation of another variable.
    NegatedVar,
}

impl VarStatus {
    /// The engine's code of the status.
    pub open spec fn code(self) -> u32 {
        match self {
            VarStatus::Original => 0u32,
            VarStatus::Loose => 1u32,
            VarStatus::Column => 2u32,
            VarStatus::Fixed => 3u32,
            VarStatus::Aggregated => 4u32,
            VarStatus::MultiAggregated => 5u32,
            VarStatus::NegatedVar => 6u32,
        }
    }

    /// The status that the engine's code stands for, if it stands for one.
    pub open spec fn decode(code: u32) -> Option<VarStatus> {
        if code == 0 {
            Some(VarStatus::Original)
        } else if code == 1 {
            Some(VarStatus::Loose)
        } else if code == 2 {
            Some(VarStatus::Column)
        } else if code == 3 {
            Some(VarStatus::Fixed)
        } else if code == 4 {
            Some(VarStatus::Aggregated)
        } else if code == 5 {
            Some(VarStatus::MultiAggregated)
        } else if code == 6 {
            Some(VarStatus::NegatedVar)
        } else {
            None
        }
    }

    /// The status that the engine's code stands for; none for a code that
    /// the engine does not define.
    pub fn from_native(code: u32) -> (status: Option<VarStatus>)
        ensures
            status == VarStatus::decode(code),
    {
        match code {
            0 => Some(VarStatus::Original),
            1 => Some(VarStatus::Loose),
            2 => Some(VarStatus::Column),
            3 => Some(VarStatus::Fixed),
            4 => Some(VarStatus::Aggregated),
            5 => Some(VarStatus::MultiAggregated),
            6 => Some(VarStatus::NegatedVar),
            _ => None,
        }
    }

    /// The status that the engine's code stands for, for a code that the engine
    /// defines.
    pub fn from_code(code: u32) -> (status: VarStatus)
        requires
            code <= 6,
        ensures
            status.code() == code,
            VarStatus::decode(code) == Some(status),
    {
        VarStatus::from_native(code).unwrap()
    }
}

/// Each status is found again from its code, and a code that stands for a
/// status is the code of that status.
pub proof fn lemma_var_status_codes(status: VarStatus, code: u32)
    ensures
        VarStatus::decode(status.code()) == Some(status),
        VarStatus::decode(code) == Some(status) <==> code == status.code(),
        VarStatus::decode(code).is_some() <==> code <= 6,
{
}

/// A variable: a place among the variables of an engine context, and a share
/// in that context.
#[derive(Debug)]
pub struct Variable {
    slot: usize,
    scip: Rc<Context>,
}

impl Variable {
    #[verifier::type_invariant]
    spec fn inv(self) -> bool {
        self.slot < self.scip.vars().len()
    }

    /// The place of the variable among the variables of its context.
    pub closed spec fn slot(&self) -> usize {
        self.slot
    }

    /// The context that the variable lives in.
    pub closed spec fn context(&self) -> Context {
        *self.scip
    }

    /// What the engine reports of the variable.
    pub open spec fn data(&self) -> VarData {
        self.context().vars()[self.slot() as int]
    }

    /// The variable has a record, and every record of its context can be
    /// read. It holds of every variable that this library hands out.
    pub open spec fn wf(&self) -> bool {
        &&& self.slot() < self.context().vars().len()
        &&& well_formed(self.context().vars(), self.context().cols())
    }

    /// The variable at `slot` of the context `scip`, if the context has so
    /// many variables.
    pub fn new(scip: &Rc<Context>, slot: usize) -> (var: Option<Variable>)
        ensures
            var.is_some() <==> slot < scip.vars().len(),
            var matches Some(v) ==> v.wf() && v.slot() == slot && v.context() == **scip,
    {
        if slot < scip.n_vars() {
            Some(Variable::at(Rc::clone(scip), slot))
        } else {
            None
        }
    }

    /// The variable at `slot`, which the context has.
    pub(crate) fn at(scip: Rc<Context>, slot: usize) -> (var: Variable)
        requires
            slot < scip.vars().len(),
        ensures
            var.wf(),
            var.slot() == slot,
            var.context() == *scip,
    {
        let _ = scip.var_data(slot);
        Variable { slot, scip }
    }

    /// The record of the variable, with what holds of every record.
    fn record(&self) -> (v: &VarData)
        ensures
            *v == self.data(),
            var_ok(*v, self.slot() as int, self.context().cols()),
            self.wf(),
    {
        proof {
            use_type_invariant(self);
        }
        self.scip.var_data(self.slot)
    }

    /// The engine's address of the variable.
    pub fn inner(&self) -> (raw: usize)
        ensures
            raw == self.data().raw,
    {
        self.record().raw
    }

    /// The index of the variable.
    pub fn index(&self) -> (id: usize)
        ensures
            id == self.data().index,
    {
        let id: i32 = self.record().index;
        id as usize
    }

    /// The name of the variable.
    pub fn name(&self) -> (name: String)
        ensures
            name@ == self.data().name@,
    {
        self.record().name.clone()
    }

    /// The objective coefficient of the variable.
    pub fn obj(&self) -> (value: Double)
        ensures
            value == self.data().obj,
    {
        self.record().obj
    }

    /// The lower bound of the variable: its local lower bound.
    pub fn lb(&self) -> (value: Double)
        ensures
            value == self.data().lb_local,
    {
        self.record().lb_local
    }

    /// The upper bound of the variable: its local upper bound.
    pub fn ub(&self) -> (value: Double)
        ensures
            value == self.data().ub_local,
    {
        self.record().ub_local
    }

    /// The local lower bound of the variable.
    pub fn lb_local(&self) -> (value: Double)
        ensures
            value == self.data().lb_local,
    {
        self.record().lb_local
    }

    /// The local upper bound of the variable.
    pub fn ub_local(&self) -> (value: Double)
        ensures
            value == self.data().ub_local,
    {
        self.record().ub_local
    }

    /// The type of the variable.
    pub fn var_type(&self) -> (var_type: VarType)
        ensures
            var_type.code() == self.data().var_type,
    {
        VarType::from_code(self.record().var_type)
    }

    /// The status of the variable.
    pub fn status(&self) -> (status: VarStatus)
        ensures
            status.code() == self.data().status,
    {
        VarStatus::from_code(self.record().status)
    }

    /// The column of the variable: present exactly while the variable is in
    /// the LP relaxation, and then the column that its record names, whose
    /// own record names the variable.
    pub fn col(&self) -> (col: Option<Col>)
        ensures
            self.wf(),
            col.is_some() <==> self.data().in_lp != 0,
            col matches Some(c) ==> {
                &&& c.wf()
                &&& c.context() == self.context()
                &&& self.data().col == Some(c.slot())
                &&& c.data().var == self.slot()
            },
    {
        let record = self.record();
        if self.is_in_lp() {
            match record.col {
                Some(c) => Some(Col::at(Rc::clone(&self.scip), c)),
                None => None,
            }
        } else {
            None
        }
    }

    /// Whether the variable is a column of the current LP relaxation.
    pub fn is_in_lp(&self) -> (yes: bool)
        ensures
            yes == (self.data().in_lp != 0),
    {
        native_bool(self.record().in_lp)
    }

    /// The solution value of the variable in the current node.
    pub fn sol_val(&self) -> (value: Double)
        ensures
            value == self.data().sol_val,
    {
        self.record().sol_val
    }

    /// Whether the variable was deleted.
    pub fn is_deleted(&self) -> (yes: bool)
        ensures
            yes == (self.data().deleted != 0),
    {
        native_bool(self.record().deleted)
    }

    /// Whether the variable belongs to the transformed problem.
    pub fn is_transformed(&self) -> (yes: bool)
        ensures
            yes == (self.data().transformed != 0),
    {
        native_bool(self.record().transformed)
    }

    /// Whether the variable belongs to the original problem.
    pub fn is_original(&self) -> (yes: bool)
        ensures
            yes == (self.data().original != 0),
    {
        native_bool(self.record().original)
    }

    /// Whether the variable is the negation of another.
    pub fn is_negated(&self) -> (yes: bool)
        ensures
            yes == (self.data().negated != 0),
    {
        native_bool(self.record().negated)
    }

    /// Whether the variable may be removed from the LP by aging.
    pub fn is_removable(&self) -> (yes: bool)
        ensures
            yes == (self.data().removable != 0),
    {
        native_bool(self.record().removable)
    }

    /// Whether the variable is the direct counterpart of an original one.
    pub fn is_trans_from_orig(&self) -> (yes: bool)
        ensures
            yes == (self.data().trans_from_orig != 0),
    {
        native_bool(self.record().trans_from_orig)
    }

    /// Whether the variable is neither fixed nor aggregated.
    pub fn is_active(&self) -> (yes: bool)
        ensures
            yes == (self.data().active != 0),
    {
        native_bool(self.record().active)
    }
}

/// Two views of one place in one context report the same record, and with
/// it the same index, whatever was asked of either in between.
pub proof fn lemma_same_place_same_record(a: Variable, b: Variable)
    requires
        a.slot() == b.slot(),
        a.context() == b.context(),
    ensures
        a.data() == b.data(),
        a.data().index == b.data().index,
{
}

/// While a variable is in the LP relaxation, its record names a column of
/// the same context, and the record of that column names the variable.
pub proof fn lemma_column_leads_back(var: Variable)
    requires
        var.wf(),
        var.data().in_lp != 0,
    ensures
        var.data().col matches Some(c) && c < var.context().cols().len()
            && var.context().cols()[c as int].var == var.slot(),
{
    assert(var_ok(var.data(), var.slot() as int, var.context().cols()));
}

impl Clone for Variable {
    fn clone(&self) -> (copy: Variable)
        ensures
            copy == *self,
    {
        proof {
            use_type_invariant(self);
        }
        Variable { slot: self.slot, scip: Rc::clone(&self.scip) }
    }
}

/// Two variables are equal when the engine has them at one address, whatever
/// else their records hold.
impl PartialEq for Variable {
    fn eq(&self, other: &Variable) -> (same: bool) {
        self.inner() == other.inner()
    }
}

impl PartialEqSpecImpl for Variable {
    open spec fn obeys_eq_spec() -> bool {
        true
    }

    open spec fn eq_spec(&self, other: &Variable) -> bool {
        self.data().raw == other.data().raw
    }
}

/// Equality of variables is identity of the engine's address: it holds of a
/// variable and itself, it does not depend on the order of the two, and it
/// carries over from one pair to the next.
pub proof fn lemma_variable_eq_is_identity(a: Variable, b: Variable, c: Variable)
    ensures
        PartialEqSpec::eq_spec(&a, &b) <==> a.data().raw == b.data().raw,
        PartialEqSpec::eq_spec(&a, &a),
        PartialEqSpec::eq_spec(&a, &b) ==> PartialEqSpec::eq_spec(&b, &a),
        PartialEqSpec::eq_spec(&a, &b) && PartialEqSpec::eq_spec(&b, &c) ==> PartialEqSpec::eq_spec(&a, &c),
{
}

impl Eq for Variable {

}

} // verus!
