//! Sessions on an engine context, tagged with the phase they are in.

use std::rc::Rc;
use vstd::prelude::*;
use crate::engine::Context;
use crate::variable::Variable;

verus! {

/// The phase in which the problem is built.
#[derive(Debug, Clone, Copy, PartialEq, Eq, Structural)]
pub struct ProblemBuilding;

/// The phase in which the engine solves.
#[derive(Debug, Clone, Copy, PartialEq, Eq, Structural)]
pub struct Solving;

/// The phase after the engine has solved.
#[derive(Debug, Clone, Copy, PartialEq, Eq, Structural)]
pub struct Solved;

/// A session on an engine context in the phase `State`.
pub struct Model<State> {
    scip: Rc<Context>,
    state: State,
}

impl<State> Model<State> {
    /// The context that the session works on.
    pub closed spec fn context(&self) -> Context {
        *self.scip
    }

    /// The session on the context `scip` in the phase `state`.
    pub fn new(scip: Rc<Context>, state: State) -> (model: Model<State>)
        ensures
            model.context() == *scip,
    {
        Model { scip, state }
    }

    /// The number of variables of the context.
    pub fn n_vars(&self) -> (n: usize)
        ensures
            n == self.context().vars().len(),
    {
        self.scip.n_vars()
    }

    /// The variables of the context, each at its place.
    pub fn vars(&self) -> (vars: Vec<Variable>)
        ensures
            vars@.len() == self.context().vars().len(),
            forall|i: int|
                0 <= i < vars@.len() ==> {
                    &&& (#[trigger] vars@[i]).wf()
                    &&& vars@[i].slot() == i
                    &&& vars@[i].context() == self.context()
                },
    {
        let n: usize = self.scip.n_vars();
        let mut vars: Vec<Variable> = Vec::with_capacity(n);
        let mut i: usize = 0;
        while i < n
            invariant
                i <= n,
                n == self.context().vars().len(),
                vars@.len() == i,
                forall|k: int|
                    0 <= k < i ==> {
                        &&& (#[trigger] vars@[k]).wf()
                        &&& vars@[k].slot() == k
                        &&& vars@[k].context() == self.context()
                    },
            decreases n - i,
        {
            vars.push(Variable::at(Rc::clone(&self.scip), i));
            i += 1;
        }
        vars
    }
}

} // verus!
