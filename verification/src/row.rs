//! Rows of the LP relaxation, and the basis status of a row or column.

use std::rc::Rc;
use vstd::prelude::*;
use crate::engine::Context;

verus! {

/// The status of a row or column in the basis of the LP solution.
#[derive(Debug, Clone, Copy, PartialEq, Eq, Structural)]
pub enum BasisStatus {
    /// At its lower bound.
    Lower,
    /// In the basis.
    Basic,
    /// At its upper bound.
    Upper,
    /// Free and at zero.
    Zero,
}

impl BasisStatus {
    /// The engine's code of the status.
    pub open spec fn code(self) -> u32 {
        match self {
            BasisStatus::Lower => 0u32,
            BasisStatus::Basic => 1u32,
            BasisStatus::Upper => 2u32,
            BasisStatus::Zero => 3u32,
        }
    }

    /// The status that the engine's code stands for, if it stands for one.
    pub open spec fn decode(code: u32) -> Option<BasisStatus> {
        if code == 0 {
            Some(BasisStatus::Lower)
        } else if code == 1 {
            Some(BasisStatus::Basic)
        } else if code == 2 {
            Some(BasisStatus::Upper)
        } else if code == 3 {
            Some(BasisStatus::Zero)
        } else {
            None
        }
    }

    /// The status that the engine's code stands for; none for a code that
    /// the engine does not define.
    pub fn from_native(code: u32) -> (status: Option<BasisStatus>)
        ensures
            status == BasisStatus::decode(code),
    {
        match code {
            0 => Some(BasisStatus::Lower),
            1 => Some(BasisStatus::Basic),
            2 => Some(BasisStatus::Upper),
            3 => Some(BasisStatus::Zero),
            _ => None,
        }
    }

    /// The status that the engine's code stands for, for a code that the engine
    /// defines.
    pub fn from_code(code: u32) -> (status: BasisStatus)
        requires
            code <= 3,
        ensures
            status.code() == code,
            BasisStatus::decode(code) == Some(status),
    {
        BasisStatus::from_native(code).unwrap()
    }
}

/// Each status is found again from its code, and a code that stands for a
/// status is the code of that status.
pub proof fn lemma_basis_status_codes(status: BasisStatus, code: u32)
    ensures
        BasisStatus::decode(status.code()) == Some(status),
        BasisStatus::decode(code) == Some(status) <==> code == status.code(),
        BasisStatus::decode(code).is_some() <==> code <= 3,
{
}

/// A row of the LP relaxation: the engine's address of the row, and a share
/// in the context that it lives in.
#[derive(Debug)]
pub struct Row {
    raw: usize,
    scip: Rc<Context>,
}

impl Row {
    /// The engine's address of the row.
    pub closed spec fn addr(&self) -> usize {
        self.raw
    }

    /// The context that the row lives in.
    pub closed spec fn context(&self) -> Context {
        *self.scip
    }

    /// The row at the address `raw` of the context `scip`.
    pub fn new(scip: &Rc<Context>, raw: usize) -> (row: Row)
        ensures
            row.addr() == raw,
            row.context() == **scip,
    {
        Row { raw, scip: Rc::clone(scip) }
    }

    /// The engine's address of the row.
    pub fn inner(&self) -> (raw: usize)
        ensures
            raw == self.addr(),
    {
        self.raw
    }
}

} // verus!
